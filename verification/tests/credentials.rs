use workspace_core::credentials::{
    negotiate, normalize_token, AllowedMechanisms, Credential, CredentialRequest,
};

fn request(hint: Option<&str>, plaintext: bool, ssh: bool, username: bool) -> CredentialRequest {
    CredentialRequest {
        url: "https://example.com/repo.git".to_string(),
        username_hint: hint.map(|h| h.to_string()),
        allowed: AllowedMechanisms { user_pass_plaintext: plaintext, ssh_key: ssh, username },
    }
}

#[test]
fn token_with_plaintext_only_uses_the_default_user() {
    let got = negotiate(&request(None, true, false, false), &Some("secret".to_string()));
    assert_eq!(
        got,
        Credential::UserPassPlaintext {
            username: "x-access-token".to_string(),
            password: "secret".to_string()
        }
    );
}

#[test]
fn token_with_plaintext_only_uses_the_hint() {
    let got = negotiate(&request(Some("alice"), true, false, false), &Some("secret".to_string()));
    assert_eq!(
        got,
        Credential::UserPassPlaintext {
            username: "alice".to_string(),
            password: "secret".to_string()
        }
    );
}

#[test]
fn no_token_with_ssh_only_asks_the_agent() {
    let got = negotiate(&request(Some("git"), false, true, false), &None);
    assert_eq!(got, Credential::SshKeyFromAgent { username: "git".to_string() });
}

#[test]
fn no_token_with_everything_allowed_never_gives_a_password() {
    let got = negotiate(&request(Some("git"), true, true, true), &None);
    assert_eq!(got, Credential::SshKeyFromAgent { username: "git".to_string() });
    let got = negotiate(&request(None, true, true, true), &None);
    assert_eq!(got, Credential::Username { username: "git".to_string() });
    let got = negotiate(&request(None, true, false, false), &None);
    assert_eq!(got, Credential::Default);
}

#[test]
fn token_wins_over_the_agent_where_plaintext_is_allowed() {
    let got = negotiate(&request(Some("bob"), true, true, true), &Some("t".to_string()));
    assert_eq!(
        got,
        Credential::UserPassPlaintext { username: "bob".to_string(), password: "t".to_string() }
    );
}

#[test]
fn token_is_not_used_where_plaintext_is_not_allowed() {
    let got = negotiate(&request(Some("bob"), false, true, true), &Some("t".to_string()));
    assert_eq!(got, Credential::SshKeyFromAgent { username: "bob".to_string() });
    let got = negotiate(&request(Some("bob"), false, false, true), &Some("t".to_string()));
    assert_eq!(got, Credential::Username { username: "bob".to_string() });
    let got = negotiate(&request(Some("bob"), false, false, false), &Some("t".to_string()));
    assert_eq!(got, Credential::Default);
}

#[test]
fn ssh_without_a_user_falls_through() {
    let got = negotiate(&request(None, false, true, false), &None);
    assert_eq!(got, Credential::Default);
    let got = negotiate(&request(None, false, true, true), &None);
    assert_eq!(got, Credential::Username { username: "git".to_string() });
}

#[test]
fn username_only_uses_the_hint_or_git() {
    let got = negotiate(&request(Some("carol"), false, false, true), &None);
    assert_eq!(got, Credential::Username { username: "carol".to_string() });
    let got = negotiate(&request(None, false, false, true), &None);
    assert_eq!(got, Credential::Username { username: "git".to_string() });
}

#[test]
fn negotiation_can_be_repeated_with_fewer_mechanisms() {
    let token = Some("t".to_string());
    let first = negotiate(&request(Some("dave"), true, true, true), &token);
    let second = negotiate(&request(Some("dave"), false, true, true), &token);
    let third = negotiate(&request(Some("dave"), false, false, true), &token);
    let again = negotiate(&request(Some("dave"), true, true, true), &token);
    assert_eq!(
        first,
        Credential::UserPassPlaintext { username: "dave".to_string(), password: "t".to_string() }
    );
    assert_eq!(second, Credential::SshKeyFromAgent { username: "dave".to_string() });
    assert_eq!(third, Credential::Username { username: "dave".to_string() });
    assert_eq!(again, first);
}

#[test]
fn tokens_are_trimmed_and_blank_ones_dropped() {
    assert_eq!(normalize_token(None), None);
    assert_eq!(normalize_token(Some(String::new())), None);
    assert_eq!(normalize_token(Some("   ".to_string())), None);
    assert_eq!(normalize_token(Some("  abc \n".to_string())), Some("abc".to_string()));
    assert_eq!(normalize_token(Some("abc".to_string())), Some("abc".to_string()));
}
