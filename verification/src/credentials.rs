//! Which credential to hand to the transport when it asks for one.
//!
//! The transport may ask several times during one operation, each time with
//! the mechanisms that it still accepts. The answer depends on the request
//! and on the caller's token alone.
use crate::text::{normalize, normalized};
use vstd::prelude::*;
use vstd::string::*;

verus! {

/// The authentication mechanisms that the transport accepts in one request.
#[derive(Clone, Copy, Debug, PartialEq, Eq)]
pub struct AllowedMechanisms {
    /// A user name with a password in plain text.
    pub user_pass_plaintext: bool,
    /// An SSH key.
    pub ssh_key: bool,
    /// A user name alone.
    pub username: bool,
}

/// One request of the transport for a credential.
#[derive(Clone, Debug, PartialEq, Eq)]
pub struct CredentialRequest {
    /// The remote that asks.
    pub url: String,
    /// The user name that the remote's address carries, if any.
    pub username_hint: Option<String>,
    /// What the transport accepts this time.
    pub allowed: AllowedMechanisms,
}

/// The credential to build for the transport.
#[derive(Clone, Debug, PartialEq, Eq)]
pub enum Credential {
    /// A user name and the token as its password.
    UserPassPlaintext { username: String, password: String },
    /// The key that the platform's SSH agent holds for the user.
    SshKeyFromAgent { username: String },
    /// A user name and nothing else.
    Username { username: String },
    /// The engine's default credential, which names nobody.
    Default,
}

/// The mathematical value of a [`Credential`].
pub enum CredentialView {
    UserPassPlaintext { username: Seq<char>, password: Seq<char> },
    SshKeyFromAgent { username: Seq<char> },
    Username { username: Seq<char> },
    Default,
}

impl View for Credential {
    type V = CredentialView;

    open spec fn view(&self) -> CredentialView {
        match *self {
            Credential::UserPassPlaintext { username, password } => {
                CredentialView::UserPassPlaintext { username: username@, password: password@ }
            },
            Credential::SshKeyFromAgent { username } => CredentialView::SshKeyFromAgent {
                username: username@,
            },
            Credential::Username { username } => CredentialView::Username { username: username@ },
            Credential::Default => CredentialView::Default,
        }
    }
}

/// The user name that goes with a token where the remote's address has none.
pub open spec fn token_user() -> Seq<char> {
    "x-access-token"@
}

/// The user name that is offered alone where the remote's address has none.
pub open spec fn fallback_user() -> Seq<char> {
    "git"@
}

/// The credential for a request: the first of these that applies.
///
/// 1. a token, where a plain-text password is accepted;
/// 2. the SSH agent's key, where an SSH key is accepted and a user is named;
/// 3. a user name alone, where that is accepted;
/// 4. the default credential.
pub open spec fn negotiated(
    hint: Option<Seq<char>>,
    allowed: AllowedMechanisms,
    token: Option<Seq<char>>,
) -> CredentialView {
    if token is Some && allowed.user_pass_plaintext {
        CredentialView::UserPassPlaintext {
            username: if hint is Some {
                hint->0
            } else {
                token_user()
            },
            password: token->0,
        }
    } else if allowed.ssh_key && hint is Some {
        CredentialView::SshKeyFromAgent { username: hint->0 }
    } else if allowed.username {
        CredentialView::Username {
            username: if hint is Some {
                hint->0
            } else {
                fallback_user()
            },
        }
    } else {
        CredentialView::Default
    }
}

/// The token as the transport is to see it: trimmed, and absent where it was
/// empty or white space.
pub fn normalize_token(token: Option<String>) -> (r: Option<String>)
    ensures
        r.deep_view() == match token.deep_view() {
            Some(text) => normalized(text),
            None => None,
        },
{
    match token {
        Some(text) => normalize(text.as_str()),
        None => None,
    }
}

/// Answers one request of the transport. It keeps no state: the transport may
/// ask again with fewer mechanisms, and is answered by the same rule.
pub fn negotiate(request: &CredentialRequest, token: &Option<String>) -> (r: Credential)
    ensures
        r@ == negotiated(request.username_hint.deep_view(), request.allowed, token.deep_view()),
{
    if let Some(secret) = token {
        if request.allowed.user_pass_plaintext {
            let username = match &request.username_hint {
                Some(name) => name.clone(),
                None => String::from_str("x-access-token"),
            };
            return Credential::UserPassPlaintext { username, password: secret.clone() };
        }
    }
    if request.allowed.ssh_key {
        if let Some(name) = &request.username_hint {
            return Credential::SshKeyFromAgent { username: name.clone() };
        }
    }
    if request.allowed.username {
        let username = match &request.username_hint {
            Some(name) => name.clone(),
            None => String::from_str("git"),
        };
        return Credential::Username { username };
    }
    Credential::Default
}

/// A token is used exactly where there is one and a plain-text password is
/// accepted; it then goes with the user of the remote's address, or with
/// `x-access-token` where the address names none.
pub proof fn law_token_goes_with_plaintext(
    hint: Option<Seq<char>>,
    allowed: AllowedMechanisms,
    token: Option<Seq<char>>,
)
    ensures
        negotiated(hint, allowed, token) is UserPassPlaintext <==> token is Some
            && allowed.user_pass_plaintext,
        token is Some && allowed.user_pass_plaintext ==> negotiated(hint, allowed, token)
            == (CredentialView::UserPassPlaintext {
            username: if hint is Some {
                hint->0
            } else {
                token_user()
            },
            password: token->0,
        }),
{
}

/// Without a token, a request that accepts an SSH key and names a user is
/// answered with the agent's key for that user, whatever else it accepts;
/// and no request without a token is answered with a password.
pub proof fn law_agent_key_without_token(hint: Option<Seq<char>>, allowed: AllowedMechanisms)
    ensures
        !(negotiated(hint, allowed, None) is UserPassPlaintext),
        allowed.ssh_key && hint is Some ==> negotiated(hint, allowed, None)
            == (CredentialView::SshKeyFromAgent { username: hint->0 }),
{
}

/// A request that accepts nothing the library can offer gets the default
/// credential.
pub proof fn law_default_when_nothing_applies(hint: Option<Seq<char>>, token: Option<Seq<char>>)
    ensures
        negotiated(
            hint,
            AllowedMechanisms { user_pass_plaintext: false, ssh_key: false, username: false },
            token,
        ) == CredentialView::Default,
{
}

} // verus!
