//! Which repository an operation works on.
//!
//! An operation may name a path, and the store may remember the path that
//! was opened last. A path that is named comes first. The remembered path is
//! a safety net: it is tried only after the named one has failed to open,
//! and only where it is another path. Nothing else is ever tried.
use crate::engine::{out_of_turn, out_of_turn_error};
use crate::error::{Error, ErrorView};
use crate::store::{get_last_opened_repo, stored_view, text_of, StoredValue};
use crate::text::{normalize, normalized, same_text, trim, trimmed};
use vstd::prelude::*;
use vstd::string::*;

verus! {

/// What became of the last attempt to open a repository.
#[derive(Clone, Copy, Debug, PartialEq, Eq, Structural)]
pub enum OpenEvent {
    /// Nothing was attempted yet.
    Begin,
    /// The repository at the path is open.
    Opened,
    /// No repository could be opened at the path.
    Refused,
}

/// What to do next to get a repository.
#[derive(Debug, PartialEq, Eq)]
pub enum OpenStep {
    /// Try to open the repository at this path, and come back with what
    /// became of it.
    Attempt(String),
    /// Work on the repository that was just opened, which is at this path.
    Use(String),
    /// Give up.
    Reject(Error),
}

/// The mathematical value of an [`OpenStep`].
pub enum OpenStepView {
    Attempt(Seq<char>),
    Use(Seq<char>),
    Reject(ErrorView),
}

impl View for OpenStep {
    type V = OpenStepView;

    open spec fn view(&self) -> OpenStepView {
        match *self {
            OpenStep::Attempt(path) => OpenStepView::Attempt(path@),
            OpenStep::Use(path) => OpenStepView::Use(path@),
            OpenStep::Reject(error) => OpenStepView::Reject(error@),
        }
    }
}

/// Which attempt a resolver is waiting for.
#[derive(Clone, Copy, Debug, PartialEq, Eq, Structural)]
pub enum OpenStage {
    /// None yet.
    Start,
    /// The named path.
    Explicit,
    /// The remembered path, after the named one has failed.
    Fallback,
    /// The remembered path, where none was named.
    Persisted,
    /// None: the resolver is done.
    Finished,
}

/// The search for the repository of one operation.
#[derive(Debug)]
pub struct PathResolver {
    explicit: Option<String>,
    persisted: String,
    stage: OpenStage,
}

/// The mathematical value of a [`PathResolver`]: the named path, if one is
/// left after trimming; the remembered path, trimmed; and the attempt that
/// is awaited.
pub struct PathResolverView {
    pub explicit: Option<Seq<char>>,
    pub persisted: Seq<char>,
    pub stage: OpenStage,
}

impl View for PathResolver {
    type V = PathResolverView;

    closed spec fn view(&self) -> PathResolverView {
        PathResolverView {
            explicit: self.explicit.deep_view(),
            persisted: self.persisted@,
            stage: self.stage,
        }
    }
}

/// The repository that an operation works on, or the failure, where `opens`
/// tells of each path whether a repository opens there.
///
/// A named path that opens is used. Where it does not open, the remembered
/// path is tried if there is one and it is another path. Without a named
/// path the remembered one is used, if there is one.
pub open spec fn resolution(
    explicit: Option<Seq<char>>,
    persisted: Seq<char>,
    opens: spec_fn(Seq<char>) -> bool,
) -> Result<Seq<char>, ErrorView> {
    match explicit {
        Some(path) => {
            if opens(path) {
                Ok(path)
            } else if persisted.len() == 0 || persisted == path {
                Err(ErrorView::RepositoryOpenFailed { path, fallback: None })
            } else if opens(persisted) {
                Ok(persisted)
            } else {
                Err(ErrorView::RepositoryOpenFailed { path, fallback: Some(persisted) })
            }
        },
        None => {
            if persisted.len() == 0 {
                Err(ErrorView::NoRepositoryAvailable)
            } else if opens(persisted) {
                Ok(persisted)
            } else {
                Err(ErrorView::RepositoryOpenFailed { path: persisted, fallback: None })
            }
        },
    }
}

/// The answer of an engine for which `opens` tells where a repository opens.
pub open spec fn answer(opens: spec_fn(Seq<char>) -> bool, path: Seq<char>) -> OpenEvent {
    if opens(path) {
        OpenEvent::Opened
    } else {
        OpenEvent::Refused
    }
}

impl PathResolverView {
    /// The resolver for an operation that names `repo_path`, if any, while
    /// the store remembers `remembered`.
    pub open spec fn start(
        repo_path: Option<Seq<char>>,
        remembered: Seq<char>,
    ) -> PathResolverView {
        PathResolverView {
            explicit: match repo_path {
                Some(path) => normalized(path),
                None => None,
            },
            persisted: trimmed(remembered),
            stage: OpenStage::Start,
        }
    }

    /// The same resolver, waiting for another attempt.
    pub open spec fn at(self, stage: OpenStage) -> PathResolverView {
        PathResolverView { stage, ..self }
    }

    /// Where the resolver stops.
    pub open spec fn stop(self, step: OpenStepView) -> (PathResolverView, OpenStepView) {
        (self.at(OpenStage::Finished), step)
    }

    /// The resolver after the outcome of an attempt, and what it says next.
    pub open spec fn step(self, event: OpenEvent) -> (PathResolverView, OpenStepView) {
        match (self.stage, event, self.explicit) {
            (OpenStage::Start, OpenEvent::Begin, Some(path)) => (
                self.at(OpenStage::Explicit),
                OpenStepView::Attempt(path),
            ),
            (OpenStage::Start, OpenEvent::Begin, None) => {
                if self.persisted.len() == 0 {
                    self.stop(OpenStepView::Reject(ErrorView::NoRepositoryAvailable))
                } else {
                    (self.at(OpenStage::Persisted), OpenStepView::Attempt(self.persisted))
                }
            },
            (OpenStage::Explicit, OpenEvent::Opened, Some(path)) => self.stop(
                OpenStepView::Use(path),
            ),
            (OpenStage::Explicit, OpenEvent::Refused, Some(path)) => {
                if self.persisted.len() == 0 || self.persisted == path {
                    self.stop(
                        OpenStepView::Reject(
                            ErrorView::RepositoryOpenFailed { path, fallback: None },
                        ),
                    )
                } else {
                    (self.at(OpenStage::Fallback), OpenStepView::Attempt(self.persisted))
                }
            },
            (OpenStage::Fallback, OpenEvent::Opened, _) => self.stop(
                OpenStepView::Use(self.persisted),
            ),
            (OpenStage::Fallback, OpenEvent::Refused, Some(path)) => self.stop(
                OpenStepView::Reject(
                    ErrorView::RepositoryOpenFailed { path, fallback: Some(self.persisted) },
                ),
            ),
            (OpenStage::Persisted, OpenEvent::Opened, _) => self.stop(
                OpenStepView::Use(self.persisted),
            ),
            (OpenStage::Persisted, OpenEvent::Refused, _) => self.stop(
                OpenStepView::Reject(
                    ErrorView::RepositoryOpenFailed { path: self.persisted, fallback: None },
                ),
            ),
            _ => self.stop(OpenStepView::Reject(ErrorView::Engine(out_of_turn()))),
        }
    }

    /// Where the resolver ends with an engine for which `opens` tells where
    /// a repository opens: each path that the resolver says to attempt is
    /// attempted, and answered, until the resolver stops. It says to attempt
    /// two paths at most.
    pub open spec fn outcome(self, opens: spec_fn(Seq<char>) -> bool) -> Result<
        Seq<char>,
        ErrorView,
    > {
        let first = self.step(OpenEvent::Begin);
        match first.1 {
            OpenStepView::Use(path) => Ok(path),
            OpenStepView::Reject(error) => Err(error),
            OpenStepView::Attempt(path) => {
                let second = first.0.step(answer(opens, path));
                match second.1 {
                    OpenStepView::Use(path) => Ok(path),
                    OpenStepView::Reject(error) => Err(error),
                    OpenStepView::Attempt(other) => {
                        match second.0.step(answer(opens, other)).1 {
                            OpenStepView::Use(path) => Ok(path),
                            OpenStepView::Reject(error) => Err(error),
                            OpenStepView::Attempt(_) => Err(ErrorView::Engine(out_of_turn())),
                        }
                    },
                }
            },
        }
    }
}

impl PathResolver {
    /// What the resolver is waiting for.
    pub fn stage(&self) -> (r: OpenStage)
        ensures
            r == self@.stage,
    {
        self.stage
    }

    fn stop(self, step: OpenStep) -> (r: (PathResolver, OpenStep))
        ensures
            (r.0@, r.1@) == self@.stop(step@),
    {
        (PathResolver { stage: OpenStage::Finished, ..self }, step)
    }

    fn remembered(&self) -> (r: String)
        ensures
            r@ == self@.persisted,
    {
        self.persisted.clone()
    }

    /// Takes the outcome of the attempt that was asked for last, `Begin` at
    /// first, and says what to do next.
    pub fn step(self, event: OpenEvent) -> (r: (PathResolver, OpenStep))
        ensures
            (r.0@, r.1@) == self@.step(event),
    {
        match (self.stage, event, &self.explicit) {
            (OpenStage::Start, OpenEvent::Begin, Some(path)) => {
                let attempt = OpenStep::Attempt(path.clone());
                (PathResolver { stage: OpenStage::Explicit, ..self }, attempt)
            },
            (OpenStage::Start, OpenEvent::Begin, None) => {
                if self.persisted.as_str().is_empty() {
                    self.stop(OpenStep::Reject(Error::NoRepositoryAvailable))
                } else {
                    let attempt = OpenStep::Attempt(self.remembered());
                    (PathResolver { stage: OpenStage::Persisted, ..self }, attempt)
                }
            },
            (OpenStage::Explicit, OpenEvent::Opened, Some(path)) => {
                let found = OpenStep::Use(path.clone());
                self.stop(found)
            },
            (OpenStage::Explicit, OpenEvent::Refused, Some(path)) => {
                if self.persisted.as_str().is_empty() || same_text(
                    self.persisted.as_str(),
                    path.as_str(),
                ) {
                    let error = Error::RepositoryOpenFailed { path: path.clone(), fallback: None };
                    self.stop(OpenStep::Reject(error))
                } else {
                    let attempt = OpenStep::Attempt(self.remembered());
                    (PathResolver { stage: OpenStage::Fallback, ..self }, attempt)
                }
            },
            (OpenStage::Fallback, OpenEvent::Opened, _) => {
                let found = OpenStep::Use(self.remembered());
                self.stop(found)
            },
            (OpenStage::Fallback, OpenEvent::Refused, Some(path)) => {
                let error = Error::RepositoryOpenFailed {
                    path: path.clone(),
                    fallback: Some(self.remembered()),
                };
                self.stop(OpenStep::Reject(error))
            },
            (OpenStage::Persisted, OpenEvent::Opened, _) => {
                let found = OpenStep::Use(self.remembered());
                self.stop(found)
            },
            (OpenStage::Persisted, OpenEvent::Refused, _) => {
                let error = Error::RepositoryOpenFailed { path: self.remembered(), fallback: None };
                self.stop(OpenStep::Reject(error))
            },
            _ => self.stop(OpenStep::Reject(out_of_turn_error())),
        }
    }
}

/// Starts the search for the repository of an operation that names
/// `repo_path`, if any, while the store holds `last_opened` as the path that
/// was opened last.
pub fn open_repo(repo_path: Option<String>, last_opened: &Option<StoredValue>) -> (r: PathResolver)
    ensures
        r@ == PathResolverView::start(repo_path.deep_view(), text_of(stored_view(*last_opened))),
{
    let remembered = get_last_opened_repo(last_opened);
    let explicit = match repo_path {
        Some(path) => normalize(path.as_str()),
        None => None,
    };
    PathResolver { explicit, persisted: trim(remembered.as_str()), stage: OpenStage::Start }
}

/// The resolver finds what the rule of precedence says, whatever opens and
/// whatever does not: the named path first, the remembered path only after
/// the named one has failed and only where it is another, and nothing else.
pub proof fn law_resolver_follows_precedence(
    repo_path: Option<Seq<char>>,
    remembered: Seq<char>,
    opens: spec_fn(Seq<char>) -> bool,
)
    ensures
        PathResolverView::start(repo_path, remembered).outcome(opens) == resolution(
            match repo_path {
                Some(path) => normalized(path),
                None => None,
            },
            trimmed(remembered),
            opens,
        ),
{
}

/// After a named path has failed to open, the resolver falls back to the
/// remembered path if and only if there is one and it is not the path that
/// has just failed.
pub proof fn law_fallback_only_to_another_path(
    repo_path: Seq<char>,
    remembered: Seq<char>,
)
    requires
        normalized(repo_path) is Some,
    ensures
        ({
            let asked = PathResolverView::start(Some(repo_path), remembered).step(OpenEvent::Begin);
            let next = asked.0.step(OpenEvent::Refused);
            &&& asked.1 == OpenStepView::Attempt(trimmed(repo_path))
            &&& next.1 is Attempt <==> trimmed(remembered).len() > 0 && trimmed(remembered)
                != trimmed(repo_path)
            &&& next.1 is Attempt ==> next.1 == OpenStepView::Attempt(trimmed(remembered))
            &&& !(next.1 is Attempt) ==> next.1 == OpenStepView::Reject(
                ErrorView::RepositoryOpenFailed { path: trimmed(repo_path), fallback: None },
            )
        }),
{
}

/// A resolver stops after three answers at most, and once it has stopped it
/// rejects whatever comes.
pub proof fn law_resolver_stops(state: PathResolverView, event: OpenEvent)
    ensures
        state.step(event).1 is Attempt <==> state.step(event).0.stage != OpenStage::Finished,
        state.stage == OpenStage::Finished ==> state.step(event).1 is Reject,
        state.step(event).1 is Attempt ==> state.stage == OpenStage::Start || (state.stage
            == OpenStage::Explicit && state.step(event).0.stage == OpenStage::Fallback),
{
}

} // verus!
