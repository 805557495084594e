use vstd::prelude::*;

use crate::failure::Failure;
use crate::records::{Session, SessionOnlyToken, User};
use crate::time::Timestamp;

verus! {

/// An outside operation that a step machine asks the surrounding program
/// to perform.
#[derive(Clone, Debug, PartialEq, Eq)]
pub enum Action {
    /// Look up the account with this e-mail address.
    FindUserByEmail { email: String },
    /// Look up the account with this id.
    FindUserById { id: i32 },
    /// Store a new account.
    InsertUser { email: String, password_hash: String },
    /// Look up the session with this token.
    FindSession { token: String },
    /// Delete the session with this token.
    DeleteSession { token: String },
    /// Delete the expired sessions of this account.
    DeleteExpiredSessions { user_id: i32 },
    /// Store a new session.
    InsertSession { user_id: i32, token: String, expires_at: Timestamp },
    /// Run the session-creation procedure for this account.
    CreateSession { user_id: i32 },
    /// Run the session-validation procedure for this token.
    ValidateSession { token: String },
    /// Check a password against a stored hash, away from the request's task.
    CheckPassword { password: String, hash: String },
    /// Hash a password for storage, away from the request's task.
    HashPassword { password: String },
    /// Hand the client the session cookie for this token.
    SetSessionCookie { token: String },
    /// Tell whether the client sent a session cookie.
    LookupSessionCookie,
    /// Remove the client's session cookie.
    RemoveSessionCookie,
}

/// The outcome of an outside operation, handed back to the step machine
/// that asked for it. Database failures arrive as their messages.
#[derive(Debug, PartialEq, Eq)]
pub enum Event {
    /// Outcome of `FindUserByEmail` and `FindUserById`.
    UserFound(Result<Option<User>, String>),
    /// Outcome of `InsertUser`.
    UserInserted(Result<User, String>),
    /// Outcome of `FindSession`.
    SessionFound(Result<Option<Session>, String>),
    /// Outcome of `DeleteSession` and `DeleteExpiredSessions`.
    Deleted(Result<(), String>),
    /// Outcome of `InsertSession`.
    SessionInserted(Result<SessionOnlyToken, String>),
    /// Outcome of `CreateSession`: the new session's token.
    SessionCreated(Result<String, Failure>),
    /// Outcome of `ValidateSession`.
    SessionValidated(Result<Option<Session>, Failure>),
    /// Outcome of `CheckPassword`; an error means the worker task failed.
    PasswordChecked(Result<bool, String>),
    /// Outcome of `HashPassword`; an error carries the failure's message.
    PasswordHashed(Result<String, String>),
    /// `SetSessionCookie` is done.
    CookieSet,
    /// Outcome of `LookupSessionCookie`: whether the cookie is present.
    CookieLooked(bool),
    /// `RemoveSessionCookie` is done.
    CookieRemoved,
}

/// Where a step machine stands: waiting in state `S` for the outcome of an
/// action, or finished with result `R`.
#[derive(Clone, Debug, PartialEq, Eq)]
pub enum Step<S, R> {
    Perform(S, Action),
    Finish(R),
}

/// Where a machine with transition `next` stands after it has been handed
/// `events` in turn, starting from `step`. Events that arrive after the
/// machine has finished change nothing.
pub open spec fn run<S, R>(
    next: spec_fn(S, Event) -> Step<S, R>,
    step: Step<S, R>,
    events: Seq<Event>,
) -> Step<S, R>
    decreases events.len(),
{
    if events.len() == 0 {
        step
    } else {
        match step {
            Step::Finish(_) => step,
            Step::Perform(s, _) => run(next, next(s, events[0]), events.drop_first()),
        }
    }
}

/// A finished machine stays finished, whatever it is handed.
pub proof fn lemma_run_finished<S, R>(
    next: spec_fn(S, Event) -> Step<S, R>,
    result: R,
    events: Seq<Event>,
)
    ensures
        run(next, Step::Finish(result), events) == Step::<S, R>::Finish(result),
{
}

/// A machine that finishes after `events` from a pending action was handed
/// at least one event, and finishes the same way from the step that the
/// first event leads to.
pub proof fn lemma_run_pending<S, R>(
    next: spec_fn(S, Event) -> Step<S, R>,
    state: S,
    action: Action,
    events: Seq<Event>,
    result: R,
)
    requires
        run(next, Step::Perform(state, action), events) == Step::<S, R>::Finish(result),
    ensures
        events.len() > 0,
        run(next, next(state, events[0]), events.drop_first()) == Step::<S, R>::Finish(result),
{
}

/// Handing a pending machine a non-empty list of events is handing it the
/// first, then the rest.
pub proof fn lemma_run_cons<S, R>(
    next: spec_fn(S, Event) -> Step<S, R>,
    state: S,
    action: Action,
    events: Seq<Event>,
)
    requires
        events.len() > 0,
    ensures
        run(next, Step::Perform(state, action), events) == run(
            next,
            next(state, events[0]),
            events.drop_first(),
        ),
{
}

} // verus!
