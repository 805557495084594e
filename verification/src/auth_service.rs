use vstd::prelude::*;

use crate::failure::Failure;
use crate::flow::{Action, Event, Step};
use crate::records::Session;
use crate::time::{
    Timestamp, checked_session_expiry, expiry_fits, now, spec_session_expiry,
};
use crate::token::{is_session_token, new_session_token};

verus! {

// ---------------------------------------------------------------------------
// Validating a session token
// ---------------------------------------------------------------------------

/// What the validation of a session token waits for.
#[derive(Clone, Debug, PartialEq, Eq)]
pub enum ValidateState {
    /// The lookup of the session with this token.
    AwaitLookup { token: String },
    /// The deletion of the expired session.
    AwaitInvalidation,
}

/// Where the validation of a session token stands.
pub type ValidateStep = Step<ValidateState, Result<Option<Session>, Failure>>;

/// Validation starts by looking the token up.
pub open spec fn validate_first(token: String) -> ValidateStep {
    Step::Perform(ValidateState::AwaitLookup { token }, Action::FindSession { token })
}

/// One step of validation, at time `now`: an unknown token gives no
/// session; a session whose expiry lies before `now` is deleted and gives
/// no session; any other session is handed back; a failed operation is
/// passed on.
pub open spec fn validate_next(state: ValidateState, event: Event, now: Timestamp) -> ValidateStep {
    match (state, event) {
        (ValidateState::AwaitLookup { token }, Event::SessionFound(found)) => match found {
            Err(m) => Step::Finish(Err(Failure::Backend(m))),
            Ok(None) => Step::Finish(Ok(None)),
            Ok(Some(session)) => if session.expires_at.precedes(now) {
                Step::Perform(ValidateState::AwaitInvalidation, Action::DeleteSession { token })
            } else {
                Step::Finish(Ok(Some(session)))
            },
        },
        (ValidateState::AwaitInvalidation, Event::Deleted(done)) => match done {
            Err(m) => Step::Finish(Err(Failure::Backend(m))),
            Ok(()) => Step::Finish(Ok(None)),
        },
        _ => Step::Finish(Err(Failure::UnexpectedEvent)),
    }
}

/// Validation as a transition function, for steps taken at time `now`.
pub open spec fn validate_machine(now: Timestamp) -> spec_fn(ValidateState, Event) -> ValidateStep {
    |s: ValidateState, e: Event| validate_next(s, e, now)
}

/// Starts validating a session token.
pub fn validate_session(token: String) -> (res: ValidateStep)
    ensures
        res == validate_first(token),
{
    let lookup = token.clone();
    Step::Perform(ValidateState::AwaitLookup { token }, Action::FindSession { token: lookup })
}

/// One step of validation at a given time.
pub fn validate_session_step_at(state: ValidateState, event: Event, now: Timestamp) -> (res:
    ValidateStep)
    ensures
        res == validate_next(state, event, now),
{
    match (state, event) {
        (ValidateState::AwaitLookup { token }, Event::SessionFound(found)) => match found {
            Err(m) => Step::Finish(Err(Failure::Backend(m))),
            Ok(None) => Step::Finish(Ok(None)),
            Ok(Some(session)) => if session.expires_at.is_before(&now) {
                Step::Perform(ValidateState::AwaitInvalidation, Action::DeleteSession { token })
            } else {
                Step::Finish(Ok(Some(session)))
            },
        },
        (ValidateState::AwaitInvalidation, Event::Deleted(done)) => match done {
            Err(m) => Step::Finish(Err(Failure::Backend(m))),
            Ok(()) => Step::Finish(Ok(None)),
        },
        _ => Step::Finish(Err(Failure::UnexpectedEvent)),
    }
}

/// One step of validation, judged against the current time.
pub fn validate_session_step(state: ValidateState, event: Event) -> (res: ValidateStep)
    ensures
        exists|now: Timestamp| #[trigger]
            now.is_clock_reading() && res == validate_next(state, event, now),
{
    let now = now();
    let res = validate_session_step_at(state, event, now);
    assert(now.is_clock_reading() && res == validate_next(state, event, now));
    res
}

// ---------------------------------------------------------------------------
// Creating a session
// ---------------------------------------------------------------------------

/// What the creation of a session waits for.
#[derive(Clone, Debug, PartialEq, Eq)]
pub enum CreateState {
    /// The deletion of the account's expired sessions.
    AwaitPurge { user_id: i32 },
    /// The insertion of the new session.
    AwaitInsert,
}

/// Where the creation of a session stands.
pub type CreateStep = Step<CreateState, Result<String, Failure>>;

/// Creation starts by deleting the account's expired sessions.
pub open spec fn create_first(user_id: i32) -> CreateStep {
    Step::Perform(CreateState::AwaitPurge { user_id }, Action::DeleteExpiredSessions { user_id })
}

/// One step of session creation, at time `now` and with the fresh token
/// `token`: once the expired sessions are gone, a session with that token
/// that expires seven days after `now` is stored, and the stored token is
/// the result; a failed operation is passed on.
pub open spec fn create_next(
    state: CreateState,
    event: Event,
    now: Timestamp,
    token: String,
) -> CreateStep {
    match (state, event) {
        (CreateState::AwaitPurge { user_id }, Event::Deleted(done)) => match done {
            Err(m) => Step::Finish(Err(Failure::Backend(m))),
            Ok(()) => if expiry_fits(now) {
                Step::Perform(
                    CreateState::AwaitInsert,
                    Action::InsertSession { user_id, token, expires_at: spec_session_expiry(now) },
                )
            } else {
                Step::Finish(Err(Failure::ClockOutOfRange))
            },
        },
        (CreateState::AwaitInsert, Event::SessionInserted(inserted)) => match inserted {
            Err(m) => Step::Finish(Err(Failure::Backend(m))),
            Ok(row) => Step::Finish(Ok(row.token)),
        },
        _ => Step::Finish(Err(Failure::UnexpectedEvent)),
    }
}

/// Session creation as a transition function, for steps taken at time
/// `now` with the fresh token `token`.
pub open spec fn create_machine(now: Timestamp, token: String) -> spec_fn(CreateState, Event) -> CreateStep {
    |s: CreateState, e: Event| create_next(s, e, now, token)
}

/// Starts creating a session for an account.
pub fn create_session(user_id: i32) -> (res: CreateStep)
    ensures
        res == create_first(user_id),
{
    Step::Perform(CreateState::AwaitPurge { user_id }, Action::DeleteExpiredSessions { user_id })
}

/// One step of session creation at a given time and with a given token.
pub fn create_session_step_at(
    state: CreateState,
    event: Event,
    now: Timestamp,
    token: String,
) -> (res: CreateStep)
    requires
        now.is_clock_reading(),
    ensures
        res == create_next(state, event, now, token),
{
    match (state, event) {
        (CreateState::AwaitPurge { user_id }, Event::Deleted(done)) => match done {
            Err(m) => Step::Finish(Err(Failure::Backend(m))),
            Ok(()) => match checked_session_expiry(now) {
                Some(expires_at) => Step::Perform(
                    CreateState::AwaitInsert,
                    Action::InsertSession { user_id, token, expires_at },
                ),
                None => Step::Finish(Err(Failure::ClockOutOfRange)),
            },
        },
        (CreateState::AwaitInsert, Event::SessionInserted(inserted)) => match inserted {
            Err(m) => Step::Finish(Err(Failure::Backend(m))),
            Ok(row) => Step::Finish(Ok(row.token)),
        },
        _ => Step::Finish(Err(Failure::UnexpectedEvent)),
    }
}

/// One step of session creation, with the current time and a fresh random
/// token.
pub fn create_session_step(state: CreateState, event: Event) -> (res: CreateStep)
    ensures
        exists|now: Timestamp, token: String| #[trigger]
            create_next(state, event, now, token) == res && now.is_clock_reading()
                && is_session_token(token@),
{
    let token = new_session_token();
    let now = now();
    let ghost t = token;
    let res = create_session_step_at(state, event, now, token);
    assert(create_next(state, event, now, t) == res && now.is_clock_reading() && is_session_token(
        t@,
    ));
    res
}

} // verus!
