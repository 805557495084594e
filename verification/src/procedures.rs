use vstd::prelude::*;

use crate::failure::{ApiError, ErrorCode, Failure};
use crate::flow::{Action, Event, Step};
use crate::records::UserSummary;

verus! {

/// The error that a failure of the kind `code` becomes.
pub open spec fn api_error(code: ErrorCode, failure: Failure) -> ApiError {
    ApiError { code, failure }
}

/// Answer to an event that does not belong to the pending action.
pub open spec fn unexpected<S, R>() -> Step<S, Result<R, ApiError>> {
    Step::Finish(Err(api_error(ErrorCode::InternalServerError, Failure::UnexpectedEvent)))
}

// ---------------------------------------------------------------------------
// version
// ---------------------------------------------------------------------------

/// The version the service reports.
pub fn version() -> (res: &'static str)
    ensures
        res@ == "0.0.1"@,
{
    "0.0.1"
}

// ---------------------------------------------------------------------------
// auth.verify: who owns this session token?
// ---------------------------------------------------------------------------

/// What the `verify` procedure waits for.
#[derive(Clone, Debug, PartialEq, Eq)]
pub enum VerifyState {
    /// The validation of the token.
    AwaitSession,
    /// The lookup of the session's account.
    AwaitUser,
}

/// Where the `verify` procedure stands.
pub type VerifyStep = Step<VerifyState, Result<UserSummary, ApiError>>;

/// `verify` starts by validating the token.
pub open spec fn verify_first(token: String) -> VerifyStep {
    Step::Perform(VerifyState::AwaitSession, Action::ValidateSession { token })
}

/// One step of `verify`: a valid session leads to the lookup of its
/// account, whose id and e-mail address are the answer; a token without a
/// valid session, a missing account and failed operations are bad requests.
pub open spec fn verify_next(state: VerifyState, event: Event) -> VerifyStep {
    match (state, event) {
        (VerifyState::AwaitSession, Event::SessionValidated(validated)) => match validated {
            Err(f) => Step::Finish(Err(api_error(ErrorCode::BadRequest, f))),
            Ok(None) => Step::Finish(Err(api_error(ErrorCode::BadRequest, Failure::InvalidSession))),
            Ok(Some(session)) => Step::Perform(
                VerifyState::AwaitUser,
                Action::FindUserById { id: session.user_id },
            ),
        },
        (VerifyState::AwaitUser, Event::UserFound(found)) => match found {
            Err(m) => Step::Finish(Err(api_error(ErrorCode::BadRequest, Failure::Backend(m)))),
            Ok(None) => Step::Finish(Err(api_error(ErrorCode::BadRequest, Failure::UserNotFound))),
            Ok(Some(user)) => Step::Finish(Ok(UserSummary { id: user.id, email: user.email })),
        },
        _ => unexpected(),
    }
}

/// The `verify` procedure as a transition function.
pub open spec fn verify_machine() -> spec_fn(VerifyState, Event) -> VerifyStep {
    |s: VerifyState, e: Event| verify_next(s, e)
}

/// Starts `verify` for a session token.
pub fn verify(token: String) -> (res: VerifyStep)
    ensures
        res == verify_first(token),
{
    Step::Perform(VerifyState::AwaitSession, Action::ValidateSession { token })
}

/// One step of `verify`.
pub fn verify_step(state: VerifyState, event: Event) -> (res: VerifyStep)
    ensures
        res == verify_next(state, event),
{
    match (state, event) {
        (VerifyState::AwaitSession, Event::SessionValidated(validated)) => match validated {
            Err(f) => Step::Finish(Err(ApiError::bad_request(f))),
            Ok(None) => Step::Finish(Err(ApiError::bad_request(Failure::InvalidSession))),
            Ok(Some(session)) => Step::Perform(
                VerifyState::AwaitUser,
                Action::FindUserById { id: session.user_id },
            ),
        },
        (VerifyState::AwaitUser, Event::UserFound(found)) => match found {
            Err(m) => Step::Finish(Err(ApiError::bad_request(Failure::Backend(m)))),
            Ok(None) => Step::Finish(Err(ApiError::bad_request(Failure::UserNotFound))),
            Ok(Some(user)) => Step::Finish(Ok(user.summary())),
        },
        _ => Step::Finish(Err(ApiError::internal(Failure::UnexpectedEvent))),
    }
}

// ---------------------------------------------------------------------------
// auth.login
// ---------------------------------------------------------------------------

/// What the `login` procedure waits for.
#[derive(Clone, Debug, PartialEq, Eq)]
pub enum LoginState {
    /// The lookup of the account by e-mail; the password to check follows.
    AwaitUser { password: String },
    /// The password check for this account.
    AwaitPasswordCheck { user_id: i32 },
    /// The creation of a session.
    AwaitSession,
    /// The setting of the session cookie.
    AwaitCookie,
}

/// Where the `login` procedure stands.
pub type LoginStep = Step<LoginState, Result<(), ApiError>>;

/// `login` starts by looking the account up by its e-mail address.
pub open spec fn login_first(email: String, password: String) -> LoginStep {
    Step::Perform(LoginState::AwaitUser { password }, Action::FindUserByEmail { email })
}

/// One step of `login`: a found account has the password checked against
/// its stored hash; a match leads to a new session for that account and
/// then to the session cookie. An unknown e-mail address and a wrong
/// password are bad requests, as are failed lookups and session creation;
/// a failed password-check task is a server error.
pub open spec fn login_next(state: LoginState, event: Event) -> LoginStep {
    match (state, event) {
        (LoginState::AwaitUser { password }, Event::UserFound(found)) => match found {
            Err(m) => Step::Finish(Err(api_error(ErrorCode::BadRequest, Failure::Backend(m)))),
            Ok(None) => Step::Finish(Err(api_error(ErrorCode::BadRequest, Failure::UserNotFound))),
            Ok(Some(user)) => Step::Perform(
                LoginState::AwaitPasswordCheck { user_id: user.id },
                Action::CheckPassword { password, hash: user.password },
            ),
        },
        (LoginState::AwaitPasswordCheck { user_id }, Event::PasswordChecked(checked)) => match checked {
            Err(m) => Step::Finish(
                Err(api_error(ErrorCode::InternalServerError, Failure::Backend(m))),
            ),
            Ok(false) => Step::Finish(
                Err(api_error(ErrorCode::BadRequest, Failure::InvalidCredentials)),
            ),
            Ok(true) => Step::Perform(LoginState::AwaitSession, Action::CreateSession { user_id }),
        },
        (LoginState::AwaitSession, Event::SessionCreated(created)) => match created {
            Err(f) => Step::Finish(Err(api_error(ErrorCode::BadRequest, f))),
            Ok(token) => Step::Perform(LoginState::AwaitCookie, Action::SetSessionCookie { token }),
        },
        (LoginState::AwaitCookie, Event::CookieSet) => Step::Finish(Ok(())),
        _ => unexpected(),
    }
}

/// The `login` procedure as a transition function.
pub open spec fn login_machine() -> spec_fn(LoginState, Event) -> LoginStep {
    |s: LoginState, e: Event| login_next(s, e)
}

/// Starts `login` with an e-mail address and a password.
pub fn login(email: String, password: String) -> (res: LoginStep)
    ensures
        res == login_first(email, password),
{
    Step::Perform(LoginState::AwaitUser { password }, Action::FindUserByEmail { email })
}

/// One step of `login`.
pub fn login_step(state: LoginState, event: Event) -> (res: LoginStep)
    ensures
        res == login_next(state, event),
{
    match (state, event) {
        (LoginState::AwaitUser { password }, Event::UserFound(found)) => match found {
            Err(m) => Step::Finish(Err(ApiError::bad_request(Failure::Backend(m)))),
            Ok(None) => Step::Finish(Err(ApiError::bad_request(Failure::UserNotFound))),
            Ok(Some(user)) => Step::Perform(
                LoginState::AwaitPasswordCheck { user_id: user.id },
                Action::CheckPassword { password, hash: user.password },
            ),
        },
        (LoginState::AwaitPasswordCheck { user_id }, Event::PasswordChecked(checked)) => match checked {
            Err(m) => Step::Finish(Err(ApiError::internal(Failure::Backend(m)))),
            Ok(valid) => if valid {
                Step::Perform(LoginState::AwaitSession, Action::CreateSession { user_id })
            } else {
                Step::Finish(Err(ApiError::bad_request(Failure::InvalidCredentials)))
            },
        },
        (LoginState::AwaitSession, Event::SessionCreated(created)) => match created {
            Err(f) => Step::Finish(Err(ApiError::bad_request(f))),
            Ok(token) => Step::Perform(LoginState::AwaitCookie, Action::SetSessionCookie { token }),
        },
        (LoginState::AwaitCookie, Event::CookieSet) => Step::Finish(Ok(())),
        _ => Step::Finish(Err(ApiError::internal(Failure::UnexpectedEvent))),
    }
}

// ---------------------------------------------------------------------------
// auth.register
// ---------------------------------------------------------------------------

/// What the `register` procedure waits for.
#[derive(Clone, Debug, PartialEq, Eq)]
pub enum RegisterState {
    /// The hashing of the password; the e-mail address to store follows.
    AwaitHash { email: String },
    /// The storing of the account.
    AwaitUser,
    /// The creation of a session.
    AwaitSession,
    /// The setting of the session cookie.
    AwaitCookie,
}

/// Where the `register` procedure stands.
pub type RegisterStep = Step<RegisterState, Result<(), ApiError>>;

/// `register` starts by hashing the password.
pub open spec fn register_first(email: String, password: String) -> RegisterStep {
    Step::Perform(RegisterState::AwaitHash { email }, Action::HashPassword { password })
}

/// One step of `register`: the account is stored with the password's hash,
/// a session is created for the stored account and its token goes into
/// the session cookie. A failed hashing task is a server error; an account
/// that cannot be stored, and a failed session creation, are bad requests.
pub open spec fn register_next(state: RegisterState, event: Event) -> RegisterStep {
    match (state, event) {
        (RegisterState::AwaitHash { email }, Event::PasswordHashed(hashed)) => match hashed {
            Err(m) => Step::Finish(
                Err(api_error(ErrorCode::InternalServerError, Failure::Backend(m))),
            ),
            Ok(hash) => Step::Perform(
                RegisterState::AwaitUser,
                Action::InsertUser { email, password_hash: hash },
            ),
        },
        (RegisterState::AwaitUser, Event::UserInserted(inserted)) => match inserted {
            Err(_) => Step::Finish(
                Err(api_error(ErrorCode::BadRequest, Failure::UserCreationFailed)),
            ),
            Ok(user) => Step::Perform(
                RegisterState::AwaitSession,
                Action::CreateSession { user_id: user.id },
            ),
        },
        (RegisterState::AwaitSession, Event::SessionCreated(created)) => match created {
            Err(f) => Step::Finish(Err(api_error(ErrorCode::BadRequest, f))),
            Ok(token) => Step::Perform(
                RegisterState::AwaitCookie,
                Action::SetSessionCookie { token },
            ),
        },
        (RegisterState::AwaitCookie, Event::CookieSet) => Step::Finish(Ok(())),
        _ => unexpected(),
    }
}

/// The `register` procedure as a transition function.
pub open spec fn register_machine() -> spec_fn(RegisterState, Event) -> RegisterStep {
    |s: RegisterState, e: Event| register_next(s, e)
}

/// Starts `register` with an e-mail address and a password.
pub fn register(email: String, password: String) -> (res: RegisterStep)
    ensures
        res == register_first(email, password),
{
    Step::Perform(RegisterState::AwaitHash { email }, Action::HashPassword { password })
}

/// One step of `register`.
pub fn register_step(state: RegisterState, event: Event) -> (res: RegisterStep)
    ensures
        res == register_next(state, event),
{
    match (state, event) {
        (RegisterState::AwaitHash { email }, Event::PasswordHashed(hashed)) => match hashed {
            Err(m) => Step::Finish(Err(ApiError::internal(Failure::Backend(m)))),
            Ok(hash) => Step::Perform(
                RegisterState::AwaitUser,
                Action::InsertUser { email, password_hash: hash },
            ),
        },
        (RegisterState::AwaitUser, Event::UserInserted(inserted)) => match inserted {
            Err(_) => Step::Finish(Err(ApiError::bad_request(Failure::UserCreationFailed))),
            Ok(user) => Step::Perform(
                RegisterState::AwaitSession,
                Action::CreateSession { user_id: user.id },
            ),
        },
        (RegisterState::AwaitSession, Event::SessionCreated(created)) => match created {
            Err(f) => Step::Finish(Err(ApiError::bad_request(f))),
            Ok(token) => Step::Perform(
                RegisterState::AwaitCookie,
                Action::SetSessionCookie { token },
            ),
        },
        (RegisterState::AwaitCookie, Event::CookieSet) => Step::Finish(Ok(())),
        _ => Step::Finish(Err(ApiError::internal(Failure::UnexpectedEvent))),
    }
}

// ---------------------------------------------------------------------------
// auth.logout
// ---------------------------------------------------------------------------

/// What the `logout` procedure waits for.
#[derive(Clone, Debug, PartialEq, Eq)]
pub enum LogoutState {
    /// The deletion of the session.
    AwaitInvalidation,
    /// The check for a session cookie.
    AwaitCookieLookup,
    /// The removal of the session cookie.
    AwaitCookieRemoval,
}

/// Where the `logout` procedure stands.
pub type LogoutStep = Step<LogoutState, Result<(), ApiError>>;

/// `logout` starts by deleting the caller's session.
pub open spec fn logout_first(token: String) -> LogoutStep {
    Step::Perform(LogoutState::AwaitInvalidation, Action::DeleteSession { token })
}

/// One step of `logout`: once the session is deleted, the session cookie is
/// removed if the client sent one. A failed deletion is a bad request.
pub open spec fn logout_next(state: LogoutState, event: Event) -> LogoutStep {
    match (state, event) {
        (LogoutState::AwaitInvalidation, Event::Deleted(done)) => match done {
            Err(m) => Step::Finish(Err(api_error(ErrorCode::BadRequest, Failure::Backend(m)))),
            Ok(()) => Step::Perform(LogoutState::AwaitCookieLookup, Action::LookupSessionCookie),
        },
        (LogoutState::AwaitCookieLookup, Event::CookieLooked(present)) => if present {
            Step::Perform(LogoutState::AwaitCookieRemoval, Action::RemoveSessionCookie)
        } else {
            Step::Finish(Ok(()))
        },
        (LogoutState::AwaitCookieRemoval, Event::CookieRemoved) => Step::Finish(Ok(())),
        _ => unexpected(),
    }
}

/// The `logout` procedure as a transition function.
pub open spec fn logout_machine() -> spec_fn(LogoutState, Event) -> LogoutStep {
    |s: LogoutState, e: Event| logout_next(s, e)
}

/// Starts `logout` for the caller's session token.
pub fn logout(token: String) -> (res: LogoutStep)
    ensures
        res == logout_first(token),
{
    Step::Perform(LogoutState::AwaitInvalidation, Action::DeleteSession { token })
}

/// One step of `logout`.
pub fn logout_step(state: LogoutState, event: Event) -> (res: LogoutStep)
    ensures
        res == logout_next(state, event),
{
    match (state, event) {
        (LogoutState::AwaitInvalidation, Event::Deleted(done)) => match done {
            Err(m) => Step::Finish(Err(ApiError::bad_request(Failure::Backend(m)))),
            Ok(()) => Step::Perform(LogoutState::AwaitCookieLookup, Action::LookupSessionCookie),
        },
        (LogoutState::AwaitCookieLookup, Event::CookieLooked(present)) => if present {
            Step::Perform(LogoutState::AwaitCookieRemoval, Action::RemoveSessionCookie)
        } else {
            Step::Finish(Ok(()))
        },
        (LogoutState::AwaitCookieRemoval, Event::CookieRemoved) => Step::Finish(Ok(())),
        _ => Step::Finish(Err(ApiError::internal(Failure::UnexpectedEvent))),
    }
}

// ---------------------------------------------------------------------------
// todos.*
// ---------------------------------------------------------------------------

/// The answer of a todo procedure (`getTodos`, `createTodo`, `toggleTodo`,
/// `deleteTodo`) to the outcome of its database operation: the outcome
/// itself, or a server error that carries the database's message.
pub fn todo_answer<T>(outcome: Result<T, String>) -> (res: Result<T, ApiError>)
    ensures
        match outcome {
            Ok(v) => res == Ok::<T, ApiError>(v),
            Err(m) => res == Err::<T, ApiError>(
                api_error(ErrorCode::InternalServerError, Failure::Backend(m)),
            ),
        },
{
    match outcome {
        Ok(v) => Ok(v),
        Err(m) => Err(ApiError::internal(Failure::Backend(m))),
    }
}

} // verus!
