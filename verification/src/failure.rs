use vstd::prelude::*;

verus! {

/// The kind of error a procedure answers with.
#[derive(Clone, Copy, Debug, PartialEq, Eq)]
pub enum ErrorCode {
    BadRequest,
    InternalServerError,
}

/// Why an operation or a procedure failed.
#[derive(Clone, Debug, PartialEq, Eq)]
pub enum Failure {
    /// An outside operation (the database, a worker task, bcrypt) failed
    /// with this message.
    Backend(String),
    /// The clock reads an instant so late that a session created now could
    /// not be given its expiry.
    ClockOutOfRange,
    /// A step machine was handed the outcome of an operation other than the
    /// one it asked for.
    UnexpectedEvent,
    /// The token names no session, or only an expired one.
    InvalidSession,
    /// No account has the e-mail address or id looked for.
    UserNotFound,
    /// The password does not match the account.
    InvalidCredentials,
    /// The account could not be stored.
    UserCreationFailed,
}

/// The error a procedure answers with: its kind and why it happened.
#[derive(Clone, Debug, PartialEq, Eq)]
pub struct ApiError {
    pub code: ErrorCode,
    pub failure: Failure,
}

impl Failure {
    /// The message that tells a client about this failure.
    pub open spec fn text(self) -> Seq<char> {
        match self {
            Failure::Backend(m) => m@,
            Failure::ClockOutOfRange => "session expiry is beyond the supported time range"@,
            Failure::UnexpectedEvent => "unexpected outcome for the pending operation"@,
            Failure::InvalidSession => "Invalid session"@,
            Failure::UserNotFound => "User not found"@,
            Failure::InvalidCredentials => "Invalid email or password"@,
            Failure::UserCreationFailed => "Error creating user"@,
        }
    }

    /// The message that tells a client about this failure.
    pub fn message(&self) -> (res: String)
        ensures
            res@ == self.text(),
    {
        match self {
            Failure::Backend(m) => m.clone(),
            Failure::ClockOutOfRange => "session expiry is beyond the supported time range".to_owned(),
            Failure::UnexpectedEvent => "unexpected outcome for the pending operation".to_owned(),
            Failure::InvalidSession => "Invalid session".to_owned(),
            Failure::UserNotFound => "User not found".to_owned(),
            Failure::InvalidCredentials => "Invalid email or password".to_owned(),
            Failure::UserCreationFailed => "Error creating user".to_owned(),
        }
    }
}

impl ApiError {
    /// A request that cannot be served as asked.
    pub fn bad_request(failure: Failure) -> (res: ApiError)
        ensures
            res == (ApiError { code: ErrorCode::BadRequest, failure }),
    {
        ApiError { code: ErrorCode::BadRequest, failure }
    }

    /// A failure on the server's side.
    pub fn internal(failure: Failure) -> (res: ApiError)
        ensures
            res == (ApiError { code: ErrorCode::InternalServerError, failure }),
    {
        ApiError { code: ErrorCode::InternalServerError, failure }
    }

    /// The message of the error.
    pub fn message(&self) -> (res: String)
        ensures
            res@ == self.failure.text(),
    {
        self.failure.message()
    }
}

} // verus!
