//! Verified core of a todo-list web service with e-mail/password
//! accounts and cookie sessions.
//!
//! The service keeps its rows in a database and answers remote procedure
//! calls. Everything that decides what the service does lives here:
//! the rows it handles, session lifetimes and tokens, password checks,
//! the session cookie, the error each failure becomes, and the
//! request procedures themselves, written as step machines that ask
//! for one outside operation at a time and are told its outcome.
//! The program around the library performs those operations.

pub mod records;
pub mod time;
pub mod token;
pub mod password;
pub mod failure;
pub mod session_cookie;
pub mod flow;
pub mod auth_service;
pub mod procedures;
pub mod laws;
pub mod liveness;
