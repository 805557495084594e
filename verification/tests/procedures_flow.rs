use api::failure::{ApiError, ErrorCode, Failure};
use api::flow::{Action, Event, Step};
use api::procedures::{
    login, login_step, logout, logout_step, register, register_step, verify, verify_step,
    LoginState, LogoutState, RegisterState, VerifyState,
};
use api::records::{Session, User, UserSummary};
use api::time::Timestamp;

fn s(x: &str) -> String {
    x.to_string()
}

fn alice() -> User {
    User { id: 5, email: s("alice@example.com"), password: s("$2b$12$hash") }
}

fn bad(f: Failure) -> ApiError {
    ApiError { code: ErrorCode::BadRequest, failure: f }
}

fn internal(f: Failure) -> ApiError {
    ApiError { code: ErrorCode::InternalServerError, failure: f }
}

#[test]
fn login_happy_path() {
    assert_eq!(
        login(s("alice@example.com"), s("pw")),
        Step::Perform(
            LoginState::AwaitUser { password: s("pw") },
            Action::FindUserByEmail { email: s("alice@example.com") }
        )
    );
    let step = login_step(LoginState::AwaitUser { password: s("pw") }, Event::UserFound(Ok(Some(alice()))));
    assert_eq!(
        step,
        Step::Perform(
            LoginState::AwaitPasswordCheck { user_id: 5 },
            Action::CheckPassword { password: s("pw"), hash: s("$2b$12$hash") }
        )
    );
    let step = login_step(LoginState::AwaitPasswordCheck { user_id: 5 }, Event::PasswordChecked(Ok(true)));
    assert_eq!(step, Step::Perform(LoginState::AwaitSession, Action::CreateSession { user_id: 5 }));
    let step = login_step(LoginState::AwaitSession, Event::SessionCreated(Ok(s("tok"))));
    assert_eq!(step, Step::Perform(LoginState::AwaitCookie, Action::SetSessionCookie { token: s("tok") }));
    assert_eq!(login_step(LoginState::AwaitCookie, Event::CookieSet), Step::Finish(Ok(())));
}

#[test]
fn login_refusals() {
    let awaiting = || LoginState::AwaitUser { password: s("pw") };
    assert_eq!(
        login_step(awaiting(), Event::UserFound(Ok(None))),
        Step::Finish(Err(bad(Failure::UserNotFound)))
    );
    assert_eq!(
        login_step(awaiting(), Event::UserFound(Err(s("db")))),
        Step::Finish(Err(bad(Failure::Backend(s("db")))))
    );
    assert_eq!(
        login_step(LoginState::AwaitPasswordCheck { user_id: 5 }, Event::PasswordChecked(Ok(false))),
        Step::Finish(Err(bad(Failure::InvalidCredentials)))
    );
    assert_eq!(
        login_step(LoginState::AwaitPasswordCheck { user_id: 5 }, Event::PasswordChecked(Err(s("panicked")))),
        Step::Finish(Err(internal(Failure::Backend(s("panicked")))))
    );
    assert_eq!(
        login_step(LoginState::AwaitSession, Event::SessionCreated(Err(Failure::Backend(s("full"))))),
        Step::Finish(Err(bad(Failure::Backend(s("full")))))
    );
    assert_eq!(
        login_step(LoginState::AwaitCookie, Event::CookieRemoved),
        Step::Finish(Err(internal(Failure::UnexpectedEvent)))
    );
}

#[test]
fn login_with_a_real_password_check() {
    let hash = api::password::hash_password("pw").unwrap();
    let user = User { id: 5, email: s("a@b.c"), password: hash };
    let step = login_step(LoginState::AwaitUser { password: s("pw") }, Event::UserFound(Ok(Some(user))));
    let verdict = match step {
        Step::Perform(_, Action::CheckPassword { password, hash }) => api::password::check_password(&password, &hash),
        other => panic!("unexpected step {:?}", other),
    };
    assert!(verdict);
    let step = login_step(LoginState::AwaitPasswordCheck { user_id: 5 }, Event::PasswordChecked(Ok(verdict)));
    assert_eq!(step, Step::Perform(LoginState::AwaitSession, Action::CreateSession { user_id: 5 }));
}

#[test]
fn register_happy_path() {
    assert_eq!(
        register(s("bob@example.com"), s("pw")),
        Step::Perform(
            RegisterState::AwaitHash { email: s("bob@example.com") },
            Action::HashPassword { password: s("pw") }
        )
    );
    let step = register_step(
        RegisterState::AwaitHash { email: s("bob@example.com") },
        Event::PasswordHashed(Ok(s("$2b$12$h"))),
    );
    assert_eq!(
        step,
        Step::Perform(
            RegisterState::AwaitUser,
            Action::InsertUser { email: s("bob@example.com"), password_hash: s("$2b$12$h") }
        )
    );
    let bob = User { id: 8, email: s("bob@example.com"), password: s("$2b$12$h") };
    let step = register_step(RegisterState::AwaitUser, Event::UserInserted(Ok(bob)));
    assert_eq!(step, Step::Perform(RegisterState::AwaitSession, Action::CreateSession { user_id: 8 }));
    let step = register_step(RegisterState::AwaitSession, Event::SessionCreated(Ok(s("t2"))));
    assert_eq!(step, Step::Perform(RegisterState::AwaitCookie, Action::SetSessionCookie { token: s("t2") }));
    assert_eq!(register_step(RegisterState::AwaitCookie, Event::CookieSet), Step::Finish(Ok(())));
}

#[test]
fn register_refusals() {
    assert_eq!(
        register_step(RegisterState::AwaitHash { email: s("e") }, Event::PasswordHashed(Err(s("rng")))),
        Step::Finish(Err(internal(Failure::Backend(s("rng")))))
    );
    assert_eq!(
        register_step(RegisterState::AwaitUser, Event::UserInserted(Err(s("duplicate key")))),
        Step::Finish(Err(bad(Failure::UserCreationFailed)))
    );
    assert_eq!(
        register_step(RegisterState::AwaitSession, Event::SessionCreated(Err(Failure::ClockOutOfRange))),
        Step::Finish(Err(bad(Failure::ClockOutOfRange)))
    );
    assert_eq!(
        register_step(RegisterState::AwaitUser, Event::CookieSet),
        Step::Finish(Err(internal(Failure::UnexpectedEvent)))
    );
}

#[test]
fn verify_paths() {
    assert_eq!(
        verify(s("tok")),
        Step::Perform(VerifyState::AwaitSession, Action::ValidateSession { token: s("tok") })
    );
    let session = Session { id: 1, user_id: 5, expires_at: Timestamp { secs: 1, nanos: 0 }, token: s("tok") };
    assert_eq!(
        verify_step(VerifyState::AwaitSession, Event::SessionValidated(Ok(Some(session)))),
        Step::Perform(VerifyState::AwaitUser, Action::FindUserById { id: 5 })
    );
    assert_eq!(
        verify_step(VerifyState::AwaitUser, Event::UserFound(Ok(Some(alice())))),
        Step::Finish(Ok(UserSummary { id: 5, email: s("alice@example.com") }))
    );
    assert_eq!(
        verify_step(VerifyState::AwaitSession, Event::SessionValidated(Ok(None))),
        Step::Finish(Err(bad(Failure::InvalidSession)))
    );
    assert_eq!(
        verify_step(VerifyState::AwaitSession, Event::SessionValidated(Err(Failure::Backend(s("x"))))),
        Step::Finish(Err(bad(Failure::Backend(s("x")))))
    );
    assert_eq!(
        verify_step(VerifyState::AwaitUser, Event::UserFound(Ok(None))),
        Step::Finish(Err(bad(Failure::UserNotFound)))
    );
    assert_eq!(
        verify_step(VerifyState::AwaitUser, Event::UserFound(Err(s("y")))),
        Step::Finish(Err(bad(Failure::Backend(s("y")))))
    );
    assert_eq!(
        verify_step(VerifyState::AwaitUser, Event::CookieSet),
        Step::Finish(Err(internal(Failure::UnexpectedEvent)))
    );
}

#[test]
fn logout_paths() {
    assert_eq!(
        logout(s("tok")),
        Step::Perform(LogoutState::AwaitInvalidation, Action::DeleteSession { token: s("tok") })
    );
    assert_eq!(
        logout_step(LogoutState::AwaitInvalidation, Event::Deleted(Ok(()))),
        Step::Perform(LogoutState::AwaitCookieLookup, Action::LookupSessionCookie)
    );
    assert_eq!(
        logout_step(LogoutState::AwaitCookieLookup, Event::CookieLooked(true)),
        Step::Perform(LogoutState::AwaitCookieRemoval, Action::RemoveSessionCookie)
    );
    assert_eq!(logout_step(LogoutState::AwaitCookieRemoval, Event::CookieRemoved), Step::Finish(Ok(())));
    assert_eq!(logout_step(LogoutState::AwaitCookieLookup, Event::CookieLooked(false)), Step::Finish(Ok(())));
    assert_eq!(
        logout_step(LogoutState::AwaitInvalidation, Event::Deleted(Err(s("gone")))),
        Step::Finish(Err(bad(Failure::Backend(s("gone")))))
    );
    assert_eq!(
        logout_step(LogoutState::AwaitCookieLookup, Event::CookieSet),
        Step::Finish(Err(internal(Failure::UnexpectedEvent)))
    );
}
