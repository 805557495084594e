use vstd::prelude::*;

use crate::auth_service::{
    CreateState, CreateStep, ValidateState, ValidateStep, create_first, create_machine,
    validate_first, validate_machine,
};
use crate::flow::{Action, Event, run};
use crate::procedures::{
    LoginState, LoginStep, RegisterState, RegisterStep, VerifyState, VerifyStep, login_first,
    login_machine, register_first, register_machine, verify_first, verify_machine,
};
use crate::records::{Session, SessionOnlyToken, User, UserSummary};
use crate::time::{Timestamp, expiry_fits, spec_session_expiry};

verus! {

/// Validation hands back every session whose expiry does not lie before
/// the time of the check, unchanged, after a single lookup of the token.
pub proof fn validation_accepts_live_session(token: String, now: Timestamp, session: Session)
    requires
        !session.expires_at.precedes(now),
    ensures
        run(validate_machine(now), validate_first(token), seq![]) == ValidateStep::Perform(
            ValidateState::AwaitLookup { token },
            Action::FindSession { token },
        ),
        run(
            validate_machine(now),
            validate_first(token),
            seq![Event::SessionFound(Ok(Some(session)))],
        ) == ValidateStep::Finish(Ok(Some(session))),
{
    reveal_with_fuel(run, 2);
}

/// Validation of a token that names no session ends with no session, after
/// a single lookup and without deleting anything.
pub proof fn validation_of_unknown_token(token: String, now: Timestamp)
    ensures
        run(validate_machine(now), validate_first(token), seq![Event::SessionFound(Ok(None))])
            == ValidateStep::Finish(Ok(None)),
{
    reveal_with_fuel(run, 2);
}

/// `verify` of a token with a valid session looks up exactly the account
/// that owns the session, and answers with that account's id and e-mail
/// address, for every session and every account.
pub proof fn verify_answers_for_every_valid_session(
    token: String,
    session: Session,
    user: User,
)
    ensures
        run(
            verify_machine(),
            verify_first(token),
            seq![Event::SessionValidated(Ok(Some(session)))],
        ) == VerifyStep::Perform(VerifyState::AwaitUser, Action::FindUserById { id: session.user_id }),
        run(
            verify_machine(),
            verify_first(token),
            seq![Event::SessionValidated(Ok(Some(session))), Event::UserFound(Ok(Some(user)))],
        ) == VerifyStep::Finish(Ok(UserSummary { id: user.id, email: user.email })),
{
    reveal_with_fuel(run, 3);
}

/// A registration whose steps all succeed completes, whatever the e-mail
/// address, password, hash, stored account and session token: the account
/// is stored with the e-mail address and the hash, the session is created
/// for the stored account's id, and the cookie is set to that session's
/// token.
pub proof fn registration_completes(
    email: String,
    password: String,
    hash: String,
    user: User,
    token: String,
)
    ensures
        run(register_machine(), register_first(email, password), seq![]) == RegisterStep::Perform(
            RegisterState::AwaitHash { email },
            Action::HashPassword { password },
        ),
        run(
            register_machine(),
            register_first(email, password),
            seq![Event::PasswordHashed(Ok(hash))],
        ) == RegisterStep::Perform(
            RegisterState::AwaitUser,
            Action::InsertUser { email, password_hash: hash },
        ),
        run(
            register_machine(),
            register_first(email, password),
            seq![Event::PasswordHashed(Ok(hash)), Event::UserInserted(Ok(user))],
        ) == RegisterStep::Perform(
            RegisterState::AwaitSession,
            Action::CreateSession { user_id: user.id },
        ),
        run(
            register_machine(),
            register_first(email, password),
            seq![
                Event::PasswordHashed(Ok(hash)),
                Event::UserInserted(Ok(user)),
                Event::SessionCreated(Ok(token)),
            ],
        ) == RegisterStep::Perform(RegisterState::AwaitCookie, Action::SetSessionCookie { token }),
        run(
            register_machine(),
            register_first(email, password),
            seq![
                Event::PasswordHashed(Ok(hash)),
                Event::UserInserted(Ok(user)),
                Event::SessionCreated(Ok(token)),
                Event::CookieSet,
            ],
        ) == RegisterStep::Finish(Ok(())),
{
    reveal_with_fuel(run, 5);
}

/// A login whose account is found and whose password check passes goes on
/// to a session for that account and to the cookie with its token, and
/// completes, whatever the account and token.
pub proof fn login_completes(email: String, password: String, user: User, token: String)
    ensures
        run(
            login_machine(),
            login_first(email, password),
            seq![Event::UserFound(Ok(Some(user))), Event::PasswordChecked(Ok(true))],
        ) == LoginStep::Perform(LoginState::AwaitSession, Action::CreateSession { user_id: user.id }),
        run(
            login_machine(),
            login_first(email, password),
            seq![
                Event::UserFound(Ok(Some(user))),
                Event::PasswordChecked(Ok(true)),
                Event::SessionCreated(Ok(token)),
            ],
        ) == LoginStep::Perform(LoginState::AwaitCookie, Action::SetSessionCookie { token }),
        run(
            login_machine(),
            login_first(email, password),
            seq![
                Event::UserFound(Ok(Some(user))),
                Event::PasswordChecked(Ok(true)),
                Event::SessionCreated(Ok(token)),
                Event::CookieSet,
            ],
        ) == LoginStep::Finish(Ok(())),
{
    reveal_with_fuel(run, 5);
}

/// Session creation that is told the expired sessions are gone and the new
/// session is stored answers with the token of the stored row, for every
/// row; what it stored is the fresh token with the seven-day expiry.
pub proof fn creation_answers_stored_token(
    user_id: i32,
    now: Timestamp,
    token: String,
    row: SessionOnlyToken,
)
    requires
        now.is_clock_reading(),
        expiry_fits(now),
    ensures
        run(create_machine(now, token), create_first(user_id), seq![Event::Deleted(Ok(()))])
            == CreateStep::Perform(
            CreateState::AwaitInsert,
            Action::InsertSession { user_id, token, expires_at: spec_session_expiry(now) },
        ),
        run(
            create_machine(now, token),
            create_first(user_id),
            seq![Event::Deleted(Ok(())), Event::SessionInserted(Ok(row))],
        ) == CreateStep::Finish(Ok(row.token)),
{
    reveal_with_fuel(run, 3);
}

} // verus!
