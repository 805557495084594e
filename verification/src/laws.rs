use vstd::prelude::*;

use crate::failure::{ApiError, ErrorCode, Failure};
use crate::flow::{Action, Event, Step, lemma_run_cons, lemma_run_finished, lemma_run_pending, run};
use crate::password::password_matches;
use crate::procedures::{
    LoginState, LoginStep, RegisterState, RegisterStep, login_first, login_machine, login_next,
    register_first, register_machine, register_next,
};
use crate::auth_service::{
    CreateState, CreateStep, ValidateState, ValidateStep, create_first, create_machine,
    validate_first, validate_machine, validate_next,
};
use crate::procedures::{
    LogoutState, LogoutStep, VerifyState, VerifyStep, logout_first, logout_machine, verify_first,
    verify_machine, verify_next,
};
use crate::records::{Session, User, UserSummary};
use crate::time::{SECS_PER_DAY, SESSION_LIFETIME_DAYS, Timestamp, expiry_fits, spec_session_expiry};

verus! {

/// The events of a successful login: the account `user` was found, the
/// submitted password was checked against that account's stored hash and
/// matched, a session was created for that account, and the session
/// cookie set to the new token `token`.
pub open spec fn login_success_trace(
    password: String,
    events: Seq<Event>,
    user: User,
    token: String,
) -> bool {
    &&& events.len() >= 4
    &&& events[0] == Event::UserFound(Ok(Some(user)))
    &&& login_next(LoginState::AwaitUser { password }, events[0]) == LoginStep::Perform(
        LoginState::AwaitPasswordCheck { user_id: user.id },
        Action::CheckPassword { password, hash: user.password },
    )
    &&& events[1] == Event::PasswordChecked(Ok(true))
    &&& login_next(LoginState::AwaitPasswordCheck { user_id: user.id }, events[1])
        == LoginStep::Perform(LoginState::AwaitSession, Action::CreateSession { user_id: user.id })
    &&& events[2] == Event::SessionCreated(Ok(token))
    &&& login_next(LoginState::AwaitSession, events[2]) == LoginStep::Perform(
        LoginState::AwaitCookie,
        Action::SetSessionCookie { token },
    )
    &&& events[3] == Event::CookieSet
}

/// A login succeeds only along one path: the account is found, the
/// submitted password matches that account's stored hash, a session is
/// created for that very account, and the session cookie is set to that
/// session's token.
pub proof fn login_succeeds_only_through_password_match(
    email: String,
    password: String,
    events: Seq<Event>,
)
    requires
        run(login_machine(), login_first(email, password), events) == LoginStep::Finish(Ok(())),
    ensures
        exists|user: User, token: String| #[trigger]
            login_success_trace(password, events, user, token),
{
    let m = login_machine();
    let ok = Ok::<(), ApiError>(());
    let s0 = LoginState::AwaitUser { password };
    lemma_run_pending(m, s0, Action::FindUserByEmail { email }, events, ok);
    let rest1 = events.drop_first();
    match events[0] {
        Event::UserFound(Ok(Some(user))) => {
            let s1 = LoginState::AwaitPasswordCheck { user_id: user.id };
            let a1 = Action::CheckPassword { password, hash: user.password };
            assert(m(s0, events[0]) == LoginStep::Perform(s1, a1));
            lemma_run_pending(m, s1, a1, rest1, ok);
            let rest2 = rest1.drop_first();
            match rest1[0] {
                Event::PasswordChecked(Ok(true)) => {
                    let s2 = LoginState::AwaitSession;
                    let a2 = Action::CreateSession { user_id: user.id };
                    assert(m(s1, rest1[0]) == LoginStep::Perform(s2, a2));
                    lemma_run_pending(m, s2, a2, rest2, ok);
                    let rest3 = rest2.drop_first();
                    match rest2[0] {
                        Event::SessionCreated(Ok(token)) => {
                            let s3 = LoginState::AwaitCookie;
                            let a3 = Action::SetSessionCookie { token };
                            assert(m(s2, rest2[0]) == LoginStep::Perform(s3, a3));
                            lemma_run_pending(m, s3, a3, rest3, ok);
                            match rest3[0] {
                                Event::CookieSet => {
                                    assert(login_success_trace(password, events, user, token));
                                },
                                _ => {
                                    let st = m(s3, rest3[0]);
                                    lemma_run_finished(m, st->Finish_0, rest3.drop_first());
                                },
                            }
                        },
                        _ => {
                            let st = m(s2, rest2[0]);
                            lemma_run_finished(m, st->Finish_0, rest3);
                        },
                    }
                },
                _ => {
                    let st = m(s1, rest1[0]);
                    lemma_run_finished(m, st->Finish_0, rest2);
                },
            }
        },
        _ => {
            let st = m(s0, events[0]);
            lemma_run_finished(m, st->Finish_0, rest1);
        },
    }
}


/// A password that does not match the account's stored hash is refused
/// with a bad request, "Invalid email or password", once the check reports
/// its verdict; no session is created, whatever follows.
pub proof fn mismatched_password_is_refused(
    email: String,
    password: String,
    user: User,
    rest: Seq<Event>,
)
    requires
        !password_matches(password@, user.password@),
    ensures
        run(
            login_machine(),
            login_first(email, password),
            seq![
                Event::UserFound(Ok(Some(user))),
                Event::PasswordChecked(Ok(password_matches(password@, user.password@))),
            ] + rest,
        ) == LoginStep::Finish(
            Err(ApiError { code: ErrorCode::BadRequest, failure: Failure::InvalidCredentials }),
        ),
{
    let m = login_machine();
    let events = seq![
        Event::UserFound(Ok(Some(user))),
        Event::PasswordChecked(Ok(password_matches(password@, user.password@))),
    ] + rest;
    let refused = Err::<(), ApiError>(
        ApiError { code: ErrorCode::BadRequest, failure: Failure::InvalidCredentials },
    );
    assert(events[0] == Event::UserFound(Ok(Some(user))));
    assert(events.drop_first()[0] == Event::PasswordChecked(
        Ok(password_matches(password@, user.password@)),
    ));
    let s0 = LoginState::AwaitUser { password };
    let s1 = LoginState::AwaitPasswordCheck { user_id: user.id };
    let a1 = Action::CheckPassword { password, hash: user.password };
    lemma_run_cons(m, s0, Action::FindUserByEmail { email }, events);
    assert(m(s0, events[0]) == LoginStep::Perform(s1, a1));
    lemma_run_cons(m, s1, a1, events.drop_first());
    assert(m(s1, events.drop_first()[0]) == LoginStep::Finish(refused));
    lemma_run_finished(m, refused, events.drop_first().drop_first());
}

/// A password that was hashed at registration opens the account: the
/// hash that registration is handed is the one it stores, and when login
/// finds that stored account, the check of the same password against its
/// hash passes, a session is created and login succeeds.
///
/// The hash `hash` stands for an output of `hash_password(password)`,
/// which guarantees `password_matches(password, hash)`.
pub proof fn registered_password_logs_in(
    email: String,
    password: String,
    hash: String,
    user: User,
    token: String,
)
    requires
        password_matches(password@, hash@),
        user.password == hash,
    ensures
        register_next(RegisterState::AwaitHash { email }, Event::PasswordHashed(Ok(hash)))
            == RegisterStep::Perform(
            RegisterState::AwaitUser,
            Action::InsertUser { email, password_hash: hash },
        ),
        run(
            login_machine(),
            login_first(email, password),
            seq![
                Event::UserFound(Ok(Some(user))),
                Event::PasswordChecked(Ok(password_matches(password@, user.password@))),
                Event::SessionCreated(Ok(token)),
                Event::CookieSet,
            ],
        ) == LoginStep::Finish(Ok(())),
{
    reveal_with_fuel(run, 5);
}

/// The events of a successful registration: the password was hashed to
/// `hash`, the account was stored with that hash and came back as `user`,
/// a session was created for that account, and the session cookie set to
/// its token `token`.
pub open spec fn register_success_trace(
    email: String,
    events: Seq<Event>,
    hash: String,
    user: User,
    token: String,
) -> bool {
    &&& events.len() >= 4
    &&& events[0] == Event::PasswordHashed(Ok(hash))
    &&& register_next(RegisterState::AwaitHash { email }, events[0]) == RegisterStep::Perform(
        RegisterState::AwaitUser,
        Action::InsertUser { email, password_hash: hash },
    )
    &&& events[1] == Event::UserInserted(Ok(user))
    &&& register_next(RegisterState::AwaitUser, events[1]) == RegisterStep::Perform(
        RegisterState::AwaitSession,
        Action::CreateSession { user_id: user.id },
    )
    &&& events[2] == Event::SessionCreated(Ok(token))
    &&& register_next(RegisterState::AwaitSession, events[2]) == RegisterStep::Perform(
        RegisterState::AwaitCookie,
        Action::SetSessionCookie { token },
    )
    &&& events[3] == Event::CookieSet
}

/// A registration succeeds only along one path: the password is hashed,
/// the account is stored with that hash (never with the password itself),
/// a session is created for the stored account, and the session cookie is
/// set to that session's token.
pub proof fn register_succeeds_only_through_stored_hash(
    email: String,
    password: String,
    events: Seq<Event>,
)
    requires
        run(register_machine(), register_first(email, password), events) == RegisterStep::Finish(
            Ok(()),
        ),
    ensures
        exists|hash: String, user: User, token: String| #[trigger]
            register_success_trace(email, events, hash, user, token),
{
    let m = register_machine();
    let ok = Ok::<(), ApiError>(());
    let s0 = RegisterState::AwaitHash { email };
    lemma_run_pending(m, s0, Action::HashPassword { password }, events, ok);
    let rest1 = events.drop_first();
    match events[0] {
        Event::PasswordHashed(Ok(hash)) => {
            let s1 = RegisterState::AwaitUser;
            let a1 = Action::InsertUser { email, password_hash: hash };
            assert(m(s0, events[0]) == RegisterStep::Perform(s1, a1));
            lemma_run_pending(m, s1, a1, rest1, ok);
            let rest2 = rest1.drop_first();
            match rest1[0] {
                Event::UserInserted(Ok(user)) => {
                    let s2 = RegisterState::AwaitSession;
                    let a2 = Action::CreateSession { user_id: user.id };
                    assert(m(s1, rest1[0]) == RegisterStep::Perform(s2, a2));
                    lemma_run_pending(m, s2, a2, rest2, ok);
                    let rest3 = rest2.drop_first();
                    match rest2[0] {
                        Event::SessionCreated(Ok(token)) => {
                            let s3 = RegisterState::AwaitCookie;
                            let a3 = Action::SetSessionCookie { token };
                            assert(m(s2, rest2[0]) == RegisterStep::Perform(s3, a3));
                            lemma_run_pending(m, s3, a3, rest3, ok);
                            match rest3[0] {
                                Event::CookieSet => {
                                    assert(register_success_trace(email, events, hash, user, token));
                                },
                                _ => {
                                    let st = m(s3, rest3[0]);
                                    lemma_run_finished(m, st->Finish_0, rest3.drop_first());
                                },
                            }
                        },
                        _ => {
                            let st = m(s2, rest2[0]);
                            lemma_run_finished(m, st->Finish_0, rest3);
                        },
                    }
                },
                _ => {
                    let st = m(s1, rest1[0]);
                    lemma_run_finished(m, st->Finish_0, rest2);
                },
            }
        },
        _ => {
            let st = m(s0, events[0]);
            lemma_run_finished(m, st->Finish_0, rest1);
        },
    }
}


/// Validation never hands back an expired session: when it ends with a
/// session, that session is the one the lookup found, and its expiry does
/// not lie before the time of the check.
pub proof fn validation_never_accepts_expired(
    token: String,
    now: Timestamp,
    events: Seq<Event>,
    session: Session,
)
    requires
        run(validate_machine(now), validate_first(token), events) == ValidateStep::Finish(
            Ok(Some(session)),
        ),
    ensures
        events.len() >= 1,
        events[0] == Event::SessionFound(Ok(Some(session))),
        !session.expires_at.precedes(now),
{
    let m = validate_machine(now);
    let found_it = Ok::<Option<Session>, Failure>(Some(session));
    let s0 = ValidateState::AwaitLookup { token };
    lemma_run_pending(m, s0, Action::FindSession { token }, events, found_it);
    let rest1 = events.drop_first();
    let st1 = m(s0, events[0]);
    match st1 {
        Step::Finish(r) => {
            lemma_run_finished(m, r, rest1);
        },
        Step::Perform(s1, a1) => {
            assert(s1 == ValidateState::AwaitInvalidation);
            lemma_run_pending(m, s1, a1, rest1, found_it);
            let st2 = m(s1, rest1[0]);
            lemma_run_finished(m, st2->Finish_0, rest1.drop_first());
        },
    }
}

/// An expired session is deleted, and the token then counts as naming no
/// session.
pub proof fn expired_session_is_deleted(token: String, now: Timestamp, session: Session)
    requires
        session.expires_at.precedes(now),
    ensures
        validate_next(
            ValidateState::AwaitLookup { token },
            Event::SessionFound(Ok(Some(session))),
            now,
        ) == ValidateStep::Perform(ValidateState::AwaitInvalidation, Action::DeleteSession { token }),
        run(
            validate_machine(now),
            validate_first(token),
            seq![Event::SessionFound(Ok(Some(session))), Event::Deleted(Ok(()))],
        ) == ValidateStep::Finish(Ok(None)),
{
    reveal_with_fuel(run, 3);
}

/// A new session lasts seven days. Creation stores the fresh token with an
/// expiry seven days after the time of creation; a session stored so is
/// accepted by every check less than seven days later, and deleted and
/// refused by every check more than seven days later.
pub proof fn new_session_lasts_seven_days(
    user_id: i32,
    created_at: Timestamp,
    token: String,
    session: Session,
    checked_at: Timestamp,
)
    requires
        created_at.is_clock_reading(),
        expiry_fits(created_at),
        session.expires_at == spec_session_expiry(created_at),
    ensures
        run(create_machine(created_at, token), create_first(user_id), seq![Event::Deleted(Ok(()))])
            == CreateStep::Perform(
            CreateState::AwaitInsert,
            Action::InsertSession { user_id, token, expires_at: session.expires_at },
        ),
        checked_at.secs < created_at.secs + SESSION_LIFETIME_DAYS * SECS_PER_DAY ==> validate_next(
            ValidateState::AwaitLookup { token: session.token },
            Event::SessionFound(Ok(Some(session))),
            checked_at,
        ) == ValidateStep::Finish(Ok(Some(session))),
        checked_at.secs > created_at.secs + SESSION_LIFETIME_DAYS * SECS_PER_DAY ==> validate_next(
            ValidateState::AwaitLookup { token: session.token },
            Event::SessionFound(Ok(Some(session))),
            checked_at,
        ) == ValidateStep::Perform(
            ValidateState::AwaitInvalidation,
            Action::DeleteSession { token: session.token },
        ),
{
    reveal_with_fuel(run, 2);
}

/// The events of a successful `verify`: the token named the valid session
/// `session`, the account looked up was that session's, and it was found
/// as `user`, whose id and e-mail address are the answer.
pub open spec fn verify_success_trace(
    events: Seq<Event>,
    session: Session,
    user: User,
    summary: UserSummary,
) -> bool {
    &&& events.len() >= 2
    &&& events[0] == Event::SessionValidated(Ok(Some(session)))
    &&& verify_next(VerifyState::AwaitSession, events[0]) == VerifyStep::Perform(
        VerifyState::AwaitUser,
        Action::FindUserById { id: session.user_id },
    )
    &&& events[1] == Event::UserFound(Ok(Some(user)))
    &&& summary == (UserSummary { id: user.id, email: user.email })
}

/// `verify` answers only with the id and e-mail address of the account that
/// owns a valid session for the token.
pub proof fn verify_reports_session_owner(token: String, events: Seq<Event>, summary: UserSummary)
    requires
        run(verify_machine(), verify_first(token), events) == VerifyStep::Finish(Ok(summary)),
    ensures
        exists|session: Session, user: User| #[trigger]
            verify_success_trace(events, session, user, summary),
{
    let m = verify_machine();
    let answered = Ok::<UserSummary, ApiError>(summary);
    let s0 = VerifyState::AwaitSession;
    lemma_run_pending(m, s0, Action::ValidateSession { token }, events, answered);
    let rest1 = events.drop_first();
    match events[0] {
        Event::SessionValidated(Ok(Some(session))) => {
            let s1 = VerifyState::AwaitUser;
            let a1 = Action::FindUserById { id: session.user_id };
            assert(m(s0, events[0]) == VerifyStep::Perform(s1, a1));
            lemma_run_pending(m, s1, a1, rest1, answered);
            let st2 = m(s1, rest1[0]);
            lemma_run_finished(m, st2->Finish_0, rest1.drop_first());
            match rest1[0] {
                Event::UserFound(Ok(Some(user))) => {
                    assert(verify_success_trace(events, session, user, summary));
                },
                _ => {},
            }
        },
        _ => {
            let st = m(s0, events[0]);
            lemma_run_finished(m, st->Finish_0, rest1);
        },
    }
}

/// `logout` deletes the caller's session first, and removes the session
/// cookie exactly when the client sent one; it succeeds only once the
/// session is deleted.
pub proof fn logout_deletes_session_then_cookie(token: String, events: Seq<Event>)
    ensures
        logout_first(token) == LogoutStep::Perform(
            LogoutState::AwaitInvalidation,
            Action::DeleteSession { token },
        ),
        run(
            logout_machine(),
            logout_first(token),
            seq![Event::Deleted(Ok(())), Event::CookieLooked(true)],
        ) == LogoutStep::Perform(LogoutState::AwaitCookieRemoval, Action::RemoveSessionCookie),
        run(
            logout_machine(),
            logout_first(token),
            seq![Event::Deleted(Ok(())), Event::CookieLooked(true), Event::CookieRemoved],
        ) == LogoutStep::Finish(Ok(())),
        run(
            logout_machine(),
            logout_first(token),
            seq![Event::Deleted(Ok(())), Event::CookieLooked(false)],
        ) == LogoutStep::Finish(Ok(())),
        run(logout_machine(), logout_first(token), events) == LogoutStep::Finish(Ok(()))
            ==> events.len() >= 1 && events[0] == Event::Deleted(Ok(())),
{
    reveal_with_fuel(run, 4);
    if run(logout_machine(), logout_first(token), events) == LogoutStep::Finish(Ok(())) {
        logout_success_starts_with_deletion(token, events);
    }
}

/// A successful `logout` was first told that the session was deleted.
proof fn logout_success_starts_with_deletion(token: String, events: Seq<Event>)
    requires
        run(logout_machine(), logout_first(token), events) == LogoutStep::Finish(Ok(())),
    ensures
        events.len() >= 1,
        events[0] == Event::Deleted(Ok(())),
{
    let m = logout_machine();
    let s0 = LogoutState::AwaitInvalidation;
    lemma_run_pending(m, s0, Action::DeleteSession { token }, events, Ok(()));
    match events[0] {
        Event::Deleted(Ok(done)) => {
            assert(done == ());
        },
        _ => {
            let st = m(s0, events[0]);
            lemma_run_finished(m, st->Finish_0, events.drop_first());
        },
    }
}

} // verus!
