use api::auth_service::{
    create_session, create_session_step, create_session_step_at, validate_session,
    validate_session_step, validate_session_step_at, CreateState, ValidateState,
};
use api::failure::Failure;
use api::flow::{Action, Event, Step};
use api::records::{Session, SessionOnlyToken};
use api::time::{Timestamp, MAX_UTC_SECS};

fn session(expires_at: Timestamp) -> Session {
    Session { id: 1, user_id: 9, expires_at, token: "tok".to_string() }
}

const NOW: Timestamp = Timestamp { secs: 1_700_000_000, nanos: 0 };

#[test]
fn validation_looks_the_token_up() {
    assert_eq!(
        validate_session("tok".to_string()),
        Step::Perform(
            ValidateState::AwaitLookup { token: "tok".to_string() },
            Action::FindSession { token: "tok".to_string() }
        )
    );
}

#[test]
fn live_session_is_handed_back() {
    let s = session(Timestamp { secs: NOW.secs + 10, nanos: 0 });
    let step = validate_session_step_at(
        ValidateState::AwaitLookup { token: "tok".to_string() },
        Event::SessionFound(Ok(Some(s.clone()))),
        NOW,
    );
    assert_eq!(step, Step::Finish(Ok(Some(s))));
}

#[test]
fn session_expiring_exactly_now_is_still_valid() {
    let s = session(NOW);
    let step = validate_session_step_at(
        ValidateState::AwaitLookup { token: "tok".to_string() },
        Event::SessionFound(Ok(Some(s.clone()))),
        NOW,
    );
    assert_eq!(step, Step::Finish(Ok(Some(s))));
}

#[test]
fn expired_session_is_invalidated_then_refused() {
    let s = session(Timestamp { secs: NOW.secs - 1, nanos: 999_999_999 });
    let step = validate_session_step_at(
        ValidateState::AwaitLookup { token: "tok".to_string() },
        Event::SessionFound(Ok(Some(s))),
        NOW,
    );
    assert_eq!(
        step,
        Step::Perform(
            ValidateState::AwaitInvalidation,
            Action::DeleteSession { token: "tok".to_string() }
        )
    );
    let step = validate_session_step_at(ValidateState::AwaitInvalidation, Event::Deleted(Ok(())), NOW);
    assert_eq!(step, Step::Finish(Ok(None)));
}

#[test]
fn unknown_token_and_failures() {
    let token = || ValidateState::AwaitLookup { token: "tok".to_string() };
    assert_eq!(
        validate_session_step_at(token(), Event::SessionFound(Ok(None)), NOW),
        Step::Finish(Ok(None))
    );
    assert_eq!(
        validate_session_step_at(token(), Event::SessionFound(Err("down".to_string())), NOW),
        Step::Finish(Err(Failure::Backend("down".to_string())))
    );
    assert_eq!(
        validate_session_step_at(
            ValidateState::AwaitInvalidation,
            Event::Deleted(Err("locked".to_string())),
            NOW
        ),
        Step::Finish(Err(Failure::Backend("locked".to_string())))
    );
    assert_eq!(
        validate_session_step_at(token(), Event::CookieSet, NOW),
        Step::Finish(Err(Failure::UnexpectedEvent))
    );
}

#[test]
fn validation_against_the_clock() {
    let far = session(Timestamp { secs: MAX_UTC_SECS, nanos: 0 });
    let step = validate_session_step(
        ValidateState::AwaitLookup { token: "tok".to_string() },
        Event::SessionFound(Ok(Some(far.clone()))),
    );
    assert_eq!(step, Step::Finish(Ok(Some(far))));
    let old = session(Timestamp { secs: 1_000, nanos: 0 });
    let step = validate_session_step(
        ValidateState::AwaitLookup { token: "tok".to_string() },
        Event::SessionFound(Ok(Some(old))),
    );
    assert_eq!(
        step,
        Step::Perform(
            ValidateState::AwaitInvalidation,
            Action::DeleteSession { token: "tok".to_string() }
        )
    );
}

#[test]
fn creation_purges_then_inserts_a_week_long_session() {
    assert_eq!(
        create_session(9),
        Step::Perform(CreateState::AwaitPurge { user_id: 9 }, Action::DeleteExpiredSessions { user_id: 9 })
    );
    let step = create_session_step_at(
        CreateState::AwaitPurge { user_id: 9 },
        Event::Deleted(Ok(())),
        Timestamp { secs: 1_700_000_000, nanos: 42 },
        "fresh".to_string(),
    );
    assert_eq!(
        step,
        Step::Perform(
            CreateState::AwaitInsert,
            Action::InsertSession {
                user_id: 9,
                token: "fresh".to_string(),
                expires_at: Timestamp { secs: 1_700_604_800, nanos: 42 },
            }
        )
    );
    let step = create_session_step_at(
        CreateState::AwaitInsert,
        Event::SessionInserted(Ok(SessionOnlyToken { token: "fresh".to_string() })),
        Timestamp { secs: 1_700_000_000, nanos: 42 },
        "other".to_string(),
    );
    assert_eq!(step, Step::Finish(Ok("fresh".to_string())));
}

#[test]
fn creation_failures() {
    let now = Timestamp { secs: 1_700_000_000, nanos: 0 };
    assert_eq!(
        create_session_step_at(
            CreateState::AwaitPurge { user_id: 9 },
            Event::Deleted(Err("x".to_string())),
            now,
            "t".to_string()
        ),
        Step::Finish(Err(Failure::Backend("x".to_string())))
    );
    assert_eq!(
        create_session_step_at(
            CreateState::AwaitInsert,
            Event::SessionInserted(Err("dup".to_string())),
            now,
            "t".to_string()
        ),
        Step::Finish(Err(Failure::Backend("dup".to_string())))
    );
    assert_eq!(
        create_session_step_at(
            CreateState::AwaitPurge { user_id: 9 },
            Event::Deleted(Ok(())),
            Timestamp { secs: MAX_UTC_SECS - 10, nanos: 0 },
            "t".to_string()
        ),
        Step::Finish(Err(Failure::ClockOutOfRange))
    );
    assert_eq!(
        create_session_step_at(CreateState::AwaitInsert, Event::CookieSet, now, "t".to_string()),
        Step::Finish(Err(Failure::UnexpectedEvent))
    );
}

#[test]
fn creation_with_the_clock_and_a_fresh_token() {
    let step = create_session_step(CreateState::AwaitPurge { user_id: 4 }, Event::Deleted(Ok(())));
    match step {
        Step::Perform(CreateState::AwaitInsert, Action::InsertSession { user_id, token, expires_at }) => {
            assert_eq!(user_id, 4);
            assert_eq!(token.len(), 36);
            let today = api::time::now();
            assert!(expires_at.secs > today.secs + 604_000);
            assert!(expires_at.secs <= today.secs + 604_800);
        }
        other => panic!("unexpected step {:?}", other),
    }
}

#[test]
fn created_session_is_valid_for_exactly_a_week() {
    let created_at = Timestamp { secs: 1_700_000_000, nanos: 0 };
    let step = create_session_step_at(
        CreateState::AwaitPurge { user_id: 9 },
        Event::Deleted(Ok(())),
        created_at,
        "tok".to_string(),
    );
    let expires_at = match step {
        Step::Perform(_, Action::InsertSession { expires_at, .. }) => expires_at,
        other => panic!("unexpected step {:?}", other),
    };
    let stored = session(expires_at);
    let lookup = || ValidateState::AwaitLookup { token: "tok".to_string() };
    let just_before = Timestamp { secs: created_at.secs + 604_799, nanos: 999_999_999 };
    assert_eq!(
        validate_session_step_at(lookup(), Event::SessionFound(Ok(Some(stored.clone()))), just_before),
        Step::Finish(Ok(Some(stored.clone())))
    );
    let just_after = Timestamp { secs: created_at.secs + 604_800, nanos: 1 };
    assert_eq!(
        validate_session_step_at(lookup(), Event::SessionFound(Ok(Some(stored))), just_after),
        Step::Perform(ValidateState::AwaitInvalidation, Action::DeleteSession { token: "tok".to_string() })
    );
}
