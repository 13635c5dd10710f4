use axum_user_jwt_template::session::{
    after_session_insert, after_session_lookup, after_user_lookup, GetTokenUserResult, IssueStep,
    ResolveStep, Session, SessionLookup, SESSION_TOKEN_LENGTH,
};
use axum_user_jwt_template::user::{
    after_insert, after_username_check, check_login, prepare_registration, AddUserResult,
    AddUserStep, InsertOutcome, LoginResult, User, UserLookup, UsernameLookup,
};

fn s(text: &str) -> String {
    text.to_string()
}

fn is_token_symbol(c: char) -> bool {
    c.is_ascii_uppercase() || c.is_ascii_lowercase() || c.is_ascii_digit()
}

fn sample_user() -> User {
    User { id: s("user-1"), username: s("erin"), password_hash: s("not-a-bcrypt-hash") }
}

fn sample_session(valid_to: i64, disabled: bool) -> Session {
    Session {
        id: s("session-1"),
        token: s("abc"),
        user_id: s("user-1"),
        valid_to,
        disabled,
    }
}

#[test]
fn dan_scenario() {
    let dan = User::new(&s("dan"), &s("secret")).expect("hashing works");
    assert_eq!(dan.username, "dan");

    match check_login(UserLookup::Found(dan.clone()), &s("secret")) {
        LoginResult::Success(u) => assert_eq!(u.id, dan.id),
        _ => panic!("the right password must log in"),
    }
    assert!(matches!(
        check_login(UserLookup::Found(dan.clone()), &s("wrong")),
        LoginResult::InvalidCredentials
    ));

    let session = Session::new(&dan, 3600);
    let issued_at = session.valid_to - 3600;
    let user_id = match after_session_lookup(SessionLookup::Found(session.clone()), issued_at) {
        ResolveStep::FetchUser(id) => id,
        ResolveStep::Done(_) => panic!("a fresh session must be usable"),
    };
    assert_eq!(user_id, dan.id);
    match after_user_lookup(UserLookup::Found(dan.clone())) {
        GetTokenUserResult::Success(u) => assert_eq!(u.username, "dan"),
        _ => panic!("the identity must resolve"),
    }

    let mut expired = session.clone();
    expired.valid_to = issued_at - 1;
    assert!(matches!(
        after_session_lookup(SessionLookup::Found(expired), issued_at),
        ResolveStep::Done(GetTokenUserResult::Unauthorized)
    ));
}

#[test]
fn same_password_gets_different_salts() {
    let a = User::new(&s("amy"), &s("hunter2")).unwrap();
    let b = User::new(&s("bob"), &s("hunter2")).unwrap();
    assert_ne!(a.password_hash, b.password_hash);
    assert_ne!(a.password_hash, "hunter2");
    assert_ne!(a.id, b.id);
    assert_eq!(a.id.len(), 36);
}

#[test]
fn registration_validates_input() {
    assert!(matches!(prepare_registration(&s(""), &s("pw")), Err(AddUserResult::ValidationError)));
    assert!(matches!(prepare_registration(&s("carl"), &s("")), Err(AddUserResult::ValidationError)));
    let u = prepare_registration(&s("carl"), &s("pw")).unwrap();
    assert_eq!(u.username, "carl");
    assert!(u.password_hash.starts_with("$2b$12$"));
}

#[test]
fn username_check_steps() {
    assert!(matches!(
        after_username_check(UsernameLookup::Taken),
        AddUserStep::Done(AddUserResult::UsernameTaken)
    ));
    assert!(matches!(after_username_check(UsernameLookup::Free), AddUserStep::Insert));
    assert!(matches!(
        after_username_check(UsernameLookup::Failed),
        AddUserStep::Done(AddUserResult::DatabaseError)
    ));
}

#[test]
fn constraint_violation_is_username_taken() {
    assert!(matches!(after_insert(InsertOutcome::Inserted), AddUserResult::Success));
    assert!(matches!(after_insert(InsertOutcome::UniqueViolation), AddUserResult::UsernameTaken));
    assert!(matches!(after_insert(InsertOutcome::Failed), AddUserResult::DatabaseError));
}

#[test]
fn login_failures_are_uniform() {
    assert!(matches!(check_login(UserLookup::Absent, &s("pw")), LoginResult::InvalidCredentials));
    assert!(matches!(
        check_login(UserLookup::Found(sample_user()), &s("pw")),
        LoginResult::InvalidCredentials
    ));
    assert!(matches!(check_login(UserLookup::Failed, &s("pw")), LoginResult::DatabaseError));
}

#[test]
fn tokens_have_fixed_length_and_alphabet() {
    let token = Session::generate_session_token(SESSION_TOKEN_LENGTH);
    assert_eq!(token.chars().count(), 32);
    assert!(token.chars().all(is_token_symbol));
    assert_eq!(Session::generate_session_token(0), "");
    assert_eq!(Session::generate_session_token(7).len(), 7);
}

#[test]
fn tokens_do_not_collide() {
    let mut seen = std::collections::HashSet::new();
    for _ in 0..2000 {
        assert!(seen.insert(Session::generate_session_token(SESSION_TOKEN_LENGTH)));
    }
}

#[test]
fn issued_session_fields() {
    let u = sample_user();
    let session = Session::issue(&u, s("sid"), s("tok"), 1000, 60);
    assert_eq!(session.valid_to, 1060);
    assert_eq!(session.user_id, "user-1");
    assert_eq!(session.id, "sid");
    assert_eq!(session.token, "tok");
    assert!(!session.disabled);

    let late = Session::issue(&u, s("sid"), s("tok"), i64::MAX - 5, 10);
    assert_eq!(late.valid_to, i64::MAX);

    let fresh = Session::new(&u, 120);
    assert_eq!(fresh.token.len(), 32);
    assert_eq!(fresh.id.len(), 36);
    assert!(fresh.is_usable(fresh.valid_to - 120));
}

#[test]
fn usable_until_valid_to() {
    let open = sample_session(500, false);
    assert!(open.is_usable(500));
    assert!(open.is_usable(10));
    assert!(!open.is_usable(501));
    assert!(!sample_session(500, true).is_usable(10));
}

#[test]
fn expired_session_is_unauthorized_either_way() {
    for disabled in [false, true] {
        assert!(matches!(
            after_session_lookup(SessionLookup::Found(sample_session(100, disabled)), 101),
            ResolveStep::Done(GetTokenUserResult::Unauthorized)
        ));
    }
}

#[test]
fn disabled_session_is_unauthorized() {
    assert!(matches!(
        after_session_lookup(SessionLookup::Found(sample_session(100, true)), 50),
        ResolveStep::Done(GetTokenUserResult::Unauthorized)
    ));
}

#[test]
fn unknown_token_and_dangling_identity_are_not_found() {
    assert!(matches!(
        after_session_lookup(SessionLookup::Absent, 0),
        ResolveStep::Done(GetTokenUserResult::NotFound)
    ));
    assert!(matches!(
        after_session_lookup(SessionLookup::Failed, 0),
        ResolveStep::Done(GetTokenUserResult::DatabaseError)
    ));
    match after_session_lookup(SessionLookup::Found(sample_session(100, false)), 50) {
        ResolveStep::FetchUser(id) => assert_eq!(id, "user-1"),
        ResolveStep::Done(_) => panic!("a usable session goes on to its identity"),
    }
    assert!(matches!(after_user_lookup(UserLookup::Absent), GetTokenUserResult::NotFound));
    assert!(matches!(after_user_lookup(UserLookup::Failed), GetTokenUserResult::DatabaseError));
}

#[test]
fn token_collision_is_retried() {
    assert_eq!(after_session_insert(InsertOutcome::Inserted), IssueStep::Issued);
    assert_eq!(after_session_insert(InsertOutcome::UniqueViolation), IssueStep::Retry);
    assert_eq!(after_session_insert(InsertOutcome::Failed), IssueStep::Failed);
}
