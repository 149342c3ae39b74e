use cr8s::error::ApiError;
use cr8s::guard::{guard_on_session, guard_on_user, guard_start, GuardStep};
use cr8s::login::{authorize_user, begin_login, finish_login};
use cr8s::model::{public_profile, Credentials, User};
use cr8s::password::{hash_password, hash_password_with_salt, verify_password, HashError};
use cr8s::session::SessionTable;
use cr8s::token::{generate_session_token, session_key, session_token_from};
use rand::rngs::StdRng;
use rand::SeedableRng;

fn provisioned(id: i32, username: &str, password: &str) -> User {
    User {
        id,
        username: username.to_string(),
        password: hash_password(password.to_string()).unwrap(),
        created_at: 1_700_000_000,
    }
}

fn creds(username: &str, password: &str) -> Credentials {
    Credentials { username: username.to_string(), password: password.to_string() }
}

#[test]
fn test_login() {
    let user = provisioned(1, "test_admin", "1234");

    let session = begin_login(Ok(user.clone()), creds("test_admin", "1234")).unwrap();
    assert_eq!(session.user_id, 1);
    let token = finish_login(Ok(()), session).unwrap();
    assert_eq!(token.len(), 128);

    let wrong = begin_login(Ok(user), creds("test_admin", "12345"));
    assert_eq!(wrong.unwrap_err().status(), 401);
}

#[test]
fn test_me() {
    let user = provisioned(7, "test_viewer", "1234");
    let mut sessions = SessionTable::new();
    let session = begin_login(Ok(user.clone()), creds("test_viewer", "1234")).unwrap();
    sessions.create(session_key(&session.token), session.user_id, 100);
    let token = finish_login(Ok(()), session).unwrap();

    let header = format!("Bearer {}", token);
    let key = match guard_start(Some(&header)) {
        GuardStep::FetchSession(k) => k,
        other => panic!("unexpected step {:?}", other),
    };
    let id = match guard_on_session(sessions.resolve(&key, 101)) {
        GuardStep::FetchUser(id) => id,
        other => panic!("unexpected step {:?}", other),
    };
    assert_eq!(id, 7);
    let me = match guard_on_user(Ok(user)) {
        GuardStep::Accept(u) => public_profile(&u),
        other => panic!("unexpected step {:?}", other),
    };
    assert_eq!(me.id, 7);
    assert_eq!(me.username, "test_viewer");
    assert_eq!(me.created_at, 1_700_000_000);
}

#[test]
fn hash_then_verify_accepts_same_password_only() {
    let h = hash_password("s3cret".to_string()).unwrap();
    assert!(h.starts_with("$argon2"));
    assert!(verify_password("s3cret", &h));
    assert!(!verify_password("wrong", &h));
    assert!(!verify_password("", &h));
}

#[test]
fn hashing_twice_gives_different_salts_that_both_verify() {
    let a = hash_password("same".to_string()).unwrap();
    let b = hash_password("same".to_string()).unwrap();
    assert_ne!(a, b);
    assert!(verify_password("same", &a));
    assert!(verify_password("same", &b));
}

#[test]
fn malformed_stored_hash_is_rejected_like_a_wrong_password() {
    assert!(!verify_password("s3cret", "not a phc string"));
    assert!(!verify_password("s3cret", ""));
    let user = User {
        id: 3,
        username: "bob".to_string(),
        password: "$argon2id$garbage".to_string(),
        created_at: 0,
    };
    assert_eq!(authorize_user(&user, creds("bob", "s3cret")).unwrap_err(), ApiError::Unauthorized);
}

#[test]
fn tokens_are_128_alphanumeric_and_fresh() {
    let a = generate_session_token().unwrap();
    let b = generate_session_token().unwrap();
    assert_eq!(a.chars().count(), 128);
    assert!(a.chars().all(|c| c.is_ascii_alphanumeric()));
    assert!(b.chars().all(|c| c.is_ascii_alphanumeric()));
    assert_ne!(a, b);
}

#[test]
fn authorize_user_issues_token_on_match() {
    let user = provisioned(2, "carol", "pw");
    let t = authorize_user(&user, creds("carol", "pw")).unwrap();
    assert_eq!(t.len(), 128);
    assert_eq!(authorize_user(&user, creds("carol", "nope")).unwrap_err(), ApiError::Unauthorized);
}

#[test]
fn unknown_user_and_wrong_password_look_the_same() {
    let user = provisioned(4, "dave", "right");
    let unknown = begin_login(Err(cr8s::error::StoreError::NotFound), creds("nobody", "right"));
    let wrong = begin_login(Ok(user), creds("dave", "wrong"));
    assert_eq!(unknown.unwrap_err(), ApiError::Unauthorized);
    assert_eq!(wrong.unwrap_err(), ApiError::Unauthorized);
}

#[test]
fn store_failures_during_login_are_internal() {
    let down = begin_login(Err(cr8s::error::StoreError::Unavailable), creds("dave", "x"));
    assert_eq!(down.unwrap_err(), ApiError::Internal);
    let user = provisioned(5, "erin", "pw");
    let session = begin_login(Ok(user), creds("erin", "pw")).unwrap();
    let r = finish_login(Err(cr8s::error::StoreError::Unavailable), session);
    assert_eq!(r.unwrap_err().status(), 500);
}

#[test]
fn hashing_with_given_salt_is_deterministic() {
    let salt: Vec<u8> = (0u8..16).collect();
    let a = hash_password_with_salt("pw", &salt).unwrap();
    let b = hash_password_with_salt("pw", &salt).unwrap();
    assert_eq!(a, b);
    assert!(a.starts_with("$argon2id$"));
    assert!(verify_password("pw", &a));
    assert_ne!(hash_password_with_salt("pw2", &salt).unwrap(), a);
}

#[test]
fn too_short_salt_is_rejected() {
    assert_eq!(hash_password_with_salt("pw", &vec![1, 2, 3, 4]), Err(HashError::Rejected));
    assert_eq!(hash_password_with_salt("pw", &vec![1, 2, 3]), Err(HashError::Rejected));
    assert_eq!(hash_password_with_salt("pw", &vec![0; 7]), Err(HashError::Rejected));
    assert!(hash_password_with_salt("pw", &vec![0; 8]).is_ok());
}

#[test]
fn empty_password_hashes() {
    let h = hash_password(String::new()).unwrap();
    assert!(verify_password("", &h));
    assert!(!verify_password(" ", &h));
}

#[test]
fn token_from_seeded_generator() {
    let mut rng = StdRng::seed_from_u64(7);
    let a = session_token_from(&mut rng);
    let b = session_token_from(&mut rng);
    assert_eq!(a.len(), 128);
    assert!(a.chars().all(|c| c.is_ascii_alphanumeric()));
    assert_ne!(a, b);
    let mut again = StdRng::seed_from_u64(7);
    assert_eq!(session_token_from(&mut again), a);
}
