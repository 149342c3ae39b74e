use cr8s::error::{lookup_failure, ApiError, StoreError};
use cr8s::guard::{
    authenticate_in, find_user_in, guard_on_session, guard_on_user, guard_start, has_editor_role,
    require_editor, GuardStep,
};
use cr8s::login::{begin_login, finish_login};
use cr8s::model::{public_profile, Credentials, User};
use cr8s::password::hash_password;
use cr8s::roles::{Role, RoleCode};
use cr8s::session::{SessionTable, SESSION_TTL_SECS};
use cr8s::token::session_key;

fn user(id: i32, name: &str, pw: &str) -> User {
    User {
        id,
        username: name.to_string(),
        password: hash_password(pw.to_string()).unwrap(),
        created_at: 42,
    }
}

fn role(id: i32, code: RoleCode) -> Role {
    Role { id, code, name: code.to_string() }
}

#[test]
fn session_resolves_until_its_lifetime_ends() {
    assert_eq!(SESSION_TTL_SECS, 3 * 60 * 60);
    let mut t = SessionTable::new();
    t.create("sessions/abc".to_string(), 9, 1000);
    assert_eq!(t.resolve("sessions/abc", 1000), Ok(9));
    assert_eq!(t.resolve("sessions/abc", 1000 + 10799), Ok(9));
    assert_eq!(t.resolve("sessions/abc", 1000 + 10800), Err(StoreError::NotFound));
    assert_eq!(t.resolve("sessions/other", 1000), Err(StoreError::NotFound));
}

#[test]
fn later_session_for_same_token_overwrites() {
    let mut t = SessionTable::new();
    t.create("k".to_string(), 1, 0);
    t.create("j".to_string(), 2, 0);
    t.create("k".to_string(), 3, 50);
    assert_eq!(t.resolve("k", 10820), Ok(3));
    assert_eq!(t.resolve("j", 10), Ok(2));
    assert_eq!(t.resolve("j", 10800), Err(StoreError::NotFound));
}

#[test]
fn session_key_is_namespaced() {
    assert_eq!(session_key("abc"), "sessions/abc");
    assert_eq!(session_key(""), "sessions/");
}

#[test]
fn guard_rejects_missing_and_malformed_headers() {
    assert!(matches!(guard_start(None), GuardStep::Reject));
    assert!(matches!(guard_start(Some("Basic abc")), GuardStep::Reject));
    assert!(matches!(guard_start(Some("Bearer")), GuardStep::Reject));
    assert!(matches!(guard_start(Some("Bearer a b")), GuardStep::Reject));
    match guard_start(Some("Bearer tok")) {
        GuardStep::FetchSession(k) => assert_eq!(k, "sessions/tok"),
        other => panic!("unexpected step {:?}", other),
    }
}

#[test]
fn guard_rejects_unknown_token_and_deleted_user() {
    let sessions = SessionTable::new();
    let key = match guard_start(Some("Bearer unknown")) {
        GuardStep::FetchSession(k) => k,
        other => panic!("unexpected step {:?}", other),
    };
    assert!(matches!(guard_on_session(sessions.resolve(&key, 0)), GuardStep::Reject));
    assert!(matches!(guard_on_session(Err(StoreError::Unavailable)), GuardStep::Reject));
    assert!(matches!(guard_on_session(Ok(5)), GuardStep::FetchUser(5)));
    assert!(matches!(guard_on_user(Err(StoreError::NotFound)), GuardStep::Reject));
    assert!(matches!(guard_on_user(Err(StoreError::Unavailable)), GuardStep::Reject));
}

#[test]
fn editor_capability_follows_roles() {
    let u = User { id: 1, username: "u".to_string(), password: String::new(), created_at: 0 };
    let admin = require_editor(u.clone(), Ok(vec![role(1, RoleCode::Admin)]));
    assert_eq!(admin.unwrap().user.id, 1);
    assert!(require_editor(u.clone(), Ok(vec![role(3, RoleCode::Viewer), role(2, RoleCode::Editor)])).is_ok());
    assert_eq!(
        require_editor(u.clone(), Ok(vec![role(3, RoleCode::Viewer)])).unwrap_err(),
        ApiError::Unauthorized
    );
    assert_eq!(require_editor(u.clone(), Ok(vec![])).unwrap_err(), ApiError::Unauthorized);
    assert_eq!(require_editor(u, Err(StoreError::Unavailable)).unwrap_err(), ApiError::Unauthorized);
    assert!(!has_editor_role(&vec![]));
}

#[test]
fn revoking_editor_role_takes_effect_on_next_request() {
    let u = User { id: 2, username: "v".to_string(), password: String::new(), created_at: 0 };
    let before = vec![role(2, RoleCode::Editor), role(3, RoleCode::Viewer)];
    assert!(require_editor(u.clone(), Ok(before)).is_ok());
    let after = vec![role(3, RoleCode::Viewer)];
    assert!(require_editor(u, Ok(after)).is_err());
}

#[test]
fn error_statuses() {
    assert_eq!(ApiError::Unauthorized.status(), 401);
    assert_eq!(ApiError::NotFound.status(), 404);
    assert_eq!(ApiError::Internal.status(), 500);
    assert_eq!(lookup_failure(StoreError::NotFound), ApiError::NotFound);
    assert_eq!(lookup_failure(StoreError::Unavailable), ApiError::Internal);
}

#[test]
fn directory_lookup_by_id() {
    let users = vec![
        User { id: 1, username: "a".into(), password: String::new(), created_at: 0 },
        User { id: 2, username: "b".into(), password: String::new(), created_at: 0 },
    ];
    assert_eq!(find_user_in(&users, 2).unwrap().username, "b");
    assert_eq!(find_user_in(&users, 3).unwrap_err(), StoreError::NotFound);
}

#[test]
fn end_to_end_login_me_and_write_access() {
    let alice = user(11, "alice", "s3cret");
    let viewer = user(12, "vic", "pw");
    let users = vec![alice.clone(), viewer.clone()];
    let mut sessions = SessionTable::new();

    let s = begin_login(Ok(alice.clone()), Credentials { username: "alice".into(), password: "s3cret".into() }).unwrap();
    sessions.create(session_key(&s.token), s.user_id, 500);
    let token = finish_login(Ok(()), s).unwrap();
    assert_eq!(token.len(), 128);

    let header = format!("Bearer {}", token);
    let me = public_profile(&authenticate_in(Some(&header), &sessions, 600, &users).unwrap());
    assert_eq!(me.id, 11);
    assert_eq!(me.username, "alice");

    let wrong = begin_login(Ok(alice.clone()), Credentials { username: "alice".into(), password: "wrong".into() });
    assert_eq!(wrong.unwrap_err().status(), 401);

    let s = begin_login(Ok(viewer.clone()), Credentials { username: "vic".into(), password: "pw".into() }).unwrap();
    sessions.create(session_key(&s.token), s.user_id, 500);
    let vtoken = finish_login(Ok(()), s).unwrap();
    let vheader = format!("Bearer {}", vtoken);
    let identity = authenticate_in(Some(&vheader), &sessions, 600, &users).unwrap();
    let write = require_editor(identity, Ok(vec![role(3, RoleCode::Viewer)]));
    assert_eq!(write.unwrap_err().status(), 401);

    assert!(authenticate_in(Some(&header), &sessions, 500 + SESSION_TTL_SECS, &users).is_none());
    assert!(authenticate_in(Some(&header), &sessions, 600, &vec![viewer]).is_none());
}

#[test]
fn guard_rejects_without_header_or_with_unknown_token() {
    let sessions = SessionTable::new();
    let users: Vec<User> = vec![];
    assert!(authenticate_in(None, &sessions, 0, &users).is_none());
    assert!(authenticate_in(Some("Basic x"), &sessions, 0, &users).is_none());
    assert!(authenticate_in(Some("Bearer unknown"), &sessions, 0, &users).is_none());
}
