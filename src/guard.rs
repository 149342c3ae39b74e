use vstd::prelude::*;

use crate::error::{ApiError, StoreError};
use crate::header::{bearer_token, bearer_token_of};
use crate::model::User;
use crate::roles::{Role, RoleCode};
use crate::header::{lemma_bearer_header, is_white_space};
use crate::session::{after_create, resolve_at, SessionTable, SESSION_TTL_SECS};
use crate::token::{is_session_token, session_key, session_key_of};

verus! {

/// What the per-request guard does next. A rejection carries no cause: a
/// client cannot tell a missing header from an expired session.
#[derive(Debug, Clone)]
pub enum GuardStep {
    /// Answer `Unauthorized`.
    Reject,
    /// Read the user id stored in the session cache under this key.
    FetchSession(String),
    /// Read the user with this id from the directory.
    FetchUser(i32),
    /// The request is made by this user.
    Accept(User),
}

/// The session cache key named by an `Authorization` header, if the header
/// is there and well formed.
pub open spec fn guard_key(header: Option<Seq<char>>) -> Option<Seq<char>> {
    match header {
        Some(h) => match bearer_token_of(h) {
            Some(t) => Some(session_key_of(t)),
            None => None,
        },
        None => None,
    }
}

/// The identity that the guard establishes for a request, given what the
/// session cache and the user directory answer.
pub open spec fn authenticate_spec(
    header: Option<Seq<char>>,
    sessions: spec_fn(Seq<char>) -> Result<i32, StoreError>,
    users: spec_fn(i32) -> Result<User, StoreError>,
) -> Option<User> {
    match guard_key(header) {
        Some(k) => match sessions(k) {
            Ok(id) => match users(id) {
                Ok(u) => Some(u),
                Err(_) => None,
            },
            Err(_) => None,
        },
        None => None,
    }
}

pub open spec fn header_view(header: Option<&str>) -> Option<Seq<char>> {
    match header {
        Some(h) => Some(h@),
        None => None,
    }
}

/// First step: read the bearer token from the `Authorization` header.
pub fn guard_start(header: Option<&str>) -> (r: GuardStep)
    ensures
        guard_key(header_view(header)) is None ==> r is Reject,
        guard_key(header_view(header)) matches Some(k) ==> (r matches GuardStep::FetchSession(key)
            && key@ == k),
{
    match header {
        Some(h) => match bearer_token(h) {
            Some(t) => GuardStep::FetchSession(session_key(t.as_str())),
            None => GuardStep::Reject,
        },
        None => GuardStep::Reject,
    }
}

/// Second step: a cache miss and a cache failure both reject.
pub fn guard_on_session(found: Result<i32, StoreError>) -> (r: GuardStep)
    ensures
        found matches Ok(id) ==> r == GuardStep::FetchUser(id),
        found is Err ==> r is Reject,
{
    match found {
        Ok(id) => GuardStep::FetchUser(id),
        Err(_) => GuardStep::Reject,
    }
}

/// Last step: a user deleted since the session was issued rejects.
pub fn guard_on_user(found: Result<User, StoreError>) -> (r: GuardStep)
    ensures
        found matches Ok(u) ==> r == GuardStep::Accept(u),
        found is Err ==> r is Reject,
{
    match found {
        Ok(u) => GuardStep::Accept(u),
        Err(_) => GuardStep::Reject,
    }
}

/// The guard rejects a request without a header, with a header that is not
/// `Bearer <token>`, with a token that the cache does not resolve, and with
/// a token whose user no longer exists; it accepts otherwise.
pub proof fn lemma_guard_outcomes(
    header: Option<Seq<char>>,
    sessions: spec_fn(Seq<char>) -> Result<i32, StoreError>,
    users: spec_fn(i32) -> Result<User, StoreError>,
)
    ensures
        header is None ==> authenticate_spec(header, sessions, users) is None,
        header is Some && bearer_token_of(header->Some_0) is None ==> authenticate_spec(
            header,
            sessions,
            users,
        ) is None,
        guard_key(header) is Some && sessions(guard_key(header)->Some_0) is Err ==> authenticate_spec(
            header,
            sessions,
            users,
        ) is None,
        guard_key(header) is Some && sessions(guard_key(header)->Some_0) is Ok && users(
            sessions(guard_key(header)->Some_0)->Ok_0,
        ) is Err ==> authenticate_spec(header, sessions, users) is None,
        guard_key(header) is Some && sessions(guard_key(header)->Some_0) is Ok && users(
            sessions(guard_key(header)->Some_0)->Ok_0,
        ) is Ok ==> authenticate_spec(header, sessions, users) == Some(
            users(sessions(guard_key(header)->Some_0)->Ok_0)->Ok_0,
        ),
        guard_key(header) is Some <==> (header is Some && bearer_token_of(header->Some_0) is Some),
        guard_key(header) is Some ==> guard_key(header)->Some_0 == session_key_of(
            bearer_token_of(header->Some_0)->Some_0,
        ),
{
}

/// The newest user of `users` with id `id`.
pub open spec fn find_user(users: Seq<User>, id: i32) -> Result<User, StoreError>
    decreases users.len(),
{
    if users.len() == 0 {
        Err(StoreError::NotFound)
    } else if users.last().id == id {
        Ok(users.last())
    } else {
        find_user(users.drop_last(), id)
    }
}

/// Looks up the user with id `id` in an in-process directory.
pub fn find_user_in(users: &Vec<User>, id: i32) -> (r: Result<User, StoreError>)
    ensures
        r == find_user(users@, id),
{
    let mut i: usize = users.len();
    assert(users@.take(i as int) =~= users@);
    while i > 0
        invariant
            i <= users@.len(),
            find_user(users@, id) == find_user(users@.take(i as int), id),
        decreases i,
    {
        assert(users@.take(i as int).drop_last() =~= users@.take(i - 1));
        if users[i - 1].id == id {
            return Ok(users[i - 1].duplicate());
        }
        i = i - 1;
    }
    Err(StoreError::NotFound)
}

/// Runs the guard's steps against an in-process session table at time
/// `now` and an in-process user directory.
pub fn authenticate_in(header: Option<&str>, sessions: &SessionTable, now: u64, users: &Vec<User>) -> (r:
    Option<User>)
    ensures
        r == authenticate_spec(
            header_view(header),
            |k: Seq<char>| resolve_at(sessions@, k, now),
            |id: i32| find_user(users@, id),
        ),
{
    let key = match guard_start(header) {
        GuardStep::FetchSession(k) => k,
        _ => {
            return None;
        },
    };
    let id = match guard_on_session(sessions.resolve(key.as_str(), now)) {
        GuardStep::FetchUser(id) => id,
        _ => {
            return None;
        },
    };
    match guard_on_user(find_user_in(users, id)) {
        GuardStep::Accept(u) => Some(u),
        _ => None,
    }
}

/// A request bearing `Bearer <token>` for a session just created for an
/// existing user is made by that user until the session's lifetime has
/// passed, and is rejected from then on.
pub proof fn lemma_guard_session_lifetime(
    v: Seq<(Seq<char>, i32, u64)>,
    users: spec_fn(i32) -> Result<User, StoreError>,
    token: Seq<char>,
    user: User,
    issued: u64,
    now: u64,
)
    requires
        is_session_token(token),
        users(user.id) == Ok::<User, StoreError>(user),
        issued <= u64::MAX - SESSION_TTL_SECS,
    ensures
        now < issued + SESSION_TTL_SECS ==> authenticate_spec(
            Some("Bearer "@ + token),
            |k: Seq<char>| resolve_at(after_create(v, session_key_of(token), user.id, issued), k, now),
            users,
        ) == Some(user),
        now >= issued + SESSION_TTL_SECS ==> authenticate_spec(
            Some("Bearer "@ + token),
            |k: Seq<char>| resolve_at(after_create(v, session_key_of(token), user.id, issued), k, now),
            users,
        ) is None,
{
    assert forall|i: int| 0 <= i < token.len() implies !is_white_space(#[trigger] token[i]) by {
        assert(crate::token::is_ascii_alphanumeric(token[i]));
    }
    lemma_bearer_header(token);
    crate::session::lemma_session_lifetime(v, session_key_of(token), user.id, issued, now);
}

/// Proof that the current request's identity holds the editor capability.
#[derive(Debug, Clone)]
pub struct EditorUser {
    pub user: User,
}

pub open spec fn is_editor_code(c: RoleCode) -> bool {
    c == RoleCode::Admin || c == RoleCode::Editor
}

/// A role set grants the editor capability when it holds Admin or Editor.
pub open spec fn grants_editor(roles: Seq<Role>) -> bool {
    exists|i: int| 0 <= i < roles.len() && is_editor_code(#[trigger] roles[i].code)
}

/// Whether some role of `roles` is Admin or Editor.
pub fn has_editor_role(roles: &Vec<Role>) -> (r: bool)
    ensures
        r == grants_editor(roles@),
{
    let mut i: usize = 0;
    while i < roles.len()
        invariant
            i <= roles@.len(),
            forall|k: int| 0 <= k < i ==> !is_editor_code(#[trigger] roles@[k].code),
        decreases roles@.len() - i,
    {
        let code = roles[i].code;
        assert(code == roles@[i as int].code);
        match code {
            RoleCode::Viewer => {},
            _ => {
                assert(is_editor_code(roles@[i as int].code));
                return true;
            },
        }
        i = i + 1;
    }
    false
}

/// Elevates an authenticated identity to the editor capability, from the
/// roles read for it on this request. A failed read rejects.
pub fn require_editor(user: User, roles: Result<Vec<Role>, StoreError>) -> (r: Result<
    EditorUser,
    ApiError,
>)
    ensures
        r is Ok <==> (roles is Ok && grants_editor(roles->Ok_0@)),
        r matches Ok(e) ==> e.user == user,
        r matches Err(e) ==> e == ApiError::Unauthorized,
{
    match roles {
        Ok(rs) => if has_editor_role(&rs) {
            Ok(EditorUser { user })
        } else {
            Err(ApiError::Unauthorized)
        },
        Err(_) => Err(ApiError::Unauthorized),
    }
}

/// Admin and Editor grant the capability; Viewer alone, or no role at all,
/// does not.
pub proof fn lemma_editor_roles(roles: Seq<Role>, r: Role)
    ensures
        is_editor_code(r.code) ==> grants_editor(roles.push(r)),
        (forall|i: int| 0 <= i < roles.len() ==> (#[trigger] roles[i]).code == RoleCode::Viewer)
            ==> !grants_editor(roles),
        !grants_editor(Seq::<Role>::empty()),
{
    if is_editor_code(r.code) {
        assert(roles.push(r)[roles.len() as int] == r);
    }
}

/// The capability is read from the roles as they are now: once every Admin
/// and Editor role has been taken from a user, the same request is refused.
pub proof fn lemma_editor_revoked(roles: Seq<Role>)
    ensures
        !grants_editor(roles.filter(|r: Role| !is_editor_code(r.code))),
{
    let kept = roles.filter(|r: Role| !is_editor_code(r.code));
    assert forall|i: int| 0 <= i < kept.len() implies !is_editor_code(#[trigger] kept[i].code) by {
        roles.lemma_filter_pred(|r: Role| !is_editor_code(r.code), i);
    }
}

} // verus!
