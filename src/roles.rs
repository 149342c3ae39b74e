use vstd::prelude::*;

use crate::error::StoreError;
use crate::text::str_equal;

verus! {

/// The roles a user can hold.
#[derive(Debug, Clone, Copy, PartialEq, Eq, Structural)]
pub enum RoleCode {
    Admin,
    Editor,
    Viewer,
}

/// The canonical text of a role code.
pub open spec fn role_code_text(c: RoleCode) -> Seq<char> {
    match c {
        RoleCode::Admin => "admin"@,
        RoleCode::Editor => "editor"@,
        RoleCode::Viewer => "viewer"@,
    }
}

impl RoleCode {
    /// Reads a role code from its canonical text.
    pub fn parse(s: &str) -> (r: Option<RoleCode>)
        ensures
            r matches Some(c) ==> role_code_text(c) == s@,
            r is None ==> forall|c: RoleCode| role_code_text(c) != s@,
    {
        if str_equal(s, "admin") {
            Some(RoleCode::Admin)
        } else if str_equal(s, "editor") {
            Some(RoleCode::Editor)
        } else if str_equal(s, "viewer") {
            Some(RoleCode::Viewer)
        } else {
            assert forall|c: RoleCode| role_code_text(c) != s@ by {
                match c {
                    RoleCode::Admin => {},
                    RoleCode::Editor => {},
                    RoleCode::Viewer => {},
                }
            }
            None
        }
    }

    /// The canonical text of this code, also the display name of a role
    /// created for it on demand.
    pub fn to_string(&self) -> (r: String)
        ensures
            r@ == role_code_text(*self),
    {
        match self {
            RoleCode::Admin => String::from_str("admin"),
            RoleCode::Editor => String::from_str("editor"),
            RoleCode::Viewer => String::from_str("viewer"),
        }
    }
}

/// A stored role.
#[derive(Debug, Clone)]
pub struct Role {
    pub id: i32,
    pub code: RoleCode,
    pub name: String,
}

/// A role to be inserted.
#[derive(Debug, Clone)]
pub struct NewRole {
    pub code: RoleCode,
    pub name: String,
}

/// A stored association between a user and a role.
#[derive(Debug, Clone, Copy, PartialEq, Eq, Structural)]
pub struct UserRole {
    pub id: i32,
    pub user_id: i32,
    pub role_id: i32,
}

/// Reads every code of `texts`; `None` as soon as one is not a role code.
pub fn parse_role_codes(texts: &Vec<String>) -> (r: Option<Vec<RoleCode>>)
    ensures
        r matches Some(codes) ==> codes@.len() == texts@.len() && forall|i: int|
            0 <= i < texts@.len() ==> role_code_text(#[trigger] codes@[i]) == texts@[i]@,
        r is None ==> exists|i: int|
            0 <= i < texts@.len() && forall|c: RoleCode| role_code_text(c) != #[trigger] texts@[i]@,
{
    let mut codes: Vec<RoleCode> = Vec::new();
    let mut i: usize = 0;
    while i < texts.len()
        invariant
            i <= texts@.len(),
            codes@.len() == i,
            forall|k: int| 0 <= k < i ==> role_code_text(#[trigger] codes@[k]) == texts@[k]@,
        decreases texts@.len() - i,
    {
        match RoleCode::parse(texts[i].as_str()) {
            Some(c) => codes.push(c),
            None => {
                return None;
            },
        }
        i = i + 1;
    }
    Some(codes)
}

/// The role ids that a user's associations point to, in order.
pub fn role_ids_of(user_roles: &Vec<UserRole>) -> (r: Vec<i32>)
    ensures
        r@.len() == user_roles@.len(),
        forall|i: int| 0 <= i < r@.len() ==> r@[i] == #[trigger] user_roles@[i].role_id,
{
    let mut ids: Vec<i32> = Vec::new();
    let mut i: usize = 0;
    while i < user_roles.len()
        invariant
            i <= user_roles@.len(),
            ids@.len() == i,
            forall|k: int| 0 <= k < i ==> ids@[k] == #[trigger] user_roles@[k].role_id,
        decreases user_roles@.len() - i,
    {
        ids.push(user_roles[i].role_id);
        i = i + 1;
    }
    ids
}

/// Why inserting a role failed.
#[derive(Debug, Clone, Copy, PartialEq, Eq, Structural)]
pub enum InsertError {
    /// A row with the same code exists already (the uniqueness constraint).
    Conflict,
    /// The store could not be reached or refused the row.
    Unavailable,
}

/// What provisioning a role for a code does next.
#[derive(Debug, Clone)]
pub enum RoleStep {
    /// The role exists: associate the user with this role id.
    Link(i32),
    /// No role has the code: insert this one.
    Create(NewRole),
    /// A concurrent insert won: read the role by its code once more.
    Reread,
    /// The store failed.
    Fail,
}

/// Next step after looking up the role for `code`.
pub fn role_after_lookup(code: RoleCode, found: Result<Role, StoreError>) -> (r: RoleStep)
    ensures
        found matches Ok(role) ==> r == RoleStep::Link(role.id),
        found == Err::<Role, StoreError>(StoreError::NotFound) ==> (r matches RoleStep::Create(nr)
            && nr.code == code && nr.name@ == role_code_text(code)),
        found == Err::<Role, StoreError>(StoreError::Unavailable) ==> r is Fail,
{
    match found {
        Ok(role) => RoleStep::Link(role.id),
        Err(StoreError::NotFound) => RoleStep::Create(NewRole { code, name: code.to_string() }),
        Err(StoreError::Unavailable) => RoleStep::Fail,
    }
}

/// Next step after inserting a new role: a conflict means that another
/// request created the same code meanwhile, so it is read back.
pub fn role_after_insert(created: Result<Role, InsertError>) -> (r: RoleStep)
    ensures
        created matches Ok(role) ==> r == RoleStep::Link(role.id),
        created == Err::<Role, InsertError>(InsertError::Conflict) ==> r is Reread,
        created == Err::<Role, InsertError>(InsertError::Unavailable) ==> r is Fail,
{
    match created {
        Ok(role) => RoleStep::Link(role.id),
        Err(InsertError::Conflict) => RoleStep::Reread,
        Err(InsertError::Unavailable) => RoleStep::Fail,
    }
}

/// Next step after reading a role back: it must be there now.
pub fn role_after_reread(found: Result<Role, StoreError>) -> (r: RoleStep)
    ensures
        found matches Ok(role) ==> r == RoleStep::Link(role.id),
        found is Err ==> r is Fail,
{
    match found {
        Ok(role) => RoleStep::Link(role.id),
        Err(_) => RoleStep::Fail,
    }
}

} // verus!
