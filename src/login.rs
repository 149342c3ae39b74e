use vstd::prelude::*;

use crate::error::{ApiError, StoreError};
use crate::model::{Credentials, User};
use crate::password::{argon2_accepts, verify_password};
use crate::token::{generate_session_token, is_session_token};

verus! {

/// Checks the submitted password against the user's stored hash and, when it
/// matches, draws a fresh session token. A wrong password and a malformed
/// stored hash both give `Unauthorized`; a matching password for which no
/// token could be drawn gives `Internal`.
pub fn authorize_user(user: &User, credentials: Credentials) -> (r: Result<String, ApiError>)
    ensures
        r matches Ok(t) ==> argon2_accepts(credentials.password@, user.password@) && is_session_token(t@),
        !argon2_accepts(credentials.password@, user.password@) ==> r == Err::<String, ApiError>(
            ApiError::Unauthorized,
        ),
        argon2_accepts(credentials.password@, user.password@) && r is Err ==> r == Err::<String, ApiError>(
            ApiError::Internal,
        ),
{
    if verify_password(credentials.password.as_str(), user.password.as_str()) {
        match generate_session_token() {
            Some(t) => Ok(t),
            None => Err(ApiError::Internal),
        }
    } else {
        Err(ApiError::Unauthorized)
    }
}

/// A session to be stored: a token and the user it stands for.
#[derive(Debug, Clone)]
pub struct NewSession {
    pub token: String,
    pub user_id: i32,
}

/// The first half of a login, once the user has been looked up by the
/// submitted name. An unknown name is `Unauthorized`, as a wrong password
/// is; a store failure, or no token to be drawn, is `Internal`. No session
/// is produced unless the password matches.
pub fn begin_login(found: Result<User, StoreError>, credentials: Credentials) -> (r: Result<
    NewSession,
    ApiError,
>)
    ensures
        found == Err::<User, StoreError>(StoreError::NotFound) ==> r == Err::<NewSession, ApiError>(
            ApiError::Unauthorized,
        ),
        found == Err::<User, StoreError>(StoreError::Unavailable) ==> r == Err::<NewSession, ApiError>(
            ApiError::Internal,
        ),
        found matches Ok(u) ==> {
            &&& r matches Ok(s) ==> (argon2_accepts(credentials.password@, u.password@)
                && s.user_id == u.id && is_session_token(s.token@))
            &&& !argon2_accepts(credentials.password@, u.password@) ==> r == Err::<NewSession, ApiError>(
                ApiError::Unauthorized,
            )
            &&& argon2_accepts(credentials.password@, u.password@) && r is Err ==> r == Err::<
                NewSession,
                ApiError,
            >(ApiError::Internal)
        },
{
    match found {
        Ok(user) => match authorize_user(&user, credentials) {
            Ok(token) => Ok(NewSession { token, user_id: user.id }),
            Err(e) => Err(e),
        },
        Err(StoreError::NotFound) => Err(ApiError::Unauthorized),
        Err(StoreError::Unavailable) => Err(ApiError::Internal),
    }
}

/// The second half of a login, once the session has been written: the
/// token goes to the client, or a storage failure is `Internal`, never
/// `Unauthorized`.
pub fn finish_login(stored: Result<(), StoreError>, session: NewSession) -> (r: Result<String, ApiError>)
    ensures
        stored is Ok ==> (r matches Ok(t) && t@ == session.token@),
        stored is Err ==> r == Err::<String, ApiError>(ApiError::Internal),
{
    match stored {
        Ok(()) => Ok(session.token),
        Err(_) => Err(ApiError::Internal),
    }
}

} // verus!
