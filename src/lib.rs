//! Authentication and authorization core of the cr8s backend: password
//! hashing and checking, session tokens, bearer-header parsing, the
//! per-request identity guard and the editor capability policy.

pub mod error;
pub mod guard;
pub mod header;
pub mod login;
pub mod model;
pub mod password;
pub mod roles;
pub mod session;
pub mod text;
pub mod token;
