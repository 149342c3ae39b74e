use vstd::prelude::*;

use rand::distributions::Alphanumeric;
use rand::rngs::{OsRng, StdRng};
use rand::{Rng, SeedableRng};

verus! {

/// Number of characters in a session token.
pub const SESSION_TOKEN_LEN: usize = 128;

pub open spec fn is_ascii_alphanumeric(c: char) -> bool {
    let u = c as u32;
    (0x30 <= u && u <= 0x39) || (0x41 <= u && u <= 0x5a) || (0x61 <= u && u <= 0x7a)
}

/// A well-formed session token: 128 ASCII letters and digits.
pub open spec fn is_session_token(s: Seq<char>) -> bool {
    &&& s.len() == SESSION_TOKEN_LEN
    &&& forall|i: int| 0 <= i < s.len() ==> is_ascii_alphanumeric(#[trigger] s[i])
}

#[verifier::external_type_specification]
#[verifier::external_body]
pub struct ExStdRng(StdRng);

/// Relies on `SeedableRng::from_rng` of rand's `StdRng` (ChaCha12, a
/// cryptographically secure generator) seeded from `OsRng`: `None` when the
/// operating system's random source fails.
#[verifier::external_body]
fn seeded_generator() -> Option<StdRng> {
    StdRng::from_rng(OsRng).ok()
}

/// Relies on rand's `Alphanumeric` distribution: one of `A-Z`, `a-z`, `0-9`.
#[verifier::external_body]
fn sample_alphanumeric(rng: &mut StdRng) -> (c: char)
    ensures
        is_ascii_alphanumeric(c),
{
    char::from(rng.sample(Alphanumeric))
}

/// Relies on `String::push`: appends one character.
#[verifier::external_body]
fn push_char(s: &mut String, c: char)
    ensures
        final(s)@ == old(s)@.push(c),
{
    s.push(c)
}

/// Draws a fresh opaque session token from a newly seeded generator;
/// `None` when no seed could be had.
pub fn generate_session_token() -> (r: Option<String>)
    ensures
        r matches Some(t) ==> is_session_token(t@),
{
    match seeded_generator() {
        Some(mut rng) => Some(session_token_from(&mut rng)),
        None => None,
    }
}

/// Draws a session token from `rng`.
pub fn session_token_from(rng: &mut StdRng) -> (r: String)
    ensures
        is_session_token(r@),
{
    let mut token = String::new();
    let mut i: usize = 0;
    while i < SESSION_TOKEN_LEN
        invariant
            i <= SESSION_TOKEN_LEN,
            token@.len() == i,
            forall|k: int| 0 <= k < token@.len() ==> is_ascii_alphanumeric(#[trigger] token@[k]),
        decreases SESSION_TOKEN_LEN - i,
    {
        let c = sample_alphanumeric(rng);
        push_char(&mut token, c);
        i = i + 1;
    }
    token
}

/// The cache key under which the session `token` is stored.
pub open spec fn session_key_of(token: Seq<char>) -> Seq<char> {
    "sessions/"@ + token
}

pub fn session_key(token: &str) -> (r: String)
    ensures
        r@ == session_key_of(token@),
{
    let mut key = String::from_str("sessions/");
    key.append(token);
    key
}

} // verus!
