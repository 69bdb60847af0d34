//! The token lifecycle: issue, lookup, revoke.
//!
//! Each operation translates a domain request into store reads and writes
//! with time-to-live semantics. Operations that depend on the clock take the
//! current time as an argument. Also here: the helpers that interpret raw
//! backend replies, for a boundary that talks to a networked backend rather
//! than the in-memory store.

use vstd::prelude::*;

use crate::error::MainError;
use crate::store::{live, RecordView, Store};
use crate::token::{generate, valid_token, TokenData, TokenPayload};

verus! {

/// The token value actually issued for a request: the client-supplied one
/// when present, otherwise a fresh generated token.
pub fn resolve_value(value: Option<String>) -> (r: String)
    ensures
        value matches Some(v) ==> r@ == v@,
        value is None ==> valid_token(r@),
{
    match value {
        Option::Some(v) => v,
        Option::None => generate(),
    }
}

/// Relative time-to-live, in seconds, for a token that should stop being
/// retrievable at absolute time `expires`, as seen from time `now`. An
/// `expires` at or before `now` yields zero: immediate expiry.
pub fn relative_ttl(expires: u64, now: u64) -> (r: u64)
    ensures
        expires >= now ==> r == expires - now,
        expires < now ==> r == 0,
{
    if expires >= now {
        expires - now
    } else {
        0
    }
}

/// Issues a token: writes the record under its value, overwriting any prior
/// record under the same key, and echoes back what was issued. A payload
/// without a value gets a generated one.
pub fn issue(store: &mut Store, payload: TokenPayload) -> (r: TokenData)
    requires
        old(store).wf(),
    ensures
        final(store).wf(),
        r.user@ == payload.user@,
        r.expires == payload.expires,
        payload.value matches Some(v) ==> r.value@ == v@,
        payload.value is None ==> valid_token(r.value@),
        final(store)@ == old(store)@.insert(
            r.value@,
            (RecordView { user: payload.user@, deadline: payload.expires }),
        ),
{
    let TokenPayload { value, user, expires } = payload;
    let value = resolve_value(value);
    store.set(&value, user.clone(), expires);
    TokenData { value, user, expires }
}

/// Looks a token up: returns its record exactly when the value is live at
/// `now`, with the expiry reconstructed from the remaining time-to-live,
/// and Not-found otherwise.
pub fn lookup(store: &Store, value: &String, now: u64) -> (r: Result<TokenData, MainError>)
    requires
        store.wf(),
    ensures
        match r {
            Ok(d) => live(store@, value@, now) && d.value@ == value@ && d.user@
                == store@[value@].user && d.expires == store@[value@].deadline,
            Err(e) => !live(store@, value@, now) && e matches MainError::NotFound(_),
        },
{
    match store.get(value, now) {
        Option::Some(user) => {
            let expires = match store.ttl(value, now) {
                Option::Some(t) => Option::Some(now + t),
                Option::None => Option::None,
            };
            Ok(TokenData { value: value.clone(), user, expires })
        },
        Option::None => Err(MainError::NotFound(not_found_description(value))),
    }
}

/// Revokes a token: deletes its key. Succeeds unconditionally, whether or
/// not the value was ever issued.
pub fn revoke(store: &mut Store, value: &String) -> (r: Result<(), MainError>)
    requires
        old(store).wf(),
    ensures
        final(store).wf(),
        final(store)@ == old(store)@.remove(value@),
        r is Ok,
{
    store.del(value);
    Ok(())
}

/// The description reported when a token value is absent.
fn not_found_description(value: &String) -> (r: String)
    ensures
        r@ == "Token "@ + value@ + " not found"@,
{
    String::from_str("Token ").concat(value.as_str()).concat(" not found")
}

/// What the reported expiry is, given the backend's remaining time-to-live
/// reply and the current time: a non-negative remaining time yields
/// `now + remaining`, anything else yields no expiry.
pub open spec fn expires_of(ttl: Option<i64>, now: u64) -> Option<u64> {
    if ttl is Some && ttl->0 >= 0 {
        Some((ttl->0 + now) as u64)
    } else {
        None
    }
}

/// Reconstructs the absolute expiry from a backend time-to-live reply: a
/// missing or negative remaining time means no expiry is reported.
pub fn expires_from_ttl(ttl: Option<i64>, now: u64) -> (r: Option<u64>)
    requires
        ttl is Some && ttl->0 >= 0 ==> ttl->0 + now <= u64::MAX,
    ensures
        r == expires_of(ttl, now),
{
    match ttl {
        Option::Some(t) => if t >= 0 {
            Option::Some(t as u64 + now)
        } else {
            Option::None
        },
        Option::None => Option::None,
    }
}

/// Assembles a lookup result from the backend's raw replies: the owner
/// stored under `value` (absent means Not-found) and the remaining
/// time-to-live for the reported expiry.
pub fn token_from_replies(
    value: &String,
    user: Option<String>,
    ttl: Option<i64>,
    now: u64,
) -> (r: Result<TokenData, MainError>)
    requires
        ttl is Some && ttl->0 >= 0 ==> ttl->0 + now <= u64::MAX,
    ensures
        match r {
            Ok(d) => user is Some && d.value@ == value@ && d.user@ == (user->0)@ && d.expires
                == expires_of(ttl, now),
            Err(e) => user is None && e matches MainError::NotFound(_),
        },
{
    match user {
        Option::Some(u) => {
            let expires = expires_from_ttl(ttl, now);
            Ok(TokenData { value: value.clone(), user: u, expires })
        },
        Option::None => Err(MainError::NotFound(not_found_description(value))),
    }
}

} // verus!
