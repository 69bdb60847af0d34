//! Token payloads, issued records, and the opaque token generator.

use vstd::prelude::*;

verus! {

/// Number of characters in a generator-assigned token value.
pub const TOKEN_LEN: usize = 24;

/// A character of the token alphabet: ASCII letters and digits.
pub open spec fn is_token_char(c: char) -> bool {
    ('a' <= c && c <= 'z') || ('A' <= c && c <= 'Z') || ('0' <= c && c <= '9')
}

/// A well-formed generator-assigned token value: fixed length, drawn from
/// the token alphabet.
pub open spec fn valid_token(s: Seq<char>) -> bool {
    &&& s.len() == TOKEN_LEN
    &&& forall|i: int| 0 <= i < s.len() ==> is_token_char(s[i])
}

/// A request to issue a token: the token value may be client-supplied or
/// left to the generator, the owner is mandatory, and the absolute expiry
/// time (Unix seconds) is optional.
#[derive(Clone, Debug)]
pub struct TokenPayload {
    pub value: Option<String>,
    pub user: String,
    pub expires: Option<u64>,
}

/// An issued or retrieved token record: the token value, its owner, and the
/// absolute expiry time (Unix seconds), if any.
#[derive(Clone, Debug)]
pub struct TokenData {
    pub value: String,
    pub user: String,
    pub expires: Option<u64>,
}

/// Produces a fresh opaque token value: `TOKEN_LEN` characters drawn from
/// the alphanumeric alphabet by a non-deterministic source of randomness.
/// No uniqueness is promised; the collision probability over a 62^24 space
/// is assumed negligible.
///
/// Relies on rand's `Alphanumeric` distribution together with
/// `SampleString::sample_string`: each sampled byte is one of the 62 ASCII
/// alphanumeric characters, and `sample_string(rng, n)` returns a string of
/// exactly `n` such characters.
#[verifier::external_body]
pub fn generate() -> (r: String)
    ensures
        valid_token(r@),
{
    rand::distr::SampleString::sample_string(&rand::distr::Alphanumeric, &mut rand::rng(), TOKEN_LEN)
}

} // verus!
