//! The trusted boundary of the library: thin wrappers around the outside
//! collaborators the logic relies on — the clock, uuid generation and
//! parsing, random token generation, and email-address validation. Verus
//! believes the contracts stated here; everything else is proved from them.
use vstd::prelude::*;

use rand::distr::Alphanumeric;
use rand::distr::SampleString;

verus! {

/// A character of the token alphabet: an ASCII letter or digit.
pub open spec fn is_token_char(c: char) -> bool {
    ('a' <= c && c <= 'z') || ('A' <= c && c <= 'Z') || ('0' <= c && c <= '9')
}

/// Relies on time::OffsetDateTime::now_utc, read as whole seconds since the
/// Unix epoch. Nothing is promised of the clock's value.
#[verifier::external_body]
pub fn now_unix_seconds() -> i64 {
    time::OffsetDateTime::now_utc().unix_timestamp()
}

/// Relies on uuid::Uuid::new_v4: a random identifier. Nothing is promised of
/// the value.
#[verifier::external_body]
pub fn fresh_uuid() -> u128 {
    uuid::Uuid::new_v4().as_u128()
}

/// What uuid parsing returns on a given string: a function of the characters
/// alone.
pub uninterp spec fn uuid_parse(s: Seq<char>) -> Option<u128>;

/// The canonical hyphenated string of a uuid value.
pub uninterp spec fn uuid_str(u: u128) -> Seq<char>;

/// Relies on uuid::Uuid::try_parse: a deterministic parse of the string,
/// read back as the uuid's 128-bit value.
#[verifier::external_body]
pub fn parse_session_uuid(s: &str) -> (r: Option<u128>)
    ensures
        r == uuid_parse(s@),
{
    match uuid::Uuid::try_parse(s) {
        Ok(u) => Some(u.as_u128()),
        Err(_) => None,
    }
}

/// Relies on uuid's hyphenated formatter: 36 lowercase characters, and the
/// documented round trip — parsing the canonical string of a uuid yields
/// that uuid again.
#[verifier::external_body]
pub fn session_cookie_value(id: u128) -> (r: String)
    ensures
        r@ == uuid_str(id),
        uuid_parse(r@) == Some(id),
        r@.len() == 36,
{
    uuid::Uuid::from_u128(id).hyphenated().to_string()
}

/// Relies on rand's Alphanumeric distribution: every sampled byte is an
/// ASCII letter or digit, and exactly `length` of them are drawn.
#[verifier::external_body]
pub fn generate_verification_token(length: usize) -> (r: String)
    ensures
        r@.len() == length as nat,
        forall|i: int| 0 <= i < r@.len() ==> is_token_char(r@[i]),
{
    Alphanumeric.sample_string(&mut rand::rng(), length)
}

/// What the email well-formedness check returns on a given string: a
/// function of the characters alone.
pub uninterp spec fn email_ok(s: Seq<char>) -> bool;

/// Relies on validator's ValidateEmail for str (the HTML5 email shape):
/// deterministic in the characters of the string.
#[verifier::external_body]
pub fn is_valid_email(s: &str) -> (r: bool)
    ensures
        r == email_ok(s@),
{
    validator::ValidateEmail::validate_email(&s)
}

} // verus!
