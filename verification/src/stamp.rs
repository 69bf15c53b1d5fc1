//! Fresh identities and the current time, from `uuid` and `chrono`.
//!
//! Both differ from call to call, so only the length of what they return
//! is stated.

use vstd::prelude::*;

verus! {

/// The number of characters of an identity: 32 hexadecimal digits in five
/// groups, with four hyphens between them.
pub const IDENTITY_CHARS: usize = 36;

/// The least number of characters of a timestamp: a year of four digits,
/// month, day, hour, minute and second of two each, their five separators
/// and the six characters of the offset.
pub const TIMESTAMP_CHARS: usize = 25;

/// Calls `uuid::Uuid::new_v4` and writes the identity in its hyphenated
/// form, which has 36 characters. The identity is random: no two calls need
/// agree.
#[verifier::external_body]
pub(crate) fn fresh_identity() -> (r: String)
    ensures
        r@.len() == IDENTITY_CHARS,
{
    uuid::Uuid::new_v4().to_string()
}

/// Calls `chrono::Utc::now` and writes the instant with `to_rfc3339`, which
/// writes date, time and offset in full and a fraction of the second where
/// there is one. The instant is the machine's clock at the call.
#[verifier::external_body]
pub(crate) fn current_timestamp() -> (r: String)
    ensures
        r@.len() >= TIMESTAMP_CHARS,
{
    chrono::Utc::now().to_rfc3339()
}

} // verus!
