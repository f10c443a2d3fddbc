//! The engine's two host inputs that come from outside crates: fresh
//! workload identifiers and the current time. Everything downstream of
//! these values is verified for every value they could take.

use vstd::prelude::*;
use crate::strutil::is_dec_digit;

verus! {

/// A lowercase hexadecimal digit.
pub open spec fn is_lower_hex(c: char) -> bool {
    is_dec_digit(c) || c == 'a' || c == 'b' || c == 'c' || c == 'd' || c == 'e' || c == 'f'
}

/// The hyphenated textual form of a version-4 universally unique
/// identifier: 36 characters, hyphens at the four fixed positions, the
/// version nibble `4`, a variant nibble in `8`..`b`, lowercase hex
/// elsewhere.
pub open spec fn spec_uuid_v4(s: Seq<char>) -> bool {
    &&& s.len() == 36
    &&& s[8] == '-'
    &&& s[13] == '-'
    &&& s[18] == '-'
    &&& s[23] == '-'
    &&& s[14] == '4'
    &&& (s[19] == '8' || s[19] == '9' || s[19] == 'a' || s[19] == 'b')
    &&& forall|k: int|
        0 <= k < 36 && k != 8 && k != 13 && k != 18 && k != 23 ==> is_lower_hex(#[trigger] s[k])
}

/// Relies on `uuid::Uuid::new_v4` and its `Display` form: a fresh random
/// identifier rendered as 36 lowercase hyphenated hex characters with the
/// version nibble `4` and an RFC 4122 variant nibble. Nothing is promised
/// about which identifier comes back: two calls may return anything.
#[verifier::external_body]
fn new_workload_id() -> (r: String)
    ensures
        spec_uuid_v4(r@),
{
    uuid::Uuid::new_v4().to_string()
}

/// A fresh identifier for a workload about to be provisioned: always in
/// the hyphenated version-4 form. Which identifier comes back is up to the
/// random generator; uniqueness against the registry is enforced where the
/// record is inserted.
pub fn fresh_workload_id() -> (r: String)
    ensures
        spec_uuid_v4(r@),
{
    new_workload_id()
}

/// Relies on `chrono::Utc::now` and `DateTime::timestamp`: the current time
/// as whole seconds since the epoch. Nothing is promised of the value; it
/// depends on the host clock.
#[verifier::external_body]
fn now_unix() -> i64 {
    chrono::Utc::now().timestamp()
}

/// The current time clamped to the epoch, as an unsigned second count.
pub fn now_unix_seconds() -> u64 {
    let t = now_unix();
    if t < 0 {
        0
    } else {
        t as u64
    }
}

} // verus!
