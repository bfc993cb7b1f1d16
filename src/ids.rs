//! Identity generation and the clock.

use vstd::prelude::*;

verus! {

pub open spec fn is_lower_hex_digit(c: char) -> bool {
    ('0' <= c && c <= '9') || ('a' <= c && c <= 'f')
}

/// A fresh identifier: 32 lowercase hex digits (128 bits), the thirteenth of
/// which is the version digit `4`.
pub open spec fn is_fresh_id_text(s: Seq<char>) -> bool {
    &&& s.len() == 32
    &&& forall|i: int| 0 <= i < s.len() ==> is_lower_hex_digit(#[trigger] s[i])
    &&& s[12] == '4'
}

/// Relies on uuid's `Uuid::new_v4`, which draws random bits and sets the
/// version nibble to 4, and on `Uuid::simple`, whose `Display` writes the 16
/// bytes as 32 lowercase hex digits. The value itself is random.
#[verifier::external_body]
pub(crate) fn new_id() -> (r: String)
    ensures
        is_fresh_id_text(r@),
{
    uuid::Uuid::new_v4().simple().to_string()
}

/// Relies on chrono's `Utc::now` and `DateTime::timestamp_millis`: the wall
/// clock as milliseconds since the Unix epoch. Nothing is known of the value;
/// `Utc::now` panics only when the system clock reads earlier than the epoch.
#[verifier::external_body]
pub(crate) fn now_millis() -> (r: i64) {
    chrono::Utc::now().timestamp_millis()
}

} // verus!
