//! Identifiers and timestamps, which come from outside the library.

use vstd::prelude::*;

verus! {

/// A universally unique identifier. The library carries such values and
/// never looks inside.
#[verifier::external_type_specification]
#[verifier::external_body]
pub struct ExUuid(uuid::Uuid);

/// `Clone` for `uuid::Uuid`, which is `Copy`: the clone is the value itself.
pub assume_specification[ <uuid::Uuid as Clone>::clone ](id: &uuid::Uuid) -> (res: uuid::Uuid)
    ensures
        res == *id,
;

/// A point in time on the UTC scale: whole seconds since the start of 1970
/// and the nanoseconds into that second. During a leap second the
/// nanoseconds run past one thousand million.
#[derive(Debug, Clone, Copy, PartialEq, Eq, Structural)]
pub struct Timestamp {
    /// Non-leap seconds since 1970-01-01 00:00:00 UTC
    pub secs: i64,
    /// Nanoseconds since the last whole second
    pub nanos: u32,
}

/// Draws a fresh random identifier with `uuid::Uuid::new_v4`. Nothing is
/// claimed of the value: it is whatever the operating system's random
/// source gave. The outside call panics on a host whose random source
/// gives nothing.
#[verifier::external_body]
pub(crate) fn fresh_uuid() -> (id: uuid::Uuid) {
    uuid::Uuid::new_v4()
}

/// Whether a character is a decimal digit or a letter from `a` to `f`.
pub open spec fn is_lower_hex(c: char) -> bool {
    48 <= c as u32 <= 57 || 97 <= c as u32 <= 102
}

/// Whether a text has the hyphenated form of an identifier: 36 characters,
/// hyphens at the places 8, 13, 18 and 23, and a lower-case hexadecimal
/// digit at every other place.
pub open spec fn is_hyphenated_id(text: Seq<char>) -> bool {
    &&& text.len() == 36
    &&& forall|i: int|
        #![trigger text[i]]
        0 <= i < 36 ==> if i == 8 || i == 13 || i == 18 || i == 23 {
            text[i] == '-'
        } else {
            is_lower_hex(text[i])
        }
}

/// Writes an identifier in its hyphenated form with
/// `uuid::Uuid::hyphenated`, displayed: 32 lower-case hexadecimal digits
/// in groups of 8, 4, 4, 4 and 12 with a hyphen between each two.
#[verifier::external_body]
pub(crate) fn uuid_text(id: &uuid::Uuid) -> (text: String)
    ensures
        is_hyphenated_id(text@),
{
    id.hyphenated().to_string()
}

/// Reads the current time with `chrono::Utc::now` and splits it with
/// `DateTime::timestamp` and `DateTime::timestamp_subsec_nanos`. Nothing is
/// claimed of the value: it is whatever the host clock showed. The outside
/// call panics on a host whose clock stands before 1970.
#[verifier::external_body]
pub(crate) fn utc_now() -> (now: Timestamp) {
    let now = chrono::Utc::now();
    Timestamp { secs: now.timestamp(), nanos: now.timestamp_subsec_nanos() }
}

/// Returns a fresh identity for one sandbox instance: a random identifier
/// in its hyphenated form. Every invocation draws its own.
pub fn fresh_instance_id() -> (token: String)
    ensures
        is_hyphenated_id(token@),
{
    let id = fresh_uuid();
    uuid_text(&id)
}

} // verus!
