//! Clocks, random identifiers and hashing, taken from `std`, `uuid` and
//! `sha2`.

use vstd::prelude::*;
use std::time::Instant;
use sha2::Digest;

verus! {

/// `std::time::Instant`, carried through opaquely.
#[verifier::external_type_specification]
#[verifier::external_body]
pub struct ExInstant(Instant);

/// `Instant::now`: the current reading of the monotonic clock. Nothing is
/// stated of it: it depends on when the call is made.
#[verifier::external_body]
pub(crate) fn instant_now() -> (t: Instant) {
    Instant::now()
}

/// `Instant::duration_since` in whole milliseconds (zero when `earlier` is
/// the later of the two, as std saturates). Nothing is stated of the value:
/// the readings are opaque.
#[verifier::external_body]
pub(crate) fn millis_between(later: &Instant, earlier: &Instant) -> (ms: u64) {
    later.duration_since(*earlier).as_millis() as u64
}

/// `SystemTime::now` in milliseconds since the Unix epoch (zero before the
/// epoch). Nothing is stated of it: it depends on when the call is made.
#[verifier::external_body]
pub(crate) fn unix_time_ms() -> (ms: u64) {
    std::time::SystemTime::now()
        .duration_since(std::time::UNIX_EPOCH)
        .map(|d| d.as_millis() as u64)
        .unwrap_or(0)
}

/// A lower-case hexadecimal digit.
pub open spec fn is_lower_hex(c: char) -> bool {
    ('0' <= c && c <= '9') || ('a' <= c && c <= 'f')
}

/// The shape of a hyphenated UUID: 36 characters, hyphens at positions 8,
/// 13, 18 and 23, lower-case hex digits elsewhere.
pub open spec fn is_hyphenated_uuid(s: Seq<char>) -> bool {
    &&& s.len() == 36
    &&& forall|i: int| 0 <= i < 36 ==> if i == 8 || i == 13 || i == 18 || i == 23 {
        #[trigger] s[i] == '-'
    } else {
        is_lower_hex(s[i])
    }
}

/// `uuid::Uuid::new_v4().to_string()`: a random version-4 UUID in its
/// hyphenated lower-case form (`Display` writes `LowerHex`). Only its shape is
/// stated; the value is random. The crate panics if the system offers no
/// randomness, which is not stated.
#[verifier::external_body]
pub(crate) fn new_uuid_v4() -> (s: String)
    ensures
        is_hyphenated_uuid(s@),
{
    uuid::Uuid::new_v4().to_string()
}

/// What SHA-256 returns for a byte sequence.
pub uninterp spec fn sha256_spec(data: Seq<u8>) -> Seq<u8>;

/// `sha2::Sha256::digest`: the 32-byte SHA-256 digest of `data`, stated
/// through the name `sha256_spec`, a function of the bytes alone.
#[verifier::external_body]
pub(crate) fn sha256(data: &[u8]) -> (h: [u8; 32])
    ensures
        h@ == sha256_spec(data@),
{
    let out = sha2::Sha256::digest(data);
    let mut h = [0u8; 32];
    h.copy_from_slice(&out);
    h
}

/// `chrono::Utc::now`, as milliseconds since the Unix epoch. Nothing is
/// stated of it: it depends on when the call is made.
#[verifier::external_body]
pub(crate) fn utc_now_ms() -> (ms: i64) {
    chrono::Utc::now().timestamp_millis()
}

/// What chrono writes for the UTC instant `ms` milliseconds after the Unix
/// epoch in the report format `%Y-%m-%d %H:%M:%S UTC`.
pub uninterp spec fn utc_text(ms: i64) -> Seq<char>;

/// `chrono::DateTime::<Utc>::from_timestamp_millis(ms)` formatted with
/// `DateTime::format("%Y-%m-%d %H:%M:%S UTC")`, a format whose specifiers
/// chrono all knows; stated through the name `utc_text`, a function of `ms`
/// alone. An instant outside chrono's range (some 262,000 years from the
/// epoch) is written as the epoch itself; that case is not stated apart.
#[verifier::external_body]
pub(crate) fn format_utc(ms: i64) -> (s: String)
    ensures
        s@ == utc_text(ms),
{
    chrono::DateTime::from_timestamp_millis(ms).unwrap_or_default().format("%Y-%m-%d %H:%M:%S UTC").to_string()
}

/// What `Debug` of `std::time::Duration` writes for a duration of `ms`
/// whole milliseconds.
pub uninterp spec fn duration_debug_text(ms: u64) -> Seq<char>;

/// `Debug` of `std::time::Duration::from_millis(ms)`, as `{:?}` writes a
/// duration (`5ms`, `1.5s`), stated through the name
/// `duration_debug_text`, a function of `ms` alone.
#[verifier::external_body]
pub(crate) fn duration_text(ms: u64) -> (s: String)
    ensures
        s@ == duration_debug_text(ms),
{
    format!("{:?}", std::time::Duration::from_millis(ms))
}

} // verus!
