//! The calls that the library makes into other crates.
//!
//! Each function here is believed, not proved: Verus takes its contract as
//! given and does not read its body.

use vstd::prelude::*;

verus! {

/// Whether a 128-bit identifier has the version and variant bits of a random
/// (version 4) UUID.
pub open spec fn is_random_uuid(id: u128) -> bool {
    &&& (id as int / 0x1000_0000_0000_0000_0000int) % 16 == 4
    &&& (id as int / 0x4000_0000_0000_0000int) % 4 == 2
}

/// A new random identifier, from `uuid::Uuid::new_v4` and `Uuid::as_u128`.
///
/// Believed, not proved: the result carries the version and variant bits that
/// `new_v4` sets on every identifier it makes.  Nothing is claimed of the other
/// bits, which are random.  `new_v4` panics if the operating system cannot
/// supply random bytes.
#[verifier::external_body]
pub(crate) fn fresh_id() -> (id: u128)
    ensures
        is_random_uuid(id),
{
    uuid::Uuid::new_v4().as_u128()
}

/// The time now, in milliseconds since the Unix epoch, from
/// `chrono::Utc::now` and `DateTime::timestamp_millis`.
///
/// Nothing is claimed of the result.  `Utc::now` panics if the system clock
/// stands before the Unix epoch.
#[verifier::external_body]
pub(crate) fn now_millis() -> (t: i64) {
    chrono::Utc::now().timestamp_millis()
}

/// The text of a time, given in milliseconds since the Unix epoch, as
/// `chrono` writes it in the form `%Y-%m-%d %H:%M:%S UTC`; `None` where
/// `chrono` cannot hold the time.
pub uninterp spec fn utc_text(millis: i64) -> Option<Seq<char>>;

/// The text of a time, from `chrono::DateTime::from_timestamp_millis`,
/// `DateTime::format` with `%Y-%m-%d %H:%M:%S UTC`, and
/// `DelayedFormat::write_to`.
///
/// Believed, not proved: the result depends on the time alone, and is named
/// `utc_text`.  It is `None` where `from_timestamp_millis` gives no time or
/// `write_to` fails.
#[verifier::external_body]
pub(crate) fn format_utc(millis: i64) -> (r: Option<String>)
    ensures
        match r {
            Some(text) => utc_text(millis) == Some(text@),
            None => utc_text(millis) is None,
        },
{
    let time = chrono::DateTime::from_timestamp_millis(millis)?;
    let mut text = String::new();
    match time.format("%Y-%m-%d %H:%M:%S UTC").write_to(&mut text) {
        Ok(()) => Some(text),
        Err(_) => None,
    }
}

} // verus!
