//! Clock readings and unique tokens, taken from `chrono`, `time` and `uuid`.
//!
//! Nothing in this module is proved. A clock reading or a fresh token differs
//! from call to call, so the functions that produce one promise nothing of it;
//! the verified code that consumes it holds for every value.

use vstd::prelude::*;

verus! {

/// The hyphenated lower-case hexadecimal text of the UUID whose 128 bits are
/// `token`, most significant byte first.
pub uninterp spec fn token_text(token: u128) -> Seq<char>;

/// The text of the instant `micros` microseconds after the Unix epoch, in
/// UTC, laid out as the `strftime` pattern `format` says. `None` where the
/// instant lies outside the years that `chrono` can hold, or where the pattern
/// is not one that it can follow.
pub uninterp spec fn stamp_text(micros: i64, format: Seq<char>) -> Option<Seq<char>>;

/// `chrono::DateTime::from_timestamp_micros`, then `DateTime::format` with
/// `format`, written out with `DelayedFormat::write_to`.
#[verifier::external_body]
pub(crate) fn render_stamp(micros: i64, format: &str) -> (text: Option<String>)
    ensures
        text.deep_view() == stamp_text(micros, format@),
{
    let at = chrono::DateTime::from_timestamp_micros(micros)?;
    let mut text = String::new();
    at.format(format).write_to(&mut text).ok()?;
    Some(text)
}

/// `chrono::Utc::now`, read as microseconds since the Unix epoch with
/// `DateTime::timestamp_micros`. Nothing is claimed of the value. `Utc::now`
/// itself gives up where the system clock reads a time before 1970.
#[verifier::external_body]
pub(crate) fn now_micros() -> (now: i64) {
    chrono::Utc::now().timestamp_micros()
}

/// `time::OffsetDateTime::now_utc`, read as nanoseconds since the Unix epoch
/// with `OffsetDateTime::unix_timestamp_nanos`. Nothing is claimed of the value.
/// `now_utc` itself gives up where the system clock reads a time outside the
/// years that `time` can hold.
#[verifier::external_body]
pub(crate) fn now_nanos() -> (now: i128) {
    time::OffsetDateTime::now_utc().unix_timestamp_nanos()
}

/// `uuid::Uuid::now_v7`, read as a number with `Uuid::as_u128`. Nothing is
/// claimed of the value: it holds the time and random bits. `now_v7` itself
/// gives up where the system clock reads a time before 1970.
#[verifier::external_body]
pub(crate) fn fresh_token() -> (token: u128) {
    uuid::Uuid::now_v7().as_u128()
}

/// `Display` of `uuid::Uuid`, applied to `Uuid::from_u128(token)`.
#[verifier::external_body]
pub(crate) fn render_token(token: u128) -> (text: String)
    ensures
        text@ == token_text(token),
{
    uuid::Uuid::from_u128(token).to_string()
}

} // verus!
