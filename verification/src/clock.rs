//! Identifiers and the wall clock: the values the marketplace entities take
//! from outside when they are created or change state, and the text form of
//! an identifier.
use vstd::prelude::*;

verus! {

/// A fresh random identifier: `uuid::Uuid::new_v4`, as its 128-bit value
/// (`Uuid::as_u128`). Nothing is promised of the value: it is random.
#[verifier::external_body]
pub(crate) fn new_id() -> u128 {
    uuid::Uuid::new_v4().as_u128()
}

/// The current time in milliseconds since the Unix epoch:
/// `chrono::Utc::now().timestamp_millis()`. Nothing is promised of the value:
/// it is read from the system clock (and `Utc::now` panics if that clock is
/// set before 1970).
#[verifier::external_body]
pub(crate) fn now_millis() -> i64 {
    chrono::Utc::now().timestamp_millis()
}

/// A lowercase hexadecimal digit.
pub open spec fn hex_digit_lower(d: nat) -> char {
    (if d < 10 {
        48 + d
    } else {
        87 + d
    }) as char
}

/// The last `count` hexadecimal digits of `n`, most significant first.
pub open spec fn hex_digits(n: nat, count: nat) -> Seq<char>
    decreases count,
{
    if count == 0 {
        seq![]
    } else {
        hex_digits(n / 16, (count - 1) as nat).push(hex_digit_lower(n % 16))
    }
}

/// An identifier in the hyphenated form of a UUID: its 32 hexadecimal digits
/// in groups of 8, 4, 4, 4 and 12.
pub open spec fn uuid_text_of(id: u128) -> Seq<char> {
    let h = hex_digits(id as nat, 32);
    h.subrange(0, 8) + "-"@ + h.subrange(8, 12) + "-"@ + h.subrange(12, 16) + "-"@ + h.subrange(
        16,
        20,
    ) + "-"@ + h.subrange(20, 32)
}

/// An identifier written as `uuid::Uuid` displays it (`Uuid::from_u128`,
/// then `to_string`): its big-endian bytes as lowercase hexadecimal digits,
/// hyphenated.
#[verifier::external_body]
pub(crate) fn uuid_text(id: u128) -> (r: String)
    ensures
        r@ == uuid_text_of(id),
{
    uuid::Uuid::from_u128(id).to_string()
}

/// What `uuid::Uuid::parse_str` reads from a text, as the 128-bit value
/// (`Uuid::as_u128`); none when the text is no UUID.
pub uninterp spec fn uuid_parse(text: Seq<char>) -> Option<u128>;

/// Reads a UUID from text: `uuid::Uuid::parse_str`, then `as_u128`. The
/// result is named `uuid_parse` of the text; which texts read is not
/// restated.
#[verifier::external_body]
pub(crate) fn parse_uuid(text: &str) -> (r: Option<u128>)
    ensures
        r == uuid_parse(text@),
{
    uuid::Uuid::parse_str(text).ok().map(|u| u.as_u128())
}

/// What `chrono::DateTime::parse_from_rfc3339` reads from a text, written
/// back in UTC by `with_timezone(&Utc)` and `to_rfc3339`; none when the text
/// is no RFC 3339 time.
pub uninterp spec fn rfc3339_utc(text: Seq<char>) -> Option<Seq<char>>;

/// Reads an RFC 3339 time and writes it back in UTC:
/// `DateTime::parse_from_rfc3339`, `with_timezone(&Utc)`, `to_rfc3339`. The
/// result is named `rfc3339_utc` of the text; the formats are not restated.
#[verifier::external_body]
pub(crate) fn utc_rfc3339(text: &str) -> (r: Option<String>)
    ensures
        match r {
            Some(t) => rfc3339_utc(text@) == Some(t@),
            None => rfc3339_utc(text@) is None,
        },
{
    chrono::DateTime::parse_from_rfc3339(text).ok().map(
        |d| d.with_timezone(&chrono::Utc).to_rfc3339(),
    )
}

/// The present time as RFC 3339 text in UTC: `chrono::Utc::now().to_rfc3339()`.
/// Nothing is promised of the value: it is read from the system clock.
#[verifier::external_body]
pub(crate) fn now_rfc3339() -> String {
    chrono::Utc::now().to_rfc3339()
}

} // verus!
