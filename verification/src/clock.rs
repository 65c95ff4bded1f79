//! Timestamps for news records, formatted by `chrono`.

use vstd::prelude::*;

verus! {

/// The RFC 3339 text, in UTC, of the instant `seconds` after the Unix epoch;
/// `None` for an instant outside the range of dates that `chrono` represents.
pub uninterp spec fn utc_rfc3339(seconds: int) -> Option<Seq<char>>;

/// Whether `text` holds decimal digits from `from` up to `to`.
pub open spec fn digits_in(text: Seq<char>, from: int, to: int) -> bool {
    forall|i: int| from <= i < to ==> '0' <= #[trigger] text[i] <= '9'
}

/// Whether `text` is an RFC 3339 date and time in UTC whose year takes up
/// `year` characters and whose seconds have `fraction` decimal places:
/// `YYYY-MM-DDTHH:MM:SS`, the fraction behind a point where there is one, and
/// the offset `+00:00`. A year beyond 9999 is written with a plus sign
/// before its digits.
pub open spec fn stamp_shape(text: Seq<char>, year: int, fraction: int) -> bool {
    let seconds_end = year + 15;
    let offset = if fraction == 0 {
        seconds_end
    } else {
        seconds_end + 1 + fraction
    };
    &&& (year == 4 && digits_in(text, 0, 4)) || (year >= 6 && text[0] == '+' && digits_in(text, 1, year))
    &&& fraction == 0 || fraction == 3 || fraction == 6 || fraction == 9
    &&& text.len() == offset + 6
    &&& text[year] == '-' && digits_in(text, year + 1, year + 3)
    &&& text[year + 3] == '-' && digits_in(text, year + 4, year + 6)
    &&& text[year + 6] == 'T' && digits_in(text, year + 7, year + 9)
    &&& text[year + 9] == ':' && digits_in(text, year + 10, year + 12)
    &&& text[year + 12] == ':' && digits_in(text, year + 13, year + 15)
    &&& fraction > 0 ==> text[seconds_end] == '.' && digits_in(text, seconds_end + 1, offset)
    &&& text.subrange(offset, offset + 6) == seq!['+', '0', '0', ':', '0', '0']
}

/// Whether `text` is an RFC 3339 date and time in UTC, of a year from 1970 on.
pub open spec fn is_utc_stamp(text: Seq<char>) -> bool {
    exists|year: int, fraction: int| stamp_shape(text, year, fraction)
}

/// A time stamp has at least 25 characters, begins with a digit or a plus
/// sign and ends in the offset of UTC.
pub proof fn lemma_stamp_is_a_date(text: Seq<char>)
    requires
        is_utc_stamp(text),
    ensures
        text.len() >= 25,
        text[0] == '+' || ('0' <= text[0] <= '9'),
        text.subrange(text.len() - 6, text.len() as int) == seq!['+', '0', '0', ':', '0', '0'],
{
    let (year, fraction) = choose|year: int, fraction: int| stamp_shape(text, year, fraction);
    assert(stamp_shape(text, year, fraction));
}

/// Calls `chrono`'s `TimeZone::timestamp_opt` on `Utc` with no nanoseconds,
/// takes the single result and formats it with `DateTime::to_rfc3339`. Both
/// read nothing but the number, so the text is a function of it; an instant
/// out of range gives `None`.
#[verifier::external_body]
pub(crate) fn rfc3339_from_timestamp(seconds: i64) -> (text: Option<String>)
    ensures
        match text {
            Some(s) => utc_rfc3339(seconds as int) == Some(s@),
            None => utc_rfc3339(seconds as int) is None,
        },
{
    match chrono::TimeZone::timestamp_opt(&chrono::Utc, seconds, 0).single() {
        Some(instant) => Some(instant.to_rfc3339()),
        None => None,
    }
}

/// Reads the clock with `chrono::Utc::now` and formats the instant with
/// `DateTime::to_rfc3339`. Which instant comes back depends on when the call
/// is made; whichever it is, `chrono` writes it as year, month, day, `T`,
/// hour, minute, second, a fraction of 3, 6 or 9 places where the instant
/// has one, and the offset `+00:00`. `chrono` expects a clock that is not
/// set before 1970.
#[verifier::external_body]
pub(crate) fn rfc3339_now() -> (text: String)
    ensures
        is_utc_stamp(text@),
{
    chrono::Utc::now().to_rfc3339()
}

} // verus!
