//! The publication date of an entry, rewritten for presentation.

use vstd::prelude::*;
use crate::item::{clone_text, text_view};

verus! {

/// The instant that `text` denotes as an RFC 2822 date: the seconds since
/// the start of 1970 in UTC, and the nanoseconds within the second, which
/// pass 999 999 999 in a leap second. `None` where `text` is no such date.
pub uninterp spec fn rfc2822_instant(text: Seq<char>) -> Option<(i64, u32)>;

/// Whether seconds and nanoseconds are an instant that the calendar can
/// hold.
pub uninterp spec fn is_instant(secs: i64, nanos: u32) -> bool;

/// The text `YYYY-MM-DD HH:MM:SS` of an instant, read on a clock that is
/// `offset` seconds ahead of UTC.
pub uninterp spec fn timestamp_text(secs: i64, nanos: u32, offset: i32) -> Seq<char>;

/// The layout of a presented date: `YYYY-MM-DD HH:MM:SS`.
pub const TIMESTAMP_LAYOUT: &'static str = "%Y-%m-%d %H:%M:%S";

/// An offset from UTC, in seconds: less than a day either way.
pub open spec fn is_offset(offset: int) -> bool {
    -86_400 < offset < 86_400
}

/// A decimal digit.
pub open spec fn is_digit(c: char) -> bool {
    '0' <= c && c <= '9'
}

/// A year as it is written in a presented date: four digits, or, for a
/// year before 0 or after 9999, a sign and at least four digits.
pub open spec fn is_year_text(y: Seq<char>) -> bool {
    ||| y.len() == 4 && forall|i: int| 0 <= i < 4 ==> is_digit(#[trigger] y[i])
    ||| y.len() >= 5 && (y[0] == '+' || y[0] == '-') && forall|i: int|
        1 <= i < y.len() ==> is_digit(#[trigger] y[i])
}

/// What follows the year in a presented date: `-MM-DD HH:MM:SS`.
pub open spec fn is_day_and_time_text(t: Seq<char>) -> bool {
    &&& t.len() == 15
    &&& t[0] == '-' && is_digit(t[1]) && is_digit(t[2])
    &&& t[3] == '-' && is_digit(t[4]) && is_digit(t[5])
    &&& t[6] == ' ' && is_digit(t[7]) && is_digit(t[8])
    &&& t[9] == ':' && is_digit(t[10]) && is_digit(t[11])
    &&& t[12] == ':' && is_digit(t[13]) && is_digit(t[14])
}

/// A presented date: `YYYY-MM-DD HH:MM:SS`.
pub open spec fn is_timestamp_text(t: Seq<char>) -> bool {
    &&& t.len() >= 19
    &&& is_year_text(t.subrange(0, t.len() - 15))
    &&& is_day_and_time_text(t.subrange(t.len() - 15, t.len() as int))
}

/// Parses `text` with `chrono::DateTime::parse_from_rfc2822` and hands out
/// what `timestamp` and `timestamp_subsec_nanos` give for the outcome. The
/// contract names the outcome, `rfc2822_instant`, and states two things of
/// it: an instant that was parsed is one that `DateTime::from_timestamp`
/// takes back, and a text that begins with a sign or with three digits, as
/// every presented date does, is no RFC 2822 date, which asks for white
/// space after a day of one or two digits.
#[verifier::external_body]
fn parse_rfc2822(text: &str) -> (r: Option<(i64, u32)>)
    ensures
        r == rfc2822_instant(text@),
        r matches Some(instant) ==> is_instant(instant.0, instant.1),
        is_timestamp_text(text@) ==> r is None,
{
    chrono::DateTime::parse_from_rfc2822(text).ok().map(
        |moment| (moment.timestamp(), moment.timestamp_subsec_nanos()),
    )
}

/// How far this machine's clock is ahead of UTC at an instant, in seconds:
/// `chrono::TimeZone::offset_from_utc_datetime` on `chrono::Local`, for the
/// instant that `chrono::DateTime::from_timestamp` makes. The offset
/// depends on the machine, so the contract states only its range, that of
/// every `chrono::FixedOffset`; there is none where the instant is none.
#[verifier::external_body]
fn local_offset(secs: i64, nanos: u32) -> (r: Option<i32>)
    ensures
        r is Some <==> is_instant(secs, nanos),
        r matches Some(offset) ==> is_offset(offset as int),
{
    chrono::DateTime::from_timestamp(secs, nanos).map(
        |moment|
            chrono::TimeZone::offset_from_utc_datetime(
                &chrono::Local,
                &moment.naive_utc(),
            ).local_minus_utc(),
    )
}

/// Writes an instant as it reads `offset` seconds ahead of UTC:
/// `chrono::DateTime::from_timestamp`, moved with `with_timezone` to
/// `chrono::FixedOffset::east_opt(offset)` and written with `format` in the
/// given layout. The contract names the text, `timestamp_text`, says that
/// there is one exactly for an instant and an offset of less than a day,
/// and states the form that the layout gives to every instant: a year of
/// four digits (a sign and four or more digits outside 0 to 9999), then
/// month, day, hour, minute and second of two digits each.
#[verifier::external_body]
fn format_at(secs: i64, nanos: u32, offset: i32, layout: &str) -> (r: Option<String>)
    requires
        layout@ == TIMESTAMP_LAYOUT@,
    ensures
        r is Some <==> (is_instant(secs, nanos) && is_offset(offset as int)),
        r matches Some(text) ==> text@ == timestamp_text(secs, nanos, offset),
        r matches Some(text) ==> is_timestamp_text(text@),
{
    chrono::FixedOffset::east_opt(offset).zip(chrono::DateTime::from_timestamp(secs, nanos)).map(
        |pair| pair.1.with_timezone(&pair.0).format(layout).to_string(),
    )
}

/// Whether `shown` is the presentation of the publication date `given` on a
/// clock that is `offset` seconds ahead of UTC: an absent date stays
/// absent, a text that is no RFC 2822 date stays as it is, and an RFC 2822
/// date becomes the text `YYYY-MM-DD HH:MM:SS` of its instant on that
/// clock. A text of that form is never itself an RFC 2822 date.
pub open spec fn presents_date_at(
    given: Option<Seq<char>>,
    shown: Option<Seq<char>>,
    offset: i32,
) -> bool {
    match given {
        None => shown is None,
        Some(text) => match rfc2822_instant(text) {
            None => shown == Some(text),
            Some(instant) => {
                &&& !is_timestamp_text(text)
                &&& shown == Some(timestamp_text(instant.0, instant.1, offset))
                &&& is_timestamp_text(timestamp_text(instant.0, instant.1, offset))
            },
        },
    }
}

/// Whether `shown` is the presentation of the publication date `given` on
/// some clock that is less than a day off UTC.
pub open spec fn presents_date(given: Option<Seq<char>>, shown: Option<Seq<char>>) -> bool {
    exists|offset: i32| is_offset(offset as int) && #[trigger] presents_date_at(given, shown, offset)
}

/// The text `YYYY-MM-DD HH:MM:SS` of an instant on a clock that is `offset`
/// seconds ahead of UTC; none where the calendar cannot hold the instant or
/// the offset is a day or more.
pub fn present_at(secs: i64, nanos: u32, offset: i32) -> (text: Option<String>)
    ensures
        text is Some <==> is_instant(secs, nanos) && is_offset(offset as int),
        text matches Some(t) ==> t@ == timestamp_text(secs, nanos, offset) && is_timestamp_text(
            t@,
        ),
{
    format_at(secs, nanos, offset, TIMESTAMP_LAYOUT)
}

/// The publication date for presentation: an RFC 2822 date is rewritten as
/// `YYYY-MM-DD HH:MM:SS` in the local time of its instant; any other text,
/// and an absent date, pass through unchanged.
pub fn convert_pub_date(old: &Option<String>) -> (shown: Option<String>)
    ensures
        presents_date(text_view(*old), text_view(shown)),
{
    match old {
        Some(date_str) => match parse_rfc2822(date_str.as_str()) {
            Some(instant) => {
                let offset = local_offset(instant.0, instant.1).unwrap();
                let shown = present_at(instant.0, instant.1, offset);
                assert(presents_date_at(text_view(*old), text_view(shown), offset));
                shown
            },
            None => {
                let shown = clone_text(old);
                assert(presents_date_at(text_view(*old), text_view(shown), 0i32));
                shown
            },
        },
        None => {
            assert(presents_date_at(text_view(*old), None, 0i32));
            None
        },
    }
}

/// Presenting a presented date again changes nothing.
pub proof fn lemma_presented_date_is_kept(
    given: Option<Seq<char>>,
    shown: Option<Seq<char>>,
    again: Option<Seq<char>>,
)
    requires
        presents_date(given, shown),
        presents_date(shown, again),
    ensures
        again == shown,
{
}

/// Two writings of one instant are shown alike on one clock, whatever
/// offsets the writings gave.
pub proof fn lemma_same_instant_same_text(
    first: Seq<char>,
    second: Seq<char>,
    offset: i32,
    first_shown: Option<Seq<char>>,
    second_shown: Option<Seq<char>>,
)
    requires
        rfc2822_instant(first) is Some,
        rfc2822_instant(first) == rfc2822_instant(second),
        presents_date_at(Some(first), first_shown, offset),
        presents_date_at(Some(second), second_shown, offset),
    ensures
        first_shown == second_shown,
{
}

} // verus!
