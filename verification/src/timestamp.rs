//! Timestamps: reading the date and time that a line carries, and writing an
//! instant in the canonical format `YYYY-MM-DD HH:MM:SS.mmm`.
//!
//! The calendar is chrono's. What chrono reads out of a text and what it writes
//! for an instant are named here and not spelled out; everything else is proved
//! in terms of those two names.

use crate::scan::first;
use crate::scan::first_from;
use crate::text::append_chars;
use crate::text::keep_plain;
use crate::text::plain;
use crate::text::string_of;
use crate::text::texts;
use crate::text::Token;
use vstd::prelude::*;

verus! {

/// A point in time without a time zone: whole seconds since the start of
/// 1970-01-01, and nanoseconds into the second (a billion or more within a leap
/// second).
#[derive(Clone, Copy, Debug, PartialEq, Eq, Structural)]
pub struct Instant {
    pub seconds: i64,
    pub nanos: u32,
}

/// The instant that chrono reads out of `text` under the format
/// `%Y-%m-%d %H:%M:%S%.3f`, or `None` where chrono rejects the text.
pub uninterp spec fn parsed_instant(text: Seq<char>) -> Option<Instant>;

/// What chrono writes for the instant of `seconds` and `nanos` under the format
/// `%Y-%m-%d %H:%M:%S%.3f`, or `None` where chrono has no date for it.
pub uninterp spec fn formatted_instant(seconds: int, nanos: int) -> Option<Seq<char>>;

/// Calls `chrono::NaiveDateTime::parse_from_str` on `text` with the canonical
/// format. The contract claims only that the outcome is a function of the text:
/// `None` where chrono returns an error, else the seconds and nanoseconds that
/// chrono reports for the date and time it read.
#[verifier::external_body]
fn parse_instant(text: &str) -> (at: Option<Instant>)
    ensures
        at == parsed_instant(text@),
{
    match chrono::NaiveDateTime::parse_from_str(text, "%Y-%m-%d %H:%M:%S%.3f") {
        Ok(t) => Some(
            Instant {
                seconds: t.and_utc().timestamp(),
                nanos: t.and_utc().timestamp_subsec_nanos(),
            },
        ),
        Err(_) => None,
    }
}

/// Calls `chrono::DateTime::from_timestamp` and, where that gives a date,
/// `chrono::NaiveDateTime::format` with the canonical format. The contract
/// claims only that the outcome is a function of the instant: `None` where
/// chrono has no date for it, else the text that chrono writes.
#[verifier::external_body]
fn format_instant(at: Instant) -> (text: Option<String>)
    ensures
        match text {
            Some(t) => formatted_instant(at.seconds as int, at.nanos as int) == Some(t@),
            None => formatted_instant(at.seconds as int, at.nanos as int) is None,
        },
{
    match chrono::DateTime::from_timestamp(at.seconds, at.nanos) {
        Some(t) => Some(t.naive_utc().format("%Y-%m-%d %H:%M:%S%.3f").to_string()),
        None => None,
    }
}

/// The local date and time of the moment of the call, from `chrono::Local::now`,
/// written in the canonical format. Nothing is claimed of it: it differs from
/// call to call.
#[verifier::external_body]
pub(crate) fn local_now() -> (now: String) {
    chrono::Local::now().format("%Y-%m-%d %H:%M:%S%.3f").to_string()
}

/// The canonical form of the date and time that `text` holds, if it holds one.
pub open spec fn canonical_timestamp(text: Seq<char>) -> Option<Seq<char>> {
    match parsed_instant(text) {
        Some(at) => formatted_instant(at.seconds as int, at.nanos as int),
        None => None,
    }
}

/// The canonical form of the instant that lies `millis` milliseconds after the
/// start of 1970, if the calendar reaches that far.
pub open spec fn epoch_timestamp(millis: int) -> Option<Seq<char>> {
    formatted_instant(millis / 1000, (millis % 1000) * 1_000_000)
}

/// What two neighbouring tokens are read as when they are tried as a timestamp:
/// the date and the time of day, each without non-ASCII characters and square
/// brackets, with one space between them.
pub open spec fn candidate(day: Seq<char>, hour: Seq<char>) -> Seq<char> {
    plain(day) + seq![' '] + plain(hour)
}

/// The canonical timestamp that the tokens at positions `i` and `i + 1` hold
/// together, if they hold one.
pub open spec fn stamp_at(tokens: Seq<Seq<char>>, i: int) -> Option<Seq<char>> {
    canonical_timestamp(candidate(tokens[i], tokens[i + 1]))
}

/// At which positions of `tokens` a timestamp starts.
pub open spec fn stamp_hits(tokens: Seq<Seq<char>>) -> spec_fn(int) -> bool {
    |i: int| stamp_at(tokens, i) is Some
}

/// The position at which the first timestamp among `tokens` starts, if there is one.
pub open spec fn first_stamp(tokens: Seq<Seq<char>>) -> Option<int> {
    first(stamp_hits(tokens), tokens.len() - 1)
}

/// The canonical form of the date and time that `text` holds: `Some` exactly if
/// chrono reads a date and time out of `text` and can write it again.
pub fn read_timestamp(text: &str) -> (stamp: Option<String>)
    ensures
        match stamp {
            Some(s) => canonical_timestamp(text@) == Some(s@),
            None => canonical_timestamp(text@) is None,
        },
{
    match parse_instant(text) {
        Some(at) => format_instant(at),
        None => None,
    }
}

/// The canonical form of the instant that lies `millis` milliseconds after the
/// start of 1970: `Some` exactly if the calendar reaches that far.
pub fn timestamp_of_millis(millis: u64) -> (stamp: Option<String>)
    ensures
        match stamp {
            Some(s) => epoch_timestamp(millis as int) == Some(s@),
            None => epoch_timestamp(millis as int) is None,
        },
{
    let seconds: u64 = millis / 1000;
    let nanos: u64 = (millis % 1000) * 1_000_000;
    format_instant(Instant { seconds: seconds as i64, nanos: nanos as u32 })
}

/// The position at which the first timestamp among `tokens` starts, with the
/// canonical form of that timestamp.
pub fn find_timestamp(tokens: &Vec<Token>) -> (found: Option<(usize, String)>)
    ensures
        match found {
            Some((at, stamp)) => first_stamp(texts(tokens@)) == Some(at as int) && stamp_at(
                texts(tokens@),
                at as int,
            ) == Some(stamp@),
            None => first_stamp(texts(tokens@)) is None,
        },
{
    if tokens.len() < 2 {
        return None;
    }
    let ghost hit = stamp_hits(texts(tokens@));
    let ghost end = tokens.len() - 1;
    let mut i: usize = 0;
    while i < tokens.len() - 1
        invariant
            i <= tokens.len() - 1,
            end == tokens.len() - 1,
            hit == stamp_hits(texts(tokens@)),
            first_from(hit, 0, end) == first_from(hit, i as int, end),
        decreases tokens.len() - i,
    {
        assert(texts(tokens@)[i as int] == tokens@[i as int]@);
        assert(texts(tokens@)[i as int + 1] == tokens@[i as int + 1]@);
        let mut text = keep_plain(&tokens[i]);
        let hour = keep_plain(&tokens[i + 1]);
        text.push(' ');
        append_chars(&mut text, &hour);
        let tried = string_of(&text);
        assert(tried@ =~= candidate(tokens@[i as int]@, tokens@[i as int + 1]@));
        match read_timestamp(tried.as_str()) {
            Some(stamp) => {
                return Some((i, stamp));
            },
            None => {},
        }
        i += 1;
    }
    None
}

} // verus!
