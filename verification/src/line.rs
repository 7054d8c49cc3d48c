//! One line in, one line out: a line is tried as a structured record first and
//! read as free text otherwise.
//!
//! Free text is cut into tokens at single spaces. The first token that names a
//! place in a source file is taken out, then the first token that names a
//! severity, then the first two neighbours that hold a timestamp. What is left
//! is the message.

use crate::level::find_severity;
use crate::level::first_severity;
use crate::level::severity_at;
use crate::level::Severity;
use crate::location::find_location;
use crate::location::first_location;
use crate::location::location_hits;
use crate::record::record_of_line;
use crate::record::structured_line;
use crate::record::text_of;
use crate::record::SipAppJson;
use crate::render::render;
use crate::render::rendered;
use crate::render::NormalizedRecord;
use crate::render::RecordView;
use crate::scan::lemma_first_is_least;
use crate::text::chars_of;
use crate::text::is_trimmed;
use crate::text::join;
use crate::text::join_with;
use crate::text::lemma_join_split;
use crate::text::lemma_trimmed_is_trimmed;
use crate::text::split;
use crate::text::split_on;
use crate::text::string_of;
use crate::text::texts;
use crate::text::trim;
use crate::text::trimmed;
use crate::text::Token;
use crate::timestamp::find_timestamp;
use crate::timestamp::first_stamp;
use crate::timestamp::local_now;
use crate::timestamp::stamp_at;
use vstd::prelude::*;

verus! {

/// What a line of free text yields by itself: the timestamp is there only if
/// the line carries one.
pub struct Extraction {
    /// The severity that the line names, or `Info` where it names none.
    pub severity: Severity,
    /// The timestamp that the line carries, in the canonical format.
    pub timestamp: Option<String>,
    /// The token that names a place in a source file, as the line wrote it.
    pub source_location: Option<String>,
    /// What is left of the line.
    pub message: String,
}

/// An extraction as plain sequences of characters.
pub struct ExtractionView {
    pub severity: Severity,
    pub timestamp: Option<Seq<char>>,
    pub source_location: Option<Seq<char>>,
    pub message: Seq<char>,
}

impl View for Extraction {
    type V = ExtractionView;

    open spec fn view(&self) -> ExtractionView {
        ExtractionView {
            severity: self.severity,
            timestamp: text_of(self.timestamp),
            source_location: text_of(self.source_location),
            message: self.message@,
        }
    }
}

/// The tokens of a line: the trimmed line, cut at every single space. Two
/// spaces in a row leave an empty token between them.
pub open spec fn tokens_of(line: Seq<char>) -> Seq<Seq<char>> {
    split(trimmed(line), ' ')
}

/// The tokens without the one at position `at`, if there is such a position.
pub open spec fn without(tokens: Seq<Seq<char>>, at: Option<int>) -> Seq<Seq<char>> {
    match at {
        Some(i) => if 0 <= i < tokens.len() {
            tokens.remove(i)
        } else {
            tokens
        },
        None => tokens,
    }
}

/// The tokens without the two at positions `at` and `at + 1`, if there are
/// such positions.
pub open spec fn without_pair(tokens: Seq<Seq<char>>, at: Option<int>) -> Seq<Seq<char>> {
    match at {
        Some(i) => if 0 <= i && i + 1 < tokens.len() {
            tokens.remove(i + 1).remove(i)
        } else {
            tokens
        },
        None => tokens,
    }
}

/// The message that tokens make: joined with single spaces, then trimmed.
pub open spec fn message_of(tokens: Seq<Seq<char>>) -> Seq<char> {
    trimmed(join(tokens, ' '))
}

/// The tokens of a line once the first location is taken out.
pub open spec fn after_location(line: Seq<char>) -> Seq<Seq<char>> {
    without(tokens_of(line), first_location(tokens_of(line)))
}

/// The tokens of a line once the first location and then the first severity
/// are taken out.
pub open spec fn after_severity(line: Seq<char>) -> Seq<Seq<char>> {
    without(after_location(line), first_severity(after_location(line)))
}

/// The tokens of a line once the first location, then the first severity and
/// then the first timestamp are taken out.
pub open spec fn after_stamp(line: Seq<char>) -> Seq<Seq<char>> {
    without_pair(after_severity(line), first_stamp(after_severity(line)))
}

/// What a line of free text yields. Each search runs once, on the tokens that
/// the search before it left, and each token that is found leaves the message.
pub open spec fn extraction(line: Seq<char>) -> ExtractionView {
    ExtractionView {
        severity: match first_severity(after_location(line)) {
            Some(i) => match severity_at(after_location(line), i) {
                Some(severity) => severity,
                None => Severity::Info,
            },
            None => Severity::Info,
        },
        timestamp: match first_stamp(after_severity(line)) {
            Some(i) => stamp_at(after_severity(line), i),
            None => None,
        },
        source_location: match first_location(tokens_of(line)) {
            Some(i) => Some(tokens_of(line)[i]),
            None => None,
        },
        message: message_of(after_stamp(line)),
    }
}

/// The record of an extraction: `now` stands in where the line carried no
/// timestamp. A line of free text has no extras.
pub open spec fn completed(found: ExtractionView, now: Seq<char>) -> RecordView {
    RecordView {
        severity: found.severity,
        timestamp: match found.timestamp {
            Some(stamp) => stamp,
            None => now,
        },
        source_location: found.source_location,
        message: found.message,
        extras: None,
    }
}

/// What a line prints when it is a structured record whose time the calendar
/// reaches; `None` for every other line.
pub open spec fn structured_output(line: Seq<char>) -> Option<Seq<char>> {
    match record_of_line(line) {
        Some(record) => structured_line(record),
        None => None,
    }
}

/// What a line prints when it is read as free text, with `now` for the
/// timestamp where it carries none.
pub open spec fn free_text_output(line: Seq<char>, now: Seq<char>) -> Seq<char> {
    rendered(completed(extraction(line), now))
}

/// What a line prints: as a structured record where it is one, else as free text.
pub open spec fn line_output(line: Seq<char>, now: Seq<char>) -> Seq<char> {
    match structured_output(line) {
        Some(printed) => printed,
        None => free_text_output(line, now),
    }
}

/// Whether what a line prints depends on the time at which it is read: it is
/// read as free text and carries no timestamp.
pub open spec fn needs_clock(line: Seq<char>) -> bool {
    structured_output(line) is None && extraction(line).timestamp is None
}

/// Takes the token at position `at` out of `tokens`, if there is such a position.
pub fn take_token(tokens: &mut Vec<Token>, at: Option<usize>) -> (taken: Option<Token>)
    ensures
        texts(final(tokens)@) == without(
            texts(old(tokens)@),
            match at {
                Some(i) => Some(i as int),
                None => None,
            },
        ),
        match at {
            Some(i) => if i < old(tokens).len() {
                taken is Some && taken->0@ == texts(old(tokens)@)[i as int]
            } else {
                taken is None
            },
            None => taken is None,
        },
{
    match at {
        Some(i) => {
            if i < tokens.len() {
                let ghost before = tokens@;
                let token = tokens.remove(i);
                assert(texts(tokens@) =~= texts(before).remove(i as int));
                Some(token)
            } else {
                None
            }
        },
        None => None,
    }
}

/// Takes the tokens at positions `at` and `at + 1` out of `tokens`, if there
/// are such positions.
pub fn take_pair(tokens: &mut Vec<Token>, at: Option<usize>)
    ensures
        texts(final(tokens)@) == without_pair(
            texts(old(tokens)@),
            match at {
                Some(i) => Some(i as int),
                None => None,
            },
        ),
{
    match at {
        Some(i) => {
            if i < tokens.len() && i + 1 < tokens.len() {
                let ghost before = tokens@;
                tokens.remove(i + 1);
                tokens.remove(i);
                assert(texts(tokens@) =~= texts(before).remove(i as int + 1).remove(i as int));
            }
        },
        None => {},
    }
}

/// The message that tokens make: joined with single spaces, then trimmed.
pub fn message_from(tokens: &Vec<Token>) -> (message: Vec<char>)
    ensures
        message@ == message_of(texts(tokens@)),
{
    let joined = join_with(tokens, ' ');
    trim(&joined)
}

/// Reads a line as free text.
pub fn extract(line: &str) -> (found: Extraction)
    ensures
        found@ == extraction(line@),
{
    let chars = chars_of(line);
    let kept = trim(&chars);
    let mut tokens = split_on(&kept, ' ');
    let placed = find_location(&tokens);
    proof {
        lemma_first_is_least(location_hits(tokens_of(line@)), 0, tokens_of(line@).len() as int);
    }
    let place = take_token(&mut tokens, placed);
    assert(texts(tokens@) == after_location(line@));
    let source_location = match place {
        Some(token) => Some(string_of(&token)),
        None => None,
    };
    let levelled = find_severity(&tokens);
    let (level_at, severity) = match levelled {
        Some((i, severity)) => (Some(i), severity),
        None => (None, Severity::Info),
    };
    let _ = take_token(&mut tokens, level_at);
    assert(texts(tokens@) == after_severity(line@));
    let stamped = find_timestamp(&tokens);
    let (stamp_position, timestamp) = match stamped {
        Some((i, stamp)) => (Some(i), Some(stamp)),
        None => (None, None),
    };
    take_pair(&mut tokens, stamp_position);
    assert(texts(tokens@) == after_stamp(line@));
    let message = message_from(&tokens);
    Extraction { severity, timestamp, source_location, message: string_of(&message) }
}

impl Extraction {
    /// The record of the extraction, with `now` for the timestamp where the
    /// line carried none.
    pub fn complete(self, now: String) -> (record: NormalizedRecord)
        ensures
            record@ == completed(self@, now@),
    {
        NormalizedRecord {
            severity: self.severity,
            timestamp: match self.timestamp {
                Some(stamp) => stamp,
                None => now,
            },
            source_location: self.source_location,
            message: self.message,
            extras: None,
        }
    }
}

/// What a line prints when it is a structured record: `Some` exactly if the
/// line is a record and the calendar reaches its time.
pub fn print_structured(line: &str) -> (printed: Option<String>)
    ensures
        text_of(printed) == structured_output(line@),
{
    match SipAppJson::try_parse(line) {
        Some(record) => record.custom_print(),
        None => None,
    }
}

/// What a line prints when `now` is the time at which it is read.
pub fn process_line_at(line: &str, now: &str) -> (printed: String)
    ensures
        printed@ == line_output(line@, now@),
{
    match print_structured(line) {
        Some(printed) => printed,
        None => {
            let found = extract(line);
            render(&found.complete(String::from_str(now)))
        },
    }
}

/// What a line prints. The clock is read only where the line needs it, and
/// what is printed is what `process_line_at` prints for some reading of it.
pub fn process_line(line: &str) -> (printed: String)
    ensures
        exists|now: Seq<char>| printed@ == #[trigger] line_output(line@, now),
        !needs_clock(line@) ==> forall|now: Seq<char>| printed@ == #[trigger] line_output(line@, now),
{
    match print_structured(line) {
        Some(printed) => {
            assert(printed@ == line_output(line@, Seq::<char>::empty()));
            printed
        },
        None => {
            let found = extract(line);
            if found.timestamp.is_some() {
                let printed = render(&found.complete(String::new()));
                assert(printed@ == line_output(line@, Seq::<char>::empty()));
                assert forall|now: Seq<char>| printed@ == #[trigger] line_output(line@, now) by {
                    lemma_output_repeatable(line@, now, Seq::<char>::empty());
                }
                printed
            } else {
                let now = local_now();
                let printed = render(&found.complete(now));
                assert(printed@ == line_output(line@, now@));
                printed
            }
        },
    }
}

/// A line that neither is a structured record nor names a place, a severity or
/// a timestamp is printed whole: its severity is `Info`, its timestamp is the
/// time at which it is read, it has no location and no extras, and its message
/// is the trimmed line.
pub proof fn lemma_plain_line(line: Seq<char>, now: Seq<char>)
    requires
        first_location(tokens_of(line)) is None,
        first_severity(tokens_of(line)) is None,
        first_stamp(tokens_of(line)) is None,
    ensures
        completed(extraction(line), now) == (RecordView {
            severity: Severity::Info,
            timestamp: now,
            source_location: None,
            message: trimmed(line),
            extras: None,
        }),
        structured_output(line) is None ==> line_output(line, now) == rendered(
            RecordView {
                severity: Severity::Info,
                timestamp: now,
                source_location: None,
                message: trimmed(line),
                extras: None,
            },
        ),
{
    lemma_join_split(trimmed(line), ' ');
    lemma_trimmed_is_trimmed(line);
}

/// What a line prints depends on nothing but the line and the time at which it
/// is read, and on that time only where the line needs the clock: a structured
/// record, well formed or not, and a line that carries a timestamp print the
/// same whenever they are read.
pub proof fn lemma_output_repeatable(line: Seq<char>, now: Seq<char>, later: Seq<char>)
    ensures
        now == later ==> line_output(line, now) == line_output(line, later),
        !needs_clock(line) ==> line_output(line, now) == line_output(line, later),
{
}

/// The message of a line of free text neither starts nor ends with white space.
pub proof fn lemma_message_is_trimmed(line: Seq<char>)
    ensures
        is_trimmed(extraction(line).message),
{
    lemma_trimmed_is_trimmed(join(after_stamp(line), ' '));
}

} // verus!
