//! The canonical form of a line: what a normalized record holds and how it is
//! written for a terminal.

use crate::level::Severity;
use crate::text::append_chars;
use crate::text::append_str;
use crate::text::chars_of;
use crate::text::join;
use crate::text::join_with;
use crate::text::string_of;
use crate::text::texts;
use crate::text::Token;
use vstd::prelude::*;

verus! {

/// What was read out of one line.
pub struct NormalizedRecord {
    /// How important the line is.
    pub severity: Severity,
    /// When the line was written, in the canonical format.
    pub timestamp: String,
    /// The place in a source file that the line names, as the line wrote it.
    pub source_location: Option<String>,
    /// What is left of the line.
    pub message: String,
    /// The further fields of a structured record, each a key with its value, in
    /// the order in which they are printed. A line of free text has none.
    pub extras: Option<Vec<(String, String)>>,
}

/// A normalized record as plain sequences of characters.
pub struct RecordView {
    pub severity: Severity,
    pub timestamp: Seq<char>,
    pub source_location: Option<Seq<char>>,
    pub message: Seq<char>,
    pub extras: Option<Seq<(Seq<char>, Seq<char>)>>,
}

/// The keys and values that a vector of extras holds.
pub open spec fn pairs(extras: Seq<(String, String)>) -> Seq<(Seq<char>, Seq<char>)> {
    extras.map_values(|e: (String, String)| (e.0@, e.1@))
}

impl View for NormalizedRecord {
    type V = RecordView;

    open spec fn view(&self) -> RecordView {
        RecordView {
            severity: self.severity,
            timestamp: self.timestamp@,
            source_location: match self.source_location {
                Some(place) => Some(place@),
                None => None,
            },
            message: self.message@,
            extras: match self.extras {
                Some(extras) => Some(pairs(extras@)),
                None => None,
            },
        }
    }
}

/// The escape sequence that switches to the bold colour of `digit`.
pub open spec fn color_code(digit: char) -> Seq<char> {
    "\x1B[1;3"@ + seq![digit] + "m"@
}

/// The escape sequence that switches colours off, and the space before the message.
pub open spec fn color_reset() -> Seq<char> {
    "\x1B[0m "@
}

/// The first block of a rendered line: the colour of the severity, then in
/// square brackets the label, the timestamp and, where there is one, the location.
pub open spec fn header(severity: Severity, timestamp: Seq<char>, place: Option<Seq<char>>) -> Seq<
    char,
> {
    color_code(severity.color_digit()) + "["@ + severity.label_text() + " "@ + timestamp + match place {
        Some(p) => " "@ + p,
        None => Seq::<char>::empty(),
    } + "]"@
}

/// One extra as it is printed: key, colon, value.
pub open spec fn extra_text(extra: (Seq<char>, Seq<char>)) -> Seq<char> {
    extra.0 + ":"@ + extra.1
}

/// The second block of a rendered line: after a space, in green and in square
/// brackets, the extras with a space between neighbours.
pub open spec fn extras_block(extras: Seq<(Seq<char>, Seq<char>)>) -> Seq<char> {
    " "@ + color_code('2') + "["@ + join(extras.map_values(|e| extra_text(e)), ' ') + "]"@
}

/// The line that stands for `record` on a terminal: header, extras block where
/// the record has extras, colour reset, a space, message.
pub open spec fn rendered(record: RecordView) -> Seq<char> {
    header(record.severity, record.timestamp, record.source_location) + match record.extras {
        Some(extras) => extras_block(extras),
        None => Seq::<char>::empty(),
    } + color_reset() + record.message
}

/// Appends the escape sequence for the bold colour of `digit`.
fn append_color(out: &mut Vec<char>, digit: char)
    ensures
        final(out)@ == old(out)@ + color_code(digit),
{
    let ghost start = out@;
    append_str(out, "\x1B[1;3");
    out.push(digit);
    append_str(out, "m");
    assert(out@ =~= start + color_code(digit));
}

/// The extras as they are printed, one token each.
fn extra_tokens(extras: &Vec<(String, String)>) -> (tokens: Vec<Token>)
    ensures
        texts(tokens@) == pairs(extras@).map_values(|e| extra_text(e)),
{
    let mut tokens: Vec<Token> = Vec::new();
    let mut i: usize = 0;
    while i < extras.len()
        invariant
            i <= extras.len(),
            tokens.len() == i,
            forall|k: int| 0 <= k < i ==> (#[trigger] tokens@[k])@ == extra_text(pairs(extras@)[k]),
        decreases extras.len() - i,
    {
        let mut token: Token = chars_of(extras[i].0.as_str());
        append_str(&mut token, ":");
        append_str(&mut token, extras[i].1.as_str());
        tokens.push(token);
        i += 1;
    }
    assert(texts(tokens@) =~= pairs(extras@).map_values(|e| extra_text(e)));
    tokens
}

/// Writes `record` as one line for a terminal.
pub fn render(record: &NormalizedRecord) -> (line: String)
    ensures
        line@ == rendered(record@),
{
    let mut out: Vec<char> = Vec::new();
    append_color(&mut out, record.severity.color());
    append_str(&mut out, "[");
    append_str(&mut out, record.severity.label());
    append_str(&mut out, " ");
    append_str(&mut out, record.timestamp.as_str());
    match &record.source_location {
        Some(place) => {
            let ghost before = out@;
            append_str(&mut out, " ");
            append_str(&mut out, place.as_str());
            assert(out@ =~= before + (" "@ + place@));
        },
        None => {
            assert(out@ =~= out@ + Seq::<char>::empty());
        },
    }
    append_str(&mut out, "]");
    assert(out@ =~= header(record@.severity, record@.timestamp, record@.source_location));
    match &record.extras {
        Some(extras) => {
            let ghost before = out@;
            append_str(&mut out, " ");
            append_color(&mut out, '2');
            append_str(&mut out, "[");
            let tokens = extra_tokens(extras);
            let joined = join_with(&tokens, ' ');
            append_chars(&mut out, &joined);
            append_str(&mut out, "]");
            assert(out@ =~= before + extras_block(pairs(extras@)));
        },
        None => {
            assert(out@ =~= out@ + Seq::<char>::empty());
        },
    }
    append_str(&mut out, "\x1B[0m ");
    append_str(&mut out, record.message.as_str());
    string_of(&out)
}

/// Writes a line of free text, of which the parts are given, for a terminal:
/// the line of the record that has these parts and no extras.
pub fn custom_print(level: Severity, timestamp: String, line: Option<String>, message: String) -> (printed:
    String)
    ensures
        printed@ == rendered(
            (RecordView {
                severity: level,
                timestamp: timestamp@,
                source_location: match line {
                    Some(place) => Some(place@),
                    None => None,
                },
                message: message@,
                extras: None,
            }),
        ),
{
    let record = NormalizedRecord {
        severity: level,
        timestamp,
        source_location: line,
        message,
        extras: None,
    };
    render(&record)
}

/// The five labels are five characters long and differ from one another, so a
/// label read off a line tells the severity.
pub proof fn lemma_labels_tell_severity(a: Severity, b: Severity)
    ensures
        a.label_text().len() == 5,
        a.label_text() == b.label_text() ==> a == b,
{
    reveal_strlit("ERROR");
    reveal_strlit("WARN ");
    reveal_strlit("INFO ");
    reveal_strlit("DEBUG");
    reveal_strlit("TRACE");
    if a != b && a.label_text() == b.label_text() {
        assert(a.label_text()[0] == b.label_text()[0]);
    }
}

/// The parts of a record stand at known places of its line, so that they can be
/// read back from it: after the colour code of seven characters and the opening
/// bracket the label, after a space the timestamp, after another space the
/// location where there is one, then the closing bracket; and at the end of the
/// line the message, with the colour reset and a space before it.
pub proof fn lemma_rendered_fields(record: RecordView)
    ensures
        ({
            let line = rendered(record);
            let stamp_end: int = 14 + record.timestamp.len() as int;
            let head_end: int = match record.source_location {
                Some(place) => stamp_end + 1 + place.len(),
                None => stamp_end,
            };
            let message_start = line.len() - record.message.len();
            &&& head_end + 1 + 5 <= message_start
            &&& line.subrange(0, 7) == color_code(record.severity.color_digit())
            &&& line[7] == '['
            &&& line.subrange(8, 13) == record.severity.label_text()
            &&& line[13] == ' '
            &&& line.subrange(14, stamp_end) == record.timestamp
            &&& match record.source_location {
                Some(place) => line[stamp_end] == ' ' && line.subrange(stamp_end + 1, head_end)
                    == place,
                None => true,
            }
            &&& line[head_end] == ']'
            &&& line.subrange(message_start - 5, message_start) == color_reset()
            &&& line.subrange(message_start, line.len() as int) == record.message
        }),
{
    reveal_strlit("\x1B[1;3");
    reveal_strlit("m");
    reveal_strlit("[");
    reveal_strlit(" ");
    reveal_strlit("]");
    reveal_strlit("\x1B[0m ");
    lemma_labels_tell_severity(record.severity, record.severity);
    let line = rendered(record);
    let code = color_code(record.severity.color_digit());
    let label = record.severity.label_text();
    let place = match record.source_location {
        Some(p) => " "@ + p,
        None => Seq::<char>::empty(),
    };
    let head = header(record.severity, record.timestamp, record.source_location);
    let block = match record.extras {
        Some(extras) => extras_block(extras),
        None => Seq::<char>::empty(),
    };
    assert(code.len() == 7);
    assert(head =~= code + "["@ + label + " "@ + record.timestamp + place + "]"@);
    assert(head.len() == 14 + record.timestamp.len() + place.len() + 1);
    assert(line =~= head + block + color_reset() + record.message);
    assert(color_reset().len() == 5);
    assert(line.len() == head.len() + block.len() + 5 + record.message.len());
    assert(line.subrange(0, 7) =~= code);
    assert(line.subrange(8, 13) =~= label);
    let stamp_end: int = 14 + record.timestamp.len() as int;
    assert(line.subrange(14, stamp_end) =~= record.timestamp);
    match record.source_location {
        Some(p) => {
            assert(line.subrange(stamp_end + 1, stamp_end + 1 + p.len()) =~= p);
        },
        None => {},
    }
    let message_start = line.len() - record.message.len();
    assert(line.subrange(message_start - 5, message_start) =~= color_reset());
    assert(line.subrange(message_start, line.len() as int) =~= record.message);
}

} // verus!
