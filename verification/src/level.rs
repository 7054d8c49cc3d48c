//! Severity levels: the five canonical ones, the spellings that lines use for
//! them, and the numeric codes of structured records.

use crate::scan::first;
use crate::scan::first_from;
use crate::text::chars_of;
use crate::text::drop_marks;
use crate::text::same_text;
use crate::text::texts;
use crate::text::unmarked;
use crate::text::Token;
use vstd::prelude::*;
use vstd::std_specs::convert::FromSpecImpl;
use vstd::std_specs::convert::TryFromSpecImpl;

verus! {

/// The importance of a line, one of five.
#[derive(Clone, Copy, Debug, PartialEq, Eq, Structural)]
pub enum Severity {
    Error,
    Warn,
    Info,
    Debug,
    Trace,
}

/// A level as a line spells it. The first five are the canonical names; the
/// other four are further spellings, each of which stands for one of the five.
#[derive(Clone, Copy, Debug, PartialEq, Eq, Structural)]
pub enum CustomLevel {
    Error,
    Warn,
    Info,
    Debug,
    Trace,
    ShortErr,
    Warning,
    Console,
    Notice,
}

/// The level that a numeric code of a structured record stands for. A code
/// outside the table is read as `Trace`, so that every code has a level.
pub open spec fn level_of_code(code: int) -> CustomLevel {
    if code == 10 {
        CustomLevel::Trace
    } else if code == 20 {
        CustomLevel::Debug
    } else if code == 30 {
        CustomLevel::Info
    } else if code == 40 {
        CustomLevel::Warn
    } else if code == 50 {
        CustomLevel::Error
    } else if code == 60 {
        CustomLevel::Error
    } else {
        CustomLevel::Trace
    }
}

/// The canonical severity that a level stands for.
pub open spec fn severity_of(level: CustomLevel) -> Severity {
    match level {
        CustomLevel::Error => Severity::Error,
        CustomLevel::Warn => Severity::Warn,
        CustomLevel::Info => Severity::Info,
        CustomLevel::Debug => Severity::Debug,
        CustomLevel::Trace => Severity::Trace,
        CustomLevel::ShortErr => Severity::Error,
        CustomLevel::Warning => Severity::Warn,
        CustomLevel::Console => Severity::Debug,
        CustomLevel::Notice => Severity::Trace,
    }
}

/// The level that `text` names, if it names one. Names are upper case and are
/// matched whole. `WARNING` is read as `Warn`.
pub open spec fn level_named(text: Seq<char>) -> Option<CustomLevel> {
    if text == "ERROR"@ {
        Some(CustomLevel::Error)
    } else if text == "WARN"@ {
        Some(CustomLevel::Warn)
    } else if text == "INFO"@ {
        Some(CustomLevel::Info)
    } else if text == "DEBUG"@ {
        Some(CustomLevel::Debug)
    } else if text == "TRACE"@ {
        Some(CustomLevel::Trace)
    } else if text == "ERR"@ {
        Some(CustomLevel::ShortErr)
    } else if text == "WARNING"@ {
        Some(CustomLevel::Warn)
    } else if text == "CONSOLE"@ {
        Some(CustomLevel::Console)
    } else if text == "NOTICE"@ {
        Some(CustomLevel::Notice)
    } else {
        None
    }
}

/// The severity that `text` names, if it names one.
pub open spec fn severity_named(text: Seq<char>) -> Option<Severity> {
    match level_named(text) {
        Some(level) => Some(severity_of(level)),
        None => None,
    }
}

/// The severity of a numeric code.
pub open spec fn severity_of_code(code: int) -> Severity {
    severity_of(level_of_code(code))
}

/// What a conversion from text reports when the text names no level.
pub open spec fn unknown_level() -> &'static str {
    "no such leven indicator recognized"
}

impl Severity {
    /// The name of the severity as it is printed: five characters, padded with a
    /// space where the name has four.
    pub open spec fn label_text(self) -> Seq<char> {
        match self {
            Severity::Error => "ERROR"@,
            Severity::Warn => "WARN "@,
            Severity::Info => "INFO "@,
            Severity::Debug => "DEBUG"@,
            Severity::Trace => "TRACE"@,
        }
    }

    /// The digit that selects the severity's colour on a terminal.
    pub open spec fn color_digit(self) -> char {
        match self {
            Severity::Error => '1',
            Severity::Warn => '3',
            Severity::Info => '7',
            Severity::Debug => '4',
            Severity::Trace => '5',
        }
    }

    /// The name of the severity as it is printed.
    pub fn label(self) -> (name: &'static str)
        ensures
            name@ == self.label_text(),
    {
        match self {
            Severity::Error => "ERROR",
            Severity::Warn => "WARN ",
            Severity::Info => "INFO ",
            Severity::Debug => "DEBUG",
            Severity::Trace => "TRACE",
        }
    }

    /// The digit that selects the severity's colour on a terminal.
    pub fn color(self) -> (digit: char)
        ensures
            digit == self.color_digit(),
    {
        match self {
            Severity::Error => '1',
            Severity::Warn => '3',
            Severity::Info => '7',
            Severity::Debug => '4',
            Severity::Trace => '5',
        }
    }
}

impl CustomLevel {
    /// The level that `token` names, if it names one.
    pub fn named(token: &Vec<char>) -> (level: Option<CustomLevel>)
        ensures
            level == level_named(token@),
    {
        if same_text(token, "ERROR") {
            Some(CustomLevel::Error)
        } else if same_text(token, "WARN") {
            Some(CustomLevel::Warn)
        } else if same_text(token, "INFO") {
            Some(CustomLevel::Info)
        } else if same_text(token, "DEBUG") {
            Some(CustomLevel::Debug)
        } else if same_text(token, "TRACE") {
            Some(CustomLevel::Trace)
        } else if same_text(token, "ERR") {
            Some(CustomLevel::ShortErr)
        } else if same_text(token, "WARNING") {
            Some(CustomLevel::Warn)
        } else if same_text(token, "CONSOLE") {
            Some(CustomLevel::Console)
        } else if same_text(token, "NOTICE") {
            Some(CustomLevel::Notice)
        } else {
            None
        }
    }
}

impl From<usize> for CustomLevel {
    fn from(item: usize) -> (level: CustomLevel) {
        if item == 10 {
            return CustomLevel::Trace;
        }
        if item == 20 {
            return CustomLevel::Debug;
        }
        if item == 30 {
            return CustomLevel::Info;
        }
        if item == 40 {
            return CustomLevel::Warn;
        }
        if item == 50 {
            return CustomLevel::Error;
        }
        if item == 60 {
            return CustomLevel::Error;
        }
        CustomLevel::Trace
    }
}

impl FromSpecImpl<usize> for CustomLevel {
    open spec fn obeys_from_spec() -> bool {
        true
    }

    open spec fn from_spec(item: usize) -> CustomLevel {
        level_of_code(item as int)
    }
}

impl From<CustomLevel> for Severity {
    fn from(item: CustomLevel) -> (severity: Severity) {
        match item {
            CustomLevel::Error => Severity::Error,
            CustomLevel::Warn => Severity::Warn,
            CustomLevel::Info => Severity::Info,
            CustomLevel::Debug => Severity::Debug,
            CustomLevel::Trace => Severity::Trace,
            CustomLevel::ShortErr => Severity::Error,
            CustomLevel::Warning => Severity::Warn,
            CustomLevel::Console => Severity::Debug,
            CustomLevel::Notice => Severity::Trace,
        }
    }
}

impl FromSpecImpl<CustomLevel> for Severity {
    open spec fn obeys_from_spec() -> bool {
        true
    }

    open spec fn from_spec(item: CustomLevel) -> Severity {
        severity_of(item)
    }
}

impl TryFrom<String> for CustomLevel {
    type Error = &'static str;

    fn try_from(item: String) -> (level: Result<CustomLevel, &'static str>) {
        let chars = chars_of(item.as_str());
        match CustomLevel::named(&chars) {
            Some(level) => Ok(level),
            None => Err("no such leven indicator recognized"),
        }
    }
}

impl TryFromSpecImpl<String> for CustomLevel {
    open spec fn obeys_try_from_spec() -> bool {
        true
    }

    open spec fn try_from_spec(item: String) -> Result<CustomLevel, &'static str> {
        match level_named(item@) {
            Some(level) => Ok(level),
            None => Err(unknown_level()),
        }
    }
}

/// The severity that `token` names: `Some` for the nine names, `None` for
/// every other text.
pub fn classify(token: &str) -> (severity: Option<Severity>)
    ensures
        severity == severity_named(token@),
{
    let chars = chars_of(token);
    classify_chars(&chars)
}

/// The severity that `token` names, if it names one.
pub fn classify_chars(token: &Vec<char>) -> (severity: Option<Severity>)
    ensures
        severity == severity_named(token@),
{
    match CustomLevel::named(token) {
        Some(level) => Some(Severity::from(level)),
        None => None,
    }
}

/// The severity that the token at position `i` names once the marks around it
/// are dropped, if it names one.
pub open spec fn severity_at(tokens: Seq<Seq<char>>, i: int) -> Option<Severity> {
    severity_named(unmarked(tokens[i]))
}

/// At which positions of `tokens` a severity stands.
pub open spec fn severity_hits(tokens: Seq<Seq<char>>) -> spec_fn(int) -> bool {
    |i: int| severity_at(tokens, i) is Some
}

/// The position of the first token that names a severity, if there is one.
pub open spec fn first_severity(tokens: Seq<Seq<char>>) -> Option<int> {
    first(severity_hits(tokens), tokens.len() as int)
}

/// The position of the first token that names a severity, with that severity.
pub fn find_severity(tokens: &Vec<Token>) -> (found: Option<(usize, Severity)>)
    ensures
        match found {
            Some((at, severity)) => first_severity(texts(tokens@)) == Some(at as int)
                && severity_at(texts(tokens@), at as int) == Some(severity),
            None => first_severity(texts(tokens@)) is None,
        },
{
    let ghost hit = severity_hits(texts(tokens@));
    let ghost end = tokens.len() as int;
    let mut i: usize = 0;
    while i < tokens.len()
        invariant
            i <= tokens.len(),
            end == tokens.len(),
            hit == severity_hits(texts(tokens@)),
            first_from(hit, 0, end) == first_from(hit, i as int, end),
        decreases tokens.len() - i,
    {
        assert(texts(tokens@)[i as int] == tokens@[i as int]@);
        let bare = drop_marks(&tokens[i]);
        match classify_chars(&bare) {
            Some(severity) => {
                return Some((i, severity));
            },
            None => {},
        }
        i += 1;
    }
    None
}

/// The severity of a structured record's numeric level code.
pub fn classify_numeric(level: usize) -> (severity: Severity)
    ensures
        severity == severity_of_code(level as int),
{
    Severity::from(CustomLevel::from(level))
}

/// The nine names have the severities listed here, and a text that is none of
/// the nine names no severity.
pub proof fn lemma_named_severities()
    ensures
        severity_named("ERROR"@) == Some(Severity::Error),
        severity_named("WARN"@) == Some(Severity::Warn),
        severity_named("INFO"@) == Some(Severity::Info),
        severity_named("DEBUG"@) == Some(Severity::Debug),
        severity_named("TRACE"@) == Some(Severity::Trace),
        severity_named("ERR"@) == Some(Severity::Error),
        severity_named("WARNING"@) == Some(Severity::Warn),
        severity_named("CONSOLE"@) == Some(Severity::Debug),
        severity_named("NOTICE"@) == Some(Severity::Trace),
        forall|text: Seq<char>|
            text != "ERROR"@ && text != "WARN"@ && text != "INFO"@ && text != "DEBUG"@ && text
                != "TRACE"@ && text != "ERR"@ && text != "WARNING"@ && text != "CONSOLE"@ && text
                != "NOTICE"@ ==> #[trigger] severity_named(text) is None,
{
    reveal_strlit("ERROR");
    reveal_strlit("WARN");
    reveal_strlit("INFO");
    reveal_strlit("DEBUG");
    reveal_strlit("TRACE");
    reveal_strlit("ERR");
    reveal_strlit("WARNING");
    reveal_strlit("CONSOLE");
    reveal_strlit("NOTICE");
    assert("ERROR"@.len() == 5 && "WARN"@.len() == 4 && "INFO"@.len() == 4 && "DEBUG"@.len() == 5);
    assert("TRACE"@.len() == 5 && "ERR"@.len() == 3 && "WARNING"@.len() == 7);
    assert("CONSOLE"@.len() == 7 && "NOTICE"@.len() == 6);
    assert("WARN"@[0] != "INFO"@[0]);
    assert("ERROR"@[0] != "DEBUG"@[0] && "ERROR"@[0] != "TRACE"@[0] && "DEBUG"@[0] != "TRACE"@[0]);
    assert("WARNING"@[0] != "CONSOLE"@[0]);
}

/// A text names a severity exactly if it is one of the nine names.
pub proof fn lemma_named_iff(text: Seq<char>)
    ensures
        severity_named(text) is Some <==> (text == "ERROR"@ || text == "WARN"@ || text == "INFO"@
            || text == "DEBUG"@ || text == "TRACE"@ || text == "ERR"@ || text == "WARNING"@ || text
            == "CONSOLE"@ || text == "NOTICE"@),
{
}

/// Read by bands: a code of at most 10 is `Trace`, 20 is `Debug`, 30 is `Info`,
/// 40 is `Warn`, a code from 50 up is `Error`, and a code outside the table is
/// `Trace`. This holds of every code but those above 50 that the table lacks
/// (all but 60), which are `Trace` and not `Error`.
pub proof fn lemma_code_bands(code: int)
    requires
        code <= 50 || code == 60,
    ensures
        code <= 10 ==> severity_of_code(code) == Severity::Trace,
        code == 20 ==> severity_of_code(code) == Severity::Debug,
        code == 30 ==> severity_of_code(code) == Severity::Info,
        code == 40 ==> severity_of_code(code) == Severity::Warn,
        code >= 50 ==> severity_of_code(code) == Severity::Error,
        code != 10 && code != 20 && code != 30 && code != 40 && code != 50 && code != 60
            ==> severity_of_code(code) == Severity::Trace,
{
}

/// A code that the table lacks is `Trace`, however large it is.
pub proof fn lemma_unlisted_code_is_trace(code: int)
    requires
        code != 10 && code != 20 && code != 30 && code != 40 && code != 50 && code != 60,
    ensures
        severity_of_code(code) == Severity::Trace,
{
}

} // verus!
