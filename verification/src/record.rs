//! Structured records: lines that are one JSON object of a fixed shape.
//!
//! The JSON itself is read by serde_json. What serde_json makes of a line is
//! named here and not spelled out; which objects are records, and what a record
//! prints, is proved in terms of that name.

use crate::level::classify_numeric;
use crate::level::severity_of_code;
use crate::render::pairs;
use crate::render::render;
use crate::render::rendered;
use crate::render::NormalizedRecord;
use crate::render::RecordView;
use crate::text::chars_of;
use crate::text::decimal;
use crate::text::decimal_of;
use crate::text::string_of;
use crate::text::trim;
use crate::text::trimmed;
use crate::timestamp::epoch_timestamp;
use crate::timestamp::timestamp_of_millis;
use vstd::prelude::*;

verus! {

/// serde_json's value of any JSON type. Nothing of it is visible here.
#[verifier::external_type_specification]
#[verifier::external_body]
pub struct ExJsonValue(serde_json::Value);

/// serde_json's map from keys to values, as which it reads a JSON object.
#[verifier::external_type_specification]
#[verifier::external_body]
#[verifier::reject_recursive_types(K)]
#[verifier::reject_recursive_types(V)]
pub struct ExJsonObject<K, V>(serde_json::Map<K, V>);

/// What an object holds under one key, as far as a record reads it: a number
/// with its value where that is a whole number from 0 to 2^64 - 1, a string
/// with its text, and of the other JSON types only which one it is.
#[derive(Clone, Debug, PartialEq, Eq)]
pub enum JsonField {
    /// The object has no such key.
    Absent,
    Null,
    Bool,
    Number(Option<u64>),
    Text(String),
    Array,
    Object,
}

/// A field with its text as a sequence of characters.
pub enum FieldView {
    Absent,
    Null,
    Bool,
    Number(Option<u64>),
    Text(Seq<char>),
    Array,
    Object,
}

impl View for JsonField {
    type V = FieldView;

    open spec fn view(&self) -> FieldView {
        match self {
            JsonField::Absent => FieldView::Absent,
            JsonField::Null => FieldView::Null,
            JsonField::Bool => FieldView::Bool,
            JsonField::Number(n) => FieldView::Number(*n),
            JsonField::Text(s) => FieldView::Text(s@),
            JsonField::Array => FieldView::Array,
            JsonField::Object => FieldView::Object,
        }
    }
}

/// The thirteen fields that a record is made of, as an object holds them.
#[derive(Clone, Debug, PartialEq, Eq)]
pub struct RawRecord {
    pub level: JsonField,
    pub time: JsonField,
    pub msg: JsonField,
    pub pid: JsonField,
    pub hostname: JsonField,
    pub type_: JsonField,
    pub stack: JsonField,
    pub errno: JsonField,
    pub syscall: JsonField,
    pub address: JsonField,
    pub port: JsonField,
    pub secret: JsonField,
    pub v: JsonField,
}

/// The thirteen fields with their texts as sequences of characters.
pub struct RawView {
    pub level: FieldView,
    pub time: FieldView,
    pub msg: FieldView,
    pub pid: FieldView,
    pub hostname: FieldView,
    pub type_: FieldView,
    pub stack: FieldView,
    pub errno: FieldView,
    pub syscall: FieldView,
    pub address: FieldView,
    pub port: FieldView,
    pub secret: FieldView,
    pub v: FieldView,
}

impl View for RawRecord {
    type V = RawView;

    open spec fn view(&self) -> RawView {
        RawView {
            level: self.level@,
            time: self.time@,
            msg: self.msg@,
            pid: self.pid@,
            hostname: self.hostname@,
            type_: self.type_@,
            stack: self.stack@,
            errno: self.errno@,
            syscall: self.syscall@,
            address: self.address@,
            port: self.port@,
            secret: self.secret@,
            v: self.v@,
        }
    }
}

/// A structured log record: level code, time in milliseconds since the start
/// of 1970, message, process and host, the optional fields, and the version of
/// the schema.
#[derive(Clone, Debug, PartialEq, Eq)]
pub struct SipAppJson {
    pub level: usize,
    pub time: u64,
    pub msg: String,
    pub pid: usize,
    pub hostname: String,
    pub type_: Option<String>,
    pub stack: Option<String>,
    pub errno: Option<String>,
    pub syscall: Option<String>,
    pub address: Option<String>,
    pub port: Option<u16>,
    pub secret: Option<String>,
    pub v: usize,
}

/// A structured record with its texts as sequences of characters.
pub struct StructuredView {
    pub level: usize,
    pub time: u64,
    pub msg: Seq<char>,
    pub pid: usize,
    pub hostname: Seq<char>,
    pub type_: Option<Seq<char>>,
    pub stack: Option<Seq<char>>,
    pub errno: Option<Seq<char>>,
    pub syscall: Option<Seq<char>>,
    pub address: Option<Seq<char>>,
    pub port: Option<u16>,
    pub secret: Option<Seq<char>>,
    pub v: usize,
}

/// The characters of a text that may be missing.
pub open spec fn text_of(text: Option<String>) -> Option<Seq<char>> {
    match text {
        Some(t) => Some(t@),
        None => None,
    }
}

impl View for SipAppJson {
    type V = StructuredView;

    open spec fn view(&self) -> StructuredView {
        StructuredView {
            level: self.level,
            time: self.time,
            msg: self.msg@,
            pid: self.pid,
            hostname: self.hostname@,
            type_: text_of(self.type_),
            stack: text_of(self.stack),
            errno: text_of(self.errno),
            syscall: text_of(self.syscall),
            address: text_of(self.address),
            port: self.port,
            secret: text_of(self.secret),
            v: self.v,
        }
    }
}

/// What serde_json reads out of `text` when it is asked for a JSON object:
/// `None` where `text` is not one JSON object and nothing else, else what the
/// object holds under each of its keys.
pub uninterp spec fn parsed_object(text: Seq<char>) -> Option<Map<Seq<char>, FieldView>>;

/// What `object` holds under each of its keys.
pub uninterp spec fn object_fields(object: serde_json::Map<String, serde_json::Value>) -> Map<
    Seq<char>,
    FieldView,
>;

/// Calls `serde_json::from_str` for a map from strings to values, the type as
/// which serde_json reads a JSON object. The contract claims only that the
/// outcome is a function of the text: `None` where serde_json returns an error,
/// else the map that it returns.
#[verifier::external_body]
fn parse_object(text: &str) -> (object: Option<serde_json::Map<String, serde_json::Value>>)
    ensures
        match object {
            Some(o) => parsed_object(text@) == Some(object_fields(o)),
            None => parsed_object(text@) is None,
        },
{
    serde_json::from_str::<serde_json::Map<String, serde_json::Value>>(text).ok()
}

/// Calls `serde_json::Map::get` and tells the variants of the value apart; for
/// a number it calls `serde_json::Number::as_u64`. The contract claims that
/// this is what the map holds under `key`, and `Absent` where it has no such key.
#[verifier::external_body]
fn field(object: &serde_json::Map<String, serde_json::Value>, key: &str) -> (found: JsonField)
    ensures
        found@ == field_under(object_fields(*object), key@),
{
    match object.get(key) {
        None => JsonField::Absent,
        Some(serde_json::Value::Null) => JsonField::Null,
        Some(serde_json::Value::Bool(_)) => JsonField::Bool,
        Some(serde_json::Value::Number(n)) => JsonField::Number(n.as_u64()),
        Some(serde_json::Value::String(s)) => JsonField::Text(s.clone()),
        Some(serde_json::Value::Array(_)) => JsonField::Array,
        Some(serde_json::Value::Object(_)) => JsonField::Object,
    }
}

/// What `fields` holds under `key`.
pub open spec fn field_under(fields: Map<Seq<char>, FieldView>, key: Seq<char>) -> FieldView {
    if fields.contains_key(key) {
        fields[key]
    } else {
        FieldView::Absent
    }
}

/// The thirteen fields of a record as `fields` holds them. What an object
/// holds under other keys is not looked at.
pub open spec fn raw_of(fields: Map<Seq<char>, FieldView>) -> RawView {
    RawView {
        level: field_under(fields, "level"@),
        time: field_under(fields, "time"@),
        msg: field_under(fields, "msg"@),
        pid: field_under(fields, "pid"@),
        hostname: field_under(fields, "hostname"@),
        type_: field_under(fields, "type"@),
        stack: field_under(fields, "stack"@),
        errno: field_under(fields, "errno"@),
        syscall: field_under(fields, "syscall"@),
        address: field_under(fields, "address"@),
        port: field_under(fields, "port"@),
        secret: field_under(fields, "secret"@),
        v: field_under(fields, "v"@),
    }
}

/// The number that a required 64-bit field holds: it has to be a number, whole
/// and not negative.
pub open spec fn number_in(field: FieldView) -> Option<u64> {
    match field {
        FieldView::Number(Some(n)) => Some(n),
        _ => None,
    }
}

/// The number that a required field of the machine's word size holds.
pub open spec fn size_in(field: FieldView) -> Option<usize> {
    match field {
        FieldView::Number(Some(n)) => if n <= usize::MAX {
            Some(n as usize)
        } else {
            None
        },
        _ => None,
    }
}

/// The text that a required field holds: it has to be a string.
pub open spec fn text_in(field: FieldView) -> Option<Seq<char>> {
    match field {
        FieldView::Text(s) => Some(s),
        _ => None,
    }
}

/// The text that an optional field holds: `Some(None)` where the field is
/// absent or null, the text where it is a string, and `None` where it is of
/// another type, which no record allows.
pub open spec fn optional_text_in(field: FieldView) -> Option<Option<Seq<char>>> {
    match field {
        FieldView::Absent => Some(None),
        FieldView::Null => Some(None),
        FieldView::Text(s) => Some(Some(s)),
        _ => None,
    }
}

/// The port that the optional field holds: `Some(None)` where the field is
/// absent or null, the number where it is one from 0 to 65535, and `None` for
/// everything else, which no record allows.
pub open spec fn optional_port_in(field: FieldView) -> Option<Option<u16>> {
    match field {
        FieldView::Absent => Some(None),
        FieldView::Null => Some(None),
        FieldView::Number(Some(n)) => if n <= u16::MAX {
            Some(Some(n as u16))
        } else {
            None
        },
        _ => None,
    }
}

/// Whether the thirteen fields make a record: the five required fields and the
/// schema version are there and of their types, and each optional field is
/// absent, null or of its type.
pub open spec fn is_structured(raw: RawView) -> bool {
    &&& size_in(raw.level) is Some
    &&& number_in(raw.time) is Some
    &&& text_in(raw.msg) is Some
    &&& size_in(raw.pid) is Some
    &&& text_in(raw.hostname) is Some
    &&& optional_text_in(raw.type_) is Some
    &&& optional_text_in(raw.stack) is Some
    &&& optional_text_in(raw.errno) is Some
    &&& optional_text_in(raw.syscall) is Some
    &&& optional_text_in(raw.address) is Some
    &&& optional_port_in(raw.port) is Some
    &&& optional_text_in(raw.secret) is Some
    &&& size_in(raw.v) is Some
}

/// The record that the thirteen fields make, if they make one.
pub open spec fn structured(raw: RawView) -> Option<StructuredView> {
    if is_structured(raw) {
        Some(
            StructuredView {
                level: size_in(raw.level)->0,
                time: number_in(raw.time)->0,
                msg: text_in(raw.msg)->0,
                pid: size_in(raw.pid)->0,
                hostname: text_in(raw.hostname)->0,
                type_: optional_text_in(raw.type_)->0,
                stack: optional_text_in(raw.stack)->0,
                errno: optional_text_in(raw.errno)->0,
                syscall: optional_text_in(raw.syscall)->0,
                address: optional_text_in(raw.address)->0,
                port: optional_port_in(raw.port)->0,
                secret: optional_text_in(raw.secret)->0,
                v: size_in(raw.v)->0,
            },
        )
    } else {
        None
    }
}

/// The record that `line` is, if it is one: `line` has to be one JSON object
/// that holds the fields of a record.
pub open spec fn record_of_line(line: Seq<char>) -> Option<StructuredView> {
    match parsed_object(line) {
        Some(fields) => structured(raw_of(fields)),
        None => None,
    }
}

/// One optional text as an extra: the key with the trimmed text where there is
/// a text, nothing where there is none.
pub open spec fn optional_extra(key: Seq<char>, value: Option<Seq<char>>) -> Seq<
    (Seq<char>, Seq<char>),
> {
    match value {
        Some(text) => seq![(key, trimmed(text))],
        None => Seq::empty(),
    }
}

/// The port as an extra, where there is one.
pub open spec fn port_extra(port: Option<u16>) -> Seq<(Seq<char>, Seq<char>)> {
    match port {
        Some(p) => seq![("port"@, decimal(p as nat))],
        None => Seq::empty(),
    }
}

/// The extras of a record in the order in which they are printed: schema
/// version, process, host, then each optional field that is there. Numbers are
/// in decimal, texts are trimmed.
pub open spec fn extras_of(record: StructuredView) -> Seq<(Seq<char>, Seq<char>)> {
    seq![
        ("v"@, decimal(record.v as nat)),
        ("pid"@, decimal(record.pid as nat)),
        ("hostname"@, trimmed(record.hostname)),
    ] + optional_extra("type"@, record.type_) + optional_extra("stack"@, record.stack)
        + optional_extra("errno"@, record.errno) + optional_extra("syscall"@, record.syscall)
        + optional_extra("address"@, record.address) + port_extra(record.port) + optional_extra(
        "secret"@,
        record.secret,
    )
}

/// A structured record in normalized form, with `stamp` for its timestamp: the
/// severity of its level code, no location, its trimmed message, its extras.
pub open spec fn normalized_record(record: StructuredView, stamp: Seq<char>) -> RecordView {
    RecordView {
        severity: severity_of_code(record.level as int),
        timestamp: stamp,
        source_location: None,
        message: trimmed(record.msg),
        extras: Some(extras_of(record)),
    }
}

/// The line that a structured record prints, if the calendar reaches its time.
pub open spec fn structured_line(record: StructuredView) -> Option<Seq<char>> {
    match epoch_timestamp(record.time as int) {
        Some(stamp) => Some(rendered(normalized_record(record, stamp))),
        None => None,
    }
}

/// The number that a required 64-bit field holds.
fn number_of(field: &JsonField) -> (number: Option<u64>)
    ensures
        number == number_in(field@),
{
    match field {
        JsonField::Number(Some(n)) => Some(*n),
        _ => None,
    }
}

/// The number that a required field of the machine's word size holds.
fn size_of(field: &JsonField) -> (number: Option<usize>)
    ensures
        number == size_in(field@),
{
    match field {
        JsonField::Number(Some(n)) => if *n <= usize::MAX as u64 {
            Some(*n as usize)
        } else {
            None
        },
        _ => None,
    }
}

/// The text that a required field holds.
fn text_from(field: JsonField) -> (text: Option<String>)
    ensures
        text_of(text) == text_in(field@),
{
    match field {
        JsonField::Text(s) => Some(s),
        _ => None,
    }
}

/// The text that an optional field holds.
fn optional_text_from(field: JsonField) -> (text: Option<Option<String>>)
    ensures
        match text {
            Some(t) => optional_text_in(field@) == Some(text_of(t)),
            None => optional_text_in(field@) is None,
        },
{
    match field {
        JsonField::Absent => Some(None),
        JsonField::Null => Some(None),
        JsonField::Text(s) => Some(Some(s)),
        _ => None,
    }
}

/// The port that the optional field holds.
fn optional_port_of(field: &JsonField) -> (port: Option<Option<u16>>)
    ensures
        port == optional_port_in(field@),
{
    match field {
        JsonField::Absent => Some(None),
        JsonField::Null => Some(None),
        JsonField::Number(Some(n)) => if *n <= 65535 {
            Some(Some(*n as u16))
        } else {
            None
        },
        _ => None,
    }
}

/// The thirteen fields of a record as `object` holds them.
fn read_raw(object: &serde_json::Map<String, serde_json::Value>) -> (raw: RawRecord)
    ensures
        raw@ == raw_of(object_fields(*object)),
{
    RawRecord {
        level: field(object, "level"),
        time: field(object, "time"),
        msg: field(object, "msg"),
        pid: field(object, "pid"),
        hostname: field(object, "hostname"),
        type_: field(object, "type"),
        stack: field(object, "stack"),
        errno: field(object, "errno"),
        syscall: field(object, "syscall"),
        address: field(object, "address"),
        port: field(object, "port"),
        secret: field(object, "secret"),
        v: field(object, "v"),
    }
}

/// Appends a text under `key` to the extras, trimmed, where there is a text.
fn push_text_extra(extras: &mut Vec<(String, String)>, key: &str, value: &Option<String>)
    ensures
        pairs(final(extras)@) == pairs(old(extras)@) + optional_extra(key@, text_of(*value)),
{
    match value {
        Some(text) => {
            let ghost before = extras@;
            let kept = trim(&chars_of(text.as_str()));
            extras.push((String::from_str(key), string_of(&kept)));
            assert(pairs(extras@) =~= pairs(before) + seq![(key@, trimmed(text@))]);
        },
        None => {
            assert(pairs(extras@) =~= pairs(extras@) + Seq::empty());
        },
    }
}

/// Appends a number under `key` to the extras, in decimal.
fn push_number_extra(extras: &mut Vec<(String, String)>, key: &str, value: u64)
    ensures
        pairs(final(extras)@) == pairs(old(extras)@) + seq![(key@, decimal(value as nat))],
{
    let ghost before = extras@;
    let digits = decimal_of(value);
    extras.push((String::from_str(key), string_of(&digits)));
    assert(pairs(extras@) =~= pairs(before) + seq![(key@, decimal(value as nat))]);
}

impl SipAppJson {
    /// The record that the thirteen fields make: `Some` exactly if the required
    /// fields are there and every field that is there is of its type.
    pub fn from_raw(raw: RawRecord) -> (record: Option<SipAppJson>)
        ensures
            match record {
                Some(r) => structured(raw@) == Some(r@),
                None => structured(raw@) is None,
            },
    {
        let level = match size_of(&raw.level) {
            Some(n) => n,
            None => {
                return None;
            },
        };
        let time = match number_of(&raw.time) {
            Some(n) => n,
            None => {
                return None;
            },
        };
        let pid = match size_of(&raw.pid) {
            Some(n) => n,
            None => {
                return None;
            },
        };
        let port = match optional_port_of(&raw.port) {
            Some(p) => p,
            None => {
                return None;
            },
        };
        let v = match size_of(&raw.v) {
            Some(n) => n,
            None => {
                return None;
            },
        };
        let msg = match text_from(raw.msg) {
            Some(t) => t,
            None => {
                return None;
            },
        };
        let hostname = match text_from(raw.hostname) {
            Some(t) => t,
            None => {
                return None;
            },
        };
        let type_ = match optional_text_from(raw.type_) {
            Some(t) => t,
            None => {
                return None;
            },
        };
        let stack = match optional_text_from(raw.stack) {
            Some(t) => t,
            None => {
                return None;
            },
        };
        let errno = match optional_text_from(raw.errno) {
            Some(t) => t,
            None => {
                return None;
            },
        };
        let syscall = match optional_text_from(raw.syscall) {
            Some(t) => t,
            None => {
                return None;
            },
        };
        let address = match optional_text_from(raw.address) {
            Some(t) => t,
            None => {
                return None;
            },
        };
        let secret = match optional_text_from(raw.secret) {
            Some(t) => t,
            None => {
                return None;
            },
        };
        Some(
            SipAppJson {
                level,
                time,
                msg,
                pid,
                hostname,
                type_,
                stack,
                errno,
                syscall,
                address,
                port,
                secret,
                v,
            },
        )
    }

    /// Reads `line` as a structured record: `Some` exactly if serde_json reads
    /// one JSON object out of `line` and the object holds the fields of a record.
    pub fn try_parse(line: &str) -> (record: Option<SipAppJson>)
        ensures
            match record {
                Some(r) => record_of_line(line@) == Some(r@),
                None => record_of_line(line@) is None,
            },
    {
        match parse_object(line) {
            Some(object) => SipAppJson::from_raw(read_raw(&object)),
            None => None,
        }
    }

    /// The extras of the record in the order in which they are printed.
    pub fn extras(&self) -> (extras: Vec<(String, String)>)
        ensures
            pairs(extras@) == extras_of(self@),
    {
        let mut extras: Vec<(String, String)> = Vec::new();
        assert(pairs(extras@) =~= Seq::empty());
        push_number_extra(&mut extras, "v", self.v as u64);
        push_number_extra(&mut extras, "pid", self.pid as u64);
        let host = trim(&chars_of(self.hostname.as_str()));
        let ghost before = extras@;
        extras.push((String::from_str("hostname"), string_of(&host)));
        assert(pairs(extras@) =~= pairs(before).push(("hostname"@, trimmed(self.hostname@))));
        assert(pairs(extras@) =~= seq![
            ("v"@, decimal(self.v as nat)),
            ("pid"@, decimal(self.pid as nat)),
            ("hostname"@, trimmed(self.hostname@)),
        ]);
        push_text_extra(&mut extras, "type", &self.type_);
        push_text_extra(&mut extras, "stack", &self.stack);
        push_text_extra(&mut extras, "errno", &self.errno);
        push_text_extra(&mut extras, "syscall", &self.syscall);
        push_text_extra(&mut extras, "address", &self.address);
        match self.port {
            Some(p) => {
                push_number_extra(&mut extras, "port", p as u64);
            },
            None => {
                assert(pairs(extras@) =~= pairs(extras@) + Seq::empty());
            },
        }
        push_text_extra(&mut extras, "secret", &self.secret);
        extras
    }

    /// The record in normalized form, with `stamp` for its timestamp.
    pub fn normalized(&self, stamp: String) -> (record: NormalizedRecord)
        ensures
            record@ == normalized_record(self@, stamp@),
    {
        let message = trim(&chars_of(self.msg.as_str()));
        NormalizedRecord {
            severity: classify_numeric(self.level),
            timestamp: stamp,
            source_location: None,
            message: string_of(&message),
            extras: Some(self.extras()),
        }
    }

    /// The line that the record prints: `Some` exactly if the calendar reaches
    /// the record's time.
    pub fn custom_print(&self) -> (printed: Option<String>)
        ensures
            match printed {
                Some(line) => structured_line(self@) == Some(line@),
                None => structured_line(self@) is None,
            },
    {
        match timestamp_of_millis(self.time) {
            Some(stamp) => Some(render(&self.normalized(stamp))),
            None => None,
        }
    }
}

} // verus!
