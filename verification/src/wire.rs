//! Structured edit messages as they arrive: JSON text, decoded by the
//! `json` crate, and the fields that an edit is read from.
//!
//! The decoded value stays opaque here.  What the crate's accessors give for
//! it is named by the uninterpreted functions below, and everything else in
//! this module is stated over those names.

use crate::document::{Payload, PayloadModel};
use json::JsonValue;
use vstd::prelude::*;
use vstd::string::StringExecFns;
use vstd::utf8::encode_utf8;

verus! {

/// A decoded JSON value of the `json` crate.  Nothing of its inside is known
/// here.
#[verifier::external_type_specification]
#[verifier::external_body]
pub struct ExJsonValue(json::JsonValue);

/// The error of `json::parse`.  Nothing of its inside is known here.
#[verifier::external_type_specification]
#[verifier::external_body]
pub struct ExJsonError(json::Error);

/// The value that `json::parse` decodes from a text, if it decodes one.
pub uninterp spec fn parsed(text: Seq<char>) -> Option<JsonValue>;

/// What indexing a value by a key gives: the member of that name for an
/// object that has one, the null value in every other case.
pub uninterp spec fn member_of(value: JsonValue, key: Seq<char>) -> JsonValue;

/// What `JsonValue::as_usize` gives: the number of a value that is held as
/// a number with a positive sign and without a decimal exponent, and that
/// fits; nothing for any other value.
pub uninterp spec fn count_of(value: JsonValue) -> Option<usize>;

/// What `JsonValue::as_str` gives: the text of a value that is a string.
pub uninterp spec fn text_of(value: JsonValue) -> Option<Seq<char>>;

/// What `JsonValue::dump` gives: the value written out as compact JSON.
pub uninterp spec fn dump_of(value: JsonValue) -> Seq<char>;

/// One more than the longest run of decimal digits that a text may hold to
/// be handed to the decoder.
pub const DIGIT_RUN_LIMIT: usize = 32768;

/// `b` is an ASCII decimal digit.
pub open spec fn is_digit(b: u8) -> bool {
    48 <= b <= 57
}

/// The number of decimal digits that stand directly before position `end`.
pub open spec fn digit_run(bytes: Seq<u8>, end: int) -> nat
    decreases end,
{
    if 0 < end <= bytes.len() && is_digit(bytes[end - 1]) {
        1 + digit_run(bytes, end - 1)
    } else {
        0
    }
}

/// No run of decimal digits in `bytes` reaches [`DIGIT_RUN_LIMIT`].
pub open spec fn digit_runs_short(bytes: Seq<u8>) -> bool {
    forall|end: int| 0 <= end <= bytes.len() ==> #[trigger] digit_run(bytes, end) < DIGIT_RUN_LIMIT
}

/// `json::parse`.  It decodes a whole text or gives an error; the same text
/// always decodes to the same value.  The decoder counts the digits of a
/// fraction down from zero in a signed 16-bit number and does not guard the
/// subtraction, so a text with a run of digits that could bring it below
/// the least such number is kept away from it.
pub assume_specification[ json::parse ](source: &str) -> (r: json::Result<JsonValue>)
    requires
        digit_runs_short(encode_utf8(source@)),
    ensures
        r is Ok <==> parsed(source@) is Some,
        r is Ok ==> parsed(source@) == Some(r->Ok_0),
;

/// `JsonValue::as_usize`.  It reads the value and leaves it alone; the
/// result depends on the value only.
pub assume_specification[ json::JsonValue::as_usize ](value: &JsonValue) -> (r: Option<usize>)
    ensures
        r == count_of(*value),
;

/// `JsonValue::as_str`.  It hands out the text of a string value, and
/// nothing for any other value.
pub assume_specification<'a>[ json::JsonValue::as_str ](value: &'a JsonValue) -> (r: Option<
    &'a str,
>)
    ensures
        r is Some <==> text_of(*value) is Some,
        r is Some ==> text_of(*value) == Some(r->Some_0@),
;

/// `JsonValue::dump`.  It writes the value out as JSON text; the result
/// depends on the value only.
pub assume_specification[ json::JsonValue::dump ](value: &JsonValue) -> (r: String)
    ensures
        r@ == dump_of(*value),
;

/// Indexing a `JsonValue` by `&str`: a reference to the member of that name,
/// or to the crate's null value where the value is no object or has no such
/// member.  It never fails.
#[verifier::external_body]
fn member<'a>(value: &'a JsonValue, key: &str) -> (r: &'a JsonValue)
    ensures
        *r == member_of(*value, key@),
{
    &value[key]
}

/// Tells whether every run of decimal digits in `text` is shorter than
/// [`DIGIT_RUN_LIMIT`].
pub fn has_short_digit_runs(text: &str) -> (r: bool)
    ensures
        r == digit_runs_short(encode_utf8(text@)),
{
    let bytes = text.as_bytes();
    let mut run: usize = 0;
    let mut i: usize = 0;
    while i < bytes.len()
        invariant
            bytes@ == encode_utf8(text@),
            i <= bytes.len(),
            run == digit_run(bytes@, i as int),
            run < DIGIT_RUN_LIMIT,
            forall|end: int| 0 <= end <= i ==> #[trigger] digit_run(bytes@, end) < DIGIT_RUN_LIMIT,
        decreases bytes.len() - i,
    {
        let b = bytes[i];
        if 48 <= b && b <= 57 {
            run = run + 1;
        } else {
            run = 0;
        }
        i = i + 1;
        assert(run == digit_run(bytes@, i as int));
        if run >= DIGIT_RUN_LIMIT {
            return false;
        }
    }
    true
}

/// The value that a text decodes to: what the decoder gives for it, and
/// nothing for a text with a run of digits too long to hand over.
pub open spec fn decoded(text: Seq<char>) -> Option<JsonValue> {
    if digit_runs_short(encode_utf8(text)) {
        parsed(text)
    } else {
        None
    }
}

/// Decodes a JSON text.
pub fn decode(text: &str) -> (r: Option<JsonValue>)
    ensures
        r == decoded(text@),
{
    if !has_short_digit_runs(text) {
        return None;
    }
    match json::parse(text) {
        Ok(value) => Some(value),
        Err(_) => None,
    }
}

/// The fields of a decoded message that an edit is read from.
#[derive(Clone, Debug, PartialEq, Eq)]
pub struct EditMessage {
    /// The field `type`, where it is a count.
    pub opcode: Option<usize>,
    /// The field `target`, where it is a count.
    pub target: Option<usize>,
    /// The field `nid`, where it is a count.
    pub nid: Option<usize>,
    /// The field `index`, where it is a count.
    pub index: Option<usize>,
    /// The field `child`, where it has one of the shapes of a payload.
    pub child: Option<Payload>,
    /// The field `data`, written out as JSON.
    pub data: String,
}

/// What an [`EditMessage`] stands for.
pub struct EditMessageModel {
    pub opcode: Option<nat>,
    pub target: Option<nat>,
    pub nid: Option<nat>,
    pub index: Option<nat>,
    pub child: Option<PayloadModel>,
    pub data: Seq<char>,
}

/// A count as a natural number.
pub open spec fn count_model(count: Option<usize>) -> Option<nat> {
    match count {
        Some(n) => Some(n as nat),
        None => None,
    }
}

impl View for EditMessage {
    type V = EditMessageModel;

    open spec fn view(&self) -> EditMessageModel {
        EditMessageModel {
            opcode: count_model(self.opcode),
            target: count_model(self.target),
            nid: count_model(self.nid),
            index: count_model(self.index),
            child: match self.child {
                Some(payload) => Some(payload@),
                None => None,
            },
            data: self.data@,
        }
    }
}

/// The payload that a `child` field describes: a string is the content of a
/// text node; else a string under `html` is the tag of an element; else a
/// string under `doctype` is the name of a doctype.  Any other value
/// describes nothing.
pub open spec fn payload_of(child: JsonValue) -> Option<PayloadModel> {
    if text_of(child) is Some {
        Some(PayloadModel::Text(text_of(child)->Some_0))
    } else if text_of(member_of(child, "html"@)) is Some {
        Some(PayloadModel::Html(text_of(member_of(child, "html"@))->Some_0))
    } else if text_of(member_of(child, "doctype"@)) is Some {
        Some(PayloadModel::Doctype(text_of(member_of(child, "doctype"@))->Some_0))
    } else {
        None
    }
}

/// The fields of a decoded message.
pub open spec fn message_of(msg: JsonValue) -> EditMessageModel {
    EditMessageModel {
        opcode: count_model(count_of(member_of(msg, "type"@))),
        target: count_model(count_of(member_of(msg, "target"@))),
        nid: count_model(count_of(member_of(msg, "nid"@))),
        index: count_model(count_of(member_of(msg, "index"@))),
        child: payload_of(member_of(msg, "child"@)),
        data: dump_of(member_of(msg, "data"@)),
    }
}

/// Reads the payload that a `child` field describes.
pub fn read_payload(child: &JsonValue) -> (r: Option<Payload>)
    ensures
        match r {
            Some(payload) => payload_of(*child) == Some(payload@),
            None => payload_of(*child) is None,
        },
{
    if let Some(content) = child.as_str() {
        return Some(Payload::Text(String::from_str(content)));
    }
    if let Some(tag) = member(child, "html").as_str() {
        return Some(Payload::Html(String::from_str(tag)));
    }
    if let Some(name) = member(child, "doctype").as_str() {
        return Some(Payload::Doctype(String::from_str(name)));
    }
    None
}

/// Reads the fields of a decoded message.
pub fn read_edit(msg: &JsonValue) -> (r: EditMessage)
    ensures
        r@ == message_of(*msg),
{
    EditMessage {
        opcode: member(msg, "type").as_usize(),
        target: member(msg, "target").as_usize(),
        nid: member(msg, "nid").as_usize(),
        index: member(msg, "index").as_usize(),
        child: read_payload(member(msg, "child")),
        data: member(msg, "data").dump(),
    }
}

} // verus!
