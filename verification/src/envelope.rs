//! The envelope in which every event leaves: a label and the payload, and
//! the text that goes over the wire for it.
//!
//! The payload is held as the JSON text that it was rendered to. The
//! envelope adds the label around it.

use crate::error::StreamError;
use vstd::prelude::*;
use vstd::string::*;

verus! {

/// Whether a path separator, two colons, starts at position `i` of `text`.
pub open spec fn separator_at(text: Seq<char>, i: int) -> bool {
    0 <= i && i + 1 < text.len() && text[i] == ':' && text[i + 1] == ':'
}

/// The end of the last path separator that ends at or before `upto`, or 0
/// where there is none: the place where the last segment of a path starts.
pub open spec fn last_segment_start(text: Seq<char>, upto: int) -> int
    decreases upto,
{
    if upto < 2 {
        0
    } else if separator_at(text, upto - 2) {
        upto
    } else {
        last_segment_start(text, upto - 1)
    }
}

/// The name of a type without the modules in front of it: what follows the
/// last `::` of its path, or the whole path where it has none.
pub open spec fn short_name(path: Seq<char>) -> Seq<char> {
    path.subrange(last_segment_start(path, path.len() as int), path.len() as int)
}

/// The last segment starts within the text, and no separator starts at or
/// after it.
pub proof fn lemma_last_segment_start(text: Seq<char>, upto: int)
    requires
        0 <= upto <= text.len(),
    ensures
        0 <= last_segment_start(text, upto) <= upto,
        last_segment_start(text, upto) == 0 || separator_at(
            text,
            last_segment_start(text, upto) - 2,
        ),
        forall|i: int|
            last_segment_start(text, upto) - 1 <= i && i + 2 <= upto ==> !separator_at(text, i),
    decreases upto,
{
    if upto >= 2 && !separator_at(text, upto - 2) {
        lemma_last_segment_start(text, upto - 1);
    }
}

/// Strips the modules off the path of a type.
pub fn short_type_name(path: &str) -> (r: String)
    ensures
        r@ == short_name(path@),
{
    let len = path.unicode_len();
    let mut end: usize = len;
    while end >= 2
        invariant
            end <= len,
            len == path@.len(),
            last_segment_start(path@, len as int) == last_segment_start(path@, end as int),
        decreases end,
    {
        if path.get_char(end - 2) == ':' && path.get_char(end - 1) == ':' {
            proof {
                lemma_last_segment_start(path@, len as int);
            }
            return path.substring_char(end, len).to_owned();
        }
        end = end - 1;
    }
    proof {
        assert(path@.subrange(0, len as int) =~= path@);
    }
    path.to_owned()
}

/// A payload with the label that tells its kind.
#[derive(Clone, Debug)]
pub struct StreamEnvelope {
    /// The label: the `type` of the wire format.
    pub data_type: String,
    /// The payload as JSON text: the `data` of the wire format.
    pub data: String,
}

/// The JSON string literal for a text, quotes and escapes included, as
/// serde_json writes it.
pub uninterp spec fn json_string_literal(text: Seq<char>) -> Seq<char>;

/// Whether a text holds no character that a JSON string escapes: no
/// control character, no quotation mark and no backslash.
pub open spec fn needs_no_escape(text: Seq<char>) -> bool {
    forall|i: int|
        0 <= i < text.len() ==> (#[trigger] text[i]) as u32 >= 0x20 && text[i] != '"' && text[i]
            != '\\'
}

/// A text between two quotation marks.
pub open spec fn in_quotes(text: Seq<char>) -> Seq<char> {
    "\""@ + text + "\""@
}

/// The wire text of an envelope: an object with the quoted label under
/// `type` and the payload, as it is, under `data`.
pub open spec fn envelope_json(quoted_label: Seq<char>, data: Seq<char>) -> Seq<char> {
    "{\"type\":"@ + quoted_label + ",\"data\":"@ + data + "}"@
}

/// Whether `text` is the wire text of `data` under `label`: the label as
/// a JSON string literal, which for a label without characters to escape is
/// the label between quotation marks, and the payload as it is.
pub open spec fn is_envelope_text(label: Seq<char>, data: Seq<char>, text: Seq<char>) -> bool {
    &&& text == envelope_json(json_string_literal(label), data)
    &&& needs_no_escape(label) ==> text == envelope_json(in_quotes(label), data)
}

#[verifier::external_type_specification]
#[verifier::external_body]
pub struct ExJsonError(serde_json::Error);

/// `serde_json::to_string` on a string slice: the text as a JSON string
/// literal. It never fails on a text: it writes into memory, and only a
/// failing writer makes it fail. It escapes control characters, the
/// quotation mark and the backslash, and writes every other character as
/// it is.
#[verifier::external_body]
fn json_quote(text: &str) -> (r: Result<String, serde_json::Error>)
    ensures
        r is Ok,
        r matches Ok(quoted) ==> quoted@ == json_string_literal(text@),
        r matches Ok(quoted) ==> (needs_no_escape(text@) ==> quoted@ == in_quotes(text@)),
{
    serde_json::to_string(text)
}

/// The words of a serde_json error, as its `Display` gives them.
#[verifier::external_body]
fn json_error_text(error: &serde_json::Error) -> (r: String) {
    error.to_string()
}

/// Puts a payload between its quoted label and the closing brace, or turns
/// the failure to quote the label into the error of the send.
pub fn frame_envelope(quoted_label: Result<String, String>, data: &str) -> (r: Result<
    String,
    StreamError,
>)
    ensures
        match quoted_label {
            Ok(quoted) => r matches Ok(text) && text@ == envelope_json(quoted@, data@),
            Err(cause) => r matches Err(error) && error.reason() == StreamError::serialization(
                cause@,
            ),
        },
{
    match quoted_label {
        Ok(quoted) => {
            let mut text = String::from_str("{\"type\":");
            text.append(quoted.as_str());
            text.append(",\"data\":");
            text.append(data);
            text.append("}");
            Ok(text)
        },
        Err(cause) => Err(StreamError::failed_to_serialize(cause.as_str())),
    }
}

impl StreamEnvelope {
    /// Whether `text` is the wire text of the envelope.
    pub open spec fn is_wire_text(self, text: Seq<char>) -> bool {
        is_envelope_text(self.data_type@, self.data@, text)
    }

    /// The envelope of a payload under the given label.
    pub fn new(data_type: &str, data: String) -> (r: StreamEnvelope)
        ensures
            r.data_type@ == data_type@,
            r.data == data,
    {
        StreamEnvelope { data_type: data_type.to_owned(), data }
    }

    /// The envelope of a payload under the name of its type, taken from
    /// the type's path.
    pub fn from_type_name(type_path: &str, data: String) -> (r: StreamEnvelope)
        ensures
            r.data_type@ == short_name(type_path@),
            r.data == data,
    {
        StreamEnvelope { data_type: short_type_name(type_path), data }
    }

    /// Renders the envelope to its wire text. The payload is JSON text
    /// already and the label is quoted by serde_json, which refuses no
    /// text: every envelope is rendered.
    pub fn to_json(&self) -> (r: Result<String, StreamError>)
        ensures
            r matches Ok(text) && self.is_wire_text(text@),
    {
        let quoted = match json_quote(self.data_type.as_str()) {
            Ok(quoted) => Ok(quoted),
            Err(error) => Err(json_error_text(&error)),
        };
        frame_envelope(quoted, self.data.as_str())
    }
}

} // verus!
