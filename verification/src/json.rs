//! JSON values and JSON text, as `serde_json` has them.
use serde_json::Value;
use vstd::prelude::*;

use crate::string_map::Deep;

verus! {

/// `serde_json::Value`, any JSON value. The library carries such values and
/// never looks inside one.
#[verifier::external_type_specification]
#[verifier::external_body]
pub struct ExValue(serde_json::Value);

/// `serde_json::Error`, what `serde_json` reports when it cannot write text.
#[verifier::external_type_specification]
#[verifier::external_body]
pub struct ExJsonError(serde_json::Error);

/// `<serde_json::Value as Clone>::clone`: the copy is the same JSON value.
pub assume_specification[ <serde_json::Value as Clone>::clone ](value: &serde_json::Value) -> (copy:
    serde_json::Value)
    ensures
        copy == *value,
;

impl Deep for Value {
    type Model = Value;

    open spec fn model(&self) -> Value {
        *self
    }

    fn duplicate(&self) -> (copy: Self) {
        self.clone()
    }
}

/// The lower-case hexadecimal digit of a number below sixteen.
pub open spec fn hex_digit(n: int) -> char {
    if n < 10 {
        (('0' as int) + n) as char
    } else {
        (('a' as int) + n - 10) as char
    }
}

/// A character as it stands inside a JSON string.
pub open spec fn json_char(c: char) -> Seq<char> {
    if c == '"' {
        seq!['\\', '"']
    } else if c == '\\' {
        seq!['\\', '\\']
    } else if c == '\u{8}' {
        seq!['\\', 'b']
    } else if c == '\t' {
        seq!['\\', 't']
    } else if c == '\n' {
        seq!['\\', 'n']
    } else if c == '\u{c}' {
        seq!['\\', 'f']
    } else if c == '\r' {
        seq!['\\', 'r']
    } else if (c as int) < 0x20 {
        seq!['\\', 'u', '0', '0', hex_digit(c as int / 16), hex_digit(c as int % 16)]
    } else {
        seq![c]
    }
}

/// The characters of `text` as they stand inside a JSON string.
pub open spec fn json_chars(text: Seq<char>) -> Seq<char>
    decreases text.len(),
{
    if text.len() == 0 {
        Seq::empty()
    } else {
        json_chars(text.drop_last()) + json_char(text.last())
    }
}

/// The JSON string that stands for `text`.
pub open spec fn json_string(text: Seq<char>) -> Seq<char> {
    seq!['"'] + json_chars(text) + seq!['"']
}

/// Whether a character stands for itself inside a JSON string.
pub open spec fn json_plain(c: char) -> bool {
    c != '"' && c != '\\' && c as int >= 0x20
}

/// `serde_json::to_string` on text: it succeeds, and gives the text in double
/// quotes, with the quote, the backslash and the control characters escaped.
#[verifier::external_body]
pub(crate) fn text_to_json(text: &str) -> (json: Result<String, serde_json::Error>)
    ensures
        json is Ok,
        json->Ok_0@ == json_string(text@),
{
    serde_json::to_string(text)
}

/// Text without quotes, backslashes and control characters stands in JSON as
/// it is, between double quotes.
pub proof fn plain_text_is_only_quoted(text: Seq<char>)
    requires
        forall|i: int| 0 <= i < text.len() ==> json_plain(#[trigger] text[i]),
    ensures
        json_string(text) == seq!['"'] + text + seq!['"'],
{
    lemma_plain_chars(text);
}

proof fn lemma_plain_chars(text: Seq<char>)
    requires
        forall|i: int| 0 <= i < text.len() ==> json_plain(#[trigger] text[i]),
    ensures
        json_chars(text) == text,
    decreases text.len(),
{
    if text.len() > 0 {
        let front = text.drop_last();
        assert forall|i: int| 0 <= i < front.len() implies json_plain(#[trigger] front[i]) by {
            assert(front[i] == text[i]);
        }
        lemma_plain_chars(front);
        assert(json_plain(text[text.len() - 1]));
    }
    assert(json_chars(text) =~= text);
}

} // verus!
