//! Text as a JSON string literal, which is how a byte buffer is shown in a trace line.

use vstd::prelude::*;
use crate::escape::is_printable_text;
use crate::numeral::Radix;

verus! {

/// How a JSON string literal shows one character: a backslash before `"` and `\`, the short
/// escapes for backspace, tab, line feed, form feed and carriage return, `\u00` and two
/// lower-case hex digits for the other characters below U+0020, and any other character as
/// itself.
pub open spec fn json_char(c: char) -> Seq<char> {
    if c == '"' {
        seq!['\\', '"']
    } else if c == '\\' {
        seq!['\\', '\\']
    } else if c as nat == 0x08 {
        seq!['\\', 'b']
    } else if c as nat == 0x09 {
        seq!['\\', 't']
    } else if c as nat == 0x0a {
        seq!['\\', 'n']
    } else if c as nat == 0x0c {
        seq!['\\', 'f']
    } else if c as nat == 0x0d {
        seq!['\\', 'r']
    } else if (c as nat) < 0x20 {
        seq![
            '\\',
            'u',
            '0',
            '0',
            Radix::LowerHex.digit(c as nat / 16),
            Radix::LowerHex.digit(c as nat % 16),
        ]
    } else {
        seq![c]
    }
}

/// The inside of a JSON string literal: each character as `json_char` shows it.
pub open spec fn json_chars(text: Seq<char>) -> Seq<char>
    decreases text.len(),
{
    if text.len() == 0 {
        Seq::empty()
    } else {
        json_chars(text.drop_last()) + json_char(text.last())
    }
}

/// The JSON string literal for `text`, with its double quotes.
pub open spec fn json_string(text: Seq<char>) -> Seq<char> {
    seq!['"'] + json_chars(text) + seq!['"']
}

/// Makes a `serde_json::Value::String` of the text and shows it with the value's `Display`,
/// which is serde_json's compact writer. The contract claims what that writer's escape table
/// gives for a string: the literal described by `json_string`. Not proved here.
#[verifier::external_body]
pub(crate) fn json_quoted(text: &str) -> (quoted: String)
    ensures
        quoted@ == json_string(text@),
{
    serde_json::Value::String(text.to_owned()).to_string()
}

/// The inside of a literal is made character by character: that of a concatenation is the
/// concatenation of those of its parts.
pub proof fn lemma_json_chars_concat(a: Seq<char>, b: Seq<char>)
    ensures
        json_chars(a + b) == json_chars(a) + json_chars(b),
    decreases b.len(),
{
    if b.len() == 0 {
        assert(a + b =~= a);
    } else {
        lemma_json_chars_concat(a, b.drop_last());
        assert((a + b).drop_last() =~= a + b.drop_last());
        assert((a + b).last() == b.last());
    }
}

/// The literal of a text of printable ASCII characters holds printable ASCII characters only.
pub proof fn lemma_json_string_is_printable(text: Seq<char>)
    requires
        is_printable_text(text),
    ensures
        is_printable_text(json_string(text)),
{
    lemma_json_chars_are_printable(text);
}

proof fn lemma_json_chars_are_printable(text: Seq<char>)
    requires
        is_printable_text(text),
    ensures
        is_printable_text(json_chars(text)),
    decreases text.len(),
{
    if text.len() > 0 {
        lemma_json_chars_are_printable(text.drop_last());
        assert(0x20 <= text[text.len() - 1] as nat <= 0x7e);
    }
}

} // verus!
