//! Bytes read from a traced process, turned into text that is safe to show.

use vstd::prelude::*;
use crate::numeral::Radix;

verus! {

/// Whether a byte is a printable ASCII character.
pub open spec fn is_printable(b: u8) -> bool {
    0x20 <= b <= 0x7e
}

/// How one byte is shown: a backslash is doubled, any other printable ASCII byte stands for
/// itself, and every other byte becomes `\x` followed by its two lower-case hex digits.
pub open spec fn escape_byte(b: u8) -> Seq<char> {
    if b == 0x5c {
        seq!['\\', '\\']
    } else if is_printable(b) {
        seq![b as char]
    } else {
        seq!['\\', 'x', Radix::LowerHex.digit(b as nat / 16), Radix::LowerHex.digit(b as nat % 16)]
    }
}

/// The escaped form of a byte string: the escaped bytes, one after the other.
pub open spec fn escape_bytes(bytes: Seq<u8>) -> Seq<char>
    decreases bytes.len(),
{
    if bytes.len() == 0 {
        Seq::empty()
    } else {
        escape_bytes(bytes.drop_last()) + escape_byte(bytes.last())
    }
}

/// Escapes a byte buffer for display.
pub fn escape_to_string(buf: &Vec<u8>) -> (text: String)
    ensures
        text@ == escape_bytes(buf@),
{
    let mut text = String::new();
    let mut i: usize = 0;
    while i < buf.len()
        invariant
            i <= buf.len(),
            text@ == escape_bytes(buf@.take(i as int)),
        decreases buf.len() - i,
    {
        let b = buf[i];
        proof {
            assert(buf@.take(i + 1).drop_last() =~= buf@.take(i as int));
        }
        if b == 0x5c {
            text.push('\\');
            text.push('\\');
        } else if 0x20 <= b && b <= 0x7e {
            text.push(b as char);
        } else {
            text.push('\\');
            text.push('x');
            text.push(Radix::LowerHex.exec_digit(b / 16));
            text.push(Radix::LowerHex.exec_digit(b % 16));
        }
        i += 1;
    }
    proof {
        assert(buf@.take(buf.len() as int) =~= buf@);
    }
    text
}

/// Escaping goes byte by byte: the escaped form of a concatenation is the concatenation of
/// the escaped forms.
pub proof fn lemma_escape_concat(a: Seq<u8>, b: Seq<u8>)
    ensures
        escape_bytes(a + b) == escape_bytes(a) + escape_bytes(b),
    decreases b.len(),
{
    if b.len() == 0 {
        assert(a + b =~= a);
    } else {
        lemma_escape_concat(a, b.drop_last());
        assert((a + b).drop_last() =~= a + b.drop_last());
        assert((a + b).last() == b.last());
    }
}

/// Whether every character of a text is a printable ASCII character.
pub open spec fn is_printable_text(text: Seq<char>) -> bool {
    forall|i: int| 0 <= i < text.len() ==> 0x20 <= #[trigger] text[i] as nat <= 0x7e
}

/// Escaped text is safe to show: whatever the bytes are, it holds printable ASCII characters
/// only.
pub proof fn lemma_escape_is_printable(bytes: Seq<u8>)
    ensures
        is_printable_text(escape_bytes(bytes)),
    decreases bytes.len(),
{
    if bytes.len() > 0 {
        lemma_escape_is_printable(bytes.drop_last());
    }
}

/// Whether a byte is shown as itself: printable, and no backslash.
pub open spec fn is_plain(b: u8) -> bool {
    is_printable(b) && b != 0x5c
}

/// Text that needs no escaping passes through unchanged: where every byte is printable and
/// none is a backslash, the escaped form is the bytes themselves, read as characters.
pub proof fn lemma_escape_plain(bytes: Seq<u8>)
    requires
        forall|i: int| 0 <= i < bytes.len() ==> is_plain(#[trigger] bytes[i]),
    ensures
        escape_bytes(bytes) == bytes.map_values(|b: u8| b as char),
    decreases bytes.len(),
{
    if bytes.len() > 0 {
        lemma_escape_plain(bytes.drop_last());
        assert(is_plain(bytes[bytes.len() - 1]));
    }
    assert(escape_bytes(bytes) =~= bytes.map_values(|b: u8| b as char));
}

/// Escaping has no hidden state: whatever two runs on the same bytes return is the same text.
pub proof fn lemma_escape_repeatable(a: Seq<u8>, b: Seq<u8>)
    requires
        a =~= b,
    ensures
        escape_bytes(a) == escape_bytes(b),
{
}

/// The digit value of a lower-case hex digit.
pub open spec fn hex_value(c: char) -> nat {
    if '0' as nat <= c as nat <= '9' as nat {
        (c as nat - '0' as nat) as nat
    } else {
        (c as nat - 'a' as nat + 10) as nat
    }
}

/// The bytes that an escaped text stands for, read from its start: a doubled backslash is a
/// backslash, `\x` and two hex digits are the byte of that value, and any other character is
/// the byte of its code. Whatever follows a backslash that begins neither is left unread.
pub open spec fn unescape(text: Seq<char>) -> Seq<u8>
    decreases text.len(),
{
    if text.len() == 0 {
        Seq::empty()
    } else if text[0] != '\\' {
        seq![text[0] as u8] + unescape(text.skip(1))
    } else if text.len() >= 2 && text[1] == '\\' {
        seq![0x5cu8] + unescape(text.skip(2))
    } else if text.len() >= 4 && text[1] == 'x' {
        seq![(hex_value(text[2]) * 16 + hex_value(text[3])) as u8] + unescape(text.skip(4))
    } else {
        Seq::empty()
    }
}

/// Escaping loses nothing: the bytes can be read back from their escaped text.
pub proof fn lemma_escape_round_trip(bytes: Seq<u8>)
    ensures
        unescape(escape_bytes(bytes)) == bytes,
    decreases bytes.len(),
{
    if bytes.len() > 0 {
        let first = bytes[0];
        let rest = bytes.skip(1);
        let head = escape_byte(first);
        let tail = escape_bytes(rest);
        assert(escape_bytes(seq![first]) =~= head) by {
            assert(seq![first].drop_last() =~= Seq::<u8>::empty());
            reveal_with_fuel(escape_bytes, 2);
        }
        assert(bytes =~= seq![first] + rest);
        lemma_escape_concat(seq![first], rest);
        lemma_escape_round_trip(rest);
        assert((head + tail).skip(head.len() as int) =~= tail);
        assert(unescape(head + tail) =~= seq![first] + unescape(tail));
    }
}

/// Two buffers with the same escaped text hold the same bytes.
pub proof fn lemma_escape_injective(a: Seq<u8>, b: Seq<u8>)
    requires
        escape_bytes(a) == escape_bytes(b),
    ensures
        a == b,
{
    lemma_escape_round_trip(a);
    lemma_escape_round_trip(b);
}

} // verus!
