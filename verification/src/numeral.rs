//! Integers written out as text: decimal and hexadecimal numerals, and padding to a width.

use vstd::prelude::*;

verus! {

/// `String::push` appends the character and changes nothing else.
pub assume_specification[ String::push ](s: &mut String, ch: char)
    ensures
        final(s)@ == old(s)@.push(ch),
;

/// The notation of an unsigned numeral.
#[derive(Debug, Copy, Clone, PartialEq, Eq, Structural)]
pub enum Radix {
    /// Base ten.
    Decimal,
    /// Base sixteen with the digits `a` to `f`.
    LowerHex,
    /// Base sixteen with the digits `A` to `F`.
    UpperHex,
}

impl Radix {
    /// The base of the notation.
    pub open spec fn base(self) -> nat {
        match self {
            Radix::Decimal => 10,
            Radix::LowerHex => 16,
            Radix::UpperHex => 16,
        }
    }

    /// The character that stands for the digit value `d`.
    pub open spec fn digit(self, d: nat) -> char
        recommends
            d < self.base(),
    {
        if d < 10 {
            ('0' as nat + d) as char
        } else if self == Radix::UpperHex {
            ('A' as nat + (d - 10)) as char
        } else {
            ('a' as nat + (d - 10)) as char
        }
    }

    /// The base as a machine integer.
    pub(crate) fn exec_base(self) -> (base: u128)
        ensures
            base == self.base(),
    {
        match self {
            Radix::Decimal => 10,
            Radix::LowerHex => 16,
            Radix::UpperHex => 16,
        }
    }

    /// The character for one digit value.
    pub(crate) fn exec_digit(self, d: u8) -> (c: char)
        requires
            d < self.base(),
        ensures
            c == self.digit(d as nat),
    {
        if d < 10 {
            (0x30u8 + d) as char
        } else {
            match self {
                Radix::UpperHex => (0x41u8 + (d - 10)) as char,
                _ => (0x61u8 + (d - 10)) as char,
            }
        }
    }
}

/// The numeral of `n` in the given notation: most significant digit first, no leading zeros,
/// and the single digit `0` for zero.
pub open spec fn numeral(n: nat, radix: Radix) -> Seq<char>
    decreases n,
{
    if n < radix.base() {
        seq![radix.digit(n)]
    } else {
        numeral(n / radix.base(), radix).push(radix.digit(n % radix.base()))
    }
}

/// The decimal numeral of a signed integer, with a leading `-` below zero.
pub open spec fn decimal(v: int) -> Seq<char> {
    if v < 0 {
        seq!['-'] + numeral((-v) as nat, Radix::Decimal)
    } else {
        numeral(v as nat, Radix::Decimal)
    }
}

/// A number as a hexadecimal literal: `0x` and then its numeral, which has the case of the
/// notation. The `x` is in lower case whatever the notation.
pub open spec fn hex_literal(n: nat, radix: Radix) -> Seq<char> {
    seq!['0', 'x'] + numeral(n, radix)
}

/// A text set flush right in a field of the given width: blanks in front of it where it is
/// shorter, and the text as it is where it is not.
pub open spec fn right_aligned(text: Seq<char>, width: nat) -> Seq<char> {
    if text.len() < width {
        Seq::new((width - text.len()) as nat, |i: int| ' ') + text
    } else {
        text
    }
}

/// Appends the numeral of `n` to `out`.
pub fn push_numeral(out: &mut String, n: u128, radix: Radix)
    ensures
        final(out)@ == old(out)@ + numeral(n as nat, radix),
    decreases n,
{
    let base = radix.exec_base();
    if n >= base {
        push_numeral(out, n / base, radix);
    }
    let d: u8 = (n % base) as u8;
    out.push(radix.exec_digit(d));
}

/// Appends the decimal numeral of `v` to `out`.
pub fn push_decimal(out: &mut String, v: i64)
    ensures
        final(out)@ == old(out)@ + decimal(v as int),
{
    if v < 0 {
        out.push('-');
        let magnitude: u128 = (-(v as i128)) as u128;
        push_numeral(out, magnitude, Radix::Decimal);
    } else {
        push_numeral(out, v as u128, Radix::Decimal);
    }
}

/// Appends `n` as a hexadecimal literal to `out`.
pub fn push_hex_literal(out: &mut String, n: u128, radix: Radix)
    ensures
        final(out)@ == old(out)@ + hex_literal(n as nat, radix),
{
    let ghost start = out@;
    out.push('0');
    out.push('x');
    push_numeral(out, n, radix);
    proof {
        assert(out@ =~= start + hex_literal(n as nat, radix));
    }
}

/// Appends `text` to `out`, flush right in a field of the given width.
pub fn push_right_aligned(out: &mut String, text: &str, width: usize)
    ensures
        final(out)@ == old(out)@ + right_aligned(text@, width as nat),
{
    let len = text.unicode_len();
    let mut filled: usize = len;
    while filled < width
        invariant
            len == text@.len(),
            len <= filled,
            filled <= width || filled == len,
            out@ == old(out)@ + Seq::new((filled - len) as nat, |i: int| ' '),
        decreases width - filled,
    {
        out.push(' ');
        filled += 1;
    }
    out.append(text);
}

/// A character with an upper-case ASCII letter turned into its lower-case form.
pub open spec fn lower_case(c: char) -> char {
    if 'A' as nat <= c as nat && c as nat <= 'Z' as nat {
        (c as nat + 0x20) as char
    } else {
        c
    }
}

/// A text with each upper-case ASCII letter turned into its lower-case form.
pub open spec fn lower_cased(text: Seq<char>) -> Seq<char> {
    text.map_values(|c: char| lower_case(c))
}

/// The two hexadecimal notations differ in the case of their digits and in nothing else.
pub proof fn lemma_hex_case(n: nat)
    ensures
        lower_cased(numeral(n, Radix::UpperHex)) == numeral(n, Radix::LowerHex),
    decreases n,
{
    if n >= 16 {
        lemma_hex_case(n / 16);
    }
    assert(lower_cased(numeral(n, Radix::UpperHex)) =~= numeral(n, Radix::LowerHex));
}

} // verus!
