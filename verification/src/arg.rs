//! The arguments of a system call, and how each is shown.

use vstd::prelude::*;
use crate::escape::{
    escape_bytes, escape_to_string, is_printable_text, lemma_escape_concat,
    lemma_escape_is_printable,
};
use crate::json::{
    json_chars, json_quoted, json_string, lemma_json_chars_concat, lemma_json_string_is_printable,
};
use crate::numeral::{
    decimal, hex_literal, lemma_hex_case, lower_cased, numeral, push_decimal, push_hex_literal,
    Radix,
};
use crate::record::{values_view, Value, ValueView};

verus! {

/// One decoded argument of a system call.
#[derive(Debug, Clone, PartialEq, Eq)]
pub enum SyscallArg {
    /// A signed number: a flag word, a size, a descriptor.
    Int(i64),
    /// Bytes read from the traced process, such as a string argument.
    Bytes(Vec<u8>),
    /// A pointer, shown in hexadecimal only.
    Addr(usize),
}

/// The arguments of one call, in the order of the calling convention.
#[derive(Debug, Clone, PartialEq, Eq)]
pub struct SyscallArgs(pub Vec<SyscallArg>);

/// The mathematical content of a `SyscallArg`.
pub enum ArgView {
    Int(int),
    Bytes(Seq<u8>),
    Addr(nat),
}

impl View for SyscallArg {
    type V = ArgView;

    open spec fn view(&self) -> ArgView {
        match self {
            SyscallArg::Int(v) => ArgView::Int(*v as int),
            SyscallArg::Bytes(bytes) => ArgView::Bytes(bytes@),
            SyscallArg::Addr(a) => ArgView::Addr(*a as nat),
        }
    }
}

impl View for SyscallArgs {
    type V = Seq<ArgView>;

    open spec fn view(&self) -> Seq<ArgView> {
        self.0@.map_values(|arg: SyscallArg| arg@)
    }
}

/// The bytes of a buffer that are shown under a limit: all of them where there is no limit or
/// the buffer is within it, else the first `limit` bytes followed by three dots.
pub open spec fn clipped(bytes: Seq<u8>, limit: Option<usize>) -> Seq<u8> {
    match limit {
        Some(width) => if bytes.len() > width {
            bytes.take(width as int) + seq![0x2eu8, 0x2eu8, 0x2eu8]
        } else {
            bytes
        },
        None => bytes,
    }
}

impl ArgView {
    /// The argument as it stands in a trace line.
    pub open spec fn text(self, limit: Option<usize>) -> Seq<char> {
        match self {
            ArgView::Int(v) => decimal(v),
            ArgView::Bytes(bytes) => json_string(escape_bytes(clipped(bytes, limit))),
            ArgView::Addr(a) => hex_literal(a, Radix::UpperHex),
        }
    }

    /// The argument as one value of a structured record: a number as a number, a byte buffer
    /// as its escaped text, whole, and an address as text in lower-case hexadecimal.
    pub open spec fn value(self) -> ValueView {
        match self {
            ArgView::Int(v) => ValueView::Number(v),
            ArgView::Bytes(bytes) => ValueView::Text(escape_bytes(bytes)),
            ArgView::Addr(a) => ValueView::Text(hex_literal(a, Radix::LowerHex)),
        }
    }
}

/// The argument list of a trace line: the arguments in order, with a comma and a space
/// between neighbours.
pub open spec fn args_text(args: Seq<ArgView>, limit: Option<usize>) -> Seq<char>
    decreases args.len(),
{
    if args.len() == 0 {
        Seq::empty()
    } else if args.len() == 1 {
        args[0].text(limit)
    } else {
        args_text(args.drop_last(), limit) + seq![',', ' '] + args.last().text(limit)
    }
}

/// The arguments as the values of a structured list, in order.
pub open spec fn args_values(args: Seq<ArgView>) -> Seq<ValueView> {
    args.map_values(|arg: ArgView| arg.value())
}

/// Copies a buffer and cuts the copy down to the limit, marking the cut with three dots.
pub fn clip(bytes: &Vec<u8>, limit: Option<usize>) -> (shown: Vec<u8>)
    ensures
        shown@ == clipped(bytes@, limit),
{
    let mut shown = bytes.clone();
    if let Some(width) = limit {
        if shown.len() > width {
            shown.truncate(width);
            shown.push(0x2e);
            shown.push(0x2e);
            shown.push(0x2e);
        }
    }
    shown
}

impl SyscallArg {
    /// Appends the argument, as it stands in a trace line, to `f`. A byte buffer longer than
    /// `string_limit` is cut; numbers and addresses never are.
    pub fn write(&self, f: &mut String, string_limit: Option<usize>)
        ensures
            final(f)@ == old(f)@ + self@.text(string_limit),
    {
        match self {
            SyscallArg::Int(v) => {
                push_decimal(f, *v);
            },
            SyscallArg::Bytes(v) => {
                let shown = clip(v, string_limit);
                let escaped = escape_to_string(&shown);
                let quoted = json_quoted(escaped.as_str());
                f.append(quoted.as_str());
            },
            SyscallArg::Addr(v) => {
                push_hex_literal(f, *v as u128, Radix::UpperHex);
            },
        }
    }

    /// The argument as one value of a structured record.
    pub fn to_value(&self) -> (value: Value)
        ensures
            value@ == self@.value(),
    {
        match self {
            SyscallArg::Int(v) => Value::Number(*v),
            SyscallArg::Bytes(v) => Value::Text(escape_to_string(v)),
            SyscallArg::Addr(v) => {
                let mut text = String::new();
                push_hex_literal(&mut text, *v as u128, Radix::LowerHex);
                proof {
                    assert(text@ =~= hex_literal(*v as nat, Radix::LowerHex));
                }
                Value::Text(text)
            },
        }
    }
}

impl SyscallArgs {
    /// Appends the argument list of a trace line to `f`.
    pub fn write(&self, f: &mut String, string_limit: Option<usize>)
        ensures
            final(f)@ == old(f)@ + args_text(self@, string_limit),
    {
        let mut idx: usize = 0;
        while idx < self.0.len()
            invariant
                idx <= self.0.len(),
                f@ == old(f)@ + args_text(self@.take(idx as int), string_limit),
            decreases self.0.len() - idx,
        {
            proof {
                assert(self@.take(idx + 1).drop_last() =~= self@.take(idx as int));
                assert(self@.take(idx + 1).last() == self.0[idx as int]@);
            }
            if idx > 0 {
                f.push(',');
                f.push(' ');
            }
            self.0[idx].write(f, string_limit);
            idx += 1;
        }
        proof {
            assert(self@.take(self.0.len() as int) =~= self@);
        }
    }

    /// The arguments as the values of a structured list, one value for each argument.
    pub fn serialize(&self) -> (values: Vec<Value>)
        ensures
            values_view(values@) == args_values(self@),
    {
        let mut values: Vec<Value> = Vec::new();
        let mut idx: usize = 0;
        while idx < self.0.len()
            invariant
                idx <= self.0.len(),
                values_view(values@) == args_values(self@.take(idx as int)),
            decreases self.0.len() - idx,
        {
            let value = self.0[idx].to_value();
            proof {
                assert(self@.take(idx + 1) =~= self@.take(idx as int).push(self.0[idx as int]@));
                assert(values_view(values@.push(value)) =~= values_view(values@).push(value@));
            }
            values.push(value);
            idx += 1;
        }
        proof {
            assert(self@.take(self.0.len() as int) =~= self@);
        }
        values
    }
}

/// A byte buffer is safe to show: whatever bytes it holds and whatever the limit is, what
/// stands for it in a trace line holds printable ASCII characters only.
pub proof fn lemma_bytes_text_is_printable(bytes: Seq<u8>, limit: Option<usize>)
    ensures
        is_printable_text(ArgView::Bytes(bytes).text(limit)),
{
    lemma_escape_is_printable(clipped(bytes, limit));
    lemma_json_string_is_printable(escape_bytes(clipped(bytes, limit)));
}

/// A byte buffer reads the same in both renderings: where it is shown whole, what stands in
/// the trace line is the JSON string literal of the very text that the structured record
/// holds for it.
pub proof fn lemma_bytes_text_matches_value(bytes: Seq<u8>, limit: Option<usize>)
    requires
        limit matches Some(width) ==> bytes.len() <= width,
    ensures
        ArgView::Bytes(bytes).value() matches ValueView::Text(text) && ArgView::Bytes(bytes).text(
            limit,
        ) == json_string(text),
{
}

/// An address reads the same in both renderings but for the case of its digits: the text that
/// the structured record holds for it is what stands in the trace line, in lower case.
pub proof fn lemma_addr_text_matches_value(addr: nat, limit: Option<usize>)
    ensures
        ArgView::Addr(addr).value() == ValueView::Text(lower_cased(ArgView::Addr(addr).text(limit))),
{
    lemma_hex_case(addr);
    assert(lower_cased(seq!['0', 'x'] + numeral(addr, Radix::UpperHex)) =~= seq!['0', 'x']
        + lower_cased(numeral(addr, Radix::UpperHex)));
}

/// A byte buffer longer than the limit is shown as its first `width` bytes, escaped, then
/// three dots, all inside the quotes. One within the limit is shown as without a limit:
/// nothing is cut and nothing is added.
pub proof fn lemma_truncation(bytes: Seq<u8>, width: usize)
    ensures
        bytes.len() > width ==> ArgView::Bytes(bytes).text(Some(width)) == seq!['"'] + json_chars(
            escape_bytes(bytes.take(width as int)),
        ) + seq!['.', '.', '.'] + seq!['"'],
        bytes.len() <= width ==> ArgView::Bytes(bytes).text(Some(width)) == ArgView::Bytes(
            bytes,
        ).text(None),
{
    if bytes.len() > width {
        let kept = bytes.take(width as int);
        let dots = seq![0x2eu8, 0x2eu8, 0x2eu8];
        let shown = seq!['.', '.', '.'];
        assert(escape_bytes(dots) =~= shown) by {
            reveal_with_fuel(escape_bytes, 4);
        }
        assert(json_chars(shown) =~= shown) by {
            reveal_with_fuel(json_chars, 4);
        }
        lemma_escape_concat(kept, dots);
        lemma_json_chars_concat(escape_bytes(kept), shown);
    }
}

} // verus!
