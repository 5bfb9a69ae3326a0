//! The return code of a system call, classified from the raw register value.

use vstd::prelude::*;
use crate::numeral::{decimal, hex_literal, push_decimal, push_hex_literal, Radix};
use crate::record::{Value, ValueView};

verus! {

/// What a raw return value stands for.
#[derive(Debug, Copy, Clone, PartialEq, Eq, Structural)]
pub enum RetCode {
    /// A small non-negative result.
    Success(i32),
    /// A small negative result, by convention a negated errno.
    Error(i32),
    /// Anything of larger magnitude, taken to be a pointer.
    Address(usize),
}

/// The largest magnitude that is still read as a plain integer.
pub const SMALL_LIMIT: u64 = 0x8000;

/// The raw register value read as a signed integer in 64-bit two's complement.
pub open spec fn signed(raw: u64) -> int {
    if raw <= 0x7fff_ffff_ffff_ffff {
        raw as int
    } else {
        raw - 0x1_0000_0000_0000_0000
    }
}

impl RetCode {
    /// Classifies a raw return value by its signed magnitude alone.
    pub fn from_raw(ret_code: u64) -> (code: RetCode)
        ensures
            signed(ret_code) > SMALL_LIMIT || signed(ret_code) < -SMALL_LIMIT ==> code
                == RetCode::Address(ret_code as usize),
            -SMALL_LIMIT <= signed(ret_code) < 0 ==> code == RetCode::Error(signed(ret_code) as i32),
            0 <= signed(ret_code) <= SMALL_LIMIT ==> code == RetCode::Success(signed(ret_code) as i32),
    {
        if ret_code <= SMALL_LIMIT {
            RetCode::Success(ret_code as i32)
        } else if ret_code >= 0xffff_ffff_ffff_8000 {
            let magnitude: u64 = (u64::MAX - ret_code) + 1;
            RetCode::Error(-(magnitude as i32))
        } else {
            RetCode::Address(ret_code as usize)
        }
    }

    /// The return code as it stands in a trace line: a plain decimal for a result or an error,
    /// `0x` and upper-case hex digits for an address.
    pub open spec fn text(self) -> Seq<char> {
        match self {
            RetCode::Success(v) => decimal(v as int),
            RetCode::Error(v) => decimal(v as int),
            RetCode::Address(a) => hex_literal(a as nat, Radix::UpperHex),
        }
    }

    /// The name under which the return code stands in a structured record.
    pub open spec fn key(self) -> Seq<char> {
        match self {
            RetCode::Success(_) => "success"@,
            RetCode::Error(_) => "error"@,
            RetCode::Address(_) => "result"@,
        }
    }

    /// The return code as a value of a structured record: a result or an error as a number,
    /// an address as text in lower-case hexadecimal.
    pub open spec fn value(self) -> ValueView {
        match self {
            RetCode::Success(v) => ValueView::Number(v as int),
            RetCode::Error(v) => ValueView::Number(v as int),
            RetCode::Address(a) => ValueView::Text(hex_literal(a as nat, Radix::LowerHex)),
        }
    }

    /// Writes the return code out as it stands in a trace line.
    pub fn render_text(&self) -> (text: String)
        ensures
            text@ == self.text(),
    {
        let mut text = String::new();
        match self {
            RetCode::Success(v) => {
                push_decimal(&mut text, *v as i64);
            },
            RetCode::Error(v) => {
                push_decimal(&mut text, *v as i64);
            },
            RetCode::Address(a) => {
                push_hex_literal(&mut text, *a as u128, Radix::UpperHex);
            },
        }
        proof {
            assert(text@ =~= self.text());
        }
        text
    }

    /// The name under which the return code stands in a structured record.
    pub fn key_name(&self) -> (name: &'static str)
        ensures
            name@ == self.key(),
    {
        match self {
            RetCode::Success(_) => "success",
            RetCode::Error(_) => "error",
            RetCode::Address(_) => "result",
        }
    }

    /// The return code as a value of a structured record.
    pub fn to_value(&self) -> (value: Value)
        ensures
            value@ == self.value(),
    {
        match self {
            RetCode::Success(v) => Value::Number(*v as i64),
            RetCode::Error(v) => Value::Number(*v as i64),
            RetCode::Address(a) => {
                let mut text = String::new();
                push_hex_literal(&mut text, *a as u128, Radix::LowerHex);
                proof {
                    assert(text@ =~= hex_literal(*a as nat, Radix::LowerHex));
                }
                Value::Text(text)
            },
        }
    }
}

} // verus!
