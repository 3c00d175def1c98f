//! Wire numbers held exactly.
//!
//! The feed mixes integer and fractional numeric fields.  A `Decimal` keeps
//! the wire value exactly as sign, decimal digits and a decimal scale, so
//! integer fields can reject fractional wire values, and a re-encoded number
//! is the same number.  The value denoted is `(-1)^neg * mantissa / 10^scale`.
//! `frac` records that the wire lexeme was written in float form (a decimal
//! point, an exponent, or the negative zero `-0`): integer targets and the
//! wire-integer booleans reject float-form numbers even when the value is
//! whole, exactly as the feed's original consumers do.

use vstd::prelude::*;

verus! {

/// An exact decimal number from (or for) the wire.
#[derive(Clone, Copy, Debug, PartialEq, Eq, Structural)]
pub struct Decimal {
    pub neg: bool,
    pub mantissa: u64,
    pub scale: u32,
    pub frac: bool,
}

/// The normal form of a decimal: zero is unsigned and unscaled, and a scaled
/// mantissa carries no trailing zero digit, so equal values written with the
/// same lexeme form are equal records.
pub open spec fn spec_normalize(neg: bool, m: u64, s: u32, frac: bool) -> Decimal
    decreases s,
{
    if m == 0 {
        Decimal { neg: false, mantissa: 0, scale: 0, frac }
    } else if s > 0 && m % 10 == 0 {
        spec_normalize(neg, (m / 10) as u64, (s - 1) as u32, frac)
    } else {
        Decimal { neg, mantissa: m, scale: s, frac }
    }
}

impl Decimal {
    /// The record is in normal form.
    pub open spec fn wf(self) -> bool {
        (self.mantissa == 0 ==> !self.neg && self.scale == 0) && (self.scale > 0
            ==> self.mantissa % 10 != 0)
    }

    /// The decimal `(-1)^neg * mantissa / 10^scale`, brought to normal form.
    pub fn new(neg: bool, mantissa: u64, scale: u32, frac: bool) -> (r: Decimal)
        ensures
            r == spec_normalize(neg, mantissa, scale, frac),
            r.wf(),
    {
        let mut m = mantissa;
        let mut s = scale;
        while s > 0 && m % 10 == 0 && m != 0
            invariant
                spec_normalize(neg, m, s, frac) == spec_normalize(neg, mantissa, scale, frac),
            decreases s,
        {
            m = m / 10;
            s = s - 1;
        }
        if m == 0 {
            Decimal { neg: false, mantissa: 0, scale: 0, frac }
        } else {
            Decimal { neg, mantissa: m, scale: s, frac }
        }
    }

    /// The exact signed integer the decimal denotes, if it was written as one
    /// and fits an `i64`.  A float-form lexeme never denotes an integer here.
    pub open spec fn spec_as_i64(self) -> Option<i64> {
        if self.scale != 0 || self.frac {
            None
        } else if !self.neg {
            if self.mantissa <= i64::MAX as u64 {
                Some(self.mantissa as i64)
            } else {
                None
            }
        } else {
            if self.mantissa as int <= (i64::MAX as int) + 1 {
                Some((-(self.mantissa as int)) as i64)
            } else {
                None
            }
        }
    }

    pub open spec fn spec_as_i32(self) -> Option<i32> {
        match self.spec_as_i64() {
            Some(v) => if i32::MIN as i64 <= v <= i32::MAX as i64 {
                Some(v as i32)
            } else {
                None
            },
            None => None,
        }
    }

    pub open spec fn spec_as_i16(self) -> Option<i16> {
        match self.spec_as_i64() {
            Some(v) => if i16::MIN as i64 <= v <= i16::MAX as i64 {
                Some(v as i16)
            } else {
                None
            },
            None => None,
        }
    }

    pub open spec fn spec_as_u8(self) -> Option<u8> {
        match self.spec_as_i64() {
            Some(v) => if 0 <= v <= u8::MAX as i64 {
                Some(v as u8)
            } else {
                None
            },
            None => None,
        }
    }

    /// The boolean a wire-integer boolean field denotes: exactly the integer
    /// lexemes 0 and 1.
    pub open spec fn spec_as_wire_bool(self) -> Option<bool> {
        if self == (Decimal { neg: false, mantissa: 0, scale: 0, frac: false }) {
            Some(false)
        } else if self == (Decimal { neg: false, mantissa: 1, scale: 0, frac: false }) {
            Some(true)
        } else {
            None
        }
    }

    pub fn to_i64(&self) -> (r: Option<i64>)
        ensures
            r == self.spec_as_i64(),
    {
        if self.scale != 0 || self.frac {
            None
        } else if !self.neg {
            if self.mantissa <= i64::MAX as u64 {
                Some(self.mantissa as i64)
            } else {
                None
            }
        } else {
            if self.mantissa == (i64::MAX as u64) + 1 {
                Some(i64::MIN)
            } else if self.mantissa <= i64::MAX as u64 {
                Some(-(self.mantissa as i64))
            } else {
                None
            }
        }
    }

    pub fn to_i32(&self) -> (r: Option<i32>)
        ensures
            r == self.spec_as_i32(),
    {
        match self.to_i64() {
            Some(v) => if i32::MIN as i64 <= v && v <= i32::MAX as i64 {
                Some(v as i32)
            } else {
                None
            },
            None => None,
        }
    }

    pub fn to_i16(&self) -> (r: Option<i16>)
        ensures
            r == self.spec_as_i16(),
    {
        match self.to_i64() {
            Some(v) => if i16::MIN as i64 <= v && v <= i16::MAX as i64 {
                Some(v as i16)
            } else {
                None
            },
            None => None,
        }
    }

    pub fn to_u8(&self) -> (r: Option<u8>)
        ensures
            r == self.spec_as_u8(),
    {
        match self.to_i64() {
            Some(v) => if 0 <= v && v <= u8::MAX as i64 {
                Some(v as u8)
            } else {
                None
            },
            None => None,
        }
    }

    pub fn to_wire_bool(&self) -> (r: Option<bool>)
        ensures
            r == self.spec_as_wire_bool(),
    {
        if !self.neg && self.scale == 0 && !self.frac && self.mantissa == 0 {
            Some(false)
        } else if !self.neg && self.scale == 0 && !self.frac && self.mantissa == 1 {
            Some(true)
        } else {
            None
        }
    }
}

/// The integer-lexeme decimal of a signed integer.
pub open spec fn spec_dec_of_i64(v: i64) -> Decimal {
    if v >= 0 {
        Decimal { neg: false, mantissa: v as u64, scale: 0, frac: false }
    } else {
        Decimal { neg: true, mantissa: (-(v as int)) as u64, scale: 0, frac: false }
    }
}

pub fn dec_of_i64(v: i64) -> (r: Decimal)
    ensures
        r == spec_dec_of_i64(v),
        r.wf(),
        r.spec_as_i64() == Some(v),
{
    if v >= 0 {
        Decimal { neg: false, mantissa: v as u64, scale: 0, frac: false }
    } else if v == i64::MIN {
        Decimal { neg: true, mantissa: (i64::MAX as u64) + 1, scale: 0, frac: false }
    } else {
        Decimal { neg: true, mantissa: (-v) as u64, scale: 0, frac: false }
    }
}

pub fn dec_of_i32(v: i32) -> (r: Decimal)
    ensures
        r == spec_dec_of_i64(v as i64),
        r.spec_as_i32() == Some(v),
{
    dec_of_i64(v as i64)
}

pub fn dec_of_i16(v: i16) -> (r: Decimal)
    ensures
        r == spec_dec_of_i64(v as i64),
        r.spec_as_i16() == Some(v),
{
    dec_of_i64(v as i64)
}

pub fn dec_of_u8(v: u8) -> (r: Decimal)
    ensures
        r == spec_dec_of_i64(v as i64),
        r.spec_as_u8() == Some(v),
{
    dec_of_i64(v as i64)
}

/// The wire form of a boolean that the feed encodes as an integer.
pub open spec fn spec_dec_of_bool(b: bool) -> Decimal {
    Decimal { neg: false, mantissa: if b { 1 } else { 0 }, scale: 0, frac: false }
}

pub fn dec_of_bool(b: bool) -> (r: Decimal)
    ensures
        r == spec_dec_of_bool(b),
        r.spec_as_wire_bool() == Some(b),
{
    Decimal { neg: false, mantissa: if b { 1 } else { 0 }, scale: 0, frac: false }
}

} // verus!
