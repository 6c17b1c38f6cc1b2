//! Floating-point numbers, held as their bit patterns and compared as numbers.
use vstd::prelude::*;
use vstd::std_specs::cmp::PartialEqSpecImpl;

verus! {

/// Whether a single-precision bit pattern stands for no number.
pub open spec fn is_nan(bits: u32) -> bool {
    bits % 0x8000_0000 > 0x7f80_0000
}

/// The place of a single-precision bit pattern among the numbers. Both zeros have
/// the same.
pub open spec fn rank(bits: u32) -> int {
    if bits < 0x8000_0000 {
        bits as int
    } else {
        0x8000_0000 - bits
    }
}

/// Whether one number is at most another. What is no number is neither more nor
/// less than anything.
pub open spec fn at_most(a: u32, b: u32) -> bool {
    !is_nan(a) && !is_nan(b) && rank(a) <= rank(b)
}

/// Whether two numbers are equal. Both zeros are, and what is no number equals
/// nothing.
pub open spec fn same_single(a: u32, b: u32) -> bool {
    !is_nan(a) && !is_nan(b) && rank(a) == rank(b)
}

/// Whether a single-precision bit pattern stands for no number.
pub fn not_a_number(bits: u32) -> (r: bool)
    ensures
        r == is_nan(bits),
{
    bits % 0x8000_0000 > 0x7f80_0000
}

/// The place of a single-precision bit pattern among the numbers.
pub fn place(bits: u32) -> (r: i64)
    ensures
        r == rank(bits),
{
    if bits < 0x8000_0000 {
        bits as i64
    } else {
        0x8000_0000 - bits as i64
    }
}

/// Whether one number is at most another.
pub fn not_more(a: u32, b: u32) -> (r: bool)
    ensures
        r == at_most(a, b),
{
    !not_a_number(a) && !not_a_number(b) && place(a) <= place(b)
}

/// Whether two numbers are equal.
pub fn singles_equal(a: u32, b: u32) -> (r: bool)
    ensures
        r == same_single(a, b),
{
    !not_a_number(a) && !not_a_number(b) && place(a) == place(b)
}

/// A single-precision number.
#[derive(Clone, Copy, Debug)]
pub struct Single {
    pub bits: u32,
}

impl PartialEq for Single {
    fn eq(&self, other: &Self) -> (r: bool) {
        singles_equal(self.bits, other.bits)
    }
}

impl PartialEqSpecImpl for Single {
    open spec fn obeys_eq_spec() -> bool {
        true
    }

    open spec fn eq_spec(&self, other: &Self) -> bool {
        same_single(self.bits, other.bits)
    }
}

/// Whether a double-precision bit pattern stands for a finite number.
pub open spec fn is_finite_double(bits: u64) -> bool {
    bits % 0x8000_0000_0000_0000 < 0x7ff0_0000_0000_0000
}

/// Whether two numbers are equal once they are written as JSON. Both zeros are, and
/// what is not finite is written as `null`.
pub open spec fn same_double(a: u64, b: u64) -> bool {
    if is_finite_double(a) && is_finite_double(b) {
        a == b || (a % 0x8000_0000_0000_0000 == 0 && b % 0x8000_0000_0000_0000 == 0)
    } else {
        !is_finite_double(a) && !is_finite_double(b)
    }
}

fn finite_double(bits: u64) -> (r: bool)
    ensures
        r == is_finite_double(bits),
{
    bits % 0x8000_0000_0000_0000 < 0x7ff0_0000_0000_0000
}

/// A double-precision number of a bridge.
#[derive(Clone, Copy, Debug)]
pub struct Double {
    pub bits: u64,
}

impl PartialEq for Double {
    fn eq(&self, other: &Self) -> (r: bool) {
        if finite_double(self.bits) && finite_double(other.bits) {
            self.bits == other.bits || (self.bits % 0x8000_0000_0000_0000 == 0 && other.bits
                % 0x8000_0000_0000_0000 == 0)
        } else {
            !finite_double(self.bits) && !finite_double(other.bits)
        }
    }
}

impl PartialEqSpecImpl for Double {
    open spec fn obeys_eq_spec() -> bool {
        true
    }

    open spec fn eq_spec(&self, other: &Self) -> bool {
        same_double(self.bits, other.bits)
    }
}

/// Numbers are equal exactly where each is at most the other.
pub proof fn law_equal_numbers_bound_each_other(a: u32, b: u32)
    ensures
        same_single(a, b) <==> at_most(a, b) && at_most(b, a),
{
}

} // verus!
