//! Exact comparison of products that do not fit in 128 bits.
//!
//! Scores, averages and thresholds are compared by cross-multiplication, and
//! a product of a 128-bit and a 64-bit factor needs up to 192 bits. The
//! functions here carry such a product in two limbs, so that no comparison in
//! the crate has to round or to restrict its inputs.

use vstd::prelude::*;

verus! {

/// Two to the power of 128.
pub open spec fn double_limb() -> int {
    0x1_0000_0000_0000_0000_0000_0000_0000_0000int
}

/// An unsigned integer of up to 192 bits, held as `high * 2^128 + low`.
#[derive(Debug, Clone, Copy, PartialEq, Eq, Structural)]
pub struct Wide {
    pub high: u64,
    pub low: u128,
}

impl Wide {
    /// The integer that the two limbs stand for.
    pub open spec fn value(self) -> int {
        self.high * double_limb() + self.low
    }

    /// Whether `self` is strictly greater than `other`.
    pub fn exceeds(self, other: Wide) -> (greater: bool)
        ensures
            greater == (self.value() > other.value()),
    {
        self.high > other.high || (self.high == other.high && self.low > other.low)
    }
}

proof fn lemma_limb_product_fits(x: int, y: int)
    by (nonlinear_arith)
    requires
        0 <= x < 0x1_0000_0000_0000_0000int,
        0 <= y < 0x1_0000_0000_0000_0000int,
    ensures
        0 <= x * y <= 0xFFFF_FFFF_FFFF_FFFE_0000_0000_0000_0001int,
{
}

proof fn lemma_split_product(a: int, hi: int, lo: int, b: int)
    by (nonlinear_arith)
    requires
        a == hi * 0x1_0000_0000_0000_0000int + lo,
    ensures
        a * b == (hi * b) * 0x1_0000_0000_0000_0000int + lo * b,
{
}

/// The product of two 64-bit factors, which always fits in 128 bits.
pub fn mul_limbs(a: u64, b: u64) -> (product: u128)
    ensures
        product == a * b,
{
    proof {
        lemma_limb_product_fits(a as int, b as int);
    }
    (a as u128) * (b as u128)
}

/// The full product of a 128-bit and a 64-bit factor.
pub fn mul_wide(a: u128, b: u64) -> (product: Wide)
    ensures
        product.value() == a * b,
{
    let a_high: u128 = a / 0x1_0000_0000_0000_0000u128;
    let a_low: u128 = a % 0x1_0000_0000_0000_0000u128;
    let factor: u128 = b as u128;
    proof {
        lemma_limb_product_fits(a_low as int, factor as int);
        lemma_limb_product_fits(a_high as int, factor as int);
        lemma_split_product(a as int, a_high as int, a_low as int, b as int);
    }
    let bottom: u128 = a_low * factor;
    let top: u128 = a_high * factor;
    let top_high: u128 = top / 0x1_0000_0000_0000_0000u128;
    let top_low: u128 = top % 0x1_0000_0000_0000_0000u128;
    let middle: u128 = top_low * 0x1_0000_0000_0000_0000u128;
    let room: u128 = u128::MAX - middle;
    if bottom > room {
        let low: u128 = bottom - room - 1;
        let high: u64 = (top_high + 1) as u64;
        Wide { high, low }
    } else {
        let low: u128 = middle + bottom;
        let high: u64 = top_high as u64;
        Wide { high, low }
    }
}

/// Whether `a * b` is strictly greater than `c * d`, decided without overflow.
pub fn product_exceeds(a: u128, b: u64, c: u128, d: u64) -> (greater: bool)
    ensures
        greater == (a * b > c * d),
{
    mul_wide(a, b).exceeds(mul_wide(c, d))
}

} // verus!
