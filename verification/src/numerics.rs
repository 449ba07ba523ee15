//! Fixed-point numbers used by the hinting engine.

use vstd::prelude::*;
use vstd::std_specs::convert::FromSpecImpl;
use vstd::std_specs::ops::AddSpecImpl;
use vstd::std_specs::ops::DivSpecImpl;
use vstd::std_specs::ops::MulSpecImpl;
use vstd::std_specs::ops::NegSpecImpl;
use vstd::std_specs::ops::SubSpecImpl;

verus! {

/// The value in `[-2^31, 2^31)` that is congruent to `v` modulo `2^32`:
/// what a 32-bit two's-complement register holds after computing `v`.
pub open spec fn wrap_i32(v: int) -> int {
    (v + 0x8000_0000) % 0x1_0000_0000 - 0x8000_0000
}

/// Quotient of `a` by `b` rounded toward zero.
pub open spec fn div_toward_zero(a: int, b: int) -> int
    recommends
        b != 0,
{
    if a >= 0 && b > 0 {
        a / b
    } else if a < 0 && b < 0 {
        (-a) / (-b)
    } else if a < 0 {
        -((-a) / b)
    } else {
        -(a / (-b))
    }
}

/// Reduces a 64-bit intermediate result to 32 bits by wrapping.
pub fn wrap_to_i32(v: i64) -> (r: i32)
    ensures
        r as int == wrap_i32(v as int),
{
    let r: i32 = #[verifier::truncate]
    (v as i32);
    assert(v as i32 == (v + 0x8000_0000) % 0x1_0000_0000 - 0x8000_0000) by (bit_vector);
    r
}

/// Divides two 64-bit values, rounding toward zero.
pub fn div_i64_toward_zero(a: i64, b: i64) -> (r: i64)
    requires
        b != 0,
        a > i64::MIN,
        b > i64::MIN,
    ensures
        r as int == div_toward_zero(a as int, b as int),
{
    let an: i64 = if a < 0 { -a } else { a };
    let bn: i64 = if b < 0 { -b } else { b };
    let q: i64 = an / bn;
    if (a < 0) != (b < 0) {
        -q
    } else {
        q
    }
}

/// Reduces a 128-bit intermediate result to 32 bits by wrapping.
pub fn wrap_wide_to_i32(v: i128) -> (r: i32)
    ensures
        r as int == wrap_i32(v as int),
{
    let r: i32 = #[verifier::truncate]
    (v as i32);
    assert(v as i32 == (v + 0x8000_0000) % 0x1_0000_0000 - 0x8000_0000) by (bit_vector);
    r
}

/// Divides two 128-bit values, rounding toward zero.
pub fn div_wide_toward_zero(a: i128, b: i128) -> (r: i128)
    requires
        b != 0,
        a > i128::MIN,
        b > i128::MIN,
    ensures
        r as int == div_toward_zero(a as int, b as int),
{
    let an: i128 = if a < 0 { -a } else { a };
    let bn: i128 = if b < 0 { -b } else { b };
    let q: i128 = an / bn;
    if (a < 0) != (b < 0) {
        -q
    } else {
        q
    }
}

/// A signed number with 26 integer bits and 6 fraction bits, held in 32 bits.
/// One unit of the raw value is 1/64 of a pixel.
#[derive(Clone, Copy, Debug, PartialEq, Eq, Structural)]
pub struct F26d6(pub i32);

impl F26d6 {
    /// The raw 32-bit value: the number times 64.
    pub open spec fn bits(self) -> int {
        self.0 as int
    }

    /// The number whose raw value is `v` reduced to 32 bits.
    pub open spec fn wrapped(v: int) -> F26d6 {
        F26d6(wrap_i32(v) as i32)
    }

    pub fn from_bits(bits: i32) -> (r: F26d6)
        ensures
            r == F26d6(bits),
    {
        F26d6(bits)
    }

    pub fn to_bits(self) -> (r: i32)
        ensures
            r == self.0,
    {
        self.0
    }

    /// The integer part: the greatest integer not above the number.
    pub fn to_i32(self) -> (r: i32)
        ensures
            r as int == self.bits() / 64,
    {
        let x: i32 = self.0;
        assert(x >> 6 == x / 64) by (bit_vector);
        x >> 6
    }

    /// Absolute value. The most negative number has no positive counterpart
    /// in 32 bits and is returned unchanged.
    pub fn abs(self) -> (r: F26d6)
        ensures
            r == F26d6::wrapped(if self.bits() < 0 { -self.bits() } else { self.bits() }),
    {
        if self.0 == i32::MIN {
            self
        } else if self.0 < 0 {
            F26d6(-self.0)
        } else {
            self
        }
    }

    /// The greatest whole number (multiple of 64 in raw units) not above `self`.
    pub fn floor(self) -> (r: F26d6)
        ensures
            r.bits() == 64 * (self.bits() / 64),
    {
        let x: i32 = self.0;
        assert(x & -64i32 == 64 * (x / 64)) by (bit_vector);
        F26d6(x & -64i32)
    }

    /// The least whole number not below `self`, reduced to 32 bits.
    pub fn ceil(self) -> (r: F26d6)
        ensures
            r == F26d6::wrapped(64 * ((self.bits() + 63) / 64)),
    {
        let x: i32 = self.0;
        let y: i32 = x.wrapping_add(63);
        assert(y & -64i32 == 64 * (y / 64)) by (bit_vector);
        assert(wrap_i32(64 * ((x + 63) / 64)) == 64 * (wrap_i32(x + 63) / 64)) by {
            if x + 63 > i32::MAX {
                assert(wrap_i32(x + 63) == x + 63 - 0x1_0000_0000);
            }
        }
        F26d6(y & -64i32)
    }
}

impl From<i32> for F26d6 {
    /// The whole number `v`, reduced to 32 bits.
    fn from(v: i32) -> (r: F26d6) {
        let w: i64 = (v as i64) * 64;
        F26d6(wrap_to_i32(w))
    }
}

impl FromSpecImpl<i32> for F26d6 {
    open spec fn obeys_from_spec() -> bool {
        true
    }

    open spec fn from_spec(v: i32) -> F26d6 {
        F26d6::wrapped(v as int * 64)
    }
}

impl From<F26d6> for u32 {
    /// The raw value, reinterpreted as an unsigned word.
    fn from(v: F26d6) -> (r: u32) {
        let x: i32 = v.0;
        #[verifier::truncate]
        (x as u32)
    }
}

impl FromSpecImpl<F26d6> for u32 {
    open spec fn obeys_from_spec() -> bool {
        true
    }

    open spec fn from_spec(v: F26d6) -> u32 {
        v.0 as u32
    }
}

impl core::ops::Add for F26d6 {
    type Output = F26d6;

    fn add(self, rhs: F26d6) -> (r: F26d6) {
        F26d6(self.0.wrapping_add(rhs.0))
    }
}

impl AddSpecImpl for F26d6 {
    open spec fn obeys_add_spec() -> bool {
        true
    }

    open spec fn add_req(self, rhs: F26d6) -> bool {
        true
    }

    open spec fn add_spec(self, rhs: F26d6) -> F26d6 {
        F26d6::wrapped(self.bits() + rhs.bits())
    }
}

impl core::ops::Sub for F26d6 {
    type Output = F26d6;

    fn sub(self, rhs: F26d6) -> (r: F26d6) {
        F26d6(self.0.wrapping_sub(rhs.0))
    }
}

impl SubSpecImpl for F26d6 {
    open spec fn obeys_sub_spec() -> bool {
        true
    }

    open spec fn sub_req(self, rhs: F26d6) -> bool {
        true
    }

    open spec fn sub_spec(self, rhs: F26d6) -> F26d6 {
        F26d6::wrapped(self.bits() - rhs.bits())
    }
}

impl core::ops::Mul for F26d6 {
    type Output = F26d6;

    fn mul(self, rhs: F26d6) -> (r: F26d6) {
        let a: i64 = self.0 as i64;
        let b: i64 = rhs.0 as i64;
        assert(-0x4000_0000_0000_0000 <= a * b <= 0x4000_0000_0000_0000) by (nonlinear_arith)
            requires
                -0x8000_0000 <= a <= 0x7FFF_FFFF,
                -0x8000_0000 <= b <= 0x7FFF_FFFF,
        ;
        let p: i64 = a * b;
        assert(p >> 6 == p / 64) by (bit_vector);
        F26d6(wrap_to_i32(p >> 6))
    }
}

impl MulSpecImpl for F26d6 {
    open spec fn obeys_mul_spec() -> bool {
        true
    }

    open spec fn mul_req(self, rhs: F26d6) -> bool {
        true
    }

    open spec fn mul_spec(self, rhs: F26d6) -> F26d6 {
        F26d6::wrapped((self.bits() * rhs.bits()) / 64)
    }
}

impl core::ops::Div for F26d6 {
    type Output = F26d6;

    fn div(self, rhs: F26d6) -> (r: F26d6) {
        let n: i64 = (self.0 as i64) * 64;
        F26d6(wrap_to_i32(div_i64_toward_zero(n, rhs.0 as i64)))
    }
}

impl DivSpecImpl for F26d6 {
    open spec fn obeys_div_spec() -> bool {
        true
    }

    open spec fn div_req(self, rhs: F26d6) -> bool {
        rhs.bits() != 0
    }

    open spec fn div_spec(self, rhs: F26d6) -> F26d6 {
        F26d6::wrapped(div_toward_zero(self.bits() * 64, rhs.bits()))
    }
}

impl core::ops::Neg for F26d6 {
    type Output = F26d6;

    fn neg(self) -> (r: F26d6) {
        if self.0 == i32::MIN {
            self
        } else {
            F26d6(-self.0)
        }
    }
}

impl NegSpecImpl for F26d6 {
    open spec fn obeys_neg_spec() -> bool {
        true
    }

    open spec fn neg_req(self) -> bool {
        true
    }

    open spec fn neg_spec(self) -> F26d6 {
        F26d6::wrapped(-self.bits())
    }
}

} // verus!
