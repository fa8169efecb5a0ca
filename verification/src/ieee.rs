//! IEEE 754 numbers carried as bit patterns.
//!
//! The daemon stores, forwards and compares floating-point numbers far more
//! often than it computes with them. These types hold the bits and give the
//! numeric comparisons; [`Real32::scaled`] and [`Real64::scaled`] say which
//! number a pattern stands for.
use vstd::arithmetic::power2::*;
use vstd::prelude::*;

verus! {

/// Bit pattern of positive infinity in 32 bits.
pub const INFINITY_BITS_32: u32 = 0x7f80_0000;

/// Bit pattern of the sign bit in 32 bits.
pub const SIGN_BIT_32: u32 = 0x8000_0000;

/// Bit pattern of positive infinity in 64 bits.
pub const INFINITY_BITS_64: u64 = 0x7ff0_0000_0000_0000;

/// Bit pattern of the sign bit in 64 bits.
pub const SIGN_BIT_64: u64 = 0x8000_0000_0000_0000;

/// The number a bit pattern without its sign stands for, in units of the
/// smallest positive number of the format: `fraction_bits` low bits of
/// fraction under the exponent field.
pub open spec fn unsigned_value(magnitude: nat, fraction_bits: nat) -> nat {
    let unit = pow2(fraction_bits);
    let fraction = magnitude % unit;
    let exponent = magnitude / unit;
    if exponent == 0 {
        fraction
    } else {
        (fraction + unit) * pow2((exponent - 1) as nat)
    }
}

/// A larger pattern stands for a larger number.
pub proof fn lemma_unsigned_value_increases(low: nat, high: nat, fraction_bits: nat)
    requires
        low < high,
    ensures
        unsigned_value(low, fraction_bits) < unsigned_value(high, fraction_bits),
{
    let unit = pow2(fraction_bits);
    lemma_pow2_pos(fraction_bits);
    let fl = low % unit;
    let fh = high % unit;
    let el = low / unit;
    let eh = high / unit;
    vstd::arithmetic::div_mod::lemma_fundamental_div_mod(low as int, unit as int);
    vstd::arithmetic::div_mod::lemma_fundamental_div_mod(high as int, unit as int);
    vstd::arithmetic::div_mod::lemma_div_is_ordered(low as int, high as int, unit as int);
    vstd::arithmetic::div_mod::lemma_mod_bound(low as int, unit as int);
    vstd::arithmetic::div_mod::lemma_mod_bound(high as int, unit as int);
    if el == eh {
        assert(fl < fh);
        if el > 0 {
            let p = pow2((el - 1) as nat);
            lemma_pow2_pos((el - 1) as nat);
            assert((fl + unit) * p < (fh + unit) * p) by (nonlinear_arith)
                requires
                    fl < fh,
                    p > 0,
            ;
        }
    } else {
        let ph = pow2((eh - 1) as nat);
        lemma_pow2_pos((eh - 1) as nat);
        assert(unit * ph <= (fh + unit) * ph) by (nonlinear_arith)
            requires
                ph > 0,
                fh >= 0,
        ;
        if el == 0 {
            assert(unit <= unit * ph) by (nonlinear_arith)
                requires
                    ph > 0,
                    unit > 0,
            ;
        } else {
            let pl = pow2((el - 1) as nat);
            lemma_pow2_pos((el - 1) as nat);
            lemma_pow2_unfold(el);
            if el < eh - 1 {
                lemma_pow2_strictly_increases(el, (eh - 1) as nat);
            }
            assert(2 * pl <= ph);
            assert((fl + unit) * pl < unit * ph) by (nonlinear_arith)
                requires
                    fl < unit,
                    2 * pl <= ph,
                    pl > 0,
                    unit > 0,
            ;
        }
    }
}

/// A 32-bit floating-point number, held as its bit pattern.
#[derive(Clone, Copy, Debug, PartialEq, Eq, Structural)]
pub struct Real32 {
    /// The bit pattern.
    pub bits: u32,
}

impl Real32 {
    /// The pattern without its sign bit.
    pub open spec fn magnitude(self) -> nat {
        if self.bits >= SIGN_BIT_32 {
            (self.bits - SIGN_BIT_32) as nat
        } else {
            self.bits as nat
        }
    }

    /// Whether the pattern stands for no number at all.
    pub open spec fn nan(self) -> bool {
        self.magnitude() > INFINITY_BITS_32
    }

    /// Whether the pattern stands for a finite number.
    pub open spec fn finite(self) -> bool {
        self.magnitude() < INFINITY_BITS_32
    }

    /// Position of the number among all numbers: both zeros rank 0.
    pub open spec fn rank(self) -> int {
        if self.bits >= SIGN_BIT_32 {
            -(self.magnitude() as int)
        } else {
            self.magnitude() as int
        }
    }

    /// The number, in units of the smallest positive one.
    pub open spec fn scaled(self) -> int {
        if self.bits >= SIGN_BIT_32 {
            -(unsigned_value(self.magnitude(), 23) as int)
        } else {
            unsigned_value(self.magnitude(), 23) as int
        }
    }

    /// Numeric `<=`, false as soon as either side is not a number.
    pub open spec fn le(self, other: Real32) -> bool {
        !self.nan() && !other.nan() && self.rank() <= other.rank()
    }

    /// Numeric `<`, false as soon as either side is not a number.
    pub open spec fn lt(self, other: Real32) -> bool {
        !self.nan() && !other.nan() && self.rank() < other.rank()
    }

    /// The number whose bit pattern is `bits`.
    pub fn from_bits(bits: u32) -> (r: Real32)
        ensures
            r.bits == bits,
    {
        Real32 { bits }
    }

    fn signed_magnitude(&self) -> (r: i64)
        ensures
            r == self.rank(),
    {
        if self.bits >= SIGN_BIT_32 {
            -((self.bits - SIGN_BIT_32) as i64)
        } else {
            self.bits as i64
        }
    }

    /// Whether this is not a number.
    pub fn is_nan(&self) -> (r: bool)
        ensures
            r == self.nan(),
    {
        let rank: i64 = self.signed_magnitude();
        rank > INFINITY_BITS_32 as i64 || rank < -(INFINITY_BITS_32 as i64)
    }

    /// Whether this is a finite number.
    pub fn is_finite(&self) -> (r: bool)
        ensures
            r == self.finite(),
    {
        let rank: i64 = self.signed_magnitude();
        rank < INFINITY_BITS_32 as i64 && rank > -(INFINITY_BITS_32 as i64)
    }

    /// Numeric `<=`.
    pub fn at_most(&self, other: Real32) -> (r: bool)
        ensures
            r == self.le(other),
    {
        !self.is_nan() && !other.is_nan() && self.signed_magnitude() <= other.signed_magnitude()
    }

    /// Numeric `<`.
    pub fn less_than(&self, other: Real32) -> (r: bool)
        ensures
            r == self.lt(other),
    {
        !self.is_nan() && !other.is_nan() && self.signed_magnitude() < other.signed_magnitude()
    }
}

/// Comparing patterns compares the numbers they stand for.
pub proof fn law_real32_order_is_numeric(a: Real32, b: Real32)
    requires
        a.finite(),
        b.finite(),
    ensures
        a.le(b) <==> a.scaled() <= b.scaled(),
        a.lt(b) <==> a.scaled() < b.scaled(),
{
    lemma_order_of_signed_values(a.rank(), b.rank(), 23);
    lemma_zero_value(23);
}

/// Zero stands for zero.
proof fn lemma_zero_value(fraction_bits: nat)
    ensures
        unsigned_value(0, fraction_bits) == 0,
{
    let unit = pow2(fraction_bits);
    lemma_pow2_pos(fraction_bits);
    vstd::arithmetic::div_mod::lemma_small_mod(0, unit);
    vstd::arithmetic::div_mod::lemma_basic_div(0, unit as int);
}

spec fn signed_value(rank: int, fraction_bits: nat) -> int {
    if rank < 0 {
        -(unsigned_value((-rank) as nat, fraction_bits) as int)
    } else {
        unsigned_value(rank as nat, fraction_bits) as int
    }
}

proof fn lemma_order_of_signed_values(a: int, b: int, fraction_bits: nat)
    ensures
        a < b <==> signed_value(a, fraction_bits) < signed_value(b, fraction_bits),
        a <= b <==> signed_value(a, fraction_bits) <= signed_value(b, fraction_bits),
{
    if a < b {
        lemma_signed_values_increase(a, b, fraction_bits);
    } else if b < a {
        lemma_signed_values_increase(b, a, fraction_bits);
    }
}

proof fn lemma_signed_values_increase(a: int, b: int, fraction_bits: nat)
    requires
        a < b,
    ensures
        signed_value(a, fraction_bits) < signed_value(b, fraction_bits),
{
    lemma_zero_value(fraction_bits);
    if 0 <= a {
        lemma_unsigned_value_increases(a as nat, b as nat, fraction_bits);
    } else if b <= 0 {
        lemma_unsigned_value_increases((-b) as nat, (-a) as nat, fraction_bits);
    } else {
        lemma_unsigned_value_increases(0, (-a) as nat, fraction_bits);
        lemma_unsigned_value_increases(0, b as nat, fraction_bits);
    }
}

/// A 64-bit floating-point number, held as its bit pattern.
#[derive(Clone, Copy, Debug, PartialEq, Eq, Structural)]
pub struct Real64 {
    /// The bit pattern.
    pub bits: u64,
}

impl Real64 {
    /// The pattern without its sign bit.
    pub open spec fn magnitude(self) -> nat {
        if self.bits >= SIGN_BIT_64 {
            (self.bits - SIGN_BIT_64) as nat
        } else {
            self.bits as nat
        }
    }

    /// Whether the pattern stands for no number at all.
    pub open spec fn nan(self) -> bool {
        self.magnitude() > INFINITY_BITS_64
    }

    /// Whether the pattern stands for a finite number.
    pub open spec fn finite(self) -> bool {
        self.magnitude() < INFINITY_BITS_64
    }

    /// Position of the number among all numbers: both zeros rank 0.
    pub open spec fn rank(self) -> int {
        if self.bits >= SIGN_BIT_64 {
            -(self.magnitude() as int)
        } else {
            self.magnitude() as int
        }
    }

    /// The number, in units of the smallest positive one.
    pub open spec fn scaled(self) -> int {
        if self.bits >= SIGN_BIT_64 {
            -(unsigned_value(self.magnitude(), 52) as int)
        } else {
            unsigned_value(self.magnitude(), 52) as int
        }
    }

    /// Numeric `<=`, false as soon as either side is not a number.
    pub open spec fn le(self, other: Real64) -> bool {
        !self.nan() && !other.nan() && self.rank() <= other.rank()
    }

    /// Numeric `<`, false as soon as either side is not a number.
    pub open spec fn lt(self, other: Real64) -> bool {
        !self.nan() && !other.nan() && self.rank() < other.rank()
    }

    /// The number whose bit pattern is `bits`.
    pub fn from_bits(bits: u64) -> (r: Real64)
        ensures
            r.bits == bits,
    {
        Real64 { bits }
    }

    fn signed_magnitude(&self) -> (r: i64)
        ensures
            r == self.rank(),
    {
        if self.bits >= SIGN_BIT_64 {
            let magnitude: u64 = self.bits - SIGN_BIT_64;
            -(magnitude as i64)
        } else {
            self.bits as i64
        }
    }

    /// Whether this is not a number.
    pub fn is_nan(&self) -> (r: bool)
        ensures
            r == self.nan(),
    {
        let rank: i64 = self.signed_magnitude();
        rank > INFINITY_BITS_64 as i64 || rank < -(INFINITY_BITS_64 as i64)
    }

    /// Whether this is a finite number.
    pub fn is_finite(&self) -> (r: bool)
        ensures
            r == self.finite(),
    {
        let rank: i64 = self.signed_magnitude();
        rank < INFINITY_BITS_64 as i64 && rank > -(INFINITY_BITS_64 as i64)
    }

    /// Numeric `<=`.
    pub fn at_most(&self, other: Real64) -> (r: bool)
        ensures
            r == self.le(other),
    {
        !self.is_nan() && !other.is_nan() && self.signed_magnitude() <= other.signed_magnitude()
    }

    /// Numeric `<`.
    pub fn less_than(&self, other: Real64) -> (r: bool)
        ensures
            r == self.lt(other),
    {
        !self.is_nan() && !other.is_nan() && self.signed_magnitude() < other.signed_magnitude()
    }
}

/// Comparing patterns compares the numbers they stand for.
pub proof fn law_real64_order_is_numeric(a: Real64, b: Real64)
    requires
        a.finite(),
        b.finite(),
    ensures
        a.le(b) <==> a.scaled() <= b.scaled(),
        a.lt(b) <==> a.scaled() < b.scaled(),
{
    lemma_order_of_signed_values(a.rank(), b.rank(), 52);
    lemma_zero_value(52);
}

/// Two to a small power.
fn power_of_two(k: u32) -> (r: u64)
    requires
        k <= 62,
    ensures
        r == pow2(k as nat),
        r <= 0x4000_0000_0000_0000,
{
    let mut r: u64 = 1;
    let mut i: u32 = 0;
    proof {
        lemma2_to64();
        lemma2_to64_rest();
    }
    while i < k
        invariant
            i <= k <= 62,
            r == pow2(i as nat),
            pow2(62) == 0x4000_0000_0000_0000,
        decreases k - i,
    {
        proof {
            lemma_pow2_unfold((i + 1) as nat);
            if i + 1 < 62 {
                lemma_pow2_strictly_increases((i + 1) as nat, 62);
            }
        }
        r = 2 * r;
        i = i + 1;
    }
    proof {
        if k < 62 {
            lemma_pow2_strictly_increases(k as nat, 62);
        }
    }
    r
}

/// What an unsigned 32-bit pattern with this exponent field stands for.
proof fn lemma_value_of_parts(magnitude: nat, significand: nat, exponent: nat)
    requires
        exponent >= 1,
        0x80_0000 <= significand <= 0x100_0000,
        magnitude == (exponent - 1) * 0x80_0000 + significand,
    ensures
        unsigned_value(magnitude, 23) == significand * pow2((exponent - 1) as nat),
{
    lemma2_to64();
    let unit = pow2(23) as int;
    assert(unit == 0x80_0000);
    if significand < 0x100_0000 {
        vstd::arithmetic::div_mod::lemma_fundamental_div_mod_converse(
            magnitude as int,
            unit,
            exponent as int,
            significand - 0x80_0000,
        );
    } else {
        vstd::arithmetic::div_mod::lemma_fundamental_div_mod_converse(
            magnitude as int,
            unit,
            exponent as int + 1,
            0,
        );
        lemma_pow2_unfold(exponent);
        let p = pow2((exponent - 1) as nat) as int;
        assert((0 + 0x80_0000) * (2 * p) == 0x100_0000 * p) by (nonlinear_arith);
    }
}

/// `x` rounds to the number of the pattern `b`, to nearest, ties to the even
/// pattern: twice `x` lies between the sums with the neighbouring numbers.
pub open spec fn rounds_to(x: nat, b: nat, fraction_bits: nat) -> bool {
    let here = unsigned_value(b, fraction_bits);
    let above = here + unsigned_value(b + 1, fraction_bits);
    let below = here + unsigned_value((b - 1) as nat, fraction_bits);
    &&& if b % 2 == 0 {
        2 * x <= above
    } else {
        2 * x < above
    }
    &&& b > 0 ==> if b % 2 == 0 {
        below <= 2 * x
    } else {
        below < 2 * x
    }
}

impl Real32 {
    /// The integer part, saturating; zero for what is not a number.
    pub open spec fn truncated(self) -> int {
        let whole = unsigned_value(self.magnitude(), 23) / pow2(149);
        if self.nan() {
            0
        } else if self.bits >= SIGN_BIT_32 {
            if whole > 0x8000_0000 {
                -0x8000_0000
            } else {
                -(whole as int)
            }
        } else if whole > 0x7fff_ffff {
            0x7fff_ffff
        } else {
            whole as int
        }
    }

    /// The integer part, saturating; zero for what is not a number.
    pub fn to_i32(&self) -> (r: i32)
        ensures
            r == self.truncated(),
    {
        if self.is_nan() {
            return 0;
        }
        let negative: bool = self.bits >= SIGN_BIT_32;
        let magnitude: u32 = if negative {
            self.bits - SIGN_BIT_32
        } else {
            self.bits
        };
        let exponent: u32 = magnitude / 0x80_0000;
        let fraction: u32 = magnitude % 0x80_0000;
        let ghost whole = unsigned_value(magnitude as nat, 23) / pow2(149);
        proof {
            lemma2_to64();
            lemma_pow2_pos(149);
        }
        if exponent < 127 {
            proof {
                lemma_whole_of_small(magnitude as nat);
            }
            return 0;
        }
        let significand: u32 = fraction + 0x80_0000;
        proof {
            lemma_value_of_parts(magnitude as nat, significand as nat, exponent as nat);
        }
        if exponent >= 158 {
            proof {
                lemma_whole_of_large(significand as nat, exponent as nat);
            }
            return if negative {
                -0x8000_0000
            } else {
                0x7fff_ffff
            };
        }
        let value: u64 = if exponent >= 150 {
            let factor: u64 = power_of_two(exponent - 150);
            proof {
                lemma_pow2_adds((exponent - 150) as nat, 149);
                let f = factor as int;
                let u = pow2(149) as int;
                let s = significand as int;
                assert(s * (f * u) == (s * f) * u) by (nonlinear_arith);
                vstd::arithmetic::div_mod::lemma_div_multiples_vanish(s * f, u);
                assert(u * (s * f) == (s * f) * u) by (nonlinear_arith);
                if exponent < 157 {
                    lemma_pow2_strictly_increases((exponent - 150) as nat, 7);
                }
                assert(f <= 128);
                assert(s * f <= 0xff_ffff * 128) by (nonlinear_arith)
                    requires
                        0 <= s <= 0xff_ffff,
                        0 <= f <= 128,
                ;
                assert(s * f >= 0) by (nonlinear_arith)
                    requires
                        0 <= s,
                        0 <= f,
                ;
            }
            significand as u64 * factor
        } else {
            let divisor: u64 = power_of_two(150 - exponent);
            proof {
                lemma_pow2_pos((150 - exponent) as nat);
                lemma_whole_of_middle(significand as nat, exponent as nat);
                vstd::arithmetic::div_mod::lemma_div_is_ordered_by_denominator(
                    significand as int,
                    1,
                    divisor as int,
                );
            }
            significand as u64 / divisor
        };
        assert(value == whole);
        if negative {
            -(value as i32)
        } else {
            value as i32
        }
    }

    /// The number nearest to an integer, ties to the even pattern.
    pub fn from_i32(n: i32) -> (r: Real32)
        ensures
            r.finite(),
            r.bits >= SIGN_BIT_32 <==> n < 0,
            rounds_to(
                (if n < 0 {
                    -(n as int)
                } else {
                    n as int
                }) as nat * pow2(149),
                r.magnitude(),
                23,
            ),
    {
        let m: u64 = if n < 0 {
            (-(n as i64)) as u64
        } else {
            n as u64
        };
        proof {
            lemma2_to64();
            lemma_pow2_pos(149);
        }
        if m == 0 {
            proof {
                lemma_zero_value(23);
                assert(0 * pow2(149) == 0) by (nonlinear_arith);
            }
            return Real32 { bits: 0 };
        }
        let mut p: u32 = 0;
        let mut top: u64 = 1;
        while 2 * top <= m
            invariant
                p <= 31,
                top == pow2(p as nat),
                1 <= top <= m <= 0x8000_0000,
                pow2(31) == 0x8000_0000,
            decreases m - top,
        {
            proof {
                lemma_pow2_unfold((p + 1) as nat);
                if p + 1 > 31 {
                    lemma_pow2_strictly_increases(31, (p + 1) as nat);
                }
            }
            top = 2 * top;
            p = p + 1;
        }
        let exponent: u32 = p + 127;
        let magnitude: u64 = if p <= 23 {
            let factor: u64 = power_of_two(23 - p);
            proof {
                lemma_exact_integer(m as nat, p as nat);
            }
            let significand: u64 = m * factor;
            (exponent as u64 - 1) * 0x80_0000 + significand
        } else {
            let scale: u64 = power_of_two(p - 23);
            let q: u64 = m / scale;
            let rest: u64 = m % scale;
            let base: u64 = (exponent as u64 - 1) * 0x80_0000;
            proof {
                lemma_significand_range(m as nat, p as nat);
                vstd::arithmetic::div_mod::lemma_fundamental_div_mod(m as int, scale as int);
                lemma_rounded_integer(m as nat, p as nat, q as nat, rest as nat);
            }
            if 2 * rest > scale || (2 * rest == scale && q % 2 == 1) {
                base + q + 1
            } else {
                base + q
            }
        };
        if n < 0 {
            Real32 { bits: SIGN_BIT_32 + magnitude as u32 }
        } else {
            Real32 { bits: magnitude as u32 }
        }
    }
}

proof fn lemma_whole_of_small(magnitude: nat)
    requires
        magnitude / 0x80_0000 < 127,
    ensures
        unsigned_value(magnitude, 23) / pow2(149) == 0,
{
    lemma2_to64();
    lemma_pow2_pos(149);
    let e = magnitude / 0x80_0000;
    let v = unsigned_value(magnitude, 23);
    let f = magnitude % 0x80_0000;
    if e == 0 {
        lemma_pow2_strictly_increases(23, 149);
    } else {
        let p = pow2((e - 1) as nat);
        lemma_pow2_pos((e - 1) as nat);
        if e - 1 < 125 {
            lemma_pow2_strictly_increases((e - 1) as nat, 125);
        }
        lemma_pow2_adds(24, 125);
        assert((f + 0x80_0000) * p < 0x100_0000 * pow2(125)) by (nonlinear_arith)
            requires
                f < 0x80_0000,
                0 < p <= pow2(125),
        ;
    }
    assert(v < pow2(149));
    vstd::arithmetic::div_mod::lemma_basic_div(v as int, pow2(149) as int);
}

proof fn lemma_whole_of_middle(significand: nat, exponent: nat)
    requires
        127 <= exponent < 150,
    ensures
        (significand * pow2((exponent - 1) as nat)) / pow2(149) == significand / pow2(
            (150 - exponent) as nat,
        ),
{
    let p = pow2((exponent - 1) as nat) as int;
    let d = pow2((150 - exponent) as nat) as int;
    lemma_pow2_pos((exponent - 1) as nat);
    lemma_pow2_pos((150 - exponent) as nat);
    lemma_pow2_adds((exponent - 1) as nat, (150 - exponent) as nat);
    let s = significand as int;
    assert(s * p >= 0) by (nonlinear_arith)
        requires
            s >= 0,
            p > 0,
    ;
    vstd::arithmetic::div_mod::lemma_div_denominator(s * p, p, d);
    vstd::arithmetic::div_mod::lemma_div_multiples_vanish(s, p);
    assert(p * s == s * p) by (nonlinear_arith);
}

proof fn lemma_whole_of_large(significand: nat, exponent: nat)
    requires
        exponent >= 158,
        0x80_0000 <= significand,
    ensures
        (significand * pow2((exponent - 1) as nat)) / pow2(149) >= 0x8000_0000,
{
    lemma2_to64();
    let u = pow2(149) as int;
    lemma_pow2_pos(149);
    let f = pow2((exponent - 150) as nat) as int;
    lemma_pow2_adds((exponent - 150) as nat, 149);
    if exponent > 158 {
        lemma_pow2_strictly_increases(8, (exponent - 150) as nat);
    }
    assert(f >= 256);
    let s = significand as int;
    assert(s * (f * u) == (s * f) * u) by (nonlinear_arith);
    vstd::arithmetic::div_mod::lemma_div_multiples_vanish(s * f, u);
    assert(u * (s * f) == (s * f) * u) by (nonlinear_arith);
    assert(s * f >= 0x80_0000 * 256) by (nonlinear_arith)
        requires
            s >= 0x80_0000,
            f >= 256,
    ;
}

/// An integer of at most 24 bits is a number of the format.
proof fn lemma_exact_integer(m: nat, p: nat)
    requires
        p <= 23,
        pow2(p) <= m < 2 * pow2(p),
    ensures
        m * pow2((23 - p) as nat) <= 0xff_ffff,
        rounds_to(
            m * pow2(149),
            ((p + 126) * 0x80_0000 + m * pow2((23 - p) as nat)) as nat,
            23,
        ),
        (p + 126) * 0x80_0000 + m * pow2((23 - p) as nat) < INFINITY_BITS_32,
{
    lemma2_to64();
    let f = pow2((23 - p) as nat) as int;
    lemma_pow2_pos((23 - p) as nat);
    lemma_pow2_adds(p, (23 - p) as nat);
    let t = pow2(p) as int;
    let n = m as int;
    assert(n * f >= 0x80_0000 && n * f < 0x100_0000) by (nonlinear_arith)
        requires
            t * f == 0x80_0000,
            t <= n < 2 * t,
            f > 0,
    ;
    let b = ((p + 126) * 0x80_0000 + m * pow2((23 - p) as nat)) as nat;
    let significand = m * pow2((23 - p) as nat);
    lemma_value_of_parts(b, significand, p + 127);
    lemma_pow2_adds((23 - p) as nat, p + 126);
    let w = pow2(p + 126) as int;
    let u = pow2(149) as int;
    assert(f * w == u);
    assert((n * f) * w == n * u) by (nonlinear_arith)
        requires
            f * w == u,
    ;
    lemma_unsigned_value_increases(b, b + 1, 23);
    lemma_unsigned_value_increases((b - 1) as nat, b, 23);
}

proof fn lemma_significand_range(m: nat, p: nat)
    requires
        24 <= p <= 31,
        pow2(p) <= m < 2 * pow2(p),
    ensures
        0x80_0000 <= m / pow2((p - 23) as nat) < 0x100_0000,
        m % pow2((p - 23) as nat) < pow2((p - 23) as nat) <= 256,
{
    lemma2_to64();
    let s = pow2((p - 23) as nat) as int;
    lemma_pow2_pos((p - 23) as nat);
    lemma_pow2_adds(23, (p - 23) as nat);
    if p < 31 {
        lemma_pow2_strictly_increases((p - 23) as nat, 8);
    }
    vstd::arithmetic::div_mod::lemma_fundamental_div_mod(m as int, s);
    vstd::arithmetic::div_mod::lemma_mod_bound(m as int, s);
    let q = m as int / s;
    let r = m as int % s;
    let n = m as int;
    assert(q >= 0x80_0000 && q < 0x100_0000) by (nonlinear_arith)
        requires
            n == s * q + r,
            0 <= r < s,
            0x80_0000 * s <= n < 2 * (0x80_0000 * s),
    ;
}

/// Where a longer integer rounds to.
proof fn lemma_rounded_integer(m: nat, p: nat, q: nat, rest: nat)
    requires
        24 <= p <= 31,
        pow2(p) <= m < 2 * pow2(p),
        m == pow2((p - 23) as nat) * q + rest,
        rest < pow2((p - 23) as nat),
        0x80_0000 <= q < 0x100_0000,
    ensures
        ({
            let s = pow2((p - 23) as nat);
            let b = ((p + 126) * 0x80_0000 + q) as nat;
            let up = 2 * rest > s || (2 * rest == s && q % 2 == 1);
            &&& up ==> rounds_to(m * pow2(149), b + 1, 23)
            &&& !up ==> rounds_to(m * pow2(149), b, 23)
            &&& b + 1 < INFINITY_BITS_32
        }),
{
    let s = pow2((p - 23) as nat) as int;
    let u = pow2(149) as int;
    let b = ((p + 126) * 0x80_0000 + q) as nat;
    lemma_pow2_pos(149);
    lemma_pow2_pos((p - 23) as nat);
    lemma_value_of_parts(b, q, p + 127);
    lemma_value_of_parts(b + 1, q + 1, p + 127);
    lemma_pow2_adds((p - 23) as nat, 149);
    assert(p + 126 == (p - 23) + 149);
    let w = pow2(p + 126) as int;
    assert(w == s * u);
    let vb = unsigned_value(b, 23) as int;
    let vc = unsigned_value(b + 1, 23) as int;
    let qi = q as int;
    let ri = rest as int;
    let target = (m * pow2(149)) as int;
    assert(target == vb + ri * u) by (nonlinear_arith)
        requires
            target == (s * qi + ri) * u,
            vb == qi * (s * u),
    ;
    assert(vc == vb + s * u) by (nonlinear_arith)
        requires
            vb == qi * (s * u),
            vc == (qi + 1) * (s * u),
    ;
    lemma_unsigned_value_increases((b - 1) as nat, b, 23);
    lemma_unsigned_value_increases(b, b + 1, 23);
    lemma_unsigned_value_increases(b + 1, b + 2, 23);
    assert(b % 2 == q % 2);
    assert(0 <= ri * u && ri * u < s * u) by (nonlinear_arith)
        requires
            0 <= ri < s,
            u > 0,
    ;
    if 2 * ri > s {
        assert(2 * (ri * u) > s * u) by (nonlinear_arith)
            requires
                2 * ri > s,
                u > 0,
        ;
    } else if 2 * ri == s {
        assert(2 * (ri * u) == s * u) by (nonlinear_arith)
            requires
                2 * ri == s,
        ;
    } else {
        assert(2 * (ri * u) < s * u) by (nonlinear_arith)
            requires
                2 * ri < s,
                u > 0,
        ;
    }
}

/// An integer of at most 24 bits keeps its value: converting it and taking the
/// integer part again gives it back.
pub proof fn law_small_integers_are_exact(n: int, r: Real32)
    requires
        0 <= n <= 0xff_ffff,
        r.finite(),
        r.bits < SIGN_BIT_32,
        rounds_to(n as nat * pow2(149), r.magnitude(), 23),
    ensures
        r.scaled() == n * pow2(149),
        r.truncated() == n,
{
    lemma_pow2_pos(149);
    let u = pow2(149) as int;
    let b = r.magnitude();
    if n == 0 {
        lemma_zero_value(23);
        assert(n as nat * pow2(149) == 0) by (nonlinear_arith)
            requires
                n == 0,
        ;
        if b > 0 {
            lemma_unsigned_value_increases(0, b, 23);
        }
    } else {
        lemma2_to64();
        lemma_top_bit(n as nat, 23);
        let p = choose|p: nat| p <= 23 && #[trigger] pow2(p) <= n < 2 * pow2(p);
        lemma_exact_integer(n as nat, p);
        let c = ((p + 126) * 0x80_0000 + n as nat * pow2((23 - p) as nat)) as nat;
        lemma_exact_value(n as nat, p);
        if b < c {
            lemma_unsigned_value_increases(b, b + 1, 23);
            if b + 1 < c {
                lemma_unsigned_value_increases(b + 1, c, 23);
            }
        } else if b > c {
            lemma_unsigned_value_increases((b - 1) as nat, b, 23);
            if c < b - 1 {
                lemma_unsigned_value_increases(c, (b - 1) as nat, 23);
            }
        }
        assert(b == c);
    }
    assert(unsigned_value(b, 23) == n * u);
    vstd::arithmetic::div_mod::lemma_div_multiples_vanish(n, u);
    assert(u * n == n * u) by (nonlinear_arith);
}

proof fn lemma_exact_value(m: nat, p: nat)
    requires
        p <= 23,
        pow2(p) <= m < 2 * pow2(p),
    ensures
        unsigned_value(((p + 126) * 0x80_0000 + m * pow2((23 - p) as nat)) as nat, 23) == m * pow2(
            149,
        ),
{
    lemma2_to64();
    let f = pow2((23 - p) as nat) as int;
    lemma_pow2_pos((23 - p) as nat);
    lemma_pow2_adds(p, (23 - p) as nat);
    let t = pow2(p) as int;
    let n = m as int;
    assert(n * f >= 0x80_0000 && n * f < 0x100_0000) by (nonlinear_arith)
        requires
            t * f == 0x80_0000,
            t <= n < 2 * t,
            f > 0,
    ;
    let significand = m * pow2((23 - p) as nat);
    lemma_value_of_parts(((p + 126) * 0x80_0000 + significand) as nat, significand, p + 127);
    lemma_pow2_adds((23 - p) as nat, p + 126);
    let w = pow2(p + 126) as int;
    let u = pow2(149) as int;
    assert((n * f) * w == n * u) by (nonlinear_arith)
        requires
            f * w == u,
    ;
}

/// Every positive integer below a power of two has a highest bit.
proof fn lemma_top_bit(n: nat, k: nat)
    requires
        0 < n < 2 * pow2(k),
    ensures
        exists|p: nat| p <= k && #[trigger] pow2(p) <= n < 2 * pow2(p),
    decreases k,
{
    if pow2(k) <= n {
        assert(k <= k && pow2(k) <= n < 2 * pow2(k));
    } else {
        lemma2_to64();
        assert(k > 0);
        lemma_pow2_unfold(k);
        lemma_top_bit(n, (k - 1) as nat);
        let p = choose|p: nat| p <= k - 1 && #[trigger] pow2(p) <= n < 2 * pow2(p);
        assert(p <= k && pow2(p) <= n < 2 * pow2(p));
    }
}

/// Whether a whole number has a pattern of its own.
pub open spec fn representable(n: nat) -> bool {
    exists|c: nat| #[trigger] unsigned_value(c, 23) == n * pow2(149)
}

/// A whole number with a pattern of its own is converted exactly, and taking
/// the integer part gives it back.
pub proof fn law_representable_integers_are_exact(n: int, r: Real32)
    requires
        -0x8000_0000 <= n <= 0x7fff_ffff,
        r.finite(),
        r.bits >= SIGN_BIT_32 <==> n < 0,
        representable(
            (if n < 0 {
                -n
            } else {
                n
            }) as nat,
        ),
        rounds_to(
            (if n < 0 {
                -n
            } else {
                n
            }) as nat * pow2(149),
            r.magnitude(),
            23,
        ),
    ensures
        r.truncated() == n,
{
    let m: nat = (if n < 0 {
        -n
    } else {
        n
    }) as nat;
    let x = m * pow2(149);
    let b = r.magnitude();
    let c = choose|c: nat| #[trigger] unsigned_value(c, 23) == x;
    if b < c {
        lemma_unsigned_value_increases(b, b + 1, 23);
        if b + 1 < c {
            lemma_unsigned_value_increases(b + 1, c, 23);
        }
    } else if b > c {
        lemma_unsigned_value_increases((b - 1) as nat, b, 23);
        if c < b - 1 {
            lemma_unsigned_value_increases(c, (b - 1) as nat, 23);
        }
    }
    assert(b == c);
    lemma_pow2_pos(149);
    let u = pow2(149) as int;
    assert((m * u) / u == m) by (nonlinear_arith)
        requires
            u > 0,
    ;
}

/// `x` brought into the range between two bit patterns; no number stays as it
/// is.
pub open spec fn clamped(x: Real64, low: u64, high: u64) -> Real64 {
    if x.lt(Real64 { bits: low }) {
        Real64 { bits: low }
    } else if (Real64 { bits: high }).lt(x) {
        Real64 { bits: high }
    } else {
        x
    }
}

/// `x` brought into the range between two bit patterns; no number stays as it
/// is.
pub fn clamp(x: Real64, low: u64, high: u64) -> (r: Real64)
    ensures
        r == clamped(x, low, high),
{
    if x.less_than(Real64::from_bits(low)) {
        Real64::from_bits(low)
    } else if Real64::from_bits(high).less_than(x) {
        Real64::from_bits(high)
    } else {
        x
    }
}

/// A clamped number lies within the bounds, and stays as it is when it did
/// already.
pub proof fn law_clamping_stays_within_the_bounds(x: Real64, low: u64, high: u64)
    requires
        !x.nan(),
        (Real64 { bits: low }).le(Real64 { bits: high }),
    ensures
        (Real64 { bits: low }).le(clamped(x, low, high)),
        clamped(x, low, high).le(Real64 { bits: high }),
        (Real64 { bits: low }).le(x) && x.le(Real64 { bits: high }) ==> clamped(x, low, high) == x,
        x.lt(Real64 { bits: low }) ==> clamped(x, low, high).bits == low,
        (Real64 { bits: high }).lt(x) ==> clamped(x, low, high).bits == high,
{
}

/// What is no number stays as it is.
pub proof fn law_what_is_no_number_is_not_clamped(x: Real64, low: u64, high: u64)
    requires
        x.nan(),
    ensures
        clamped(x, low, high) == x,
{
}

/// Of two numbers one is less than the other or each is at most the other; what
/// is no number compares with nothing, not even itself.
pub proof fn law_numbers_compare_and_others_do_not(a: Real64, b: Real64, c: Real32, d: Real32)
    ensures
        !a.nan() && !b.nan() ==> (a.lt(b) <==> !b.le(a)),
        a.nan() || b.nan() ==> !a.lt(b) && !a.le(b) && !b.lt(a) && !b.le(a),
        !c.nan() && !d.nan() ==> (c.lt(d) <==> !d.le(c)),
        c.nan() || d.nan() ==> !c.lt(d) && !c.le(d) && !d.lt(c) && !d.le(c),
        !a.nan() && !b.nan() ==> (a.le(b) && b.le(a) <==> a == b || (a.bits
            % 0x8000_0000_0000_0000 == 0 && b.bits % 0x8000_0000_0000_0000 == 0)),
{
}

/// A number above zero is one without a sign that is not zero; its negative is
/// below zero.
pub proof fn law_the_sign_bit_is_the_sign(a: Real64, c: Real32)
    ensures
        (Real64 { bits: 0 }).lt(a) <==> 0 < a.bits <= 0x7ff0_0000_0000_0000,
        a.lt(Real64 { bits: 0 }) <==> 0x8000_0000_0000_0000 < a.bits <= 0xfff0_0000_0000_0000,
        (Real32 { bits: 0 }).lt(c) <==> 0 < c.bits <= 0x7f80_0000,
        c.lt(Real32 { bits: 0 }) <==> 0x8000_0000 < c.bits <= 0xff80_0000,
        a.nan() <==> 0x7ff0_0000_0000_0000 < a.bits < 0x8000_0000_0000_0000 || a.bits
            > 0xfff0_0000_0000_0000,
        c.nan() <==> 0x7f80_0000 < c.bits < 0x8000_0000 || c.bits > 0xff80_0000,
        a.finite() <==> a.bits < 0x7ff0_0000_0000_0000 || 0x8000_0000_0000_0000 <= a.bits
            < 0xfff0_0000_0000_0000,
        c.finite() <==> c.bits < 0x7f80_0000 || 0x8000_0000 <= c.bits < 0xff80_0000,
{
}

/// Zero is one number, whatever its sign: neither zero is less than the other,
/// and every number lies on the same side of both.
pub proof fn law_both_zeros_are_one_number(x: Real32, y: Real64)
    ensures
        ({
            let zero = Real32 { bits: 0 };
            let minus = Real32 { bits: 0x8000_0000 };
            &&& zero.le(minus) && minus.le(zero)
            &&& !zero.lt(minus) && !minus.lt(zero)
            &&& x.lt(zero) <==> x.lt(minus)
            &&& zero.lt(x) <==> minus.lt(x)
        }),
        ({
            let zero = Real64 { bits: 0 };
            let minus = Real64 { bits: 0x8000_0000_0000_0000 };
            &&& zero.le(minus) && minus.le(zero)
            &&& !zero.lt(minus) && !minus.lt(zero)
            &&& y.lt(zero) <==> y.lt(minus)
            &&& zero.lt(y) <==> minus.lt(y)
        }),
{
}

} // verus!
