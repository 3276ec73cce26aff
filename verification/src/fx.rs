//! Saturating Q47.16 fixed-point scalars.
//!
//! A scalar holds `bits`, an `i64` mantissa; the number it denotes is
//! `bits / 65536`. Every operation saturates at the `i64` range instead of
//! wrapping, and multiplication and division truncate toward zero, so each
//! operation is total and has an exact integer-valued specification
//! (`fx_add`, `fx_mul`, ... below, all stated over mantissas).

use vstd::prelude::*;

verus! {

/// Mantissa value of the constant one (the fixed-point scale).
pub const FX_SCALE: i64 = 65536;

/// A fixed-point scalar: the number `bits / 65536`.
#[derive(Clone, Copy, PartialEq, Eq, Structural, Debug)]
pub struct Fx {
    pub bits: i64,
}

impl View for Fx {
    type V = int;

    open spec fn view(&self) -> int {
        self.bits as int
    }
}

/// Absolute value of a mathematical integer.
pub open spec fn iabs(x: int) -> int {
    if x < 0 {
        -x
    } else {
        x
    }
}

/// Saturation to the `i64` range.
pub open spec fn sat64(x: int) -> int {
    if x > i64::MAX {
        i64::MAX as int
    } else if x < i64::MIN {
        i64::MIN as int
    } else {
        x
    }
}

/// Division truncated toward zero, as hardware division behaves.
pub open spec fn tdiv(p: int, d: int) -> int
    recommends
        d != 0,
{
    let q = iabs(p) / iabs(d);
    if (p < 0) != (d < 0) {
        -q
    } else {
        q
    }
}

/// Mantissa of a fixed-point sum.
pub open spec fn fx_add(a: int, b: int) -> int {
    sat64(a + b)
}

/// Mantissa of a fixed-point difference.
pub open spec fn fx_sub(a: int, b: int) -> int {
    sat64(a - b)
}

/// Mantissa of a fixed-point negation.
pub open spec fn fx_neg(a: int) -> int {
    sat64(-a)
}

/// Mantissa of a fixed-point product: the double-width product scaled back
/// down, truncating toward zero.
pub open spec fn fx_mul(a: int, b: int) -> int {
    sat64(tdiv(a * b, 65536))
}

/// Mantissa of a fixed-point quotient. A zero divisor saturates to the sign
/// of the dividend, standing in for the infinities of real arithmetic.
pub open spec fn fx_div(a: int, b: int) -> int {
    if b == 0 {
        if a >= 0 {
            i64::MAX as int
        } else {
            i64::MIN as int
        }
    } else {
        sat64(tdiv(a * 65536, b))
    }
}

/// Mantissa of the whole number `w`, saturated.
pub open spec fn fx_of_whole(w: int) -> int {
    sat64(w * 65536)
}

/// Mantissa of a fixed-point magnitude.
pub open spec fn fx_abs(a: int) -> int {
    sat64(iabs(a))
}

/// One doubling pass of logarithm normalization: the scaled mantissa and the
/// number of doublings taken to reach `[1/2, 1)`.
pub open spec fn ln_norm_s(m: int, fuel: nat) -> (int, int)
    decreases fuel,
{
    if m >= 32768 || fuel == 0 {
        (m, 0)
    } else {
        let r = ln_norm_s(2 * m, (fuel - 1) as nat);
        (r.0, r.1 + 1)
    }
}

/// The cubic tail of the logarithm series at `1 - w`.
pub open spec fn ln_poly_s(w: int) -> int {
    w + tdiv(w * w, 131072) + tdiv(tdiv(w * w, 65536) * w, 196608)
}

/// Mantissa of the negated natural logarithm of a unit-interval scalar:
/// `-ln(u)` for `u` in `(0, 1)`, by doubling into `[1/2, 1)` and a cubic
/// series, with `45426` as the mantissa of `ln 2`. Zero saturates upward,
/// standing in for infinity; inputs of one and above give zero.
pub open spec fn fx_neg_ln(u: int) -> int {
    if u <= 0 {
        i64::MAX as int
    } else if u >= 65536 {
        0
    } else {
        let r = ln_norm_s(u, 16);
        sat64(r.1 * 45426 + ln_poly_s(65536 - r.0))
    }
}

/// `r` is the integer square root of `x`: the greatest integer whose square
/// does not exceed `x`.
pub open spec fn is_isqrt(x: int, r: int) -> bool {
    r >= 0 && r * r <= x && x < (r + 1) * (r + 1)
}

/// The integer square root of `x`.
pub open spec fn isqrt(x: int) -> int
    recommends
        x >= 0,
{
    choose|r: int| is_isqrt(x, r)
}

/// Mantissa of a fixed-point square root. Negative inputs, which real square
/// root leaves undefined, are mapped to zero.
pub open spec fn fx_sqrt(a: int) -> int {
    if a <= 0 {
        0
    } else {
        isqrt(a * 65536)
    }
}

/// Every nonnegative integer has an integer square root.
pub proof fn lemma_isqrt_exists(x: int)
    requires
        x >= 0,
    ensures
        is_isqrt(x, isqrt(x)),
    decreases x,
{
    if x == 0 {
        assert(is_isqrt(0, 0));
    } else {
        lemma_isqrt_exists(x - 1);
        let r = isqrt(x - 1);
        if (r + 1) * (r + 1) <= x {
            assert(x - 1 < (r + 1) * (r + 1));
            assert(x < (r + 2) * (r + 2)) by (nonlinear_arith)
                requires
                    x <= (r + 1) * (r + 1),
                    r >= 0,
            ;
            assert(is_isqrt(x, r + 1));
        } else {
            assert(is_isqrt(x, r));
        }
    }
}

/// The integer square root is unique.
pub proof fn lemma_isqrt_unique(x: int, r: int)
    requires
        is_isqrt(x, r),
    ensures
        r == isqrt(x),
{
    let r2 = choose|q: int| is_isqrt(x, q);
    assert(is_isqrt(x, r2));
    assert(r == r2) by (nonlinear_arith)
        requires
            r >= 0 && r * r <= x && x < (r + 1) * (r + 1),
            r2 >= 0 && r2 * r2 <= x && x < (r2 + 1) * (r2 + 1),
    ;
}

/// The angle folded into one period `[0, 2*pi)`, with `411775` as the
/// mantissa of the full turn.
pub open spec fn sin_reduce_s(x: int) -> int {
    if x >= 0 {
        x % 411775
    } else {
        let m = (-x) % 411775;
        if m == 0 {
            0
        } else {
            411775 - m
        }
    }
}

/// The rational sine approximation on the half period `[0, pi]`, with
/// `205887` as the mantissa of pi.
pub open spec fn sin_half_s(r: int) -> int {
    let q = fx_mul(r, fx_sub(205887, r));
    let den = fx_sub(5 * fx_mul(205887, 205887), 4 * q);
    fx_div(16 * q, den)
}

/// Mantissa of the sine of an angle in radians: fold into one period, then
/// a rational approximation on each half period.
pub open spec fn fx_sin(x: int) -> int {
    let r = sin_reduce_s(x);
    if r < 205887 {
        sin_half_s(r)
    } else {
        fx_neg(sin_half_s(r - 205887))
    }
}

/// The integer square root is monotone.
pub proof fn lemma_isqrt_monotone(x: int, y: int)
    requires
        0 <= x <= y,
    ensures
        isqrt(x) <= isqrt(y),
{
    lemma_isqrt_exists(x);
    lemma_isqrt_exists(y);
    let a = isqrt(x);
    let b = isqrt(y);
    assert(a <= b) by (nonlinear_arith)
        requires
            a >= 0 && a * a <= x && x < (a + 1) * (a + 1),
            b >= 0 && b * b <= y && y < (b + 1) * (b + 1),
            x <= y,
    ;
}

/// The integer square root of a perfect square.
pub proof fn lemma_isqrt_square(a: int)
    requires
        a >= 0,
    ensures
        isqrt(a * a) == a,
{
    assert(is_isqrt(a * a, a)) by (nonlinear_arith)
        requires
            a >= 0,
    ;
    lemma_isqrt_unique(a * a, a);
}

/// The normalization pass keeps the mantissa in range and counts at most
/// `fuel` doublings.
pub proof fn lemma_ln_norm_props(m: int, fuel: nat)
    requires
        0 < m < 65536,
    ensures
        0 < ln_norm_s(m, fuel).0 < 65536,
        0 <= ln_norm_s(m, fuel).1 <= fuel,
    decreases fuel,
{
    if m >= 32768 || fuel == 0 {
    } else {
        lemma_ln_norm_props(2 * m, (fuel - 1) as nat);
    }
}

/// The negated logarithm is nonnegative, and bounded whenever its input is
/// a positive mantissa.
pub proof fn lemma_neg_ln_props(u: int)
    ensures
        fx_neg_ln(u) >= 0,
        u >= 1 ==> fx_neg_ln(u) < 0x10_0000,
{
    if u <= 0 || u >= 65536 {
    } else {
        lemma_ln_norm_props(u, 16);
        let r = ln_norm_s(u, 16);
        let w = 65536 - r.0;
        assert(0 <= w < 65536);
        assert(0 <= w * w <= 65535 * 65535) by (nonlinear_arith)
            requires
                0 <= w <= 65535,
        ;
        assert(0 <= r.1 * 45426 <= 16 * 45426) by (nonlinear_arith)
            requires
                0 <= r.1 <= 16,
        ;
        assert(tdiv(w * w, 131072) == (w * w) / 131072);
        vstd::arithmetic::div_mod::lemma_div_is_ordered(w * w, 65535int * 65535, 131072);
        vstd::arithmetic::div_mod::lemma_div_pos_is_pos(w * w, 131072);
        assert(tdiv(w * w, 65536) == (w * w) / 65536);
        vstd::arithmetic::div_mod::lemma_div_is_ordered(w * w, 65535int * 65535, 65536);
        vstd::arithmetic::div_mod::lemma_div_pos_is_pos(w * w, 65536);
        let wsq = (w * w) / 65536;
        assert(0 <= wsq * w <= 65535 * 65535) by (nonlinear_arith)
            requires
                0 <= wsq <= 65535,
                0 <= w <= 65535,
        ;
        assert(tdiv(wsq * w, 196608) == (wsq * w) / 196608);
        vstd::arithmetic::div_mod::lemma_div_is_ordered(wsq * w, 65535int * 65535, 196608);
        vstd::arithmetic::div_mod::lemma_div_pos_is_pos(wsq * w, 196608);
    }
}

/// Scaling a mantissa by the constant one changes nothing.
pub proof fn lemma_fx_mul_one(x: int)
    requires
        i64::MIN <= x <= i64::MAX,
    ensures
        fx_mul(x, 65536) == x,
{
    lemma_tdiv_exact(x, 65536);
}

/// Saturate a double-width intermediate back to a mantissa.
fn clamp128(x: i128) -> (r: i64)
    ensures
        r as int == sat64(x as int),
{
    if x > i64::MAX as i128 {
        i64::MAX
    } else if x < i64::MIN as i128 {
        i64::MIN
    } else {
        x as i64
    }
}

/// Magnitude of a double-width intermediate.
fn abs128(x: i128) -> (r: u128)
    requires
        x as int > i128::MIN,
    ensures
        r as int == iabs(x as int),
{
    if x < 0 {
        (-x) as u128
    } else {
        x as u128
    }
}

/// `p / 65536` truncated toward zero.
fn scale_down(p: i128) -> (r: i128)
    requires
        iabs(p as int) <= 0x4000_0000_0000_0000_0000_0000_0000_0000,
    ensures
        r as int == tdiv(p as int, 65536),
{
    let m: u128 = abs128(p);
    let q: u128 = m / 65536;
    if p < 0 {
        -(q as i128)
    } else {
        q as i128
    }
}

impl Fx {
    /// The scalar with the given mantissa: the number `bits / 65536`.
    pub fn raw(bits: i64) -> (r: Fx)
        ensures
            r@ == bits as int,
    {
        Fx { bits }
    }

    /// The scalar denoting the whole number `w`, saturated.
    pub fn whole(w: i64) -> (r: Fx)
        ensures
            r@ == fx_of_whole(w as int),
    {
        let p: i128 = (w as i128) * 65536;
        Fx { bits: clamp128(p) }
    }

    /// The scalar nearest `num / den` from below in magnitude.
    pub fn ratio(num: i64, den: i64) -> (r: Fx)
        ensures
            r@ == fx_div(fx_of_whole(num as int), fx_of_whole(den as int)),
    {
        Self::whole(num).div(Self::whole(den))
    }

    /// The constant zero.
    pub fn zero() -> (r: Fx)
        ensures
            r@ == 0,
    {
        Fx { bits: 0 }
    }

    /// The constant one.
    pub fn one() -> (r: Fx)
        ensures
            r@ == 65536,
    {
        Fx { bits: 65536 }
    }

    /// The greatest representable scalar, standing in for positive infinity.
    pub fn top() -> (r: Fx)
        ensures
            r@ == i64::MAX,
    {
        Fx { bits: i64::MAX }
    }

    /// The least representable scalar, standing in for negative infinity.
    pub fn bottom() -> (r: Fx)
        ensures
            r@ == i64::MIN,
    {
        Fx { bits: i64::MIN }
    }

    /// Saturating addition.
    pub fn add(self, o: Fx) -> (r: Fx)
        ensures
            r@ == fx_add(self@, o@),
    {
        let s: i128 = self.bits as i128 + o.bits as i128;
        Fx { bits: clamp128(s) }
    }

    /// Saturating subtraction.
    pub fn sub(self, o: Fx) -> (r: Fx)
        ensures
            r@ == fx_sub(self@, o@),
    {
        let s: i128 = self.bits as i128 - o.bits as i128;
        Fx { bits: clamp128(s) }
    }

    /// Saturating negation.
    pub fn neg(self) -> (r: Fx)
        ensures
            r@ == fx_neg(self@),
    {
        let s: i128 = -(self.bits as i128);
        Fx { bits: clamp128(s) }
    }

    /// Saturating truncating multiplication.
    pub fn mul(self, o: Fx) -> (r: Fx)
        ensures
            r@ == fx_mul(self@, o@),
    {
        proof {
            assert(iabs(self@ * o@) <= 0x4000_0000_0000_0000_0000_0000_0000_0000)
                by (nonlinear_arith)
                requires
                    -0x8000_0000_0000_0000 <= self@ <= 0x7fff_ffff_ffff_ffff,
                    -0x8000_0000_0000_0000 <= o@ <= 0x7fff_ffff_ffff_ffff,
            ;
        }
        let p: i128 = (self.bits as i128) * (o.bits as i128);
        Fx { bits: clamp128(scale_down(p)) }
    }

    /// Saturating truncating division; a zero divisor saturates to the sign
    /// of the dividend.
    pub fn div(self, o: Fx) -> (r: Fx)
        ensures
            r@ == fx_div(self@, o@),
    {
        if o.bits == 0 {
            if self.bits >= 0 {
                Fx { bits: i64::MAX }
            } else {
                Fx { bits: i64::MIN }
            }
        } else {
            let num: i128 = (self.bits as i128) * 65536;
            let nm: u128 = abs128(num);
            let dm: u128 = abs128(o.bits as i128);
            let q: u128 = nm / dm;
            proof {
                assert(q <= nm) by (nonlinear_arith)
                    requires
                        dm >= 1,
                        q == nm / dm,
                ;
            }
            let qi: i128 = if (self.bits < 0) != (o.bits < 0) {
                -(q as i128)
            } else {
                q as i128
            };
            Fx { bits: clamp128(qi) }
        }
    }

    /// Fixed-point square root, rounded down to the mantissa grid; zero on
    /// negative inputs.
    pub fn sqrt(self) -> (r: Fx)
        ensures
            r@ == fx_sqrt(self@),
            r@ >= 0,
    {
        if self.bits <= 0 {
            return Fx { bits: 0 };
        }
        let x: u128 = (self.bits as u128) * 65536;
        let mut lo: u128 = 0;
        let mut hi: u128 = 0x1_0000_0000_0000;
        proof {
            assert((0x1_0000_0000_0000 as int) * (0x1_0000_0000_0000 as int) > x as int);
        }
        while lo + 1 < hi
            invariant
                lo < hi,
                hi <= 0x1_0000_0000_0000,
                (lo as int) * (lo as int) <= x as int,
                (x as int) < (hi as int) * (hi as int),
            decreases hi - lo,
        {
            let mid: u128 = lo + (hi - lo) / 2;
            proof {
                assert((mid as int) * (mid as int) <= 0x1_0000_0000_0000_0000_0000_0000)
                    by (nonlinear_arith)
                    requires
                        0 <= mid as int <= 0x1_0000_0000_0000,
                ;
            }
            if mid * mid <= x {
                lo = mid;
            } else {
                hi = mid;
            }
        }
        proof {
            assert(is_isqrt(x as int, lo as int));
            lemma_isqrt_unique(x as int, lo as int);
        }
        Fx { bits: lo as i64 }
    }

    /// The floor of the denoted number: the whole-unit cell the scalar falls
    /// in, rounding toward negative infinity.
    pub fn floor_units(self) -> (r: i64)
        ensures
            r as int == self@ / 65536,
            -0x8000_0000_0000 <= r as int <= 0x8000_0000_0000,
    {
        proof {
            vstd::arithmetic::div_mod::lemma_div_is_ordered(
                i64::MIN as int,
                self@,
                65536,
            );
            vstd::arithmetic::div_mod::lemma_div_is_ordered(
                self@,
                i64::MAX as int,
                65536,
            );
        }
        if self.bits >= 0 {
            ((self.bits as u64) / 65536) as i64
        } else {
            let n: u128 = (-(self.bits as i128)) as u128;
            let q: u128 = (n + 65535) / 65536;
            proof {
                lemma_floor_by_ceil(self@, 65536);
                assert(q <= n);
            }
            -(q as i64)
        }
    }

    /// The sine of the denoted angle in radians.
    pub fn sin(self) -> (r: Fx)
        ensures
            r@ == fx_sin(self@),
    {
        let red: i64 = if self.bits >= 0 {
            let w: u64 = (self.bits as u64) % 411775;
            proof {
                assert(w < 411775);
            }
            w as i64
        } else {
            let w: u128 = ((-(self.bits as i128)) as u128) % 411775;
            proof {
                assert(w < 411775);
            }
            let m: i64 = w as i64;
            if m == 0 {
                0
            } else {
                411775 - m
            }
        };
        proof {
            assert(0 <= red < 411775);
        }
        let neg: bool = red >= 205887;
        let half: i64 = if red >= 205887 {
            red - 205887
        } else {
            red
        };
        proof {
            assert(0 <= half && half <= 205888);
        }
        let q = Fx { bits: half }.mul(Fx { bits: 205887 - half });
        let p2 = Fx { bits: 205887 }.mul(Fx { bits: 205887 });
        proof {
            lemma_sin_bounds(half as int);
            assert(q@ == fx_mul(half as int, fx_sub(205887, half as int)));
        }
        let num = Fx { bits: 16 * q.bits };
        let den = Fx { bits: 5 * p2.bits - 4 * q.bits };
        let s = num.div(den);
        if neg {
            s.neg()
        } else {
            s
        }
    }

    /// Magnitude.
    pub fn abs(self) -> (r: Fx)
        ensures
            r@ == fx_abs(self@),
    {
        if self.bits < 0 {
            self.neg()
        } else {
            self
        }
    }

    /// Strict order on the denoted numbers.
    pub fn lt(self, o: Fx) -> (r: bool)
        ensures
            r == (self@ < o@),
    {
        self.bits < o.bits
    }

    /// Non-strict order on the denoted numbers.
    pub fn le(self, o: Fx) -> (r: bool)
        ensures
            r == (self@ <= o@),
    {
        self.bits <= o.bits
    }

    /// Strict reverse order on the denoted numbers.
    pub fn gt(self, o: Fx) -> (r: bool)
        ensures
            r == (self@ > o@),
    {
        self.bits > o.bits
    }

    /// Non-strict reverse order on the denoted numbers.
    pub fn ge(self, o: Fx) -> (r: bool)
        ensures
            r == (self@ >= o@),
    {
        self.bits >= o.bits
    }

    /// The smaller of two scalars.
    pub fn min(self, o: Fx) -> (r: Fx)
        ensures
            r@ == if self@ <= o@ {
                self@
            } else {
                o@
            },
    {
        if self.bits <= o.bits {
            self
        } else {
            o
        }
    }

    /// The larger of two scalars.
    pub fn max(self, o: Fx) -> (r: Fx)
        ensures
            r@ == if self@ >= o@ {
                self@
            } else {
                o@
            },
    {
        if self.bits >= o.bits {
            self
        } else {
            o
        }
    }
}

/// Normalization helper for the logarithm: doubles the mantissa until it
/// reaches `[1/2, 1)`, counting the doublings.
fn ln_norm(m: i64, fuel: u32) -> (r: (i64, i64))
    requires
        0 < m < 32768,
    ensures
        (r.0 as int, r.1 as int) == ln_norm_s(m as int, fuel as nat),
        0 <= r.1 <= fuel,
        0 < r.0 < 65536,
    decreases fuel,
{
    if fuel == 0 {
        (m, 0)
    } else {
        let d = 2 * m;
        if d >= 32768 {
            proof {
                reveal_with_fuel(ln_norm_s, 2);
            }
            (d, 1)
        } else {
            let r = ln_norm(d, fuel - 1);
            (r.0, r.1 + 1)
        }
    }
}

impl Fx {
    /// The negated natural logarithm of a unit-interval scalar, the free
    /// path length of exponential attenuation sampling.
    pub fn neg_ln(self) -> (r: Fx)
        ensures
            r@ == fx_neg_ln(self@),
            r@ >= 0,
    {
        if self.bits <= 0 {
            Fx { bits: i64::MAX }
        } else if self.bits >= 65536 {
            Fx { bits: 0 }
        } else {
            let (m, k) = if self.bits >= 32768 {
                (self.bits, 0i64)
            } else {
                ln_norm(self.bits, 16)
            };
            let w: i64 = 65536 - m;
            proof {
                assert(0 <= (w as int) * (w as int) <= 65536 * 65536) by (nonlinear_arith)
                    requires
                        0 <= w as int <= 65536,
                ;
            }
            let w2: i64 = ((w as u64) * (w as u64) / 131072) as i64;
            let wsq: i64 = ((w as u64) * (w as u64) / 65536) as i64;
            proof {
                assert(0 <= (wsq as int) * (w as int) <= 65536 * 65536) by (nonlinear_arith)
                    requires
                        0 <= wsq as int <= 65536,
                        0 <= w as int <= 65536,
                ;
            }
            let w3: i64 = (((wsq as u64) * (w as u64)) / 196608) as i64;
            let total: i64 = k * 45426 + w + w2 + w3;
            proof {
                assert(tdiv((w as int) * (w as int), 131072) == (w as int) * (w as int) / 131072);
                assert(tdiv((w as int) * (w as int), 65536) == (w as int) * (w as int) / 65536);
                assert(tdiv((wsq as int) * (w as int), 196608) == (wsq as int) * (w as int)
                    / 196608);
            }
            Fx { bits: total }
        }
    }
}

/// Range facts for the sine approximation: on a half period the product
/// term and the squared-pi constant are small and nonnegative.
proof fn lemma_sin_bounds(half: int)
    requires
        0 <= half <= 205888,
    ensures
        -4 <= fx_mul(half, fx_sub(205887, half)) <= 700000,
        0 <= fx_mul(205887, 205887) <= 700000,
    {
    let p = half * (205887 - half);
    assert(p <= 205888int * 205887) by (nonlinear_arith)
        requires
            0 <= half <= 205888,
            p == half * (205887 - half),
    ;
    assert(-205888 <= p) by (nonlinear_arith)
        requires
            0 <= half <= 205888,
            p == half * (205887 - half),
    ;
    if p >= 0 {
        vstd::arithmetic::div_mod::lemma_div_pos_is_pos(p, 65536);
        vstd::arithmetic::div_mod::lemma_div_is_ordered(p, 205888int * 205887, 65536);
        assert(205888int * 205887 == 42389662656) by (nonlinear_arith);
        assert(42389662656int / 65536 <= 700000);
    } else {
        vstd::arithmetic::div_mod::lemma_div_pos_is_pos(iabs(p), 65536);
        vstd::arithmetic::div_mod::lemma_div_is_ordered(iabs(p), 205888, 65536);
        assert(205888int / 65536 == 3);
    }
    vstd::arithmetic::div_mod::lemma_div_pos_is_pos(205887int * 205887, 65536);
    assert(205887int * 205887 == 42389456769) by (nonlinear_arith);
    assert(42389456769int / 65536 <= 700000);
}

/// For a negative dividend, flooring division is the negated ceiling of the
/// magnitudes.
proof fn lemma_floor_by_ceil(m: int, d: int)
    requires
        m < 0,
        d > 0,
    ensures
        m / d == -(((-m) + d - 1) / d),
{
    let q = m / d;
    let r = m % d;
    vstd::arithmetic::div_mod::lemma_fundamental_div_mod(m, d);
    vstd::arithmetic::div_mod::lemma_mod_bound(m, d);
    assert(m == d * q + r);
    if r == 0 {
        assert(-m == d * (-q)) by (nonlinear_arith)
            requires
                m == d * q,
        ;
        vstd::arithmetic::div_mod::lemma_div_by_multiple(-q, d);
        assert(((-q) * d + (d - 1)) / d == -q + (d - 1) / d) by {
            vstd::arithmetic::div_mod::lemma_hoist_over_denominator(d - 1, -q, d as nat);
        }
        vstd::arithmetic::div_mod::lemma_basic_div(d - 1, d);
    } else {
        assert(-m == d * (-q - 1) + (d - r)) by (nonlinear_arith)
            requires
                m == d * q + r,
        ;
        assert((-m) + d - 1 == d * (-q - 1) + (2 * d - r - 1)) by (nonlinear_arith)
            requires
                -m == d * (-q - 1) + (d - r),
        ;
        assert(d <= 2 * d - r - 1 < 2 * d);
        assert((-m) + d - 1 == d * (-q) + (d - r - 1)) by (nonlinear_arith)
            requires
                (-m) + d - 1 == d * (-q - 1) + (2 * d - r - 1),
        ;
        vstd::arithmetic::div_mod::lemma_fundamental_div_mod_converse(
            (-m) + d - 1,
            d,
            -q,
            d - r - 1,
        );
    }
}

/// Truncating division is exact on exact multiples.
proof fn lemma_tdiv_exact(a: int, d: int)
    requires
        d > 0,
    ensures
        tdiv(a * d, d) == a,
{
    if a >= 0 {
        assert(a * d >= 0) by (nonlinear_arith)
            requires
                a >= 0,
                d > 0,
        ;
        vstd::arithmetic::div_mod::lemma_div_by_multiple(a, d);
    } else {
        assert(a * d < 0) by (nonlinear_arith)
            requires
                a < 0,
                d > 0,
        ;
        assert(-(a * d) == (-a) * d) by (nonlinear_arith);
        vstd::arithmetic::div_mod::lemma_div_by_multiple(-a, d);
    }
}

} // verus!
