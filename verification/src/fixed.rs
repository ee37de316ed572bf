use vstd::prelude::*;
use crate::scalar::Scalar;

verus! {

/// A signed fixed-point number with 32 fractional bits: `raw` counts units of
/// 2^-32. Results that leave the range of `raw` stick at the nearest bound,
/// and products and quotients are rounded toward zero.
#[derive(Clone, Copy, Debug, PartialEq, Eq, Structural)]
pub struct Fixed {
    pub raw: i64,
}

/// The number of raw units in one.
pub open spec fn scale() -> int {
    0x1_0000_0000
}

/// `v` moved to the nearest value that `raw` can hold.
pub open spec fn clamp(v: int) -> int {
    if v < i64::MIN {
        i64::MIN as int
    } else if v > i64::MAX {
        i64::MAX as int
    } else {
        v
    }
}

/// The absolute value of `v`.
pub open spec fn magnitude(v: int) -> int {
    if v < 0 {
        -v
    } else {
        v
    }
}

/// `m` with the sign that `negative` asks for.
pub open spec fn signed(negative: bool, m: int) -> int {
    if negative {
        -m
    } else {
        m
    }
}

/// The raw product: the exact product rounded toward zero, then clamped.
pub open spec fn product_raw(a: int, b: int) -> int {
    clamp(signed((a < 0) != (b < 0), (magnitude(a) * magnitude(b)) / scale()))
}

/// The raw quotient: the exact quotient rounded toward zero, then clamped.
/// Dividing by zero gives the bound on the side of the dividend, and zero
/// for a zero dividend.
pub open spec fn quotient_raw(a: int, b: int) -> int {
    if b == 0 {
        if a > 0 {
            i64::MAX as int
        } else if a < 0 {
            i64::MIN as int
        } else {
            0
        }
    } else {
        clamp(signed((a < 0) != (b < 0), (magnitude(a) * scale()) / magnitude(b)))
    }
}

/// `r` is the integer square root of `n`, rounded down.
pub open spec fn is_floor_root(n: int, r: int) -> bool {
    0 <= r && r * r <= n < (r + 1) * (r + 1)
}

/// The integer square root of `n`, rounded down.
pub open spec fn floor_root(n: int) -> int {
    choose|r: int| is_floor_root(n, r)
}

/// The raw square root, rounded down; zero for anything not positive.
pub open spec fn root_raw(a: int) -> int {
    if a <= 0 {
        0
    } else {
        floor_root(a * scale())
    }
}

/// Only one number is the rounded-down square root of `n`.
pub proof fn lemma_floor_root_unique(n: int, r: int)
    requires
        is_floor_root(n, r),
    ensures
        floor_root(n) == r,
{
    let c = floor_root(n);
    assert(is_floor_root(n, c));
    if c < r {
        assert((c + 1) * (c + 1) <= r * r) by (nonlinear_arith)
            requires
                0 <= c,
                c + 1 <= r,
        ;
    }
    if r < c {
        assert((r + 1) * (r + 1) <= c * c) by (nonlinear_arith)
            requires
                0 <= r,
                r + 1 <= c,
        ;
    }
}

fn saturate(v: i128) -> (r: i64)
    ensures
        r == clamp(v as int),
{
    if v < -0x8000_0000_0000_0000i128 {
        i64::MIN
    } else if v > 0x7fff_ffff_ffff_ffffi128 {
        i64::MAX
    } else {
        v as i64
    }
}

fn magnitude_of(v: i64) -> (m: u128)
    ensures
        m == magnitude(v as int),
        m <= 0x8000_0000_0000_0000,
{
    let wide: i128 = v as i128;
    if wide < 0 {
        (-wide) as u128
    } else {
        wide as u128
    }
}

fn with_sign(negative: bool, m: u128) -> (r: i64)
    ensures
        r == clamp(signed(negative, m as int)),
{
    if negative {
        if m >= 0x8000_0000_0000_0000u128 {
            i64::MIN
        } else {
            let narrow: i64 = m as i64;
            -narrow
        }
    } else {
        if m > 0x7fff_ffff_ffff_ffffu128 {
            i64::MAX
        } else {
            m as i64
        }
    }
}

/// The integer square root of `n`, rounded down, by bisection.
fn integer_root(n: u128) -> (r: u128)
    requires
        n < 0x1_0000_0000_0000_0000_0000_0000,
    ensures
        r == floor_root(n as int),
        r < 0x1_0000_0000_0000,
{
    let mut lo: u128 = 0;
    let mut hi: u128 = 0x1_0000_0000_0000;
    assert(0x1_0000_0000_0000int * 0x1_0000_0000_0000int == 0x1_0000_0000_0000_0000_0000_0000int)
        by (nonlinear_arith);
    while hi - lo > 1
        invariant
            lo < hi <= 0x1_0000_0000_0000,
            lo * lo <= n < hi * hi,
        decreases hi - lo,
    {
        let mid: u128 = lo + (hi - lo) / 2;
        assert(mid * mid < 0x1_0000_0000_0000_0000_0000_0000int) by (nonlinear_arith)
            requires
                0 <= mid < 0x1_0000_0000_0000int,
        ;
        if mid * mid <= n {
            lo = mid;
        } else {
            hi = mid;
        }
    }
    proof {
        assert(hi == lo + 1);
        lemma_floor_root_unique(n as int, lo as int);
    }
    lo
}

impl Fixed {
    /// The number that `raw` units of 2^-32 make.
    pub fn from_raw(raw: i64) -> (r: Self)
        ensures
            r.raw == raw,
    {
        Fixed { raw }
    }

    /// The whole number `n`.
    pub fn from_integer(n: i32) -> (r: Self)
        ensures
            r.raw == n * scale(),
    {
        let wide: i64 = n as i64;
        Fixed { raw: wide * 0x1_0000_0000i64 }
    }
}

impl Scalar for Fixed {
    open spec fn zero_value() -> Self {
        Fixed { raw: 0 }
    }

    open spec fn one_value() -> Self {
        Fixed { raw: 0x1_0000_0000 }
    }

    open spec fn sum(self, rhs: Self) -> Self {
        Fixed { raw: clamp(self.raw + rhs.raw) as i64 }
    }

    open spec fn difference(self, rhs: Self) -> Self {
        Fixed { raw: clamp(self.raw - rhs.raw) as i64 }
    }

    open spec fn product(self, rhs: Self) -> Self {
        Fixed { raw: product_raw(self.raw as int, rhs.raw as int) as i64 }
    }

    open spec fn quotient(self, rhs: Self) -> Self {
        Fixed { raw: quotient_raw(self.raw as int, rhs.raw as int) as i64 }
    }

    open spec fn root(self) -> Self {
        Fixed { raw: root_raw(self.raw as int) as i64 }
    }

    open spec fn at_most(self, rhs: Self) -> bool {
        self.raw <= rhs.raw
    }

    proof fn law_zero_sum() {
    }

    proof fn law_zero_difference() {
    }

    proof fn law_zero_product(c: Self) {
        assert(magnitude(c.raw as int) * 0 == 0) by (nonlinear_arith);
    }

    fn zero() -> (r: Self) {
        Fixed { raw: 0 }
    }

    fn one() -> (r: Self) {
        Fixed { raw: 0x1_0000_0000 }
    }

    fn plus(self, rhs: Self) -> (r: Self) {
        let wide: i128 = self.raw as i128 + rhs.raw as i128;
        Fixed { raw: saturate(wide) }
    }

    fn minus(self, rhs: Self) -> (r: Self) {
        let wide: i128 = self.raw as i128 - rhs.raw as i128;
        Fixed { raw: saturate(wide) }
    }

    fn times(self, rhs: Self) -> (r: Self) {
        let ma: u128 = magnitude_of(self.raw);
        let mb: u128 = magnitude_of(rhs.raw);
        assert(ma * mb <= 0x8000_0000_0000_0000int * 0x8000_0000_0000_0000int) by (nonlinear_arith)
            requires
                0 <= ma <= 0x8000_0000_0000_0000int,
                0 <= mb <= 0x8000_0000_0000_0000int,
        ;
        let whole: u128 = ma * mb;
        let m: u128 = whole / 0x1_0000_0000u128;
        Fixed { raw: with_sign((self.raw < 0) != (rhs.raw < 0), m) }
    }

    fn over(self, rhs: Self) -> (r: Self) {
        if rhs.raw == 0 {
            if self.raw > 0 {
                Fixed { raw: i64::MAX }
            } else if self.raw < 0 {
                Fixed { raw: i64::MIN }
            } else {
                Fixed { raw: 0 }
            }
        } else {
            let ma: u128 = magnitude_of(self.raw);
            let mb: u128 = magnitude_of(rhs.raw);
            let whole: u128 = ma * 0x1_0000_0000u128;
            let m: u128 = whole / mb;
            Fixed { raw: with_sign((self.raw < 0) != (rhs.raw < 0), m) }
        }
    }

    fn sqrt(self) -> (r: Self) {
        if self.raw <= 0 {
            Fixed { raw: 0 }
        } else {
            let n: u128 = (self.raw as u128) * 0x1_0000_0000u128;
            let root: u128 = integer_root(n);
            Fixed { raw: root as i64 }
        }
    }

    fn le(self, rhs: Self) -> (r: bool) {
        self.raw <= rhs.raw
    }
}

} // verus!
