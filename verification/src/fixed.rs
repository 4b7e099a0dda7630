//! Signed decimal fixed-point numbers.
//!
//! Every quantity that the control stages and the calibration engine handle is
//! a [`Fixed`]: a count of billionths held in an `i64`. All operations are
//! total. Sums, differences, products and quotients that leave the range of
//! `i64` stick to the nearest bound, and products and quotients are rounded
//! toward zero.
use vstd::prelude::*;

verus! {

/// Number of raw units in one whole.
pub const SCALE: i64 = 1_000_000_000;

/// The value of `v` brought back into the range of `i64`.
pub open spec fn saturate(v: int) -> i64 {
    if v < i64::MIN {
        i64::MIN
    } else if v > i64::MAX {
        i64::MAX
    } else {
        v as i64
    }
}

/// The quotient of `a` by a positive `d`, rounded toward zero.
pub open spec fn toward_zero(a: int, d: int) -> int
    recommends
        d > 0,
{
    if a >= 0 {
        a / d
    } else {
        -((-a) / d)
    }
}

/// The quotient of `a` by `b`, rounded toward zero. A division by zero gives
/// a value beyond every `i64` with the sign of `a`, and zero for `a == 0`.
pub open spec fn ratio(a: int, b: int) -> int {
    if b > 0 {
        toward_zero(a, b)
    } else if b < 0 {
        toward_zero(-a, -b)
    } else if a > 0 {
        i64::MAX + 1
    } else if a < 0 {
        i64::MIN - 1
    } else {
        0
    }
}

/// A fixed-point number: `raw` billionths.
#[derive(Clone, Copy, Debug, PartialEq, Eq, Structural)]
pub struct Fixed {
    pub raw: i64,
}

impl Fixed {
    /// The number zero.
    pub open spec fn spec_zero() -> Fixed {
        Fixed { raw: 0 }
    }

    /// The saturated sum.
    pub open spec fn spec_plus(self, rhs: Fixed) -> Fixed {
        Fixed { raw: saturate(self.raw + rhs.raw) }
    }

    /// The saturated difference.
    pub open spec fn spec_minus(self, rhs: Fixed) -> Fixed {
        Fixed { raw: saturate(self.raw - rhs.raw) }
    }

    /// The saturated product, rounded toward zero.
    pub open spec fn spec_times(self, rhs: Fixed) -> Fixed {
        Fixed { raw: saturate(toward_zero(self.raw * rhs.raw, SCALE as int)) }
    }

    /// The saturated quotient, rounded toward zero.
    pub open spec fn spec_over(self, rhs: Fixed) -> Fixed {
        Fixed { raw: saturate(ratio(self.raw * SCALE, rhs.raw as int)) }
    }

    /// The `n`-th part, rounded toward zero.
    pub open spec fn spec_shared(self, n: usize) -> Fixed {
        Fixed { raw: saturate(ratio(self.raw as int, n as int)) }
    }

    #[verifier::when_used_as_spec(spec_zero)]
    pub fn zero() -> (r: Fixed)
        ensures
            r == Fixed::spec_zero(),
    {
        Fixed { raw: 0 }
    }

    /// The number with the given count of billionths.
    pub fn from_raw(raw: i64) -> (r: Fixed)
        ensures
            r.raw == raw,
    {
        Fixed { raw }
    }

    /// The whole number `n`.
    pub fn whole(n: i32) -> (r: Fixed)
        ensures
            r.raw == n * SCALE,
    {
        let wide: i64 = n as i64;
        Fixed { raw: wide * SCALE }
    }

    /// The count of billionths.
    pub fn raw(&self) -> (r: i64)
        ensures
            r == self.raw,
    {
        self.raw
    }

    #[verifier::when_used_as_spec(spec_plus)]
    pub fn plus(self, rhs: Fixed) -> (r: Fixed)
        ensures
            r == self.spec_plus(rhs),
    {
        let wide: i128 = self.raw as i128 + rhs.raw as i128;
        Fixed { raw: narrow(wide) }
    }

    #[verifier::when_used_as_spec(spec_minus)]
    pub fn minus(self, rhs: Fixed) -> (r: Fixed)
        ensures
            r == self.spec_minus(rhs),
    {
        let wide: i128 = self.raw as i128 - rhs.raw as i128;
        Fixed { raw: narrow(wide) }
    }

    #[verifier::when_used_as_spec(spec_times)]
    pub fn times(self, rhs: Fixed) -> (r: Fixed)
        ensures
            r == self.spec_times(rhs),
    {
        let wide: i128 = wide_product(self.raw, rhs.raw);
        Fixed { raw: narrow(wide / (SCALE as i128)) }
    }

    #[verifier::when_used_as_spec(spec_over)]
    pub fn over(self, rhs: Fixed) -> (r: Fixed)
        ensures
            r == self.spec_over(rhs),
    {
        let wide: i128 = wide_product(self.raw, SCALE);
        Fixed { raw: narrow_ratio(wide, rhs.raw as i128) }
    }

    #[verifier::when_used_as_spec(spec_shared)]
    pub fn shared(self, n: usize) -> (r: Fixed)
        ensures
            r == self.spec_shared(n),
    {
        Fixed { raw: narrow_ratio(self.raw as i128, n as i128) }
    }
}

/// Brings a wide intermediate result back into `i64`.
fn narrow(wide: i128) -> (r: i64)
    ensures
        r == saturate(wide as int),
{
    if wide < i64::MIN as i128 {
        i64::MIN
    } else if wide > i64::MAX as i128 {
        i64::MAX
    } else {
        wide as i64
    }
}

/// The exact product of two `i64` values.
fn wide_product(a: i64, b: i64) -> (r: i128)
    ensures
        r == a * b,
        -0x4000_0000_0000_0000_0000_0000_0000_0000 <= r <= 0x4000_0000_0000_0000_0000_0000_0000_0000,
{
    let x: i128 = a as i128;
    let y: i128 = b as i128;
    assert(-0x4000_0000_0000_0000_0000_0000_0000_0000 <= x * y
        <= 0x4000_0000_0000_0000_0000_0000_0000_0000) by (nonlinear_arith)
        requires
            -0x8000_0000_0000_0000 <= x < 0x8000_0000_0000_0000,
            -0x8000_0000_0000_0000 <= y < 0x8000_0000_0000_0000,
    ;
    x * y
}

/// The saturated quotient of two wide values.
fn narrow_ratio(a: i128, b: i128) -> (r: i64)
    requires
        -0x4000_0000_0000_0000_0000_0000_0000_0000 <= a <= 0x4000_0000_0000_0000_0000_0000_0000_0000,
        -0x4000_0000_0000_0000_0000_0000_0000_0000 <= b <= 0x4000_0000_0000_0000_0000_0000_0000_0000,
    ensures
        r == saturate(ratio(a as int, b as int)),
{
    if b > 0 {
        narrow(a / b)
    } else if b < 0 {
        narrow((-a) / (-b))
    } else if a > 0 {
        i64::MAX
    } else if a < 0 {
        i64::MIN
    } else {
        0
    }
}

/// A vector of `n` zeros.
pub open spec fn zero_seq(n: nat) -> Seq<Fixed> {
    Seq::new(n, |i: int| Fixed::spec_zero())
}

/// Makes a vector of `n` zeros.
pub(crate) fn zeros(n: usize) -> (v: Vec<Fixed>)
    ensures
        v@ == zero_seq(n as nat),
{
    let mut v: Vec<Fixed> = Vec::new();
    let mut i: usize = 0;
    while i < n
        invariant
            i <= n,
            v@ == zero_seq(i as nat),
        decreases n - i,
    {
        v.push(Fixed::zero());
        i += 1;
        assert(v@ =~= zero_seq(i as nat));
    }
    v
}

/// Makes a copy of `value`.
pub(crate) fn copy_of(value: &[Fixed]) -> (v: Vec<Fixed>)
    ensures
        v@ == value@,
{
    let mut v: Vec<Fixed> = Vec::new();
    let mut i: usize = 0;
    while i < value.len()
        invariant
            i <= value.len(),
            v@ == value@.subrange(0, i as int),
        decreases value.len() - i,
    {
        v.push(value[i]);
        i += 1;
        assert(v@ =~= value@.subrange(0, i as int));
    }
    assert(value@.subrange(0, value.len() as int) =~= value@);
    v
}

/// Zero added to zero is zero.
pub proof fn lemma_zero_plus_zero()
    ensures
        Fixed::spec_zero().spec_plus(Fixed::spec_zero()) == Fixed::spec_zero(),
{
}

/// Any number times zero is zero, on either side.
pub proof fn lemma_times_zero(c: Fixed)
    ensures
        c.spec_times(Fixed::spec_zero()) == Fixed::spec_zero(),
        Fixed::spec_zero().spec_times(c) == Fixed::spec_zero(),
{
    assert(c.raw * 0 == 0) by (nonlinear_arith);
    assert(0 * c.raw == 0) by (nonlinear_arith);
}

} // verus!
