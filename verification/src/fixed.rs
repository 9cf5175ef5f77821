use vstd::prelude::*;

use crate::error::CosmoError;

verus! {

/// Number of raw units per 1.0: the engine stores every scalar as a signed
/// count of 10^-13 units.
pub const SCALE: i128 = 10_000_000_000_000;

/// A fixed-point scalar: the mathematical value `v / SCALE` stored as the raw
/// integer `v`.
///
/// All arithmetic on `Fx` is checked; an operation whose exact truncated
/// result leaves the representable range reports [`CosmoError::Overflow`]
/// instead of wrapping. The view of an `Fx` is its raw count of 10^-13 units.
#[derive(Clone, Copy, Debug, PartialEq, Eq, Structural)]
pub struct Fx {
    v: i128,
}

impl View for Fx {
    type V = int;

    closed spec fn view(&self) -> int {
        self.v as int
    }
}

/// Absolute value of a mathematical integer.
pub open spec fn iabs(x: int) -> int {
    if x < 0 {
        -x
    } else {
        x
    }
}

/// Whether a mathematical integer fits the raw `i128` representation.
pub open spec fn in_i128(x: int) -> bool {
    i128::MIN <= x <= i128::MAX
}

/// The view of a fallible fixed-point result: the raw value on success, the
/// error unchanged.
pub open spec fn res_v(r: Result<Fx, CosmoError>) -> Result<int, CosmoError> {
    match r {
        Ok(f) => Ok(f@),
        Err(e) => Err(e),
    }
}

/// Exact sum of two raw values, `Overflow` outside the representation.
pub open spec fn spec_add(a: int, b: int) -> Result<int, CosmoError> {
    if in_i128(a + b) {
        Ok(a + b)
    } else {
        Err(CosmoError::Overflow)
    }
}

/// Exact difference of two raw values, `Overflow` outside the representation.
pub open spec fn spec_sub(a: int, b: int) -> Result<int, CosmoError> {
    if in_i128(a - b) {
        Ok(a - b)
    } else {
        Err(CosmoError::Overflow)
    }
}

/// Truncated-toward-zero fixed-point product of two raw values: the raw
/// result is `|a|*|b| / SCALE` rounded toward zero and given the product's
/// sign. `Overflow` when the unscaled magnitude product leaves `u128` or the
/// scaled result leaves `i128`.
pub open spec fn spec_mul(a: int, b: int) -> Result<int, CosmoError> {
    let m = iabs(a) * iabs(b);
    if m > u128::MAX {
        Err(CosmoError::Overflow)
    } else {
        let q = m / (SCALE as int);
        if q > i128::MAX {
            Err(CosmoError::Overflow)
        } else if (a < 0) != (b < 0) {
            Ok(-q)
        } else {
            Ok(q)
        }
    }
}

/// Truncated-toward-zero fixed-point quotient of two raw values:
/// `|a|*SCALE / |b|` rounded toward zero with the quotient's sign.
/// A zero divisor is a `DomainError`; a magnitude that leaves the
/// representation is an `Overflow`.
pub open spec fn spec_div(a: int, b: int) -> Result<int, CosmoError> {
    if b == 0 {
        Err(CosmoError::DomainError)
    } else {
        let m = iabs(a) * (SCALE as int);
        if m > u128::MAX {
            Err(CosmoError::Overflow)
        } else {
            let q = m / iabs(b);
            if q > i128::MAX {
                Err(CosmoError::Overflow)
            } else if (a < 0) != (b < 0) {
                Ok(-q)
            } else {
                Ok(q)
            }
        }
    }
}

/// Exact product of a raw value and a plain integer factor (no rescaling).
pub open spec fn spec_scale(a: int, k: int) -> Result<int, CosmoError> {
    if in_i128(a * k) {
        Ok(a * k)
    } else {
        Err(CosmoError::Overflow)
    }
}

/// Truncated-toward-zero quotient of a raw value by a positive plain integer
/// (no rescaling): `|a| / k` with the sign of `a`.
pub open spec fn spec_div_int(a: int, k: int) -> Result<int, CosmoError> {
    let q = iabs(a) / k;
    if q > i128::MAX {
        Err(CosmoError::Overflow)
    } else if a < 0 {
        Ok(-q)
    } else {
        Ok(q)
    }
}

/// Absolute value of a raw value, `Overflow` outside the representation.
pub open spec fn spec_abs(a: int) -> Result<int, CosmoError> {
    if in_i128(iabs(a)) {
        Ok(iabs(a))
    } else {
        Err(CosmoError::Overflow)
    }
}

/// `r` is the integer square root of `n`.
pub open spec fn is_isqrt(n: int, r: int) -> bool {
    &&& 0 <= r
    &&& r * r <= n
    &&& n < (r + 1) * (r + 1)
}

/// The integer square root, defined by primitive recursion.
pub open spec fn isqrt_spec(n: nat) -> nat
    decreases n,
{
    if n == 0 {
        0
    } else {
        let r = isqrt_spec((n - 1) as nat);
        if (r + 1) * (r + 1) <= n {
            r + 1
        } else {
            r
        }
    }
}

/// Fixed-point square root of a raw value: `isqrt(a * SCALE)`, so that the
/// result is again in raw units. Negative input is a `DomainError`; an
/// unscaled square that leaves `u128` is an `Overflow`.
pub open spec fn spec_sqrt(a: int) -> Result<int, CosmoError> {
    if a < 0 {
        Err(CosmoError::DomainError)
    } else if a * (SCALE as int) > u128::MAX {
        Err(CosmoError::Overflow)
    } else {
        Ok(isqrt_spec((a * (SCALE as int)) as nat) as int)
    }
}

/// The recursive definition indeed yields the integer square root.
pub proof fn lemma_isqrt_spec_is_isqrt(n: nat)
    ensures
        is_isqrt(n as int, isqrt_spec(n) as int),
    decreases n,
{
    if n == 0 {
    } else {
        lemma_isqrt_spec_is_isqrt((n - 1) as nat);
        let r = isqrt_spec((n - 1) as nat) as int;
        if (r + 1) * (r + 1) <= n {
            assert((r + 1 + 1) * (r + 1 + 1) > n) by (nonlinear_arith)
                requires
                    n - 1 < (r + 1) * (r + 1),
                    n <= (r + 1) * (r + 1),
                    r >= 0,
            ;
        }
    }
}

/// The integer square root is unique.
pub proof fn lemma_isqrt_unique(n: int, r1: int, r2: int)
    requires
        is_isqrt(n, r1),
        is_isqrt(n, r2),
    ensures
        r1 == r2,
{
    if r1 < r2 {
        assert(false) by (nonlinear_arith)
            requires
                0 <= r1 < r2,
                r2 * r2 <= n,
                n < (r1 + 1) * (r1 + 1),
        ;
    }
    if r2 < r1 {
        assert(false) by (nonlinear_arith)
            requires
                0 <= r2 < r1,
                r1 * r1 <= n,
                n < (r2 + 1) * (r2 + 1),
        ;
    }
}

/// The integer square root is monotone.
pub proof fn lemma_isqrt_monotone(n1: nat, n2: nat)
    requires
        n1 <= n2,
    ensures
        isqrt_spec(n1) <= isqrt_spec(n2),
{
    lemma_isqrt_spec_is_isqrt(n1);
    lemma_isqrt_spec_is_isqrt(n2);
    let r1 = isqrt_spec(n1) as int;
    let r2 = isqrt_spec(n2) as int;
    if r2 < r1 {
        assert(false) by (nonlinear_arith)
            requires
                0 <= r2 < r1,
                r1 * r1 <= n1 as int,
                n1 <= n2,
                n2 < (r2 + 1) * (r2 + 1),
        ;
    }
}

/// Magnitude of a raw value as an unsigned integer (total, also at
/// `i128::MIN`).
fn mag(v: i128) -> (r: u128)
    ensures
        r == iabs(v as int),
{
    if v >= 0 {
        v as u128
    } else {
        let w: i128 = -(v + 1);
        (w as u128) + 1
    }
}

/// Rebuild a signed fixed-point value from a sign and a magnitude.
fn from_mag(neg: bool, m: u128) -> (r: Result<Fx, CosmoError>)
    ensures
        res_v(r) == if m > i128::MAX {
            Err::<int, CosmoError>(CosmoError::Overflow)
        } else if neg {
            Ok::<int, CosmoError>(-(m as int))
        } else {
            Ok::<int, CosmoError>(m as int)
        },
{
    if m > i128::MAX as u128 {
        Err(CosmoError::Overflow)
    } else if neg {
        Ok(Fx { v: -(m as i128) })
    } else {
        Ok(Fx { v: m as i128 })
    }
}

impl Fx {
    /// The value holding `v` raw units of 10^-13.
    pub fn from_raw(v: i128) -> (r: Fx)
        ensures
            r@ == v as int,
    {
        Fx { v }
    }

    /// The raw count of 10^-13 units.
    pub fn raw(&self) -> (r: i128)
        ensures
            r as int == self@,
    {
        self.v
    }

    /// The value `k`, scaled into raw units.
    pub fn from_int(k: i128) -> (r: Result<Fx, CosmoError>)
        ensures
            res_v(r) == spec_scale(k as int, SCALE as int),
    {
        match k.checked_mul(SCALE) {
            Some(v) => Ok(Fx { v }),
            None => Err(CosmoError::Overflow),
        }
    }

    /// Whether this value is strictly negative.
    pub fn is_neg(&self) -> (r: bool)
        ensures
            r == (self@ < 0),
    {
        self.v < 0
    }
}

/// Checked fixed-point sum.
pub fn fx_add(a: Fx, b: Fx) -> (r: Result<Fx, CosmoError>)
    ensures
        res_v(r) == spec_add(a@, b@),
{
    match a.v.checked_add(b.v) {
        Some(v) => Ok(Fx { v }),
        None => Err(CosmoError::Overflow),
    }
}

/// Checked fixed-point difference.
pub fn fx_sub(a: Fx, b: Fx) -> (r: Result<Fx, CosmoError>)
    ensures
        res_v(r) == spec_sub(a@, b@),
{
    match a.v.checked_sub(b.v) {
        Some(v) => Ok(Fx { v }),
        None => Err(CosmoError::Overflow),
    }
}

/// Checked fixed-point product, truncated toward zero.
pub fn fx_mul(a: Fx, b: Fx) -> (r: Result<Fx, CosmoError>)
    ensures
        res_v(r) == spec_mul(a@, b@),
{
    let ma = mag(a.v);
    let mb = mag(b.v);
    match ma.checked_mul(mb) {
        None => Err(CosmoError::Overflow),
        Some(m) => {
            let q = m / (SCALE as u128);
            from_mag((a.v < 0) != (b.v < 0), q)
        },
    }
}

/// Checked fixed-point quotient, truncated toward zero.
pub fn fx_div(a: Fx, b: Fx) -> (r: Result<Fx, CosmoError>)
    ensures
        res_v(r) == spec_div(a@, b@),
{
    if b.v == 0 {
        return Err(CosmoError::DomainError);
    }
    let ma = mag(a.v);
    let mb = mag(b.v);
    match ma.checked_mul(SCALE as u128) {
        None => Err(CosmoError::Overflow),
        Some(m) => {
            let q = m / mb;
            from_mag((a.v < 0) != (b.v < 0), q)
        },
    }
}

/// Checked exact product with a plain integer factor.
pub fn fx_scale(a: Fx, k: i128) -> (r: Result<Fx, CosmoError>)
    ensures
        res_v(r) == spec_scale(a@, k as int),
{
    match a.v.checked_mul(k) {
        Some(v) => Ok(Fx { v }),
        None => Err(CosmoError::Overflow),
    }
}

/// Checked truncated quotient by a positive plain integer.
pub fn fx_div_int(a: Fx, k: i128) -> (r: Result<Fx, CosmoError>)
    requires
        k >= 1,
    ensures
        res_v(r) == spec_div_int(a@, k as int),
{
    let m = mag(a.v);
    let q = m / (k as u128);
    from_mag(a.v < 0, q)
}

/// Checked absolute value.
pub fn fx_abs(a: Fx) -> (r: Result<Fx, CosmoError>)
    ensures
        res_v(r) == spec_abs(a@),
{
    if a.v == i128::MIN {
        Err(CosmoError::Overflow)
    } else if a.v < 0 {
        Ok(Fx { v: -a.v })
    } else {
        Ok(a)
    }
}

/// Fixed-point square root: `DomainError` on a negative value.
pub fn fx_sqrt(a: Fx) -> (r: Result<Fx, CosmoError>)
    ensures
        res_v(r) == spec_sqrt(a@),
{
    if a.v < 0 {
        return Err(CosmoError::DomainError);
    }
    match (a.v as u128).checked_mul(SCALE as u128) {
        None => Err(CosmoError::Overflow),
        Some(m) => {
            let r = isqrt_u128(m);
            proof {
                lemma_isqrt_spec_is_isqrt(m as nat);
                lemma_isqrt_unique(m as int, r as int, isqrt_spec(m as nat) as int);
            }
            Ok(Fx { v: r as i128 })
        },
    }
}

/// Integer square root of a `u128`, by binary search.
fn isqrt_u128(n: u128) -> (r: u128)
    ensures
        is_isqrt(n as int, r as int),
        r <= 0xFFFF_FFFF_FFFF_FFFF,
{
    let mut lo: u128 = 0;
    let mut hi: u128 = 0xFFFF_FFFF_FFFF_FFFF;
    proof {
        assert((0xFFFF_FFFF_FFFF_FFFFu128 + 1) * (0xFFFF_FFFF_FFFF_FFFFu128 + 1) > u128::MAX)
            by (nonlinear_arith);
    }
    while lo < hi
        invariant
            lo <= hi,
            hi <= 0xFFFF_FFFF_FFFF_FFFF,
            lo * lo <= n,
            n < (hi + 1) * (hi + 1),
        decreases hi - lo,
    {
        let mid = lo + (hi - lo + 1) / 2;
        proof {
            assert(mid * mid <= u128::MAX) by (nonlinear_arith)
                requires
                    0 <= mid <= 0xFFFF_FFFF_FFFF_FFFFu128,
            ;
        }
        if mid * mid <= n {
            lo = mid;
        } else {
            hi = mid - 1;
        }
    }
    lo
}

} // verus!
