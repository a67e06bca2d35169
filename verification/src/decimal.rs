//! Fixed-point decimal numbers with eighteen fractional digits.
//!
//! A [`Decimal`] is a signed 192-bit count of `10^-18` subunits ("attos"), kept as
//! three 64-bit limbs in two's complement. Its view is that count as a
//! mathematical integer. Ordering and construction are verified here; sums,
//! differences and products are computed by `scrypto`'s `Decimal`.

use vstd::prelude::*;

verus! {

/// Number of subunits in one whole unit.
pub const ATTOS_PER_UNIT: u64 = 1_000_000_000_000_000_000;

/// `2^64`, the weight of the middle limb.
pub open spec fn limb_base() -> int {
    0x1_0000_0000_0000_0000int
}

/// `2^128`, the weight of the high limb.
pub open spec fn limb_base_squared() -> int {
    0x1_0000_0000_0000_0000_0000_0000_0000_0000int
}

/// Smallest representable subunit count, `-2^191`.
pub open spec fn min_attos() -> int {
    -0x8000_0000_0000_0000_0000_0000_0000_0000_0000_0000_0000_0000int
}

/// Largest representable subunit count, `2^191 - 1`.
pub open spec fn max_attos() -> int {
    0x7fff_ffff_ffff_ffff_ffff_ffff_ffff_ffff_ffff_ffff_ffff_ffffint
}

/// Whether a subunit count fits a [`Decimal`].
pub open spec fn representable(attos: int) -> bool {
    min_attos() <= attos <= max_attos()
}

/// The high limb read as a signed number.
pub open spec fn signed_limb(hi: u64) -> int {
    if hi < 0x8000_0000_0000_0000 {
        hi as int
    } else {
        hi - limb_base()
    }
}

/// Integer division that rounds toward zero, for a positive divisor.
pub open spec fn div_toward_zero(n: int, d: int) -> int
    recommends
        d > 0,
{
    if n >= 0 {
        n / d
    } else {
        -((-n) / d)
    }
}

/// The subunit count of the product of two decimals, before the range check:
/// the exact product of the counts, scaled back by `10^18` and rounded toward zero.
pub open spec fn product_attos(a: int, b: int) -> int {
    div_toward_zero(a * b, ATTOS_PER_UNIT as int)
}

/// The sum of two subunit counts, where it is representable.
pub open spec fn sum_of(a: int, b: int) -> Option<int> {
    if representable(a + b) {
        Some(a + b)
    } else {
        None
    }
}

/// The difference of two subunit counts, where it is representable.
pub open spec fn difference_of(a: int, b: int) -> Option<int> {
    if representable(a - b) {
        Some(a - b)
    } else {
        None
    }
}

/// The subunit count of the product of two decimals, where multiplication
/// yields one: the scaled product must lie in the representable range and
/// above its smallest count. A product of exactly the smallest count is
/// missing, although that count is representable.
pub open spec fn product_of(a: int, b: int) -> Option<int> {
    if min_attos() < product_attos(a, b) <= max_attos() {
        Some(product_attos(a, b))
    } else {
        None
    }
}

/// The subunit count of a decimal that may be missing.
pub open spec fn attos_of(d: Option<Decimal>) -> Option<int> {
    match d {
        Some(d) => Some(d@),
        None => None,
    }
}

/// A signed 192-bit fixed-point number with eighteen fractional digits.
#[derive(Clone, Copy, Debug, PartialEq, Eq, Structural)]
pub struct Decimal {
    /// Bits 0 to 63.
    pub lo: u64,
    /// Bits 64 to 127.
    pub mid: u64,
    /// Bits 128 to 191, the topmost being the sign.
    pub hi: u64,
}

impl View for Decimal {
    type V = int;

    /// The number of subunits.
    open spec fn view(&self) -> int {
        self.lo + self.mid * limb_base() + signed_limb(self.hi) * limb_base_squared()
    }
}

impl Decimal {
    /// Two decimals with the same subunit count are the same value.
    pub proof fn law_one_representation(a: Decimal, b: Decimal)
        requires
            a@ == b@,
        ensures
            a == b,
    {
        assert(a.hi == b.hi) by {
            if signed_limb(a.hi) < signed_limb(b.hi) {
                assert(a@ < b@) by (nonlinear_arith)
                    requires
                        signed_limb(a.hi) + 1 <= signed_limb(b.hi),
                        a@ == a.lo + a.mid * limb_base() + signed_limb(a.hi) * limb_base_squared(),
                        b@ == b.lo + b.mid * limb_base() + signed_limb(b.hi) * limb_base_squared(),
                        0 <= a.lo < limb_base(),
                        0 <= a.mid < limb_base(),
                        0 <= b.lo,
                        0 <= b.mid,
                        limb_base() == 0x1_0000_0000_0000_0000,
                        limb_base_squared() == limb_base() * limb_base(),
                {
                }
            }
            if signed_limb(b.hi) < signed_limb(a.hi) {
                assert(b@ < a@) by (nonlinear_arith)
                    requires
                        signed_limb(b.hi) + 1 <= signed_limb(a.hi),
                        a@ == a.lo + a.mid * limb_base() + signed_limb(a.hi) * limb_base_squared(),
                        b@ == b.lo + b.mid * limb_base() + signed_limb(b.hi) * limb_base_squared(),
                        0 <= b.lo < limb_base(),
                        0 <= b.mid < limb_base(),
                        0 <= a.lo,
                        0 <= a.mid,
                        limb_base() == 0x1_0000_0000_0000_0000,
                        limb_base_squared() == limb_base() * limb_base(),
                {
                }
            }
        }
    }

    /// Every decimal's subunit count is representable.
    pub proof fn lemma_view_in_range(self)
        ensures
            representable(self@),
    {
    }

    /// Zero.
    pub fn zero() -> (r: Decimal)
        ensures
            r@ == 0,
    {
        Decimal { lo: 0, mid: 0, hi: 0 }
    }

    /// One whole unit.
    pub fn one() -> (r: Decimal)
        ensures
            r@ == ATTOS_PER_UNIT,
    {
        Decimal { lo: ATTOS_PER_UNIT, mid: 0, hi: 0 }
    }

    /// The decimal with the given number of subunits.
    pub fn from_attos(attos: i128) -> (r: Decimal)
        ensures
            r@ == attos,
    {
        if attos >= 0 {
            let u: u128 = attos as u128;
            let lo: u64 = (u % 0x1_0000_0000_0000_0000) as u64;
            let mid: u64 = (u / 0x1_0000_0000_0000_0000) as u64;
            Decimal { lo, mid, hi: 0 }
        } else {
            // attos == -1 - n, whose two's complement is the bitwise complement of n
            let n: u128 = (-(attos + 1)) as u128;
            let n_lo: u64 = (n % 0x1_0000_0000_0000_0000) as u64;
            let n_mid: u64 = (n / 0x1_0000_0000_0000_0000) as u64;
            Decimal { lo: u64::MAX - n_lo, mid: u64::MAX - n_mid, hi: u64::MAX }
        }
    }

    /// The decimal worth the given number of whole units.
    pub fn from_units(units: i64) -> (r: Decimal)
        ensures
            r@ == units * ATTOS_PER_UNIT,
    {
        let scale: i128 = 1_000_000_000_000_000_000;
        let wide: i128 = units as i128;
        assert(-0x8000_0000_0000_0000 * 1_000_000_000_000_000_000 <= wide * scale
            <= 0x7fff_ffff_ffff_ffff * 1_000_000_000_000_000_000) by (nonlinear_arith)
            requires
                -0x8000_0000_0000_0000 <= wide <= 0x7fff_ffff_ffff_ffff,
                scale == 1_000_000_000_000_000_000,
        {
        }
        Decimal::from_attos(wide * scale)
    }

    /// The number of subunits, where it fits 128 bits.
    pub fn to_attos(self) -> (r: Option<i128>)
        ensures
            r is Some <==> i128::MIN <= self@ <= i128::MAX,
            r matches Some(v) ==> v == self@,
    {
        if self.hi == 0 && self.mid < 0x8000_0000_0000_0000 {
            let wide: i128 = self.mid as i128;
            Some(wide * 0x1_0000_0000_0000_0000 + self.lo as i128)
        } else if self.hi == u64::MAX && self.mid >= 0x8000_0000_0000_0000 {
            let below: i128 = (u64::MAX - self.mid) as i128;
            let rest: i128 = (u64::MAX - self.lo) as i128;
            Some(-1 - (below * 0x1_0000_0000_0000_0000 + rest))
        } else {
            None
        }
    }

    /// The sum, where it is representable.
    pub fn checked_add(self, other: Decimal) -> (r: Option<Decimal>)
        ensures
            attos_of(r) == sum_of(self@, other@),
    {
        scrypto_checked_add(self, other)
    }

    /// The difference, where it is representable.
    pub fn checked_sub(self, other: Decimal) -> (r: Option<Decimal>)
        ensures
            attos_of(r) == difference_of(self@, other@),
    {
        scrypto_checked_sub(self, other)
    }

    /// The product, rounded toward zero to eighteen fractional digits, where it
    /// is representable and not the smallest count.
    pub fn checked_mul(self, other: Decimal) -> (r: Option<Decimal>)
        ensures
            attos_of(r) == product_of(self@, other@),
    {
        scrypto_checked_mul(self, other)
    }

    /// Whether this decimal is strictly below `other`.
    pub fn lt(self, other: Decimal) -> (r: bool)
        ensures
            r == (self@ < other@),
    {
        let self_negative = self.hi >= 0x8000_0000_0000_0000;
        let other_negative = other.hi >= 0x8000_0000_0000_0000;
        if self_negative != other_negative {
            self_negative
        } else if self.hi != other.hi {
            self.hi < other.hi
        } else if self.mid != other.mid {
            self.mid < other.mid
        } else {
            self.lo < other.lo
        }
    }

    /// Whether this decimal is at most `other`.
    pub fn le(self, other: Decimal) -> (r: bool)
        ensures
            r == (self@ <= other@),
    {
        !other.lt(self)
    }

    /// Whether this decimal is strictly above `other`.
    pub fn gt(self, other: Decimal) -> (r: bool)
        ensures
            r == (self@ > other@),
    {
        other.lt(self)
    }

    /// Whether this decimal is at least `other`.
    pub fn ge(self, other: Decimal) -> (r: bool)
        ensures
            r == (self@ >= other@),
    {
        !self.lt(other)
    }
}

/// `scrypto`'s `Decimal::checked_add`, on limbs. The contract claims that it
/// returns the exact sum of the two subunit counts when that sum lies in the
/// signed 192-bit range, and `None` otherwise.
#[verifier::external_body]
fn scrypto_checked_add(a: Decimal, b: Decimal) -> (r: Option<Decimal>)
    ensures
        attos_of(r) == sum_of(a@, b@),
{
    let x = scrypto::math::Decimal::from_attos(scrypto::math::I192::from_digits([a.lo, a.mid, a.hi]));
    let y = scrypto::math::Decimal::from_attos(scrypto::math::I192::from_digits([b.lo, b.mid, b.hi]));
    match scrypto::math::CheckedAdd::checked_add(x, y) {
        Some(z) => {
            let d = z.attos().to_digits();
            Some(Decimal { lo: d[0], mid: d[1], hi: d[2] })
        },
        None => None,
    }
}

/// `scrypto`'s `Decimal::checked_sub`, on limbs. The contract claims that it
/// returns the exact difference of the two subunit counts when that difference
/// lies in the signed 192-bit range, and `None` otherwise.
#[verifier::external_body]
fn scrypto_checked_sub(a: Decimal, b: Decimal) -> (r: Option<Decimal>)
    ensures
        attos_of(r) == difference_of(a@, b@),
{
    let x = scrypto::math::Decimal::from_attos(scrypto::math::I192::from_digits([a.lo, a.mid, a.hi]));
    let y = scrypto::math::Decimal::from_attos(scrypto::math::I192::from_digits([b.lo, b.mid, b.hi]));
    match scrypto::math::CheckedSub::checked_sub(x, y) {
        Some(z) => {
            let d = z.attos().to_digits();
            Some(Decimal { lo: d[0], mid: d[1], hi: d[2] })
        },
        None => None,
    }
}

/// `scrypto`'s `Decimal::checked_mul`, on limbs. The contract claims that it
/// multiplies the two subunit counts exactly, divides by `10^18` rounding
/// toward zero, and returns the quotient when its magnitude is below `2^191`,
/// and `None` otherwise: the quotient `-2^191`, though representable, is
/// refused when the wide product is narrowed.
#[verifier::external_body]
fn scrypto_checked_mul(a: Decimal, b: Decimal) -> (r: Option<Decimal>)
    ensures
        attos_of(r) == product_of(a@, b@),
{
    let x = scrypto::math::Decimal::from_attos(scrypto::math::I192::from_digits([a.lo, a.mid, a.hi]));
    let y = scrypto::math::Decimal::from_attos(scrypto::math::I192::from_digits([b.lo, b.mid, b.hi]));
    match scrypto::math::CheckedMul::checked_mul(x, y) {
        Some(z) => {
            let d = z.attos().to_digits();
            Some(Decimal { lo: d[0], mid: d[1], hi: d[2] })
        },
        None => None,
    }
}

} // verus!
