//! Fixed-point numbers with twelve decimal places.
//!
//! The arithmetic itself is `spl_math`'s `PreciseNumber`, a 256-bit unsigned
//! integer that stands for its value divided by `ONE`. This module holds such
//! a number as its four 64-bit limbs, gives it its mathematical value as a
//! view, and states what each operation of `PreciseNumber` returns. Those
//! statements are taken on trust; everything built on them is proved.

use spl_math::precise_number::PreciseNumber;
use spl_math::uint::U256;
use vstd::prelude::*;

verus! {

/// The number one as a fixed-point value: `10^12`.
pub const ONE: u128 = 1_000_000_000_000;

/// One half as a fixed-point value, added before a division by `ONE` to
/// round to the nearest.
pub const HALF: u128 = 500_000_000_000;

/// `2^64`, the weight of the second limb.
pub open spec fn limb_base() -> nat {
    0x1_0000_0000_0000_0000nat
}

/// `2^256`, the first value that a fixed-point number cannot hold.
pub open spec fn limit() -> nat {
    0x1_0000_0000_0000_0000_0000_0000_0000_0000_0000_0000_0000_0000_0000_0000_0000_0000_0000_0000nat
}

/// A fixed-point number: a 256-bit unsigned integer in four limbs, the least
/// significant first, that stands for its value divided by `ONE`.
#[derive(Clone, Copy, Debug)]
pub struct Precise {
    /// The limbs of the scaled value, least significant first.
    pub limbs: [u64; 4],
}

impl View for Precise {
    type V = nat;

    /// The scaled value: the limbs read as one number in base `2^64`.
    open spec fn view(&self) -> nat {
        (self.limbs[0] + self.limbs[1] * limb_base() + self.limbs[2] * limb_base() * limb_base()
            + self.limbs[3] * limb_base() * limb_base() * limb_base()) as nat
    }
}

/// The scaled value of a number that may be absent.
pub open spec fn value_of(number: Option<Precise>) -> Option<nat> {
    match number {
        Some(p) => Some(p@),
        None => None,
    }
}

/// `value` where it fits in 256 bits.
pub open spec fn checked(value: int) -> Option<nat> {
    if 0 <= value < limit() {
        Some(value as nat)
    } else {
        None
    }
}

/// Sum of two fixed-point numbers.
pub open spec fn precise_add_spec(a: nat, b: nat) -> Option<nat> {
    checked((a + b) as int)
}

/// Difference of two fixed-point numbers, absent where it would be negative.
pub open spec fn precise_sub_spec(a: nat, b: nat) -> Option<nat> {
    checked(a - b)
}

/// Product of two fixed-point numbers, rounded to the nearest. Where the
/// full product leaves 256 bits, the larger factor is first cut down to a
/// whole number.
pub open spec fn precise_mul_spec(a: nat, b: nat) -> Option<nat> {
    if a * b < limit() {
        if a * b + HALF < limit() {
            Some(((a * b + HALF) / (ONE as int)) as nat)
        } else {
            None
        }
    } else if a >= b {
        checked(((a / (ONE as nat)) * b) as int)
    } else {
        checked(((b / (ONE as nat)) * a) as int)
    }
}

/// Quotient of two fixed-point numbers: the dividend is scaled by `ONE`,
/// one half is added, and the sum is divided. Where scaling the dividend
/// leaves 256 bits, the quotient is taken first and scaled after.
pub open spec fn precise_div_spec(a: nat, b: nat) -> Option<nat> {
    if b == 0 {
        None
    } else if a * ONE < limit() {
        if a * ONE + HALF < limit() {
            Some(((a * ONE + HALF) / (b as int)) as nat)
        } else {
            None
        }
    } else if a + HALF < limit() {
        checked(((a + HALF) / (b as int)) * ONE)
    } else {
        None
    }
}

/// The largest whole number that is not above `a`.
pub open spec fn precise_floor_spec(a: nat) -> nat {
    ((a / (ONE as nat)) * ONE) as nat
}

/// The smallest whole number that is not below `a`, absent where adding
/// `ONE - 1` leaves 256 bits.
pub open spec fn precise_ceiling_spec(a: nat) -> Option<nat> {
    if a + ONE - 1 < limit() {
        Some((((a + ONE - 1) / (ONE as int)) * ONE) as nat)
    } else {
        None
    }
}

/// `a` as an integer, rounded to the nearest, where that fits in 128 bits.
pub open spec fn to_imprecise_spec(a: nat) -> Option<u128> {
    if a + HALF < ONE * 0x1_0000_0000_0000_0000_0000_0000_0000_0000int {
        Some(((a + HALF) / (ONE as int)) as u128)
    } else {
        None
    }
}

/// The square root that `PreciseNumber::sqrt` computes for the scaled value
/// `value`: the outcome of its Newton iteration, a function of the value
/// alone.
pub uninterp spec fn precise_sqrt_spec(value: nat) -> Option<nat>;

/// `PreciseNumber::new`: the whole number `value` as a fixed-point number.
/// It multiplies by `ONE` in 256 bits, which cannot overflow for a 128-bit
/// argument.
#[verifier::external_body]
pub(crate) fn precise_new(value: u128) -> (number: Option<Precise>)
    ensures
        value_of(number) == Some((value * ONE) as nat),
{
    match PreciseNumber::new(value) {
        Some(n) => Some(Precise { limbs: n.value.0 }),
        None => None,
    }
}

/// `PreciseNumber::checked_add`: the sum of the two scaled values, absent
/// on overflow of 256 bits.
#[verifier::external_body]
pub(crate) fn precise_checked_add(a: &Precise, b: &Precise) -> (number: Option<Precise>)
    ensures
        value_of(number) == precise_add_spec(a@, b@),
{
    let x = PreciseNumber { value: U256(a.limbs) };
    let y = PreciseNumber { value: U256(b.limbs) };
    match x.checked_add(&y) {
        Some(n) => Some(Precise { limbs: n.value.0 }),
        None => None,
    }
}

/// `PreciseNumber::checked_sub`: the difference of the two scaled values,
/// absent where the second is the larger.
#[verifier::external_body]
pub(crate) fn precise_checked_sub(a: &Precise, b: &Precise) -> (number: Option<Precise>)
    ensures
        value_of(number) == precise_sub_spec(a@, b@),
{
    let x = PreciseNumber { value: U256(a.limbs) };
    let y = PreciseNumber { value: U256(b.limbs) };
    match x.checked_sub(&y) {
        Some(n) => Some(Precise { limbs: n.value.0 }),
        None => None,
    }
}

/// `PreciseNumber::checked_mul`: the product of the scaled values plus one
/// half, divided by `ONE`; on overflow of the product, the larger value
/// divided by `ONE` times the smaller; absent where that overflows too.
#[verifier::external_body]
pub(crate) fn precise_checked_mul(a: &Precise, b: &Precise) -> (number: Option<Precise>)
    ensures
        value_of(number) == precise_mul_spec(a@, b@),
{
    let x = PreciseNumber { value: U256(a.limbs) };
    let y = PreciseNumber { value: U256(b.limbs) };
    match x.checked_mul(&y) {
        Some(n) => Some(Precise { limbs: n.value.0 }),
        None => None,
    }
}

/// `PreciseNumber::checked_div`: absent for a zero divisor; otherwise the
/// dividend times `ONE` plus one half, divided by the divisor; where the
/// scaling overflows, the dividend plus one half divided by the divisor,
/// then times `ONE`.
#[verifier::external_body]
pub(crate) fn precise_checked_div(a: &Precise, b: &Precise) -> (number: Option<Precise>)
    ensures
        value_of(number) == precise_div_spec(a@, b@),
{
    let x = PreciseNumber { value: U256(a.limbs) };
    let y = PreciseNumber { value: U256(b.limbs) };
    match x.checked_div(&y) {
        Some(n) => Some(Precise { limbs: n.value.0 }),
        None => None,
    }
}

/// `PreciseNumber::floor`: the scaled value divided by `ONE` and multiplied
/// by `ONE` again, which always succeeds.
#[verifier::external_body]
pub(crate) fn precise_floor(a: &Precise) -> (number: Option<Precise>)
    ensures
        value_of(number) == Some(precise_floor_spec(a@)),
{
    let x = PreciseNumber { value: U256(a.limbs) };
    match x.floor() {
        Some(n) => Some(Precise { limbs: n.value.0 }),
        None => None,
    }
}

/// `PreciseNumber::ceiling`: the scaled value plus `ONE - 1`, divided by
/// `ONE` and multiplied by `ONE` again; absent where the addition overflows.
#[verifier::external_body]
pub(crate) fn precise_ceiling(a: &Precise) -> (number: Option<Precise>)
    ensures
        value_of(number) == precise_ceiling_spec(a@),
{
    let x = PreciseNumber { value: U256(a.limbs) };
    match x.ceiling() {
        Some(n) => Some(Precise { limbs: n.value.0 }),
        None => None,
    }
}

/// `PreciseNumber::sqrt`: the result of its Newton iteration, which depends
/// on the scaled value alone and is named, not restated.
#[verifier::external_body]
pub(crate) fn precise_sqrt(a: &Precise) -> (number: Option<Precise>)
    ensures
        value_of(number) == precise_sqrt_spec(a@),
{
    let x = PreciseNumber { value: U256(a.limbs) };
    match x.sqrt() {
        Some(n) => Some(Precise { limbs: n.value.0 }),
        None => None,
    }
}

/// `PreciseNumber::to_imprecise`: the scaled value plus one half, divided by
/// `ONE`. The outside function panics where that quotient does not fit in
/// 128 bits, so those values are left out.
#[verifier::external_body]
pub(crate) fn precise_to_imprecise(a: &Precise) -> (value: Option<u128>)
    requires
        to_imprecise_spec(a@) is Some,
    ensures
        value == to_imprecise_spec(a@),
{
    let x = PreciseNumber { value: U256(a.limbs) };
    x.to_imprecise()
}

impl Precise {
    /// Whether the number, rounded to the nearest integer, fits in 128 bits.
    pub fn rounds_into_u128(&self) -> (fits: bool)
        ensures
            fits == (to_imprecise_spec(self@) is Some),
    {
        let top: u64 = (ONE - 1) as u64;
        if self.limbs[3] != 0 {
            false
        } else if self.limbs[2] < top {
            true
        } else if self.limbs[2] == top {
            let low: u128 = (self.limbs[1] as u128) * 0x1_0000_0000_0000_0000u128
                + self.limbs[0] as u128;
            low < 0xFFFF_FFFF_FFFF_FFFF_FFFF_FFFF_FFFF_FFFFu128 - HALF + 1
        } else {
            false
        }
    }

    /// The number as an integer, rounded to the nearest; absent where that
    /// does not fit in 128 bits.
    pub fn to_imprecise(&self) -> (value: Option<u128>)
        ensures
            value == to_imprecise_spec(self@),
    {
        if self.rounds_into_u128() {
            precise_to_imprecise(self)
        } else {
            None
        }
    }
}

} // verus!
