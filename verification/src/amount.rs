//! Amounts of value: unsigned 512-bit integers, held as eight 64-bit limbs
//! with the least significant limb first.
//!
//! The arithmetic itself is done by `casper_types::U512`; this module gives
//! every amount its mathematical value and states each operation over it.

use vstd::prelude::*;

verus! {

/// The weight of one limb: 2^64.
pub open spec fn radix() -> nat {
    0x1_0000_0000_0000_0000
}

/// `radix()` raised to the power `n`.
pub open spec fn radix_power(n: nat) -> nat
    decreases n,
{
    if n == 0 {
        1
    } else {
        radix() * radix_power((n - 1) as nat)
    }
}

/// The number that a sequence of limbs stands for, least significant first.
pub open spec fn limbs_value(limbs: Seq<u64>) -> nat
    decreases limbs.len(),
{
    if limbs.len() == 0 {
        0
    } else {
        limbs[0] as nat + radix() * limbs_value(limbs.drop_first())
    }
}

/// A sequence of limbs stands for a number below `radix()` to the power of
/// its length.
pub proof fn lemma_limbs_value_bound(limbs: Seq<u64>)
    ensures
        limbs_value(limbs) < radix_power(limbs.len()),
    decreases limbs.len(),
{
    if limbs.len() > 0 {
        let rest = limbs.drop_first();
        lemma_limbs_value_bound(rest);
        let high = limbs_value(rest);
        let cap = radix_power(rest.len());
        assert(radix() * high + radix() <= radix() * cap) by (nonlinear_arith)
            requires
                high + 1 <= cap,
        ;
    }
}

/// Two limb sequences of one length that stand for the same number are the
/// same sequence.
pub proof fn lemma_limbs_value_injective(a: Seq<u64>, b: Seq<u64>)
    requires
        a.len() == b.len(),
        limbs_value(a) == limbs_value(b),
    ensures
        a == b,
    decreases a.len(),
{
    if a.len() > 0 {
        let ha = limbs_value(a.drop_first());
        let hb = limbs_value(b.drop_first());
        let la = a[0] as nat;
        let lb = b[0] as nat;
        assert(la == lb && ha == hb) by (nonlinear_arith)
            requires
                la + radix() * ha == lb + radix() * hb,
                la < radix(),
                lb < radix(),
                radix() == 0x1_0000_0000_0000_0000,
        ;
        lemma_limbs_value_injective(a.drop_first(), b.drop_first());
        assert(a =~= seq![a[0]] + a.drop_first());
        assert(b =~= seq![b[0]] + b.drop_first());
    }
    assert(a =~= b);
}

/// The `count` lowest limbs of `value`, least significant first.
pub open spec fn limbs_of(value: nat, count: nat) -> Seq<u64>
    decreases count,
{
    if count == 0 {
        Seq::empty()
    } else {
        seq![(value % radix()) as u64] + limbs_of(value / radix(), (count - 1) as nat)
    }
}

/// A number below `radix()` to the power `count` is what its `count`
/// lowest limbs stand for.
pub proof fn lemma_limbs_of_value(value: nat, count: nat)
    requires
        value < radix_power(count),
    ensures
        limbs_of(value, count).len() == count,
        limbs_value(limbs_of(value, count)) == value,
    decreases count,
{
    if count > 0 {
        let high = value / radix();
        let cap = radix_power((count - 1) as nat);
        assert(high < cap) by (nonlinear_arith)
            requires
                value < radix() * cap,
                high == value / radix(),
                radix() == 0x1_0000_0000_0000_0000,
        ;
        lemma_limbs_of_value(high, (count - 1) as nat);
        let limbs = limbs_of(value, count);
        assert(limbs.drop_first() =~= limbs_of(high, (count - 1) as nat));
        assert(value == value % radix() + radix() * high) by (nonlinear_arith)
            requires
                high == value / radix(),
                radix() == 0x1_0000_0000_0000_0000,
        ;
    }
}

/// An amount of value, from 0 up to 2^512 - 1.
#[derive(Clone, Copy, Debug, PartialEq, Eq, Hash)]
pub struct Amount {
    pub limbs: [u64; 8],
}

impl View for Amount {
    type V = nat;

    open spec fn view(&self) -> nat {
        limbs_value(self.limbs@)
    }
}

impl Amount {
    /// The first number that no amount can hold: 2^512.
    pub open spec fn bound() -> nat {
        radix_power(8)
    }

    /// Every amount is below `bound()`.
    pub proof fn lemma_view_bound(self)
        ensures
            self@ < Amount::bound(),
    {
        lemma_limbs_value_bound(self.limbs@);
    }

    /// Amounts of equal value are equal.
    pub proof fn lemma_view_injective(self, other: Amount)
        requires
            self@ == other@,
        ensures
            self == other,
    {
        lemma_limbs_value_injective(self.limbs@, other.limbs@);
        assert(self.limbs =~= other.limbs);
    }

    /// The amount whose value is `value`, for a value below `bound()`.
    pub open spec fn of(value: nat) -> Amount {
        choose|amount: Amount| amount@ == value
    }

    /// Every value below the bound is the value of an amount.
    pub proof fn lemma_of_value(value: nat)
        requires
            value < Amount::bound(),
        ensures
            Amount::of(value)@ == value,
    {
        lemma_limbs_of_value(value, 8);
        let l = limbs_of(value, 8);
        let amount = Amount { limbs: [l[0], l[1], l[2], l[3], l[4], l[5], l[6], l[7]] };
        assert(amount.limbs@ =~= l);
        assert(amount@ == value);
    }

    /// An amount is the amount of its value.
    pub proof fn lemma_of_view(self)
        ensures
            Amount::of(self@) == self,
    {
        Amount::of(self@).lemma_view_injective(self);
    }

    /// The amount 0.
    pub fn zero() -> (r: Amount)
        ensures
            r@ == 0,
    {
        Amount::from_u64(0)
    }

    /// The amount `value`.
    pub fn from_u64(value: u64) -> (r: Amount)
        ensures
            r@ == value,
    {
        let r = Amount { limbs: [value, 0, 0, 0, 0, 0, 0, 0] };
        proof {
            lemma_low_limb_value(r.limbs@);
        }
        r
    }

    /// The amount as a `u64`, if it fits.
    pub fn as_u64(&self) -> (r: Option<u64>)
        ensures
            self@ <= u64::MAX ==> r == Some(self@ as u64),
            self@ > u64::MAX ==> r is None,
    {
        let mut i: usize = 1;
        while i < 8
            invariant
                1 <= i <= 8,
                forall|j: int| 1 <= j < i ==> self.limbs[j] == 0,
            decreases 8 - i,
        {
            if self.limbs[i] != 0 {
                proof {
                    lemma_high_limb_value(self.limbs@, i as int);
                }
                return None;
            }
            i += 1;
        }
        proof {
            lemma_low_limb_value(self.limbs@);
        }
        Some(self.limbs[0])
    }
}

/// Limbs that are zero above the lowest one stand for the lowest limb.
pub proof fn lemma_low_limb_value(limbs: Seq<u64>)
    requires
        limbs.len() > 0,
        forall|j: int| 1 <= j < limbs.len() ==> limbs[j] == 0,
    ensures
        limbs_value(limbs) == limbs[0],
    decreases limbs.len(),
{
    let rest = limbs.drop_first();
    if rest.len() > 0 {
        lemma_low_limb_value(rest);
        assert(rest[0] == limbs[1]);
    }
    assert(limbs_value(rest) == 0);
    assert(radix() * 0 == 0);
}

/// Limbs with a nonzero limb above the lowest one stand for a number of at
/// least `radix()`.
pub proof fn lemma_high_limb_value(limbs: Seq<u64>, i: int)
    requires
        1 <= i < limbs.len(),
        limbs[i] != 0,
    ensures
        limbs_value(limbs) >= radix(),
    decreases limbs.len(),
{
    let rest = limbs.drop_first();
    if i == 1 {
        assert(rest[0] == limbs[1]);
        assert(limbs_value(rest) >= 1);
    } else {
        assert(rest[i - 1] == limbs[i]);
        lemma_high_limb_value(rest, i - 1);
    }
    let high = limbs_value(rest);
    assert(radix() * high >= radix()) by (nonlinear_arith)
        requires
            high >= 1,
    ;
}

/// Calls `U512::lt` (from `PartialOrd`, which compares the limbs from the
/// most significant down). Trusted: the answer is the order of the two
/// values.
#[verifier::external_body]
pub(crate) fn u512_lt(a: &Amount, b: &Amount) -> (r: bool)
    ensures
        r == (a@ < b@),
{
    casper_types::U512(a.limbs) < casper_types::U512(b.limbs)
}

/// Calls `U512::checked_add`. Trusted: the sum where it is below 2^512,
/// `None` where it is not.
#[verifier::external_body]
pub(crate) fn u512_checked_add(a: &Amount, b: &Amount) -> (r: Option<Amount>)
    ensures
        a@ + b@ < Amount::bound() ==> r is Some && r->0@ == a@ + b@,
        a@ + b@ >= Amount::bound() ==> r is None,
{
    match casper_types::U512(a.limbs).checked_add(casper_types::U512(b.limbs)) {
        Some(sum) => Some(Amount { limbs: sum.0 }),
        None => None,
    }
}

/// Calls `U512::checked_sub`. Trusted: the difference where the first value
/// is at least the second, `None` where it is smaller.
#[verifier::external_body]
pub(crate) fn u512_checked_sub(a: &Amount, b: &Amount) -> (r: Option<Amount>)
    ensures
        a@ >= b@ ==> r is Some && r->0@ == a@ - b@,
        a@ < b@ ==> r is None,
{
    match casper_types::U512(a.limbs).checked_sub(casper_types::U512(b.limbs)) {
        Some(difference) => Some(Amount { limbs: difference.0 }),
        None => None,
    }
}

/// Calls `U512::checked_mul`. Trusted: the product where it is below 2^512,
/// `None` where it is not.
#[verifier::external_body]
pub(crate) fn u512_checked_mul(a: &Amount, b: &Amount) -> (r: Option<Amount>)
    ensures
        a@ * b@ < Amount::bound() ==> r is Some && r->0@ == a@ * b@,
        a@ * b@ >= Amount::bound() ==> r is None,
{
    match casper_types::U512(a.limbs).checked_mul(casper_types::U512(b.limbs)) {
        Some(product) => Some(Amount { limbs: product.0 }),
        None => None,
    }
}

/// Calls `U512::div_mod`, which panics on a zero divisor. Trusted: the
/// quotient and the remainder of the two values.
#[verifier::external_body]
pub(crate) fn u512_div_mod(a: &Amount, b: &Amount) -> (r: (Amount, Amount))
    requires
        b@ != 0,
    ensures
        r.0@ == a@ / b@,
        r.1@ == a@ % b@,
{
    let (quotient, remainder) = casper_types::U512(a.limbs).div_mod(casper_types::U512(b.limbs));
    (Amount { limbs: quotient.0 }, Amount { limbs: remainder.0 })
}

} // verus!
