//! The royalty structure: who shares in a sale, and how much of the price
//! is owed in total.

use vstd::prelude::*;
use vstd::arithmetic::div_mod::lemma_hoist_over_denominator;
use crate::amount::{u512_checked_add, u512_checked_mul, u512_div_mod, Amount};
use crate::identity::Identity;

verus! {

/// One beneficiary and the percentage of the price owed to it.
#[derive(Clone, Copy, Debug, PartialEq, Eq)]
pub struct RoyaltyShare {
    pub beneficiary: Identity,
    pub percent: u8,
}

/// The sum of the percentages of `shares`.
pub open spec fn total_percent(shares: Seq<RoyaltyShare>) -> nat
    decreases shares.len(),
{
    if shares.len() == 0 {
        0
    } else {
        total_percent(shares.drop_last()) + shares.last().percent as nat
    }
}

/// No beneficiary is listed twice.
pub open spec fn distinct_beneficiaries(shares: Seq<RoyaltyShare>) -> bool {
    forall|i: int, j: int|
        0 <= i < j < shares.len() ==> shares[i].beneficiary != shares[j].beneficiary
}

/// What makes a list of shares a royalty structure: no beneficiary twice,
/// and no more than the whole price given away.
pub open spec fn valid_shares(shares: Seq<RoyaltyShare>) -> bool {
    &&& distinct_beneficiaries(shares)
    &&& total_percent(shares) <= 100
}

/// What one share of `percent` percent takes of `price`, rounded down.
pub open spec fn share_amount(price: nat, percent: nat) -> nat {
    price * percent / 100
}

/// The royalty owed on `price`: the sum of what each share takes.
pub open spec fn total_royalty(shares: Seq<RoyaltyShare>, price: nat) -> nat
    decreases shares.len(),
{
    if shares.len() == 0 {
        0
    } else {
        total_royalty(shares.drop_last(), price) + share_amount(
            price,
            shares.last().percent as nat,
        )
    }
}

/// The percentages of a prefix sum to no more than those of the whole list.
pub proof fn lemma_total_percent_prefix(shares: Seq<RoyaltyShare>, n: int)
    requires
        0 <= n <= shares.len(),
    ensures
        total_percent(shares.subrange(0, n)) <= total_percent(shares),
    decreases shares.len(),
{
    if n == shares.len() {
        assert(shares.subrange(0, n) =~= shares);
    } else {
        assert(shares.drop_last().subrange(0, n) =~= shares.subrange(0, n));
        lemma_total_percent_prefix(shares.drop_last(), n);
    }
}

/// A hundred times the royalty is at most the price times the summed
/// percentages.
pub proof fn lemma_total_royalty_scaled(shares: Seq<RoyaltyShare>, price: nat)
    ensures
        total_royalty(shares, price) * 100 <= price * total_percent(shares),
    decreases shares.len(),
{
    if shares.len() > 0 {
        lemma_total_royalty_scaled(shares.drop_last(), price);
        let before = total_royalty(shares.drop_last(), price);
        let percent_before = total_percent(shares.drop_last());
        let percent = shares.last().percent as nat;
        let cut = share_amount(price, percent);
        assert((before + cut) * 100 <= price * (percent_before + percent)) by (nonlinear_arith)
            requires
                before * 100 <= price * percent_before,
                cut == price * percent / 100,
        ;
    } else {
        assert(price * 0 == 0);
    }
}

/// The royalty never exceeds the price where the percentages sum to at
/// most a hundred.
pub proof fn lemma_total_royalty_at_most_price(shares: Seq<RoyaltyShare>, price: nat)
    requires
        total_percent(shares) <= 100,
    ensures
        total_royalty(shares, price) <= price,
{
    lemma_total_royalty_scaled(shares, price);
    let royalty = total_royalty(shares, price);
    let percent = total_percent(shares);
    assert(royalty <= price) by (nonlinear_arith)
        requires
            royalty * 100 <= price * percent,
            percent <= 100,
    ;
}

/// No single percentage exceeds the sum of all of them.
pub proof fn lemma_percent_within_total(shares: Seq<RoyaltyShare>, i: int)
    requires
        0 <= i < shares.len(),
    ensures
        shares[i].percent <= total_percent(shares),
    decreases shares.len(),
{
    if i < shares.len() - 1 {
        lemma_percent_within_total(shares.drop_last(), i);
    }
}

/// A validated royalty configuration, fixed once it is made.
#[derive(Debug, PartialEq, Eq)]
pub struct RoyaltyStructure {
    shares: Vec<RoyaltyShare>,
}

impl Clone for RoyaltyStructure {
    fn clone(&self) -> (r: Self)
        ensures
            r@ == self@,
    {
        proof {
            use_type_invariant(self);
        }
        let shares = self.shares.clone();
        assert(shares@ =~= self.shares@);
        RoyaltyStructure { shares }
    }
}

impl View for RoyaltyStructure {
    type V = Seq<RoyaltyShare>;

    closed spec fn view(&self) -> Seq<RoyaltyShare> {
        self.shares@
    }
}

impl RoyaltyStructure {
    #[verifier::type_invariant]
    spec fn well_formed(&self) -> bool {
        valid_shares(self.shares@)
    }

    /// The royalty that this structure asks on `price`.
    pub open spec fn royalty_on(&self, price: nat) -> nat {
        total_royalty(self@, price)
    }

    /// Makes a royalty structure of `shares`, or refuses a list that names
    /// a beneficiary twice or gives away more than a hundred percent.
    pub fn new(shares: Vec<RoyaltyShare>) -> (r: Option<RoyaltyStructure>)
        ensures
            valid_shares(shares@) ==> r is Some && r->0@ == shares@,
            !valid_shares(shares@) ==> r is None,
    {
        if !within_whole(&shares) || !no_beneficiary_twice(&shares) {
            return None;
        }
        Some(RoyaltyStructure { shares })
    }

    /// The shares, in the order in which they were given.
    pub fn shares(&self) -> (r: &Vec<RoyaltyShare>)
        ensures
            r@ == self@,
            valid_shares(r@),
    {
        proof {
            use_type_invariant(self);
        }
        &self.shares
    }

    /// The royalty owed on a sale at `price`: each share's percentage of
    /// the price, rounded down, summed over the shares.
    pub fn calculate_total_royalty(&self, price: Amount) -> (r: Amount)
        ensures
            r@ == self.royalty_on(price@),
            r@ <= price@,
    {
        proof {
            use_type_invariant(self);
            price.lemma_view_bound();
        }
        let hundred = Amount::from_u64(100);
        let (whole, rest) = u512_div_mod(&price, &hundred);
        let mut total = Amount::zero();
        let mut i: usize = 0;
        assert(self.shares@.subrange(0, 0) =~= Seq::<RoyaltyShare>::empty());
        while i < self.shares.len()
            invariant
                i <= self.shares.len(),
                total_percent(self.shares@) <= 100,
                hundred@ == 100,
                whole@ == price@ / 100,
                rest@ == price@ % 100,
                price@ < Amount::bound(),
                total@ == total_royalty(self.shares@.subrange(0, i as int), price@),
            decreases self.shares.len() - i,
        {
            let ghost before = self.shares@.subrange(0, i as int);
            let ghost after = self.shares@.subrange(0, i + 1);
            let percent = self.shares[i].percent;
            proof {
                lemma_percent_within_total(self.shares@, i as int);
            }
            let cut = share_of(&whole, &rest, percent, Ghost(price@));
            proof {
                assert(after.drop_last() =~= before);
                assert(after.last() == self.shares@[i as int]);
                lemma_total_percent_prefix(self.shares@, i + 1);
                lemma_total_royalty_at_most_price(after, price@);
            }
            total = u512_checked_add(&total, &cut).unwrap();
            i += 1;
        }
        proof {
            assert(self.shares@.subrange(0, i as int) =~= self.shares@);
            lemma_total_royalty_at_most_price(self.shares@, price@);
        }
        total
    }
}

/// What a share of `percent` percent takes of the price whose quotient and
/// remainder by a hundred are `whole` and `rest`.
fn share_of(whole: &Amount, rest: &Amount, percent: u8, Ghost(price): Ghost<nat>) -> (r: Amount)
    requires
        whole@ == price / 100,
        rest@ == price % 100,
        price < Amount::bound(),
        percent <= 100,
    ensures
        r@ == share_amount(price, percent as nat),
{
    let hundred = Amount::from_u64(100);
    let factor = Amount::from_u64(percent as u64);
    proof {
        let w = whole@;
        let s = rest@;
        let p = percent as nat;
        assert(w * p <= price && s * p < 10000 && price * p == (w * p) * 100 + s * p)
            by (nonlinear_arith)
            requires
                w == price / 100,
                s == price % 100,
                p <= 100,
        ;
        lemma_bound_is_large();
        lemma_hoist_over_denominator((s * p) as int, (w * p) as int, 100);
        assert((s * p) / 100 <= 100) by (nonlinear_arith)
            requires
                s * p < 10000,
        ;
        assert(w * p + (s * p) / 100 <= price) by (nonlinear_arith)
            requires
                price * p == (w * p) * 100 + s * p,
                p <= 100,
        ;
    }
    let whole_part = u512_checked_mul(whole, &factor).unwrap();
    let rest_scaled = u512_checked_mul(rest, &factor).unwrap();
    let (rest_part, _) = u512_div_mod(&rest_scaled, &hundred);
    u512_checked_add(&whole_part, &rest_part).unwrap()
}

/// The bound on amounts is far above the numbers that percentages reach.
proof fn lemma_bound_is_large()
    ensures
        Amount::bound() > 10000,
{
    reveal_with_fuel(crate::amount::radix_power, 9);
    assert(crate::amount::radix_power(1) >= 0x1_0000_0000_0000_0000);
    assert(crate::amount::radix_power(8) >= crate::amount::radix_power(1)) by {
        lemma_radix_power_grows(1, 8);
    }
}

/// Higher powers of the radix are no smaller.
proof fn lemma_radix_power_grows(low: nat, high: nat)
    requires
        low <= high,
    ensures
        crate::amount::radix_power(low) <= crate::amount::radix_power(high),
        crate::amount::radix_power(low) >= 1,
    decreases high,
{
    if low < high {
        lemma_radix_power_grows(low, (high - 1) as nat);
        let below = crate::amount::radix_power((high - 1) as nat);
        assert(crate::amount::radix() * below >= below) by (nonlinear_arith)
            requires
                crate::amount::radix() >= 1,
        ;
    } else if low > 0 {
        lemma_radix_power_grows((low - 1) as nat, (low - 1) as nat);
        let below = crate::amount::radix_power((low - 1) as nat);
        assert(crate::amount::radix() * below >= 1) by (nonlinear_arith)
            requires
                crate::amount::radix() >= 1,
                below >= 1,
        ;
    }
}

/// Whether the percentages of `shares` sum to at most a hundred.
fn within_whole(shares: &Vec<RoyaltyShare>) -> (r: bool)
    ensures
        r == (total_percent(shares@) <= 100),
{
    let mut sum: u64 = 0;
    let mut i: usize = 0;
    assert(shares@.subrange(0, 0) =~= Seq::<RoyaltyShare>::empty());
    while i < shares.len()
        invariant
            i <= shares.len(),
            sum == total_percent(shares@.subrange(0, i as int)),
            sum <= 100,
        decreases shares.len() - i,
    {
        proof {
            assert(shares@.subrange(0, i + 1).drop_last() =~= shares@.subrange(0, i as int));
            lemma_total_percent_prefix(shares@, i + 1);
        }
        sum = sum + shares[i].percent as u64;
        if sum > 100 {
            return false;
        }
        i += 1;
    }
    assert(shares@.subrange(0, i as int) =~= shares@);
    true
}

/// Whether no beneficiary occurs twice in `shares`.
fn no_beneficiary_twice(shares: &Vec<RoyaltyShare>) -> (r: bool)
    ensures
        r == distinct_beneficiaries(shares@),
{
    let mut j: usize = 0;
    while j < shares.len()
        invariant
            j <= shares.len(),
            forall|a: int, b: int| 0 <= a < b < j ==> shares[a].beneficiary != shares[b].beneficiary,
        decreases shares.len() - j,
    {
        let mut i: usize = 0;
        while i < j
            invariant
                i <= j < shares.len(),
                forall|a: int| 0 <= a < i ==> shares[a].beneficiary != shares[j as int].beneficiary,
            decreases j - i,
        {
            if shares[i].beneficiary == shares[j].beneficiary {
                return false;
            }
            i += 1;
        }
        j += 1;
    }
    true
}

} // verus!
