use vstd::prelude::*;

use crate::models::UserId;
use crate::money::{equal_share, total_cents, Money};

verus! {

/// How the cost of an expense is divided among its participants.
#[derive(Debug, Clone, PartialEq)]
pub enum Split {
    /// The amount is divided equally among these people.
    Equal(Vec<UserId>),
    /// Each person owes the stated amount.
    Exact(Vec<(UserId, Money)>),
}

/// The sum, in cents, of the amounts of a list of exact shares.
pub open spec fn shares_total(s: Seq<(UserId, Money)>) -> int
    decreases s.len(),
{
    if s.len() == 0 {
        0
    } else {
        shares_total(s.drop_last()) + s.last().1.value()
    }
}

/// No share in the list is negative.
pub open spec fn no_negative_share(s: Seq<(UserId, Money)>) -> bool {
    forall|i: int| 0 <= i < s.len() ==> #[trigger] s[i].1.value() >= 0
}

/// The people named in a list of shares, in order.
pub open spec fn share_owners(s: Seq<(UserId, Money)>) -> Seq<UserId> {
    s.map_values(|p: (UserId, Money)| p.0)
}

/// The amounts of a list of shares, in order.
pub open spec fn share_amounts(s: Seq<(UserId, Money)>) -> Seq<Money> {
    s.map_values(|p: (UserId, Money)| p.1)
}

/// The sum of the amounts of a list of shares, taken from the list of amounts
/// alone, is the sum of the shares.
pub proof fn lemma_share_amounts_total(s: Seq<(UserId, Money)>)
    ensures
        total_cents(share_amounts(s)) == shares_total(s),
    decreases s.len(),
{
    if s.len() > 0 {
        lemma_share_amounts_total(s.drop_last());
        assert(share_amounts(s).drop_last() =~= share_amounts(s.drop_last()));
    }
}

/// Partial sums of non-negative shares never exceed the whole sum.
pub proof fn lemma_prefix_total_bounded(s: Seq<(UserId, Money)>, k: int)
    requires
        no_negative_share(s),
        0 <= k <= s.len(),
    ensures
        0 <= shares_total(s.take(k)) <= shares_total(s),
    decreases s.len() - k,
{
    if k < s.len() {
        lemma_prefix_total_bounded(s, k + 1);
        assert(s.take(k + 1).drop_last() =~= s.take(k));
        assert(s.take(k + 1).last() == s[k]);
    } else {
        assert(s.take(k) =~= s);
    }
    lemma_nonnegative_total(s.take(k));
}

/// The sum of non-negative shares is non-negative.
pub proof fn lemma_nonnegative_total(s: Seq<(UserId, Money)>)
    requires
        no_negative_share(s),
    ensures
        shares_total(s) >= 0,
    decreases s.len(),
{
    if s.len() > 0 {
        assert(no_negative_share(s.drop_last())) by {
            assert forall|i: int| 0 <= i < s.drop_last().len() implies #[trigger] s.drop_last()[i].1.value() >= 0 by {
                assert(s.drop_last()[i] == s[i]);
            }
        }
        lemma_nonnegative_total(s.drop_last());
        assert(s.last().1.value() >= 0);
    }
}

impl Split {
    /// The people who take part in the split, in order.
    pub open spec fn participant_ids(self) -> Seq<UserId> {
        match self {
            Split::Equal(ids) => ids@,
            Split::Exact(shares) => share_owners(shares@),
        }
    }

    /// The machine limits of `compute_money_shares`: an equal split names at
    /// most `i64::MAX` people, and the shares of an exact split, when none is
    /// negative, add up to an amount that fits in an `i64`.
    pub open spec fn fits_machine(self) -> bool {
        match self {
            Split::Equal(ids) => ids.len() <= i64::MAX,
            Split::Exact(shares) => no_negative_share(shares@) ==> shares_total(shares@)
                <= i64::MAX,
        }
    }

    /// An equal split among `user_ids`; there must be at least one of them.
    pub fn new_equal(user_ids: Vec<UserId>) -> (r: Result<Split, String>)
        ensures
            user_ids.len() == 0 ==> (r matches Err(e) && e@
                == "Equal split must have at least one participant"@),
            user_ids.len() > 0 ==> (r matches Ok(s) && s matches Split::Equal(ids) && ids@
                == user_ids@),
    {
        if user_ids.len() == 0 {
            return Err("Equal split must have at least one participant".to_string());
        }
        Ok(Split::Equal(user_ids))
    }

    /// An exact split with the given shares; there must be at least one share
    /// and none may be negative.
    pub fn new_exact(shares: Vec<(UserId, Money)>) -> (r: Result<Split, String>)
        ensures
            shares.len() == 0 ==> (r matches Err(e) && e@
                == "Exact split must have at least one participant"@),
            shares.len() > 0 && !no_negative_share(shares@) ==> (r matches Err(e) && e@
                == "Share amounts cannot be negative"@),
            shares.len() > 0 && no_negative_share(shares@) ==> (r matches Ok(s)
                && s matches Split::Exact(v) && v@ == shares@),
    {
        if shares.len() == 0 {
            return Err("Exact split must have at least one participant".to_string());
        }
        let mut i: usize = 0;
        while i < shares.len()
            invariant
                0 <= i <= shares.len(),
                forall|j: int| 0 <= j < i ==> #[trigger] shares@[j].1.value() >= 0,
            decreases shares.len() - i,
        {
            if shares[i].1.is_negative() {
                assert(shares@[i as int].1.value() < 0);
                return Err("Share amounts cannot be negative".to_string());
            }
            i = i + 1;
        }
        Ok(Split::Exact(shares))
    }

    /// The people who take part in the split, in order.
    pub fn participants(&self) -> (r: Vec<UserId>)
        ensures
            r@ == self.participant_ids(),
    {
        match self {
            Split::Equal(user_ids) => {
                let mut r: Vec<UserId> = Vec::new();
                let mut i: usize = 0;
                while i < user_ids.len()
                    invariant
                        0 <= i <= user_ids.len(),
                        r@ == user_ids@.take(i as int),
                    decreases user_ids.len() - i,
                {
                    r.push(user_ids[i]);
                    i = i + 1;
                    assert(r@ =~= user_ids@.take(i as int));
                }
                assert(user_ids@.take(user_ids.len() as int) =~= user_ids@);
                r
            },
            Split::Exact(shares) => {
                let mut r: Vec<UserId> = Vec::new();
                let mut i: usize = 0;
                while i < shares.len()
                    invariant
                        0 <= i <= shares.len(),
                        r@ == share_owners(shares@).take(i as int),
                    decreases shares.len() - i,
                {
                    r.push(shares[i].0);
                    i = i + 1;
                    assert(r@ =~= share_owners(shares@).take(i as int));
                }
                assert(share_owners(shares@).take(shares.len() as int) =~= share_owners(shares@));
                r
            },
        }
    }

    /// Turns the split into one amount per participant for an expense of
    /// `total_amount`.
    ///
    /// An equal split divides the total so that no cent is lost (see
    /// `Money::split_equal`). An exact split keeps its shares, which must not
    /// be negative and must add up to the total.
    #[verifier::loop_isolation(false)]
    pub fn compute_money_shares(&self, total_amount: Money) -> (r: Result<Vec<(UserId, Money)>, String>)
        requires
            self.fits_machine(),
        ensures
            match *self {
                Split::Equal(ids) => if ids.len() == 0 {
                    r matches Err(e) && e@ == "Equal split must have at least one participant"@
                } else if total_amount.value() < 0 {
                    r matches Err(e) && e@ == "Cannot split a negative amount"@
                } else {
                    r matches Ok(v) && v.len() == ids.len() && (forall|i: int|
                        0 <= i < ids.len() ==> #[trigger] v[i].0 == ids[i] && v[i].1.value()
                            == equal_share(total_amount.value(), ids.len() as int, i))
                },
                Split::Exact(shares) => if shares.len() == 0 {
                    r matches Err(e) && e@ == "Exact split must have at least one participant"@
                } else if !no_negative_share(shares@) {
                    r matches Err(e) && e@ == "Share amounts cannot be negative"@
                } else if shares_total(shares@) != total_amount.value() {
                    r matches Err(e) && e@ == "Exact shares must add up to the total amount"@
                } else {
                    r matches Ok(v) && v@ == shares@
                },
            },
            r matches Ok(v) ==> shares_total(v@) == total_amount.value() && share_owners(v@)
                == self.participant_ids(),
    {
        match self {
            Split::Equal(user_ids) => {
                if user_ids.len() == 0 {
                    return Err("Equal split must have at least one participant".to_string());
                }
                let amounts = match total_amount.split_equal(user_ids.len()) {
                    Ok(a) => a,
                    Err(e) => {
                        return Err(e);
                    },
                };
                let mut out: Vec<(UserId, Money)> = Vec::new();
                let mut i: usize = 0;
                while i < user_ids.len()
                    invariant
                        0 <= i <= user_ids.len(),
                        amounts.len() == user_ids.len(),
                        out.len() == i,
                        forall|j: int|
                            0 <= j < i ==> #[trigger] out@[j] == (user_ids@[j], amounts@[j]),
                    decreases user_ids.len() - i,
                {
                    out.push((user_ids[i], amounts[i]));
                    i = i + 1;
                }
                proof {
                    assert(share_amounts(out@) =~= amounts@);
                    lemma_share_amounts_total(out@);
                    assert(share_owners(out@) =~= user_ids@);
                }
                Ok(out)
            },
            Split::Exact(shares) => {
                if shares.len() == 0 {
                    return Err("Exact split must have at least one participant".to_string());
                }
                let mut i: usize = 0;
                while i < shares.len()
                    invariant
                        0 <= i <= shares.len(),
                        forall|j: int| 0 <= j < i ==> #[trigger] shares@[j].1.value() >= 0,
                    decreases shares.len() - i,
                {
                    if shares[i].1.is_negative() {
                        assert(shares@[i as int].1.value() < 0);
                        return Err("Share amounts cannot be negative".to_string());
                    }
                    i = i + 1;
                }
                assert(no_negative_share(shares@));
                let mut split_total: i64 = 0;
                let mut k: usize = 0;
                while k < shares.len()
                    invariant
                        0 <= k <= shares.len(),
                        no_negative_share(shares@),
                        shares_total(shares@) <= i64::MAX,
                        split_total == shares_total(shares@.take(k as int)),
                    decreases shares.len() - k,
                {
                    proof {
                        lemma_prefix_total_bounded(shares@, k + 1);
                        assert(shares@.take(k + 1).drop_last() =~= shares@.take(k as int));
                    }
                    split_total = split_total + shares[k].1.cents();
                    k = k + 1;
                }
                assert(shares@.take(shares.len() as int) =~= shares@);
                if split_total != total_amount.cents() {
                    return Err("Exact shares must add up to the total amount".to_string());
                }
                let mut out: Vec<(UserId, Money)> = Vec::new();
                let mut j: usize = 0;
                while j < shares.len()
                    invariant
                        0 <= j <= shares.len(),
                        out@ == shares@.take(j as int),
                    decreases shares.len() - j,
                {
                    out.push(shares[j]);
                    j = j + 1;
                    assert(out@ =~= shares@.take(j as int));
                }
                assert(out@ =~= shares@);
                Ok(out)
            },
        }
    }
}

} // verus!
