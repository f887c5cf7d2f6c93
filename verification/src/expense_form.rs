use vstd::prelude::*;

verus! {

/// One person's part of a new expense, in cents.
#[derive(Debug, Clone, Copy, PartialEq, Eq, Structural)]
pub struct NewSplit {
    pub user_id: i32,
    pub amount_cents: i64,
}

/// Why a new expense was refused.
#[derive(Debug, Clone, Copy, PartialEq, Eq, Structural)]
pub enum NewExpenseError {
    /// The amount is zero or negative.
    AmountNotPositive,
    /// No friend was selected.
    NoFriendSelected,
    /// A selected person is not among the user's friends.
    NotAFriend,
}

impl NewExpenseError {
    /// The text shown for the refusal.
    pub fn message(&self) -> (m: &'static str)
        ensures
            m@ == match *self {
                NewExpenseError::AmountNotPositive => "Amount must be a positive number"@,
                NewExpenseError::NoFriendSelected => "Select at least one friend"@,
                NewExpenseError::NotAFriend =>
                    "One or more selected friends are not in your friend list"@,
            },
    {
        match self {
            NewExpenseError::AmountNotPositive => "Amount must be a positive number",
            NewExpenseError::NoFriendSelected => "Select at least one friend",
            NewExpenseError::NotAFriend => "One or more selected friends are not in your friend list",
        }
    }
}

/// The sum, in cents, of the parts of an expense.
pub open spec fn splits_total(s: Seq<NewSplit>) -> int
    decreases s.len(),
{
    if s.len() == 0 {
        0
    } else {
        splits_total(s.drop_last()) + s.last().amount_cents
    }
}

/// Every selected person is one of the user's friends.
pub open spec fn all_are_friends(selected: Seq<i32>, friends: Seq<i32>) -> bool {
    forall|i: int| 0 <= i < selected.len() ==> friends.contains(#[trigger] selected[i])
}

/// The sum of a list whose first part is `first` and whose other `n` parts
/// are all `share`.
proof fn lemma_splits_total(s: Seq<NewSplit>, first: int, share: int)
    requires
        s.len() >= 1,
        s[0].amount_cents == first,
        forall|k: int| 1 <= k < s.len() ==> #[trigger] s[k].amount_cents == share,
    ensures
        splits_total(s) == first + (s.len() - 1) * share,
    decreases s.len(),
{
    if s.len() > 1 {
        let t = s.drop_last();
        assert(t[0] == s[0]);
        assert forall|k: int| 1 <= k < t.len() implies #[trigger] t[k].amount_cents == share by {
            assert(t[k] == s[k]);
        }
        lemma_splits_total(t, first, share);
        assert(s.last().amount_cents == share);
        assert((s.len() - 1) * share == (s.len() - 2) * share + share) by (nonlinear_arith);
    } else {
        assert(splits_total(s.drop_last()) == 0);
    }
}

/// Divides a new expense of `amount_cents`, paid by the current user, equally
/// between the user and the selected friends. Each friend owes the quotient
/// of the amount by the number of people; the user's part is what is left,
/// so the parts add up to the amount. Every selected person must be among
/// `friends`, and at least one must be selected.
pub fn split_new_expense(
    current_user_id: i32,
    amount_cents: i64,
    friend_ids: &Vec<i32>,
    friends: &Vec<i32>,
) -> (r: Result<Vec<NewSplit>, NewExpenseError>)
    requires
        amount_cents >= 0,
        friend_ids.len() < i64::MAX,
    ensures
        friend_ids.len() == 0 ==> r == Err::<Vec<NewSplit>, NewExpenseError>(
            NewExpenseError::NoFriendSelected,
        ),
        friend_ids.len() > 0 && !all_are_friends(friend_ids@, friends@) ==> r == Err::<
            Vec<NewSplit>,
            NewExpenseError,
        >(NewExpenseError::NotAFriend),
        friend_ids.len() > 0 && all_are_friends(friend_ids@, friends@) ==> (r matches Ok(splits)
            && {
            let n = friend_ids.len() as int;
            let share = (amount_cents as int) / (n + 1);
            &&& splits.len() == n + 1
            &&& splits@[0] == (NewSplit {
                user_id: current_user_id,
                amount_cents: (amount_cents - share * n) as i64,
            })
            &&& forall|k: int|
                0 <= k < n ==> #[trigger] splits@[k + 1] == (NewSplit {
                    user_id: friend_ids@[k],
                    amount_cents: share as i64,
                })
        }),
        r matches Ok(splits) ==> splits_total(splits@) == amount_cents,
{
    if friend_ids.len() == 0 {
        return Err(NewExpenseError::NoFriendSelected);
    }
    let mut i: usize = 0;
    while i < friend_ids.len()
        invariant
            0 <= i <= friend_ids.len(),
            forall|j: int| 0 <= j < i ==> friends@.contains(#[trigger] friend_ids@[j]),
        decreases friend_ids.len() - i,
    {
        let id = friend_ids[i];
        let mut found = false;
        let mut k: usize = 0;
        while k < friends.len()
            invariant
                0 <= k <= friends.len(),
                found ==> friends@.contains(id),
                !found ==> forall|m: int| 0 <= m < k ==> friends@[m] != id,
            decreases friends.len() - k,
        {
            if friends[k] == id {
                assert(friends@[k as int] == id);
                found = true;
            }
            k = k + 1;
        }
        if !found {
            assert(!all_are_friends(friend_ids@, friends@)) by {
                assert(!friends@.contains(friend_ids@[i as int]));
            }
            return Err(NewExpenseError::NotAFriend);
        }
        i = i + 1;
    }
    let n = friend_ids.len() as i64;
    let participant_count = n + 1;
    let friends_share = amount_cents / participant_count;
    assert(0 <= friends_share * n <= amount_cents) by (nonlinear_arith)
        requires
            amount_cents >= 0,
            n >= 1,
            friends_share == (amount_cents as int) / (n + 1),
    ;
    let current_user_share = amount_cents - friends_share * n;
    let mut splits: Vec<NewSplit> = Vec::new();
    splits.push(NewSplit { user_id: current_user_id, amount_cents: current_user_share });
    let mut j: usize = 0;
    while j < friend_ids.len()
        invariant
            0 <= j <= friend_ids.len(),
            splits.len() == j + 1,
            splits@[0] == (NewSplit { user_id: current_user_id, amount_cents: current_user_share }),
            forall|k: int|
                0 <= k < j ==> #[trigger] splits@[k + 1] == (NewSplit {
                    user_id: friend_ids@[k],
                    amount_cents: friends_share,
                }),
        decreases friend_ids.len() - j,
    {
        splits.push(NewSplit { user_id: friend_ids[j], amount_cents: friends_share });
        j = j + 1;
    }
    proof {
        assert forall|k: int| 1 <= k < splits.len() implies #[trigger] splits@[k].amount_cents
            == friends_share by {
            assert(splits@[(k - 1) + 1].amount_cents == friends_share);
        }
        lemma_splits_total(splits@, current_user_share as int, friends_share as int);
        assert((splits.len() - 1) * friends_share == friends_share * n) by (nonlinear_arith)
            requires
                splits.len() - 1 == n,
        ;
    }
    Ok(splits)
}

} // verus!
