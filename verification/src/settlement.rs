use vstd::prelude::*;

verus! {

/// A payment that settles the balance between two friends.
#[derive(Debug, Clone, Copy, PartialEq, Eq, Structural)]
pub struct Settlement {
    pub from_id: i32,
    pub to_id: i32,
    pub amount_cents: i64,
}

/// Why a settlement was refused.
#[derive(Debug, Clone, Copy, PartialEq, Eq, Structural)]
pub enum SettleError {
    /// The other person is not the user's friend.
    NotAFriend,
    /// Nothing is owed in either direction.
    AlreadySettled,
}

impl SettleError {
    /// The text shown for the refusal.
    pub fn message(&self) -> (m: &'static str)
        ensures
            m@ == match *self {
                SettleError::NotAFriend => "This user is not your friend."@,
                SettleError::AlreadySettled => "You are already settled up."@,
            },
    {
        match self {
            SettleError::NotAFriend => "This user is not your friend.",
            SettleError::AlreadySettled => "You are already settled up.",
        }
    }
}

/// Settling up is only possible with a friend; this is checked before the
/// balance is looked at.
pub fn check_friendship(is_friend: bool) -> (r: Result<(), SettleError>)
    ensures
        r == (if is_friend {
            Ok::<(), SettleError>(())
        } else {
            Err(SettleError::NotAFriend)
        }),
{
    if !is_friend {
        return Err(SettleError::NotAFriend);
    }
    Ok(())
}

/// Decides how the current user and a friend settle up, given the user's
/// balance with the friend (positive when the friend owes the user).
/// Whoever owes pays the whole balance to the other.
pub fn plan_settlement(current_user_id: i32, friend_id: i32, balance: i64) -> (r: Result<
    Settlement,
    SettleError,
>)
    requires
        balance > i64::MIN,
    ensures
        balance == 0 ==> r == Err::<Settlement, SettleError>(SettleError::AlreadySettled),
        balance < 0 ==> r == Ok::<Settlement, SettleError>(
            (Settlement { from_id: current_user_id, to_id: friend_id, amount_cents: (-balance) as i64 }),
        ),
        balance > 0 ==> r == Ok::<Settlement, SettleError>(
            (Settlement { from_id: friend_id, to_id: current_user_id, amount_cents: balance }),
        ),
{
    if balance == 0 {
        return Err(SettleError::AlreadySettled);
    }
    let (from_id, to_id) = if balance < 0 {
        (current_user_id, friend_id)
    } else {
        (friend_id, current_user_id)
    };
    let amount_cents = if balance < 0 {
        -balance
    } else {
        balance
    };
    Ok(Settlement { from_id, to_id, amount_cents })
}

} // verus!
