use vstd::prelude::*;

verus! {

/// The pair of two people with the smaller identifier first, as a
/// friendship is stored.
pub open spec fn spec_ordered_pair(a: i32, b: i32) -> (i32, i32) {
    if a < b {
        (a, b)
    } else {
        (b, a)
    }
}

pub fn ordered_pair(first_user_id: i32, second_user_id: i32) -> (r: (i32, i32))
    ensures
        r == spec_ordered_pair(first_user_id, second_user_id),
        r.0 <= r.1,
        (r.0 == first_user_id && r.1 == second_user_id) || (r.0 == second_user_id && r.1
            == first_user_id),
{
    if first_user_id < second_user_id {
        (first_user_id, second_user_id)
    } else {
        (second_user_id, first_user_id)
    }
}

/// The row to store for a new friendship between two people, or none when
/// they are the same person or already friends.
pub fn friendship_row(first_user_id: i32, second_user_id: i32, already_friends: bool) -> (r:
    Option<(i32, i32)>)
    ensures
        r == (if first_user_id == second_user_id || already_friends {
            None
        } else {
            Some(spec_ordered_pair(first_user_id, second_user_id))
        }),
        first_user_id == second_user_id || already_friends ==> r is None,
        r matches Some(p) ==> p.0 < p.1 && ((p.0 == first_user_id && p.1 == second_user_id) || (
        p.0 == second_user_id && p.1 == first_user_id)),
        first_user_id != second_user_id && !already_friends ==> r is Some,
{
    if first_user_id == second_user_id {
        return None;
    }
    if already_friends {
        return None;
    }
    Some(ordered_pair(first_user_id, second_user_id))
}

/// The other person of a stored friendship, seen from `user_id`.
pub open spec fn other_side(row: (i32, i32), user_id: i32) -> i32 {
    if row.0 == user_id {
        row.1
    } else {
        row.0
    }
}

/// The friends of `user_id`, one for each stored friendship row that names
/// them, in the order of the rows.
pub fn friend_ids_of(user_id: i32, rows: &Vec<(i32, i32)>) -> (r: Vec<i32>)
    ensures
        r@ == rows@.map_values(|row: (i32, i32)| other_side(row, user_id)),
{
    let mut r: Vec<i32> = Vec::new();
    let mut i: usize = 0;
    while i < rows.len()
        invariant
            0 <= i <= rows.len(),
            r@ == rows@.take(i as int).map_values(|row: (i32, i32)| other_side(row, user_id)),
        decreases rows.len() - i,
    {
        let (user, friend) = rows[i];
        if user == user_id {
            r.push(friend);
        } else {
            r.push(user);
        }
        i = i + 1;
        assert(r@ =~= rows@.take(i as int).map_values(|row: (i32, i32)| other_side(row, user_id)));
    }
    assert(rows@.take(rows.len() as int) =~= rows@);
    r
}

/// The sum of a list of amounts in cents.
pub open spec fn cents_sum(s: Seq<i64>) -> int
    decreases s.len(),
{
    if s.len() == 0 {
        0
    } else {
        cents_sum(s.drop_last()) + s.last()
    }
}

/// Every running sum of the list fits in an `i64`.
pub open spec fn running_sums_fit(s: Seq<i64>) -> bool {
    forall|k: int| 0 <= k <= s.len() ==> i64::MIN <= #[trigger] cents_sum(s.take(k)) <= i64::MAX
}

/// Sums a list of amounts in cents.
fn sum_cents(v: &Vec<i64>) -> (r: i64)
    requires
        running_sums_fit(v@),
    ensures
        r == cents_sum(v@),
{
    let mut total: i64 = 0;
    let mut i: usize = 0;
    while i < v.len()
        invariant
            0 <= i <= v.len(),
            running_sums_fit(v@),
            total == cents_sum(v@.take(i as int)),
        decreases v.len() - i,
    {
        assert(v@.take(i + 1).drop_last() =~= v@.take(i as int));
        assert(i64::MIN <= cents_sum(v@.take(i + 1)) <= i64::MAX);
        total = total + v[i];
        i = i + 1;
    }
    assert(v@.take(v.len() as int) =~= v@);
    total
}

/// A user's overall balance: what they paid for expenses minus their shares
/// of expenses, in cents.
pub fn net_balance(paid: &Vec<i64>, owed: &Vec<i64>) -> (r: i64)
    requires
        running_sums_fit(paid@),
        running_sums_fit(owed@),
        i64::MIN <= cents_sum(paid@) - cents_sum(owed@) <= i64::MAX,
    ensures
        r == cents_sum(paid@) - cents_sum(owed@),
{
    let p = sum_cents(paid);
    let o = sum_cents(owed);
    p - o
}

} // verus!
