use vstd::prelude::*;

use crate::friendship::spec_ordered_pair;
use crate::groups::{
    expense_in_group, expenses_outside, first_occurrences, groups_without, payment_in_group,
    payments_outside, GroupScoped,
};
use crate::models::{Expense, Group, GroupId, Payment, User, UserId};
use crate::money::{display_text, equal_share, Money};
use crate::store::{
    find_index, has_id, lemma_find_index, spec_current_user, spec_name_of, user_dto, AppData, HasId,
};
use crate::expense_form::{splits_total, NewSplit};
use crate::forms::{friend_request_outcome, FriendFormError};
use crate::friendship::cents_sum;
use crate::ledger::{
    expense_involves, expenses_of_friend, payment_involves, payments_of_friend, updated_expense,
};
use crate::money::total_cents;
use crate::registration::{registration_problem, RegisterForm, RegistrationError};
use crate::split::{shares_total, Split};
use crate::text::{lowercase_of, trimmed};
use vstd::std_specs::ops::{AddSpec, NegSpec, SubSpec};

verus! {

/// No two shares of an equal split differ by more than one cent, and a
/// share never exceeds an earlier one.
pub proof fn law_equal_shares_differ_by_at_most_one_cent(total: int, count: int, i: int, j: int)
    requires
        total >= 0,
        count > 0,
        0 <= i <= j < count,
    ensures
        equal_share(total, count, j) <= equal_share(total, count, i) <= equal_share(
            total,
            count,
            j,
        ) + 1,
{
}

/// Adding an amount and then subtracting it again gives back the first
/// amount.
pub proof fn law_add_then_subtract(a: Money, b: Money)
    requires
        i64::MIN <= a.value() + b.value() <= i64::MAX,
    ensures
        a.add_spec(b).value() == a.value() + b.value(),
        a.add_spec(b).sub_req(b),
        a.add_spec(b).sub_spec(b) == a,
{
    broadcast use Money::lemma_with_value;

    b.lemma_value_range();
    a.lemma_value_range();
    let s = a.add_spec(b);
    s.sub_spec(b).lemma_value_determines(a);
}

/// Negating an amount twice gives back the amount.
pub proof fn law_double_negation(a: Money)
    requires
        a.value() > i64::MIN,
    ensures
        a.neg_spec().neg_req(),
        a.neg_spec().neg_spec() == a,
{
    broadcast use Money::lemma_with_value;

    a.lemma_value_range();
    a.neg_spec().neg_spec().lemma_value_determines(a);
}

/// A negative amount is written as its positive counterpart with a leading
/// minus sign.
pub proof fn law_display_of_negative(c: int)
    requires
        c > 0,
    ensures
        display_text(-c) == seq!['-'] + display_text(c),
{
    assert(display_text(-c) =~= seq!['-'] + display_text(c));
}

/// The stored pair of a friendship does not depend on the order in which
/// the two people are given, and puts the smaller identifier first.
pub proof fn law_ordered_pair_is_symmetric(a: i32, b: i32)
    ensures
        spec_ordered_pair(a, b) == spec_ordered_pair(b, a),
        spec_ordered_pair(a, b).0 <= spec_ordered_pair(a, b).1,
{
}

/// The parts of a new expense add up to its amount, each friend's part is
/// the quotient of the amount by the number of people, and the current user
/// takes the rest, which is at least a friend's part and at most that part
/// plus one cent per friend.
pub proof fn law_new_expense_parts(amount: int, n: int)
    requires
        amount >= 0,
        n >= 1,
    ensures
        ({
            let share = amount / (n + 1);
            let mine = amount - share * n;
            &&& mine + n * share == amount
            &&& share <= mine <= share + n
        }),
{
    let share = amount / (n + 1);
    assert(amount - share * n + n * share == amount) by (nonlinear_arith);
    assert(share <= amount - share * n <= share + n) by (nonlinear_arith)
        requires
            share == amount / (n + 1),
            amount >= 0,
            n >= 1,
    ;
}

/// After the current user is set to a known person, the current user read
/// back is that person.
pub proof fn law_set_then_get_current_user(data: AppData, id: UserId)
    requires
        has_id(data.users@, id),
    ensures
        ({
            let i = find_index(data.users@, id)->0;
            &&& data.users@[i].id == id
            &&& spec_current_user(AppData { current_user_id: Some(id), ..data }) == Some(
                user_dto(data.users@[i]),
            )
        }),
{
    lemma_find_index(data.users@, id);
}

/// The name shown for a person is the name of the first user with that
/// identifier, and `Unknown` when nobody has it.
pub proof fn law_name_of_first_user(users: Seq<User>, user_id: UserId)
    ensures
        !has_id(users, user_id) ==> spec_name_of(users, user_id) == "Unknown"@,
        has_id(users, user_id) ==> exists|i: int|
            0 <= i < users.len() && users[i].id == user_id && (forall|j: int|
                0 <= j < i ==> users[j].id != user_id) && spec_name_of(users, user_id)
                == users[i].name@,
{
    lemma_find_index(users, user_id);
    if has_id(users, user_id) {
        let i = find_index(users, user_id)->0;
        assert(forall|j: int| 0 <= j < i ==> users[j].id_of() != user_id);
        assert(forall|j: int| 0 <= j < i ==> users[j].id != user_id) by {
            assert forall|j: int| 0 <= j < i implies users[j].id != user_id by {
                assert(users[j].id_of() != user_id);
            }
        }
    }
}

/// After the current user is removed, there is none.
pub proof fn law_removed_current_user_is_none(data: AppData)
    ensures
        spec_current_user(AppData { current_user_id: None, ..data }) is None,
{
}

/// A person added under an identifier that nobody has yet is found by that
/// identifier, under the name given.
pub proof fn law_added_person_is_found(users: Seq<User>, u: User)
    requires
        !has_id(users, u.id),
    ensures
        spec_name_of(users.push(u), u.id) == u.name@,
        has_id(users.push(u), u.id),
{
    let s = users.push(u);
    lemma_find_index(users, u.id);
    lemma_find_index(s, u.id);
    assert(s[users.len() as int].id_of() == u.id);
    match find_index(s, u.id) {
        Some(i) => {
            if i < users.len() {
                assert(users[i] == s[i]);
                assert(users[i].id_of() == u.id);
            }
        },
        None => {},
    }
}

/// After a group is deleted, no group with its identifier remains, nothing
/// is recorded against it any more, and everything else is kept.
pub proof fn law_deleted_group_leaves_nothing_behind(
    groups: Seq<Group>,
    expenses: Seq<Expense>,
    payments: Seq<Payment>,
    group_id: GroupId,
)
    ensures
        !has_id(groups_without(groups, group_id), group_id),
        forall|i: int|
            0 <= i < expenses_outside(expenses, group_id).len() ==> !expense_in_group(
                #[trigger] expenses_outside(expenses, group_id)[i],
                group_id,
            ),
        forall|i: int|
            0 <= i < payments_outside(payments, group_id).len() ==> !payment_in_group(
                #[trigger] payments_outside(payments, group_id)[i],
                group_id,
            ),
        forall|i: int|
            0 <= i < groups.len() && #[trigger] groups[i].id != group_id ==> groups_without(
                groups,
                group_id,
            ).contains(groups[i]),
        forall|i: int|
            0 <= i < expenses.len() && !expense_in_group(#[trigger] expenses[i], group_id)
                ==> expenses_outside(expenses, group_id).contains(expenses[i]),
        forall|i: int|
            0 <= i < payments.len() && !payment_in_group(#[trigger] payments[i], group_id)
                ==> payments_outside(payments, group_id).contains(payments[i]),
{
    broadcast use vstd::seq_lib::group_filter_ensures;

    let kept = groups_without(groups, group_id);
    assert forall|i: int| 0 <= i < kept.len() implies #[trigger] kept[i].id != group_id by {
        assert((|g: Group| !g.in_group(group_id))(kept[i]));
    }
    let ke = expenses_outside(expenses, group_id);
    assert forall|i: int| 0 <= i < ke.len() implies !expense_in_group(#[trigger] ke[i], group_id) by {
        assert((|e: Expense| !e.in_group(group_id))(ke[i]));
    }
    let kp = payments_outside(payments, group_id);
    assert forall|i: int| 0 <= i < kp.len() implies !payment_in_group(#[trigger] kp[i], group_id) by {
        assert((|p: Payment| !p.in_group(group_id))(kp[i]));
    }
}

/// The members of a new group are the chosen people, each once, in the
/// order they were first chosen.
pub proof fn law_group_members_are_distinct(ids: Seq<UserId>)
    ensures
        forall|i: int, j: int|
            0 <= i < j < first_occurrences(ids).len() ==> first_occurrences(ids)[i]
                != first_occurrences(ids)[j],
        forall|x: UserId| ids.contains(x) <==> first_occurrences(ids).contains(x),
    decreases ids.len(),
{
    if ids.len() > 0 {
        let t = ids.drop_last();
        let l = ids.last();
        law_group_members_are_distinct(t);
        let d = first_occurrences(t);
        assert(ids =~= t.push(l));
        assert forall|x: UserId| ids.contains(x) <==> (t.contains(x) || x == l) by {
            if ids.contains(x) {
                let k = choose|k: int| 0 <= k < ids.len() && ids[k] == x;
                if k < t.len() {
                    assert(t[k] == x);
                }
            }
            if t.contains(x) {
                let k = choose|k: int| 0 <= k < t.len() && t[k] == x;
                assert(ids[k] == x);
            }
            if x == l {
                assert(ids[ids.len() - 1] == x);
            }
        }
        if !d.contains(l) {
            assert forall|x: UserId| d.push(l).contains(x) <==> (d.contains(x) || x == l) by {
                if d.push(l).contains(x) {
                    let k = choose|k: int| 0 <= k < d.push(l).len() && d.push(l)[k] == x;
                    if k < d.len() {
                        assert(d[k] == x);
                    }
                }
                if d.contains(x) {
                    let k = choose|k: int| 0 <= k < d.len() && d[k] == x;
                    assert(d.push(l)[k] == x);
                }
                if x == l {
                    assert(d.push(l)[d.len() as int] == x);
                }
            }
            assert forall|i: int, j: int|
                0 <= i < j < d.push(l).len() implies d.push(l)[i] != d.push(l)[j] by {
                if j == d.len() {
                    assert(d.push(l)[i] == d[i]);
                }
            }
        }
    }
}

/// Updating an expense sets every field that is given and keeps every field
/// that is not, together with the identifier and the creation time.
pub proof fn law_update_sets_given_fields(
    e: Expense,
    description: Option<String>,
    amount: Option<crate::money::Money>,
    paid_by: Option<UserId>,
    group_id: Option<Option<GroupId>>,
    splits: Option<Split>,
)
    ensures
        ({
            let u = updated_expense(e, description, amount, paid_by, group_id, splits);
            &&& u.id == e.id
            &&& u.created_at == e.created_at
            &&& (description matches Some(d) ==> u.description == d)
            &&& (description is None ==> u.description == e.description)
            &&& (amount matches Some(a) ==> u.amount == a)
            &&& (amount is None ==> u.amount == e.amount)
            &&& (paid_by matches Some(p) ==> u.paid_by == p)
            &&& (paid_by is None ==> u.paid_by == e.paid_by)
            &&& (group_id matches Some(g) ==> u.group_id == g)
            &&& (group_id is None ==> u.group_id == e.group_id)
            &&& (splits matches Some(sp) ==> u.splits == sp)
            &&& (splits is None ==> u.splits == e.splits)
        }),
{
}

/// The expenses listed for a friend are exactly those the friend paid for or
/// takes part in: each such expense is listed, and each listed one is such.
pub proof fn law_friend_expenses_are_paid_or_shared(expenses: Seq<Expense>, friend_id: UserId)
    ensures
        forall|i: int|
            0 <= i < expenses.len() && (expenses[i].paid_by == friend_id
                || expenses[i].splits.participant_ids().contains(friend_id)) ==> expenses_of_friend(
                expenses,
                friend_id,
            ).contains(#[trigger] expenses[i]),
        forall|j: int|
            0 <= j < expenses_of_friend(expenses, friend_id).len() ==> {
                let e = #[trigger] expenses_of_friend(expenses, friend_id)[j];
                e.paid_by == friend_id || e.splits.participant_ids().contains(friend_id)
            },
{
    broadcast use vstd::seq_lib::group_filter_ensures;

    let kept = expenses.filter(|e: Expense| expense_involves(e, friend_id));
    assert forall|j: int| 0 <= j < kept.len() implies kept[j].paid_by == friend_id
        || kept[j].splits.participant_ids().contains(friend_id) by {
        assert((|e: Expense| expense_involves(e, friend_id))(kept[j]));
    }
}

/// The payments listed for a friend are exactly those the friend made or
/// received.
pub proof fn law_friend_payments_are_made_or_received(payments: Seq<Payment>, friend_id: UserId)
    ensures
        forall|i: int|
            0 <= i < payments.len() && (payments[i].from_id == friend_id || payments[i].to_id
                == friend_id) ==> payments_of_friend(payments, friend_id).contains(
                #[trigger] payments[i],
            ),
        forall|j: int|
            0 <= j < payments_of_friend(payments, friend_id).len() ==> {
                let p = #[trigger] payments_of_friend(payments, friend_id)[j];
                p.from_id == friend_id || p.to_id == friend_id
            },
{
    broadcast use vstd::seq_lib::group_filter_ensures;

    let kept = payments.filter(|p: Payment| payment_involves(p, friend_id));
    assert forall|j: int| 0 <= j < kept.len() implies kept[j].from_id == friend_id
        || kept[j].to_id == friend_id by {
        assert((|p: Payment| payment_involves(p, friend_id))(kept[j]));
    }
}

/// A registration is accepted only when the name is not blank, the address
/// holds `@`, the password has at least eight characters and equals its
/// confirmation character for character; a form whose only fault is a
/// differing confirmation is refused for that reason.
pub proof fn law_registration_rules(form: RegisterForm)
    ensures
        registration_problem(form) is None <==> {
            &&& trimmed(form.name@).len() > 0
            &&& lowercase_of(trimmed(form.email@)).contains('@')
            &&& form.password@.len() >= 8
            &&& form.password@ == form.password_confirmation@
        },
        trimmed(form.name@).len() > 0 && lowercase_of(trimmed(form.email@)).contains('@')
            && form.password@.len() >= 8 && form.password@ != form.password_confirmation@
            ==> registration_problem(form) == Some(RegistrationError::PasswordMismatch),
{
}

/// An accepted friend request stores the two people as a pair with the
/// smaller identifier first, so the same row is found whichever of the two
/// asks; a request is refused exactly when nobody was found, the user asked
/// for themself, or the two are friends already.
pub proof fn law_friend_request_stores_ordered_pair(
    current_user_id: i32,
    found_user_id: Option<i32>,
    already_friends: bool,
)
    ensures
        friend_request_outcome(current_user_id, found_user_id, already_friends) matches Ok(p) ==> (
        found_user_id matches Some(id) && p.0 < p.1 && ((p.0 == current_user_id && p.1 == id) || (
        p.0 == id && p.1 == current_user_id))),
        friend_request_outcome(current_user_id, found_user_id, already_friends) is Err <==> (
        found_user_id is None || found_user_id == Some(current_user_id) || already_friends),
{
}

/// A request between two different people who are not friends yet is
/// accepted, and stores the same row whichever of the two asks.
pub proof fn law_friend_request_is_symmetric(a: i32, b: i32, already_friends: bool)
    requires
        a != b,
        !already_friends,
    ensures
        friend_request_outcome(a, Some(b), already_friends) is Ok,
        friend_request_outcome(a, Some(b), already_friends) == friend_request_outcome(
            b,
            Some(a),
            already_friends,
        ),
{
}

/// A running sum counts every entry once: the empty list sums to zero, and
/// appending an entry adds it, so the sum of two lists put together is the
/// sum of their sums.
pub proof fn law_cents_sum_counts_every_entry(s: Seq<i64>, t: Seq<i64>, x: i64)
    ensures
        cents_sum(Seq::<i64>::empty()) == 0,
        cents_sum(s.push(x)) == cents_sum(s) + x,
        cents_sum(s + t) == cents_sum(s) + cents_sum(t),
    decreases t.len(),
{
    assert(s.push(x).drop_last() =~= s);
    if t.len() > 0 {
        law_cents_sum_counts_every_entry(s, t.drop_last(), x);
        assert((s + t).drop_last() =~= s + t.drop_last());
    } else {
        assert(s + t =~= s);
    }
}

/// Totals of amounts, of shares and of the parts of a new expense each add
/// up every entry: appending an entry adds its amount.
pub proof fn law_totals_count_every_entry(
    m: Seq<crate::money::Money>,
    a: crate::money::Money,
    sh: Seq<(UserId, crate::money::Money)>,
    x: (UserId, crate::money::Money),
    parts: Seq<NewSplit>,
    y: NewSplit,
)
    ensures
        total_cents(Seq::<crate::money::Money>::empty()) == 0,
        total_cents(m.push(a)) == total_cents(m) + a.value(),
        shares_total(Seq::<(UserId, crate::money::Money)>::empty()) == 0,
        shares_total(sh.push(x)) == shares_total(sh) + x.1.value(),
        splits_total(Seq::<NewSplit>::empty()) == 0,
        splits_total(parts.push(y)) == splits_total(parts) + y.amount_cents,
{
    assert(m.push(a).drop_last() =~= m);
    assert(sh.push(x).drop_last() =~= sh);
    assert(parts.push(y).drop_last() =~= parts);
}

} // verus!
