use vstd::prelude::*;

use crate::models::{Expense, Group, GroupId, Payment, UserId};
use crate::money::Money;
use crate::seqs::{lemma_filter_take_all, lemma_filter_take_step};
use crate::store::{
    find_index, has_id, lemma_find_index, name_of, position_by_id, spec_name_of, AppData,
};
use crate::text::{is_blank, lemma_trimmed_empty_iff_blank, trim};

verus! {

/// What the application shows of a group.
#[derive(Debug)]
pub struct GroupDto {
    pub id: GroupId,
    pub name: String,
    pub member_ids: Vec<UserId>,
    pub members: Vec<String>,
    pub expense_count: usize,
    pub has_outstanding: bool,
    pub my_balance: Money,
}

/// Whether an expense belongs to group `group_id`.
pub open spec fn expense_in_group(e: Expense, group_id: GroupId) -> bool {
    e.group_id == Some(group_id)
}

/// Whether a payment belongs to group `group_id`.
pub open spec fn payment_in_group(p: Payment, group_id: GroupId) -> bool {
    p.group_id == Some(group_id)
}

/// Records that can belong to a group: a group belongs to itself, an
/// expense or a payment to the group it is recorded against.
pub trait GroupScoped {
    spec fn in_group(&self, group_id: GroupId) -> bool;

    fn is_in_group(&self, group_id: GroupId) -> (b: bool)
        ensures
            b == self.in_group(group_id),
    ;
}

impl GroupScoped for Group {
    open spec fn in_group(&self, group_id: GroupId) -> bool {
        self.id == group_id
    }

    fn is_in_group(&self, group_id: GroupId) -> (b: bool) {
        self.id == group_id
    }
}

impl GroupScoped for Expense {
    open spec fn in_group(&self, group_id: GroupId) -> bool {
        expense_in_group(*self, group_id)
    }

    fn is_in_group(&self, group_id: GroupId) -> (b: bool) {
        self.group_id == Some(group_id)
    }
}

impl GroupScoped for Payment {
    open spec fn in_group(&self, group_id: GroupId) -> bool {
        payment_in_group(*self, group_id)
    }

    fn is_in_group(&self, group_id: GroupId) -> (b: bool) {
        self.group_id == Some(group_id)
    }
}

/// The records of `s` that do not belong to group `group_id`, in order.
pub open spec fn outside_group<T: GroupScoped>(s: Seq<T>, group_id: GroupId) -> Seq<T> {
    s.filter(|x: T| !x.in_group(group_id))
}

/// The groups other than `group_id`, in order.
pub open spec fn groups_without(s: Seq<Group>, group_id: GroupId) -> Seq<Group> {
    outside_group(s, group_id)
}

/// The expenses that do not belong to group `group_id`, in order.
pub open spec fn expenses_outside(s: Seq<Expense>, group_id: GroupId) -> Seq<Expense> {
    outside_group(s, group_id)
}

/// The payments that do not belong to group `group_id`, in order.
pub open spec fn payments_outside(s: Seq<Payment>, group_id: GroupId) -> Seq<Payment> {
    outside_group(s, group_id)
}

/// Removes from `v` every record that belongs to group `group_id`, keeping
/// the order of the others.
fn remove_in_group<T: GroupScoped>(v: &mut Vec<T>, group_id: GroupId)
    ensures
        final(v)@ == outside_group(old(v)@, group_id),
{
    let ghost orig = v@;
    let ghost k: int = 0;
    let mut i: usize = 0;
    while i < v.len()
        invariant
            0 <= k <= orig.len(),
            i == orig.take(k).filter(|x: T| !x.in_group(group_id)).len(),
            v@ == orig.take(k).filter(|x: T| !x.in_group(group_id)) + orig.skip(k),
        decreases v.len() - i,
    {
        proof {
            lemma_filter_take_step(orig, |x: T| !x.in_group(group_id), k);
            assert(v@[i as int] == orig[k]);
        }
        if !v[i].is_in_group(group_id) {
            proof {
                assert(orig.take(k + 1).filter(|x: T| !x.in_group(group_id)) + orig.skip(k + 1)
                    =~= v@);
            }
            i = i + 1;
        } else {
            v.remove(i);
            proof {
                assert(orig.take(k + 1).filter(|x: T| !x.in_group(group_id)) + orig.skip(k + 1)
                    =~= v@);
            }
        }
        proof {
            k = k + 1;
        }
    }
    proof {
        assert(k == orig.len()) by {
            if k < orig.len() {
                assert(v@.len() > i);
            }
        }
        lemma_filter_take_all(orig, |x: T| !x.in_group(group_id));
        assert(v@ =~= orig.filter(|x: T| !x.in_group(group_id)));
    }
}

/// Deletes group `group_id` together with its expenses and payments.
pub fn delete_group(data: &mut AppData, group_id: GroupId) -> (r: Result<(), String>)
    ensures
        !has_id(old(data).groups@, group_id) ==> (r matches Err(e) && e@ == "Group not found"@
            && *final(data) == *old(data)),
        has_id(old(data).groups@, group_id) ==> {
            &&& r is Ok
            &&& final(data).groups@ == groups_without(old(data).groups@, group_id)
            &&& final(data).expenses@ == expenses_outside(old(data).expenses@, group_id)
            &&& final(data).payments@ == payments_outside(old(data).payments@, group_id)
            &&& final(data).users == old(data).users
            &&& final(data).next_user_id == old(data).next_user_id
            &&& final(data).next_group_id == old(data).next_group_id
            &&& final(data).next_expense_id == old(data).next_expense_id
            &&& final(data).next_payment_id == old(data).next_payment_id
            &&& final(data).current_user_id == old(data).current_user_id
        },
{
    if position_by_id(&data.groups, group_id).is_none() {
        return Err("Group not found".to_string());
    }
    proof {
        lemma_find_index(data.groups@, group_id);
    }
    remove_in_group(&mut data.groups, group_id);
    remove_in_group(&mut data.expenses, group_id);
    remove_in_group(&mut data.payments, group_id);
    Ok(())
}

/// Every group other than the one at `i` is unchanged, and the one at `i`
/// keeps its identifier and name.
pub open spec fn only_members_changed(before: Seq<Group>, after: Seq<Group>, i: int) -> bool {
    &&& after.len() == before.len()
    &&& forall|j: int| 0 <= j < before.len() && j != i ==> after[j] == before[j]
    &&& after[i].id == before[i].id
    &&& after[i].name == before[i].name
}

/// Adds person `user_id` to group `group_id`. The person must be known and
/// the group must exist.
pub fn add_member_to_group(data: &mut AppData, group_id: GroupId, user_id: UserId) -> (r: Result<
    (),
    String,
>)
    ensures
        !has_id(old(data).users@, user_id) ==> (r matches Err(e) && e@ == "User not found"@
            && *final(data) == *old(data)),
        has_id(old(data).users@, user_id) && !has_id(old(data).groups@, group_id) ==> (r matches Err(
            e,
        ) && e@ == "Group not found"@ && *final(data) == *old(data)),
        has_id(old(data).users@, user_id) && has_id(old(data).groups@, group_id) ==> {
            let i = find_index(old(data).groups@, group_id)->0;
            let before = old(data).groups@[i].member_ids();
            &&& r is Ok
            &&& only_members_changed(old(data).groups@, final(data).groups@, i)
            &&& final(data).groups@[i].member_ids() == (if before.contains(user_id) {
                before
            } else {
                before.push(user_id)
            })
            &&& *final(data) == (AppData { groups: final(data).groups, ..*old(data) })
        },
{
    proof {
        lemma_find_index(data.users@, user_id);
        lemma_find_index(data.groups@, group_id);
    }
    if position_by_id(&data.users, user_id).is_none() {
        return Err("User not found".to_string());
    }
    let i = match position_by_id(&data.groups, group_id) {
        Some(i) => i,
        None => {
            return Err("Group not found".to_string());
        },
    };
    let ghost before = data.groups@;
    let mut group = data.groups.remove(i);
    group.add_member(user_id);
    data.groups.insert(i, group);
    assert(forall|j: int|
        0 <= j < before.len() && j != i ==> data.groups@[j] == #[trigger] before[j]);
    Ok(())
}

/// Removes person `user_id` from group `group_id`, which must exist.
pub fn remove_member_from_group(data: &mut AppData, group_id: GroupId, user_id: UserId) -> (r:
    Result<(), String>)
    ensures
        !has_id(old(data).groups@, group_id) ==> (r matches Err(e) && e@ == "Group not found"@
            && *final(data) == *old(data)),
        has_id(old(data).groups@, group_id) ==> {
            let i = find_index(old(data).groups@, group_id)->0;
            &&& r is Ok
            &&& only_members_changed(old(data).groups@, final(data).groups@, i)
            &&& final(data).groups@[i].member_ids() == old(data).groups@[i].member_ids().filter(
                |m: UserId| m != user_id,
            )
            &&& *final(data) == (AppData { groups: final(data).groups, ..*old(data) })
        },
{
    proof {
        lemma_find_index(data.groups@, group_id);
    }
    let i = match position_by_id(&data.groups, group_id) {
        Some(i) => i,
        None => {
            return Err("Group not found".to_string());
        },
    };
    let ghost before = data.groups@;
    let mut group = data.groups.remove(i);
    group.remove_member(user_id);
    data.groups.insert(i, group);
    assert(forall|j: int|
        0 <= j < before.len() && j != i ==> data.groups@[j] == #[trigger] before[j]);
    Ok(())
}

/// The identifiers of `s`, each kept at its first occurrence only.
pub open spec fn first_occurrences(s: Seq<UserId>) -> Seq<UserId>
    decreases s.len(),
{
    if s.len() == 0 {
        s
    } else {
        let d = first_occurrences(s.drop_last());
        if d.contains(s.last()) {
            d
        } else {
            d.push(s.last())
        }
    }
}

/// Creates a group named `name` with the people `member_ids`. The name must
/// not be blank and there must be at least one member.
pub fn create_group(data: &mut AppData, name: String, member_ids: Vec<UserId>) -> (r: Result<
    GroupDto,
    String,
>)
    requires
        !is_blank(name@) && member_ids.len() > 0 ==> old(data).next_group_id < u64::MAX,
    ensures
        is_blank(name@) ==> (r matches Err(e) && e@ == "Group name is required."@
            && *final(data) == *old(data)),
        !is_blank(name@) && member_ids.len() == 0 ==> (r matches Err(e) && e@
            == "Select at least one member."@ && *final(data) == *old(data)),
        !is_blank(name@) && member_ids.len() > 0 ==> {
            let id = (old(data).next_group_id + 1) as u64;
            let n = old(data).groups@.len();
            &&& final(data).groups@.len() == n + 1
            &&& final(data).groups@.take(n as int) == old(data).groups@
            &&& final(data).groups@[n as int].id == id
            &&& final(data).groups@[n as int].name == name
            &&& final(data).groups@[n as int].member_ids() == first_occurrences(member_ids@)
            &&& *final(data) == (AppData {
                groups: final(data).groups,
                next_group_id: id,
                ..*old(data)
            })
            &&& r matches Ok(dto) && {
                &&& dto.id == id
                &&& dto.name == name
                &&& dto.member_ids@ == member_ids@
                &&& dto.members.len() == member_ids.len()
                &&& forall|i: int|
                    0 <= i < member_ids.len() ==> (#[trigger] dto.members@[i])@ == spec_name_of(
                        old(data).users@,
                        member_ids@[i],
                    )
                &&& dto.expense_count == 0
                &&& !dto.has_outstanding
                &&& dto.my_balance.value() == 0
            }
        },
{
    let blank = trim(name.as_str()).is_empty();
    proof {
        lemma_trimmed_empty_iff_blank(name@);
    }
    if blank {
        return Err("Group name is required.".to_string());
    }
    if member_ids.len() == 0 {
        return Err("Select at least one member.".to_string());
    }
    data.next_group_id = data.next_group_id + 1;
    let id = data.next_group_id;
    let mut group = Group { id, name: name.clone(), members: Vec::new() };
    let mut i: usize = 0;
    while i < member_ids.len()
        invariant
            0 <= i <= member_ids.len(),
            group.id == id,
            group.name == name,
            group.member_ids() == first_occurrences(member_ids@.take(i as int)),
        decreases member_ids.len() - i,
    {
        proof {
            assert(member_ids@.take(i + 1).drop_last() =~= member_ids@.take(i as int));
        }
        group.add_member(member_ids[i]);
        i = i + 1;
    }
    proof {
        assert(member_ids@.take(member_ids.len() as int) =~= member_ids@);
    }
    let ghost before = data.groups@;
    data.groups.push(group);
    proof {
        assert(data.groups@.take(before.len() as int) =~= before);
    }
    let mut members: Vec<String> = Vec::new();
    let mut j: usize = 0;
    while j < member_ids.len()
        invariant
            0 <= j <= member_ids.len(),
            members.len() == j,
            data.users == old(data).users,
            forall|k: int|
                0 <= k < j ==> (#[trigger] members@[k])@ == spec_name_of(
                    data.users@,
                    member_ids@[k],
                ),
        decreases member_ids.len() - j,
    {
        members.push(name_of(data, member_ids[j]));
        j = j + 1;
    }
    Ok(
        GroupDto {
            id,
            name,
            member_ids,
            members,
            expense_count: 0,
            has_outstanding: false,
            my_balance: Money::zero(),
        },
    )
}

} // verus!
