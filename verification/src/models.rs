use vstd::prelude::*;

use crate::money::Money;
use crate::seqs::{lemma_filter_take_all, lemma_filter_take_step};
use crate::split::Split;

verus! {

/// Identifies a person.
pub type UserId = u64;

/// Identifies a group.
pub type GroupId = u64;

/// Identifies an expense.
pub type ExpenseId = u64;

/// Identifies a payment.
pub type PaymentId = u64;

/// A person who shares expenses.
#[derive(Debug)]
pub struct User {
    pub id: UserId,
    pub name: String,
    pub email: String,
}

impl User {
    pub fn new(id: UserId, name: &str, email: &str) -> (u: User)
        ensures
            u.id == id,
            u.name@ == name@,
            u.email@ == email@,
    {
        User { id, name: name.to_owned(), email: email.to_owned() }
    }
}

/// A named set of people who share expenses.
#[derive(Debug)]
pub struct Group {
    pub id: GroupId,
    pub name: String,
    pub members: Vec<UserId>,
}

impl Group {
    /// The members of the group, in the order they joined.
    pub open spec fn member_ids(&self) -> Seq<UserId> {
        self.members@
    }

    /// A new group without members.
    pub fn new(id: GroupId, name: &str) -> (g: Group)
        ensures
            g.id == id,
            g.name@ == name@,
            g.member_ids() == Seq::<UserId>::empty(),
    {
        Group { id, name: name.to_owned(), members: Vec::new() }
    }

    pub fn name(&self) -> (n: &str)
        ensures
            n@ == self.name@,
    {
        self.name.as_str()
    }

    /// The members of the group, in the order they joined.
    pub fn members(&self) -> (m: &[UserId])
        ensures
            m@ == self.member_ids(),
    {
        self.members.as_slice()
    }

    /// Whether `user_id` is a member.
    pub fn has_member(&self, user_id: UserId) -> (b: bool)
        ensures
            b == self.member_ids().contains(user_id),
    {
        let mut i: usize = 0;
        while i < self.members.len()
            invariant
                0 <= i <= self.members.len(),
                forall|j: int| 0 <= j < i ==> self.members@[j] != user_id,
            decreases self.members.len() - i,
        {
            if self.members[i] == user_id {
                assert(self.members@[i as int] == user_id);
                return true;
            }
            i = i + 1;
        }
        false
    }

    /// Adds `user_id` to the members unless it is one already.
    pub fn add_member(&mut self, user_id: UserId)
        ensures
            final(self).id == old(self).id,
            final(self).name == old(self).name,
            final(self).member_ids() == (if old(self).member_ids().contains(user_id) {
                old(self).member_ids()
            } else {
                old(self).member_ids().push(user_id)
            }),
    {
        if !self.has_member(user_id) {
            self.members.push(user_id);
        }
    }

    /// Removes `user_id` from the members.
    pub fn remove_member(&mut self, user_id: UserId)
        ensures
            final(self).id == old(self).id,
            final(self).name == old(self).name,
            final(self).member_ids() == old(self).member_ids().filter(
                |m: UserId| m != user_id,
            ),
    {
        let ghost before = self.members@;
        let mut kept: Vec<UserId> = Vec::new();
        let mut i: usize = 0;
        while i < self.members.len()
            invariant
                0 <= i <= self.members.len(),
                self.members@ == before,
                kept@ == before.take(i as int).filter(|m: UserId| m != user_id),
            decreases self.members.len() - i,
        {
            proof {
                lemma_filter_take_step(before, |m: UserId| m != user_id, i as int);
            }
            if self.members[i] != user_id {
                kept.push(self.members[i]);
            }
            i = i + 1;
        }
        proof {
            lemma_filter_take_all(before, |m: UserId| m != user_id);
        }
        self.members = kept;
    }
}

/// A shared cost that one person paid and that is split among participants.
#[derive(Debug)]
pub struct Expense {
    pub id: ExpenseId,
    pub description: String,
    pub amount: Money,
    pub paid_by: UserId,
    pub group_id: Option<GroupId>,
    pub splits: Split,
    pub created_at: u64,
}

impl Expense {
    pub fn new(
        id: ExpenseId,
        description: &str,
        amount: Money,
        paid_by: UserId,
        group_id: Option<GroupId>,
        splits: Split,
        created_at: u64,
    ) -> (e: Expense)
        ensures
            e.id == id,
            e.description@ == description@,
            e.amount == amount,
            e.paid_by == paid_by,
            e.group_id == group_id,
            e.splits == splits,
            e.created_at == created_at,
    {
        Expense {
            id,
            description: description.to_owned(),
            amount,
            paid_by,
            group_id,
            splits,
            created_at,
        }
    }

    pub fn description(&self) -> (d: &str)
        ensures
            d@ == self.description@,
    {
        self.description.as_str()
    }

    pub fn amount(&self) -> (a: Money)
        ensures
            a == self.amount,
    {
        self.amount
    }

    pub fn paid_by(&self) -> (p: UserId)
        ensures
            p == self.paid_by,
    {
        self.paid_by
    }

    pub fn group_id(&self) -> (g: Option<GroupId>)
        ensures
            g == self.group_id,
    {
        self.group_id
    }

    pub fn splits(&self) -> (s: &Split)
        ensures
            *s == self.splits,
    {
        &self.splits
    }

    pub fn created_at(&self) -> (t: u64)
        ensures
            t == self.created_at,
    {
        self.created_at
    }

    pub fn update_description(&mut self, description: &str)
        ensures
            *final(self) == (Expense { description: final(self).description, ..*old(self) }),
            final(self).description@ == description@,
    {
        self.description = description.to_owned();
    }

    pub fn update_amount(&mut self, amount: Money)
        ensures
            *final(self) == (Expense { amount, ..*old(self) }),
    {
        self.amount = amount;
    }

    pub fn update_paid_by(&mut self, paid_by: UserId)
        ensures
            *final(self) == (Expense { paid_by, ..*old(self) }),
    {
        self.paid_by = paid_by;
    }

    pub fn assign_to_group(&mut self, group_id: GroupId)
        ensures
            *final(self) == (Expense { group_id: Some(group_id), ..*old(self) }),
    {
        self.group_id = Some(group_id);
    }

    pub fn remove_from_group(&mut self)
        ensures
            *final(self) == (Expense { group_id: None, ..*old(self) }),
    {
        self.group_id = None;
    }

    pub fn update_splits(&mut self, splits: Split)
        ensures
            *final(self) == (Expense { splits, ..*old(self) }),
    {
        self.splits = splits;
    }
}

/// Money that one person handed to another to settle what they owe.
#[derive(Debug, Clone, Copy)]
pub struct Payment {
    pub id: PaymentId,
    pub from_id: UserId,
    pub to_id: UserId,
    pub amount: Money,
    pub group_id: Option<GroupId>,
    pub created_at: u64,
}

impl Payment {
    pub fn from_id(&self) -> (u: UserId)
        ensures
            u == self.from_id,
    {
        self.from_id
    }

    pub fn to_id(&self) -> (u: UserId)
        ensures
            u == self.to_id,
    {
        self.to_id
    }

    pub fn amount(&self) -> (a: Money)
        ensures
            a == self.amount,
    {
        self.amount
    }

    pub fn group_id(&self) -> (g: Option<GroupId>)
        ensures
            g == self.group_id,
    {
        self.group_id
    }

    pub fn created_at(&self) -> (t: u64)
        ensures
            t == self.created_at,
    {
        self.created_at
    }
}

} // verus!
