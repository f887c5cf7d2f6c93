use vstd::prelude::*;

use crate::groups::{expense_in_group, payment_in_group};
use crate::models::{Expense, ExpenseId, GroupId, Payment, PaymentId, UserId};
use crate::money::Money;
use crate::seqs::{lemma_filter_take_all, lemma_filter_take_step};
use crate::split::Split;
use crate::store::{
    find_index, group_name_of, has_id, lemma_find_index, name_of, position_by_id,
    spec_group_name_of, spec_name_of, AppData,
};

verus! {

/// Deletes the expense with identifier `expense_id`.
pub fn delete_expense(data: &mut AppData, expense_id: ExpenseId) -> (r: Result<(), String>)
    ensures
        !has_id(old(data).expenses@, expense_id) ==> (r matches Err(e) && e@
            == "Expense not found"@ && *final(data) == *old(data)),
        has_id(old(data).expenses@, expense_id) ==> (r is Ok && final(data).expenses@ == old(
            data,
        ).expenses@.remove(find_index(old(data).expenses@, expense_id)->0) && *final(data) == (
        AppData { expenses: final(data).expenses, ..*old(data) })),
{
    proof {
        lemma_find_index(data.expenses@, expense_id);
    }
    let index = match position_by_id(&data.expenses, expense_id) {
        Some(i) => i,
        None => {
            return Err("Expense not found".to_string());
        },
    };
    data.expenses.remove(index);
    Ok(())
}

/// Deletes the payment with identifier `payment_id`.
pub fn delete_payment(data: &mut AppData, payment_id: PaymentId) -> (r: Result<(), String>)
    ensures
        !has_id(old(data).payments@, payment_id) ==> (r matches Err(e) && e@
            == "Payment not found"@ && *final(data) == *old(data)),
        has_id(old(data).payments@, payment_id) ==> (r is Ok && final(data).payments@ == old(
            data,
        ).payments@.remove(find_index(old(data).payments@, payment_id)->0) && *final(data) == (
        AppData { payments: final(data).payments, ..*old(data) })),
{
    proof {
        lemma_find_index(data.payments@, payment_id);
    }
    let index = match position_by_id(&data.payments, payment_id) {
        Some(i) => i,
        None => {
            return Err("Payment not found".to_string());
        },
    };
    data.payments.remove(index);
    Ok(())
}

/// Records an expense under the next free identifier and returns that
/// identifier.
pub fn add_expense(
    data: &mut AppData,
    description: String,
    amount: Money,
    paid_by: UserId,
    group_id: Option<GroupId>,
    splits: Split,
    created_at: u64,
) -> (r: Result<ExpenseId, String>)
    requires
        old(data).next_expense_id < u64::MAX,
    ensures
        r == Ok::<ExpenseId, String>(old(data).next_expense_id),
        final(data).expenses@ == old(data).expenses@.push(
            (Expense {
                id: old(data).next_expense_id,
                description,
                amount,
                paid_by,
                group_id,
                splits,
                created_at,
            }),
        ),
        *final(data) == (AppData {
            expenses: final(data).expenses,
            next_expense_id: (old(data).next_expense_id + 1) as u64,
            ..*old(data)
        }),
{
    let id = data.next_expense_id;
    data.next_expense_id = data.next_expense_id + 1;
    let expense = Expense { id, description, amount, paid_by, group_id, splits, created_at };
    data.expenses.push(expense);
    Ok(id)
}

/// The expense `e` after the changes that `update_expense` is given; a field
/// whose change is `None` stays as it was.
pub open spec fn updated_expense(
    e: Expense,
    description: Option<String>,
    amount: Option<Money>,
    paid_by: Option<UserId>,
    group_id: Option<Option<GroupId>>,
    splits: Option<Split>,
) -> Expense {
    Expense {
        id: e.id,
        description: match description {
            Some(d) => d,
            None => e.description,
        },
        amount: match amount {
            Some(a) => a,
            None => e.amount,
        },
        paid_by: match paid_by {
            Some(p) => p,
            None => e.paid_by,
        },
        group_id: match group_id {
            Some(g) => g,
            None => e.group_id,
        },
        splits: match splits {
            Some(s) => s,
            None => e.splits,
        },
        created_at: e.created_at,
    }
}

/// Changes the given fields of the expense with identifier `expense_id`.
pub fn update_expense(
    data: &mut AppData,
    expense_id: ExpenseId,
    description: Option<String>,
    amount: Option<Money>,
    paid_by: Option<UserId>,
    group_id: Option<Option<GroupId>>,
    splits: Option<Split>,
) -> (r: Result<(), String>)
    ensures
        !has_id(old(data).expenses@, expense_id) ==> (r matches Err(e) && e@
            == "Expense not found"@ && *final(data) == *old(data)),
        has_id(old(data).expenses@, expense_id) ==> {
            let i = find_index(old(data).expenses@, expense_id)->0;
            &&& r is Ok
            &&& final(data).expenses@ == old(data).expenses@.update(
                i,
                updated_expense(
                    old(data).expenses@[i],
                    description,
                    amount,
                    paid_by,
                    group_id,
                    splits,
                ),
            )
            &&& *final(data) == (AppData { expenses: final(data).expenses, ..*old(data) })
            &&& final(data).expenses@.len() == old(data).expenses@.len()
            &&& final(data).expenses@[i].id == expense_id
            &&& final(data).expenses@[i].created_at == old(data).expenses@[i].created_at
            &&& (description matches Some(d) ==> final(data).expenses@[i].description == d)
            &&& (description is None ==> final(data).expenses@[i].description == old(
                data,
            ).expenses@[i].description)
            &&& (amount matches Some(a) ==> final(data).expenses@[i].amount == a)
            &&& (amount is None ==> final(data).expenses@[i].amount == old(data).expenses@[i].amount)
            &&& (paid_by matches Some(p) ==> final(data).expenses@[i].paid_by == p)
            &&& (paid_by is None ==> final(data).expenses@[i].paid_by == old(
                data,
            ).expenses@[i].paid_by)
            &&& (group_id matches Some(g) ==> final(data).expenses@[i].group_id == g)
            &&& (group_id is None ==> final(data).expenses@[i].group_id == old(
                data,
            ).expenses@[i].group_id)
            &&& (splits matches Some(sp) ==> final(data).expenses@[i].splits == sp)
            &&& (splits is None ==> final(data).expenses@[i].splits == old(data).expenses@[i].splits)
            &&& forall|j: int|
                0 <= j < old(data).expenses@.len() && j != i ==> #[trigger] final(data).expenses@[j]
                    == old(data).expenses@[j]
        },
{
    proof {
        lemma_find_index(data.expenses@, expense_id);
    }
    let i = match position_by_id(&data.expenses, expense_id) {
        Some(i) => i,
        None => {
            return Err("Expense not found".to_string());
        },
    };
    let ghost before = data.expenses@;
    let mut expense = data.expenses.remove(i);
    if let Some(desc) = description {
        expense.description = desc;
    }
    if let Some(amt) = amount {
        expense.update_amount(amt);
    }
    if let Some(payer) = paid_by {
        expense.update_paid_by(payer);
    }
    if let Some(gid) = group_id {
        match gid {
            Some(g) => expense.assign_to_group(g),
            None => expense.remove_from_group(),
        }
    }
    if let Some(s) = splits {
        expense.update_splits(s);
    }
    data.expenses.insert(i, expense);
    assert(data.expenses@ =~= before.update(
        i as int,
        updated_expense(before[i as int], description, amount, paid_by, group_id, splits),
    ));
    Ok(())
}

/// Whether person `friend_id` paid for the expense or takes part in it.
pub open spec fn expense_involves(e: Expense, friend_id: UserId) -> bool {
    e.paid_by == friend_id || e.splits.participant_ids().contains(friend_id)
}

/// The expenses that person `friend_id` paid for or takes part in, in order.
pub open spec fn expenses_of_friend(s: Seq<Expense>, friend_id: UserId) -> Seq<Expense> {
    s.filter(|e: Expense| expense_involves(e, friend_id))
}

/// Whether person `friend_id` takes part in the split.
fn split_involves(s: &Split, friend_id: UserId) -> (b: bool)
    ensures
        b == s.participant_ids().contains(friend_id),
{
    let ids = s.participants();
    let mut i: usize = 0;
    while i < ids.len()
        invariant
            0 <= i <= ids.len(),
            ids@ == s.participant_ids(),
            forall|j: int| 0 <= j < i ==> ids@[j] != friend_id,
        decreases ids.len() - i,
    {
        if ids[i] == friend_id {
            assert(ids@[i as int] == friend_id);
            return true;
        }
        i = i + 1;
    }
    false
}

/// The expenses that person `friend_id` paid for or takes part in, in order.
pub fn expenses_for_friend(data: &AppData, friend_id: UserId) -> (r: Vec<&Expense>)
    ensures
        r@.map_values(|e: &Expense| *e) == data.expenses@.filter(
            |e: Expense| expense_involves(e, friend_id),
        ),
        forall|i: int|
            0 <= i < data.expenses@.len() && (data.expenses@[i].paid_by == friend_id
                || data.expenses@[i].splits.participant_ids().contains(friend_id)) ==> r@.map_values(
                |e: &Expense| *e,
            ).contains(#[trigger] data.expenses@[i]),
        forall|j: int|
            0 <= j < r@.len() ==> (#[trigger] r@[j]).paid_by == friend_id
                || r@[j].splits.participant_ids().contains(friend_id),
{
    let mut r: Vec<&Expense> = Vec::new();
    let mut i: usize = 0;
    while i < data.expenses.len()
        invariant
            0 <= i <= data.expenses.len(),
            r@.map_values(|e: &Expense| *e) == data.expenses@.take(i as int).filter(
                |e: Expense| expense_involves(e, friend_id),
            ),
        decreases data.expenses.len() - i,
    {
        proof {
            lemma_filter_take_step(
                data.expenses@,
                |e: Expense| expense_involves(e, friend_id),
                i as int,
            );
        }
        let e = &data.expenses[i];
        let ghost before = r@;
        if e.paid_by == friend_id || split_involves(&e.splits, friend_id) {
            r.push(e);
            assert(r@.map_values(|e: &Expense| *e) =~= before.map_values(|e: &Expense| *e).push(
                *e,
            ));
        }
        i = i + 1;
    }
    proof {
        lemma_filter_take_all(data.expenses@, |e: Expense| expense_involves(e, friend_id));
        let kept = data.expenses@.filter(|e: Expense| expense_involves(e, friend_id));
        assert forall|i: int|
            0 <= i < data.expenses@.len() && (data.expenses@[i].paid_by == friend_id
                || data.expenses@[i].splits.participant_ids().contains(friend_id)) implies kept.contains(
            #[trigger] data.expenses@[i],
        ) by {
            data.expenses@.lemma_filter_contains(|e: Expense| expense_involves(e, friend_id), i);
        }
        assert forall|j: int| 0 <= j < r@.len() implies (#[trigger] r@[j]).paid_by == friend_id
            || r@[j].splits.participant_ids().contains(friend_id) by {
            assert(r@.map_values(|e: &Expense| *e)[j] == kept[j]);
            data.expenses@.lemma_filter_pred(|e: Expense| expense_involves(e, friend_id), j);
        }
    }
    r
}

/// The expenses of group `group_id`, in order.
pub fn expenses_in_group(data: &AppData, group_id: GroupId) -> (r: Vec<&Expense>)
    ensures
        r@.map_values(|e: &Expense| *e) == data.expenses@.filter(
            |e: Expense| expense_in_group(e, group_id),
        ),
{
    let mut r: Vec<&Expense> = Vec::new();
    let mut i: usize = 0;
    while i < data.expenses.len()
        invariant
            0 <= i <= data.expenses.len(),
            r@.map_values(|e: &Expense| *e) == data.expenses@.take(i as int).filter(
                |e: Expense| expense_in_group(e, group_id),
            ),
        decreases data.expenses.len() - i,
    {
        proof {
            lemma_filter_take_step(
                data.expenses@,
                |e: Expense| expense_in_group(e, group_id),
                i as int,
            );
        }
        let ghost before = r@;
        if data.expenses[i].group_id == Some(group_id) {
            r.push(&data.expenses[i]);
            assert(r@.map_values(|e: &Expense| *e) =~= before.map_values(|e: &Expense| *e).push(
                data.expenses@[i as int],
            ));
        }
        i = i + 1;
    }
    proof {
        lemma_filter_take_all(data.expenses@, |e: Expense| expense_in_group(e, group_id));
    }
    r
}

/// The payments of group `group_id`, in order.
pub fn payments_in_group(data: &AppData, group_id: GroupId) -> (r: Vec<Payment>)
    ensures
        r@ == data.payments@.filter(|p: Payment| payment_in_group(p, group_id)),
{
    let mut r: Vec<Payment> = Vec::new();
    let mut i: usize = 0;
    while i < data.payments.len()
        invariant
            0 <= i <= data.payments.len(),
            r@ == data.payments@.take(i as int).filter(
                |p: Payment| payment_in_group(p, group_id),
            ),
        decreases data.payments.len() - i,
    {
        proof {
            lemma_filter_take_step(
                data.payments@,
                |p: Payment| payment_in_group(p, group_id),
                i as int,
            );
        }
        if data.payments[i].group_id == Some(group_id) {
            r.push(data.payments[i]);
        }
        i = i + 1;
    }
    proof {
        lemma_filter_take_all(data.payments@, |p: Payment| payment_in_group(p, group_id));
    }
    r
}

/// What the application shows of a payment.
#[derive(Debug)]
pub struct PaymentDto {
    pub id: PaymentId,
    pub from_id: UserId,
    pub from_name: String,
    pub to_id: UserId,
    pub to_name: String,
    pub amount: Money,
    pub group_id: Option<GroupId>,
    pub group_name: Option<String>,
    pub created_at: u64,
}

/// `d` shows payment `p` with the names that `data` gives its people and group.
pub open spec fn shows_payment(d: PaymentDto, p: Payment, data: AppData) -> bool {
    &&& d.id == p.id
    &&& d.from_id == p.from_id
    &&& d.from_name@ == spec_name_of(data.users@, p.from_id)
    &&& d.to_id == p.to_id
    &&& d.to_name@ == spec_name_of(data.users@, p.to_id)
    &&& d.amount == p.amount
    &&& d.group_id == p.group_id
    &&& match p.group_id {
        Some(g) => d.group_name matches Some(n) && n@ == spec_group_name_of(data.groups@, g),
        None => d.group_name is None,
    }
    &&& d.created_at == p.created_at
}

pub fn payment_to_dto(p: &Payment, data: &AppData) -> (d: PaymentDto)
    ensures
        shows_payment(d, *p, *data),
{
    let group_name = match p.group_id {
        Some(g) => Some(group_name_of(data, g)),
        None => None,
    };
    PaymentDto {
        id: p.id,
        from_id: p.from_id,
        from_name: name_of(data, p.from_id),
        to_id: p.to_id,
        to_name: name_of(data, p.to_id),
        amount: p.amount,
        group_id: p.group_id,
        group_name,
        created_at: p.created_at,
    }
}

/// Shows each of the payments `ps`, in order.
fn payments_to_dtos(ps: &Vec<Payment>, data: &AppData) -> (r: Vec<PaymentDto>)
    ensures
        r.len() == ps.len(),
        forall|i: int| 0 <= i < ps.len() ==> shows_payment(#[trigger] r@[i], ps@[i], *data),
{
    let mut r: Vec<PaymentDto> = Vec::new();
    let mut i: usize = 0;
    while i < ps.len()
        invariant
            0 <= i <= ps.len(),
            r.len() == i,
            forall|j: int| 0 <= j < i ==> shows_payment(#[trigger] r@[j], ps@[j], *data),
        decreases ps.len() - i,
    {
        r.push(payment_to_dto(&ps[i], data));
        i = i + 1;
    }
    r
}

/// Every payment, shown in order.
pub fn list_payments(data: &AppData) -> (r: Vec<PaymentDto>)
    ensures
        r.len() == data.payments.len(),
        forall|i: int|
            0 <= i < data.payments.len() ==> shows_payment(#[trigger] r@[i], data.payments@[i], *data),
{
    payments_to_dtos(&data.payments, data)
}

/// Whether person `friend_id` paid or received the payment.
pub open spec fn payment_involves(p: Payment, friend_id: UserId) -> bool {
    p.from_id == friend_id || p.to_id == friend_id
}

/// The payments that person `friend_id` made or received, in order.
pub open spec fn payments_of_friend(s: Seq<Payment>, friend_id: UserId) -> Seq<Payment> {
    s.filter(|p: Payment| payment_involves(p, friend_id))
}

/// The payments that person `friend_id` made or received, shown in order.
pub fn list_payments_for_friend(data: &AppData, friend_id: UserId) -> (r: Vec<PaymentDto>)
    ensures
        ({
            let ps = data.payments@.filter(|p: Payment| payment_involves(p, friend_id));
            r.len() == ps.len() && forall|i: int|
                0 <= i < ps.len() ==> shows_payment(#[trigger] r@[i], ps[i], *data)
        }),
{
    let mut ps: Vec<Payment> = Vec::new();
    let mut i: usize = 0;
    while i < data.payments.len()
        invariant
            0 <= i <= data.payments.len(),
            ps@ == data.payments@.take(i as int).filter(
                |p: Payment| payment_involves(p, friend_id),
            ),
        decreases data.payments.len() - i,
    {
        proof {
            lemma_filter_take_step(
                data.payments@,
                |p: Payment| payment_involves(p, friend_id),
                i as int,
            );
        }
        let p = data.payments[i];
        if p.from_id == friend_id || p.to_id == friend_id {
            ps.push(p);
        }
        i = i + 1;
    }
    proof {
        lemma_filter_take_all(data.payments@, |p: Payment| payment_involves(p, friend_id));
    }
    payments_to_dtos(&ps, data)
}

/// The payments of group `group_id`, shown in order.
pub fn list_payments_for_group(data: &AppData, group_id: GroupId) -> (r: Vec<PaymentDto>)
    ensures
        ({
            let ps = data.payments@.filter(|p: Payment| payment_in_group(p, group_id));
            r.len() == ps.len() && forall|i: int|
                0 <= i < ps.len() ==> shows_payment(#[trigger] r@[i], ps[i], *data)
        }),
{
    let ps = payments_in_group(data, group_id);
    payments_to_dtos(&ps, data)
}

/// Records a payment under the next free identifier and shows it. The
/// amount and the people are taken as given.
pub fn record_payment(
    data: &mut AppData,
    from_id: UserId,
    to_id: UserId,
    amount: Money,
    group_id: Option<GroupId>,
    created_at: u64,
) -> (r: Result<PaymentDto, String>)
    requires
        old(data).next_payment_id < u64::MAX,
    ensures
        ({
            let p = Payment { id: old(data).next_payment_id, from_id, to_id, amount, group_id, created_at };
            &&& final(data).payments@ == old(data).payments@.push(p)
            &&& *final(data) == (AppData {
                payments: final(data).payments,
                next_payment_id: (old(data).next_payment_id + 1) as u64,
                ..*old(data)
            })
            &&& r matches Ok(d) && shows_payment(d, p, *final(data))
        }),
{
    let id = data.next_payment_id;
    data.next_payment_id = data.next_payment_id + 1;
    let payment = Payment { id, from_id, to_id, amount, group_id, created_at };
    data.payments.push(payment);
    Ok(payment_to_dto(&payment, data))
}

/// Every expense, in order.
pub fn list_expenses(data: &AppData) -> (r: Vec<&Expense>)
    ensures
        r@.map_values(|e: &Expense| *e) == data.expenses@,
{
    let mut r: Vec<&Expense> = Vec::new();
    let mut i: usize = 0;
    while i < data.expenses.len()
        invariant
            0 <= i <= data.expenses.len(),
            r@.map_values(|e: &Expense| *e) == data.expenses@.take(i as int),
        decreases data.expenses.len() - i,
    {
        let ghost before = r@;
        r.push(&data.expenses[i]);
        assert(r@.map_values(|e: &Expense| *e) =~= before.map_values(|e: &Expense| *e).push(
            data.expenses@[i as int],
        ));
        assert(data.expenses@.take(i + 1) =~= data.expenses@.take(i as int).push(
            data.expenses@[i as int],
        ));
        i = i + 1;
    }
    assert(data.expenses@.take(data.expenses.len() as int) =~= data.expenses@);
    r
}

} // verus!
