use settlemate::groups::{
    add_member_to_group, create_group, delete_group, remove_member_from_group,
};
use settlemate::ledger::{
    add_expense, delete_expense, delete_payment, expenses_for_friend, expenses_in_group,
    list_expenses, list_payments, list_payments_for_friend, list_payments_for_group,
    payments_in_group, record_payment, update_expense,
};
use settlemate::models::{Payment, User};
use settlemate::money::Money;
use settlemate::split::Split;
use settlemate::store::{
    add_friend, get_current_user, group_name_of, list_friends, name_of, remove_current_user,
    set_current_user, AppData, UserDto,
};

fn data_with_alice() -> AppData {
    let mut data = AppData::default();
    data.users.push(User::new(1, "Alice", "alice@example.com"));
    data
}

fn payment(id: u64, from_id: u64, to_id: u64, cents: i64, group_id: Option<u64>) -> Payment {
    Payment {
        id,
        from_id,
        to_id,
        amount: Money::from_cents(cents),
        group_id,
        created_at: 0,
    }
}

#[test]
fn test_add_expense() {
    let mut data = data_with_alice();
    let splits = Split::new_equal(vec![1]).unwrap();
    let id = add_expense(
        &mut data,
        "Dinner".to_string(),
        Money::from_cents(2000),
        1,
        None,
        splits,
        0,
    )
    .unwrap();
    let expense = data.expenses.last().unwrap();
    assert_eq!(expense.id, id);
    assert_eq!(expense.description(), "Dinner");
    assert_eq!(expense.amount().cents(), 2000);
    assert_eq!(expense.paid_by().to_string(), "1");
    assert_eq!(expense.group_id(), None);
    let shares = expense.splits().compute_money_shares(expense.amount()).unwrap();
    assert_eq!(shares.len(), 1);
    assert_eq!(name_of(&data, shares[0].0), "Alice");
    assert_eq!(shares[0].1.cents(), 2000);
}

#[test]
fn test_update_expense() {
    let mut data = data_with_alice();
    let splits = Split::new_equal(vec![1]).unwrap();
    let id = add_expense(
        &mut data,
        "Dinner".to_string(),
        Money::from_cents(2000),
        1,
        None,
        splits,
        0,
    )
    .unwrap();
    update_expense(
        &mut data,
        id,
        Some("Lunch".to_string()),
        Some(Money::from_cents(1500)),
        None,
        Some(Some(4)),
        None,
    )
    .unwrap();
    let expense = &data.expenses[0];
    assert_eq!(expense.description(), "Lunch");
    assert_eq!(expense.amount().cents(), 1500);
    assert_eq!(expense.paid_by(), 1);
    assert_eq!(expense.group_id(), Some(4));
    update_expense(&mut data, id, None, None, Some(2), Some(None), None).unwrap();
    assert_eq!(data.expenses[0].paid_by(), 2);
    assert_eq!(data.expenses[0].group_id(), None);
    assert_eq!(
        update_expense(&mut data, id + 1, None, None, None, None, None).unwrap_err(),
        "Expense not found"
    );
}

#[test]
fn test_delete_expense() {
    let mut data = data_with_alice();
    let splits = Split::new_equal(vec![1]).unwrap();
    let id = add_expense(
        &mut data,
        "Dinner".to_string(),
        Money::from_cents(2000),
        1,
        None,
        splits,
        0,
    )
    .unwrap();
    assert_eq!(data.expenses.len(), 1);
    delete_expense(&mut data, id).unwrap();
    assert!(data.expenses.is_empty());
    assert_eq!(delete_expense(&mut data, id).unwrap_err(), "Expense not found");
}

#[test]
fn test_list_expenses() {
    let mut data = data_with_alice();
    let splits = Split::new_equal(vec![1]).unwrap();
    add_expense(
        &mut data,
        "Dinner".to_string(),
        Money::from_cents(2000),
        1,
        None,
        splits,
        0,
    )
    .unwrap();
    let expenses = list_expenses(&data);
    assert_eq!(expenses.len(), 1);
    assert_eq!(expenses[0].description(), "Dinner");
}

#[test]
fn recorded_payments_are_shown_with_names() {
    let mut data = data_with_alice();
    data.users.push(User::new(2, "Bob", "bob@example.com"));
    create_group(&mut data, "Flat".to_string(), vec![1, 2]).unwrap();
    let first = record_payment(&mut data, 2, 1, Money::from_cents(1250), Some(1), 77).unwrap();
    assert_eq!(first.id, 0);
    assert_eq!(first.from_name, "Bob");
    assert_eq!(first.to_name, "Alice");
    assert_eq!(first.amount.cents(), 1250);
    assert_eq!(first.group_name, Some("Flat".to_string()));
    assert_eq!(first.created_at, 77);
    let second = record_payment(&mut data, 1, 2, Money::from_cents(5), None, 78).unwrap();
    assert_eq!(second.id, 1);
    assert_eq!(second.group_name, None);
    assert_eq!(data.payments.len(), 2);
    assert_eq!(data.next_payment_id, 2);
}

#[test]
fn expense_identifiers_count_up() {
    let mut data = data_with_alice();
    let a = add_expense(&mut data, "A".to_string(), Money::from_cents(1), 1, None,
        Split::new_equal(vec![1]).unwrap(), 0).unwrap();
    let b = add_expense(&mut data, "B".to_string(), Money::from_cents(1), 1, None,
        Split::new_equal(vec![1]).unwrap(), 0).unwrap();
    assert_eq!(a, 0);
    assert_eq!(b, 1);
    assert_eq!(data.next_expense_id, 2);
}

#[test]
fn current_user_can_be_set_read_and_removed() {
    let mut data = data_with_alice();
    assert!(get_current_user(&data).is_none());
    set_current_user(&mut data, Some(1)).unwrap();
    assert_eq!(
        get_current_user(&data),
        Some(UserDto { id: 1, name: "Alice".to_string(), email: "alice@example.com".to_string() })
    );
    remove_current_user(&mut data);
    assert!(get_current_user(&data).is_none());
}

#[test]
fn unknown_current_user_is_refused() {
    let mut data = data_with_alice();
    set_current_user(&mut data, Some(1)).unwrap();
    assert_eq!(set_current_user(&mut data, Some(9)).unwrap_err(), "User not found");
    assert_eq!(data.current_user_id, Some(1));
    set_current_user(&mut data, None).unwrap();
    assert_eq!(data.current_user_id, None);
}

#[test]
fn added_friends_are_listed_in_order() {
    let mut data = AppData::default();
    let bob = add_friend(&mut data, "Bob".to_string(), "bob@example.com".to_string()).unwrap();
    let cid = add_friend(&mut data, "Cid".to_string(), "cid@example.com".to_string()).unwrap();
    assert_eq!(bob.id, 0);
    assert_eq!(cid.id, 1);
    let friends = list_friends(&data);
    assert_eq!(friends, vec![bob, cid]);
    assert_eq!(name_of(&data, 1), "Cid");
    assert_eq!(name_of(&data, 7), "Unknown");
}

#[test]
fn creating_a_group_checks_name_and_members() {
    let mut data = data_with_alice();
    assert_eq!(
        create_group(&mut data, "   ".to_string(), vec![1]).unwrap_err(),
        "Group name is required."
    );
    assert_eq!(
        create_group(&mut data, "Trip".to_string(), vec![]).unwrap_err(),
        "Select at least one member."
    );
    assert!(data.groups.is_empty());
    let dto = create_group(&mut data, "Trip".to_string(), vec![1, 5, 1]).unwrap();
    assert_eq!(dto.id, 1);
    assert_eq!(dto.name, "Trip");
    assert_eq!(dto.member_ids, vec![1, 5, 1]);
    assert_eq!(dto.members, vec!["Alice".to_string(), "Unknown".to_string(), "Alice".to_string()]);
    assert_eq!(dto.expense_count, 0);
    assert!(!dto.has_outstanding);
    assert!(dto.my_balance.is_zero());
    assert_eq!(data.groups[0].members(), &[1, 5][..]);
    assert_eq!(group_name_of(&data, 1), "Trip");
    assert_eq!(group_name_of(&data, 2), "Unknown");
}

#[test]
fn members_can_be_added_and_removed() {
    let mut data = data_with_alice();
    data.users.push(User::new(2, "Bob", "bob@example.com"));
    create_group(&mut data, "Flat".to_string(), vec![1]).unwrap();
    assert_eq!(add_member_to_group(&mut data, 1, 9).unwrap_err(), "User not found");
    assert_eq!(add_member_to_group(&mut data, 3, 2).unwrap_err(), "Group not found");
    add_member_to_group(&mut data, 1, 2).unwrap();
    add_member_to_group(&mut data, 1, 2).unwrap();
    assert_eq!(data.groups[0].members(), &[1, 2][..]);
    remove_member_from_group(&mut data, 1, 1).unwrap();
    assert_eq!(data.groups[0].members(), &[2][..]);
    assert_eq!(remove_member_from_group(&mut data, 3, 2).unwrap_err(), "Group not found");
}

#[test]
fn deleting_a_group_removes_its_records() {
    let mut data = data_with_alice();
    create_group(&mut data, "Flat".to_string(), vec![1]).unwrap();
    create_group(&mut data, "Trip".to_string(), vec![1]).unwrap();
    add_expense(&mut data, "Rent".to_string(), Money::from_cents(100), 1, Some(1),
        Split::new_equal(vec![1]).unwrap(), 0).unwrap();
    add_expense(&mut data, "Train".to_string(), Money::from_cents(100), 1, Some(2),
        Split::new_equal(vec![1]).unwrap(), 0).unwrap();
    data.payments.push(payment(0, 1, 2, 50, Some(1)));
    data.payments.push(payment(1, 1, 2, 50, None));
    assert_eq!(delete_group(&mut data, 9).unwrap_err(), "Group not found");
    delete_group(&mut data, 1).unwrap();
    assert_eq!(data.groups.len(), 1);
    assert_eq!(data.groups[0].id, 2);
    assert_eq!(data.expenses.len(), 1);
    assert_eq!(data.expenses[0].description(), "Train");
    assert_eq!(data.payments.len(), 1);
    assert_eq!(data.payments[0].id, 1);
}

#[test]
fn payments_are_found_and_deleted() {
    let mut data = data_with_alice();
    data.users.push(User::new(2, "Bob", "bob@example.com"));
    create_group(&mut data, "Flat".to_string(), vec![1, 2]).unwrap();
    data.payments.push(payment(10, 1, 2, 500, Some(1)));
    data.payments.push(payment(11, 2, 3, 700, None));
    let all = list_payments(&data);
    assert_eq!(all.len(), 2);
    assert_eq!(all[0].from_name, "Alice");
    assert_eq!(all[0].to_name, "Bob");
    assert_eq!(all[0].group_name, Some("Flat".to_string()));
    assert_eq!(all[1].to_name, "Unknown");
    assert_eq!(all[1].group_name, None);
    assert_eq!(all[1].amount.cents(), 700);
    let bobs = list_payments_for_friend(&data, 2);
    assert_eq!(bobs.len(), 2);
    let thirds = list_payments_for_friend(&data, 3);
    assert_eq!(thirds.len(), 1);
    assert_eq!(thirds[0].id, 11);
    let flat = list_payments_for_group(&data, 1);
    assert_eq!(flat.len(), 1);
    assert_eq!(flat[0].id, 10);
    assert_eq!(payments_in_group(&data, 1).len(), 1);
    assert_eq!(delete_payment(&mut data, 99).unwrap_err(), "Payment not found");
    delete_payment(&mut data, 10).unwrap();
    assert_eq!(data.payments.len(), 1);
    assert_eq!(data.payments[0].id, 11);
}

#[test]
fn expenses_are_found_by_friend_and_group() {
    let mut data = data_with_alice();
    add_expense(&mut data, "Rent".to_string(), Money::from_cents(100), 1, Some(1),
        Split::new_equal(vec![1, 2]).unwrap(), 0).unwrap();
    add_expense(&mut data, "Cinema".to_string(), Money::from_cents(100), 3, None,
        Split::new_exact(vec![(3, Money::from_cents(100))]).unwrap(), 0).unwrap();
    let for_bob = expenses_for_friend(&data, 2);
    assert_eq!(for_bob.len(), 1);
    assert_eq!(for_bob[0].description(), "Rent");
    let for_three = expenses_for_friend(&data, 3);
    assert_eq!(for_three.len(), 1);
    assert_eq!(for_three[0].description(), "Cinema");
    assert_eq!(expenses_for_friend(&data, 1).len(), 1);
    assert_eq!(expenses_in_group(&data, 1).len(), 1);
    assert!(expenses_in_group(&data, 2).is_empty());
}
