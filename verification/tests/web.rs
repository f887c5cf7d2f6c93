use settlemate::expense_form::{split_new_expense, NewExpenseError, NewSplit};
use settlemate::forms::{decide_friend_request, friend_to_add, friendship_outcome, FriendFormError};
use settlemate::friend_view::{get_initials, user_to_friend_view, users_to_friend_views, UserRecord};
use settlemate::friendship::{friend_ids_of, friendship_row, net_balance, ordered_pair};
use settlemate::index_view::{GroupRecord, IndexTemplate};
use settlemate::registration::{
    accept_registration, registration_status, validate_registration, RegisterForm, RegistrationError,
};
use settlemate::settlement::{check_friendship, plan_settlement, SettleError, Settlement};
use settlemate::text::trim;

fn record(id: i32, name: &str) -> UserRecord {
    UserRecord {
        id,
        name: name.to_string(),
        email: format!("{}@example.com", id),
        password_hash: String::new(),
    }
}

fn form(name: &str, email: &str, password: &str, confirmation: &str) -> RegisterForm {
    RegisterForm {
        name: name.to_string(),
        email: email.to_string(),
        password: password.to_string(),
        password_confirmation: confirmation.to_string(),
    }
}

#[test]
fn new_expense_is_split_between_user_and_friends() {
    let splits = split_new_expense(1, 1000, &vec![2, 3], &vec![2, 3, 4]).unwrap();
    assert_eq!(
        splits,
        vec![
            NewSplit { user_id: 1, amount_cents: 334 },
            NewSplit { user_id: 2, amount_cents: 333 },
            NewSplit { user_id: 3, amount_cents: 333 },
        ]
    );
    let total: i64 = splits.iter().map(|s| s.amount_cents).sum();
    assert_eq!(total, 1000);
}

#[test]
fn new_expense_user_takes_the_remainder() {
    let splits = split_new_expense(5, 10, &vec![6, 7, 8], &vec![8, 7, 6]).unwrap();
    assert_eq!(splits[0], NewSplit { user_id: 5, amount_cents: 4 });
    assert_eq!(splits[1].amount_cents, 2);
    assert_eq!(splits[3], NewSplit { user_id: 8, amount_cents: 2 });
}

#[test]
fn new_expense_needs_friends() {
    assert_eq!(
        split_new_expense(1, 1000, &vec![], &vec![2]),
        Err(NewExpenseError::NoFriendSelected)
    );
    assert_eq!(
        split_new_expense(1, 1000, &vec![2, 9], &vec![2]),
        Err(NewExpenseError::NotAFriend)
    );
    assert_eq!(NewExpenseError::NotAFriend.message(), "One or more selected friends are not in your friend list");
    assert_eq!(NewExpenseError::NoFriendSelected.message(), "Select at least one friend");
    assert_eq!(NewExpenseError::AmountNotPositive.message(), "Amount must be a positive number");
}

#[test]
fn settling_pays_the_whole_balance_to_whoever_is_owed() {
    assert_eq!(check_friendship(true), Ok(()));
    assert_eq!(check_friendship(false), Err(SettleError::NotAFriend));
    assert_eq!(
        plan_settlement(1, 2, -1500),
        Ok(Settlement { from_id: 1, to_id: 2, amount_cents: 1500 })
    );
    assert_eq!(
        plan_settlement(1, 2, 700),
        Ok(Settlement { from_id: 2, to_id: 1, amount_cents: 700 })
    );
    assert_eq!(plan_settlement(1, 2, 0), Err(SettleError::AlreadySettled));
    assert_eq!(SettleError::NotAFriend.message(), "This user is not your friend.");
    assert_eq!(SettleError::AlreadySettled.message(), "You are already settled up.");
}

#[test]
fn registration_trims_and_lowercases() {
    let reg = validate_registration(&form("  Ana  ", " Ana@Example.COM ", "geslo123", "geslo123")).unwrap();
    assert_eq!(reg.name, "Ana");
    assert_eq!(reg.email, "ana@example.com");
}

#[test]
fn registration_rules_are_checked_in_order() {
    assert_eq!(
        validate_registration(&form(" ", "bad", "x", "y")).unwrap_err(),
        RegistrationError::NameRequired
    );
    assert_eq!(
        validate_registration(&form("Ana", "bad", "x", "y")).unwrap_err(),
        RegistrationError::InvalidEmail
    );
    assert_eq!(
        validate_registration(&form("Ana", "a@b", "kratko", "kratko")).unwrap_err(),
        RegistrationError::PasswordTooShort
    );
    assert_eq!(
        validate_registration(&form("Ana", "a@b", "dolgogeslo", "drugogeslo")).unwrap_err(),
        RegistrationError::PasswordMismatch
    );
    assert!(validate_registration(&form("Ana", "a@b", "šumnikiž", "šumnikiž")).is_ok());
    assert_eq!(RegistrationError::NameRequired.status_code(), 400);
    assert_eq!(RegistrationError::EmailTaken.status_code(), 409);
    assert_eq!(RegistrationError::PasswordMismatch.message(), "Gesli se ne ujemata.");
}

#[test]
fn friend_requests_are_checked() {
    assert_eq!(friend_to_add(1, None), Err(FriendFormError::NoSuchUser));
    assert_eq!(friend_to_add(1, Some(1)), Err(FriendFormError::Yourself));
    assert_eq!(friend_to_add(1, Some(2)), Ok(2));
    assert_eq!(FriendFormError::AlreadyFriends.message(), "This user is already your friend.");
}

#[test]
fn friend_request_refusals_come_in_order() {
    assert_eq!(decide_friend_request(1, None, true), Err(FriendFormError::NoSuchUser));
    assert_eq!(decide_friend_request(1, Some(1), false), Err(FriendFormError::Yourself));
    assert_eq!(decide_friend_request(4, Some(2), true), Err(FriendFormError::AlreadyFriends));
    assert_eq!(decide_friend_request(4, Some(2), false), Ok((2, 4)));
    assert_eq!(friendship_outcome(3, 3, false), Err(FriendFormError::AlreadyFriends));
    assert_eq!(friendship_outcome(3, 9, false), Ok((3, 9)));
    assert_eq!(
        FriendFormError::AlreadyFriends.form_headers(),
        vec![("hx-retarget", "#friend-form-slot"), ("hx-reswap", "innerHTML")]
    );
}

#[test]
fn taken_address_is_a_conflict() {
    let reg = validate_registration(&form("Ana", "a@b", "dolgogeslo", "dolgogeslo")).unwrap();
    let refused = accept_registration(reg, true);
    assert_eq!(refused.as_ref().unwrap_err(), &RegistrationError::EmailTaken);
    assert_eq!(registration_status(&refused), 409);
    let reg = validate_registration(&form("Ana", "a@b", "dolgogeslo", "dolgogeslo")).unwrap();
    let accepted = accept_registration(reg, false);
    assert_eq!(accepted.as_ref().unwrap().email, "a@b");
    assert_eq!(registration_status(&accepted), 201);
    let bad = validate_registration(&form("", "a@b", "dolgogeslo", "dolgogeslo"));
    assert_eq!(registration_status(&bad), 400);
}

#[test]
fn friendships_are_stored_in_order() {
    assert_eq!(ordered_pair(5, 3), (3, 5));
    assert_eq!(ordered_pair(3, 5), (3, 5));
    assert_eq!(friendship_row(4, 4, false), None);
    assert_eq!(friendship_row(4, 2, true), None);
    assert_eq!(friendship_row(4, 2, false), Some((2, 4)));
}

#[test]
fn friends_are_the_other_side_of_each_row() {
    assert_eq!(friend_ids_of(3, &vec![(1, 3), (3, 7), (2, 3)]), vec![1, 7, 2]);
    assert!(friend_ids_of(3, &vec![]).is_empty());
}

#[test]
fn balance_is_paid_minus_owed() {
    assert_eq!(net_balance(&vec![1000, 250], &vec![400, 100, 50]), 700);
    assert_eq!(net_balance(&vec![], &vec![300]), -300);
}

#[test]
fn initials_come_from_two_words_or_one() {
    assert_eq!(get_initials("john smith"), "JS");
    assert_eq!(get_initials("  ana   marija novak"), "AM");
    assert_eq!(get_initials("alice"), "AL");
    assert_eq!(get_initials("x"), "X");
    assert_eq!(get_initials("   "), "");
    assert_eq!(get_initials("élan"), "ÉL");
}

#[test]
fn friend_views_show_accounts_in_order() {
    let view = user_to_friend_view(record(3, "Bob Marley"));
    assert_eq!(view.id, 3);
    assert_eq!(view.initials, "BM");
    assert_eq!(view.name, "Bob Marley");
    assert_eq!(view.email, "3@example.com");
    let views = users_to_friend_views(vec![record(1, "Ana"), record(2, "Ivo Ivić")]);
    assert_eq!(views.len(), 2);
    assert_eq!(views[0].initials, "AN");
    assert_eq!(views[1].initials, "II");
    assert_eq!(views[1].id, 2);
}

#[test]
fn start_page_describes_the_balance() {
    let owed = IndexTemplate::new("Ana".to_string(), 12345, vec![GroupRecord { id: 1, name: "Flat".to_string() }]);
    assert_eq!(owed.balance_state_class, "balance-positive");
    assert_eq!(owed.balance_label, "Overall, you are owed");
    assert_eq!(owed.balance_secondary, "Across all shared expenses");
    assert_eq!(owed.formatted_balance, "€123.45");
    assert_eq!(owed.active_tab, "groups");
    assert_eq!(owed.groups.len(), 1);
    assert!(owed.friends.is_empty());
    let owes = IndexTemplate::new("Ana".to_string(), -5, vec![]);
    assert_eq!(owes.balance_state_class, "balance-negative");
    assert_eq!(owes.balance_label, "Overall, you owe");
    assert_eq!(owes.formatted_balance, "-€0.05");
    let even = IndexTemplate::new("Ana".to_string(), 0, vec![]);
    assert_eq!(even.balance_state_class, "balance-neutral");
    assert_eq!(even.balance_label, "Overall, you are settled up");
    assert_eq!(even.balance_secondary, "No outstanding shared expenses");
    assert_eq!(even.formatted_balance, "€0.00");
    let extreme = IndexTemplate::new("Ana".to_string(), i64::MIN, vec![]);
    assert_eq!(extreme.formatted_balance, "-€92233720368547758.08");
}

#[test]
fn trimming_removes_surrounding_white_space() {
    assert_eq!(trim("  a b \t\n"), "a b");
    assert_eq!(trim(""), "");
    assert_eq!(trim(" \u{3000} "), "");
}
