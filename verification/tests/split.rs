use settlemate::money::Money;
use settlemate::split::Split;

#[test]
fn test_split_participants_equal() {
    let split = Split::new_equal(vec![1, 2, 3]).unwrap();

    let participants = split.participants();

    assert_eq!(participants, vec![1, 2, 3]);
}

#[test]
fn test_split_participants_exact() {
    let split = Split::new_exact(vec![
        (1, Money::from_cents(1000)),
        (2, Money::from_cents(2000)),
        (3, Money::from_cents(3000)),
    ])
    .unwrap();

    let participants = split.participants();

    assert_eq!(participants, vec![1, 2, 3]);
}

#[test]
fn test_new_equal_empty_returns_error() {
    let split = Split::new_equal(vec![]);

    assert!(split.is_err());
    assert_eq!(
        split.unwrap_err(),
        "Equal split must have at least one participant"
    );
}

#[test]
fn test_new_exact_empty_returns_error() {
    let split = Split::new_exact(vec![]);

    assert!(split.is_err());
    assert_eq!(
        split.unwrap_err(),
        "Exact split must have at least one participant"
    );
}

#[test]
fn test_new_exact_negative_amount_returns_error() {
    let split = Split::new_exact(vec![
        (1, Money::from_cents(-1000)),
        (2, Money::from_cents(2000)),
    ]);

    assert!(split.is_err());
    assert_eq!(split.unwrap_err(), "Share amounts cannot be negative");
}

#[test]
fn test_equal_money_split_preserves_every_cent() {
    let split = Split::new_equal(vec![1, 2, 3]).unwrap();

    let shares = split.compute_money_shares(Money::from_cents(1000)).unwrap();

    assert_eq!(
        shares,
        vec![
            (1, Money::from_cents(334)),
            (2, Money::from_cents(333)),
            (3, Money::from_cents(333)),
        ]
    );

    let total: i64 = shares.iter().map(|(_, amount)| amount.cents()).sum();

    assert_eq!(total, 1000);
}

#[test]
fn test_exact_money_split_accepts_correct_total() {
    let split = Split::new_exact(vec![
        (1, Money::from_cents(1025)),
        (2, Money::from_cents(2050)),
        (3, Money::from_cents(1925)),
    ])
    .unwrap();

    let shares = split.compute_money_shares(Money::from_cents(5000)).unwrap();

    assert_eq!(
        shares,
        vec![
            (1, Money::from_cents(1025)),
            (2, Money::from_cents(2050)),
            (3, Money::from_cents(1925)),
        ]
    );
}

#[test]
fn test_exact_money_split_rejects_wrong_total() {
    let split = Split::new_exact(vec![
        (1, Money::from_cents(1000)),
        (2, Money::from_cents(1500)),
    ])
    .unwrap();

    let result = split.compute_money_shares(Money::from_cents(3000));

    assert_eq!(
        result.unwrap_err(),
        "Exact shares must add up to the total amount"
    );
}

#[test]
fn equal_split_of_negative_total_is_refused() {
    let split = Split::new_equal(vec![1, 2]).unwrap();
    assert_eq!(
        split.compute_money_shares(Money::from_cents(-10)).unwrap_err(),
        "Cannot split a negative amount"
    );
}

#[test]
fn equal_split_of_two_users_gives_first_the_odd_cent() {
    let split = Split::new_equal(vec![7, 9]).unwrap();
    let shares = split.compute_money_shares(Money::from_cents(101)).unwrap();
    assert_eq!(shares, vec![(7, Money::from_cents(51)), (9, Money::from_cents(50))]);
}

#[test]
fn equal_split_of_one_user_gives_everything() {
    let split = Split::new_equal(vec![4]).unwrap();
    let shares = split.compute_money_shares(Money::from_cents(5000)).unwrap();
    assert_eq!(shares, vec![(4, Money::from_cents(5000))]);
}
