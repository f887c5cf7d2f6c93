use settlemate::money::Money;

#[test]
fn test_from_cents() {
    let money = Money::from_cents(150);
    assert_eq!(money.cents(), 150);
}

#[test]
fn test_is_zero() {
    let money = Money::from_cents(0);
    assert!(money.is_zero());
}

#[test]
fn test_is_positive() {
    let money = Money::from_cents(100);
    assert!(money.is_positive());
}

#[test]
fn test_is_negative() {
    let money = Money::from_cents(-100);
    assert!(money.is_negative());
}

#[test]
fn test_abs() {
    let money = Money::from_cents(-150);
    assert_eq!(money.abs().cents(), 150);
}

#[test]
fn test_add() {
    let money1 = Money::from_cents(100);
    let money2 = Money::from_cents(200);
    let result = money1 + money2;
    assert_eq!(result.cents(), 300);
}

#[test]
fn test_sub() {
    let money1 = Money::from_cents(300);
    let money2 = Money::from_cents(100);
    let result = money1 - money2;
    assert_eq!(result.cents(), 200);
}

#[test]
fn test_neg() {
    let money = Money::from_cents(150);
    let result = -money;
    assert_eq!(result.cents(), -150);
}

#[test]
fn test_display_formats_positive_and_negative_amounts() {
    let positive_money = Money::from_cents(12345);
    let negative_money = Money::from_cents(-6789);

    assert_eq!(positive_money.to_display_string(), "123.45 €");
    assert_eq!(negative_money.to_display_string(), "-67.89 €");
}

#[test]
fn test_split_equal_preserves_every_cent() {
    let amount = Money::from_cents(1000);

    let shares = amount.split_equal(3).unwrap();

    assert_eq!(
        shares,
        vec![
            Money::from_cents(334),
            Money::from_cents(333),
            Money::from_cents(333),
        ]
    );

    let total: i64 = shares.iter().map(|share| share.cents()).sum();

    assert_eq!(total, 1000);
}

#[test]
fn split_equal_among_nobody_is_refused() {
    assert_eq!(
        Money::from_cents(100).split_equal(0).unwrap_err(),
        "Cannot split among zero participants"
    );
}

#[test]
fn split_equal_of_negative_amount_is_refused() {
    assert_eq!(
        Money::from_cents(-100).split_equal(2).unwrap_err(),
        "Cannot split a negative amount"
    );
}

#[test]
fn split_equal_shares_differ_by_at_most_one_cent() {
    let shares = Money::from_cents(10).split_equal(4).unwrap();
    assert_eq!(
        shares,
        vec![
            Money::from_cents(3),
            Money::from_cents(3),
            Money::from_cents(2),
            Money::from_cents(2),
        ]
    );
}

#[test]
fn split_equal_of_zero_gives_zero_shares() {
    let shares = Money::from_cents(0).split_equal(2).unwrap();
    assert_eq!(shares, vec![Money::zero(), Money::zero()]);
}

#[test]
fn add_then_subtract_gives_back_the_amount() {
    let a = Money::from_cents(-250);
    let b = Money::from_cents(1999);
    assert_eq!((a + b) - b, a);
}

#[test]
fn double_negation_gives_back_the_amount() {
    let a = Money::from_cents(42);
    assert_eq!(-(-a), a);
}

#[test]
fn display_of_small_and_zero_amounts() {
    assert_eq!(Money::from_cents(5).to_display_string(), "0.05 €");
    assert_eq!(Money::from_cents(0).to_display_string(), "0.00 €");
    assert_eq!(Money::from_cents(-100).to_display_string(), "-1.00 €");
    assert_eq!(Money::from_cents(123456789).to_display_string(), "1234567.89 €");
}

#[test]
fn display_of_negative_is_minus_and_positive() {
    let c = 6789;
    let negative = Money::from_cents(-c).to_display_string();
    let positive = Money::from_cents(c).to_display_string();
    assert_eq!(negative, format!("-{}", positive));
}

#[test]
fn abs_keeps_positive_amounts() {
    assert_eq!(Money::from_cents(150).abs().cents(), 150);
    assert_eq!(Money::from_cents(0).abs().cents(), 0);
}

#[test]
fn zero_is_neither_positive_nor_negative() {
    let z = Money::zero();
    assert!(z.is_zero());
    assert!(!z.is_positive());
    assert!(!z.is_negative());
}

#[test]
fn add_assign_adds_in_place() {
    let mut total = Money::from_cents(100);
    total.add_assign(Money::from_cents(-30));
    total.add_assign(Money::from_cents(5));
    assert_eq!(total.cents(), 75);
}
