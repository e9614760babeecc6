use platform_game::money::{Money, COIN_VALUE, DYNAMITE_PRICE};

#[test]
fn constants_match_the_game_rules() {
    assert_eq!(DYNAMITE_PRICE, 20);
    assert_eq!(COIN_VALUE, 5);
}

#[test]
fn try_spend_succeeds_at_or_above_the_price() {
    let mut m = Money(100);
    assert!(m.try_spend(20));
    assert_eq!(m.read(), 80);
    let mut exact = Money(20);
    assert!(exact.try_spend(20));
    assert_eq!(exact.read(), 0);
}

#[test]
fn try_spend_below_the_price_changes_nothing() {
    let mut m = Money(19);
    assert!(!m.try_spend(20));
    assert_eq!(m.read(), 19);
    let mut zero = Money(0);
    assert!(!zero.try_spend(20));
    assert_eq!(zero.read(), 0);
}

#[test]
fn credit_adds_and_saturates() {
    let mut m = Money(100);
    m.credit(5);
    assert_eq!(m.read(), 105);
    let mut high = Money(254);
    high.credit(5);
    assert_eq!(high.read(), 255);
    high.credit(5);
    assert_eq!(high.read(), 255);
}
