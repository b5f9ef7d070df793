use coffee_market::clock::{Clock, SystemClock};
use coffee_market::money::Amount;
use coffee_market::price::{CoffeePrice, Currency, MockCoffeePriceProvider};

#[test]
fn system_clock_gives_a_calendar_day() {
    let d = SystemClock.today();
    assert!(d.month >= 1 && d.month <= 12);
    assert!(d.day >= 1 && d.day <= 31);
    assert!(d.year >= 2020);
}

#[test]
fn mock_price_is_fixed() {
    let p = MockCoffeePriceProvider.get_price();
    assert_eq!(p.value, Amount::from_parts(1_500_000, 0));
    assert_eq!(p.currency, Currency::COP);
    assert_eq!(p.date, SystemClock.current_date());
}

#[test]
fn price_is_in_pesos() {
    let d = SystemClock.current_date();
    let p = CoffeePrice::new(Amount::from_parts(42, 1), d);
    assert_eq!(p.currency, Currency::COP);
    assert_eq!(p.value, Amount::from_parts(42, 1));
}

