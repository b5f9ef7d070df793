//! The single reference price of coffee, with its currency and date.
use vstd::prelude::*;
use crate::clock::SystemClock;
use crate::date::Date;
use crate::money::Amount;

verus! {

/// The currency a price is given in.
#[derive(Clone, Copy, Debug, PartialEq, Eq, Structural)]
pub enum Currency {
    COP,
}

/// A coffee price of a given day, in Colombian pesos.
#[derive(Clone, Copy, Debug, PartialEq, Eq, Structural)]
pub struct CoffeePrice {
    pub value: Amount,
    pub currency: Currency,
    pub date: Date,
}

impl CoffeePrice {
    /// A price in pesos.
    pub fn new(value: Amount, date: Date) -> (r: CoffeePrice)
        ensures
            r == (CoffeePrice { value, currency: Currency::COP, date }),
    {
        CoffeePrice { value, currency: Currency::COP, date }
    }
}

/// A price source that always quotes 1,500,000 pesos, dated today.
pub struct MockCoffeePriceProvider;

impl MockCoffeePriceProvider {
    /// The fixed quote, dated today.
    pub fn get_price(&self) -> (r: CoffeePrice)
        ensures
            r.value == (Amount { mantissa: 1_500_000, scale: 0 }),
            r.currency == Currency::COP,
            r.date.wf(),
    {
        let today = SystemClock.current_date();
        CoffeePrice::new(Amount::from_parts(1_500_000, 0), today)
    }
}

} // verus!
