//! The indicator record and the errors of its extraction.
use vstd::prelude::*;
use crate::date::Date;
use crate::money::Amount;

verus! {

/// The coffee market indicators of one publication day. A record always
/// has its publication date and internal price; the other amounts are zero
/// where the source gave none.
#[derive(Clone, Copy, Debug, PartialEq, Eq, Structural)]
pub struct CoffeeMarketIndicators {
    pub publication_date: Date,
    pub internal_price_cop: Amount,
    pub pasilla_cop: Amount,
    pub ny_price_usd: Amount,
    pub exchange_rate_cop_usd: Amount,
    pub mecic_cop: Amount,
}

impl CoffeeMarketIndicators {
    /// The record of the given fields.
    pub fn new(
        publication_date: Date,
        internal_price_cop: Amount,
        pasilla_cop: Amount,
        ny_price_usd: Amount,
        exchange_rate_cop_usd: Amount,
        mecic_cop: Amount,
    ) -> (r: CoffeeMarketIndicators)
        ensures
            r == (CoffeeMarketIndicators {
                publication_date,
                internal_price_cop,
                pasilla_cop,
                ny_price_usd,
                exchange_rate_cop_usd,
                mecic_cop,
            }),
    {
        CoffeeMarketIndicators {
            publication_date,
            internal_price_cop,
            pasilla_cop,
            ny_price_usd,
            exchange_rate_cop_usd,
            mecic_cop,
        }
    }
}

/// The indicators that the published list carries, one per label.
#[derive(Clone, Copy, Debug, PartialEq, Eq, Structural)]
pub enum Indicator {
    PublicationDate,
    InternalPrice,
    Pasilla,
    NyPrice,
    ExchangeRate,
    Mecic,
}

/// Why no record could be extracted.
#[derive(Clone, Debug)]
pub enum ExtractionError {
    /// The document could not be fetched; the transport's message.
    Fetch(String),
    /// The indicator list could not be located in the document.
    Parse,
    /// A mandatory indicator was not in the list.
    MissingField(Indicator),
    /// The value of an amount is not a money text.
    MoneyParse(Indicator),
    /// The publication date is not an ISO `YYYY-MM-DD` date.
    DateParse,
}

} // verus!
