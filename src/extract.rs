//! The scan of the published label/value list into an indicator record.
use vstd::prelude::*;
use crate::date::{parse_date, parsed_date_of, Date};
use crate::indicators::{CoffeeMarketIndicators, ExtractionError, Indicator};
use crate::money::{money_of, normalize_money, parse_decimal, Amount};
use crate::text::{same_text, trim, trimmed};

verus! {

/// The indicator that a (trimmed) label names; other labels name none.
pub open spec fn indicator_of_label(label: Seq<char>) -> Option<Indicator> {
    if label == "Fecha:"@ {
        Some(Indicator::PublicationDate)
    } else if label == "Precio interno de referencia:"@ {
        Some(Indicator::InternalPrice)
    } else if label == "Pasilla de finca:"@ {
        Some(Indicator::Pasilla)
    } else if label == "Bolsa de NY:"@ {
        Some(Indicator::NyPrice)
    } else if label == "Tasa de cambio:"@ {
        Some(Indicator::ExchangeRate)
    } else if label == "MeCIC:"@ {
        Some(Indicator::Mecic)
    } else {
        None
    }
}

/// The indicator that a trimmed label names.
pub fn indicator_for_label(label: &str) -> (r: Option<Indicator>)
    ensures
        r == indicator_of_label(label@),
{
    if same_text(label, "Fecha:") {
        Some(Indicator::PublicationDate)
    } else if same_text(label, "Precio interno de referencia:") {
        Some(Indicator::InternalPrice)
    } else if same_text(label, "Pasilla de finca:") {
        Some(Indicator::Pasilla)
    } else if same_text(label, "Bolsa de NY:") {
        Some(Indicator::NyPrice)
    } else if same_text(label, "Tasa de cambio:") {
        Some(Indicator::ExchangeRate)
    } else if same_text(label, "MeCIC:") {
        Some(Indicator::Mecic)
    } else {
        None
    }
}

/// The amount that a published money text denotes: `$3.900,50` is 3900.50.
pub fn parse_money(value: &str) -> (r: Option<Amount>)
    ensures
        r == money_of(value@),
{
    let normalized = normalize_money(value);
    parse_decimal(&normalized)
}

/// The date that a text in ISO `YYYY-MM-DD` notation names.
pub open spec fn iso_date_of(text: Seq<char>) -> Option<Date> {
    match parsed_date_of(text, "%Y-%m-%d"@) {
        Some((y, m, d)) => Some(Date { year: y as i32, month: m as u32, day: d as u32 }),
        None => None,
    }
}

/// What the scan has read so far: each indicator, if its label was met.
#[derive(Clone, Copy, Debug, PartialEq, Eq, Structural)]
pub struct Readings {
    pub publication_date: Option<Date>,
    pub internal_price_cop: Option<Amount>,
    pub pasilla_cop: Option<Amount>,
    pub ny_price_usd: Option<Amount>,
    pub exchange_rate_cop_usd: Option<Amount>,
    pub mecic_cop: Option<Amount>,
}

/// Readings before the first item: nothing read.
pub open spec fn no_readings() -> Readings {
    Readings {
        publication_date: None,
        internal_price_cop: None,
        pasilla_cop: None,
        ny_price_usd: None,
        exchange_rate_cop_usd: None,
        mecic_cop: None,
    }
}

/// The readings with `amount` recorded for an amount indicator.
pub open spec fn with_amount(r: Readings, which: Indicator, amount: Amount) -> Readings {
    match which {
        Indicator::InternalPrice => Readings { internal_price_cop: Some(amount), ..r },
        Indicator::Pasilla => Readings { pasilla_cop: Some(amount), ..r },
        Indicator::NyPrice => Readings { ny_price_usd: Some(amount), ..r },
        Indicator::ExchangeRate => Readings { exchange_rate_cop_usd: Some(amount), ..r },
        Indicator::Mecic => Readings { mecic_cop: Some(amount), ..r },
        Indicator::PublicationDate => r,
    }
}

/// The readings after one list item: an unknown label changes nothing, a
/// known one records its value (a later item of the same label wins), and
/// a value that does not parse ends the scan.
pub open spec fn absorbed(r: Readings, label: Seq<char>, value: Seq<char>) -> Result<
    Readings,
    ExtractionError,
> {
    match indicator_of_label(trimmed(label)) {
        None => Ok(r),
        Some(Indicator::PublicationDate) => match iso_date_of(trimmed(value)) {
            Some(d) => Ok(Readings { publication_date: Some(d), ..r }),
            None => Err(ExtractionError::DateParse),
        },
        Some(which) => match money_of(trimmed(value)) {
            Some(a) => Ok(with_amount(r, which, a)),
            None => Err(ExtractionError::MoneyParse(which)),
        },
    }
}

/// The record that complete readings give: the date and the internal price
/// are mandatory, the other amounts are zero where they were not read.
pub open spec fn finished(r: Readings) -> Result<CoffeeMarketIndicators, ExtractionError> {
    let zero = Amount { mantissa: 0, scale: 0 };
    match (r.publication_date, r.internal_price_cop) {
        (None, _) => Err(ExtractionError::MissingField(Indicator::PublicationDate)),
        (Some(_), None) => Err(ExtractionError::MissingField(Indicator::InternalPrice)),
        (Some(d), Some(p)) => Ok(
            CoffeeMarketIndicators {
                publication_date: d,
                internal_price_cop: p,
                pasilla_cop: r.pasilla_cop.unwrap_or(zero),
                ny_price_usd: r.ny_price_usd.unwrap_or(zero),
                exchange_rate_cop_usd: r.exchange_rate_cop_usd.unwrap_or(zero),
                mecic_cop: r.mecic_cop.unwrap_or(zero),
            },
        ),
    }
}

/// A list item as the document gives it: its label text and its value
/// text, each where the item has one.
pub type ListItem = (Option<String>, Option<String>);

/// The characters of a text, where there is one.
pub open spec fn text_view(t: Option<String>) -> Option<Seq<char>> {
    match t {
        Some(s) => Some(s@),
        None => None,
    }
}

/// The list items as character sequences.
pub open spec fn items_view(items: Seq<ListItem>) -> Seq<(Option<Seq<char>>, Option<Seq<char>>)> {
    items.map_values(|i: ListItem| (text_view(i.0), text_view(i.1)))
}

/// The readings after the items in order; the first value that does not
/// parse ends the scan. Items without a label or a value are passed over.
pub open spec fn scanned(items: Seq<(Option<Seq<char>>, Option<Seq<char>>)>) -> Result<
    Readings,
    ExtractionError,
>
    decreases items.len(),
{
    if items.len() == 0 {
        Ok(no_readings())
    } else {
        match scanned(items.drop_last()) {
            Err(e) => Err(e),
            Ok(r) => match items.last() {
                (Some(label), Some(value)) => absorbed(r, label, value),
                _ => Ok(r),
            },
        }
    }
}

/// The record that a list of items gives, or why it gives none.
pub open spec fn extraction_of(items: Seq<(Option<Seq<char>>, Option<Seq<char>>)>) -> Result<
    CoffeeMarketIndicators,
    ExtractionError,
> {
    match scanned(items) {
        Err(e) => Err(e),
        Ok(r) => finished(r),
    }
}

impl Readings {
    /// Readings with nothing read yet.
    pub fn empty() -> (r: Readings)
        ensures
            r == no_readings(),
    {
        Readings {
            publication_date: None,
            internal_price_cop: None,
            pasilla_cop: None,
            ny_price_usd: None,
            exchange_rate_cop_usd: None,
            mecic_cop: None,
        }
    }

    /// Reads one list item; on an error the readings are left as they were.
    pub fn absorb(&mut self, label: &str, value: &str) -> (r: Result<(), ExtractionError>)
        ensures
            match absorbed(*old(self), label@, value@) {
                Ok(next) => r is Ok && *final(self) == next,
                Err(e) => r == Err::<(), ExtractionError>(e) && *final(self) == *old(self),
            },
    {
        let label = trim(label);
        let value = trim(value);
        match indicator_for_label(label) {
            None => Ok(()),
            Some(Indicator::PublicationDate) => match parse_date(value, "%Y-%m-%d") {
                Some(d) => {
                    self.publication_date = Some(d);
                    Ok(())
                },
                None => Err(ExtractionError::DateParse),
            },
            Some(which) => match parse_money(value) {
                Some(a) => {
                    match which {
                        Indicator::InternalPrice => self.internal_price_cop = Some(a),
                        Indicator::Pasilla => self.pasilla_cop = Some(a),
                        Indicator::NyPrice => self.ny_price_usd = Some(a),
                        Indicator::ExchangeRate => self.exchange_rate_cop_usd = Some(a),
                        Indicator::Mecic => self.mecic_cop = Some(a),
                        Indicator::PublicationDate => {},
                    }
                    Ok(())
                },
                None => Err(ExtractionError::MoneyParse(which)),
            },
        }
    }

    /// The record, where the mandatory indicators were read.
    pub fn finish(&self) -> (r: Result<CoffeeMarketIndicators, ExtractionError>)
        ensures
            r == finished(*self),
    {
        let date = match self.publication_date {
            Some(d) => d,
            None => {
                return Err(ExtractionError::MissingField(Indicator::PublicationDate));
            },
        };
        let price = match self.internal_price_cop {
            Some(p) => p,
            None => {
                return Err(ExtractionError::MissingField(Indicator::InternalPrice));
            },
        };
        Ok(
            CoffeeMarketIndicators::new(
                date,
                price,
                amount_or_zero(self.pasilla_cop),
                amount_or_zero(self.ny_price_usd),
                amount_or_zero(self.exchange_rate_cop_usd),
                amount_or_zero(self.mecic_cop),
            ),
        )
    }
}

fn amount_or_zero(a: Option<Amount>) -> (r: Amount)
    ensures
        r == a.unwrap_or(Amount { mantissa: 0, scale: 0 }),
{
    match a {
        Some(x) => x,
        None => Amount::zero(),
    }
}

/// The record that the list items give, scanned in order.
pub fn extract_indicators(items: &Vec<ListItem>) -> (r: Result<CoffeeMarketIndicators, ExtractionError>)
    ensures
        r == extraction_of(items_view(items@)),
{
    let mut readings = Readings::empty();
    let n = items.len();
    let mut i: usize = 0;
    while i < n
        invariant
            n == items@.len(),
            i <= n,
            scanned(items_view(items@.take(i as int))) == Ok::<Readings, ExtractionError>(
                readings,
            ),
        decreases n - i,
    {
        let ghost before = items_view(items@.take(i as int));
        let ghost after = items_view(items@.take(i + 1));
        assert(after.drop_last() =~= before);
        let item = &items[i];
        match (&item.0, &item.1) {
            (Some(label), Some(value)) => {
                match readings.absorb(label.as_str(), value.as_str()) {
                    Ok(()) => {},
                    Err(e) => {
                        proof {
                            assert(after.last() == (Some(label@), Some(value@)));
                            assert(scanned(after) == Err::<Readings, ExtractionError>(e));
                            assert(items_view(items@).take(i + 1) =~= after);
                            lemma_scan_stays_failed(items_view(items@), i as int + 1, e);
                        }
                        return Err(e);
                    },
                }
            },
            _ => {},
        }
        i = i + 1;
    }
    assert(items_view(items@.take(n as int)) =~= items_view(items@));
    readings.finish()
}

/// Once an item has failed, the scan of every longer prefix fails the same way.
proof fn lemma_scan_stays_failed(
    items: Seq<(Option<Seq<char>>, Option<Seq<char>>)>,
    k: int,
    e: ExtractionError,
)
    requires
        0 <= k <= items.len(),
        scanned(items.take(k)) == Err::<Readings, ExtractionError>(e),
    ensures
        scanned(items) == Err::<Readings, ExtractionError>(e),
    decreases items.len(),
{
    if k == items.len() {
        assert(items.take(k) =~= items);
    } else {
        assert(items.drop_last().take(k) =~= items.take(k));
        lemma_scan_stays_failed(items.drop_last(), k, e);
    }
}

/// Whether some item carries the label of `which` together with a value.
pub open spec fn carries(
    items: Seq<(Option<Seq<char>>, Option<Seq<char>>)>,
    which: Indicator,
) -> bool {
    exists|i: int|
        0 <= i < items.len() && (#[trigger] items[i]).0 is Some && items[i].1 is Some
            && indicator_of_label(trimmed(items[i].0->0)) == Some(which)
}

proof fn lemma_unread_stays_unset(
    items: Seq<(Option<Seq<char>>, Option<Seq<char>>)>,
    which: Indicator,
)
    requires
        !carries(items, which),
    ensures
        scanned(items) matches Ok(r) ==> (which == Indicator::PublicationDate
            ==> r.publication_date is None) && (which == Indicator::InternalPrice
            ==> r.internal_price_cop is None),
    decreases items.len(),
{
    if items.len() > 0 {
        let t = items.drop_last();
        assert(!carries(t, which)) by {
            if carries(t, which) {
                let i = choose|i: int|
                    0 <= i < t.len() && (#[trigger] t[i]).0 is Some && t[i].1 is Some
                        && indicator_of_label(trimmed(t[i].0->0)) == Some(which);
                assert(items[i] == t[i]);
            }
        }
        lemma_unread_stays_unset(t, which);
        let last = items.last();
        assert(items[items.len() - 1] == last);
    }
}

/// A list without the publication date label, or without the internal
/// price label, gives no record. Unless a value failed to parse first, the
/// error names a missing mandatory indicator, the date where it is the date
/// that is missing.
pub proof fn lemma_missing_mandatory_field(
    items: Seq<(Option<Seq<char>>, Option<Seq<char>>)>,
    which: Indicator,
)
    requires
        which == Indicator::PublicationDate || which == Indicator::InternalPrice,
        !carries(items, which),
    ensures
        extraction_of(items) is Err,
        scanned(items) is Ok ==> extraction_of(items) matches Err(
            ExtractionError::MissingField(_),
        ),
        scanned(items) is Ok && which == Indicator::PublicationDate ==> extraction_of(items)
            == Err::<CoffeeMarketIndicators, ExtractionError>(
            ExtractionError::MissingField(Indicator::PublicationDate),
        ),
{
    lemma_unread_stays_unset(items, which);
}

} // verus!
