//! The indicator list as it stands in the published HTML document.
use scraper::{ElementRef, Html, Selector};
use vstd::prelude::*;
use crate::extract::{extract_indicators, extraction_of, items_view, ListItem};
use crate::indicators::{CoffeeMarketIndicators, ExtractionError, Indicator};
use crate::money::{decimal_of, parse_decimal, Amount};
use crate::text::{trim, trim_chars, trimmed};

verus! {

/// What scraper selects in a document: for each element that `item_css`
/// selects, in document order, the text of the first element inside it
/// that `label_css` selects and of the first that `value_css` selects;
/// none where one of the selectors does not parse.
pub uninterp spec fn selected_items_of(
    html: Seq<char>,
    item_css: Seq<char>,
    label_css: Seq<char>,
    value_css: Seq<char>,
) -> Option<Seq<(Option<Seq<char>>, Option<Seq<char>>)>>;

/// Relies on scraper: `Selector::parse` for the three selectors,
/// `Html::parse_document`, then `select` and `ElementRef::text` to read the
/// texts of the selected elements. The result depends on the four strings alone.
#[verifier::external_body]
fn select_items(html: &str, item_css: &str, label_css: &str, value_css: &str) -> (r: Option<
    Vec<ListItem>,
>)
    ensures
        match selected_items_of(html@, item_css@, label_css@, value_css@) {
            None => r is None,
            Some(items) => r matches Some(v) && items_view(v@) == items,
        },
{
    let (items, label, value) = match (Selector::parse(item_css), Selector::parse(label_css), Selector::parse(value_css)) {
        (Ok(a), Ok(b), Ok(c)) => (a, b, c),
        _ => return None,
    };
    let first_text = |e: ElementRef, s: &Selector| e.select(s).next().map(|t| t.text().collect::<String>());
    let doc = Html::parse_document(html);
    Some(doc.select(&items).map(|li| (first_text(li, &label), first_text(li, &value))).collect())
}

/// The record that a published document gives: the items of the list in
/// the `#modal-indicadores` container, each with a `.name` label and a
/// `strong` value, scanned in order.
pub open spec fn document_extraction(html: Seq<char>) -> Result<
    CoffeeMarketIndicators,
    ExtractionError,
> {
    match selected_items_of(html, "#modal-indicadores .lista li"@, ".name"@, "strong"@) {
        None => Err(ExtractionError::Parse),
        Some(items) => extraction_of(items),
    }
}

/// The indicator record that the published document gives, or why it gives none.
pub fn extract_from_document(html: &str) -> (r: Result<CoffeeMarketIndicators, ExtractionError>)
    ensures
        r == document_extraction(html@),
{
    match select_items(html, "#modal-indicadores .lista li", ".name", "strong") {
        None => Err(ExtractionError::Parse),
        Some(items) => extract_indicators(&items),
    }
}

/// What scraper selects in a document: the text of each element that
/// `css` selects, in document order; none where the selector does not parse.
pub uninterp spec fn selected_texts_of(html: Seq<char>, css: Seq<char>) -> Option<Seq<Seq<char>>>;

/// Relies on scraper: `Selector::parse`, `Html::parse_document`, then
/// `select` and `ElementRef::text` to read the texts of the selected
/// elements. The result depends on the two strings alone.
#[verifier::external_body]
fn select_texts(html: &str, css: &str) -> (r: Option<Vec<String>>)
    ensures
        match selected_texts_of(html@, css@) {
            None => r is None,
            Some(texts) => r matches Some(v) && v@.map_values(|t: String| t@) == texts,
        },
{
    let selector = match Selector::parse(css) {
        Ok(s) => s,
        Err(_) => return None,
    };
    let doc = Html::parse_document(html);
    Some(doc.select(&selector).map(|e| e.text().collect::<String>()).collect())
}

/// `s` without any `$`, `.` or `,`.
pub open spec fn without_price_marks(s: Seq<char>) -> Seq<char>
    decreases s.len(),
{
    if s.len() == 0 {
        s
    } else {
        let p = without_price_marks(s.drop_last());
        let c = s.last();
        if c == '$' || c == '.' || c == ',' {
            p
        } else {
            p.push(c)
        }
    }
}

/// The digits of a quoted price: trimmed, its marks dropped, trimmed again.
pub open spec fn price_digits(s: Seq<char>) -> Seq<char> {
    trimmed(without_price_marks(trimmed(s)))
}

/// The price that the quoted text gives, as a whole number of pesos.
pub fn parse_price(text: &str) -> (r: Option<Amount>)
    ensures
        r == decimal_of(price_digits(text@)),
{
    let t = trim(text);
    let n = t.unicode_len();
    let mut kept: Vec<char> = Vec::new();
    let mut i: usize = 0;
    while i < n
        invariant
            n == t@.len(),
            i <= n,
            kept@ == without_price_marks(t@.take(i as int)),
        decreases n - i,
    {
        let c = t.get_char(i);
        proof {
            let p = t@.take(i + 1);
            assert(p.drop_last() =~= t@.take(i as int));
            assert(p.last() == c);
        }
        if c != '$' && c != '.' && c != ',' {
            kept.push(c);
        }
        i = i + 1;
    }
    assert(t@.take(n as int) =~= t@);
    let digits = trim_chars(&kept);
    parse_decimal(&digits)
}

/// The price that a published document quotes: the text of the first
/// `strong` inside a list item with `tabindex="1"`.
pub open spec fn document_price(html: Seq<char>) -> Result<Amount, ExtractionError> {
    match selected_texts_of(html, "li[tabindex=\"1\"] strong"@) {
        None => Err(ExtractionError::Parse),
        Some(texts) => if texts.len() == 0 {
            Err(ExtractionError::MissingField(Indicator::InternalPrice))
        } else {
            match decimal_of(price_digits(texts[0])) {
                Some(a) => Ok(a),
                None => Err(ExtractionError::MoneyParse(Indicator::InternalPrice)),
            }
        },
    }
}

/// The reference price that a published document quotes, or why it quotes none.
pub fn price_from_document(html: &str) -> (r: Result<Amount, ExtractionError>)
    ensures
        r == document_price(html@),
{
    match select_texts(html, "li[tabindex=\"1\"] strong") {
        None => Err(ExtractionError::Parse),
        Some(texts) => {
            if texts.len() == 0 {
                return Err(ExtractionError::MissingField(Indicator::InternalPrice));
            }
            proof {
                assert(texts@.map_values(|t: String| t@)[0] == texts@[0]@);
            }
            match parse_price(texts[0].as_str()) {
                Some(a) => Ok(a),
                None => Err(ExtractionError::MoneyParse(Indicator::InternalPrice)),
            }
        },
    }
}

} // verus!
