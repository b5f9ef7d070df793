use coffee_market::clock::SystemClock;
use coffee_market::date::Date;
use coffee_market::document::{parse_price, price_from_document};
use coffee_market::indicators::{ExtractionError, Indicator};
use coffee_market::money::Amount;
use coffee_market::price::CoffeePrice;
use coffee_market::price_retrieval::{price_cache_key, PriceAction, PriceEvent, PriceRetrieval};
use coffee_market::retrieval::RetrievalError;

fn run_price(
    cached: &mut Option<CoffeePrice>,
    fetched: Result<CoffeePrice, ExtractionError>,
    fail_get: bool,
    fail_set: bool,
    fetches: &mut usize,
) -> Result<CoffeePrice, RetrievalError> {
    let (mut machine, mut action) = PriceRetrieval::start(600);
    loop {
        let event = match action {
            PriceAction::ReadCache => PriceEvent::CacheRead(if fail_get { Err("down".to_string()) } else { Ok(*cached) }),
            PriceAction::Fetch => {
                *fetches += 1;
                PriceEvent::Fetched(fetched.clone())
            }
            PriceAction::WriteCache { value, ttl_seconds } => {
                assert_eq!(ttl_seconds, 600);
                if fail_set {
                    PriceEvent::CacheWritten(Err("down".to_string()))
                } else {
                    *cached = Some(value);
                    PriceEvent::CacheWritten(Ok(()))
                }
            }
            PriceAction::Finish(r) => return r,
        };
        assert!(machine.expects(&event));
        action = machine.step(event);
    }
}

fn price(units: u64, day: u32) -> CoffeePrice {
    CoffeePrice::new(Amount::from_parts(units, 0), Date::from_ymd(2025, 1, day).unwrap())
}

#[test]
fn price_text_loses_all_marks() {
    assert_eq!(parse_price(" $1.500.000 "), Some(Amount::from_parts(1_500_000, 0)));
    assert_eq!(parse_price("$ 2.150.000"), Some(Amount::from_parts(2_150_000, 0)));
    assert_eq!(parse_price("3.900,50"), Some(Amount::from_parts(390_050, 0)));
    assert_eq!(parse_price("sin precio"), None);
    assert_eq!(parse_price("$"), None);
}

#[test]
fn price_read_from_first_marked_item() {
    let page = r#"<ul><li tabindex="0"><strong>$1</strong></li><li tabindex="1"><span>Precio</span><strong> $2.150.000 </strong></li><li tabindex="1"><strong>$3</strong></li></ul>"#;
    assert_eq!(price_from_document(page).ok(), Some(Amount::from_parts(2_150_000, 0)));
}

#[test]
fn price_missing_from_page() {
    assert!(matches!(price_from_document("<p>nada</p>"), Err(ExtractionError::MissingField(Indicator::InternalPrice))));
    let page = r#"<li tabindex="1"><strong>caro</strong></li>"#;
    assert!(matches!(price_from_document(page), Err(ExtractionError::MoneyParse(Indicator::InternalPrice))));
}

#[test]
fn cached_price_returned_whatever_its_date() {
    let mut cached = Some(price(1, 1));
    let mut fetches = 0;
    let r = run_price(&mut cached, Ok(price(2, 10)), false, false, &mut fetches).unwrap();
    assert_eq!(r, price(1, 1));
    assert_eq!(fetches, 0);
}

#[test]
fn missing_price_fetched_and_cached() {
    let mut cached = None;
    let mut fetches = 0;
    let r = run_price(&mut cached, Ok(price(2, 10)), false, false, &mut fetches).unwrap();
    assert_eq!(r, price(2, 10));
    assert_eq!(cached, Some(price(2, 10)));
    assert_eq!(fetches, 1);
}

#[test]
fn price_failures_propagate() {
    let mut cached = None;
    let mut fetches = 0;
    assert!(matches!(run_price(&mut cached, Ok(price(2, 10)), true, false, &mut fetches), Err(RetrievalError::CacheRead(_))));
    assert_eq!(fetches, 0);
    assert!(matches!(run_price(&mut cached, Err(ExtractionError::Parse), false, false, &mut fetches), Err(RetrievalError::Extraction(ExtractionError::Parse))));
    assert_eq!(cached, None);
    assert!(matches!(run_price(&mut cached, Ok(price(2, 10)), false, true, &mut fetches), Err(RetrievalError::CacheWrite(_))));
}

#[test]
fn price_cache_key_differs_from_indicators_key() {
    assert_eq!(price_cache_key(), "coffee:price:current");
    assert_ne!(price_cache_key(), coffee_market::retrieval::indicators_cache_key());
    let _ = SystemClock.current_date();
}
