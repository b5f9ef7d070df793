use coffee_market::date::Date;
use coffee_market::document::extract_from_document;
use coffee_market::extract::{extract_indicators, indicator_for_label, parse_money, Readings};
use coffee_market::indicators::{ExtractionError, Indicator};
use coffee_market::money::{normalize_money, parse_decimal, Amount};
use coffee_market::text::{same_text, trim};

fn item(label: &str, value: &str) -> (Option<String>, Option<String>) {
    (Some(label.to_string()), Some(value.to_string()))
}

fn chars(s: &str) -> Vec<char> {
    s.chars().collect()
}

#[test]
fn money_with_symbol_and_separators() {
    assert_eq!(parse_money("$3.900,50"), Some(Amount::from_parts(390050, 2)));
}

#[test]
fn money_zero() {
    assert_eq!(parse_money("$0"), Some(Amount::from_parts(0, 0)));
}

#[test]
fn money_without_symbol() {
    assert_eq!(parse_money("120.000,00"), Some(Amount::from_parts(12_000_000, 2)));
}

#[test]
fn money_surrounding_space_is_trimmed() {
    assert_eq!(parse_money("  $1.480.000 \n"), Some(Amount::from_parts(1_480_000, 0)));
}

#[test]
fn money_malformed_is_rejected() {
    assert_eq!(parse_money("abc"), None);
    assert_eq!(parse_money("$"), None);
    assert_eq!(parse_money(""), None);
    assert_eq!(parse_money("1,2,3"), None);
    assert_eq!(parse_money("$ 5"), None);
    assert_eq!(parse_money("99999999999999999999"), None);
}

#[test]
fn money_normalization_examples() {
    assert_eq!(normalize_money("$3.900,50"), chars("3900.50"));
    assert_eq!(normalize_money("$0"), chars("0"));
    assert_eq!(normalize_money("120.000,00"), chars("120000.00"));
    assert_eq!(normalize_money("$1.500.000"), chars("1500000"));
    let once: String = normalize_money("$1.500.000").into_iter().collect();
    assert_eq!(normalize_money(&once), chars("1500000"));
}

#[test]
fn decimal_literals() {
    assert_eq!(parse_decimal(&chars("2.15")), Some(Amount::from_parts(215, 2)));
    assert_eq!(parse_decimal(&chars("5.")), Some(Amount::from_parts(5, 0)));
    assert_eq!(parse_decimal(&chars(".5")), Some(Amount::from_parts(5, 1)));
    assert_eq!(parse_decimal(&chars("18446744073709551615")), Some(Amount::from_parts(u64::MAX, 0)));
    assert_eq!(parse_decimal(&chars("18446744073709551616")), None);
    assert_eq!(parse_decimal(&chars(".")), None);
    assert_eq!(parse_decimal(&chars("1.2.3")), None);
}

#[test]
fn trimming_and_comparison() {
    assert_eq!(trim("\u{a0} Fecha: \t"), "Fecha:");
    assert_eq!(trim("   "), "");
    assert!(same_text("MeCIC:", "MeCIC:"));
    assert!(!same_text("MeCIC:", "MeCIC"));
}

#[test]
fn labels_name_indicators() {
    assert_eq!(indicator_for_label("Fecha:"), Some(Indicator::PublicationDate));
    assert_eq!(indicator_for_label("Precio interno de referencia:"), Some(Indicator::InternalPrice));
    assert_eq!(indicator_for_label("Pasilla de finca:"), Some(Indicator::Pasilla));
    assert_eq!(indicator_for_label("Bolsa de NY:"), Some(Indicator::NyPrice));
    assert_eq!(indicator_for_label("Tasa de cambio:"), Some(Indicator::ExchangeRate));
    assert_eq!(indicator_for_label("MeCIC:"), Some(Indicator::Mecic));
    assert_eq!(indicator_for_label("Otro:"), None);
}

#[test]
fn full_list_gives_record() {
    let items = vec![
        item(" Fecha: ", "2025-01-10"),
        item("Precio interno de referencia:", "$1.500.000"),
        item("Pasilla de finca:", "$120.000"),
        item("Bolsa de NY:", "2,15"),
        item("Tasa de cambio:", "$3.900,50"),
        item("MeCIC:", "$1.480.000"),
        item("Nuevo indicador:", "no es dinero"),
    ];
    let r = extract_indicators(&items).unwrap();
    assert_eq!(r.publication_date, Date::from_ymd(2025, 1, 10).unwrap());
    assert_eq!(r.internal_price_cop, Amount::from_parts(1_500_000, 0));
    assert_eq!(r.pasilla_cop, Amount::from_parts(120_000, 0));
    assert_eq!(r.ny_price_usd, Amount::from_parts(215, 2));
    assert_eq!(r.exchange_rate_cop_usd, Amount::from_parts(390050, 2));
    assert_eq!(r.mecic_cop, Amount::from_parts(1_480_000, 0));
}

#[test]
fn optional_amounts_default_to_zero() {
    let items = vec![item("Fecha:", "2025-01-10"), (Some("Bolsa de NY:".to_string()), None), item("Precio interno de referencia:", "$1.500.000")];
    let r = extract_indicators(&items).unwrap();
    assert_eq!(r.pasilla_cop, Amount::zero());
    assert_eq!(r.ny_price_usd, Amount::zero());
    assert_eq!(r.exchange_rate_cop_usd, Amount::zero());
    assert_eq!(r.mecic_cop, Amount::zero());
}

#[test]
fn missing_date_is_reported() {
    let items = vec![item("Precio interno de referencia:", "$1.500.000")];
    assert!(matches!(extract_indicators(&items), Err(ExtractionError::MissingField(Indicator::PublicationDate))));
}

#[test]
fn missing_internal_price_is_reported() {
    let items = vec![item("Fecha:", "2025-01-10"), item("MeCIC:", "$1.480.000")];
    assert!(matches!(extract_indicators(&items), Err(ExtractionError::MissingField(Indicator::InternalPrice))));
}

#[test]
fn empty_list_misses_the_date() {
    assert!(matches!(extract_indicators(&vec![]), Err(ExtractionError::MissingField(Indicator::PublicationDate))));
}

#[test]
fn malformed_date_is_reported() {
    let items = vec![item("Fecha:", "10/01/2025"), item("Precio interno de referencia:", "$1")];
    assert!(matches!(extract_indicators(&items), Err(ExtractionError::DateParse)));
    let items = vec![item("Fecha:", "2023-02-29"), item("Precio interno de referencia:", "$1")];
    assert!(matches!(extract_indicators(&items), Err(ExtractionError::DateParse)));
}

#[test]
fn malformed_amount_is_reported() {
    let items = vec![item("Fecha:", "2025-01-10"), item("Pasilla de finca:", "$12x"), item("Precio interno de referencia:", "$1")];
    assert!(matches!(extract_indicators(&items), Err(ExtractionError::MoneyParse(Indicator::Pasilla))));
}

#[test]
fn later_label_wins() {
    let items = vec![item("Fecha:", "2025-01-09"), item("Fecha:", "2025-01-10"), item("Precio interno de referencia:", "$1")];
    assert_eq!(extract_indicators(&items).unwrap().publication_date, Date::from_ymd(2025, 1, 10).unwrap());
}

#[test]
fn absorb_reads_one_item() {
    let mut r = Readings::empty();
    assert!(r.absorb("Fecha:", " 2024-02-29 ").is_ok());
    assert_eq!(r.publication_date, Date::from_ymd(2024, 2, 29));
    assert!(r.absorb("Tasa de cambio:", "$4.100,25").is_ok());
    assert_eq!(r.exchange_rate_cop_usd, Some(Amount::from_parts(410025, 2)));
    let before = r;
    assert!(matches!(r.absorb("MeCIC:", "muchos"), Err(ExtractionError::MoneyParse(Indicator::Mecic))));
    assert_eq!(r, before);
    assert!(matches!(r.finish(), Err(ExtractionError::MissingField(Indicator::InternalPrice))));
}

#[test]
fn calendar_validity() {
    assert!(Date::from_ymd(2024, 2, 29).is_some());
    assert!(Date::from_ymd(2023, 2, 29).is_none());
    assert!(Date::from_ymd(1900, 2, 29).is_none());
    assert!(Date::from_ymd(2000, 2, 29).is_some());
    assert!(Date::from_ymd(2025, 4, 31).is_none());
    assert!(Date::from_ymd(2025, 13, 1).is_none());
    assert!(Date::from_ymd(2025, 1, 0).is_none());
}

const PAGE: &str = r#"<html><body>
<div id="modal-indicadores"><ul class="lista">
<li><span class="name">Fecha:</span> <strong>2025-01-10</strong></li>
<li><span class="name"> Precio interno de referencia: </span><strong>$1.500.000</strong></li>
<li><span class="name">Pasilla de finca:</span><strong>$120.000</strong></li>
<li><span class="name">Bolsa de NY:</span><strong>2,15</strong></li>
<li><span class="name">Tasa de cambio:</span><strong>$3.900,50</strong></li>
<li><span class="name">MeCIC:</span><strong>$1.480.000</strong></li>
<li><span class="name">Sin valor:</span></li>
</ul></div>
<ul class="lista"><li><span class="name">Fecha:</span><strong>1999-01-01</strong></li></ul>
</body></html>"#;

#[test]
fn document_gives_record() {
    let r = extract_from_document(PAGE).unwrap();
    assert_eq!(r.publication_date, Date::from_ymd(2025, 1, 10).unwrap());
    assert_eq!(r.internal_price_cop, Amount::from_parts(1_500_000, 0));
    assert_eq!(r.ny_price_usd, Amount::from_parts(215, 2));
    assert_eq!(r.exchange_rate_cop_usd, Amount::from_parts(390050, 2));
}

#[test]
fn document_without_date_label_gives_no_record() {
    let page = PAGE.replace("Fecha:", "Dia:");
    assert!(matches!(extract_from_document(&page), Err(ExtractionError::MissingField(Indicator::PublicationDate))));
}

#[test]
fn document_without_price_label_gives_no_record() {
    let page = PAGE.replace("Precio interno de referencia:", "Precio:");
    assert!(matches!(extract_from_document(&page), Err(ExtractionError::MissingField(Indicator::InternalPrice))));
}

#[test]
fn document_without_container_gives_no_record() {
    assert!(matches!(extract_from_document("<html><body><p>nada</p></body></html>"), Err(ExtractionError::MissingField(Indicator::PublicationDate))));
}
