use yookassa::amount::{count_digits, is_currency_code_text, is_decimal_text};
use yookassa::Amount;

fn amount(value: &str, currency: &str) -> Amount {
    Amount { value: value.to_string(), currency: currency.to_string() }
}

#[test]
fn decimals() {
    assert!(is_decimal_text("100.00"));
    assert!(is_decimal_text("0.5"));
    assert!(is_decimal_text("12"));
    assert!(is_decimal_text("7.123"));
    assert!(!is_decimal_text(""));
    assert!(!is_decimal_text("."));
    assert!(!is_decimal_text("1."));
    assert!(!is_decimal_text(".5"));
    assert!(!is_decimal_text("1.2.3"));
    assert!(!is_decimal_text("-1.00"));
    assert!(!is_decimal_text("1,00"));
    assert!(!is_decimal_text("10.0a"));
    assert!(!is_decimal_text("a10.0"));
    assert!(!is_decimal_text("١٠"));
}

#[test]
fn digit_runs() {
    assert_eq!(count_digits("123.45", 0), 3);
    assert_eq!(count_digits("123.45", 3), 0);
    assert_eq!(count_digits("123.45", 4), 2);
    assert_eq!(count_digits("123.45", 6), 0);
    assert_eq!(count_digits("", 0), 0);
}

#[test]
fn currency_codes() {
    assert!(is_currency_code_text("RUB"));
    assert!(is_currency_code_text("USD"));
    assert!(!is_currency_code_text("rub"));
    assert!(!is_currency_code_text("RU"));
    assert!(!is_currency_code_text("RUBL"));
    assert!(!is_currency_code_text("R1B"));
    assert!(!is_currency_code_text(""));
}

#[test]
fn well_formed_amounts() {
    assert!(amount("10.00", "RUB").is_well_formed());
    assert!(!amount("10.00", "rub").is_well_formed());
    assert!(!amount("ten", "RUB").is_well_formed());
}

#[test]
fn amount_round_trip() {
    let wire = amount("10.00", "RUB").to_json();
    assert_eq!(wire.to_string(), "{\"currency\":\"RUB\",\"value\":\"10.00\"}");
    let back = Amount::from_json(&wire).unwrap();
    assert_eq!(back.value, "10.00");
    assert_eq!(back.currency, "RUB");
}
