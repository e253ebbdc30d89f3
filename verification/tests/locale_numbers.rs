use flatcrawl::error::Error;
use flatcrawl::numbers::Decimal;
use flatcrawl::numbers::parse_number;
use flatcrawl::numbers::parse_plain_decimal;

#[test]
fn parse_locale_number_grouped_with_decimal() {
    let d = parse_number("1.234,5").unwrap();
    assert_eq!(d, Decimal { negative: false, mantissa: 12345, scale: 1 });
    assert_eq!(d.to_text(), String::from("1234.5"));
}

#[test]
fn parse_locale_number_plain() {
    let d = parse_number("60").unwrap();
    assert_eq!(d, Decimal { negative: false, mantissa: 60, scale: 0 });
    assert_eq!(d.to_text(), String::from("60"));
}

#[test]
fn parse_locale_number_no_digits() {
    assert_eq!(parse_number("no digits here"), Err(Error::NoNumberFound));
}

#[test]
fn parse_locale_number_inside_text() {
    let d = parse_number("Miete: 1.150,75 EUR warm").unwrap();
    assert_eq!(d, Decimal { negative: false, mantissa: 115075, scale: 2 });
    assert_eq!(d.to_text(), String::from("1150.75"));
}

#[test]
fn parse_locale_number_group_needs_three_digits() {
    // "1.23" is no grouped number: the match is just "1"
    let d = parse_number("1.23").unwrap();
    assert_eq!(d, Decimal { negative: false, mantissa: 1, scale: 0 });
}

#[test]
fn parse_locale_number_too_large() {
    assert_eq!(
        parse_number("99999999999999999999999"),
        Err(Error::NumberOutOfRange)
    );
}

#[test]
fn parse_plain_decimal_coordinates() {
    assert_eq!(
        parse_plain_decimal("48.1351"),
        Some(Decimal { negative: false, mantissa: 481351, scale: 4 })
    );
    assert_eq!(
        parse_plain_decimal("-11.5"),
        Some(Decimal { negative: true, mantissa: 115, scale: 1 })
    );
    assert_eq!(parse_plain_decimal("12"), Some(Decimal { negative: false, mantissa: 12, scale: 0 }));
    assert_eq!(parse_plain_decimal(""), None);
    assert_eq!(parse_plain_decimal("4.8.1"), None);
    assert_eq!(parse_plain_decimal("abc"), None);
    assert_eq!(parse_plain_decimal("4."), None);
}

#[test]
fn decimal_renders_small_values_padded() {
    let d = Decimal { negative: false, mantissa: 5, scale: 3 };
    assert_eq!(d.to_text(), String::from("0.005"));
    let n = Decimal { negative: true, mantissa: 115, scale: 1 };
    assert_eq!(n.to_text(), String::from("-11.5"));
    let z = Decimal { negative: false, mantissa: 0, scale: 2 };
    assert_eq!(z.to_text(), String::from("0.00"));
}
