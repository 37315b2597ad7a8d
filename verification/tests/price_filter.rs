use typographic_linter::filters::PriceFilter;

#[test]
fn test_filters_when_warnings() {
    let expected_warnings: Vec<(&str, &str, usize, usize)> = vec![
        ("de", "€120", 0, 6),
        ("de", "120 €", 0, 7),
        ("de", "120€", 0, 6),
        ("en", "120 €", 0, 7),
        ("en", "120\u{a0}€", 0, 8),
        ("en", "120€", 0, 6),
        ("en", "€ 120", 0, 7),
        ("en", "€\u{a0}120", 0, 8),
        ("es", "€120", 0, 6),
        ("es", "120 €", 0, 7),
        ("es", "120€", 0, 6),
        ("fr", "€120", 0, 6),
        ("fr", "120 €", 0, 7),
        ("fr", "120€", 0, 6),
        ("it", "120 €", 0, 7),
        ("it", "120\u{a0}€", 0, 8),
        ("it", "120€", 0, 6),
        ("it", "€120", 0, 6),
        ("it", "€ 120", 0, 7),
    ];

    for (locale, text, start, end) in expected_warnings {
        let filter = PriceFilter { locale: locale.to_string() };

        let result = filter.check(text);

        assert!(result.is_err());

        let warnings = result.err().unwrap();

        assert_eq!(1, warnings.len());
        assert_eq!(start, warnings[0].start);
        assert_eq!(end, warnings[0].end);
    }
}

#[test]
fn price_filter_test_filter_when_de_and_no_warnings() {
    let filter = PriceFilter { locale: "de".to_string() };

    let result = filter.check("120\u{a0}€");

    assert_eq!(false, result.is_err());
    assert_eq!((), result.unwrap());
}

#[test]
fn price_filter_test_filter_when_en_and_no_warnings() {
    let filter = PriceFilter { locale: "en".to_string() };

    let result = filter.check("€120");

    assert_eq!(false, result.is_err());
    assert_eq!((), result.unwrap());
}

#[test]
fn price_filter_test_filter_when_es_and_no_warnings() {
    let filter = PriceFilter { locale: "es".to_string() };

    let result = filter.check("120\u{a0}€");

    assert_eq!(false, result.is_err());
    assert_eq!((), result.unwrap());
}

#[test]
fn price_filter_test_filter_when_it_and_no_warnings() {
    let filter = PriceFilter { locale: "it".to_string() };

    let result = filter.check("€\u{a0}120");

    assert_eq!(false, result.is_err());
    assert_eq!((), result.unwrap());
}

#[test]
fn price_filter_test_filter_when_fr_and_no_warnings() {
    let filter = PriceFilter { locale: "fr".to_string() };

    let result = filter.check("120\u{a0}€");

    assert_eq!(false, result.is_err());
    assert_eq!((), result.unwrap());
}

#[test]
fn price_filter_neutral_for_unknown_locale() {
    let filter = PriceFilter { locale: "xx".to_string() };

    let result = filter.check("120€");

    assert_eq!(false, result.is_err());
    assert_eq!((), result.unwrap());
}
