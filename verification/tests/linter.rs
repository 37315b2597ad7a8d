use typographic_linter::Linter;

#[test]
fn test_linter_with_two_warnings() {
    let linter = Linter::new("en".to_string()).unwrap();

    let result = linter.check("It's me...");

    assert!(result.is_err());

    let warnings = result.err().unwrap();

    assert_eq!(2, warnings.len());

    println!("WARNING 0: {:?}", warnings[0]);

    assert_eq!("Please use curly apostrophes.", warnings[0].message);
    assert_eq!(2, warnings[0].start);
    assert_eq!(3, warnings[0].end);

    assert_eq!(
        "Please use the ellipsis symbol (`…`) instead of three dots (`...`).",
        warnings[1].message
    );
    assert_eq!(7, warnings[1].start);
    assert_eq!(10, warnings[1].end);
}

#[test]
fn test_linter_with_no_warning() {
    let linter = Linter::new("en".to_string()).unwrap();

    let result = linter.check("It’s me…");

    assert_eq!(false, result.is_err());
    assert_eq!((), result.unwrap());
}

#[test]
fn test_linter_with_a_language_specific_warning() {
    let linter = Linter::new("fr".to_string()).unwrap();

    let result = linter.check("C’est moi!");

    assert!(result.is_err());

    let warnings = result.err().unwrap();

    assert_eq!(1, warnings.len());
    assert_eq!(
        "Please use a non-breaking space before “double” ponctuation marks: `;`, `:`, `!`, `?`.",
        warnings[0].message
    );
    assert_eq!(10, warnings[0].start);
    assert_eq!(12, warnings[0].end);
}

#[test]
fn test_linter_with_a_language_specific_filter_and_no_warning() {
    let linter = Linter::new("en".to_string()).unwrap();

    let result = linter.check("It’s me!");

    assert_eq!(false, result.is_err());
    assert_eq!((), result.unwrap());
}

#[test]
fn linter_reports_currency_placement_for_de() {
    let linter = Linter::new("de".to_string()).unwrap();

    let result = linter.check("120€");

    assert!(result.is_err());

    let warnings = result.err().unwrap();

    assert_eq!(1, warnings.len());
    assert_eq!(
        "The currency sign should be written after the amount and a non-breaking space.",
        warnings[0].message
    );
    assert_eq!(0, warnings[0].start);
    assert_eq!(6, warnings[0].end);
}

#[test]
fn linter_accepts_spanish_quotes_for_es() {
    let linter = Linter::new("es".to_string()).unwrap();

    let result = linter.check("«Y yo también», dijo el italiano");

    assert_eq!(false, result.is_err());
    assert_eq!((), result.unwrap());
}

#[test]
fn linter_runs_only_invariant_rules_for_unknown_locale() {
    let linter = Linter::new("xx".to_string()).unwrap();

    let clean = linter.check("C’est moi!");
    assert_eq!(false, clean.is_err());

    let result = linter.check("It's me");
    assert!(result.is_err());

    let warnings = result.err().unwrap();

    assert_eq!(1, warnings.len());
    assert_eq!("Please use curly apostrophes.", warnings[0].message);
    assert_eq!(2, warnings[0].start);
    assert_eq!(3, warnings[0].end);
}

#[test]
fn linter_keeps_catalog_order_then_discovery_order() {
    let linter = Linter::new("en".to_string()).unwrap();

    let result = linter.check("It's... me...");

    assert!(result.is_err());

    let warnings = result.err().unwrap();

    assert_eq!(3, warnings.len());

    assert_eq!("Please use curly apostrophes.", warnings[0].message);
    assert_eq!(2, warnings[0].start);
    assert_eq!(3, warnings[0].end);

    assert_eq!(
        "Please use the ellipsis symbol (`…`) instead of three dots (`...`).",
        warnings[1].message
    );
    assert_eq!(4, warnings[1].start);
    assert_eq!(7, warnings[1].end);

    assert_eq!(
        "Please use the ellipsis symbol (`…`) instead of three dots (`...`).",
        warnings[2].message
    );
    assert_eq!(10, warnings[2].start);
    assert_eq!(13, warnings[2].end);
}

#[test]
fn linter_reports_space_before_comma() {
    let linter = Linter::new("en".to_string()).unwrap();

    let result = linter.check("Hello , world");

    assert!(result.is_err());

    let warnings = result.err().unwrap();

    assert_eq!(1, warnings.len());
    assert_eq!("Please don't use a space before a comma.", warnings[0].message);
    assert_eq!(5, warnings[0].start);
    assert_eq!(7, warnings[0].end);
}

#[test]
fn linter_repeated_checks_agree() {
    let linter = Linter::new("en".to_string()).unwrap();

    let first = linter.check("It's me...").err().unwrap();
    let second = linter.check("It's me...").err().unwrap();

    assert_eq!(first.len(), second.len());
    for k in 0..first.len() {
        assert_eq!(first[k].message, second[k].message);
        assert_eq!(first[k].start, second[k].start);
        assert_eq!(first[k].end, second[k].end);
    }
}

#[test]
fn linter_is_clean_on_empty_text() {
    let linter = Linter::new("fr".to_string()).unwrap();

    let result = linter.check("");

    assert_eq!(false, result.is_err());
    assert_eq!((), result.unwrap());
}
