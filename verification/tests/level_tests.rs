use siplog::level::classify;
use siplog::level::classify_chars;
use siplog::level::classify_numeric;
use siplog::level::find_severity;
use siplog::CustomLevel;
use siplog::Severity;

fn chars(text: &str) -> Vec<char> {
    text.chars().collect()
}

#[test]
fn the_nine_names_have_their_severities() {
    assert_eq!(classify("ERROR"), Some(Severity::Error));
    assert_eq!(classify("WARN"), Some(Severity::Warn));
    assert_eq!(classify("INFO"), Some(Severity::Info));
    assert_eq!(classify("DEBUG"), Some(Severity::Debug));
    assert_eq!(classify("TRACE"), Some(Severity::Trace));
    assert_eq!(classify("ERR"), Some(Severity::Error));
    assert_eq!(classify("WARNING"), Some(Severity::Warn));
    assert_eq!(classify("CONSOLE"), Some(Severity::Debug));
    assert_eq!(classify("NOTICE"), Some(Severity::Trace));
}

#[test]
fn other_texts_name_no_severity() {
    for token in ["", "error", "Error", "ERROR ", " ERROR", "ERRORS", "WARNIN", "FATAL", "[ERROR]", "INFO:", "50"] {
        assert_eq!(classify(token), None, "{:?}", token);
        assert_eq!(classify_chars(&chars(token)), None, "{:?}", token);
    }
}

#[test]
fn numeric_codes_follow_the_table() {
    assert_eq!(classify_numeric(10), Severity::Trace);
    assert_eq!(classify_numeric(20), Severity::Debug);
    assert_eq!(classify_numeric(30), Severity::Info);
    assert_eq!(classify_numeric(40), Severity::Warn);
    assert_eq!(classify_numeric(50), Severity::Error);
    assert_eq!(classify_numeric(60), Severity::Error);
}

#[test]
fn codes_outside_the_table_are_trace() {
    for code in [0usize, 1, 9, 11, 25, 35, 45, 49, 51, 55, 59, 61, 70, 100, usize::MAX] {
        assert_eq!(classify_numeric(code), Severity::Trace, "{}", code);
    }
}

#[test]
fn levels_from_codes() {
    assert_eq!(CustomLevel::from(10usize), CustomLevel::Trace);
    assert_eq!(CustomLevel::from(20usize), CustomLevel::Debug);
    assert_eq!(CustomLevel::from(30usize), CustomLevel::Info);
    assert_eq!(CustomLevel::from(40usize), CustomLevel::Warn);
    assert_eq!(CustomLevel::from(50usize), CustomLevel::Error);
    assert_eq!(CustomLevel::from(60usize), CustomLevel::Error);
    assert_eq!(CustomLevel::from(0usize), CustomLevel::Trace);
    assert_eq!(CustomLevel::from(55usize), CustomLevel::Trace);
}

#[test]
fn levels_from_names() {
    assert_eq!(CustomLevel::try_from("ERROR".to_string()), Ok(CustomLevel::Error));
    assert_eq!(CustomLevel::try_from("WARN".to_string()), Ok(CustomLevel::Warn));
    assert_eq!(CustomLevel::try_from("INFO".to_string()), Ok(CustomLevel::Info));
    assert_eq!(CustomLevel::try_from("DEBUG".to_string()), Ok(CustomLevel::Debug));
    assert_eq!(CustomLevel::try_from("TRACE".to_string()), Ok(CustomLevel::Trace));
    assert_eq!(CustomLevel::try_from("ERR".to_string()), Ok(CustomLevel::ShortErr));
    assert_eq!(CustomLevel::try_from("WARNING".to_string()), Ok(CustomLevel::Warn));
    assert_eq!(CustomLevel::try_from("CONSOLE".to_string()), Ok(CustomLevel::Console));
    assert_eq!(CustomLevel::try_from("NOTICE".to_string()), Ok(CustomLevel::Notice));
}

#[test]
fn an_unknown_name_is_an_error() {
    assert_eq!(
        CustomLevel::try_from("info".to_string()),
        Err("no such leven indicator recognized")
    );
    assert_eq!(
        CustomLevel::try_from(String::new()),
        Err("no such leven indicator recognized")
    );
}

#[test]
fn every_level_has_a_severity() {
    assert_eq!(Severity::from(CustomLevel::Error), Severity::Error);
    assert_eq!(Severity::from(CustomLevel::Warn), Severity::Warn);
    assert_eq!(Severity::from(CustomLevel::Info), Severity::Info);
    assert_eq!(Severity::from(CustomLevel::Debug), Severity::Debug);
    assert_eq!(Severity::from(CustomLevel::Trace), Severity::Trace);
    assert_eq!(Severity::from(CustomLevel::ShortErr), Severity::Error);
    assert_eq!(Severity::from(CustomLevel::Warning), Severity::Warn);
    assert_eq!(Severity::from(CustomLevel::Console), Severity::Debug);
    assert_eq!(Severity::from(CustomLevel::Notice), Severity::Trace);
}

#[test]
fn labels_are_five_characters_wide() {
    assert_eq!(Severity::Error.label(), "ERROR");
    assert_eq!(Severity::Warn.label(), "WARN ");
    assert_eq!(Severity::Info.label(), "INFO ");
    assert_eq!(Severity::Debug.label(), "DEBUG");
    assert_eq!(Severity::Trace.label(), "TRACE");
}

#[test]
fn each_severity_has_its_colour() {
    assert_eq!(Severity::Error.color(), '1');
    assert_eq!(Severity::Warn.color(), '3');
    assert_eq!(Severity::Info.color(), '7');
    assert_eq!(Severity::Debug.color(), '4');
    assert_eq!(Severity::Trace.color(), '5');
}

#[test]
fn the_first_token_that_names_a_severity_is_found() {
    let tokens = vec![chars("boot"), chars("[WARN]:"), chars("ERROR")];
    assert_eq!(find_severity(&tokens), Some((1, Severity::Warn)));
    let none = vec![chars("boot"), chars("warn"), chars("")];
    assert_eq!(find_severity(&none), None);
    assert_eq!(find_severity(&Vec::new()), None);
}
