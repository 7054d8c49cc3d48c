use siplog::timestamp::find_timestamp;
use siplog::timestamp::read_timestamp;
use siplog::timestamp::timestamp_of_millis;

fn chars(text: &str) -> Vec<char> {
    text.chars().collect()
}

#[test]
fn a_canonical_timestamp_reads_as_itself() {
    assert_eq!(
        read_timestamp("2023-06-01 12:00:00.500"),
        Some("2023-06-01 12:00:00.500".to_string())
    );
    assert_eq!(
        read_timestamp("1999-12-31 23:59:59.999"),
        Some("1999-12-31 23:59:59.999".to_string())
    );
}

#[test]
fn a_timestamp_is_written_with_three_fraction_digits() {
    assert_eq!(
        read_timestamp("2023-06-01 12:00:00"),
        Some("2023-06-01 12:00:00.000".to_string())
    );
    assert_eq!(
        read_timestamp("2023-6-1 1:2:3.250"),
        Some("2023-06-01 01:02:03.250".to_string())
    );
}

#[test]
fn what_is_no_date_and_time_reads_as_nothing() {
    for text in [
        "",
        " ",
        "hello world",
        "2023-06-01",
        "12:00:00.500",
        "2023-13-01 12:00:00.500",
        "2023-02-30 12:00:00.500",
        "2023-06-01 25:00:00.500",
        "2023-06-01 12:00:00.500 tail",
        "2023-06-01 12:00:00.5",
        "2023-06-01 12:00:00.5000",
        "2023/06/01 12:00:00.500",
    ] {
        assert_eq!(read_timestamp(text), None, "{:?}", text);
    }
}

#[test]
fn milliseconds_since_1970_are_written_as_a_date() {
    assert_eq!(timestamp_of_millis(0), Some("1970-01-01 00:00:00.000".to_string()));
    assert_eq!(timestamp_of_millis(1000), Some("1970-01-01 00:00:01.000".to_string()));
    assert_eq!(timestamp_of_millis(1001), Some("1970-01-01 00:00:01.001".to_string()));
    assert_eq!(timestamp_of_millis(999), Some("1970-01-01 00:00:00.999".to_string()));
    assert_eq!(
        timestamp_of_millis(1_685_620_800_500),
        Some("2023-06-01 12:00:00.500".to_string())
    );
}

#[test]
fn a_time_beyond_the_calendar_has_no_date() {
    assert_eq!(timestamp_of_millis(u64::MAX), None);
}

#[test]
fn the_first_pair_that_holds_a_timestamp_is_found() {
    let tokens = vec![
        chars("x"),
        chars("[2023-06-01"),
        chars("12:00:00.500]"),
        chars("2024-01-01"),
        chars("00:00:00.000"),
    ];
    assert_eq!(find_timestamp(&tokens), Some((1, "2023-06-01 12:00:00.500".to_string())));
}

#[test]
fn characters_that_are_not_ascii_do_not_hide_a_timestamp() {
    let tokens = vec![chars("é2023-06-01✓"), chars("12:00:00.500")];
    assert_eq!(find_timestamp(&tokens), Some((0, "2023-06-01 12:00:00.500".to_string())));
}

#[test]
fn fewer_than_two_tokens_hold_no_timestamp() {
    assert_eq!(find_timestamp(&Vec::new()), None);
    assert_eq!(find_timestamp(&vec![chars("2023-06-01")]), None);
    assert_eq!(find_timestamp(&vec![chars("2023-06-01"), chars("noon")]), None);
    assert_eq!(
        find_timestamp(&vec![chars("2023-06-01"), chars(""), chars("12:00:00.500")]),
        None
    );
}
