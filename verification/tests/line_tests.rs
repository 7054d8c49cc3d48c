use siplog::line::extract;
use siplog::line::message_from;
use siplog::line::print_structured;
use siplog::line::take_pair;
use siplog::line::take_token;
use siplog::process_line;
use siplog::process_line_at;
use siplog::Severity;

fn chars(text: &str) -> Vec<char> {
    text.chars().collect()
}

fn tokens(texts: &[&str]) -> Vec<Vec<char>> {
    texts.iter().map(|t| chars(t)).collect()
}

#[test]
fn a_line_with_timestamp_severity_and_location() {
    let found = extract("2023-06-01 12:00:00.500 ERROR [/src/app.rs:42] boom");
    assert_eq!(found.timestamp, Some("2023-06-01 12:00:00.500".to_string()));
    assert_eq!(found.severity, Severity::Error);
    assert_eq!(found.source_location, Some("[/src/app.rs:42]".to_string()));
    assert_eq!(found.message, "boom");
}

#[test]
fn a_full_line_is_printed_in_the_canonical_form() {
    assert_eq!(
        process_line_at("2023-06-01 12:00:00.500 ERROR [/src/app.rs:42] boom\n", "never used"),
        "\x1B[1;31m[ERROR 2023-06-01 12:00:00.500 [/src/app.rs:42]]\x1B[0m boom"
    );
}

#[test]
fn a_plain_line_is_printed_whole() {
    let found = extract("  just some text, nothing else \n");
    assert_eq!(found.severity, Severity::Info);
    assert_eq!(found.timestamp, None);
    assert_eq!(found.source_location, None);
    assert_eq!(found.message, "just some text, nothing else");
    assert_eq!(
        process_line_at("  just some text, nothing else \n", "2024-02-03 04:05:06.789"),
        "\x1B[1;37m[INFO  2024-02-03 04:05:06.789]\x1B[0m just some text, nothing else"
    );
}

#[test]
fn a_plain_line_is_stamped_with_the_time_at_which_it_is_read() {
    let before = chrono::Local::now().naive_local();
    let line = process_line("just some text");
    let after = chrono::Local::now().naive_local();
    let head = "\x1B[1;37m[INFO  ";
    let tail = "]\x1B[0m just some text";
    assert!(line.starts_with(head), "{:?}", line);
    assert!(line.ends_with(tail), "{:?}", line);
    let stamp = &line[head.len()..line.len() - tail.len()];
    assert_eq!(stamp.len(), 23);
    let read = chrono::NaiveDateTime::parse_from_str(stamp, "%Y-%m-%d %H:%M:%S%.3f").unwrap();
    let slack = chrono::TimeDelta::seconds(2);
    assert!(read >= before - slack && read <= after + slack, "{:?}", stamp);
}

#[test]
fn spaces_inside_the_message_are_kept() {
    let found = extract("WARN a  b   c");
    assert_eq!(found.severity, Severity::Warn);
    assert_eq!(found.message, "a  b   c");
}

#[test]
fn the_location_is_looked_for_before_the_severity() {
    let found = extract("ERROR:42 WARN rest");
    assert_eq!(found.source_location, Some("ERROR:42".to_string()));
    assert_eq!(found.severity, Severity::Warn);
    assert_eq!(found.message, "rest");
}

#[test]
fn only_the_first_of_each_kind_is_taken_out() {
    let found = extract("a:1 b:2 INFO DEBUG 2023-06-01 12:00:00.500 2024-01-01 00:00:00.000 end");
    assert_eq!(found.source_location, Some("a:1".to_string()));
    assert_eq!(found.severity, Severity::Info);
    assert_eq!(found.timestamp, Some("2023-06-01 12:00:00.500".to_string()));
    assert_eq!(found.message, "b:2 DEBUG 2024-01-01 00:00:00.000 end");
}

#[test]
fn a_timestamp_split_by_the_severity_is_found_once_the_severity_is_out() {
    let found = extract("2023-06-01 [INFO] 12:00:00.500 started");
    assert_eq!(found.severity, Severity::Info);
    assert_eq!(found.timestamp, Some("2023-06-01 12:00:00.500".to_string()));
    assert_eq!(found.message, "started");
}

#[test]
fn a_time_of_day_with_one_colon_is_taken_for_a_location() {
    let found = extract("12:30 lunch");
    assert_eq!(found.source_location, Some("12:30".to_string()));
    assert_eq!(found.message, "lunch");
}

#[test]
fn an_empty_line_has_an_empty_message() {
    for line in ["", "\n", "   ", "\t\r\n"] {
        let found = extract(line);
        assert_eq!(found.severity, Severity::Info);
        assert_eq!(found.timestamp, None);
        assert_eq!(found.source_location, None);
        assert_eq!(found.message, "");
        assert_eq!(process_line_at(line, "t"), "\x1B[1;37m[INFO  t]\x1B[0m ");
    }
}

#[test]
fn a_line_of_nothing_but_what_is_taken_out_has_an_empty_message() {
    let found = extract("2023-06-01 12:00:00.500 TRACE x:1");
    assert_eq!(found.message, "");
    assert_eq!(found.severity, Severity::Trace);
}

#[test]
fn a_structured_line_is_printed_as_a_record() {
    let line = "{\"level\":50,\"time\":1000,\"msg\":\"fail\",\"pid\":1,\"hostname\":\"h\",\"v\":0}\n";
    let expected =
        "\x1B[1;31m[ERROR 1970-01-01 00:00:01.000] \x1B[1;32m[v:0 pid:1 hostname:h]\x1B[0m fail";
    assert_eq!(print_structured(line), Some(expected.to_string()));
    assert_eq!(process_line_at(line, "never used"), expected);
    assert_eq!(process_line(line), expected);
}

#[test]
fn malformed_json_is_read_as_free_text() {
    let line = "{\"level\":50,\"time\":1000,\"msg\":\"fail\"";
    assert_eq!(print_structured(line), None);
    assert_eq!(
        process_line_at(line, "2024-02-03 04:05:06.789"),
        "\x1B[1;37m[INFO  2024-02-03 04:05:06.789]\x1B[0m {\"level\":50,\"time\":1000,\"msg\":\"fail\""
    );
}

#[test]
fn the_same_malformed_line_prints_the_same_twice() {
    let line = "{\"level\": ERROR 2023-06-01 12:00:00.500 oops";
    let first = process_line_at(line, "2024-02-03 04:05:06.789");
    let second = process_line_at(line, "2024-02-03 04:05:06.789");
    assert_eq!(first, second);
    assert_eq!(first, "\x1B[1;31m[ERROR 2023-06-01 12:00:00.500]\x1B[0m {\"level\": oops");
    assert_eq!(process_line(line), first);
    assert_eq!(process_line(line), process_line(line));
}

#[test]
fn a_record_with_a_time_beyond_the_calendar_is_read_as_free_text() {
    let line = "{\"level\":50,\"time\":18446744073709551615,\"msg\":\"fail\",\"pid\":1,\"hostname\":\"h\",\"v\":0}";
    assert_eq!(print_structured(line), None);
    assert_eq!(process_line_at(line, "t"), format!("\x1B[1;37m[INFO  t]\x1B[0m {}", line));
}

#[test]
fn taking_a_token_out_leaves_the_others_in_order() {
    let mut row = tokens(&["a", "b", "c"]);
    assert_eq!(take_token(&mut row, Some(1)), Some(chars("b")));
    assert_eq!(row, tokens(&["a", "c"]));
    assert_eq!(take_token(&mut row, None), None);
    assert_eq!(take_token(&mut row, Some(2)), None);
    assert_eq!(row, tokens(&["a", "c"]));
}

#[test]
fn taking_a_pair_out_leaves_the_others_in_order() {
    let mut row = tokens(&["a", "b", "c", "d"]);
    take_pair(&mut row, Some(1));
    assert_eq!(row, tokens(&["a", "d"]));
    take_pair(&mut row, Some(1));
    assert_eq!(row, tokens(&["a", "d"]));
    take_pair(&mut row, None);
    assert_eq!(row, tokens(&["a", "d"]));
    take_pair(&mut row, Some(0));
    assert_eq!(row, Vec::<Vec<char>>::new());
}

#[test]
fn the_message_is_joined_and_trimmed() {
    assert_eq!(message_from(&tokens(&["", "a", "", "b", ""])), chars("a  b"));
    assert_eq!(message_from(&tokens(&[])), chars(""));
    assert_eq!(message_from(&tokens(&["", ""])), chars(""));
}
