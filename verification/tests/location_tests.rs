use siplog::location::find_location;
use siplog::location::names_location;

fn chars(text: &str) -> Vec<char> {
    text.chars().collect()
}

#[test]
fn a_path_with_a_line_number_is_a_location() {
    for token in ["/src/app.rs:42", "[/src/app.rs:42]", "[main.rs:7", "main.rs:7]", "a:0", "a:+5", "a:-12", ":3", "12:30"] {
        assert!(names_location(&chars(token)), "{:?}", token);
    }
}

#[test]
fn two_colons_never_match() {
    assert!(!names_location(&chars("[a:b:c]")));
    assert!(!names_location(&chars("a:1:2")));
    assert!(!names_location(&chars("12:00:00.500")));
    assert!(!names_location(&chars("http://host:80")));
    assert!(!names_location(&chars("::")));
}

#[test]
fn a_suffix_that_is_no_integer_never_matches() {
    assert!(!names_location(&chars("a:3.5")));
    assert!(!names_location(&chars("a:")));
    assert!(!names_location(&chars("a:b")));
    assert!(!names_location(&chars("a:2147483648")));
    assert!(!names_location(&chars("a:1 ")));
    assert!(!names_location(&chars("[a:4]2]")));
    assert!(!names_location(&chars("a:[42]")));
}

#[test]
fn no_colon_never_matches() {
    assert!(!names_location(&chars("")));
    assert!(!names_location(&chars("42")));
    assert!(!names_location(&chars("[42]")));
    assert!(!names_location(&chars("[")));
    assert!(!names_location(&chars("]")));
}

#[test]
fn the_largest_line_numbers_still_match() {
    assert!(names_location(&chars("a:2147483647")));
    assert!(names_location(&chars("a:-2147483648")));
    assert!(!names_location(&chars("a:-2147483649")));
}

#[test]
fn the_first_location_wins() {
    let tokens = vec![chars("x"), chars("[a:1]"), chars("b:2")];
    assert_eq!(find_location(&tokens), Some(1));
    assert_eq!(find_location(&vec![chars("x"), chars("y:z")]), None);
    assert_eq!(find_location(&Vec::new()), None);
}
