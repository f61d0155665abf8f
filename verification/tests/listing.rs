use waypin::text::{chars_eq, chars_of, chars_start_with, split_lines};
use waypin::{has_mime_type, TypeSet};

fn lines_of(listing: &str) -> Vec<String> {
    split_lines(&chars_of(listing)).into_iter().map(|line| line.into_iter().collect()).collect()
}

#[test]
fn chars_of_keeps_every_character() {
    assert_eq!(chars_of(""), Vec::<char>::new());
    assert_eq!(chars_of("a/b"), vec!['a', '/', 'b']);
    assert_eq!(chars_of("é世🌍"), vec!['é', '世', '🌍']);
}

#[test]
fn chars_eq_compares_whole_slices() {
    assert!(chars_eq(&[], &[]));
    assert!(chars_eq(&['a', 'b'], &['a', 'b']));
    assert!(!chars_eq(&['a', 'b'], &['a']));
    assert!(!chars_eq(&['a', 'b'], &['a', 'c']));
    assert!(!chars_eq(&['a'], &['A']));
}

#[test]
fn chars_start_with_tests_the_prefix() {
    let text = chars_of("image/png");
    assert!(chars_start_with(&text, &chars_of("image/")));
    assert!(chars_start_with(&text, &chars_of("")));
    assert!(chars_start_with(&text, &text));
    assert!(!chars_start_with(&text, &chars_of("image/png+")));
    assert!(!chars_start_with(&text, &chars_of("mage/")));
    assert!(!chars_start_with(&chars_of("imag"), &chars_of("image/")));
}

#[test]
fn an_empty_listing_has_no_lines() {
    assert_eq!(lines_of(""), Vec::<String>::new());
    assert!(TypeSet::parse("").is_empty());
    assert_eq!(TypeSet::parse("").len(), 0);
}

#[test]
fn a_final_line_feed_adds_no_line() {
    assert_eq!(lines_of("image/png\n"), vec!["image/png"]);
    assert_eq!(lines_of("image/png"), vec!["image/png"]);
    assert_eq!(lines_of("a\nb\n"), vec!["a", "b"]);
    assert_eq!(TypeSet::parse("a\nb\n"), TypeSet::parse("a\nb"));
}

#[test]
fn empty_lines_are_lines() {
    assert_eq!(lines_of("\n"), vec![""]);
    assert_eq!(lines_of("\n\n"), vec!["", ""]);
    assert_eq!(lines_of("a\n\nb"), vec!["a", "", "b"]);
    assert!(has_mime_type("a\n\nb", ""));
    assert!(!has_mime_type("a\nb", ""));
    assert!(!has_mime_type("", ""));
}

#[test]
fn a_carriage_return_before_a_line_feed_ends_the_line() {
    assert_eq!(lines_of("text/plain\r\nimage/png\r\n"), vec!["text/plain", "image/png"]);
    assert_eq!(lines_of("a\r\r\nb"), vec!["a\r", "b"]);
    assert_eq!(lines_of("\r\n"), vec![""]);
    assert!(has_mime_type("text/plain\r\nimage/png", "text/plain"));
    assert!(!has_mime_type("text/plain\r\nimage/png", "text/plain\r"));
}

#[test]
fn a_lone_carriage_return_stays_in_its_line() {
    assert_eq!(lines_of("foo\nbar\n\r\nbaz\r"), vec!["foo", "bar", "", "baz\r"]);
    assert_eq!(lines_of("a\rb\nc"), vec!["a\rb", "c"]);
    assert!(has_mime_type("text/plain\r", "text/plain\r"));
    assert!(!has_mime_type("text/plain\r", "text/plain"));
}

#[test]
fn lines_agree_with_the_standard_library() {
    let listings = [
        "",
        "\n",
        "\r",
        "\r\n",
        "a",
        "a\n",
        "a\r\n",
        "a\n\r",
        "\na",
        "\n\na\n\n",
        "a\r\n\r\nb",
        "a\r\r\n",
        " \n \t \n ",
        "text/plain\nimage/png\ntext/html",
        "é\n世界\r\n🌍",
    ];
    for listing in listings {
        let expected: Vec<String> = listing.lines().map(|line| line.to_string()).collect();
        assert_eq!(lines_of(listing), expected, "listing {:?}", listing);
        let types = TypeSet::parse(listing);
        assert_eq!(types.len(), expected.len());
        for line in &expected {
            assert!(types.has(line));
            assert!(has_mime_type(listing, line));
        }
    }
}

#[test]
fn a_token_with_a_line_feed_is_never_found_in_a_listing() {
    assert!(!has_mime_type("a\nb", "a\nb"));
    assert!(!has_mime_type("a\nb", "a\n"));
    assert!(!has_mime_type("\n", "\n"));
}

#[test]
fn from_tokens_takes_each_token_whole() {
    let types = TypeSet::from_tokens(&["a\nb", "", "image/png"]);
    assert_eq!(types.len(), 3);
    assert!(!types.is_empty());
    assert!(types.has("a\nb"));
    assert!(types.has(""));
    assert!(types.has("image/png"));
    assert!(!types.has("a"));
    assert_eq!(TypeSet::from_tokens(&["a", "b"]), TypeSet::parse("a\nb"));
    assert!(TypeSet::from_tokens(&[]).is_empty());
}
