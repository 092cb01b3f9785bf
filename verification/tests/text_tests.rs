use hecto::text::{chars_of, split_lines, string_of};

fn lines(text: &str) -> Vec<String> {
    split_lines(text)
}

#[test]
fn chars_of_gives_each_character() {
    assert_eq!(chars_of("a好\n"), vec!['a', '好', '\n']);
    assert_eq!(chars_of(""), Vec::<char>::new());
}

#[test]
fn string_of_puts_characters_together() {
    assert_eq!(string_of(&vec!['a', '好', '\n']), "a好\n");
    assert_eq!(string_of(&Vec::new()), "");
}

#[test]
fn empty_text_has_no_line() {
    assert_eq!(lines(""), Vec::<String>::new());
}

#[test]
fn text_without_line_feed_is_one_line() {
    assert_eq!(lines("abc"), vec!["abc"]);
}

#[test]
fn three_lines() {
    assert_eq!(lines("ab\nc\nd"), vec!["ab", "c", "d"]);
}

#[test]
fn final_line_feed_adds_no_line() {
    assert_eq!(lines("a\n"), vec!["a"]);
    assert_eq!(lines("a\nb\n"), vec!["a", "b"]);
}

#[test]
fn empty_lines_are_kept() {
    assert_eq!(lines("\n"), vec![""]);
    assert_eq!(lines("\n\n"), vec!["", ""]);
    assert_eq!(lines("a\n\nb"), vec!["a", "", "b"]);
}

#[test]
fn carriage_return_before_line_feed_is_dropped() {
    assert_eq!(lines("a\r\nb"), vec!["a", "b"]);
    assert_eq!(lines("\r\n"), vec![""]);
    assert_eq!(lines("a\r\n"), vec!["a"]);
}

#[test]
fn only_one_carriage_return_is_dropped() {
    assert_eq!(lines("a\r\r\nb"), vec!["a\r", "b"]);
}

#[test]
fn bare_carriage_return_stays() {
    assert_eq!(lines("a\rb"), vec!["a\rb"]);
    assert_eq!(lines("a\r"), vec!["a\r"]);
    assert_eq!(lines("a\rb\nc\r"), vec!["a\rb", "c\r"]);
    assert_eq!(lines("\r"), vec!["\r"]);
}

#[test]
fn agrees_with_the_standard_library() {
    let samples = [
        "",
        "x",
        "\n",
        "\r",
        "\r\n",
        "\n\r",
        "a\nb",
        "a\r\nb\r\n",
        "a\n\r\nb\r",
        "foo\nbar\n\r\nbaz\r",
        "\n\n\n",
        "\r\r\n\r",
        "好\n界\r\n👋",
        "one line, no end",
        "tabs\tand spaces \n",
    ];
    for text in samples {
        let expected: Vec<String> = text.lines().map(String::from).collect();
        assert_eq!(lines(text), expected);
    }
}
