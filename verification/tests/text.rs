use xkb_keymap::text::{join, lines};

fn strings(parts: &[&str]) -> Vec<String> {
    parts.iter().map(|p| p.to_string()).collect()
}

#[test]
fn join_of_nothing_is_empty() {
    assert_eq!(join(&strings(&[]), ", "), "");
}

#[test]
fn join_of_one_part_has_no_separator() {
    assert_eq!(join(&strings(&["key=<UP>"]), ", "), "key=<UP>");
}

#[test]
fn join_puts_the_separator_between_neighbours() {
    assert_eq!(join(&strings(&["a", "b"]), "+"), "a+b");
    assert_eq!(join(&strings(&["a", "b", "c"]), ", "), "a, b, c");
    assert_eq!(join(&strings(&["", "", ""]), "-"), "--");
    assert_eq!(join(&strings(&["x", "", "y"]), "\n"), "x\n\ny");
    assert_eq!(join(&strings(&["x", "y"]), ""), "xy");
}

#[test]
fn lines_of_the_empty_text() {
    assert!(lines("").is_empty());
}

#[test]
fn lines_end_at_line_feeds() {
    assert_eq!(lines("a"), vec!["a"]);
    assert_eq!(lines("a\n"), vec!["a"]);
    assert_eq!(lines("a\nb"), vec!["a", "b"]);
    assert_eq!(lines("a\nb\n"), vec!["a", "b"]);
    assert_eq!(lines("\n"), vec![""]);
    assert_eq!(lines("\n\n"), vec!["", ""]);
    assert_eq!(lines("a\n\nb"), vec!["a", "", "b"]);
    assert_eq!(lines("\na"), vec!["", "a"]);
}

#[test]
fn a_carriage_return_before_a_line_feed_is_dropped() {
    assert_eq!(lines("a\r\nb"), vec!["a", "b"]);
    assert_eq!(lines("a\r\n"), vec!["a"]);
    assert_eq!(lines("\r\n"), vec![""]);
    assert_eq!(lines("a\r\r\nb"), vec!["a\r", "b"]);
}

#[test]
fn a_carriage_return_elsewhere_stays() {
    assert_eq!(lines("a\r"), vec!["a\r"]);
    assert_eq!(lines("\r"), vec!["\r"]);
    assert_eq!(lines("a\rb\n"), vec!["a\rb"]);
    assert_eq!(lines("a\n\rb"), vec!["a", "\rb"]);
    assert_eq!(lines("a\nb\r"), vec!["a", "b\r"]);
}

#[test]
fn lines_count_characters_not_bytes() {
    assert_eq!(lines("\u{e9}t\u{e9}\n\u{4e2d}\u{6587}\r\n\u{1f600}"), vec![
        "\u{e9}t\u{e9}",
        "\u{4e2d}\u{6587}",
        "\u{1f600}",
    ]);
}

#[test]
fn lines_agree_with_the_standard_library() {
    let alphabet = ['a', '\n', '\r', '\u{e9}'];
    let mut texts: Vec<String> = vec![String::new()];
    let mut from = 0;
    for _ in 0..6 {
        let upto = texts.len();
        for i in from..upto {
            for c in alphabet.iter() {
                let mut longer = texts[i].clone();
                longer.push(*c);
                texts.push(longer);
            }
        }
        from = upto;
    }
    assert_eq!(texts.len(), 1 + 4 + 16 + 64 + 256 + 1024 + 4096);
    for text in texts.iter() {
        let expected: Vec<&str> = text.lines().collect();
        assert_eq!(lines(text), expected, "for {:?}", text);
    }
}

#[test]
fn splitting_undoes_joining() {
    let parts = strings(&["key <UP> {", "  type=\"EIGHT_LEVEL\",", "", "};"]);
    let text = join(&parts, "\n");
    assert_eq!(lines(&text), vec!["key <UP> {", "  type=\"EIGHT_LEVEL\",", "", "};"]);
}
