use flips_wrapper::lines::split_lines;
use flips_wrapper::{try_vec_u8_to_vec_string, vec_u8_to_vec_string};

fn lines_of(text: &str) -> Vec<String> {
    vec_u8_to_vec_string(text.as_bytes().to_vec())
}

fn strings(items: &[&str]) -> Vec<String> {
    items.iter().map(|s| s.to_string()).collect()
}

#[test]
fn empty_text_has_no_lines() {
    assert_eq!(lines_of(""), Vec::<String>::new());
}

#[test]
fn text_without_line_feed_is_one_line() {
    assert_eq!(lines_of("patching"), strings(&["patching"]));
}

#[test]
fn final_line_feed_is_optional() {
    assert_eq!(lines_of("one\ntwo\n"), strings(&["one", "two"]));
    assert_eq!(lines_of("one\ntwo"), strings(&["one", "two"]));
}

#[test]
fn carriage_return_before_line_feed_is_dropped() {
    assert_eq!(lines_of("one\r\ntwo\r\n"), strings(&["one", "two"]));
}

#[test]
fn only_one_carriage_return_is_dropped() {
    assert_eq!(lines_of("one\r\r\ntwo"), strings(&["one\r", "two"]));
}

#[test]
fn lone_carriage_return_stays_in_the_line() {
    assert_eq!(lines_of("one\rtwo\n"), strings(&["one\rtwo"]));
    assert_eq!(lines_of("\rone\n"), strings(&["\rone"]));
}

#[test]
fn carriage_return_at_the_end_without_line_feed_stays() {
    assert_eq!(lines_of("one\r"), strings(&["one\r"]));
    assert_eq!(lines_of("one\ntwo\r"), strings(&["one", "two\r"]));
    assert_eq!(lines_of("\r"), strings(&["\r"]));
}

#[test]
fn empty_lines_are_kept() {
    assert_eq!(lines_of("\n"), strings(&[""]));
    assert_eq!(lines_of("\n\n"), strings(&["", ""]));
    assert_eq!(lines_of("\r\n"), strings(&[""]));
    assert_eq!(lines_of("one\n\ntwo\n"), strings(&["one", "", "two"]));
    assert_eq!(lines_of("\none"), strings(&["", "one"]));
}

#[test]
fn text_beyond_ascii_is_decoded() {
    let text = "The patch was applied \u{2713}\ncaf\u{e9} \u{1f600}\r\n";
    assert_eq!(lines_of(text), strings(&["The patch was applied \u{2713}", "caf\u{e9} \u{1f600}"]));
}

#[test]
fn bytes_are_decoded_not_copied() {
    let bytes = vec![0xe2, 0x9c, 0x93, 0x0a, 0x61];
    let lines = vec_u8_to_vec_string(bytes);
    assert_eq!(lines.len(), 2);
    assert_eq!(lines[0].chars().count(), 1);
    assert_eq!(lines[0], "\u{2713}");
    assert_eq!(lines[1], "a");
}

#[test]
fn split_lines_agrees_on_str() {
    assert_eq!(split_lines("a\nb\r\nc"), strings(&["a", "b", "c"]));
    assert_eq!(split_lines(""), Vec::<String>::new());
}

#[test]
fn lines_have_no_line_feed() {
    for text in ["a\nb\n", "\n\n\n", "a\r\n\r\nb", "x"] {
        for line in lines_of(text) {
            assert!(!line.contains('\n'));
        }
    }
}

#[test]
fn written_lines_come_back() {
    let lines = strings(&["Creating patch...", "", "  done \u{2713}", "a\rb"]);
    let mut lf = String::new();
    let mut crlf = String::new();
    for line in &lines {
        lf.push_str(line);
        lf.push('\n');
        crlf.push_str(line);
        crlf.push_str("\r\n");
    }
    assert_eq!(lines_of(&lf), lines);
    assert_eq!(lines_of(&crlf), lines);
    let mut open = lf.clone();
    open.push_str("no end");
    let mut with_last = lines.clone();
    with_last.push("no end".to_string());
    assert_eq!(lines_of(&open), with_last);
}

#[test]
fn same_lines_as_the_standard_library() {
    let samples = [
        "",
        "a",
        "a\n",
        "a\r",
        "a\r\n",
        "a\n\r",
        "\r\n\r\n",
        "\n\r\n\r",
        "a\r\rb\r\r\nc\n\n",
        "flips: \u{fc}ber\r\nok\n",
        "\r\r\r",
        "\n",
        "one\ntwo\nthree",
    ];
    for text in samples {
        let expected: Vec<String> = text.lines().map(|line| line.to_string()).collect();
        assert_eq!(lines_of(text), expected, "for {:?}", text);
    }
}

#[test]
fn try_gives_the_same_lines_for_text() {
    for text in ["", "a", "a\nb\r\n", "\r", "caf\u{e9}\n"] {
        assert_eq!(try_vec_u8_to_vec_string(text.as_bytes().to_vec()), Some(lines_of(text)));
    }
}

#[test]
fn try_refuses_what_is_not_utf8() {
    assert_eq!(try_vec_u8_to_vec_string(vec![0xff]), None);
    assert_eq!(try_vec_u8_to_vec_string(vec![0x61, 0x0a, 0xe2, 0x9c]), None);
    assert_eq!(try_vec_u8_to_vec_string(vec![0x80]), None);
    assert_eq!(try_vec_u8_to_vec_string(vec![0xf4, 0x90, 0x80, 0x80]), None);
}
