use tedit::codec::load;
use tedit::codec::serialize;

fn chars(s: &str) -> Vec<char> {
    s.chars().collect()
}

fn lines(strs: &[&str]) -> Vec<Vec<char>> {
    strs.iter().map(|s| chars(s)).collect()
}

fn text(v: &[char]) -> String {
    v.iter().collect()
}

#[test]
fn serialize_joins_lines_with_newline_and_no_trailing_separator() {
    assert_eq!(text(&serialize(&lines(&["ab", "cd"]))), "ab\ncd");
    assert_eq!(text(&serialize(&lines(&["one", "two", "three"]))), "one\ntwo\nthree");
}

#[test]
fn serialize_single_line_has_no_separator() {
    assert_eq!(text(&serialize(&lines(&["hello"]))), "hello");
    assert_eq!(text(&serialize(&lines(&[""]))), "");
}

#[test]
fn load_empty_text_gives_one_empty_line() {
    assert_eq!(load(&chars("")), lines(&[""]));
}

#[test]
fn load_splits_on_newlines() {
    assert_eq!(load(&chars("a\nb")), lines(&["a", "b"]));
    assert_eq!(load(&chars("one\ntwo\nthree")), lines(&["one", "two", "three"]));
}

#[test]
fn load_final_newline_makes_no_trailing_empty_line() {
    assert_eq!(load(&chars("a\n")), lines(&["a"]));
    assert_eq!(load(&chars("a\nb\n")), lines(&["a", "b"]));
    assert_eq!(load(&chars("\n")), lines(&[""]));
}

#[test]
fn load_keeps_interior_empty_lines() {
    assert_eq!(load(&chars("a\n\nb")), lines(&["a", "", "b"]));
}

#[test]
fn load_strips_carriage_return_before_newline() {
    assert_eq!(load(&chars("a\r\nb")), lines(&["a", "b"]));
    assert_eq!(load(&chars("a\r\n")), lines(&["a"]));
}

#[test]
fn load_of_serialize_round_trips() {
    let original = lines(&["first", "", "third line", "x"]);
    assert_eq!(load(&serialize(&original)), original);
}

#[test]
fn load_of_serialize_round_trips_single_empty_line() {
    let original = lines(&[""]);
    assert_eq!(load(&serialize(&original)), original);
}
