use note_parser::search::{search, Search};

#[test]
fn a_match_gives_its_group() {
    assert_eq!(
        search(r"id:\s*(?<id>.*)", "id: abc\nrest", "id"),
        Search::Found(String::from("abc"))
    );
    assert_eq!(
        search(r"(?<year>\d{4})-(?<month>\d{2})", "on 2023-07-14", "month"),
        Search::Found(String::from("07"))
    );
}

#[test]
fn the_leftmost_match_is_taken() {
    assert_eq!(search(r"(?<n>\d+)", "a 12 b 345", "n"), Search::Found(String::from("12")));
}

#[test]
fn a_group_may_be_empty() {
    assert_eq!(search(r"id:(?<id>.*)", "id:", "id"), Search::Found(String::new()));
}

#[test]
fn no_match_is_absent() {
    assert_eq!(search(r"id:\s*(?<id>.*)", "title: abc", "id"), Search::Absent);
    assert_eq!(search(r"^---", "", "x"), Search::Absent);
}

#[test]
fn a_group_that_the_pattern_lacks_is_absent() {
    assert_eq!(search(r"id:\s*(?<id>.*)", "id: abc", "title"), Search::Absent);
}

#[test]
fn a_group_that_took_no_part_is_absent() {
    assert_eq!(search(r"(?<a>x)|(?<b>y)", "y", "a"), Search::Absent);
    assert_eq!(search(r"(?<a>x)|(?<b>y)", "y", "b"), Search::Found(String::from("y")));
}

#[test]
fn a_bad_pattern_is_rejected() {
    assert_eq!(search(r"foo(bar", "foo(bar", "x"), Search::Rejected);
    assert_eq!(search(r"(?<id", "id", "id"), Search::Rejected);
}

#[test]
fn what_is_found_is_part_of_the_text_and_not_the_pattern() {
    let pattern = r"(?<w>[a-z]+)";
    let text = "  hello world";
    let r = search(pattern, text, "w");
    assert_eq!(r, Search::Found(String::from("hello")));
    assert_ne!(r, Search::Found(String::from(pattern)));
    assert_ne!(r, Search::Found(String::from(text)));
}
