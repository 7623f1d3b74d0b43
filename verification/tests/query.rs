use note_editor::query::{parse_chars, parse_search_text};

fn tags(names: &[&str]) -> Vec<String> {
    names.iter().map(|name| name.to_string()).collect()
}

fn text(s: &str) -> Option<String> {
    Some(s.to_string())
}

#[test]
fn parse_empty_line() {
    assert_eq!(parse_search_text(""), (tags(&[]), None));
}

#[test]
fn parse_tags_only() {
    assert_eq!(parse_search_text("#a #b  #c"), (tags(&["a", "b", "c"]), None));
}

#[test]
fn parse_tag_then_free_text() {
    assert_eq!(parse_search_text("#a hello world"), (tags(&["a"]), text("hello world")));
}

#[test]
fn parse_tag_after_free_text_is_literal() {
    assert_eq!(parse_search_text("hello #a"), (tags(&[]), text("hello #a")));
}

#[test]
fn parse_tags_with_extra_whitespace_then_text() {
    assert_eq!(
        parse_search_text("#tag1   #tag2 search text"),
        (tags(&["tag1", "tag2"]), text("search text"))
    );
}

#[test]
fn parse_single_unterminated_tag() {
    assert_eq!(parse_search_text("#tag1"), (tags(&["tag1"]), None));
}

#[test]
fn parse_free_text_only() {
    assert_eq!(parse_search_text("just text"), (tags(&[]), text("just text")));
}

#[test]
fn parse_whitespace_only() {
    assert_eq!(parse_search_text("   \t "), (tags(&[]), None));
}

#[test]
fn parse_leading_whitespace_before_tags() {
    assert_eq!(parse_search_text("  #a b"), (tags(&["a"]), text("b")));
}

#[test]
fn parse_free_text_keeps_interior_and_trailing_whitespace() {
    assert_eq!(parse_search_text("#a  one   two  "), (tags(&["a"]), text("one   two  ")));
}

#[test]
fn parse_bare_marker_is_an_empty_tag() {
    assert_eq!(parse_search_text("#"), (tags(&[""]), None));
    assert_eq!(parse_search_text("# x"), (tags(&[""]), text("x")));
}

#[test]
fn parse_marker_inside_a_tag_belongs_to_its_name() {
    assert_eq!(parse_search_text("#a#b"), (tags(&["a#b"]), None));
    assert_eq!(parse_search_text("##"), (tags(&["#"]), None));
}

#[test]
fn parse_trailing_whitespace_after_tag() {
    assert_eq!(parse_search_text("#a "), (tags(&["a"]), None));
}

#[test]
fn parse_tabs_and_unicode_spaces_separate_tags() {
    assert_eq!(parse_search_text("#a\t#b\u{a0}#c"), (tags(&["a", "b", "c"]), None));
}

#[test]
fn parse_multibyte_characters() {
    assert_eq!(parse_search_text("#größe 日本語 テキスト"), (tags(&["größe"]), text("日本語 テキスト")));
}

#[test]
fn parse_chars_agrees_with_parse_search_text() {
    let line = "#x  #y rest of it";
    let chars: Vec<char> = line.chars().collect();
    assert_eq!(parse_chars(&chars), parse_search_text(line));
    assert_eq!(parse_chars(&chars), (tags(&["x", "y"]), text("rest of it")));
}
