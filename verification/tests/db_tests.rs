use vote_tracker::db::{assemble_write_url, escape_tag_value, join_lines, write_url};

fn replaced_in_turn(value: &str) -> String {
    value
        .replace('\\', r"\\")
        .replace(' ', r"\ ")
        .replace(',', r"\,")
        .replace('=', r"\=")
}

#[test]
fn escape_tag_value_escapes_every_special_character() {
    assert_eq!(escape_tag_value(r"a b,c=d\e"), r"a\ b\,c\=d\\e");
}

#[test]
fn escape_tag_value_leaves_plain_text() {
    assert_eq!(escape_tag_value("vote-account_01"), "vote-account_01");
    assert_eq!(escape_tag_value(""), "");
}

#[test]
fn escape_tag_value_doubles_backslashes() {
    assert_eq!(escape_tag_value(r"\\"), r"\\\\");
    assert_eq!(escape_tag_value(r"\ "), r"\\\ ");
}

#[test]
fn escape_tag_value_handles_non_ascii() {
    assert_eq!(escape_tag_value("é =ü"), r"é\ \=ü");
}

#[test]
fn escape_tag_value_agrees_with_chained_replacements() {
    for value in ["", "plain", r"a\ b", "==,,  ", r"\\,=\ x", "ünï cödé=1"] {
        assert_eq!(escape_tag_value(value), replaced_in_turn(value));
    }
}

#[test]
fn escaped_values_stay_distinct() {
    // "a\ b" and "a b" must not collide once escaped.
    assert_ne!(escape_tag_value(r"a\ b"), escape_tag_value("a b"));
    assert_eq!(escape_tag_value(r"a\ b"), r"a\\\ b");
}

#[test]
fn write_url_quotes_base_and_database() {
    assert_eq!(
        write_url("https://localhost:3000", "db"),
        "\"https://localhost:3000\"/api/v3/write_lp?db=\"db\"&precision=ms&accept_partial=true"
    );
}

#[test]
fn assemble_write_url_places_the_parts() {
    assert_eq!(
        assemble_write_url("B", "D"),
        "B/api/v3/write_lp?db=D&precision=ms&accept_partial=true"
    );
}

#[test]
fn join_lines_of_nothing_is_empty() {
    assert_eq!(join_lines(&vec![]), "");
}

#[test]
fn join_lines_of_one_line_is_that_line() {
    assert_eq!(join_lines(&vec!["m,host=a v=1i 10".to_string()]), "m,host=a v=1i 10");
}

#[test]
fn join_lines_puts_newlines_between_lines() {
    let lines = vec!["a".to_string(), "".to_string(), "c".to_string()];
    assert_eq!(join_lines(&lines), "a\n\nc");
    assert_eq!(join_lines(&lines), lines.join("\n"));
}
