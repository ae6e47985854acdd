use ncaa_gateway::parser::{parse, Record};
use ncaa_gateway::text::{split, trim};

fn schema(names: &[&str]) -> Vec<String> {
    names.iter().map(|n| n.to_string()).collect()
}

fn pairs(r: &Record) -> Vec<(String, String)> {
    r.fields.clone()
}

fn pair(a: &str, b: &str) -> (String, String) {
    (a.to_string(), b.to_string())
}

#[test]
fn two_records_in_order() {
    let recs = parse("a|1\nb|2\n", &schema(&["name", "n"]));
    assert_eq!(recs.len(), 2);
    assert_eq!(pairs(&recs[0]), vec![pair("name", "a"), pair("n", "1")]);
    assert_eq!(pairs(&recs[1]), vec![pair("name", "b"), pair("n", "2")]);
}

#[test]
fn values_trimmed_round_trip() {
    let recs = parse("  a | b  ", &schema(&["x", "y"]));
    assert_eq!(recs.len(), 1);
    assert_eq!(pairs(&recs[0]), vec![pair("x", "a"), pair("y", "b")]);
}

#[test]
fn short_row_omits_trailing_fields() {
    let recs = parse("a|b", &schema(&["one", "two", "three"]));
    assert_eq!(recs.len(), 1);
    assert_eq!(pairs(&recs[0]), vec![pair("one", "a"), pair("two", "b")]);
}

#[test]
fn extra_fields_are_dropped() {
    let recs = parse("a|b|c", &schema(&["only"]));
    assert_eq!(recs.len(), 1);
    assert_eq!(pairs(&recs[0]), vec![pair("only", "a")]);
}

#[test]
fn empty_text_yields_no_records() {
    let recs = parse("", &schema(&["x"]));
    assert_eq!(recs.len(), 0);
}

#[test]
fn whitespace_text_yields_no_records() {
    let recs = parse("   \n \t \r\n ", &schema(&["x"]));
    assert_eq!(recs.len(), 0);
}

#[test]
fn interior_empty_line_yields_empty_record() {
    let recs = parse("a\n\nb", &schema(&["x"]));
    assert_eq!(recs.len(), 3);
    assert_eq!(pairs(&recs[0]), vec![pair("x", "a")]);
    assert_eq!(pairs(&recs[1]), vec![pair("x", "")]);
    assert_eq!(pairs(&recs[2]), vec![pair("x", "b")]);
}

#[test]
fn carriage_returns_are_trimmed_from_values() {
    let recs = parse("a|1\r\nb|2\r\n", &schema(&["name", "n"]));
    assert_eq!(recs.len(), 2);
    assert_eq!(pairs(&recs[0]), vec![pair("name", "a"), pair("n", "1")]);
    assert_eq!(pairs(&recs[1]), vec![pair("name", "b"), pair("n", "2")]);
}

#[test]
fn trim_removes_outer_whitespace_only() {
    assert_eq!(trim(" \t a b \r\n "), "a b".to_string());
    assert_eq!(trim(""), "".to_string());
    assert_eq!(trim("   "), "".to_string());
    assert_eq!(trim("x"), "x".to_string());
}

#[test]
fn split_keeps_empty_pieces() {
    let parts = split("a||b|", '|');
    let expect: Vec<String> = vec!["a".to_string(), "".to_string(), "b".to_string(), "".to_string()];
    assert_eq!(parts, expect);
    assert_eq!(split("", '|'), vec!["".to_string()]);
    assert_eq!(split("abc", '|'), vec!["abc".to_string()]);
}
