use combinators::alternative::{parse_bool, parse_either};
use combinators::error::ParseError;
use combinators::parser::Parser;
use combinators::sequence::{parse_comma_tags, parse_separated};
use combinators::tag::{parse_hello, parse_tag};

fn remainder(input: &[u8], consumed: usize) -> &[u8] {
    &input[consumed..]
}

#[test]
fn parse_either_works_for_valid_input() {
    let parse_bool_str = parse_either(parse_tag(b"true"), parse_tag(b"false"));

    let input = b"true, 12345";
    let (consumed, value) = parse_bool_str.parse(input).unwrap();
    assert_eq!(remainder(input, consumed), b", 12345");
    assert_eq!(value, b"true".to_vec());

    let input = b"false, 12345";
    let (consumed, value) = parse_bool_str.parse(input).unwrap();
    assert_eq!(remainder(input, consumed), b", 12345");
    assert_eq!(value, b"false".to_vec());
}

#[test]
fn parse_either_fails_for_invalid_input() {
    let parse_bool_str = parse_either(parse_tag(b"true"), parse_tag(b"false"));
    assert_eq!(
        parse_bool_str.parse(b"borked"),
        Err(ParseError::CombinedMismatch)
    );
}

#[test]
fn parse_bool_works_for_valid_input() {
    let input = b"true, 12345";
    let (consumed, value) = parse_bool(input).unwrap();
    assert_eq!((remainder(input, consumed), value), (&b", 12345"[..], true));

    let input = b"false, 12345";
    let (consumed, value) = parse_bool(input).unwrap();
    assert_eq!((remainder(input, consumed), value), (&b", 12345"[..], false));
}

#[test]
fn parse_separated_works_for_valid_input() {
    let parse_hello_world = parse_separated(parse_tag(b"Hello"), parse_tag(b", "), parse_tag(b"world"));
    let input = b"Hello, world!";
    let (consumed, value) = parse_hello_world.parse(input).unwrap();
    assert_eq!(remainder(input, consumed), b"!");
    assert_eq!(value, (b"Hello".to_vec(), b"world".to_vec()));
}

#[test]
fn parse_comma_tags_works_for_valid_input() {
    let input = b"Hello, world!";
    let (consumed, value) = parse_comma_tags(b"Hello", b"world").parse(input).unwrap();
    assert_eq!(remainder(input, consumed), b"!");
    assert_eq!(value, (b"Hello".to_vec(), b"world".to_vec()));
}

#[test]
fn parse_tag_workds_for_valid_input() {
    let input = b"Hello, world!";
    let (consumed, value) = parse_tag(b"Hello").parse(input).unwrap();
    assert_eq!(remainder(input, consumed), b", world!");
    assert_eq!(value, b"Hello".to_vec());
}

#[test]
fn parse_hello_works_for_valid_input() {
    let input = b"Hello, world!";
    let (consumed, value) = parse_hello(input).unwrap();
    assert_eq!(remainder(input, consumed), b", world!");
    assert_eq!(value, b"Hello".to_vec());
}

#[test]
fn parse_tag_fails_with_mismatch_on_other_input() {
    assert_eq!(
        parse_tag(b"Hello").parse(b"Goodbye"),
        Err(ParseError::Mismatch)
    );
}

#[test]
fn parse_tag_fails_on_input_shorter_than_literal() {
    assert_eq!(parse_tag(b"Hello").parse(b"Hel"), Err(ParseError::Mismatch));
}

#[test]
fn parse_tag_with_empty_literal_matches_any_input() {
    let input = b"anything";
    let (consumed, value) = parse_tag(b"").parse(input).unwrap();
    assert_eq!(consumed, 0);
    assert_eq!(remainder(input, consumed), b"anything");
    assert_eq!(value, b"".to_vec());

    let (consumed, value) = parse_tag(b"").parse(b"").unwrap();
    assert_eq!(consumed, 0);
    assert_eq!(value, b"".to_vec());
}

#[test]
fn parse_tag_matches_whole_input() {
    let input = b"Hello";
    let (consumed, value) = parse_tag(b"Hello").parse(input).unwrap();
    assert_eq!(consumed, 5);
    assert_eq!(remainder(input, consumed), b"");
    assert_eq!(value, b"Hello".to_vec());
}

#[test]
fn parse_bool_fails_with_mismatch_on_other_input() {
    assert_eq!(parse_bool(b"maybe"), Err(ParseError::Mismatch));
    assert_eq!(parse_bool(b""), Err(ParseError::Mismatch));
}

#[test]
fn parse_bool_consumes_only_the_literal() {
    let input = b"truest";
    let (consumed, value) = parse_bool(input).unwrap();
    assert_eq!(consumed, 4);
    assert_eq!(value, true);
    assert_eq!(remainder(input, consumed), b"st");
}

#[test]
fn parse_separated_propagates_first_failure() {
    let p = parse_separated(parse_tag(b"Hello"), parse_tag(b", "), parse_tag(b"world"));
    assert_eq!(p.parse(b"Goodbye, world!"), Err(ParseError::Mismatch));
}

#[test]
fn parse_separated_propagates_separator_failure() {
    let p = parse_separated(parse_tag(b"Hello"), parse_tag(b", "), parse_tag(b"world"));
    assert_eq!(p.parse(b"Hello; world!"), Err(ParseError::Mismatch));
}

#[test]
fn parse_separated_propagates_second_failure() {
    let p = parse_separated(parse_tag(b"Hello"), parse_tag(b", "), parse_tag(b"world"));
    assert_eq!(p.parse(b"Hello, friend!"), Err(ParseError::Mismatch));
}

#[test]
fn parse_comma_tags_fails_without_separator() {
    assert_eq!(
        parse_comma_tags(b"Hello", b"world").parse(b"Helloworld"),
        Err(ParseError::Mismatch)
    );
}

#[test]
fn parse_either_prefers_the_first_alternative() {
    let p = parse_either(parse_tag(b"He"), parse_tag(b"Hello"));
    let input = b"Hello";
    let (consumed, value) = p.parse(input).unwrap();
    assert_eq!(consumed, 2);
    assert_eq!(value, b"He".to_vec());
    assert_eq!(remainder(input, consumed), b"llo");
}

#[test]
fn parse_either_tries_second_on_original_input() {
    let p = parse_either(parse_tag(b"Hej"), parse_tag(b"Hello"));
    let input = b"Hello!";
    let (consumed, value) = p.parse(input).unwrap();
    assert_eq!(consumed, 5);
    assert_eq!(value, b"Hello".to_vec());
    assert_eq!(remainder(input, consumed), b"!");
}

#[test]
fn parsers_are_deterministic_across_applications() {
    let input = b"Hello, world!";
    let t = parse_tag(b"Hello");
    assert_eq!(t.parse(input), t.parse(input));

    let p = parse_comma_tags(b"Hello", b"world");
    assert_eq!(p.parse(input), p.parse(input));

    let e = parse_either(parse_tag(b"true"), parse_tag(b"false"));
    assert_eq!(e.parse(b"borked"), e.parse(b"borked"));

    assert_eq!(parse_bool(b"false, 1"), parse_bool(b"false, 1"));
}
