//! Behaviour of the string-leaf consumer over real tokenized input.

use gpx::parser::create_context;
use gpx::parser::string;
use gpx::EmptyExtensions;
use gpx::GpxError;
use gpx::GpxVersion;

fn context(xml: &str) -> gpx::parser::Context<EmptyExtensions> {
    create_context(xml.as_bytes(), GpxVersion::Gpx11)
}

#[test]
fn consume_simple_string() {
    let result = string::consume(&mut context("<string>hello world</string>"), "string", false);

    assert!(result.is_ok());
    assert_eq!(result.unwrap(), "hello world");
}

#[test]
fn consume_new_tag() {
    // cannot start new tag inside string
    let result = string::consume(&mut context("<foo>bar<baz></baz></foo>"), "foo", false);

    assert!(result.is_err());
}

#[test]
fn consume_start_tag() {
    // must have starting tag
    let result = string::consume(&mut context("bar</foo>"), "foo", false);

    assert!(result.is_err());
}

#[test]
fn consume_end_tag() {
    // must have ending tag
    let result = string::consume(&mut context("<foo>bar"), "foo", false);

    assert!(result.is_err());
}

#[test]
fn consume_no_body_with_err() {
    // must have string content
    let result = string::consume(&mut context("<foo></foo>"), "foo", false);

    assert!(result.is_err());
}

#[test]
fn consume_no_body_via_complete_tag() {
    let result = string::consume(&mut context("<foo></foo>"), "foo", true);

    assert!(result.is_ok());
}

#[test]
fn consume_no_body_via_self_closing_tag() {
    let result = string::consume(&mut context("<foo/>"), "foo", true);

    assert!(result.is_ok());
}

#[test]
fn consume_different_ending_tag() {
    // this is just illegal
    let result = string::consume(&mut context("<foo></foobar>"), "foo", false);

    assert!(result.is_err());
}

#[test]
fn empty_leaf_yields_empty_string() {
    let result = string::consume(&mut context("<foo/>"), "foo", true);

    assert_eq!(result.unwrap(), "");
}

#[test]
fn empty_leaf_error_is_no_content() {
    let result = string::consume(&mut context("<foo></foo>"), "foo", false);

    assert_eq!(result.unwrap_err(), GpxError::NoStringContent);
}

#[test]
fn missing_opening_tag_is_reported() {
    let mut ctx: gpx::parser::Context<EmptyExtensions> =
        gpx::parser::Context::new(Vec::new(), GpxVersion::Gpx11);
    let result = string::consume(&mut ctx, "foo", true);

    assert_eq!(result.unwrap_err(), GpxError::MissingOpeningTag("foo"));
}

#[test]
fn missing_closing_tag_is_reported() {
    let tokens = vec![gpx::parser::Token::Open { name: String::from("foo"), attrs: Vec::new() }];
    let mut ctx: gpx::parser::Context<EmptyExtensions> =
        gpx::parser::Context::new(tokens, GpxVersion::Gpx11);
    let result = string::consume(&mut ctx, "foo", true);

    assert_eq!(result.unwrap_err(), GpxError::MissingClosingTag("foo"));
}

#[test]
fn closing_mismatch_is_reported_exactly() {
    // The tokenizer itself refuses `<foo></foobar>`, so drive the engine
    // over the token shape directly: the mismatch is the engine's own error.
    let tokens = vec![
        gpx::parser::Token::Open { name: String::from("foo"), attrs: Vec::new() },
        gpx::parser::Token::Close { name: String::from("foobar") },
    ];
    let mut ctx: gpx::parser::Context<EmptyExtensions> =
        gpx::parser::Context::new(tokens, GpxVersion::Gpx11);
    let result = string::consume(&mut ctx, "foo", false);

    assert_eq!(
        result.unwrap_err(),
        GpxError::InvalidClosingTag(String::from("foobar"), "foo")
    );
}

#[test]
fn closing_mismatch_with_text_is_reported_exactly() {
    let tokens = vec![
        gpx::parser::Token::Open { name: String::from("foo"), attrs: Vec::new() },
        gpx::parser::Token::Text { content: String::from("bar") },
        gpx::parser::Token::Close { name: String::from("foobar") },
    ];
    let mut ctx: gpx::parser::Context<EmptyExtensions> =
        gpx::parser::Context::new(tokens, GpxVersion::Gpx11);
    let result = string::consume(&mut ctx, "foo", true);

    assert_eq!(
        result.unwrap_err(),
        GpxError::InvalidClosingTag(String::from("foobar"), "foo")
    );
}

#[test]
fn last_text_event_wins() {
    // When an element's text arrives as several events, the engine keeps
    // the last one rather than concatenating.
    let tokens = vec![
        gpx::parser::Token::Open { name: String::from("foo"), attrs: Vec::new() },
        gpx::parser::Token::Text { content: String::from("bar") },
        gpx::parser::Token::Text { content: String::from("baz") },
        gpx::parser::Token::Close { name: String::from("foo") },
    ];
    let mut ctx: gpx::parser::Context<EmptyExtensions> =
        gpx::parser::Context::new(tokens, GpxVersion::Gpx11);
    let result = string::consume(&mut ctx, "foo", false);

    assert_eq!(result.unwrap(), "baz");
}
