//! Behaviour of the copyright consumer.

use gpx::parser::copyright;
use gpx::parser::create_context;
use gpx::EmptyExtensions;
use gpx::GpxError;
use gpx::GpxVersion;

fn context(xml: &str) -> gpx::parser::Context<EmptyExtensions> {
    create_context(xml.as_bytes(), GpxVersion::Gpx11)
}

#[test]
fn consume_simple_copyright() {
    let copyright = copyright::consume(&mut context(
        "<copyright author='OpenStreetMap contributors'><year>2020</year><license>https://www.openstreetmap.org/copyright</license></copyright>",
    ));

    assert!(copyright.is_ok());

    let copyright = copyright.unwrap();

    assert!(copyright.author.is_some());
    assert_eq!(copyright.author.unwrap(), "OpenStreetMap contributors");

    assert!(copyright.year.is_some());
    assert_eq!(copyright.year.unwrap(), 2020);

    assert!(copyright.license.is_some());
    assert_eq!(
        copyright.license.unwrap(),
        "https://www.openstreetmap.org/copyright"
    );
}

#[test]
fn consume_barebones() {
    let copyright = copyright::consume(&mut context("<copyright author='pelmers'></copyright>"));

    assert!(copyright.is_ok());
    let copyright = copyright.unwrap();

    assert_eq!(copyright.author.unwrap(), "pelmers");
}

#[test]
fn copyright_example_all_fields() {
    // author='X', year 2020 and license 'L' all come through.
    let copyright = copyright::consume(&mut context(
        "<copyright author='X'><year>2020</year><license>L</license></copyright>",
    ))
    .unwrap();

    assert_eq!(copyright.author, Some(String::from("X")));
    assert_eq!(copyright.year, Some(2020));
    assert_eq!(copyright.license, Some(String::from("L")));
}

#[test]
fn copyright_example_author_only() {
    let copyright =
        copyright::consume(&mut context("<copyright author='X'></copyright>")).unwrap();

    assert_eq!(copyright.author, Some(String::from("X")));
    assert_eq!(copyright.year, None);
    assert_eq!(copyright.license, None);
}

#[test]
fn unparsable_year_becomes_absent() {
    // A year that does not read as a number is dropped, not an error.
    let copyright = copyright::consume(&mut context(
        "<copyright author='A'><year>twenty</year></copyright>",
    ))
    .unwrap();

    assert_eq!(copyright.author, Some(String::from("A")));
    assert_eq!(copyright.year, None);
}

#[test]
fn invalid_child_names_child_and_entity() {
    let result = copyright::consume(&mut context("<copyright author='X'><baz></baz></copyright>"));

    assert_eq!(
        result.unwrap_err(),
        GpxError::InvalidChildElement(String::from("baz"), "copyright")
    );
}

#[test]
fn tokenizer_fault_inside_copyright() {
    let tokens = vec![
        gpx::parser::Token::Open { name: String::from("copyright"), attrs: Vec::new() },
        gpx::parser::Token::Error,
    ];
    let mut ctx: gpx::parser::Context<EmptyExtensions> =
        gpx::parser::Context::new(tokens, GpxVersion::Gpx11);
    let result = copyright::consume(&mut ctx);

    assert_eq!(result.unwrap_err(), GpxError::EventParsingError("copyright"));
}
