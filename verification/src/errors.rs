//! The error taxonomy of the parsing engine.
//!
//! Every error is fatal to the enclosing parse: the engine never recovers or
//! skips past a structural fault. Each variant carries enough context (the
//! element that was expected and, where known, what was found instead) to be
//! rendered as a precise diagnostic without re-parsing.

use vstd::prelude::*;

verus! {

/// A failure observed while consuming the token stream.
#[derive(Debug, Clone, PartialEq, Eq)]
pub enum GpxError {
    /// The expected opening tag never appeared before the stream ended.
    MissingOpeningTag(&'static str),
    /// An element appeared as a child of an entity whose child vocabulary
    /// does not include it: the name found, then the enclosing entity.
    InvalidChildElement(String, &'static str),
    /// A closing tag's name does not match the entity being closed:
    /// the name found, then the entity that was open.
    InvalidClosingTag(String, &'static str),
    /// The stream ended while the named entity was still open.
    MissingClosingTag(&'static str),
    /// A leaf element required non-empty text content but had none.
    NoStringContent,
    /// The underlying tokenizer reported malformed input while the named
    /// entity was being parsed.
    EventParsingError(&'static str),
    /// The tokenizer failed while a track segment was being parsed.
    TrackSegmentError,
    /// An element lacks a required attribute: the attribute, then the element.
    InvalidElementLacksAttribute(&'static str, &'static str),
    /// A required numeric value (an attribute such as a coordinate, or a
    /// bounds edge) did not parse; the name identifies which one.
    InvalidNumericValue(&'static str),
    /// The text of a time element was not a well-formed timestamp.
    InvalidTimestamp,
}

/// The result type every consumer returns.
pub type GpxResult<T> = Result<T, GpxError>;

} // verus!
