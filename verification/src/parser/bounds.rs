//! The bounds element: four required numeric edges as attributes, and no
//! children of its own.

use vstd::prelude::*;

use crate::errors::{GpxError, GpxResult};
use crate::numbers::{parse_decimal, spec_decimal, Decimal};
use crate::parser::{
    find_attr, name_is, spec_find_attr, spec_verify_tag, verify_starting_tag, Attribute, Context,
    Peeked, Token,
};
use crate::types::Bounds;

verus! {

/// The named numeric attribute of a bounds element, or the error naming
/// what is missing or unreadable.
pub open spec fn spec_bounds_edge(
    attrs: Seq<Attribute>,
    name: Seq<char>,
    label: &'static str,
) -> Result<Decimal, GpxError> {
    match spec_find_attr(attrs, name) {
        None => Err(GpxError::InvalidElementLacksAttribute(label, "bounds")),
        Some(s) => match spec_decimal(s@) {
            Some(v) => Ok(v),
            None => Err(GpxError::InvalidNumericValue(label)),
        },
    }
}

/// What reading the rest of a bounds element from `pos` yields once the
/// edges are known: any child is an error, and the matching closing tag
/// ends the element.
pub open spec fn spec_bounds_body(t: Seq<Token>, pos: int, b: Bounds) -> Result<
    (Bounds, int),
    GpxError,
>
    decreases t.len() - pos,
{
    if pos >= t.len() {
        Err(GpxError::MissingClosingTag("bounds"))
    } else {
        match t[pos] {
            Token::Open { name, attrs } => Err(GpxError::InvalidChildElement(name, "bounds")),
            Token::Close { name } => if name@ == "bounds"@ {
                Ok((b, pos + 1))
            } else {
                Err(GpxError::InvalidClosingTag(name, "bounds"))
            },
            Token::Error => Err(GpxError::EventParsingError("bounds")),
            _ => spec_bounds_body(t, pos + 1, b),
        }
    }
}

/// What consuming a whole bounds element from `pos` yields: all four
/// edges are required and must be numeric.
pub open spec fn spec_bounds(t: Seq<Token>, pos: int) -> Result<(Bounds, int), GpxError> {
    match spec_verify_tag(t, pos, "bounds") {
        Err(e) => Err(e),
        Ok(pr) => match spec_bounds_edge(pr.0, "minlat"@, "minlat") {
            Err(e) => Err(e),
            Ok(min_lat) => match spec_bounds_edge(pr.0, "minlon"@, "minlon") {
                Err(e) => Err(e),
                Ok(min_lon) => match spec_bounds_edge(pr.0, "maxlat"@, "maxlat") {
                    Err(e) => Err(e),
                    Ok(max_lat) => match spec_bounds_edge(pr.0, "maxlon"@, "maxlon") {
                        Err(e) => Err(e),
                        Ok(max_lon) => spec_bounds_body(
                            t,
                            pr.1,
                            Bounds { min_lat, min_lon, max_lat, max_lon },
                        ),
                    },
                },
            },
        },
    }
}

/// Reads one required numeric attribute of the bounds element.
fn read_edge(attrs: &Vec<Attribute>, name: &'static str) -> (r: Result<Decimal, GpxError>)
    ensures
        r == spec_bounds_edge(attrs@, name@, name),
{
    match find_attr(attrs, name) {
        None => Err(GpxError::InvalidElementLacksAttribute(name, "bounds")),
        Some(s) => match parse_decimal(s.as_str()) {
            Some(v) => Ok(v),
            None => Err(GpxError::InvalidNumericValue(name)),
        },
    }
}

/// Consumes a bounds element and reads its four edges.
pub fn consume<E>(context: &mut Context<E>) -> (r: GpxResult<Bounds>)
    requires
        old(context).wf(),
    ensures
        final(context).same_doc(old(context)),
        final(context).wf(),
        match spec_bounds(old(context).toks(), old(context).at()) {
            Ok(pr) => r matches Ok(b) && b == pr.0 && final(context).at() == pr.1 && old(
                context,
            ).at() < pr.1,
            Err(e) => r matches Err(e2) && e2 == e,
        },
{
    let attributes = match verify_starting_tag(context, "bounds") {
        Ok(a) => a,
        Err(e) => {
            return Err(e);
        },
    };
    let min_lat = match read_edge(&attributes, "minlat") {
        Ok(v) => v,
        Err(e) => {
            return Err(e);
        },
    };
    let min_lon = match read_edge(&attributes, "minlon") {
        Ok(v) => v,
        Err(e) => {
            return Err(e);
        },
    };
    let max_lat = match read_edge(&attributes, "maxlat") {
        Ok(v) => v,
        Err(e) => {
            return Err(e);
        },
    };
    let max_lon = match read_edge(&attributes, "maxlon") {
        Ok(v) => v,
        Err(e) => {
            return Err(e);
        },
    };
    let bounds = Bounds { min_lat, min_lon, max_lat, max_lon };
    loop
        invariant
            context.wf(),
            context.same_doc(old(context)),
            old(context).at() < context.at(),
            spec_bounds_body(context.toks(), context.at(), bounds) == spec_bounds(
                old(context).toks(),
                old(context).at(),
            ),
        decreases context.toks().len() - context.at(),
    {
        match context.peek_kind() {
            Peeked::Start { name } => {
                return Err(GpxError::InvalidChildElement(name, "bounds"));
            },
            Peeked::End { name } => {
                if name_is(&name, "bounds") {
                    context.advance();
                    return Ok(bounds);
                }
                return Err(GpxError::InvalidClosingTag(name, "bounds"));
            },
            Peeked::Chars { content: _ } => {
                context.advance();
            },
            Peeked::Skip => {
                context.advance();
            },
            Peeked::Fault => {
                return Err(GpxError::EventParsingError("bounds"));
            },
            Peeked::Finished => {
                return Err(GpxError::MissingClosingTag("bounds"));
            },
        }
    }
}

} // verus!
