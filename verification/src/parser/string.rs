//! The string leaf: a single element whose text content is the value.

use vstd::prelude::*;

use vstd::string::StrSliceExecFns;
use crate::errors::{GpxError, GpxResult};
use crate::parser::{name_is, spec_verify_tag, verify_starting_tag, Context, Peeked, Token};

verus! {

/// What reading the body of a string leaf from `pos` yields, `acc` being
/// the text seen so far: text events overwrite one another (the last one
/// wins), a nested element is an error, and the matching closing tag ends
/// the leaf — with empty text an error unless allowed.
pub open spec fn spec_string_body(
    t: Seq<Token>,
    pos: int,
    tag: &'static str,
    allow_empty: bool,
    acc: Seq<char>,
) -> Result<(Seq<char>, int), GpxError>
    decreases t.len() - pos,
{
    if pos >= t.len() {
        Err(GpxError::MissingClosingTag(tag))
    } else {
        match t[pos] {
            Token::Open { name, attrs } => Err(GpxError::InvalidChildElement(name, tag)),
            Token::Text { content } => spec_string_body(t, pos + 1, tag, allow_empty, content@),
            Token::Close { name } => if name@ == tag@ {
                if allow_empty || acc.len() > 0 {
                    Ok((acc, pos + 1))
                } else {
                    Err(GpxError::NoStringContent)
                }
            } else {
                Err(GpxError::InvalidClosingTag(name, tag))
            },
            Token::Other => spec_string_body(t, pos + 1, tag, allow_empty, acc),
            Token::Error => Err(GpxError::EventParsingError(tag)),
        }
    }
}

/// What consuming a whole string leaf from `pos` yields: the expected
/// opening tag, then its text, then the matching closing tag.
pub open spec fn spec_string(t: Seq<Token>, pos: int, tag: &'static str, allow_empty: bool) -> Result<
    (Seq<char>, int),
    GpxError,
> {
    match spec_verify_tag(t, pos, tag) {
        Err(e) => Err(e),
        Ok(pr) => spec_string_body(t, pr.1, tag, allow_empty, Seq::empty()),
    }
}

/// Consumes a single element's text content as a string.
pub fn consume<E>(context: &mut Context<E>, tagname: &'static str, allow_empty: bool) -> (r:
    GpxResult<String>)
    requires
        old(context).wf(),
    ensures
        final(context).same_doc(old(context)),
        final(context).wf(),
        match spec_string(old(context).toks(), old(context).at(), tagname, allow_empty) {
            Ok(pr) => r matches Ok(s) && s@ == pr.0 && final(context).at() == pr.1 && old(
                context,
            ).at() < pr.1,
            Err(e) => r matches Err(e2) && e2 == e,
        },
{
    let attributes = verify_starting_tag(context, tagname);
    match attributes {
        Ok(_) => (),
        Err(e) => {
            return Err(e);
        },
    }
    let mut string = String::new();
    loop
        invariant
            context.wf(),
            context.same_doc(old(context)),
            old(context).at() < context.at(),
            spec_string_body(context.toks(), context.at(), tagname, allow_empty, string@)
                == spec_string(old(context).toks(), old(context).at(), tagname, allow_empty),
        decreases context.toks().len() - context.at(),
    {
        match context.peek_kind() {
            Peeked::Start { name } => {
                return Err(GpxError::InvalidChildElement(name, tagname));
            },
            Peeked::Chars { content } => {
                string = content;
                context.advance();
            },
            Peeked::End { name } => {
                if name_is(&name, tagname) {
                    context.advance();
                    if allow_empty || string.as_str().unicode_len() > 0 {
                        return Ok(string);
                    }
                    return Err(GpxError::NoStringContent);
                }
                return Err(GpxError::InvalidClosingTag(name, tagname));
            },
            Peeked::Skip => {
                context.advance();
            },
            Peeked::Fault => {
                return Err(GpxError::EventParsingError(tagname));
            },
            Peeked::Finished => {
                return Err(GpxError::MissingClosingTag(tagname));
            },
        }
    }
}

} // verus!
