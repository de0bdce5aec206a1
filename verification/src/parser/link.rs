//! The link element: a required `href` attribute, then optional caption
//! and media-type children.

use vstd::prelude::*;

use crate::errors::{GpxError, GpxResult};
use crate::parser::string;
use crate::parser::string::spec_string;
use crate::parser::{
    find_attr, name_is, spec_find_attr, spec_verify_tag, verify_starting_tag, Context, Peeked,
    Token,
};
use crate::types::{Link, LinkV};

verus! {

/// What reading the children of a link from `pos` yields, `acc` holding
/// the fields gathered so far; a repeated child overwrites the earlier
/// value.
pub open spec fn spec_link_body(t: Seq<Token>, pos: int, acc: LinkV) -> Result<
    (LinkV, int),
    GpxError,
>
    decreases t.len() - pos,
{
    if pos >= t.len() {
        Err(GpxError::MissingClosingTag("link"))
    } else {
        match t[pos] {
            Token::Open { name, attrs } => if name@ == "text"@ {
                match spec_string(t, pos, "text", true) {
                    Ok(pr) => if pos < pr.1 <= t.len() {
                        spec_link_body(t, pr.1, LinkV { text: Some(pr.0), ..acc })
                    } else {
                        Err(GpxError::MissingClosingTag("link"))
                    },
                    Err(e) => Err(e),
                }
            } else if name@ == "type"@ {
                match spec_string(t, pos, "type", true) {
                    Ok(pr) => if pos < pr.1 <= t.len() {
                        spec_link_body(t, pr.1, LinkV { type_: Some(pr.0), ..acc })
                    } else {
                        Err(GpxError::MissingClosingTag("link"))
                    },
                    Err(e) => Err(e),
                }
            } else {
                Err(GpxError::InvalidChildElement(name, "link"))
            },
            Token::Close { name } => if name@ == "link"@ {
                Ok((acc, pos + 1))
            } else {
                Err(GpxError::InvalidClosingTag(name, "link"))
            },
            Token::Error => Err(GpxError::EventParsingError("link")),
            _ => spec_link_body(t, pos + 1, acc),
        }
    }
}

/// What consuming a whole link from `pos` yields: the element must carry
/// an `href` attribute.
pub open spec fn spec_link(t: Seq<Token>, pos: int) -> Result<(LinkV, int), GpxError> {
    match spec_verify_tag(t, pos, "link") {
        Err(e) => Err(e),
        Ok(pr) => match spec_find_attr(pr.0, "href"@) {
            Some(h) => spec_link_body(t, pr.1, LinkV { href: h@, text: None, type_: None }),
            None => Err(GpxError::InvalidElementLacksAttribute("href", "link")),
        },
    }
}

/// Consumes a link element; when it returns, the stream stands just after
/// the element's closing tag.
pub fn consume<E>(context: &mut Context<E>) -> (r: GpxResult<Link>)
    requires
        old(context).wf(),
    ensures
        final(context).same_doc(old(context)),
        final(context).wf(),
        match spec_link(old(context).toks(), old(context).at()) {
            Ok(pr) => r matches Ok(l) && l@ == pr.0 && final(context).at() == pr.1 && old(
                context,
            ).at() < pr.1,
            Err(e) => r matches Err(e2) && e2 == e,
        },
{
    let attributes = match verify_starting_tag(context, "link") {
        Ok(a) => a,
        Err(e) => {
            return Err(e);
        },
    };
    let href = match find_attr(&attributes, "href") {
        Some(h) => h,
        None => {
            return Err(GpxError::InvalidElementLacksAttribute("href", "link"));
        },
    };
    let mut link = Link { href, text: None, type_: None };
    loop
        invariant
            context.wf(),
            context.same_doc(old(context)),
            old(context).at() < context.at(),
            spec_link_body(context.toks(), context.at(), link@) == spec_link(
                old(context).toks(),
                old(context).at(),
            ),
        decreases context.toks().len() - context.at(),
    {
        match context.peek_kind() {
            Peeked::Start { name } => {
                if name_is(&name, "text") {
                    let s = match string::consume(context, "text", true) {
                        Ok(s) => s,
                        Err(e) => {
                            return Err(e);
                        },
                    };
                    link.text = Some(s);
                } else if name_is(&name, "type") {
                    let s = match string::consume(context, "type", true) {
                        Ok(s) => s,
                        Err(e) => {
                            return Err(e);
                        },
                    };
                    link.type_ = Some(s);
                } else {
                    return Err(GpxError::InvalidChildElement(name, "link"));
                }
            },
            Peeked::End { name } => {
                if name_is(&name, "link") {
                    context.advance();
                    return Ok(link);
                }
                return Err(GpxError::InvalidClosingTag(name, "link"));
            },
            Peeked::Chars { content: _ } => {
                context.advance();
            },
            Peeked::Skip => {
                context.advance();
            },
            Peeked::Fault => {
                return Err(GpxError::EventParsingError("link"));
            },
            Peeked::Finished => {
                return Err(GpxError::MissingClosingTag("link"));
            },
        }
    }
}

} // verus!
