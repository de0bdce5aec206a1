//! The email element: the address is combined from its two required
//! attributes; the element itself carries no children.

use vstd::prelude::*;

use vstd::string::StringExecFns;
use crate::errors::{GpxError, GpxResult};
use crate::parser::{
    find_attr, name_is, spec_find_attr, spec_verify_tag, verify_starting_tag, Context, Peeked,
    Token,
};

verus! {

/// What reading the rest of an email element from `pos` yields once the
/// address is known: any child is an error, and the matching closing tag
/// ends the element.
pub open spec fn spec_email_body(t: Seq<Token>, pos: int, addr: Seq<char>) -> Result<
    (Seq<char>, int),
    GpxError,
>
    decreases t.len() - pos,
{
    if pos >= t.len() {
        Err(GpxError::MissingClosingTag("email"))
    } else {
        match t[pos] {
            Token::Open { name, attrs } => Err(GpxError::InvalidChildElement(name, "email")),
            Token::Close { name } => if name@ == "email"@ {
                Ok((addr, pos + 1))
            } else {
                Err(GpxError::InvalidClosingTag(name, "email"))
            },
            Token::Error => Err(GpxError::EventParsingError("email")),
            _ => spec_email_body(t, pos + 1, addr),
        }
    }
}

/// What consuming a whole email element from `pos` yields: both the `id`
/// and the `domain` attribute are required, and the address is the two
/// joined with an `@`.
pub open spec fn spec_email(t: Seq<Token>, pos: int) -> Result<(Seq<char>, int), GpxError> {
    match spec_verify_tag(t, pos, "email") {
        Err(e) => Err(e),
        Ok(pr) => match spec_find_attr(pr.0, "id"@) {
            None => Err(GpxError::InvalidElementLacksAttribute("id", "email")),
            Some(id) => match spec_find_attr(pr.0, "domain"@) {
                None => Err(GpxError::InvalidElementLacksAttribute("domain", "email")),
                Some(dom) => spec_email_body(t, pr.1, id@ + "@"@ + dom@),
            },
        },
    }
}

/// Consumes an email element and combines its address.
pub fn consume<E>(context: &mut Context<E>) -> (r: GpxResult<String>)
    requires
        old(context).wf(),
    ensures
        final(context).same_doc(old(context)),
        final(context).wf(),
        match spec_email(old(context).toks(), old(context).at()) {
            Ok(pr) => r matches Ok(s) && s@ == pr.0 && final(context).at() == pr.1 && old(
                context,
            ).at() < pr.1,
            Err(e) => r matches Err(e2) && e2 == e,
        },
{
    let attributes = match verify_starting_tag(context, "email") {
        Ok(a) => a,
        Err(e) => {
            return Err(e);
        },
    };
    let id = match find_attr(&attributes, "id") {
        Some(v) => v,
        None => {
            return Err(GpxError::InvalidElementLacksAttribute("id", "email"));
        },
    };
    let domain = match find_attr(&attributes, "domain") {
        Some(v) => v,
        None => {
            return Err(GpxError::InvalidElementLacksAttribute("domain", "email"));
        },
    };
    let ghost id_view = id@;
    let ghost dom_view = domain@;
    let mut address = id;
    address.append("@");
    address.append(domain.as_str());
    let ghost addr_view = address@;
    proof {
        assert(addr_view =~= id_view + "@"@ + dom_view);
    }
    loop
        invariant
            context.wf(),
            context.same_doc(old(context)),
            old(context).at() < context.at(),
            address@ == addr_view,
            spec_email_body(context.toks(), context.at(), addr_view) == spec_email(
                old(context).toks(),
                old(context).at(),
            ),
        decreases context.toks().len() - context.at(),
    {
        match context.peek_kind() {
            Peeked::Start { name } => {
                return Err(GpxError::InvalidChildElement(name, "email"));
            },
            Peeked::End { name } => {
                if name_is(&name, "email") {
                    context.advance();
                    return Ok(address);
                }
                return Err(GpxError::InvalidClosingTag(name, "email"));
            },
            Peeked::Chars { content: _ } => {
                context.advance();
            },
            Peeked::Skip => {
                context.advance();
            },
            Peeked::Fault => {
                return Err(GpxError::EventParsingError("email"));
            },
            Peeked::Finished => {
                return Err(GpxError::MissingClosingTag("email"));
            },
        }
    }
}

} // verus!
