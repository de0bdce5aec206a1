//! The person block: an optional name, email and link. The element's tag
//! differs with where it stands (the document author arrives as
//! `author`), so the caller names it.

use vstd::prelude::*;

use crate::errors::{GpxError, GpxResult};
use crate::parser::email::spec_email;
use crate::parser::link::spec_link;
use crate::parser::string::spec_string;
use crate::parser::{email, link, string};
use crate::parser::{name_is, spec_verify_tag, verify_starting_tag, Context, Peeked, Token};
use crate::types::{Person, PersonV};

verus! {

/// What reading the children of a person block from `pos` yields, `acc`
/// holding the fields gathered so far; a repeated child overwrites the
/// earlier value.
pub open spec fn spec_person_body(
    t: Seq<Token>,
    pos: int,
    tag: &'static str,
    acc: PersonV,
) -> Result<(PersonV, int), GpxError>
    decreases t.len() - pos,
{
    if pos >= t.len() {
        Err(GpxError::MissingClosingTag(tag))
    } else {
        match t[pos] {
            Token::Open { name, attrs } => if name@ == "name"@ {
                match spec_string(t, pos, "name", true) {
                    Ok(pr) => if pos < pr.1 <= t.len() {
                        spec_person_body(t, pr.1, tag, PersonV { name: Some(pr.0), ..acc })
                    } else {
                        Err(GpxError::MissingClosingTag(tag))
                    },
                    Err(e) => Err(e),
                }
            } else if name@ == "email"@ {
                match spec_email(t, pos) {
                    Ok(pr) => if pos < pr.1 <= t.len() {
                        spec_person_body(t, pr.1, tag, PersonV { email: Some(pr.0), ..acc })
                    } else {
                        Err(GpxError::MissingClosingTag(tag))
                    },
                    Err(e) => Err(e),
                }
            } else if name@ == "link"@ {
                match spec_link(t, pos) {
                    Ok(pr) => if pos < pr.1 <= t.len() {
                        spec_person_body(t, pr.1, tag, PersonV { link: Some(pr.0), ..acc })
                    } else {
                        Err(GpxError::MissingClosingTag(tag))
                    },
                    Err(e) => Err(e),
                }
            } else {
                Err(GpxError::InvalidChildElement(name, tag))
            },
            Token::Close { name } => if name@ == tag@ {
                Ok((acc, pos + 1))
            } else {
                Err(GpxError::InvalidClosingTag(name, tag))
            },
            Token::Error => Err(GpxError::EventParsingError(tag)),
            _ => spec_person_body(t, pos + 1, tag, acc),
        }
    }
}

/// What consuming a whole person block from `pos` yields.
pub open spec fn spec_person(t: Seq<Token>, pos: int, tag: &'static str) -> Result<
    (PersonV, int),
    GpxError,
> {
    match spec_verify_tag(t, pos, tag) {
        Err(e) => Err(e),
        Ok(pr) => spec_person_body(
            t,
            pr.1,
            tag,
            PersonV { name: None, email: None, link: None },
        ),
    }
}

/// Consumes a person block under the given tag.
pub fn consume<E>(context: &mut Context<E>, tag: &'static str) -> (r: GpxResult<Person>)
    requires
        old(context).wf(),
    ensures
        final(context).same_doc(old(context)),
        final(context).wf(),
        match spec_person(old(context).toks(), old(context).at(), tag) {
            Ok(pr) => r matches Ok(p) && p@ == pr.0 && final(context).at() == pr.1 && old(
                context,
            ).at() < pr.1,
            Err(e) => r matches Err(e2) && e2 == e,
        },
{
    match verify_starting_tag(context, tag) {
        Ok(_) => (),
        Err(e) => {
            return Err(e);
        },
    }
    let mut person = Person { name: None, email: None, link: None };
    loop
        invariant
            context.wf(),
            context.same_doc(old(context)),
            old(context).at() < context.at(),
            spec_person_body(context.toks(), context.at(), tag, person@) == spec_person(
                old(context).toks(),
                old(context).at(),
                tag,
            ),
        decreases context.toks().len() - context.at(),
    {
        match context.peek_kind() {
            Peeked::Start { name } => {
                if name_is(&name, "name") {
                    let s = match string::consume(context, "name", true) {
                        Ok(s) => s,
                        Err(e) => {
                            return Err(e);
                        },
                    };
                    person.name = Some(s);
                } else if name_is(&name, "email") {
                    let s = match email::consume(context) {
                        Ok(s) => s,
                        Err(e) => {
                            return Err(e);
                        },
                    };
                    person.email = Some(s);
                } else if name_is(&name, "link") {
                    let l = match link::consume(context) {
                        Ok(l) => l,
                        Err(e) => {
                            return Err(e);
                        },
                    };
                    person.link = Some(l);
                } else {
                    return Err(GpxError::InvalidChildElement(name, tag));
                }
            },
            Peeked::End { name } => {
                if name_is(&name, tag) {
                    context.advance();
                    return Ok(person);
                }
                return Err(GpxError::InvalidClosingTag(name, tag));
            },
            Peeked::Chars { content: _ } => {
                context.advance();
            },
            Peeked::Skip => {
                context.advance();
            },
            Peeked::Fault => {
                return Err(GpxError::EventParsingError(tag));
            },
            Peeked::Finished => {
                return Err(GpxError::MissingClosingTag(tag));
            },
        }
    }
}

} // verus!
