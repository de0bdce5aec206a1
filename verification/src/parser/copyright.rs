//! The copyright block: an optional author attribute, then optional
//! `year` and `license` children in any order.

use vstd::prelude::*;

use crate::errors::{GpxError, GpxResult};
use crate::numbers::{parse_i32, spec_i32};
use crate::parser::string;
use crate::parser::string::spec_string;
use crate::parser::{
    find_attr, name_is, spec_find_attr, spec_verify_tag, verify_starting_tag, Attribute, Context,
    Peeked, Token,
};
use crate::types::{CopyrightV, GpxCopyright};

verus! {

/// What reading the children of a copyright block from `pos` yields,
/// `acc` holding the fields gathered so far. A repeated child overwrites
/// the earlier value; a year that does not read as a number is dropped.
pub open spec fn spec_copyright_body(t: Seq<Token>, pos: int, acc: CopyrightV) -> Result<
    (CopyrightV, int),
    GpxError,
>
    decreases t.len() - pos,
{
    if pos >= t.len() {
        Err(GpxError::MissingClosingTag("copyright"))
    } else {
        match t[pos] {
            Token::Open { name, attrs } => if name@ == "license"@ {
                match spec_string(t, pos, "license", false) {
                    Ok(pr) => if pos < pr.1 <= t.len() {
                        spec_copyright_body(
                            t,
                            pr.1,
                            CopyrightV { license: Some(pr.0), ..acc },
                        )
                    } else {
                        Err(GpxError::MissingClosingTag("copyright"))
                    },
                    Err(e) => Err(e),
                }
            } else if name@ == "year"@ {
                match spec_string(t, pos, "year", false) {
                    Ok(pr) => if pos < pr.1 <= t.len() {
                        spec_copyright_body(t, pr.1, CopyrightV { year: spec_i32(pr.0), ..acc })
                    } else {
                        Err(GpxError::MissingClosingTag("copyright"))
                    },
                    Err(e) => Err(e),
                }
            } else {
                Err(GpxError::InvalidChildElement(name, "copyright"))
            },
            Token::Close { name } => if name@ == "copyright"@ {
                Ok((acc, pos + 1))
            } else {
                Err(GpxError::InvalidClosingTag(name, "copyright"))
            },
            Token::Error => Err(GpxError::EventParsingError("copyright")),
            _ => spec_copyright_body(t, pos + 1, acc),
        }
    }
}

/// What consuming a whole copyright block from `pos` yields.
pub open spec fn spec_copyright(t: Seq<Token>, pos: int) -> Result<(CopyrightV, int), GpxError> {
    match spec_verify_tag(t, pos, "copyright") {
        Err(e) => Err(e),
        Ok(pr) => spec_copyright_body(
            t,
            pr.1,
            CopyrightV {
                author: spec_find_attr(pr.0, "author"@).deep_view(),
                year: None,
                license: None,
            },
        ),
    }
}

/// Consumes a copyright block; when it returns, the stream stands just
/// after the block's closing tag.
pub fn consume<E>(context: &mut Context<E>) -> (r: GpxResult<GpxCopyright>)
    requires
        old(context).wf(),
    ensures
        final(context).same_doc(old(context)),
        final(context).wf(),
        match spec_copyright(old(context).toks(), old(context).at()) {
            Ok(pr) => r matches Ok(c) && c@ == pr.0 && final(context).at() == pr.1 && old(
                context,
            ).at() < pr.1,
            Err(e) => r matches Err(e2) && e2 == e,
        },
{
    let attributes = match verify_starting_tag(context, "copyright") {
        Ok(a) => a,
        Err(e) => {
            return Err(e);
        },
    };
    let mut copyright = GpxCopyright {
        author: find_attr(&attributes, "author"),
        year: None,
        license: None,
    };
    loop
        invariant
            context.wf(),
            context.same_doc(old(context)),
            old(context).at() < context.at(),
            spec_copyright_body(context.toks(), context.at(), copyright@) == spec_copyright(
                old(context).toks(),
                old(context).at(),
            ),
        decreases context.toks().len() - context.at(),
    {
        match context.peek_kind() {
            Peeked::Start { name } => {
                if name_is(&name, "license") {
                    let s = match string::consume(context, "license", false) {
                        Ok(s) => s,
                        Err(e) => {
                            return Err(e);
                        },
                    };
                    copyright.license = Some(s);
                } else if name_is(&name, "year") {
                    let s = match string::consume(context, "year", false) {
                        Ok(s) => s,
                        Err(e) => {
                            return Err(e);
                        },
                    };
                    copyright.year = parse_i32(s.as_str());
                } else {
                    return Err(GpxError::InvalidChildElement(name, "copyright"));
                }
            },
            Peeked::End { name } => {
                if name_is(&name, "copyright") {
                    context.advance();
                    return Ok(copyright);
                }
                return Err(GpxError::InvalidClosingTag(name, "copyright"));
            },
            Peeked::Chars { content: _ } => {
                context.advance();
            },
            Peeked::Skip => {
                context.advance();
            },
            Peeked::Fault => {
                return Err(GpxError::EventParsingError("copyright"));
            },
            Peeked::Finished => {
                return Err(GpxError::MissingClosingTag("copyright"));
            },
        }
    }
}

} // verus!
