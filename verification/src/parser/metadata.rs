//! The metadata block: descriptive fields, the author, the copyright,
//! links, the document timestamp, keywords and bounds.

use vstd::prelude::*;

use crate::errors::{GpxError, GpxResult};
use crate::parser::bounds::spec_bounds;
use crate::parser::copyright::spec_copyright;
use crate::parser::link::spec_link;
use crate::parser::person::spec_person;
use crate::parser::string::spec_string;
use crate::parser::time::spec_time;
use crate::parser::{bounds, copyright, link, person, string, time};
use crate::parser::{name_is, spec_verify_tag, verify_starting_tag, Context, Peeked, Token};
use crate::types::{Metadata, MetadataV};

verus! {

/// What reading the children of a metadata block from `pos` yields, `acc`
/// holding the fields gathered so far. A repeated single-valued child
/// overwrites the earlier value; links accumulate in document order.
pub open spec fn spec_metadata_body(t: Seq<Token>, pos: int, acc: MetadataV) -> Result<
    (MetadataV, int),
    GpxError,
>
    decreases t.len() - pos,
{
    if pos >= t.len() {
        Err(GpxError::MissingClosingTag("metadata"))
    } else {
        match t[pos] {
            Token::Open { name, attrs } => if name@ == "name"@ {
                match spec_string(t, pos, "name", true) {
                    Ok(pr) => if pos < pr.1 <= t.len() {
                        spec_metadata_body(t, pr.1, MetadataV { name: Some(pr.0), ..acc })
                    } else {
                        Err(GpxError::MissingClosingTag("metadata"))
                    },
                    Err(e) => Err(e),
                }
            } else if name@ == "desc"@ {
                match spec_string(t, pos, "desc", true) {
                    Ok(pr) => if pos < pr.1 <= t.len() {
                        spec_metadata_body(t, pr.1, MetadataV { description: Some(pr.0), ..acc })
                    } else {
                        Err(GpxError::MissingClosingTag("metadata"))
                    },
                    Err(e) => Err(e),
                }
            } else if name@ == "author"@ {
                match spec_person(t, pos, "author") {
                    Ok(pr) => if pos < pr.1 <= t.len() {
                        spec_metadata_body(t, pr.1, MetadataV { author: Some(pr.0), ..acc })
                    } else {
                        Err(GpxError::MissingClosingTag("metadata"))
                    },
                    Err(e) => Err(e),
                }
            } else if name@ == "copyright"@ {
                match spec_copyright(t, pos) {
                    Ok(pr) => if pos < pr.1 <= t.len() {
                        spec_metadata_body(t, pr.1, MetadataV { copyright: Some(pr.0), ..acc })
                    } else {
                        Err(GpxError::MissingClosingTag("metadata"))
                    },
                    Err(e) => Err(e),
                }
            } else if name@ == "link"@ {
                match spec_link(t, pos) {
                    Ok(pr) => if pos < pr.1 <= t.len() {
                        spec_metadata_body(
                            t,
                            pr.1,
                            MetadataV { links: acc.links.push(pr.0), ..acc },
                        )
                    } else {
                        Err(GpxError::MissingClosingTag("metadata"))
                    },
                    Err(e) => Err(e),
                }
            } else if name@ == "time"@ {
                match spec_time(t, pos) {
                    Ok(pr) => if pos < pr.1 <= t.len() {
                        spec_metadata_body(t, pr.1, MetadataV { time: Some(pr.0), ..acc })
                    } else {
                        Err(GpxError::MissingClosingTag("metadata"))
                    },
                    Err(e) => Err(e),
                }
            } else if name@ == "keywords"@ {
                match spec_string(t, pos, "keywords", true) {
                    Ok(pr) => if pos < pr.1 <= t.len() {
                        spec_metadata_body(t, pr.1, MetadataV { keywords: Some(pr.0), ..acc })
                    } else {
                        Err(GpxError::MissingClosingTag("metadata"))
                    },
                    Err(e) => Err(e),
                }
            } else if name@ == "bounds"@ {
                match spec_bounds(t, pos) {
                    Ok(pr) => if pos < pr.1 <= t.len() {
                        spec_metadata_body(t, pr.1, MetadataV { bounds: Some(pr.0), ..acc })
                    } else {
                        Err(GpxError::MissingClosingTag("metadata"))
                    },
                    Err(e) => Err(e),
                }
            } else {
                Err(GpxError::InvalidChildElement(name, "metadata"))
            },
            Token::Close { name } => if name@ == "metadata"@ {
                Ok((acc, pos + 1))
            } else {
                Err(GpxError::InvalidClosingTag(name, "metadata"))
            },
            Token::Error => Err(GpxError::EventParsingError("metadata")),
            _ => spec_metadata_body(t, pos + 1, acc),
        }
    }
}

/// The fields of a metadata block before any child is seen.
pub open spec fn spec_metadata_empty() -> MetadataV {
    MetadataV {
        name: None,
        description: None,
        author: None,
        copyright: None,
        links: Seq::empty(),
        time: None,
        keywords: None,
        bounds: None,
    }
}

/// What consuming a whole metadata block from `pos` yields.
pub open spec fn spec_metadata(t: Seq<Token>, pos: int) -> Result<(MetadataV, int), GpxError> {
    match spec_verify_tag(t, pos, "metadata") {
        Err(e) => Err(e),
        Ok(pr) => spec_metadata_body(t, pr.1, spec_metadata_empty()),
    }
}

/// Consumes a metadata block.
pub fn consume<E>(context: &mut Context<E>) -> (r: GpxResult<Metadata>)
    requires
        old(context).wf(),
    ensures
        final(context).same_doc(old(context)),
        final(context).wf(),
        match spec_metadata(old(context).toks(), old(context).at()) {
            Ok(pr) => r matches Ok(m) && m@ == pr.0 && final(context).at() == pr.1 && old(
                context,
            ).at() < pr.1,
            Err(e) => r matches Err(e2) && e2 == e,
        },
{
    match verify_starting_tag(context, "metadata") {
        Ok(_) => (),
        Err(e) => {
            return Err(e);
        },
    }
    let mut metadata = Metadata {
        name: None,
        description: None,
        author: None,
        copyright: None,
        links: Vec::new(),
        time: None,
        keywords: None,
        bounds: None,
    };
    proof {
        assert(metadata@.links =~= spec_metadata_empty().links);
    }
    loop
        invariant
            context.wf(),
            context.same_doc(old(context)),
            old(context).at() < context.at(),
            spec_metadata_body(context.toks(), context.at(), metadata@) == spec_metadata(
                old(context).toks(),
                old(context).at(),
            ),
        decreases context.toks().len() - context.at(),
    {
        match context.peek_kind() {
            Peeked::Start { name } => {
                if name_is(&name, "name") {
                    let s = match string::consume(context, "name", true) {
                        Ok(s) => s,
                        Err(e) => {
                            return Err(e);
                        },
                    };
                    metadata.name = Some(s);
                } else if name_is(&name, "desc") {
                    let s = match string::consume(context, "desc", true) {
                        Ok(s) => s,
                        Err(e) => {
                            return Err(e);
                        },
                    };
                    metadata.description = Some(s);
                } else if name_is(&name, "author") {
                    let p = match person::consume(context, "author") {
                        Ok(p) => p,
                        Err(e) => {
                            return Err(e);
                        },
                    };
                    metadata.author = Some(p);
                } else if name_is(&name, "copyright") {
                    let c = match copyright::consume(context) {
                        Ok(c) => c,
                        Err(e) => {
                            return Err(e);
                        },
                    };
                    metadata.copyright = Some(c);
                } else if name_is(&name, "link") {
                    let l = match link::consume(context) {
                        Ok(l) => l,
                        Err(e) => {
                            return Err(e);
                        },
                    };
                    let ghost links_before = metadata.links.deep_view();
                    metadata.links.push(l);
                    proof {
                        assert(metadata.links.deep_view() =~= links_before.push(l@));
                    }
                } else if name_is(&name, "time") {
                    let v = match time::consume(context) {
                        Ok(v) => v,
                        Err(e) => {
                            return Err(e);
                        },
                    };
                    metadata.time = Some(v);
                } else if name_is(&name, "keywords") {
                    let s = match string::consume(context, "keywords", true) {
                        Ok(s) => s,
                        Err(e) => {
                            return Err(e);
                        },
                    };
                    metadata.keywords = Some(s);
                } else if name_is(&name, "bounds") {
                    let b = match bounds::consume(context) {
                        Ok(b) => b,
                        Err(e) => {
                            return Err(e);
                        },
                    };
                    metadata.bounds = Some(b);
                } else {
                    return Err(GpxError::InvalidChildElement(name, "metadata"));
                }
            },
            Peeked::End { name } => {
                if name_is(&name, "metadata") {
                    context.advance();
                    return Ok(metadata);
                }
                return Err(GpxError::InvalidClosingTag(name, "metadata"));
            },
            Peeked::Chars { content: _ } => {
                context.advance();
            },
            Peeked::Skip => {
                context.advance();
            },
            Peeked::Fault => {
                return Err(GpxError::EventParsingError("metadata"));
            },
            Peeked::Finished => {
                return Err(GpxError::MissingClosingTag("metadata"));
            },
        }
    }
}

} // verus!
