//! The document root: the version attribute, then metadata, tracks and
//! routes.

use vstd::prelude::*;

use crate::errors::{GpxError, GpxResult};
use crate::parser::extensions::WaypointExtensions;
use crate::parser::metadata::spec_metadata;
use crate::parser::route::spec_route;
use crate::parser::track::spec_track;
use crate::parser::{metadata, route, track};
use crate::parser::{
    find_attr, name_is, spec_find_attr, spec_verify_tag, verify_starting_tag, wrap_ext, Attribute,
    Context, ExtParse, Peeked, Token,
};
use crate::types::{Gpx, GpxV, GpxVersion};

verus! {

/// The version the root element's attributes declare: the two supported
/// spellings, and `Unknown` for anything else or nothing.
pub open spec fn spec_version_of(attrs: Seq<Attribute>) -> GpxVersion {
    match spec_find_attr(attrs, "version"@) {
        Some(s) => if s@ == "1.0"@ {
            GpxVersion::Gpx10
        } else if s@ == "1.1"@ {
            GpxVersion::Gpx11
        } else {
            GpxVersion::Unknown
        },
        None => GpxVersion::Unknown,
    }
}

/// What reading the children of the root from `pos` yields, `acc` holding
/// what is gathered so far. Tracks and routes accumulate in document
/// order; a repeated metadata block overwrites the earlier one.
pub open spec fn spec_gpx_body(t: Seq<Token>, pos: int, acc: GpxV) -> ExtParse<GpxV>
    decreases t.len() - pos,
{
    if pos >= t.len() {
        ExtParse::Bad { e: GpxError::MissingClosingTag("gpx"), ext: false }
    } else {
        match t[pos] {
            Token::Open { name, attrs } => if name@ == "metadata"@ {
                match spec_metadata(t, pos) {
                    Ok(pr) => if pos < pr.1 <= t.len() {
                        spec_gpx_body(t, pr.1, GpxV { metadata: Some(pr.0), ..acc })
                    } else {
                        ExtParse::Bad { e: GpxError::MissingClosingTag("gpx"), ext: false }
                    },
                    Err(e) => ExtParse::Bad { e, ext: false },
                }
            } else if name@ == "trk"@ {
                match spec_track(t, pos) {
                    ExtParse::Good { v, next, ext } => if pos < next <= t.len() {
                        wrap_ext(
                            spec_gpx_body(t, next, GpxV { tracks: acc.tracks.push(v), ..acc }),
                            ext,
                        )
                    } else {
                        ExtParse::Bad { e: GpxError::MissingClosingTag("gpx"), ext }
                    },
                    ExtParse::Bad { e, ext } => ExtParse::Bad { e, ext },
                }
            } else if name@ == "rte"@ {
                match spec_route(t, pos) {
                    ExtParse::Good { v, next, ext } => if pos < next <= t.len() {
                        wrap_ext(
                            spec_gpx_body(t, next, GpxV { routes: acc.routes.push(v), ..acc }),
                            ext,
                        )
                    } else {
                        ExtParse::Bad { e: GpxError::MissingClosingTag("gpx"), ext }
                    },
                    ExtParse::Bad { e, ext } => ExtParse::Bad { e, ext },
                }
            } else {
                ExtParse::Bad { e: GpxError::InvalidChildElement(name, "gpx"), ext: false }
            },
            Token::Close { name } => if name@ == "gpx"@ {
                ExtParse::Good { v: acc, next: pos + 1, ext: false }
            } else {
                ExtParse::Bad { e: GpxError::InvalidClosingTag(name, "gpx"), ext: false }
            },
            Token::Error => ExtParse::Bad { e: GpxError::EventParsingError("gpx"), ext: false },
            _ => spec_gpx_body(t, pos + 1, acc),
        }
    }
}

/// What consuming a whole document from `pos` yields: the root element,
/// its version, then its children until the root's closing tag.
pub open spec fn spec_gpx(t: Seq<Token>, pos: int) -> ExtParse<GpxV> {
    match spec_verify_tag(t, pos, "gpx") {
        Err(e) => ExtParse::Bad { e, ext: false },
        Ok(pr) => spec_gpx_body(
            t,
            pr.1,
            GpxV {
                version: spec_version_of(pr.0),
                metadata: None,
                tracks: Seq::empty(),
                routes: Seq::empty(),
            },
        ),
    }
}

/// Consumes a whole document; when it returns, the stream stands just
/// after the root's closing tag, and anything after it is never read.
pub fn consume<E: WaypointExtensions>(context: &mut Context<E>) -> (r: GpxResult<Gpx<E>>)
    requires
        old(context).wf(),
    ensures
        final(context).same_doc(old(context)),
        final(context).wf(),
        match spec_gpx(old(context).toks(), old(context).at()) {
            ExtParse::Good { v, next, ext } => {
                &&& (r matches Ok(g) ==> g@ == v && final(context).at() == next && old(
                    context,
                ).at() < next)
                &&& ((!ext || E::declines()) ==> r is Ok)
            },
            ExtParse::Bad { e, ext } => {
                &&& r is Err
                &&& ((!ext || E::declines()) ==> (r matches Err(e2) && e2 == e))
            },
        },
{
    let attributes = match verify_starting_tag(context, "gpx") {
        Ok(a) => a,
        Err(e) => {
            return Err(e);
        },
    };
    let version = match find_attr(&attributes, "version") {
        Some(s) => {
            if name_is(&s, "1.0") {
                GpxVersion::Gpx10
            } else if name_is(&s, "1.1") {
                GpxVersion::Gpx11
            } else {
                GpxVersion::Unknown
            }
        },
        None => GpxVersion::Unknown,
    };
    let mut document: Gpx<E> = Gpx {
        version,
        metadata: None,
        tracks: Vec::new(),
        routes: Vec::new(),
    };
    let ghost mut seen_ext: bool = false;
    proof {
        assert(document@.tracks =~= Seq::<crate::types::TrackV>::empty());
        assert(document@.routes =~= Seq::<crate::types::RouteV>::empty());
    }
    loop
        invariant
            context.wf(),
            context.same_doc(old(context)),
            old(context).at() < context.at(),
            wrap_ext(spec_gpx_body(context.toks(), context.at(), document@), seen_ext)
                == spec_gpx(old(context).toks(), old(context).at()),
        decreases context.toks().len() - context.at(),
    {
        match context.peek_kind() {
            Peeked::Start { name } => {
                if name_is(&name, "metadata") {
                    let m = match metadata::consume(context) {
                        Ok(m) => m,
                        Err(e) => {
                            return Err(e);
                        },
                    };
                    document.metadata = Some(m);
                } else if name_is(&name, "trk") {
                    let ghost tspec = spec_track(context.toks(), context.at());
                    let k = match track::consume(context) {
                        Ok(k) => k,
                        Err(e) => {
                            return Err(e);
                        },
                    };
                    let ghost tracks_before = document.tracks.deep_view();
                    document.tracks.push(k);
                    proof {
                        assert(document.tracks.deep_view() =~= tracks_before.push(k@));
                        seen_ext = seen_ext || (match tspec {
                            ExtParse::Good { ext, .. } => ext,
                            ExtParse::Bad { ext, .. } => ext,
                        });
                    }
                } else if name_is(&name, "rte") {
                    let ghost rspec = spec_route(context.toks(), context.at());
                    let rt = match route::consume(context) {
                        Ok(rt) => rt,
                        Err(e) => {
                            return Err(e);
                        },
                    };
                    let ghost routes_before = document.routes.deep_view();
                    document.routes.push(rt);
                    proof {
                        assert(document.routes.deep_view() =~= routes_before.push(rt@));
                        seen_ext = seen_ext || (match rspec {
                            ExtParse::Good { ext, .. } => ext,
                            ExtParse::Bad { ext, .. } => ext,
                        });
                    }
                } else {
                    return Err(GpxError::InvalidChildElement(name, "gpx"));
                }
            },
            Peeked::End { name } => {
                if name_is(&name, "gpx") {
                    context.advance();
                    return Ok(document);
                }
                return Err(GpxError::InvalidClosingTag(name, "gpx"));
            },
            Peeked::Chars { content: _ } => {
                context.advance();
            },
            Peeked::Skip => {
                context.advance();
            },
            Peeked::Fault => {
                return Err(GpxError::EventParsingError("gpx"));
            },
            Peeked::Finished => {
                return Err(GpxError::MissingClosingTag("gpx"));
            },
        }
    }
}

} // verus!
