//! The track: descriptive fields, links, an optional number, then its
//! segments in document order.

use vstd::prelude::*;

use crate::errors::{GpxError, GpxResult};
use crate::numbers::{parse_u32, spec_u32};
use crate::parser::extensions::WaypointExtensions;
use crate::parser::link::spec_link;
use crate::parser::string::spec_string;
use crate::parser::tracksegment::spec_trkseg;
use crate::parser::{link, string, tracksegment};
use crate::parser::{
    name_is, spec_verify_tag, verify_starting_tag, wrap_ext, Context, ExtParse, Peeked, Token,
};
use crate::types::{Track, TrackV};

verus! {

/// The fields of a track before any child is seen.
pub open spec fn spec_track_empty() -> TrackV {
    TrackV {
        name: None,
        comment: None,
        description: None,
        source: None,
        links: Seq::empty(),
        number: None,
        type_: None,
        segments: Seq::empty(),
    }
}

/// What reading the children of a track from `pos` yields, `acc` holding
/// the fields gathered so far. A repeated single-valued child overwrites
/// the earlier value; links and segments accumulate in document order; a
/// number that does not read as one is dropped.
pub open spec fn spec_track_body(t: Seq<Token>, pos: int, acc: TrackV) -> ExtParse<TrackV>
    decreases t.len() - pos,
{
    if pos >= t.len() {
        ExtParse::Bad { e: GpxError::MissingClosingTag("trk"), ext: false }
    } else {
        match t[pos] {
            Token::Open { name, attrs } => if name@ == "name"@ {
                match spec_string(t, pos, "name", true) {
                    Ok(pr) => if pos < pr.1 <= t.len() {
                        spec_track_body(t, pr.1, TrackV { name: Some(pr.0), ..acc })
                    } else {
                        ExtParse::Bad { e: GpxError::MissingClosingTag("trk"), ext: false }
                    },
                    Err(e) => ExtParse::Bad { e, ext: false },
                }
            } else if name@ == "cmt"@ {
                match spec_string(t, pos, "cmt", true) {
                    Ok(pr) => if pos < pr.1 <= t.len() {
                        spec_track_body(t, pr.1, TrackV { comment: Some(pr.0), ..acc })
                    } else {
                        ExtParse::Bad { e: GpxError::MissingClosingTag("trk"), ext: false }
                    },
                    Err(e) => ExtParse::Bad { e, ext: false },
                }
            } else if name@ == "desc"@ {
                match spec_string(t, pos, "desc", true) {
                    Ok(pr) => if pos < pr.1 <= t.len() {
                        spec_track_body(t, pr.1, TrackV { description: Some(pr.0), ..acc })
                    } else {
                        ExtParse::Bad { e: GpxError::MissingClosingTag("trk"), ext: false }
                    },
                    Err(e) => ExtParse::Bad { e, ext: false },
                }
            } else if name@ == "src"@ {
                match spec_string(t, pos, "src", true) {
                    Ok(pr) => if pos < pr.1 <= t.len() {
                        spec_track_body(t, pr.1, TrackV { source: Some(pr.0), ..acc })
                    } else {
                        ExtParse::Bad { e: GpxError::MissingClosingTag("trk"), ext: false }
                    },
                    Err(e) => ExtParse::Bad { e, ext: false },
                }
            } else if name@ == "link"@ {
                match spec_link(t, pos) {
                    Ok(pr) => if pos < pr.1 <= t.len() {
                        spec_track_body(t, pr.1, TrackV { links: acc.links.push(pr.0), ..acc })
                    } else {
                        ExtParse::Bad { e: GpxError::MissingClosingTag("trk"), ext: false }
                    },
                    Err(e) => ExtParse::Bad { e, ext: false },
                }
            } else if name@ == "number"@ {
                match spec_string(t, pos, "number", true) {
                    Ok(pr) => if pos < pr.1 <= t.len() {
                        spec_track_body(t, pr.1, TrackV { number: spec_u32(pr.0), ..acc })
                    } else {
                        ExtParse::Bad { e: GpxError::MissingClosingTag("trk"), ext: false }
                    },
                    Err(e) => ExtParse::Bad { e, ext: false },
                }
            } else if name@ == "type"@ {
                match spec_string(t, pos, "type", true) {
                    Ok(pr) => if pos < pr.1 <= t.len() {
                        spec_track_body(t, pr.1, TrackV { type_: Some(pr.0), ..acc })
                    } else {
                        ExtParse::Bad { e: GpxError::MissingClosingTag("trk"), ext: false }
                    },
                    Err(e) => ExtParse::Bad { e, ext: false },
                }
            } else if name@ == "trkseg"@ {
                match spec_trkseg(t, pos) {
                    ExtParse::Good { v, next, ext } => if pos < next <= t.len() {
                        wrap_ext(
                            spec_track_body(
                                t,
                                next,
                                TrackV { segments: acc.segments.push(v), ..acc },
                            ),
                            ext,
                        )
                    } else {
                        ExtParse::Bad { e: GpxError::MissingClosingTag("trk"), ext }
                    },
                    ExtParse::Bad { e, ext } => ExtParse::Bad { e, ext },
                }
            } else {
                ExtParse::Bad { e: GpxError::InvalidChildElement(name, "trk"), ext: false }
            },
            Token::Close { name } => if name@ == "trk"@ {
                ExtParse::Good { v: acc, next: pos + 1, ext: false }
            } else {
                ExtParse::Bad { e: GpxError::InvalidClosingTag(name, "trk"), ext: false }
            },
            Token::Error => ExtParse::Bad { e: GpxError::EventParsingError("trk"), ext: false },
            _ => spec_track_body(t, pos + 1, acc),
        }
    }
}

/// What consuming a whole track from `pos` yields.
pub open spec fn spec_track(t: Seq<Token>, pos: int) -> ExtParse<TrackV> {
    match spec_verify_tag(t, pos, "trk") {
        Err(e) => ExtParse::Bad { e, ext: false },
        Ok(pr) => spec_track_body(t, pr.1, spec_track_empty()),
    }
}

/// Consumes a track; when it returns, the stream stands just after the
/// track's closing tag.
pub fn consume<E: WaypointExtensions>(context: &mut Context<E>) -> (r: GpxResult<Track<E>>)
    requires
        old(context).wf(),
    ensures
        final(context).same_doc(old(context)),
        final(context).wf(),
        match spec_track(old(context).toks(), old(context).at()) {
            ExtParse::Good { v, next, ext } => {
                &&& (r matches Ok(k) ==> k@ == v && final(context).at() == next && old(
                    context,
                ).at() < next)
                &&& ((!ext || E::declines()) ==> r is Ok)
            },
            ExtParse::Bad { e, ext } => {
                &&& r is Err
                &&& ((!ext || E::declines()) ==> (r matches Err(e2) && e2 == e))
            },
        },
{
    match verify_starting_tag(context, "trk") {
        Ok(_) => (),
        Err(e) => {
            return Err(e);
        },
    }
    let mut track: Track<E> = Track {
        name: None,
        comment: None,
        description: None,
        source: None,
        links: Vec::new(),
        number: None,
        type_: None,
        segments: Vec::new(),
    };
    let ghost mut seen_ext: bool = false;
    proof {
        assert(track@.links =~= spec_track_empty().links);
        assert(track@.segments =~= spec_track_empty().segments);
    }
    loop
        invariant
            context.wf(),
            context.same_doc(old(context)),
            old(context).at() < context.at(),
            wrap_ext(spec_track_body(context.toks(), context.at(), track@), seen_ext)
                == spec_track(old(context).toks(), old(context).at()),
        decreases context.toks().len() - context.at(),
    {
        match context.peek_kind() {
            Peeked::Start { name } => {
                if name_is(&name, "name") {
                    let s = match string::consume(context, "name", true) {
                        Ok(s) => s,
                        Err(e) => {
                            return Err(e);
                        },
                    };
                    track.name = Some(s);
                } else if name_is(&name, "cmt") {
                    let s = match string::consume(context, "cmt", true) {
                        Ok(s) => s,
                        Err(e) => {
                            return Err(e);
                        },
                    };
                    track.comment = Some(s);
                } else if name_is(&name, "desc") {
                    let s = match string::consume(context, "desc", true) {
                        Ok(s) => s,
                        Err(e) => {
                            return Err(e);
                        },
                    };
                    track.description = Some(s);
                } else if name_is(&name, "src") {
                    let s = match string::consume(context, "src", true) {
                        Ok(s) => s,
                        Err(e) => {
                            return Err(e);
                        },
                    };
                    track.source = Some(s);
                } else if name_is(&name, "link") {
                    let l = match link::consume(context) {
                        Ok(l) => l,
                        Err(e) => {
                            return Err(e);
                        },
                    };
                    let ghost links_before = track.links.deep_view();
                    track.links.push(l);
                    proof {
                        assert(track.links.deep_view() =~= links_before.push(l@));
                    }
                } else if name_is(&name, "number") {
                    let s = match string::consume(context, "number", true) {
                        Ok(s) => s,
                        Err(e) => {
                            return Err(e);
                        },
                    };
                    track.number = parse_u32(s.as_str());
                } else if name_is(&name, "type") {
                    let s = match string::consume(context, "type", true) {
                        Ok(s) => s,
                        Err(e) => {
                            return Err(e);
                        },
                    };
                    track.type_ = Some(s);
                } else if name_is(&name, "trkseg") {
                    let ghost sspec = spec_trkseg(context.toks(), context.at());
                    let seg = match tracksegment::consume(context) {
                        Ok(seg) => seg,
                        Err(e) => {
                            return Err(e);
                        },
                    };
                    let ghost segs_before = track.segments.deep_view();
                    track.segments.push(seg);
                    proof {
                        assert(track.segments.deep_view() =~= segs_before.push(seg@));
                        seen_ext = seen_ext || (match sspec {
                            ExtParse::Good { ext, .. } => ext,
                            ExtParse::Bad { ext, .. } => ext,
                        });
                    }
                } else {
                    return Err(GpxError::InvalidChildElement(name, "trk"));
                }
            },
            Peeked::End { name } => {
                if name_is(&name, "trk") {
                    context.advance();
                    return Ok(track);
                }
                return Err(GpxError::InvalidClosingTag(name, "trk"));
            },
            Peeked::Chars { content: _ } => {
                context.advance();
            },
            Peeked::Skip => {
                context.advance();
            },
            Peeked::Fault => {
                return Err(GpxError::EventParsingError("trk"));
            },
            Peeked::Finished => {
                return Err(GpxError::MissingClosingTag("trk"));
            },
        }
    }
}

} // verus!
