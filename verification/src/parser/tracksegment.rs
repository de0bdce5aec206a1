//! The track segment: a run of `trkpt` points; empty is valid.

use vstd::prelude::*;

use crate::errors::{GpxError, GpxResult};
use crate::parser::extensions::WaypointExtensions;
use crate::parser::waypoint;
use crate::parser::waypoint::spec_waypoint;
use crate::parser::{
    name_is, spec_verify_tag, verify_starting_tag, wrap_ext, Context, ExtParse, Peeked, Token,
};
use crate::types::{TrackSegment, TrackSegmentV};

verus! {

/// What reading the children of a track segment from `pos` yields, `acc`
/// holding the points gathered so far in document order.
pub open spec fn spec_trkseg_body(t: Seq<Token>, pos: int, acc: TrackSegmentV) -> ExtParse<
    TrackSegmentV,
>
    decreases t.len() - pos,
{
    if pos >= t.len() {
        ExtParse::Bad { e: GpxError::MissingClosingTag("tracksegment"), ext: false }
    } else {
        match t[pos] {
            Token::Open { name, attrs } => if name@ == "trkpt"@ {
                match spec_waypoint(t, pos, "trkpt") {
                    ExtParse::Good { v, next, ext } => if pos < next <= t.len() {
                        wrap_ext(
                            spec_trkseg_body(
                                t,
                                next,
                                TrackSegmentV { points: acc.points.push(v) },
                            ),
                            ext,
                        )
                    } else {
                        ExtParse::Bad { e: GpxError::MissingClosingTag("tracksegment"), ext }
                    },
                    ExtParse::Bad { e, ext } => ExtParse::Bad { e, ext },
                }
            } else {
                ExtParse::Bad {
                    e: GpxError::InvalidChildElement(name, "tracksegment"),
                    ext: false,
                }
            },
            Token::Close { name } => if name@ == "trkseg"@ {
                ExtParse::Good { v: acc, next: pos + 1, ext: false }
            } else {
                ExtParse::Bad { e: GpxError::InvalidClosingTag(name, "trksegment"), ext: false }
            },
            Token::Error => ExtParse::Bad { e: GpxError::TrackSegmentError, ext: false },
            _ => spec_trkseg_body(t, pos + 1, acc),
        }
    }
}

/// What consuming a whole track segment from `pos` yields.
pub open spec fn spec_trkseg(t: Seq<Token>, pos: int) -> ExtParse<TrackSegmentV> {
    match spec_verify_tag(t, pos, "trkseg") {
        Err(e) => ExtParse::Bad { e, ext: false },
        Ok(pr) => spec_trkseg_body(t, pr.1, TrackSegmentV { points: Seq::empty() }),
    }
}

/// Consumes a track segment; when it returns, the stream stands just
/// after the segment's closing tag.
pub fn consume<E: WaypointExtensions>(context: &mut Context<E>) -> (r: GpxResult<TrackSegment<E>>)
    requires
        old(context).wf(),
    ensures
        final(context).same_doc(old(context)),
        final(context).wf(),
        match spec_trkseg(old(context).toks(), old(context).at()) {
            ExtParse::Good { v, next, ext } => {
                &&& (r matches Ok(s) ==> s@ == v && final(context).at() == next && old(
                    context,
                ).at() < next)
                &&& ((!ext || E::declines()) ==> r is Ok)
            },
            ExtParse::Bad { e, ext } => {
                &&& r is Err
                &&& ((!ext || E::declines()) ==> (r matches Err(e2) && e2 == e))
            },
        },
{
    match verify_starting_tag(context, "trkseg") {
        Ok(_) => (),
        Err(e) => {
            return Err(e);
        },
    }
    let mut segment: TrackSegment<E> = TrackSegment { points: Vec::new() };
    let ghost mut seen_ext: bool = false;
    proof {
        assert(segment@.points =~= Seq::<crate::types::WaypointV>::empty());
    }
    loop
        invariant
            context.wf(),
            context.same_doc(old(context)),
            old(context).at() < context.at(),
            wrap_ext(spec_trkseg_body(context.toks(), context.at(), segment@), seen_ext)
                == spec_trkseg(old(context).toks(), old(context).at()),
        decreases context.toks().len() - context.at(),
    {
        match context.peek_kind() {
            Peeked::Start { name } => {
                if name_is(&name, "trkpt") {
                    let ghost wspec = spec_waypoint(context.toks(), context.at(), "trkpt");
                    let w = match waypoint::consume(context, "trkpt") {
                        Ok(w) => w,
                        Err(e) => {
                            return Err(e);
                        },
                    };
                    let ghost points_before = segment.points.deep_view();
                    segment.points.push(w);
                    proof {
                        assert(segment.points.deep_view() =~= points_before.push(w@));
                        seen_ext = seen_ext || (match wspec {
                            ExtParse::Good { ext, .. } => ext,
                            ExtParse::Bad { ext, .. } => ext,
                        });
                    }
                } else {
                    return Err(GpxError::InvalidChildElement(name, "tracksegment"));
                }
            },
            Peeked::End { name } => {
                if name_is(&name, "trkseg") {
                    context.advance();
                    return Ok(segment);
                }
                return Err(GpxError::InvalidClosingTag(name, "trksegment"));
            },
            Peeked::Chars { content: _ } => {
                context.advance();
            },
            Peeked::Skip => {
                context.advance();
            },
            Peeked::Fault => {
                return Err(GpxError::TrackSegmentError);
            },
            Peeked::Finished => {
                return Err(GpxError::MissingClosingTag("tracksegment"));
            },
        }
    }
}

} // verus!
