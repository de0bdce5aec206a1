//! The waypoint: required coordinates on the opening tag, a wide closed
//! vocabulary of optional children, and the single fixed point where the
//! extension hook runs. The element's tag differs with where the point
//! stands (`wpt`, `trkpt` or `rtept`), so the caller names it.

use vstd::prelude::*;

use crate::errors::{GpxError, GpxResult};
use crate::numbers::{parse_decimal, parse_u16, parse_u64, spec_decimal, spec_u16, spec_u64, Decimal};
use crate::parser::extensions::{lemma_skip_bounds, spec_skip_element, WaypointExtensions};
use crate::parser::fix::spec_fix;
use crate::parser::link::spec_link;
use crate::parser::string::spec_string;
use crate::parser::time::spec_time;
use crate::parser::{fix, link, string, time};
use crate::parser::{
    find_attr, name_is, spec_find_attr, spec_verify_tag, verify_starting_tag, wrap_ext, Attribute,
    Context, ExtParse, Peeked, Token,
};
use crate::types::{Waypoint, WaypointV};

verus! {

/// The fields of a waypoint once its coordinates are known and before any
/// child is seen.
pub open spec fn spec_waypoint_empty(lat: Decimal, lon: Decimal) -> WaypointV {
    WaypointV {
        lat,
        lon,
        elevation: None,
        time: None,
        magvar: None,
        geoidheight: None,
        name: None,
        comment: None,
        description: None,
        source: None,
        links: Seq::empty(),
        symbol: None,
        type_: None,
        fix: None,
        sat: None,
        hdop: None,
        vdop: None,
        pdop: None,
        dgps_age: None,
        dgpsid: None,
    }
}

/// What reading the children of a waypoint from `pos` yields, `acc`
/// holding the fields gathered so far. Numeric children that do not read
/// as numbers are dropped; the `extensions` child is handed to the hook,
/// modeled here as a balanced skip of the container.
pub open spec fn spec_waypoint_body(
    t: Seq<Token>,
    pos: int,
    tag: &'static str,
    acc: WaypointV,
) -> ExtParse<WaypointV>
    decreases t.len() - pos,
{
    if pos >= t.len() {
        ExtParse::Bad { e: GpxError::MissingClosingTag(tag), ext: false }
    } else {
        match t[pos] {
            Token::Open { name, attrs } => if name@ == "ele"@ {
                match spec_string(t, pos, "ele", true) {
                    Ok(pr) => if pos < pr.1 <= t.len() {
                        spec_waypoint_body(
                            t,
                            pr.1,
                            tag,
                            WaypointV { elevation: spec_decimal(pr.0), ..acc },
                        )
                    } else {
                        ExtParse::Bad { e: GpxError::MissingClosingTag(tag), ext: false }
                    },
                    Err(e) => ExtParse::Bad { e, ext: false },
                }
            } else if name@ == "time"@ {
                match spec_time(t, pos) {
                    Ok(pr) => if pos < pr.1 <= t.len() {
                        spec_waypoint_body(t, pr.1, tag, WaypointV { time: Some(pr.0), ..acc })
                    } else {
                        ExtParse::Bad { e: GpxError::MissingClosingTag(tag), ext: false }
                    },
                    Err(e) => ExtParse::Bad { e, ext: false },
                }
            } else if name@ == "magvar"@ {
                match spec_string(t, pos, "magvar", true) {
                    Ok(pr) => if pos < pr.1 <= t.len() {
                        spec_waypoint_body(
                            t,
                            pr.1,
                            tag,
                            WaypointV { magvar: spec_decimal(pr.0), ..acc },
                        )
                    } else {
                        ExtParse::Bad { e: GpxError::MissingClosingTag(tag), ext: false }
                    },
                    Err(e) => ExtParse::Bad { e, ext: false },
                }
            } else if name@ == "geoidheight"@ {
                match spec_string(t, pos, "geoidheight", true) {
                    Ok(pr) => if pos < pr.1 <= t.len() {
                        spec_waypoint_body(
                            t,
                            pr.1,
                            tag,
                            WaypointV { geoidheight: spec_decimal(pr.0), ..acc },
                        )
                    } else {
                        ExtParse::Bad { e: GpxError::MissingClosingTag(tag), ext: false }
                    },
                    Err(e) => ExtParse::Bad { e, ext: false },
                }
            } else if name@ == "name"@ {
                match spec_string(t, pos, "name", true) {
                    Ok(pr) => if pos < pr.1 <= t.len() {
                        spec_waypoint_body(t, pr.1, tag, WaypointV { name: Some(pr.0), ..acc })
                    } else {
                        ExtParse::Bad { e: GpxError::MissingClosingTag(tag), ext: false }
                    },
                    Err(e) => ExtParse::Bad { e, ext: false },
                }
            } else if name@ == "cmt"@ {
                match spec_string(t, pos, "cmt", true) {
                    Ok(pr) => if pos < pr.1 <= t.len() {
                        spec_waypoint_body(t, pr.1, tag, WaypointV { comment: Some(pr.0), ..acc })
                    } else {
                        ExtParse::Bad { e: GpxError::MissingClosingTag(tag), ext: false }
                    },
                    Err(e) => ExtParse::Bad { e, ext: false },
                }
            } else if name@ == "desc"@ {
                match spec_string(t, pos, "desc", true) {
                    Ok(pr) => if pos < pr.1 <= t.len() {
                        spec_waypoint_body(
                            t,
                            pr.1,
                            tag,
                            WaypointV { description: Some(pr.0), ..acc },
                        )
                    } else {
                        ExtParse::Bad { e: GpxError::MissingClosingTag(tag), ext: false }
                    },
                    Err(e) => ExtParse::Bad { e, ext: false },
                }
            } else if name@ == "src"@ {
                match spec_string(t, pos, "src", true) {
                    Ok(pr) => if pos < pr.1 <= t.len() {
                        spec_waypoint_body(t, pr.1, tag, WaypointV { source: Some(pr.0), ..acc })
                    } else {
                        ExtParse::Bad { e: GpxError::MissingClosingTag(tag), ext: false }
                    },
                    Err(e) => ExtParse::Bad { e, ext: false },
                }
            } else if name@ == "link"@ {
                match spec_link(t, pos) {
                    Ok(pr) => if pos < pr.1 <= t.len() {
                        spec_waypoint_body(
                            t,
                            pr.1,
                            tag,
                            WaypointV { links: acc.links.push(pr.0), ..acc },
                        )
                    } else {
                        ExtParse::Bad { e: GpxError::MissingClosingTag(tag), ext: false }
                    },
                    Err(e) => ExtParse::Bad { e, ext: false },
                }
            } else if name@ == "sym"@ {
                match spec_string(t, pos, "sym", true) {
                    Ok(pr) => if pos < pr.1 <= t.len() {
                        spec_waypoint_body(t, pr.1, tag, WaypointV { symbol: Some(pr.0), ..acc })
                    } else {
                        ExtParse::Bad { e: GpxError::MissingClosingTag(tag), ext: false }
                    },
                    Err(e) => ExtParse::Bad { e, ext: false },
                }
            } else if name@ == "type"@ {
                match spec_string(t, pos, "type", true) {
                    Ok(pr) => if pos < pr.1 <= t.len() {
                        spec_waypoint_body(t, pr.1, tag, WaypointV { type_: Some(pr.0), ..acc })
                    } else {
                        ExtParse::Bad { e: GpxError::MissingClosingTag(tag), ext: false }
                    },
                    Err(e) => ExtParse::Bad { e, ext: false },
                }
            } else if name@ == "fix"@ {
                match spec_fix(t, pos) {
                    Ok(pr) => if pos < pr.1 <= t.len() {
                        spec_waypoint_body(t, pr.1, tag, WaypointV { fix: Some(pr.0), ..acc })
                    } else {
                        ExtParse::Bad { e: GpxError::MissingClosingTag(tag), ext: false }
                    },
                    Err(e) => ExtParse::Bad { e, ext: false },
                }
            } else if name@ == "sat"@ {
                match spec_string(t, pos, "sat", true) {
                    Ok(pr) => if pos < pr.1 <= t.len() {
                        spec_waypoint_body(t, pr.1, tag, WaypointV { sat: spec_u64(pr.0), ..acc })
                    } else {
                        ExtParse::Bad { e: GpxError::MissingClosingTag(tag), ext: false }
                    },
                    Err(e) => ExtParse::Bad { e, ext: false },
                }
            } else if name@ == "hdop"@ {
                match spec_string(t, pos, "hdop", true) {
                    Ok(pr) => if pos < pr.1 <= t.len() {
                        spec_waypoint_body(
                            t,
                            pr.1,
                            tag,
                            WaypointV { hdop: spec_decimal(pr.0), ..acc },
                        )
                    } else {
                        ExtParse::Bad { e: GpxError::MissingClosingTag(tag), ext: false }
                    },
                    Err(e) => ExtParse::Bad { e, ext: false },
                }
            } else if name@ == "vdop"@ {
                match spec_string(t, pos, "vdop", true) {
                    Ok(pr) => if pos < pr.1 <= t.len() {
                        spec_waypoint_body(
                            t,
                            pr.1,
                            tag,
                            WaypointV { vdop: spec_decimal(pr.0), ..acc },
                        )
                    } else {
                        ExtParse::Bad { e: GpxError::MissingClosingTag(tag), ext: false }
                    },
                    Err(e) => ExtParse::Bad { e, ext: false },
                }
            } else if name@ == "pdop"@ {
                match spec_string(t, pos, "pdop", true) {
                    Ok(pr) => if pos < pr.1 <= t.len() {
                        spec_waypoint_body(
                            t,
                            pr.1,
                            tag,
                            WaypointV { pdop: spec_decimal(pr.0), ..acc },
                        )
                    } else {
                        ExtParse::Bad { e: GpxError::MissingClosingTag(tag), ext: false }
                    },
                    Err(e) => ExtParse::Bad { e, ext: false },
                }
            } else if name@ == "ageofdgpsdata"@ {
                match spec_string(t, pos, "ageofdgpsdata", true) {
                    Ok(pr) => if pos < pr.1 <= t.len() {
                        spec_waypoint_body(
                            t,
                            pr.1,
                            tag,
                            WaypointV { dgps_age: spec_decimal(pr.0), ..acc },
                        )
                    } else {
                        ExtParse::Bad { e: GpxError::MissingClosingTag(tag), ext: false }
                    },
                    Err(e) => ExtParse::Bad { e, ext: false },
                }
            } else if name@ == "dgpsid"@ {
                match spec_string(t, pos, "dgpsid", true) {
                    Ok(pr) => if pos < pr.1 <= t.len() {
                        spec_waypoint_body(
                            t,
                            pr.1,
                            tag,
                            WaypointV { dgpsid: spec_u16(pr.0), ..acc },
                        )
                    } else {
                        ExtParse::Bad { e: GpxError::MissingClosingTag(tag), ext: false }
                    },
                    Err(e) => ExtParse::Bad { e, ext: false },
                }
            } else if name@ == "extensions"@ {
                match spec_skip_element(t, pos) {
                    Ok(p2) => if pos < p2 <= t.len() {
                        wrap_ext(spec_waypoint_body(t, p2, tag, acc), true)
                    } else {
                        ExtParse::Bad { e: GpxError::MissingClosingTag(tag), ext: true }
                    },
                    Err(e) => ExtParse::Bad { e, ext: true },
                }
            } else {
                ExtParse::Bad { e: GpxError::InvalidChildElement(name, tag), ext: false }
            },
            Token::Close { name } => if name@ == tag@ {
                ExtParse::Good { v: acc, next: pos + 1, ext: false }
            } else {
                ExtParse::Bad { e: GpxError::InvalidClosingTag(name, tag), ext: false }
            },
            Token::Error => ExtParse::Bad { e: GpxError::EventParsingError(tag), ext: false },
            _ => spec_waypoint_body(t, pos + 1, tag, acc),
        }
    }
}

/// What consuming a whole waypoint from `pos` yields: both coordinate
/// attributes are required and must be numeric.
pub open spec fn spec_waypoint(t: Seq<Token>, pos: int, tag: &'static str) -> ExtParse<WaypointV> {
    match spec_verify_tag(t, pos, tag) {
        Err(e) => ExtParse::Bad { e, ext: false },
        Ok(pr) => match spec_find_attr(pr.0, "lat"@) {
            None => ExtParse::Bad {
                e: GpxError::InvalidElementLacksAttribute("lat", tag),
                ext: false,
            },
            Some(lat_s) => match spec_decimal(lat_s@) {
                None => ExtParse::Bad { e: GpxError::InvalidNumericValue("lat"), ext: false },
                Some(lat) => match spec_find_attr(pr.0, "lon"@) {
                    None => ExtParse::Bad {
                        e: GpxError::InvalidElementLacksAttribute("lon", tag),
                        ext: false,
                    },
                    Some(lon_s) => match spec_decimal(lon_s@) {
                        None => ExtParse::Bad {
                            e: GpxError::InvalidNumericValue("lon"),
                            ext: false,
                        },
                        Some(lon) => spec_waypoint_body(
                            t,
                            pr.1,
                            tag,
                            spec_waypoint_empty(lat, lon),
                        ),
                    },
                },
            },
        },
    }
}

/// Consumes a waypoint under the given tag; when it returns, the stream
/// stands just after the point's closing tag. The view of the result is
/// pinned exactly; the opaque extension value itself is absent whenever
/// no extension container was reached.
pub fn consume<E: WaypointExtensions>(context: &mut Context<E>, tag: &'static str) -> (r:
    GpxResult<Waypoint<E>>)
    requires
        old(context).wf(),
    ensures
        final(context).same_doc(old(context)),
        final(context).wf(),
        match spec_waypoint(old(context).toks(), old(context).at(), tag) {
            ExtParse::Good { v, next, ext } => {
                &&& (r matches Ok(w) ==> w@ == v && final(context).at() == next && old(
                    context,
                ).at() < next)
                &&& ((!ext || E::declines()) ==> (r matches Ok(w) && w.extensions is None))
            },
            ExtParse::Bad { e, ext } => {
                &&& r is Err
                &&& ((!ext || E::declines()) ==> (r matches Err(e2) && e2 == e))
            },
        },
{
    let attributes = match verify_starting_tag(context, tag) {
        Ok(a) => a,
        Err(e) => {
            return Err(e);
        },
    };
    let lat = match find_attr(&attributes, "lat") {
        Some(s) => match parse_decimal(s.as_str()) {
            Some(v) => v,
            None => {
                return Err(GpxError::InvalidNumericValue("lat"));
            },
        },
        None => {
            return Err(GpxError::InvalidElementLacksAttribute("lat", tag));
        },
    };
    let lon = match find_attr(&attributes, "lon") {
        Some(s) => match parse_decimal(s.as_str()) {
            Some(v) => v,
            None => {
                return Err(GpxError::InvalidNumericValue("lon"));
            },
        },
        None => {
            return Err(GpxError::InvalidElementLacksAttribute("lon", tag));
        },
    };
    let mut wpt: Waypoint<E> = Waypoint {
        lat,
        lon,
        elevation: None,
        time: None,
        magvar: None,
        geoidheight: None,
        name: None,
        comment: None,
        description: None,
        source: None,
        links: Vec::new(),
        symbol: None,
        type_: None,
        fix: None,
        sat: None,
        hdop: None,
        vdop: None,
        pdop: None,
        dgps_age: None,
        dgpsid: None,
        extensions: None,
    };
    let ghost mut seen_ext: bool = false;
    proof {
        assert(wpt@.links =~= spec_waypoint_empty(lat, lon).links);
    }
    loop
        invariant
            context.wf(),
            context.same_doc(old(context)),
            old(context).at() < context.at(),
            (!seen_ext || E::declines()) ==> wpt.extensions is None,
            wrap_ext(spec_waypoint_body(context.toks(), context.at(), tag, wpt@), seen_ext)
                == spec_waypoint(old(context).toks(), old(context).at(), tag),
        decreases context.toks().len() - context.at(),
    {
        match context.peek_kind() {
            Peeked::Start { name } => {
                if name_is(&name, "ele") {
                    let s = match string::consume(context, "ele", true) {
                        Ok(s) => s,
                        Err(e) => {
                            return Err(e);
                        },
                    };
                    wpt.elevation = parse_decimal(s.as_str());
                } else if name_is(&name, "time") {
                    let v = match time::consume(context) {
                        Ok(v) => v,
                        Err(e) => {
                            return Err(e);
                        },
                    };
                    wpt.time = Some(v);
                } else if name_is(&name, "magvar") {
                    let s = match string::consume(context, "magvar", true) {
                        Ok(s) => s,
                        Err(e) => {
                            return Err(e);
                        },
                    };
                    wpt.magvar = parse_decimal(s.as_str());
                } else if name_is(&name, "geoidheight") {
                    let s = match string::consume(context, "geoidheight", true) {
                        Ok(s) => s,
                        Err(e) => {
                            return Err(e);
                        },
                    };
                    wpt.geoidheight = parse_decimal(s.as_str());
                } else if name_is(&name, "name") {
                    let s = match string::consume(context, "name", true) {
                        Ok(s) => s,
                        Err(e) => {
                            return Err(e);
                        },
                    };
                    wpt.name = Some(s);
                } else if name_is(&name, "cmt") {
                    let s = match string::consume(context, "cmt", true) {
                        Ok(s) => s,
                        Err(e) => {
                            return Err(e);
                        },
                    };
                    wpt.comment = Some(s);
                } else if name_is(&name, "desc") {
                    let s = match string::consume(context, "desc", true) {
                        Ok(s) => s,
                        Err(e) => {
                            return Err(e);
                        },
                    };
                    wpt.description = Some(s);
                } else if name_is(&name, "src") {
                    let s = match string::consume(context, "src", true) {
                        Ok(s) => s,
                        Err(e) => {
                            return Err(e);
                        },
                    };
                    wpt.source = Some(s);
                } else if name_is(&name, "link") {
                    let l = match link::consume(context) {
                        Ok(l) => l,
                        Err(e) => {
                            return Err(e);
                        },
                    };
                    let ghost links_before = wpt.links.deep_view();
                    wpt.links.push(l);
                    proof {
                        assert(wpt.links.deep_view() =~= links_before.push(l@));
                    }
                } else if name_is(&name, "sym") {
                    let s = match string::consume(context, "sym", true) {
                        Ok(s) => s,
                        Err(e) => {
                            return Err(e);
                        },
                    };
                    wpt.symbol = Some(s);
                } else if name_is(&name, "type") {
                    let s = match string::consume(context, "type", true) {
                        Ok(s) => s,
                        Err(e) => {
                            return Err(e);
                        },
                    };
                    wpt.type_ = Some(s);
                } else if name_is(&name, "fix") {
                    let f = match fix::consume(context) {
                        Ok(f) => f,
                        Err(e) => {
                            return Err(e);
                        },
                    };
                    wpt.fix = Some(f);
                } else if name_is(&name, "sat") {
                    let s = match string::consume(context, "sat", true) {
                        Ok(s) => s,
                        Err(e) => {
                            return Err(e);
                        },
                    };
                    wpt.sat = parse_u64(s.as_str());
                } else if name_is(&name, "hdop") {
                    let s = match string::consume(context, "hdop", true) {
                        Ok(s) => s,
                        Err(e) => {
                            return Err(e);
                        },
                    };
                    wpt.hdop = parse_decimal(s.as_str());
                } else if name_is(&name, "vdop") {
                    let s = match string::consume(context, "vdop", true) {
                        Ok(s) => s,
                        Err(e) => {
                            return Err(e);
                        },
                    };
                    wpt.vdop = parse_decimal(s.as_str());
                } else if name_is(&name, "pdop") {
                    let s = match string::consume(context, "pdop", true) {
                        Ok(s) => s,
                        Err(e) => {
                            return Err(e);
                        },
                    };
                    wpt.pdop = parse_decimal(s.as_str());
                } else if name_is(&name, "ageofdgpsdata") {
                    let s = match string::consume(context, "ageofdgpsdata", true) {
                        Ok(s) => s,
                        Err(e) => {
                            return Err(e);
                        },
                    };
                    wpt.dgps_age = parse_decimal(s.as_str());
                } else if name_is(&name, "dgpsid") {
                    let s = match string::consume(context, "dgpsid", true) {
                        Ok(s) => s,
                        Err(e) => {
                            return Err(e);
                        },
                    };
                    wpt.dgpsid = parse_u16(s.as_str());
                } else if name_is(&name, "extensions") {
                    proof {
                        lemma_skip_bounds(
                            context.toks(),
                            context.at() + 1,
                            1,
                        );
                    }
                    let v = match context.consume_waypoint_extensions() {
                        Ok(v) => v,
                        Err(e) => {
                            return Err(e);
                        },
                    };
                    wpt.extensions = v;
                    proof {
                        seen_ext = true;
                    }
                } else {
                    return Err(GpxError::InvalidChildElement(name, tag));
                }
            },
            Peeked::End { name } => {
                if name_is(&name, tag) {
                    context.advance();
                    return Ok(wpt);
                }
                return Err(GpxError::InvalidClosingTag(name, tag));
            },
            Peeked::Chars { content: _ } => {
                context.advance();
            },
            Peeked::Skip => {
                context.advance();
            },
            Peeked::Fault => {
                return Err(GpxError::EventParsingError(tag));
            },
            Peeked::Finished => {
                return Err(GpxError::MissingClosingTag(tag));
            },
        }
    }
}

} // verus!
