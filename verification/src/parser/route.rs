//! The route: the same descriptive fields as a track, with its `rtept`
//! points held directly.

use vstd::prelude::*;

use crate::errors::{GpxError, GpxResult};
use crate::numbers::{parse_u32, spec_u32};
use crate::parser::extensions::WaypointExtensions;
use crate::parser::link::spec_link;
use crate::parser::string::spec_string;
use crate::parser::waypoint::spec_waypoint;
use crate::parser::{link, string, waypoint};
use crate::parser::{
    name_is, spec_verify_tag, verify_starting_tag, wrap_ext, Context, ExtParse, Peeked, Token,
};
use crate::types::{Route, RouteV};

verus! {

/// The fields of a route before any child is seen.
pub open spec fn spec_route_empty() -> RouteV {
    RouteV {
        name: None,
        comment: None,
        description: None,
        source: None,
        links: Seq::empty(),
        number: None,
        type_: None,
        points: Seq::empty(),
    }
}

/// What reading the children of a route from `pos` yields, `acc` holding
/// the fields gathered so far. A repeated single-valued child overwrites
/// the earlier value; links and points accumulate in document order; a
/// number that does not read as one is dropped.
pub open spec fn spec_route_body(t: Seq<Token>, pos: int, acc: RouteV) -> ExtParse<RouteV>
    decreases t.len() - pos,
{
    if pos >= t.len() {
        ExtParse::Bad { e: GpxError::MissingClosingTag("rte"), ext: false }
    } else {
        match t[pos] {
            Token::Open { name, attrs } => if name@ == "name"@ {
                match spec_string(t, pos, "name", true) {
                    Ok(pr) => if pos < pr.1 <= t.len() {
                        spec_route_body(t, pr.1, RouteV { name: Some(pr.0), ..acc })
                    } else {
                        ExtParse::Bad { e: GpxError::MissingClosingTag("rte"), ext: false }
                    },
                    Err(e) => ExtParse::Bad { e, ext: false },
                }
            } else if name@ == "cmt"@ {
                match spec_string(t, pos, "cmt", true) {
                    Ok(pr) => if pos < pr.1 <= t.len() {
                        spec_route_body(t, pr.1, RouteV { comment: Some(pr.0), ..acc })
                    } else {
                        ExtParse::Bad { e: GpxError::MissingClosingTag("rte"), ext: false }
                    },
                    Err(e) => ExtParse::Bad { e, ext: false },
                }
            } else if name@ == "desc"@ {
                match spec_string(t, pos, "desc", true) {
                    Ok(pr) => if pos < pr.1 <= t.len() {
                        spec_route_body(t, pr.1, RouteV { description: Some(pr.0), ..acc })
                    } else {
                        ExtParse::Bad { e: GpxError::MissingClosingTag("rte"), ext: false }
                    },
                    Err(e) => ExtParse::Bad { e, ext: false },
                }
            } else if name@ == "src"@ {
                match spec_string(t, pos, "src", true) {
                    Ok(pr) => if pos < pr.1 <= t.len() {
                        spec_route_body(t, pr.1, RouteV { source: Some(pr.0), ..acc })
                    } else {
                        ExtParse::Bad { e: GpxError::MissingClosingTag("rte"), ext: false }
                    },
                    Err(e) => ExtParse::Bad { e, ext: false },
                }
            } else if name@ == "link"@ {
                match spec_link(t, pos) {
                    Ok(pr) => if pos < pr.1 <= t.len() {
                        spec_route_body(t, pr.1, RouteV { links: acc.links.push(pr.0), ..acc })
                    } else {
                        ExtParse::Bad { e: GpxError::MissingClosingTag("rte"), ext: false }
                    },
                    Err(e) => ExtParse::Bad { e, ext: false },
                }
            } else if name@ == "number"@ {
                match spec_string(t, pos, "number", true) {
                    Ok(pr) => if pos < pr.1 <= t.len() {
                        spec_route_body(t, pr.1, RouteV { number: spec_u32(pr.0), ..acc })
                    } else {
                        ExtParse::Bad { e: GpxError::MissingClosingTag("rte"), ext: false }
                    },
                    Err(e) => ExtParse::Bad { e, ext: false },
                }
            } else if name@ == "type"@ {
                match spec_string(t, pos, "type", true) {
                    Ok(pr) => if pos < pr.1 <= t.len() {
                        spec_route_body(t, pr.1, RouteV { type_: Some(pr.0), ..acc })
                    } else {
                        ExtParse::Bad { e: GpxError::MissingClosingTag("rte"), ext: false }
                    },
                    Err(e) => ExtParse::Bad { e, ext: false },
                }
            } else if name@ == "rtept"@ {
                match spec_waypoint(t, pos, "rtept") {
                    ExtParse::Good { v, next, ext } => if pos < next <= t.len() {
                        wrap_ext(
                            spec_route_body(t, next, RouteV { points: acc.points.push(v), ..acc }),
                            ext,
                        )
                    } else {
                        ExtParse::Bad { e: GpxError::MissingClosingTag("rte"), ext }
                    },
                    ExtParse::Bad { e, ext } => ExtParse::Bad { e, ext },
                }
            } else {
                ExtParse::Bad { e: GpxError::InvalidChildElement(name, "rte"), ext: false }
            },
            Token::Close { name } => if name@ == "rte"@ {
                ExtParse::Good { v: acc, next: pos + 1, ext: false }
            } else {
                ExtParse::Bad { e: GpxError::InvalidClosingTag(name, "rte"), ext: false }
            },
            Token::Error => ExtParse::Bad { e: GpxError::EventParsingError("rte"), ext: false },
            _ => spec_route_body(t, pos + 1, acc),
        }
    }
}

/// What consuming a whole route from `pos` yields.
pub open spec fn spec_route(t: Seq<Token>, pos: int) -> ExtParse<RouteV> {
    match spec_verify_tag(t, pos, "rte") {
        Err(e) => ExtParse::Bad { e, ext: false },
        Ok(pr) => spec_route_body(t, pr.1, spec_route_empty()),
    }
}

/// Consumes a route; when it returns, the stream stands just after the
/// route's closing tag.
pub fn consume<E: WaypointExtensions>(context: &mut Context<E>) -> (r: GpxResult<Route<E>>)
    requires
        old(context).wf(),
    ensures
        final(context).same_doc(old(context)),
        final(context).wf(),
        match spec_route(old(context).toks(), old(context).at()) {
            ExtParse::Good { v, next, ext } => {
                &&& (r matches Ok(k) ==> k@ == v && final(context).at() == next && old(
                    context,
                ).at() < next)
                &&& ((!ext || E::declines()) ==> r is Ok)
            },
            ExtParse::Bad { e, ext } => {
                &&& r is Err
                &&& ((!ext || E::declines()) ==> (r matches Err(e2) && e2 == e))
            },
        },
{
    match verify_starting_tag(context, "rte") {
        Ok(_) => (),
        Err(e) => {
            return Err(e);
        },
    }
    let mut route: Route<E> = Route {
        name: None,
        comment: None,
        description: None,
        source: None,
        links: Vec::new(),
        number: None,
        type_: None,
        points: Vec::new(),
    };
    let ghost mut seen_ext: bool = false;
    proof {
        assert(route@.links =~= spec_route_empty().links);
        assert(route@.points =~= spec_route_empty().points);
    }
    loop
        invariant
            context.wf(),
            context.same_doc(old(context)),
            old(context).at() < context.at(),
            wrap_ext(spec_route_body(context.toks(), context.at(), route@), seen_ext)
                == spec_route(old(context).toks(), old(context).at()),
        decreases context.toks().len() - context.at(),
    {
        match context.peek_kind() {
            Peeked::Start { name } => {
                if name_is(&name, "name") {
                    let s = match string::consume(context, "name", true) {
                        Ok(s) => s,
                        Err(e) => {
                            return Err(e);
                        },
                    };
                    route.name = Some(s);
                } else if name_is(&name, "cmt") {
                    let s = match string::consume(context, "cmt", true) {
                        Ok(s) => s,
                        Err(e) => {
                            return Err(e);
                        },
                    };
                    route.comment = Some(s);
                } else if name_is(&name, "desc") {
                    let s = match string::consume(context, "desc", true) {
                        Ok(s) => s,
                        Err(e) => {
                            return Err(e);
                        },
                    };
                    route.description = Some(s);
                } else if name_is(&name, "src") {
                    let s = match string::consume(context, "src", true) {
                        Ok(s) => s,
                        Err(e) => {
                            return Err(e);
                        },
                    };
                    route.source = Some(s);
                } else if name_is(&name, "link") {
                    let l = match link::consume(context) {
                        Ok(l) => l,
                        Err(e) => {
                            return Err(e);
                        },
                    };
                    let ghost links_before = route.links.deep_view();
                    route.links.push(l);
                    proof {
                        assert(route.links.deep_view() =~= links_before.push(l@));
                    }
                } else if name_is(&name, "number") {
                    let s = match string::consume(context, "number", true) {
                        Ok(s) => s,
                        Err(e) => {
                            return Err(e);
                        },
                    };
                    route.number = parse_u32(s.as_str());
                } else if name_is(&name, "type") {
                    let s = match string::consume(context, "type", true) {
                        Ok(s) => s,
                        Err(e) => {
                            return Err(e);
                        },
                    };
                    route.type_ = Some(s);
                } else if name_is(&name, "rtept") {
                    let ghost wspec = spec_waypoint(context.toks(), context.at(), "rtept");
                    let w = match waypoint::consume(context, "rtept") {
                        Ok(w) => w,
                        Err(e) => {
                            return Err(e);
                        },
                    };
                    let ghost points_before = route.points.deep_view();
                    route.points.push(w);
                    proof {
                        assert(route.points.deep_view() =~= points_before.push(w@));
                        seen_ext = seen_ext || (match wspec {
                            ExtParse::Good { ext, .. } => ext,
                            ExtParse::Bad { ext, .. } => ext,
                        });
                    }
                } else {
                    return Err(GpxError::InvalidChildElement(name, "rte"));
                }
            },
            Peeked::End { name } => {
                if name_is(&name, "rte") {
                    context.advance();
                    return Ok(route);
                }
                return Err(GpxError::InvalidClosingTag(name, "rte"));
            },
            Peeked::Chars { content: _ } => {
                context.advance();
            },
            Peeked::Skip => {
                context.advance();
            },
            Peeked::Fault => {
                return Err(GpxError::EventParsingError("rte"));
            },
            Peeked::Finished => {
                return Err(GpxError::MissingClosingTag("rte"));
            },
        }
    }
}

} // verus!
