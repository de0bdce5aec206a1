//! The engine's general guarantees, stated and proved once over the
//! specification-level parser. Each law speaks about every token sequence
//! of the stated shape; the consumers' own contracts carry the results to
//! the executable engine.

use vstd::prelude::*;

use crate::errors::GpxError;
use crate::numbers::{spec_decimal, spec_i32, Decimal};
use crate::parser::copyright::{spec_copyright, spec_copyright_body};
use crate::parser::fix::spec_fix;
use crate::parser::gpx::{spec_gpx, spec_version_of};
use crate::parser::string::{spec_string, spec_string_body};
use crate::parser::waypoint::spec_waypoint_body;
use crate::parser::tracksegment::{spec_trkseg, spec_trkseg_body};
use crate::parser::waypoint::{spec_waypoint, spec_waypoint_empty};
use crate::parser::{spec_find_attr, Attribute, ExtParse, Token};
use crate::types::{FixV, GpxV, TrackSegmentV, WaypointV};

verus! {

broadcast use vstd::string::group_string_axioms;

/// Tag verification passes over every event before `upto` that is
/// neither an element boundary nor text.
pub proof fn lemma_verify_skips_noise(t: Seq<Token>, from: int, upto: int, tag: &'static str)
    requires
        0 <= from <= upto,
        forall|j: int|
            from <= j < upto ==> (#[trigger] t[j] is Other || t[j] is Error),
    ensures
        crate::parser::spec_verify_tag(t, from, tag) == crate::parser::spec_verify_tag(
            t,
            upto,
            tag,
        ),
    decreases upto - from,
{
    if from < upto {
        lemma_verify_skips_noise(t, from + 1, upto, tag);
    }
}

/// A minimal well-formed document — a root element that opens and at once
/// closes, with nothing but ignorable events before it — parses, and
/// yields no metadata, no tracks and no routes, whatever attributes the
/// root carries.
pub proof fn lemma_minimal_document(
    t: Seq<Token>,
    pos: int,
    gname: String,
    cname: String,
    attrs: Vec<Attribute>,
)
    requires
        0 <= pos,
        pos + 1 < t.len(),
        forall|j: int| 0 <= j < pos ==> (#[trigger] t[j] is Other || t[j] is Error),
        t[pos] == (Token::Open { name: gname, attrs }),
        gname@ == "gpx"@,
        t[pos + 1] == (Token::Close { name: cname }),
        cname@ == "gpx"@,
    ensures
        spec_gpx(t, 0) == (ExtParse::Good {
            v: GpxV {
                version: spec_version_of(attrs@),
                metadata: None,
                tracks: Seq::<crate::types::TrackV>::empty(),
                routes: Seq::<crate::types::RouteV>::empty(),
            },
            next: pos + 2,
            ext: false,
        }),
{
    lemma_verify_skips_noise(t, 0, pos, "gpx");
}

/// A child outside an entity's vocabulary fails the parse with an error
/// naming that child and the entity; here for the copyright block, whose
/// vocabulary is `year` and `license`.
pub proof fn lemma_invalid_child(
    t: Seq<Token>,
    pos: int,
    oname: String,
    oattrs: Vec<Attribute>,
    child: String,
    cattrs: Vec<Attribute>,
)
    requires
        0 <= pos,
        pos + 1 < t.len(),
        t[pos] == (Token::Open { name: oname, attrs: oattrs }),
        oname@ == "copyright"@,
        t[pos + 1] == (Token::Open { name: child, attrs: cattrs }),
        child@ != "license"@,
        child@ != "year"@,
    ensures
        spec_copyright(t, pos) == Err::<(crate::types::CopyrightV, int), GpxError>(
            GpxError::InvalidChildElement(child, "copyright"),
        ),
{
}

/// A leaf that may not be empty fails on an empty element with the
/// no-content error; the same element parses to the empty string when
/// empty content is allowed. A self-closing element reaches the engine as
/// exactly this open-then-close pair.
pub proof fn lemma_empty_leaf(
    t: Seq<Token>,
    pos: int,
    oname: String,
    oattrs: Vec<Attribute>,
    cname: String,
    tag: &'static str,
)
    requires
        0 <= pos,
        pos + 1 < t.len(),
        t[pos] == (Token::Open { name: oname, attrs: oattrs }),
        oname@ == tag@,
        t[pos + 1] == (Token::Close { name: cname }),
        cname@ == tag@,
    ensures
        spec_string(t, pos, tag, false) == Err::<(Seq<char>, int), GpxError>(
            GpxError::NoStringContent,
        ),
        spec_string(t, pos, tag, true) == Ok::<(Seq<char>, int), GpxError>(
            (Seq::<char>::empty(), pos + 2),
        ),
{
}

/// A closing tag whose name differs from the entity being closed always
/// fails the leaf with the mismatched-closing-tag error, with or without
/// text before it, and whether or not empty content is allowed.
pub proof fn lemma_closing_mismatch(
    t: Seq<Token>,
    pos: int,
    oname: String,
    oattrs: Vec<Attribute>,
    cname: String,
    tag: &'static str,
    allow_empty: bool,
)
    requires
        0 <= pos,
        pos + 1 < t.len(),
        t[pos] == (Token::Open { name: oname, attrs: oattrs }),
        oname@ == tag@,
        t[pos + 1] == (Token::Close { name: cname }),
        cname@ != tag@,
    ensures
        spec_string(t, pos, tag, allow_empty) == Err::<(Seq<char>, int), GpxError>(
            GpxError::InvalidClosingTag(cname, tag),
        ),
{
}

/// The mismatched closing tag fails the leaf regardless of the content
/// that stands before it.
pub proof fn lemma_closing_mismatch_with_text(
    t: Seq<Token>,
    pos: int,
    oname: String,
    oattrs: Vec<Attribute>,
    body: String,
    cname: String,
    tag: &'static str,
    allow_empty: bool,
)
    requires
        0 <= pos,
        pos + 2 < t.len(),
        t[pos] == (Token::Open { name: oname, attrs: oattrs }),
        oname@ == tag@,
        t[pos + 1] == (Token::Text { content: body }),
        t[pos + 2] == (Token::Close { name: cname }),
        cname@ != tag@,
    ensures
        spec_string(t, pos, tag, allow_empty) == Err::<(Seq<char>, int), GpxError>(
            GpxError::InvalidClosingTag(cname, tag),
        ),
{
    reveal_with_fuel(spec_string_body, 4);
}

/// A copyright block of the shape
/// `<copyright ...><year>text</year></copyright>` always parses, and its
/// year is the number the text denotes — absent when the text denotes
/// none, rather than an error.
pub proof fn lemma_year_best_effort(
    t: Seq<Token>,
    pos: int,
    oname: String,
    oattrs: Vec<Attribute>,
    yname: String,
    yattrs: Vec<Attribute>,
    ytext: String,
    ycname: String,
    cname: String,
)
    requires
        0 <= pos,
        pos + 4 < t.len(),
        t[pos] == (Token::Open { name: oname, attrs: oattrs }),
        oname@ == "copyright"@,
        t[pos + 1] == (Token::Open { name: yname, attrs: yattrs }),
        yname@ == "year"@,
        t[pos + 2] == (Token::Text { content: ytext }),
        ytext@.len() > 0,
        t[pos + 3] == (Token::Close { name: ycname }),
        ycname@ == "year"@,
        t[pos + 4] == (Token::Close { name: cname }),
        cname@ == "copyright"@,
    ensures
        spec_copyright(t, pos) == Ok::<(crate::types::CopyrightV, int), GpxError>(
            (
                crate::types::CopyrightV {
                    author: spec_find_attr(oattrs@, "author"@).deep_view(),
                    year: spec_i32(ytext@),
                    license: None,
                },
                pos + 5,
            ),
        ),
{
    reveal_with_fuel(spec_string_body, 4);
    reveal_with_fuel(spec_copyright_body, 3);
    reveal_strlit("year");
    reveal_strlit("license");
    assert("year"@.len() == 4);
    assert("license"@.len() == 7);
    assert(yname@ != "license"@);
    assert(spec_string(t, pos + 1, "year", false) == Ok::<(Seq<char>, int), GpxError>(
        (ytext@, pos + 4),
    ));
}

/// A waypoint whose required latitude attribute does not denote a number
/// fails the parse outright, naming the coordinate.
pub proof fn lemma_bad_latitude_fails(
    t: Seq<Token>,
    pos: int,
    oname: String,
    oattrs: Vec<Attribute>,
    tag: &'static str,
    lat_text: String,
)
    requires
        0 <= pos < t.len(),
        t[pos] == (Token::Open { name: oname, attrs: oattrs }),
        oname@ == tag@,
        spec_find_attr(oattrs@, "lat"@) == Some(lat_text),
        spec_decimal(lat_text@) is None,
    ensures
        spec_waypoint(t, pos, tag) == (ExtParse::Bad::<WaypointV> {
            e: GpxError::InvalidNumericValue("lat"),
            ext: false,
        }),
{
}

/// A fix value outside the closed enumeration does not fail: the whole
/// element parses and the text is preserved verbatim under the escape
/// variant.
pub proof fn lemma_fix_escape(
    t: Seq<Token>,
    pos: int,
    oname: String,
    oattrs: Vec<Attribute>,
    body: String,
    cname: String,
)
    requires
        0 <= pos,
        pos + 2 < t.len(),
        t[pos] == (Token::Open { name: oname, attrs: oattrs }),
        oname@ == "fix"@,
        t[pos + 1] == (Token::Text { content: body }),
        body@.len() > 0,
        t[pos + 2] == (Token::Close { name: cname }),
        cname@ == "fix"@,
        body@ != "none"@,
        body@ != "2d"@,
        body@ != "3d"@,
        body@ != "dgps"@,
    ensures
        spec_fix(t, pos) == Ok::<(FixV, int), GpxError>((FixV::Other(body@), pos + 3)),
{
    reveal_with_fuel(spec_string_body, 4);
    assert(spec_string(t, pos, "fix", false) == Ok::<(Seq<char>, int), GpxError>(
        (body@, pos + 3),
    ));
}

/// Whether five tokens from `pos` spell one `trkpt` element that carries
/// the given coordinates in its attributes and one `name` child with the
/// given text.
pub open spec fn wpt_name_block(
    t: Seq<Token>,
    pos: int,
    name_text: Seq<char>,
    lat: Decimal,
    lon: Decimal,
) -> bool {
    &&& 0 <= pos
    &&& pos + 5 <= t.len()
    &&& (t[pos] matches Token::Open { name, attrs } && name@ == "trkpt"@ && (spec_find_attr(
        attrs@,
        "lat"@,
    ) matches Some(s) && spec_decimal(s@) == Some(lat)) && (spec_find_attr(
        attrs@,
        "lon"@,
    ) matches Some(s2) && spec_decimal(s2@) == Some(lon)))
    &&& (t[pos + 1] matches Token::Open { name, attrs } && name@ == "name"@)
    &&& (t[pos + 2] matches Token::Text { content } && content@ == name_text)
    &&& (t[pos + 3] matches Token::Close { name } && name@ == "name"@)
    &&& (t[pos + 4] matches Token::Close { name } && name@ == "trkpt"@)
}

/// The waypoint such a block denotes.
pub open spec fn wpt_named(name_text: Seq<char>, lat: Decimal, lon: Decimal) -> WaypointV {
    WaypointV { name: Some(name_text), ..spec_waypoint_empty(lat, lon) }
}

/// One `trkpt` block parses to exactly the waypoint it spells, and the
/// stream moves past its closing tag.
pub proof fn lemma_wpt_block(t: Seq<Token>, pos: int, name_text: Seq<char>, lat: Decimal, lon: Decimal)
    requires
        wpt_name_block(t, pos, name_text, lat, lon),
    ensures
        spec_waypoint(t, pos, "trkpt") == (ExtParse::Good {
            v: wpt_named(name_text, lat, lon),
            next: pos + 5,
            ext: false,
        }),
{
    reveal_with_fuel(spec_string_body, 4);
    reveal_strlit("ele");
    reveal_strlit("time");
    reveal_strlit("magvar");
    reveal_strlit("geoidheight");
    reveal_strlit("name");
    assert("name"@.len() == 4);
    assert("ele"@.len() == 3);
    assert("magvar"@.len() == 6);
    assert("geoidheight"@.len() == 11);
    assert("time"@[0] != "name"@[0]);
    let acc0 = spec_waypoint_empty(lat, lon);
    let acc1 = WaypointV { name: Some(name_text), ..acc0 };
    assert(spec_string(t, pos + 1, "name", true) == Ok::<(Seq<char>, int), GpxError>(
        (name_text, pos + 4),
    ));
    assert(spec_waypoint_body(t, pos + 4, "trkpt", acc1) == (ExtParse::Good {
        v: acc1,
        next: pos + 5,
        ext: false,
    }));
    assert(spec_waypoint_body(t, pos + 1, "trkpt", acc0) == spec_waypoint_body(
        t,
        pos + 4,
        "trkpt",
        acc1,
    ));
}

/// Whether consecutive blocks from `pos` spell the given names, one
/// waypoint each.
pub open spec fn seg_blocks(
    t: Seq<Token>,
    pos: int,
    names: Seq<Seq<char>>,
    lat: Decimal,
    lon: Decimal,
) -> bool
    decreases names.len(),
{
    names.len() == 0 || (wpt_name_block(t, pos, names[0], lat, lon) && seg_blocks(
        t,
        pos + 5,
        names.drop_first(),
        lat,
        lon,
    ))
}

/// Reading the remaining children of a segment that spells `names` and
/// then closes appends exactly one waypoint per name, in order.
pub proof fn lemma_seg_loop(
    t: Seq<Token>,
    pos: int,
    names: Seq<Seq<char>>,
    lat: Decimal,
    lon: Decimal,
    acc: TrackSegmentV,
    cname: String,
)
    requires
        0 <= pos,
        seg_blocks(t, pos, names, lat, lon),
        pos + 5 * names.len() < t.len(),
        t[pos + 5 * names.len()] == (Token::Close { name: cname }),
        cname@ == "trkseg"@,
    ensures
        spec_trkseg_body(t, pos, acc) == (ExtParse::Good {
            v: TrackSegmentV {
                points: acc.points + names.map(|i: int, n: Seq<char>| wpt_named(n, lat, lon)),
            },
            next: pos + 5 * names.len() + 1,
            ext: false,
        }),
    decreases names.len(),
{
    let f = |i: int, n: Seq<char>| wpt_named(n, lat, lon);
    if names.len() == 0 {
        assert(acc.points + names.map(f) =~= acc.points);
    } else {
        lemma_wpt_block(t, pos, names[0], lat, lon);
        let acc2 = TrackSegmentV { points: acc.points.push(wpt_named(names[0], lat, lon)) };
        lemma_seg_loop(t, pos + 5, names.drop_first(), lat, lon, acc2, cname);
        assert(acc2.points + names.drop_first().map(f) =~= acc.points + names.map(f));
    }
}

/// Round-trip fidelity: a segment of `N` waypoint blocks, each with the
/// coordinates in its attributes and one `name` child, parses to a
/// segment of exactly `N` points whose names equal the input texts in
/// input order.
pub proof fn lemma_segment_roundtrip(
    t: Seq<Token>,
    pos: int,
    oname: String,
    oattrs: Vec<Attribute>,
    names: Seq<Seq<char>>,
    lat: Decimal,
    lon: Decimal,
    cname: String,
)
    requires
        0 <= pos,
        pos + 1 + 5 * names.len() < t.len(),
        t[pos] == (Token::Open { name: oname, attrs: oattrs }),
        oname@ == "trkseg"@,
        seg_blocks(t, pos + 1, names, lat, lon),
        t[pos + 1 + 5 * names.len()] == (Token::Close { name: cname }),
        cname@ == "trkseg"@,
    ensures
        spec_trkseg(t, pos) matches ExtParse::Good { v, next, ext } && v.points.len()
            == names.len() && (forall|i: int|
            0 <= i < names.len() ==> v.points[i].name == Some(names[i])) && next == pos + 2 + 5
            * names.len() && !ext,
{
    let f = |i: int, n: Seq<char>| wpt_named(n, lat, lon);
    lemma_seg_loop(
        t,
        pos + 1,
        names,
        lat,
        lon,
        TrackSegmentV { points: Seq::empty() },
        cname,
    );
    assert(Seq::<WaypointV>::empty() + names.map(f) =~= names.map(f));
}

} // verus!
