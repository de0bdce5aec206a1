//! The typed document tree the engine materializes, and the ghost views
//! the contracts speak of.
//!
//! Every exec type has a view: strings become character sequences, vectors
//! become sequences, and plain scalar records stand for themselves. The
//! opaque per-waypoint extension value is not part of the view; contracts
//! about it are stated directly where the extension hook is invoked.

use vstd::prelude::*;

use crate::numbers::Decimal;
use crate::parser::extensions::WaypointExtensions;

verus! {

/// The format version a document declares, fixed when parsing starts.
#[derive(Debug, Clone, Copy, PartialEq, Eq, Structural)]
pub enum GpxVersion {
    /// The older of the two supported dialects.
    Gpx10,
    /// The current dialect.
    Gpx11,
    /// No recognized version declaration was seen.
    Unknown,
}

/// An absolute timestamp, counted from the Unix epoch.
#[derive(Debug, Clone, Copy, PartialEq, Eq, Structural)]
pub struct Time {
    /// Whole seconds since the epoch.
    pub seconds: i64,
    /// Nanoseconds within the second.
    pub nanos: u32,
}

/// The quality of the position fix a waypoint reports.
#[derive(Debug, Clone, PartialEq, Eq)]
pub enum Fix {
    /// The fix is explicitly reported as absent.
    NoFix,
    /// A two-dimensional fix.
    TwoDimensional,
    /// A three-dimensional fix.
    ThreeDimensional,
    /// A differentially corrected fix.
    DGPS,
    /// Any reported value outside the closed set, kept verbatim.
    Other(String),
}

/// The view of a fix: the closed set, or the verbatim text.
pub ghost enum FixV {
    NoFix,
    TwoDimensional,
    ThreeDimensional,
    DGPS,
    Other(Seq<char>),
}

impl View for Fix {
    type V = FixV;

    open spec fn view(&self) -> FixV {
        match self {
            Fix::NoFix => FixV::NoFix,
            Fix::TwoDimensional => FixV::TwoDimensional,
            Fix::ThreeDimensional => FixV::ThreeDimensional,
            Fix::DGPS => FixV::DGPS,
            Fix::Other(s) => FixV::Other(s@),
        }
    }
}

impl DeepView for Fix {
    type V = FixV;

    open spec fn deep_view(&self) -> FixV {
        self.view()
    }
}

/// A hyperlink: a required target and optional caption and media type.
#[derive(Debug, Clone, PartialEq, Eq)]
pub struct Link {
    /// Where the link points, from the element's required attribute.
    pub href: String,
    /// The caption child, when present.
    pub text: Option<String>,
    /// The media-type child, when present.
    pub type_: Option<String>,
}

/// The view of a link.
pub ghost struct LinkV {
    pub href: Seq<char>,
    pub text: Option<Seq<char>>,
    pub type_: Option<Seq<char>>,
}

impl View for Link {
    type V = LinkV;

    open spec fn view(&self) -> LinkV {
        LinkV { href: self.href@, text: self.text.deep_view(), type_: self.type_.deep_view() }
    }
}

impl DeepView for Link {
    type V = LinkV;

    open spec fn deep_view(&self) -> LinkV {
        self.view()
    }
}

/// A copyright block: everything in it is optional, and a year that does
/// not read as a number is dropped rather than reported.
#[derive(Debug, Clone, PartialEq, Eq)]
pub struct GpxCopyright {
    /// The author attribute, when present.
    pub author: Option<String>,
    /// The year child, when present and numeric.
    pub year: Option<i32>,
    /// The license child, when present.
    pub license: Option<String>,
}

/// The view of a copyright block.
pub ghost struct CopyrightV {
    pub author: Option<Seq<char>>,
    pub year: Option<i32>,
    pub license: Option<Seq<char>>,
}

impl View for GpxCopyright {
    type V = CopyrightV;

    open spec fn view(&self) -> CopyrightV {
        CopyrightV {
            author: self.author.deep_view(),
            year: self.year,
            license: self.license.deep_view(),
        }
    }
}

impl DeepView for GpxCopyright {
    type V = CopyrightV;

    open spec fn deep_view(&self) -> CopyrightV {
        self.view()
    }
}

/// The person (or organization) a document names as its author.
#[derive(Debug, Clone, PartialEq, Eq)]
pub struct Person {
    /// The name child, when present.
    pub name: Option<String>,
    /// The email address, combined from its two required attributes.
    pub email: Option<String>,
    /// A link child, when present.
    pub link: Option<Link>,
}

/// The view of a person.
pub ghost struct PersonV {
    pub name: Option<Seq<char>>,
    pub email: Option<Seq<char>>,
    pub link: Option<LinkV>,
}

impl View for Person {
    type V = PersonV;

    open spec fn view(&self) -> PersonV {
        PersonV {
            name: self.name.deep_view(),
            email: self.email.deep_view(),
            link: self.link.deep_view(),
        }
    }
}

impl DeepView for Person {
    type V = PersonV;

    open spec fn deep_view(&self) -> PersonV {
        self.view()
    }
}

/// The four edges of a bounding box; all are required.
#[derive(Debug, Clone, Copy, PartialEq, Eq, Structural)]
pub struct Bounds {
    pub min_lat: Decimal,
    pub min_lon: Decimal,
    pub max_lat: Decimal,
    pub max_lon: Decimal,
}

/// Everything a document's metadata block may carry.
#[derive(Debug, Clone, PartialEq, Eq)]
pub struct Metadata {
    pub name: Option<String>,
    pub description: Option<String>,
    pub author: Option<Person>,
    pub copyright: Option<GpxCopyright>,
    pub links: Vec<Link>,
    pub time: Option<Time>,
    pub keywords: Option<String>,
    pub bounds: Option<Bounds>,
}

/// The view of a metadata block.
pub ghost struct MetadataV {
    pub name: Option<Seq<char>>,
    pub description: Option<Seq<char>>,
    pub author: Option<PersonV>,
    pub copyright: Option<CopyrightV>,
    pub links: Seq<LinkV>,
    pub time: Option<Time>,
    pub keywords: Option<Seq<char>>,
    pub bounds: Option<Bounds>,
}

impl View for Metadata {
    type V = MetadataV;

    open spec fn view(&self) -> MetadataV {
        MetadataV {
            name: self.name.deep_view(),
            description: self.description.deep_view(),
            author: self.author.deep_view(),
            copyright: self.copyright.deep_view(),
            links: self.links.deep_view(),
            time: self.time,
            keywords: self.keywords.deep_view(),
            bounds: self.bounds,
        }
    }
}

impl DeepView for Metadata {
    type V = MetadataV;

    open spec fn deep_view(&self) -> MetadataV {
        self.view()
    }
}

/// A single point: required coordinates from the opening tag's attributes,
/// everything else optional, plus the opaque extension value the active
/// hook produced.
pub struct Waypoint<E: WaypointExtensions> {
    /// Latitude, from the required attribute.
    pub lat: Decimal,
    /// Longitude, from the required attribute.
    pub lon: Decimal,
    /// Elevation, absent when missing or unreadable.
    pub elevation: Option<Decimal>,
    /// The point's timestamp.
    pub time: Option<Time>,
    /// Magnetic variation, absent when missing or unreadable.
    pub magvar: Option<Decimal>,
    /// Height of the geoid, absent when missing or unreadable.
    pub geoidheight: Option<Decimal>,
    pub name: Option<String>,
    pub comment: Option<String>,
    pub description: Option<String>,
    pub source: Option<String>,
    pub links: Vec<Link>,
    pub symbol: Option<String>,
    pub type_: Option<String>,
    /// Fix quality, kept verbatim when outside the closed set.
    pub fix: Option<Fix>,
    /// Number of satellites, absent when missing or unreadable.
    pub sat: Option<u64>,
    /// Horizontal dilution of precision.
    pub hdop: Option<Decimal>,
    /// Vertical dilution of precision.
    pub vdop: Option<Decimal>,
    /// Position dilution of precision.
    pub pdop: Option<Decimal>,
    /// Age of the differential correction.
    pub dgps_age: Option<Decimal>,
    /// Identifier of the differential station.
    pub dgpsid: Option<u16>,
    /// What the extension hook produced, absent when it declined.
    pub extensions: Option<E::Value>,
}

/// The view of a waypoint; the opaque extension value is not modeled.
pub ghost struct WaypointV {
    pub lat: Decimal,
    pub lon: Decimal,
    pub elevation: Option<Decimal>,
    pub time: Option<Time>,
    pub magvar: Option<Decimal>,
    pub geoidheight: Option<Decimal>,
    pub name: Option<Seq<char>>,
    pub comment: Option<Seq<char>>,
    pub description: Option<Seq<char>>,
    pub source: Option<Seq<char>>,
    pub links: Seq<LinkV>,
    pub symbol: Option<Seq<char>>,
    pub type_: Option<Seq<char>>,
    pub fix: Option<FixV>,
    pub sat: Option<u64>,
    pub hdop: Option<Decimal>,
    pub vdop: Option<Decimal>,
    pub pdop: Option<Decimal>,
    pub dgps_age: Option<Decimal>,
    pub dgpsid: Option<u16>,
}

impl<E: WaypointExtensions> View for Waypoint<E> {
    type V = WaypointV;

    open spec fn view(&self) -> WaypointV {
        WaypointV {
            lat: self.lat,
            lon: self.lon,
            elevation: self.elevation,
            time: self.time,
            magvar: self.magvar,
            geoidheight: self.geoidheight,
            name: self.name.deep_view(),
            comment: self.comment.deep_view(),
            description: self.description.deep_view(),
            source: self.source.deep_view(),
            links: self.links.deep_view(),
            symbol: self.symbol.deep_view(),
            type_: self.type_.deep_view(),
            fix: self.fix.deep_view(),
            sat: self.sat,
            hdop: self.hdop,
            vdop: self.vdop,
            pdop: self.pdop,
            dgps_age: self.dgps_age,
            dgpsid: self.dgpsid,
        }
    }
}

impl<E: WaypointExtensions> DeepView for Waypoint<E> {
    type V = WaypointV;

    open spec fn deep_view(&self) -> WaypointV {
        self.view()
    }
}

/// One run of consecutive points of a track; empty is valid.
pub struct TrackSegment<E: WaypointExtensions> {
    /// The points, in document order.
    pub points: Vec<Waypoint<E>>,
}

/// The view of a track segment.
pub ghost struct TrackSegmentV {
    pub points: Seq<WaypointV>,
}

impl<E: WaypointExtensions> View for TrackSegment<E> {
    type V = TrackSegmentV;

    open spec fn view(&self) -> TrackSegmentV {
        TrackSegmentV { points: self.points.deep_view() }
    }
}

impl<E: WaypointExtensions> DeepView for TrackSegment<E> {
    type V = TrackSegmentV;

    open spec fn deep_view(&self) -> TrackSegmentV {
        self.view()
    }
}

/// A track: descriptive fields, then its segments in document order.
pub struct Track<E: WaypointExtensions> {
    pub name: Option<String>,
    pub comment: Option<String>,
    pub description: Option<String>,
    pub source: Option<String>,
    pub links: Vec<Link>,
    /// The track's number, absent when missing or unreadable.
    pub number: Option<u32>,
    pub type_: Option<String>,
    pub segments: Vec<TrackSegment<E>>,
}

/// The view of a track.
pub ghost struct TrackV {
    pub name: Option<Seq<char>>,
    pub comment: Option<Seq<char>>,
    pub description: Option<Seq<char>>,
    pub source: Option<Seq<char>>,
    pub links: Seq<LinkV>,
    pub number: Option<u32>,
    pub type_: Option<Seq<char>>,
    pub segments: Seq<TrackSegmentV>,
}

impl<E: WaypointExtensions> View for Track<E> {
    type V = TrackV;

    open spec fn view(&self) -> TrackV {
        TrackV {
            name: self.name.deep_view(),
            comment: self.comment.deep_view(),
            description: self.description.deep_view(),
            source: self.source.deep_view(),
            links: self.links.deep_view(),
            number: self.number,
            type_: self.type_.deep_view(),
            segments: self.segments.deep_view(),
        }
    }
}

impl<E: WaypointExtensions> DeepView for Track<E> {
    type V = TrackV;

    open spec fn deep_view(&self) -> TrackV {
        self.view()
    }
}

/// A route: the same descriptive fields as a track, with its points held
/// directly rather than grouped into segments.
pub struct Route<E: WaypointExtensions> {
    pub name: Option<String>,
    pub comment: Option<String>,
    pub description: Option<String>,
    pub source: Option<String>,
    pub links: Vec<Link>,
    /// The route's number, absent when missing or unreadable.
    pub number: Option<u32>,
    pub type_: Option<String>,
    pub points: Vec<Waypoint<E>>,
}

/// The view of a route.
pub ghost struct RouteV {
    pub name: Option<Seq<char>>,
    pub comment: Option<Seq<char>>,
    pub description: Option<Seq<char>>,
    pub source: Option<Seq<char>>,
    pub links: Seq<LinkV>,
    pub number: Option<u32>,
    pub type_: Option<Seq<char>>,
    pub points: Seq<WaypointV>,
}

impl<E: WaypointExtensions> View for Route<E> {
    type V = RouteV;

    open spec fn view(&self) -> RouteV {
        RouteV {
            name: self.name.deep_view(),
            comment: self.comment.deep_view(),
            description: self.description.deep_view(),
            source: self.source.deep_view(),
            links: self.links.deep_view(),
            number: self.number,
            type_: self.type_.deep_view(),
            points: self.points.deep_view(),
        }
    }
}

impl<E: WaypointExtensions> DeepView for Route<E> {
    type V = RouteV;

    open spec fn deep_view(&self) -> RouteV {
        self.view()
    }
}

/// A whole document: its version, optional metadata, and the tracks and
/// routes in document order.
pub struct Gpx<E: WaypointExtensions> {
    /// The declared version, `Unknown` when none was recognized.
    pub version: GpxVersion,
    pub metadata: Option<Metadata>,
    pub tracks: Vec<Track<E>>,
    pub routes: Vec<Route<E>>,
}

/// The view of a document.
pub ghost struct GpxV {
    pub version: GpxVersion,
    pub metadata: Option<MetadataV>,
    pub tracks: Seq<TrackV>,
    pub routes: Seq<RouteV>,
}

impl<E: WaypointExtensions> View for Gpx<E> {
    type V = GpxV;

    open spec fn view(&self) -> GpxV {
        GpxV {
            version: self.version,
            metadata: self.metadata.deep_view(),
            tracks: self.tracks.deep_view(),
            routes: self.routes.deep_view(),
        }
    }
}

impl<E: WaypointExtensions> DeepView for Gpx<E> {
    type V = GpxV;

    open spec fn deep_view(&self) -> GpxV {
        self.view()
    }
}

} // verus!
