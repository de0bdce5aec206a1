//! A verified reader for GPX-style track/route/waypoint documents.
//!
//! The library turns a byte buffer into a typed document tree by running a
//! recursive-descent engine over the structural events of the XML tokenizer.
//! Every consumer's behaviour is pinned by a specification-level parser over
//! the token sequence.

use vstd::prelude::*;

pub mod errors;
pub mod laws;
pub mod numbers;
pub mod parser;
pub mod reader;
pub mod types;

pub use errors::GpxError;
pub use errors::GpxResult;
pub use types::Bounds;
pub use types::Fix;
pub use types::Gpx;
pub use types::GpxCopyright;
pub use types::GpxVersion;
pub use types::Link;
pub use types::Metadata;
pub use types::Person;
pub use types::Route;
pub use types::Time;
pub use types::Track;
pub use types::TrackSegment;
pub use types::Waypoint;
pub use numbers::Decimal;
pub use reader::read;
pub use reader::read_with_extensions;
pub use parser::extensions::EmptyExtensions;
pub use parser::extensions::WaypointExtensions;

verus! {

} // verus!
