//! The entry points: tokenize a byte buffer and hand it to the
//! document-root consumer.

use vstd::prelude::*;

use crate::errors::GpxResult;
use crate::parser::extensions::{EmptyExtensions, WaypointExtensions};
use crate::parser::gpx::spec_gpx;
use crate::parser::{create_context, gpx, Context, ExtParse};
use crate::types::{Gpx, GpxVersion};

verus! {

/// Reads a document from a byte buffer, with the extension hook
/// declined. The outcome — success or the exact error, and on success the
/// document's whole view — is pinned to what the specification-level
/// parser yields over the buffer's token sequence, so two reads of equal
/// bytes agree. The waypoint consumer's own contract pins each extension
/// value absent under a declining capability.
pub fn read(data: &[u8]) -> (r: GpxResult<Gpx<EmptyExtensions>>)
    ensures
        match spec_gpx(crate::parser::tokens_of(data@), 0) {
            ExtParse::Good { v, next, ext } => r matches Ok(g) && g@ == v,
            ExtParse::Bad { e, ext } => r matches Err(e2) && e2 == e,
        },
{
    read_with_extensions::<EmptyExtensions>(data)
}

/// Reads a document from a byte buffer under the given extension
/// capability. When the document holds no extension container, or the
/// capability declines extensions altogether, the outcome is pinned
/// exactly; otherwise a successful result is still pinned, while the hook
/// may also reject the document.
pub fn read_with_extensions<E: WaypointExtensions>(data: &[u8]) -> (r: GpxResult<Gpx<E>>)
    ensures
        match spec_gpx(crate::parser::tokens_of(data@), 0) {
            ExtParse::Good { v, next, ext } => (r matches Ok(g) ==> g@ == v) && ((!ext
                || E::declines()) ==> r is Ok),
            ExtParse::Bad { e, ext } => r is Err && ((!ext || E::declines()) ==> (r matches Err(
                e2,
            ) && e2 == e)),
        },
{
    let mut context: Context<E> = create_context(data, GpxVersion::Unknown);
    gpx::consume(&mut context)
}

} // verus!
