//! The timestamp leaf: element text read as an RFC 3339 instant.

use vstd::prelude::*;

use crate::errors::{GpxError, GpxResult};
use crate::parser::string;
use crate::parser::string::spec_string;
use crate::parser::{Context, Token};
use crate::types::Time;

verus! {

/// The instant a piece of text denotes under RFC 3339, as whole seconds
/// since the Unix epoch and nanoseconds within the second; absent when
/// the text is not of that shape. The result is a function of the text
/// alone.
pub uninterp spec fn timestamp_parts(s: Seq<char>) -> Option<(i64, u32)>;

/// Relies on the time crate's `OffsetDateTime::parse` with the RFC 3339
/// format: it reads the text into an instant, or rejects it; either way
/// the outcome depends on the text alone.
#[verifier::external_body]
fn parse_timestamp(s: &str) -> (r: Option<(i64, u32)>)
    ensures
        r == timestamp_parts(s@),
{
    match ::time::OffsetDateTime::parse(s, &::time::format_description::well_known::Rfc3339) {
        Ok(t) => Some((t.unix_timestamp(), t.nanosecond())),
        Err(_) => None,
    }
}

/// What consuming a whole time element from `pos` yields: its text must
/// denote an instant.
pub open spec fn spec_time(t: Seq<Token>, pos: int) -> Result<(Time, int), GpxError> {
    match spec_string(t, pos, "time", false) {
        Ok(pr) => match timestamp_parts(pr.0) {
            Some(p) => Ok((Time { seconds: p.0, nanos: p.1 }, pr.1)),
            None => Err(GpxError::InvalidTimestamp),
        },
        Err(e) => Err(e),
    }
}

/// Consumes a time element and reads its instant.
pub fn consume<E>(context: &mut Context<E>) -> (r: GpxResult<Time>)
    requires
        old(context).wf(),
    ensures
        final(context).same_doc(old(context)),
        final(context).wf(),
        match spec_time(old(context).toks(), old(context).at()) {
            Ok(pr) => r matches Ok(v) && v == pr.0 && final(context).at() == pr.1 && old(
                context,
            ).at() < pr.1,
            Err(e) => r matches Err(e2) && e2 == e,
        },
{
    let s = match string::consume(context, "time", false) {
        Ok(s) => s,
        Err(e) => {
            return Err(e);
        },
    };
    match parse_timestamp(s.as_str()) {
        Some(p) => Ok(Time { seconds: p.0, nanos: p.1 }),
        None => Err(GpxError::InvalidTimestamp),
    }
}

} // verus!
