//! The fix-quality leaf: a closed set of spellings, with anything else
//! preserved verbatim.

use vstd::prelude::*;

use crate::errors::{GpxError, GpxResult};
use crate::parser::string;
use crate::parser::string::spec_string;
use crate::parser::{name_is, Context, Token};
use crate::types::{Fix, FixV};

verus! {

/// The fix a piece of element text denotes: one of the closed spellings,
/// or the text itself under the escape variant.
pub open spec fn spec_fix_of(s: Seq<char>) -> FixV {
    if s == "none"@ {
        FixV::NoFix
    } else if s == "2d"@ {
        FixV::TwoDimensional
    } else if s == "3d"@ {
        FixV::ThreeDimensional
    } else if s == "dgps"@ {
        FixV::DGPS
    } else {
        FixV::Other(s)
    }
}

/// What consuming a whole fix element from `pos` yields.
pub open spec fn spec_fix(t: Seq<Token>, pos: int) -> Result<(FixV, int), GpxError> {
    match spec_string(t, pos, "fix", false) {
        Ok(pr) => Ok((spec_fix_of(pr.0), pr.1)),
        Err(e) => Err(e),
    }
}

/// Consumes a fix element and classifies its text.
pub fn consume<E>(context: &mut Context<E>) -> (r: GpxResult<Fix>)
    requires
        old(context).wf(),
    ensures
        final(context).same_doc(old(context)),
        final(context).wf(),
        match spec_fix(old(context).toks(), old(context).at()) {
            Ok(pr) => r matches Ok(f) && f@ == pr.0 && final(context).at() == pr.1 && old(
                context,
            ).at() < pr.1,
            Err(e) => r matches Err(e2) && e2 == e,
        },
{
    let s = match string::consume(context, "fix", false) {
        Ok(s) => s,
        Err(e) => {
            return Err(e);
        },
    };
    if name_is(&s, "none") {
        Ok(Fix::NoFix)
    } else if name_is(&s, "2d") {
        Ok(Fix::TwoDimensional)
    } else if name_is(&s, "3d") {
        Ok(Fix::ThreeDimensional)
    } else if name_is(&s, "dgps") {
        Ok(Fix::DGPS)
    } else {
        Ok(Fix::Other(s))
    }
}

} // verus!
