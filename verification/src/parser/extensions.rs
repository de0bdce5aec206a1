//! The extension hook: the capability that parses the opaque per-point
//! side channel, and the capability that declines it.

use vstd::prelude::*;

use crate::errors::{GpxError, GpxResult};
use crate::parser::{Context, Peeked, Token};

verus! {

/// The position just after the subtree that balances `depth` open
/// elements, or the failure when the stream ends first.
pub open spec fn spec_skip_from(t: Seq<Token>, pos: int, depth: int) -> Result<int, GpxError>
    decreases t.len() - pos,
{
    if depth <= 0 {
        Ok(pos)
    } else if pos >= t.len() {
        Err(GpxError::MissingClosingTag("extensions"))
    } else {
        match t[pos] {
            Token::Open { .. } => spec_skip_from(t, pos + 1, depth + 1),
            Token::Close { .. } => spec_skip_from(t, pos + 1, depth - 1),
            _ => spec_skip_from(t, pos + 1, depth),
        }
    }
}

/// The position just after the element whose opening tag stands at `pos`,
/// or the failure when the stream ends inside it.
pub open spec fn spec_skip_element(t: Seq<Token>, pos: int) -> Result<int, GpxError> {
    spec_skip_from(t, pos + 1, 1)
}

/// A successful skip never moves backwards or beyond the stream.
pub proof fn lemma_skip_bounds(t: Seq<Token>, pos: int, depth: int)
    ensures
        match spec_skip_from(t, pos, depth) {
            Ok(next) => pos <= next && (pos <= t.len() ==> next <= t.len()),
            Err(e) => true,
        },
    decreases t.len() - pos,
{
    if depth <= 0 {
    } else if pos >= t.len() {
    } else {
        match t[pos] {
            Token::Open { .. } => lemma_skip_bounds(t, pos + 1, depth + 1),
            Token::Close { .. } => lemma_skip_bounds(t, pos + 1, depth - 1),
            _ => lemma_skip_bounds(t, pos + 1, depth),
        }
    }
}

/// The capability that parses a waypoint's extension container. It is
/// invoked exactly when the next token opens an `extensions` element, and
/// it must own that element's whole lifetime: on success the stream stands
/// just after the element's closing tag.
pub trait WaypointExtensions: Sized {
    /// What the capability produces for one waypoint.
    type Value;

    /// Whether this capability always declines: on a balanced container it
    /// succeeds with the absent value, and it fails exactly when the
    /// container is unterminated. A capability for which this holds makes
    /// the whole parse a function of the token sequence.
    spec fn declines() -> bool;

    /// Consumes the extension container and produces its value, or
    /// declines with `None` while still consuming the container.
    fn consume(context: &mut Context<Self>) -> (r: GpxResult<Option<Self::Value>>)
        requires
            old(context).wf(),
            old(context).at() < old(context).toks().len(),
            old(context).toks()[old(context).at()] matches Token::Open { name, .. } && name@
                == "extensions"@,
        ensures
            final(context).same_doc(old(context)),
            final(context).wf(),
            match spec_skip_element(old(context).toks(), old(context).at()) {
                Ok(next) => r is Ok ==> final(context).at() == next && old(context).at() < next,
                Err(e) => r is Err,
            },
            Self::declines() ==> match spec_skip_element(old(context).toks(), old(context).at()) {
                Ok(next) => r matches Ok(v) && v is None && final(context).at() == next && old(
                    context,
                ).at() < next,
                Err(e) => r matches Err(e2) && e2 == e,
            },
    ;
}

/// The no-op capability: it skips the extension container unread and
/// declines to produce a value.
pub struct EmptyExtensions;

impl WaypointExtensions for EmptyExtensions {
    type Value = ();

    open spec fn declines() -> bool {
        true
    }

    fn consume(context: &mut Context<Self>) -> (r: GpxResult<Option<()>>)
        ensures
            match spec_skip_element(old(context).toks(), old(context).at()) {
                Ok(next) => r matches Ok(v) && v is None && final(context).at() == next,
                Err(e) => r matches Err(e2) && e2 == e,
            },
    {
        context.advance();
        let mut depth: usize = 1;
        while depth > 0
            invariant
                context.wf(),
                context.same_doc(old(context)),
                old(context).at() < context.at(),
                depth as int <= context.at(),
                spec_skip_from(context.toks(), context.at(), depth as int) == spec_skip_element(
                    old(context).toks(),
                    old(context).at(),
                ),
            decreases 2 * (context.toks().len() - context.at()) + depth,
        {
            match context.peek_kind() {
                Peeked::Start { name: _ } => {
                    context.advance();
                    depth = depth + 1;
                },
                Peeked::End { name: _ } => {
                    context.advance();
                    depth = depth - 1;
                },
                Peeked::Chars { content: _ } => {
                    context.advance();
                },
                Peeked::Skip => {
                    context.advance();
                },
                Peeked::Fault => {
                    context.advance();
                },
                Peeked::Finished => {
                    return Err(GpxError::MissingClosingTag("extensions"));
                },
            }
        }
        Ok(None)
    }
}

} // verus!
