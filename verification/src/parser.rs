//! The parse context and the shared tag-verification primitive.
//!
//! The tokenizer of the `xml` crate turns the input bytes into a sequence
//! of structural events before the engine starts; the engine then walks
//! that sequence with one token of lookahead. Every consumer's behaviour
//! is stated against a specification-level parser over the same sequence.

use vstd::prelude::*;

use core::marker::PhantomData;
use crate::errors::{GpxError, GpxResult};
use crate::types::GpxVersion;

pub mod bounds;
pub mod copyright;
pub mod email;
pub mod extensions;
pub mod fix;
pub mod gpx;
pub mod link;
pub mod metadata;
pub mod person;
pub mod route;
pub mod string;
pub mod time;
pub mod track;
pub mod tracksegment;
pub mod waypoint;

use crate::parser::extensions::WaypointExtensions;

verus! {

/// One attribute of an opening tag.
#[derive(Debug, Clone, PartialEq, Eq)]
pub struct Attribute {
    /// The attribute's local name.
    pub name: String,
    /// The attribute's value.
    pub value: String,
}

/// One structural event of the token stream.
#[derive(Debug, PartialEq, Eq)]
pub enum Token {
    /// An element opened, with its attributes.
    Open { name: String, attrs: Vec<Attribute> },
    /// An element closed.
    Close { name: String },
    /// Text content; whitespace-only and CDATA content arrive this way too.
    Text { content: String },
    /// Any other event (a comment, a processing instruction, the document
    /// markers); the engine skips these.
    Other,
    /// The tokenizer reported malformed input; nothing follows this.
    Error,
}

/// The sequence of structural events the tokenizer of the `xml` crate
/// derives from the given bytes.
pub uninterp spec fn tokens_of(data: Seq<u8>) -> Seq<Token>;

/// Relies on xml's EventReader: it turns the bytes into the document's
/// structural events in order, with whitespace-only and CDATA content
/// normalized to text, and ends the sequence at its first failure.
#[verifier::external_body]
pub fn tokenize(data: &[u8]) -> (r: Vec<Token>)
    ensures
        r@ == tokens_of(data@),
{
    let config = xml::ParserConfig::new().whitespace_to_characters(true).cdata_to_characters(true);
    xml::EventReader::new_with_config(data, config).into_iter().map(|ev| match ev {
        Ok(xml::reader::XmlEvent::StartElement { name, attributes, .. }) => Token::Open {
            name: name.local_name,
            attrs: attributes.into_iter().map(|a| Attribute { name: a.name.local_name, value: a.value }).collect(),
        },
        Ok(xml::reader::XmlEvent::EndElement { name }) => Token::Close { name: name.local_name },
        Ok(xml::reader::XmlEvent::Characters(content)) => Token::Text { content },
        Ok(_) => Token::Other,
        Err(_) => Token::Error,
    }).collect()
}

/// What the next token looks like, with owned copies of what the engine
/// needs to inspect or report.
pub enum Peeked {
    /// An element opens.
    Start { name: String },
    /// An element closes.
    End { name: String },
    /// Text content.
    Chars { content: String },
    /// An ignorable event.
    Skip,
    /// The tokenizer's failure marker.
    Fault,
    /// The stream is exhausted.
    Finished,
}

/// The single mutable object threaded through every consumer: the token
/// sequence, the cursor into it, and the format version, typed by the
/// active extension capability.
pub struct Context<E> {
    /// The materialized token stream.
    pub reader: Vec<Token>,
    /// How many tokens have been consumed.
    pub pos: usize,
    /// The format version this parse runs under.
    pub version: GpxVersion,
    /// The extension capability in force, a type-level choice.
    pub phantom: PhantomData<E>,
}

impl<E> Context<E> {
    /// The token sequence.
    pub open spec fn toks(&self) -> Seq<Token> {
        self.reader@
    }

    /// The cursor.
    pub open spec fn at(&self) -> int {
        self.pos as int
    }

    /// The cursor never leaves the sequence.
    pub open spec fn wf(&self) -> bool {
        self.pos <= self.reader@.len()
    }

    /// Whether two contexts carry the same document and version: every
    /// consumer moves only the cursor.
    pub open spec fn same_doc(&self, other: &Self) -> bool {
        self.reader@ == other.reader@ && self.version == other.version
    }

    /// Makes a context over a token sequence.
    pub fn new(reader: Vec<Token>, version: GpxVersion) -> (r: Context<E>)
        ensures
            r.toks() == reader@,
            r.at() == 0,
            r.version == version,
            r.wf(),
    {
        Context { reader, pos: 0, version, phantom: PhantomData }
    }

    /// A look at the token stream.
    pub fn reader(&self) -> (r: &Vec<Token>)
        ensures
            r@ == self.toks(),
    {
        &self.reader
    }

    /// Describes the next token without consuming it.
    pub fn peek_kind(&self) -> (r: Peeked)
        requires
            self.wf(),
        ensures
            self.at() >= self.toks().len() ==> r is Finished,
            self.at() < self.toks().len() ==> match self.toks()[self.at()] {
                Token::Open { name, attrs } => r == (Peeked::Start { name }),
                Token::Close { name } => r == (Peeked::End { name }),
                Token::Text { content } => r == (Peeked::Chars { content }),
                Token::Other => r == Peeked::Skip,
                Token::Error => r == Peeked::Fault,
            },
    {
        if self.pos >= self.reader.len() {
            return Peeked::Finished;
        }
        match &self.reader[self.pos] {
            Token::Open { name, .. } => Peeked::Start { name: name.clone() },
            Token::Close { name } => Peeked::End { name: name.clone() },
            Token::Text { content } => Peeked::Chars { content: content.clone() },
            Token::Other => Peeked::Skip,
            Token::Error => Peeked::Fault,
        }
    }

    /// Consumes one token.
    pub fn advance(&mut self)
        requires
            old(self).wf(),
            old(self).at() < old(self).toks().len(),
        ensures
            final(self).same_doc(old(self)),
            final(self).at() == old(self).at() + 1,
            final(self).wf(),
    {
        let n = self.reader.len();
        if self.pos < n {
            self.pos = self.pos + 1;
        }
    }

    /// Consumes an opening tag and hands back its attributes.
    pub fn take_open_attrs(&mut self) -> (r: Vec<Attribute>)
        requires
            old(self).wf(),
            old(self).at() < old(self).toks().len(),
            old(self).toks()[old(self).at()] matches Token::Open { .. },
        ensures
            final(self).same_doc(old(self)),
            final(self).at() == old(self).at() + 1,
            final(self).wf(),
            old(self).toks()[old(self).at()] matches Token::Open { name, attrs } ==> r@ == attrs@,
    {
        let n = self.reader.len();
        let r = match &self.reader[self.pos] {
            Token::Open { attrs, .. } => clone_attrs(attrs),
            _ => Vec::new(),
        };
        if self.pos < n {
            self.pos = self.pos + 1;
        }
        r
    }
}

impl<E: WaypointExtensions> Context<E> {
    /// Hands the stream to the active extension capability at the one
    /// fixed point where waypoint extensions may appear.
    pub fn consume_waypoint_extensions(&mut self) -> (r: GpxResult<Option<E::Value>>)
        requires
            old(self).wf(),
            old(self).at() < old(self).toks().len(),
            old(self).toks()[old(self).at()] matches Token::Open { name, .. } && name@
                == "extensions"@,
        ensures
            final(self).same_doc(old(self)),
            final(self).wf(),
            match extensions::spec_skip_element(old(self).toks(), old(self).at()) {
                Ok(next) => r is Ok ==> final(self).at() == next && old(self).at() < next,
                Err(e) => r is Err,
            },
            E::declines() ==> match extensions::spec_skip_element(
                old(self).toks(),
                old(self).at(),
            ) {
                Ok(next) => r matches Ok(v) && v is None && final(self).at() == next && old(
                    self,
                ).at() < next,
                Err(e) => r matches Err(e2) && e2 == e,
            },
    {
        E::consume(self)
    }
}

/// Whether an owned string reads the same as an expected literal.
pub fn name_is(name: &String, tag: &str) -> (r: bool)
    ensures
        r == (name@ == tag@),
{
    let t: String = tag.to_owned();
    *name == t
}

/// An exact copy of an attribute list.
pub fn clone_attrs(attrs: &Vec<Attribute>) -> (r: Vec<Attribute>)
    ensures
        r@ == attrs@,
{
    let mut r: Vec<Attribute> = Vec::new();
    let mut i: usize = 0;
    while i < attrs.len()
        invariant
            i <= attrs@.len(),
            r@ =~= attrs@.subrange(0, i as int),
        decreases attrs@.len() - i,
    {
        r.push(Attribute { name: attrs[i].name.clone(), value: attrs[i].value.clone() });
        proof {
            assert(r@ =~= attrs@.subrange(0, i + 1));
        }
        i = i + 1;
    }
    proof {
        assert(attrs@.subrange(0, attrs@.len() as int) =~= attrs@);
    }
    r
}

/// The first attribute of the given name, when there is one.
pub open spec fn spec_find_attr(attrs: Seq<Attribute>, name: Seq<char>) -> Option<String>
    decreases attrs.len(),
{
    if attrs.len() == 0 {
        None
    } else if attrs[0].name@ == name {
        Some(attrs[0].value)
    } else {
        spec_find_attr(attrs.subrange(1, attrs.len() as int), name)
    }
}

/// Looks an attribute up by name, first match wins.
pub fn find_attr(attrs: &Vec<Attribute>, name: &str) -> (r: Option<String>)
    ensures
        r == spec_find_attr(attrs@, name@),
{
    let mut i: usize = 0;
    proof {
        assert(attrs@.subrange(0, attrs@.len() as int) =~= attrs@);
    }
    while i < attrs.len()
        invariant
            i <= attrs@.len(),
            spec_find_attr(attrs@.subrange(i as int, attrs@.len() as int), name@)
                == spec_find_attr(attrs@, name@),
        decreases attrs@.len() - i,
    {
        proof {
            assert(attrs@.subrange(i as int, attrs@.len() as int)[0] == attrs@[i as int]);
            assert(attrs@.subrange(i as int, attrs@.len() as int).subrange(
                1,
                attrs@.subrange(i as int, attrs@.len() as int).len() as int,
            ) =~= attrs@.subrange(i + 1, attrs@.len() as int));
        }
        if name_is(&attrs[i].name, name) {
            return Some(attrs[i].value.clone());
        }
        i = i + 1;
    }
    proof {
        assert(attrs@.subrange(attrs@.len() as int, attrs@.len() as int) =~= Seq::<
            Attribute,
        >::empty());
    }
    None
}

/// The outcome of parsing an entity that may contain extension
/// containers. `ext` records whether the extension hook was reached: the
/// hook's own failures are not modeled, so an entity parsed without
/// reaching it is pinned exactly, while one that reached it is pinned
/// exactly only when the run succeeds.
pub ghost enum ExtParse<T> {
    /// The entity parses: its view, the position after its closing tag,
    /// and whether a hook ran.
    Good { v: T, next: int, ext: bool },
    /// The parse fails with `e`; `ext` tells whether a hook ran first.
    Bad { e: GpxError, ext: bool },
}

/// Marks an outcome as having reached the extension hook when `b` holds.
pub open spec fn wrap_ext<T>(p: ExtParse<T>, b: bool) -> ExtParse<T> {
    match p {
        ExtParse::Good { v, next, ext } => ExtParse::Good { v, next, ext: ext || b },
        ExtParse::Bad { e, ext } => ExtParse::Bad { e, ext: ext || b },
    }
}

/// What the tag-verification primitive yields from `pos`: it passes over
/// ignorable events, then either accepts a matching opening tag, handing
/// back its attributes and the position after it, or names the fault.
pub open spec fn spec_verify_tag(t: Seq<Token>, pos: int, tag: &'static str) -> Result<
    (Seq<Attribute>, int),
    GpxError,
>
    decreases t.len() - pos,
{
    if pos >= t.len() {
        Err(GpxError::MissingOpeningTag(tag))
    } else {
        match t[pos] {
            Token::Open { name, attrs } => if name@ == tag@ {
                Ok((attrs@, pos + 1))
            } else {
                Err(GpxError::InvalidChildElement(name, tag))
            },
            Token::Close { name } => Err(GpxError::InvalidChildElement(name, tag)),
            Token::Text { content } => Err(GpxError::InvalidChildElement(content, tag)),
            Token::Other => spec_verify_tag(t, pos + 1, tag),
            Token::Error => spec_verify_tag(t, pos + 1, tag),
        }
    }
}

/// Makes sure the expected opening tag is next on the stream, ignoring
/// every event that is not an element boundary or text, and hands back
/// the tag's attributes.
pub fn verify_starting_tag<E>(context: &mut Context<E>, local_name: &'static str) -> (r: GpxResult<
    Vec<Attribute>,
>)
    requires
        old(context).wf(),
    ensures
        final(context).same_doc(old(context)),
        final(context).wf(),
        match spec_verify_tag(old(context).toks(), old(context).at(), local_name) {
            Ok(pr) => r matches Ok(a) && a@ == pr.0 && final(context).at() == pr.1 && old(
                context,
            ).at() < pr.1,
            Err(e) => r matches Err(e2) && e2 == e && (e matches GpxError::MissingOpeningTag(_)
                ==> final(context).at() == final(context).toks().len()),
        },
{
    loop
        invariant
            context.wf(),
            context.same_doc(old(context)),
            old(context).at() <= context.at(),
            spec_verify_tag(context.toks(), context.at(), local_name) == spec_verify_tag(
                old(context).toks(),
                old(context).at(),
                local_name,
            ),
        decreases context.toks().len() - context.at(),
    {
        match context.peek_kind() {
            Peeked::Start { name } => {
                if name_is(&name, local_name) {
                    let attrs = context.take_open_attrs();
                    return Ok(attrs);
                } else {
                    return Err(GpxError::InvalidChildElement(name, local_name));
                }
            },
            Peeked::End { name } => {
                return Err(GpxError::InvalidChildElement(name, local_name));
            },
            Peeked::Chars { content } => {
                return Err(GpxError::InvalidChildElement(content, local_name));
            },
            Peeked::Skip => {
                context.advance();
            },
            Peeked::Fault => {
                context.advance();
            },
            Peeked::Finished => {
                return Err(GpxError::MissingOpeningTag(local_name));
            },
        }
    }
}

/// Makes a context for a byte buffer: the tokenizer runs once, then the
/// engine owns the sequence.
pub fn create_context<E>(data: &[u8], version: GpxVersion) -> (r: Context<E>)
    ensures
        r.toks() == tokens_of(data@),
        r.at() == 0,
        r.version == version,
        r.wf(),
{
    Context::new(tokenize(data), version)
}

} // verus!
