//! The XML event source: tokens as plain values, read from bytes by xml-rs.
use vstd::prelude::*;
use xml::attribute::OwnedAttribute;
use xml::name::OwnedName;
use xml::namespace::Namespace;
use xml::reader::XmlEvent::{
    CData, Characters, Comment, EndDocument, EndElement, ProcessingInstruction, StartDocument,
    StartElement, Whitespace,
};

verus! {

/// A qualified name as xml-rs reads it; its fields are plain values.
#[verifier::external_type_specification]
pub struct ExOwnedName(xml::name::OwnedName);

/// An attribute as xml-rs reads it: a name and a value.
#[verifier::external_type_specification]
pub struct ExOwnedAttribute(xml::attribute::OwnedAttribute);

/// The namespace bindings in scope at a start tag.
#[verifier::external_type_specification]
#[verifier::external_body]
pub struct ExNamespace(xml::namespace::Namespace);

/// The bindings (prefix to URI) that a namespace scope holds.
pub uninterp spec fn namespace_bindings(ns: Namespace) -> Map<Seq<char>, Seq<char>>;

/// Relies on xml::namespace::Namespace::get: the URI bound to a prefix.
#[verifier::external_body]
pub(crate) fn namespace_uri(ns: &Namespace, prefix: &str) -> (r: Option<String>)
    ensures
        match r {
            Some(uri) => namespace_bindings(*ns).contains_key(prefix@) && namespace_bindings(*ns)[prefix@] == uri@,
            None => !namespace_bindings(*ns).contains_key(prefix@),
        },
{
    ns.get(prefix).map(|uri| uri.to_owned())
}

/// One event of the XML reader.
#[derive(Debug)]
pub enum XmlToken {
    /// A start tag, with its attributes and the namespace bindings in scope
    /// at that tag.
    Start { name: OwnedName, attributes: Vec<OwnedAttribute>, namespace: Namespace },
    /// An end tag.
    End { name: OwnedName },
    /// Character data.
    Text(String),
    /// A CDATA section.
    CData(String),
    /// Character data made of whitespace only.
    Whitespace(String),
    /// A comment.
    Comment(String),
    /// A processing instruction.
    ProcessingInstruction { target: String, data: Option<String> },
    /// The XML declaration, or the start of a document without one.
    StartDocument,
    /// The end of the document.
    EndDocument,
    /// The document is not well-formed; the reader stops here.
    Malformed(String),
}

/// The event iterator of xml-rs over a byte buffer. Verus cannot take its
/// declaration (its bound is `std::io::Read`), so it is held here, opaque.
#[verifier::external_body]
pub struct EventStream<'a> {
    events: xml::reader::Events<&'a [u8]>,
}

/// The tokens that xml-rs reads from a byte buffer, in order.
pub uninterp spec fn xml_tokens(bytes: Seq<u8>) -> Seq<XmlToken>;

/// The tokens that an xml-rs event iterator has still to hand out.
pub uninterp spec fn pending_tokens(stream: EventStream) -> Seq<XmlToken>;

/// Relies on xml::reader::EventReader::new and its IntoIterator impl: the
/// iterator starts at the first event of the buffer.
#[verifier::external_body]
fn open_events(bytes: &[u8]) -> (r: EventStream)
    ensures
        pending_tokens(r) == xml_tokens(bytes@),
{
    EventStream { events: xml::reader::EventReader::new(bytes).into_iter() }
}

/// Relies on Iterator::next of xml::reader::Events: it hands out the next
/// event, and none after the end of the document or after an error.
#[verifier::external_body]
fn next_token(stream: &mut EventStream) -> (r: Option<XmlToken>)
    ensures
        pending_tokens(*old(stream)).len() == 0 ==> r is None,
        pending_tokens(*old(stream)).len() > 0 ==> r == Some(pending_tokens(*old(stream))[0])
            && pending_tokens(*final(stream)) == pending_tokens(*old(stream)).drop_first(),
{
    Some(match stream.events.next()? {
        Ok(StartElement { name, attributes, namespace }) => XmlToken::Start { name, attributes, namespace },
        Ok(EndElement { name }) => XmlToken::End { name },
        Ok(Characters(text)) => XmlToken::Text(text),
        Ok(CData(text)) => XmlToken::CData(text),
        Ok(Whitespace(text)) => XmlToken::Whitespace(text),
        Ok(Comment(text)) => XmlToken::Comment(text),
        Ok(ProcessingInstruction { name, data }) => XmlToken::ProcessingInstruction { target: name, data },
        Ok(StartDocument { .. }) => XmlToken::StartDocument,
        Ok(EndDocument) => XmlToken::EndDocument,
        Err(e) => XmlToken::Malformed(e.msg().to_owned()),
    })
}

/// Reads all tokens of a byte buffer.
pub fn tokenize(bytes: &[u8]) -> (r: Vec<XmlToken>)
    ensures
        r@ == xml_tokens(bytes@),
{
    let mut stream = open_events(bytes);
    let mut tokens: Vec<XmlToken> = Vec::new();
    loop
        invariant
            tokens@ + pending_tokens(stream) == xml_tokens(bytes@),
        decreases pending_tokens(stream).len(),
    {
        match next_token(&mut stream) {
            None => {
                assert(tokens@ =~= xml_tokens(bytes@));
                return tokens;
            },
            Some(t) => {
                tokens.push(t);
                assert(tokens@ + pending_tokens(stream) =~= xml_tokens(bytes@));
            },
        }
    }
}

} // verus!
