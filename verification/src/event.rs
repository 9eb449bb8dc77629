//! The structural events of a document, as the scan reads them, and the
//! reader that delivers them one at a time.

use quick_xml::events::Event;
use quick_xml::reader::Reader;
use std::borrow::Cow;
use vstd::prelude::*;

verus! {

/// One structural event of a document, holding what the scan reads of it.
#[derive(Debug, PartialEq, Eq)]
pub enum XmlEvent {
    /// An element opens; the field is its name.
    ElementOpen(String),
    /// Character data with its escapes resolved, or `None` where the data
    /// holds an escape that cannot be resolved.
    Text(Option<String>),
    /// A literal data block, which is never read as markup.
    LiteralData(String),
    /// The innermost open element closes.
    ElementClose,
    /// Markup that the scan passes over: an element that closes itself, a
    /// comment, a declaration, a processing instruction, a document type.
    Other,
    /// The document has ended.
    EndOfInput,
    /// The document is not well formed at this point.
    Malformed,
}

/// The mathematical value of an [`XmlEvent`]: the same cases over character
/// sequences.
pub enum Token {
    ElementOpen(Seq<char>),
    Text(Option<Seq<char>>),
    LiteralData(Seq<char>),
    ElementClose,
    Other,
    EndOfInput,
    Malformed,
}

impl Token {
    /// Whether a reader delivers nothing that counts after this token.
    pub open spec fn is_terminal(self) -> bool {
        self is EndOfInput || self is Malformed
    }
}

impl View for XmlEvent {
    type V = Token;

    open spec fn view(&self) -> Token {
        match self {
            XmlEvent::ElementOpen(name) => Token::ElementOpen(name@),
            XmlEvent::Text(Some(content)) => Token::Text(Some(content@)),
            XmlEvent::Text(None) => Token::Text(None),
            XmlEvent::LiteralData(content) => Token::LiteralData(content@),
            XmlEvent::ElementClose => Token::ElementClose,
            XmlEvent::Other => Token::Other,
            XmlEvent::EndOfInput => Token::EndOfInput,
            XmlEvent::Malformed => Token::Malformed,
        }
    }
}

/// The values of a run of events.
pub open spec fn tokens_of(events: Seq<XmlEvent>) -> Seq<Token> {
    Seq::new(events.len(), |i: int| events[i]@)
}

/// `quick_xml::reader::Reader`, the pull parser, held as a value of which
/// nothing is seen but what [`unread`] names.
#[verifier::external_type_specification]
#[verifier::external_body]
#[verifier::reject_recursive_types(R)]
pub struct ExReader<R>(quick_xml::reader::Reader<R>);

/// What a reader has yet to deliver: its events in order, up to and
/// including the first end of input or failure.
pub uninterp spec fn unread(reader: Reader<&[u8]>) -> Seq<Token>;

/// The events of a document: what a fresh reader over its text has yet to
/// deliver.
pub uninterp spec fn events_of(document: Seq<char>) -> Seq<Token>;

/// A reader at the start of a document.
///
/// Calls `Reader::from_str`, which makes a reader over the bytes of the text
/// in its initial state and with the default configuration. The contract
/// gives what that reader will deliver its name.
#[verifier::external_body]
pub(crate) fn open_reader<'a>(document: &'a str) -> (reader: Reader<&'a [u8]>)
    ensures
        unread(reader) == events_of(document@),
{
    Reader::from_str(document)
}

/// The next event of a reader.
///
/// Calls `Reader::read_event_into` with a buffer of its own, and
/// `BytesText::unescape` on character data. The contract claims that a
/// reader always has a next event, that the call delivers it, and that after
/// an event other than end of input or failure the reader is left with the
/// rest. Names and literal data are handed on as text, bytes that are not
/// UTF-8 replaced as `String::from_utf8_lossy` does; a self-closing element,
/// a comment, a declaration, a processing instruction and a document type
/// all come out as `Other`, and every error as `Malformed`.
#[verifier::external_body]
pub(crate) fn next_event(reader: &mut Reader<&[u8]>) -> (event: XmlEvent)
    ensures
        unread(*old(reader)).len() > 0,
        event@ == unread(*old(reader))[0],
        !event@.is_terminal() ==> unread(*final(reader)) == unread(*old(reader)).skip(1),
{
    let mut buffer = Vec::new();
    match reader.read_event_into(&mut buffer) {
        Ok(Event::Start(e)) => {
            XmlEvent::ElementOpen(String::from_utf8_lossy(e.name().as_ref()).into_owned())
        },
        Ok(Event::Text(e)) => XmlEvent::Text(e.unescape().ok().map(Cow::into_owned)),
        Ok(Event::CData(e)) => XmlEvent::LiteralData(String::from_utf8_lossy(&e).into_owned()),
        Ok(Event::End(_)) => XmlEvent::ElementClose,
        Ok(Event::Eof) => XmlEvent::EndOfInput,
        Ok(_) => XmlEvent::Other,
        Err(_) => XmlEvent::Malformed,
    }
}

} // verus!
