//! The streaming scan: a stack of open element names and four accumulators,
//! moved forward one event at a time until the record of the requested
//! region closes.

use vstd::prelude::*;

use crate::error::ResolutionError;
use crate::event::{events_of, next_event, open_reader, tokens_of, unread, Token, XmlEvent};
use crate::station::{RadioChannel, RadioLocation};
use crate::text::{ascii_lower, same_text, to_lower};

verus! {

/// The element that bounds one record.
pub const RECORD_TAG: &'static str = "data";

/// The element that holds a record's region key.
pub const REGION_TAG: &'static str = "area";

/// The state of a scan between two events, as a mathematical value.
pub struct ScanState {
    /// The names of the elements that enclose the current one, innermost last.
    pub stack: Seq<Seq<char>>,
    /// The name of the current element; empty at the document root.
    pub current: Seq<char>,
    /// The region key of the record being assembled.
    pub region: Seq<char>,
    /// The endpoint of the first radio channel.
    pub r1: Seq<char>,
    /// The endpoint of the second radio channel.
    pub r2: Seq<char>,
    /// The endpoint of the FM channel.
    pub fm: Seq<char>,
}

/// What one event does to a scan.
pub enum Advance {
    /// The scan goes on in the given state.
    Continue(ScanState),
    /// The scan is over with the given result.
    Finished(Result<Seq<char>, ResolutionError>),
}

impl ScanState {
    /// The state before the first event.
    pub open spec fn initial() -> ScanState {
        ScanState {
            stack: Seq::empty(),
            current: Seq::empty(),
            region: Seq::empty(),
            r1: Seq::empty(),
            r2: Seq::empty(),
            fm: Seq::empty(),
        }
    }

    /// The accumulated endpoint of a channel.
    pub open spec fn slot(self, channel: RadioChannel) -> Seq<char> {
        match channel {
            RadioChannel::NhkR1 => self.r1,
            RadioChannel::NhkR2 => self.r2,
            RadioChannel::NhkFm => self.fm,
        }
    }

    /// The state after an element named `name` has opened.
    pub open spec fn opened(self, name: Seq<char>) -> ScanState {
        ScanState { stack: self.stack.push(self.current), current: name, ..self }
    }

    /// The state after the current element has closed: the enclosing element
    /// is current again, or none at the root.
    pub open spec fn closed(self) -> ScanState {
        if self.stack.len() > 0 {
            ScanState { stack: self.stack.drop_last(), current: self.stack.last(), ..self }
        } else {
            ScanState { current: Seq::empty(), ..self }
        }
    }

    /// The state with its four accumulators empty.
    pub open spec fn cleared(self) -> ScanState {
        ScanState {
            region: Seq::empty(),
            r1: Seq::empty(),
            r2: Seq::empty(),
            fm: Seq::empty(),
            ..self
        }
    }

    /// The state after character data: inside the region element the data
    /// becomes the region key. Elsewhere it changes nothing, also where it
    /// is the region's name as people read it.
    pub open spec fn with_text(self, content: Seq<char>) -> ScanState {
        if self.current == REGION_TAG@ {
            ScanState { region: content, ..self }
        } else {
            self
        }
    }

    /// The state after a literal data block: inside the element of a channel
    /// its lower-case form becomes that channel's endpoint.
    pub open spec fn with_literal(self, content: Seq<char>) -> ScanState {
        if self.current == RadioChannel::NhkR1.token() {
            ScanState { r1: ascii_lower(content), ..self }
        } else if self.current == RadioChannel::NhkR2.token() {
            ScanState { r2: ascii_lower(content), ..self }
        } else if self.current == RadioChannel::NhkFm.token() {
            ScanState { fm: ascii_lower(content), ..self }
        } else {
            self
        }
    }

    /// Whether the current element is a record of the given region.
    pub open spec fn at_record_of(self, location: RadioLocation) -> bool {
        self.current == RECORD_TAG@ && self.region == location.token()
    }

    /// The result of a scan that ends on the record assembled in this state.
    pub open spec fn selected(self, channel: RadioChannel) -> Result<Seq<char>, ResolutionError> {
        if self.slot(channel).len() == 0 {
            Err(ResolutionError::EmptyEndpoint)
        } else {
            Ok(self.slot(channel))
        }
    }

    /// What one event does to the scan in this state.
    pub open spec fn advance(
        self,
        token: Token,
        location: RadioLocation,
        channel: RadioChannel,
    ) -> Advance {
        match token {
            Token::ElementOpen(name) => Advance::Continue(self.opened(name)),
            Token::Text(Some(content)) => Advance::Continue(self.with_text(content)),
            Token::Text(None) => Advance::Finished(Err(ResolutionError::MalformedDocument)),
            Token::LiteralData(content) => Advance::Continue(self.with_literal(content)),
            Token::ElementClose => if self.at_record_of(location) {
                Advance::Finished(self.selected(channel))
            } else if self.current == RECORD_TAG@ {
                Advance::Continue(self.cleared().closed())
            } else {
                Advance::Continue(self.closed())
            },
            Token::Other => Advance::Continue(self),
            Token::EndOfInput => Advance::Finished(Err(ResolutionError::DocumentExhausted)),
            Token::Malformed => Advance::Finished(Err(ResolutionError::MalformedDocument)),
        }
    }

    /// The result of scanning `tokens` from this state. A run of tokens that
    /// stops without a verdict counts as a document that has ended.
    pub open spec fn scan(
        self,
        tokens: Seq<Token>,
        location: RadioLocation,
        channel: RadioChannel,
    ) -> Result<Seq<char>, ResolutionError>
        decreases tokens.len(),
    {
        if tokens.len() == 0 {
            Err(ResolutionError::DocumentExhausted)
        } else {
            match self.advance(tokens[0], location, channel) {
                Advance::Continue(next) => next.scan(tokens.skip(1), location, channel),
                Advance::Finished(result) => result,
            }
        }
    }
}

/// The endpoint that a document holds for a region and a channel: the result
/// of scanning its events from the initial state.
pub open spec fn resolution(
    document: Seq<char>,
    location: RadioLocation,
    channel: RadioChannel,
) -> Result<Seq<char>, ResolutionError> {
    ScanState::initial().scan(events_of(document), location, channel)
}

/// The mathematical value of a result of the scan.
pub open spec fn result_view(result: Result<String, ResolutionError>) -> Result<
    Seq<char>,
    ResolutionError,
> {
    match result {
        Ok(url) => Ok(url@),
        Err(error) => Err(error),
    }
}

/// The names held by a stack of strings.
pub open spec fn names_of(stack: Seq<String>) -> Seq<Seq<char>> {
    Seq::new(stack.len(), |i: int| stack[i]@)
}

/// The state of one scan: the open-element path and the accumulators of the
/// record being assembled.
pub struct ParseContext {
    /// The names of the elements that enclose the current one, innermost last.
    pub stack: Vec<String>,
    /// The name of the current element; empty at the document root.
    pub current: String,
    /// The region key of the record being assembled.
    pub region: String,
    /// The endpoint of the first radio channel.
    pub r1: String,
    /// The endpoint of the second radio channel.
    pub r2: String,
    /// The endpoint of the FM channel.
    pub fm: String,
}

impl View for ParseContext {
    type V = ScanState;

    open spec fn view(&self) -> ScanState {
        ScanState {
            stack: names_of(self.stack@),
            current: self.current@,
            region: self.region@,
            r1: self.r1@,
            r2: self.r2@,
            fm: self.fm@,
        }
    }
}

impl ParseContext {
    /// The context before the first event.
    pub fn new() -> (context: ParseContext)
        ensures
            context@ == ScanState::initial(),
    {
        let context = ParseContext {
            stack: Vec::new(),
            current: String::new(),
            region: String::new(),
            r1: String::new(),
            r2: String::new(),
            fm: String::new(),
        };
        assert(names_of(context.stack@) =~= Seq::empty());
        context
    }

    /// Enters an element: the current name goes on the stack.
    fn open(&mut self, name: &String)
        ensures
            final(self)@ == old(self)@.opened(name@),
    {
        let outer = self.current.clone();
        self.stack.push(outer);
        self.current = name.clone();
        assert(names_of(self.stack@) =~= old(self)@.stack.push(old(self)@.current));
    }

    /// Leaves the current element: the name on top of the stack is current
    /// again.
    fn close(&mut self)
        ensures
            final(self)@ == old(self)@.closed(),
    {
        match self.stack.pop() {
            Some(outer) => {
                self.current = outer;
                assert(names_of(self.stack@) =~= old(self)@.stack.drop_last());
            },
            None => {
                self.current = String::new();
            },
        }
    }

    /// Empties the four accumulators.
    fn clear(&mut self)
        ensures
            final(self)@ == old(self)@.cleared(),
    {
        self.region = String::new();
        self.r1 = String::new();
        self.r2 = String::new();
        self.fm = String::new();
    }

    /// Takes character data in.
    fn take_text(&mut self, content: &String)
        ensures
            final(self)@ == old(self)@.with_text(content@),
    {
        if same_text(self.current.as_str(), REGION_TAG) {
            self.region = content.clone();
        }
    }

    /// Takes a literal data block in.
    fn take_literal(&mut self, content: &String)
        ensures
            final(self)@ == old(self)@.with_literal(content@),
    {
        let lowered = to_lower(content.as_str());
        if same_text(self.current.as_str(), RadioChannel::NhkR1.as_str()) {
            self.r1 = lowered;
        } else if same_text(self.current.as_str(), RadioChannel::NhkR2.as_str()) {
            self.r2 = lowered;
        } else if same_text(self.current.as_str(), RadioChannel::NhkFm.as_str()) {
            self.fm = lowered;
        }
    }

    /// The endpoint of `channel` as accumulated so far, or the failure that
    /// an empty one stands for.
    fn select(&self, channel: RadioChannel) -> (result: Result<String, ResolutionError>)
        ensures
            result_view(result) == self@.selected(channel),
    {
        let slot = match channel {
            RadioChannel::NhkR1 => &self.r1,
            RadioChannel::NhkR2 => &self.r2,
            RadioChannel::NhkFm => &self.fm,
        };
        if slot.as_str().is_empty() {
            Err(ResolutionError::EmptyEndpoint)
        } else {
            Ok(slot.clone())
        }
    }

    /// Moves the scan over one event. Returns the result where the event
    /// ends the scan, and `None` where the scan goes on.
    pub fn advance(
        &mut self,
        event: &XmlEvent,
        location: RadioLocation,
        channel: RadioChannel,
    ) -> (verdict: Option<Result<String, ResolutionError>>)
        ensures
            match old(self)@.advance(event@, location, channel) {
                Advance::Continue(next) => verdict is None && final(self)@ == next,
                Advance::Finished(result) => {
                    &&& verdict matches Some(found) && result_view(found) == result
                    &&& final(self)@ == old(self)@
                },
            },
    {
        match event {
            XmlEvent::ElementOpen(name) => {
                self.open(name);
                None
            },
            XmlEvent::Text(Some(content)) => {
                self.take_text(content);
                None
            },
            XmlEvent::Text(None) => Some(Err(ResolutionError::MalformedDocument)),
            XmlEvent::LiteralData(content) => {
                self.take_literal(content);
                None
            },
            XmlEvent::ElementClose => {
                if same_text(self.current.as_str(), RECORD_TAG) {
                    if same_text(self.region.as_str(), location.as_str()) {
                        return Some(self.select(channel));
                    }
                    self.clear();
                }
                self.close();
                None
            },
            XmlEvent::Other => None,
            XmlEvent::EndOfInput => Some(Err(ResolutionError::DocumentExhausted)),
            XmlEvent::Malformed => Some(Err(ResolutionError::MalformedDocument)),
        }
    }
}

/// Scans a run of events for the endpoint of `channel` in the record of
/// `location`.
pub fn resolve_events(events: &[XmlEvent], location: RadioLocation, channel: RadioChannel) -> (result:
    Result<String, ResolutionError>)
    ensures
        result_view(result) == ScanState::initial().scan(tokens_of(events@), location, channel),
{
    let mut context = ParseContext::new();
    let mut i: usize = 0;
    assert(tokens_of(events@).skip(0) =~= tokens_of(events@));
    while i < events.len()
        invariant
            i <= events.len(),
            context@.scan(tokens_of(events@).skip(i as int), location, channel)
                == ScanState::initial().scan(tokens_of(events@), location, channel),
        decreases events.len() - i,
    {
        let ghost rest = tokens_of(events@).skip(i as int);
        assert(rest[0] == events@[i as int]@);
        assert(rest.skip(1) =~= tokens_of(events@).skip(i + 1));
        if let Some(result) = context.advance(&events[i], location, channel) {
            return result;
        }
        i += 1;
    }
    Err(ResolutionError::DocumentExhausted)
}

/// Resolves a stream list into the endpoint of `channel` for `location`.
///
/// The document is read event by event and never held as a tree. The first
/// record of the region decides: its endpoint is returned, or
/// `EmptyEndpoint` where it has none for the channel. A document that ends
/// before such a record gives `DocumentExhausted`, one that is not well
/// formed up to there gives `MalformedDocument`.
pub fn get_station_url(document: &str, location: RadioLocation, channel: RadioChannel) -> (result:
    Result<String, ResolutionError>)
    ensures
        result_view(result) == resolution(document@, location, channel),
{
    let mut reader = open_reader(document);
    let mut context = ParseContext::new();
    loop
        invariant
            context@.scan(unread(reader), location, channel) == resolution(
                document@,
                location,
                channel,
            ),
        decreases unread(reader).len(),
    {
        let event = next_event(&mut reader);
        if let Some(result) = context.advance(&event, location, channel) {
            return result;
        }
    }
}

} // verus!
