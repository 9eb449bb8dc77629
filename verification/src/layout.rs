//! The shape of a well-formed stream list, what it means, and the proof that
//! the scan finds exactly that.
//!
//! A stream list is flat: records stand one after another, each between the
//! opening and the closing of a record element, with other markup around
//! them. Inside a record stand fields, elements that hold character data
//! and literal data and no element of their own.
//!
//! The proofs speak of runs of tokens. They hold of the events of a
//! document and of a slice of events alike, since the result of either scan
//! is stated over the same function of its tokens.

use vstd::prelude::*;

use crate::error::ResolutionError;
use crate::event::Token;
use crate::scan::{Advance, ScanState, RECORD_TAG, REGION_TAG};
use crate::station::{RadioChannel, RadioLocation};
use crate::text::ascii_lower;

verus! {

/// Content that holds no element.
pub enum Leaf {
    /// Character data, its escapes resolved.
    Text(Seq<char>),
    /// A literal data block.
    Literal(Seq<char>),
    /// A comment, a processing instruction or an element that closes itself.
    Other,
}

impl Leaf {
    /// The token that stands for this leaf.
    pub open spec fn token(self) -> Token {
        match self {
            Leaf::Text(content) => Token::Text(Some(content)),
            Leaf::Literal(content) => Token::LiteralData(content),
            Leaf::Other => Token::Other,
        }
    }
}

/// The tokens of a run of leaves.
pub open spec fn leaf_tokens(content: Seq<Leaf>) -> Seq<Token> {
    Seq::new(content.len(), |i: int| content[i].token())
}

/// The character data that comes last in a run of leaves.
pub open spec fn last_text(content: Seq<Leaf>) -> Option<Seq<char>>
    decreases content.len(),
{
    if content.len() == 0 {
        None
    } else {
        match content.last() {
            Leaf::Text(text) => Some(text),
            _ => last_text(content.drop_last()),
        }
    }
}

/// The literal data block that comes last in a run of leaves.
pub open spec fn last_literal(content: Seq<Leaf>) -> Option<Seq<char>>
    decreases content.len(),
{
    if content.len() == 0 {
        None
    } else {
        match content.last() {
            Leaf::Literal(text) => Some(text),
            _ => last_literal(content.drop_last()),
        }
    }
}

/// One thing that stands inside a record.
pub enum Item {
    /// An element that holds leaves only.
    Field { name: Seq<char>, content: Seq<Leaf> },
    /// A leaf that stands between the fields.
    Loose(Leaf),
}

impl Item {
    /// The tokens of this item.
    pub open spec fn tokens(self) -> Seq<Token> {
        match self {
            Item::Field { name, content } => seq![Token::ElementOpen(name)] + leaf_tokens(content)
                + seq![Token::ElementClose],
            Item::Loose(leaf) => seq![leaf.token()],
        }
    }

    /// Whether the item keeps the record flat: no field bears the name of
    /// the record element itself.
    pub open spec fn is_flat(self) -> bool {
        match self {
            Item::Field { name, .. } => name != RECORD_TAG@,
            Item::Loose(_) => true,
        }
    }
}

/// The tokens of a run of items.
pub open spec fn item_tokens(items: Seq<Item>) -> Seq<Token>
    decreases items.len(),
{
    if items.len() == 0 {
        Seq::empty()
    } else {
        item_tokens(items.drop_last()) + items.last().tokens()
    }
}

/// The character data of the last field of the given name that holds any.
pub open spec fn field_text(items: Seq<Item>, name: Seq<char>) -> Option<Seq<char>>
    decreases items.len(),
{
    if items.len() == 0 {
        None
    } else {
        match items.last() {
            Item::Field { name: found, content } => if found == name && last_text(content) is Some {
                last_text(content)
            } else {
                field_text(items.drop_last(), name)
            },
            Item::Loose(_) => field_text(items.drop_last(), name),
        }
    }
}

/// The literal data of the last field of the given name that holds any.
pub open spec fn field_literal(items: Seq<Item>, name: Seq<char>) -> Option<Seq<char>>
    decreases items.len(),
{
    if items.len() == 0 {
        None
    } else {
        match items.last() {
            Item::Field { name: found, content } => if found == name && last_literal(content)
                is Some {
                last_literal(content)
            } else {
                field_literal(items.drop_last(), name)
            },
            Item::Loose(_) => field_literal(items.drop_last(), name),
        }
    }
}

/// One record of a stream list: what stands between the opening and the
/// closing of a record element.
pub struct Record {
    pub items: Seq<Item>,
}

impl Record {
    /// Whether the record is flat.
    pub open spec fn well_formed(self) -> bool {
        forall|i: int| 0 <= i < self.items.len() ==> (#[trigger] self.items[i]).is_flat()
    }

    /// The tokens of the record, from its opening to its closing.
    pub open spec fn tokens(self) -> Seq<Token> {
        seq![Token::ElementOpen(RECORD_TAG@)] + item_tokens(self.items) + seq![Token::ElementClose]
    }

    /// The region key that the record states; empty where it states none.
    pub open spec fn region(self) -> Seq<char> {
        match field_text(self.items, REGION_TAG@) {
            Some(key) => key,
            None => Seq::empty(),
        }
    }

    /// The endpoint that the record states for a channel, in lower case;
    /// empty where it states none.
    pub open spec fn endpoint(self, channel: RadioChannel) -> Seq<char> {
        match field_literal(self.items, channel.token()) {
            Some(url) => ascii_lower(url),
            None => Seq::empty(),
        }
    }

    /// What a resolution that rests on this record returns.
    pub open spec fn verdict(self, channel: RadioChannel) -> Result<Seq<char>, ResolutionError> {
        if self.endpoint(channel).len() == 0 {
            Err(ResolutionError::EmptyEndpoint)
        } else {
            Ok(self.endpoint(channel))
        }
    }
}

/// Whether an element name is one that the scan acts on.
pub open spec fn is_reserved(name: Seq<char>) -> bool {
    ||| name == RECORD_TAG@
    ||| name == REGION_TAG@
    ||| name == RadioChannel::NhkR1.token()
    ||| name == RadioChannel::NhkR2.token()
    ||| name == RadioChannel::NhkFm.token()
}

/// Whether a token may stand outside the records: it is neither the end of
/// the document nor a failure, and it opens no element that the scan acts
/// on.
pub open spec fn is_passive(token: Token) -> bool {
    match token {
        Token::ElementOpen(name) => !is_reserved(name),
        Token::Text(Some(_)) => true,
        Token::LiteralData(_) => true,
        Token::ElementClose => true,
        Token::Other => true,
        _ => false,
    }
}

/// One stretch of a stream list.
pub enum Segment {
    /// A record.
    Entry(Record),
    /// Markup outside the records.
    Filler(Seq<Token>),
}

impl Segment {
    /// Whether the segment is a flat record, or passive markup.
    pub open spec fn well_formed(self) -> bool {
        match self {
            Segment::Entry(record) => record.well_formed(),
            Segment::Filler(tokens) => forall|i: int|
                0 <= i < tokens.len() ==> is_passive(#[trigger] tokens[i]),
        }
    }

    /// The tokens of the segment.
    pub open spec fn tokens(self) -> Seq<Token> {
        match self {
            Segment::Entry(record) => record.tokens(),
            Segment::Filler(tokens) => tokens,
        }
    }
}

/// Whether every segment of a layout is well formed.
pub open spec fn layout_well_formed(segments: Seq<Segment>) -> bool {
    forall|i: int| 0 <= i < segments.len() ==> (#[trigger] segments[i]).well_formed()
}

/// The tokens of a layout, segment after segment.
pub open spec fn layout_tokens(segments: Seq<Segment>) -> Seq<Token>
    decreases segments.len(),
{
    if segments.len() == 0 {
        Seq::empty()
    } else {
        segments.first().tokens() + layout_tokens(segments.drop_first())
    }
}

/// The first record of a layout that states the key of `location`.
pub open spec fn first_record_of(segments: Seq<Segment>, location: RadioLocation) -> Option<Record>
    decreases segments.len(),
{
    if segments.len() == 0 {
        None
    } else {
        match segments.first() {
            Segment::Entry(record) => if record.region() == location.token() {
                Some(record)
            } else {
                first_record_of(segments.drop_first(), location)
            },
            Segment::Filler(_) => first_record_of(segments.drop_first(), location),
        }
    }
}

impl ScanState {
    /// What a run of tokens does to the scan in this state: the state that
    /// it leaves, or the result of the first token that ends the scan.
    pub open spec fn run(
        self,
        tokens: Seq<Token>,
        location: RadioLocation,
        channel: RadioChannel,
    ) -> Advance
        decreases tokens.len(),
    {
        if tokens.len() == 0 {
            Advance::Continue(self)
        } else {
            match self.advance(tokens[0], location, channel) {
                Advance::Continue(next) => next.run(tokens.skip(1), location, channel),
                Advance::Finished(result) => Advance::Finished(result),
            }
        }
    }

    /// Whether the scan stands outside every record with nothing
    /// accumulated: no open element is one that the scan acts on.
    pub open spec fn is_idle(self) -> bool {
        &&& self.region.len() == 0
        &&& self.r1.len() == 0
        &&& self.r2.len() == 0
        &&& self.fm.len() == 0
        &&& !is_reserved(self.current)
        &&& forall|i: int| 0 <= i < self.stack.len() ==> !is_reserved(#[trigger] self.stack[i])
    }
}

/// The reserved element names are five different names, none of them empty.
proof fn lemma_reserved_names()
    ensures
        RECORD_TAG@ == "data"@,
        REGION_TAG@ == "area"@,
        "data"@.len() == 4,
        "area"@.len() == 4,
        RadioChannel::NhkR1.token().len() == 5,
        RadioChannel::NhkR2.token().len() == 5,
        RadioChannel::NhkFm.token().len() == 5,
        RECORD_TAG@ != REGION_TAG@,
        RadioChannel::NhkR1.token() != RadioChannel::NhkR2.token(),
        RadioChannel::NhkR1.token() != RadioChannel::NhkFm.token(),
        RadioChannel::NhkR2.token() != RadioChannel::NhkFm.token(),
        !is_reserved(Seq::<char>::empty()),
{
    reveal_strlit("data");
    reveal_strlit("area");
    reveal_strlit("r1hls");
    reveal_strlit("r2hls");
    reveal_strlit("fmhls");
    assert("data"@[0] != "area"@[0]);
    assert("r1hls"@[1] != "r2hls"@[1]);
    assert(Seq::<char>::empty().len() == 0);
}

/// Scanning a run of tokens in two parts: the second part is scanned from
/// where the first leaves the scan.
pub proof fn lemma_run_split(
    state: ScanState,
    head: Seq<Token>,
    tail: Seq<Token>,
    location: RadioLocation,
    channel: RadioChannel,
)
    ensures
        state.run(head + tail, location, channel) == match state.run(head, location, channel) {
            Advance::Continue(next) => next.run(tail, location, channel),
            Advance::Finished(result) => Advance::Finished(result),
        },
        state.scan(head + tail, location, channel) == match state.run(head, location, channel) {
            Advance::Continue(next) => next.scan(tail, location, channel),
            Advance::Finished(result) => result,
        },
    decreases head.len(),
{
    if head.len() > 0 {
        assert((head + tail).skip(1) =~= head.skip(1) + tail);
        if let Advance::Continue(next) = state.advance(head[0], location, channel) {
            lemma_run_split(next, head.skip(1), tail, location, channel);
        }
    }
}

/// A run of one token does what the token does.
proof fn lemma_run_one(
    state: ScanState,
    token: Token,
    location: RadioLocation,
    channel: RadioChannel,
)
    ensures
        state.run(seq![token], location, channel) == state.advance(token, location, channel),
{
    if let Advance::Continue(next) = state.advance(token, location, channel) {
        assert(next.run(seq![token].skip(1), location, channel) == Advance::Continue(next));
    }
}

impl ScanState {
    /// The state that a run of leaves leaves: the last character data and
    /// the last literal data block count, each where the current element
    /// takes it.
    pub open spec fn after_leaves(self, content: Seq<Leaf>) -> ScanState {
        let texted = match last_text(content) {
            Some(text) => self.with_text(text),
            None => self,
        };
        match last_literal(content) {
            Some(text) => texted.with_literal(text),
            None => texted,
        }
    }

    /// The state that the items of a record leave: each accumulator holds
    /// what the items state for it, or what it held before.
    pub open spec fn assembled(self, items: Seq<Item>) -> ScanState {
        ScanState {
            region: match field_text(items, REGION_TAG@) {
                Some(key) => key,
                None => self.region,
            },
            r1: match field_literal(items, RadioChannel::NhkR1.token()) {
                Some(url) => ascii_lower(url),
                None => self.r1,
            },
            r2: match field_literal(items, RadioChannel::NhkR2.token()) {
                Some(url) => ascii_lower(url),
                None => self.r2,
            },
            fm: match field_literal(items, RadioChannel::NhkFm.token()) {
                Some(url) => ascii_lower(url),
                None => self.fm,
            },
            ..self
        }
    }
}

/// Leaves never end a scan, and leave the state that `after_leaves` gives.
proof fn lemma_leaves(
    state: ScanState,
    content: Seq<Leaf>,
    location: RadioLocation,
    channel: RadioChannel,
)
    ensures
        state.run(leaf_tokens(content), location, channel) == Advance::Continue(
            state.after_leaves(content),
        ),
    decreases content.len(),
{
    if content.len() > 0 {
        let init = content.drop_last();
        let token = content.last().token();
        lemma_leaves(state, init, location, channel);
        assert(leaf_tokens(content) =~= leaf_tokens(init) + seq![token]);
        lemma_run_split(state, leaf_tokens(init), seq![token], location, channel);
        lemma_run_one(state.after_leaves(init), token, location, channel);
    }
}

/// A field inside a record never ends a scan; it leaves the record current
/// and the accumulators as its leaves set them.
proof fn lemma_field(
    state: ScanState,
    name: Seq<char>,
    content: Seq<Leaf>,
    location: RadioLocation,
    channel: RadioChannel,
)
    requires
        name != RECORD_TAG@,
    ensures
        state.run(Item::Field { name, content }.tokens(), location, channel) == Advance::Continue(
            ScanState {
                stack: state.stack,
                current: state.current,
                ..state.opened(name).after_leaves(content)
            },
        ),
{
    let open = seq![Token::ElementOpen(name)];
    let close = seq![Token::ElementClose];
    let entered = state.opened(name);
    let filled = entered.after_leaves(content);
    lemma_run_one(state, Token::ElementOpen(name), location, channel);
    lemma_leaves(entered, content, location, channel);
    lemma_run_split(state, open, leaf_tokens(content), location, channel);
    lemma_run_one(filled, Token::ElementClose, location, channel);
    lemma_run_split(state, open + leaf_tokens(content), close, location, channel);
    assert(filled.stack.drop_last() =~= state.stack);
}

/// The items of a flat record never end a scan, and leave the state that
/// `assembled` gives.
proof fn lemma_items(
    state: ScanState,
    items: Seq<Item>,
    location: RadioLocation,
    channel: RadioChannel,
)
    requires
        state.current == RECORD_TAG@,
        forall|i: int| 0 <= i < items.len() ==> (#[trigger] items[i]).is_flat(),
    ensures
        state.run(item_tokens(items), location, channel) == Advance::Continue(
            state.assembled(items),
        ),
    decreases items.len(),
{
    lemma_reserved_names();
    if items.len() > 0 {
        let init = items.drop_last();
        let last = items.last();
        let mid = state.assembled(init);
        assert forall|i: int| 0 <= i < init.len() implies (#[trigger] init[i]).is_flat() by {
            assert(init[i] == items[i]);
        }
        lemma_items(state, init, location, channel);
        lemma_run_split(state, item_tokens(init), last.tokens(), location, channel);
        match last {
            Item::Field { name, content } => {
                lemma_field(mid, name, content, location, channel);
            },
            Item::Loose(leaf) => {
                lemma_run_one(mid, leaf.token(), location, channel);
            },
        }
    }
}

/// A flat record, met by an idle scan, ends the scan with its verdict where
/// it states the key of `location`, and otherwise leaves the scan as it
/// was: nothing of the record stays behind.
pub proof fn lemma_record(
    state: ScanState,
    record: Record,
    location: RadioLocation,
    channel: RadioChannel,
)
    requires
        state.is_idle(),
        record.well_formed(),
    ensures
        state.run(record.tokens(), location, channel) == if record.region() == location.token() {
            Advance::Finished(record.verdict(channel))
        } else {
            Advance::Continue(state)
        },
{
    lemma_reserved_names();
    let open = seq![Token::ElementOpen(RECORD_TAG@)];
    let close = seq![Token::ElementClose];
    let entered = state.opened(RECORD_TAG@);
    let filled = entered.assembled(record.items);
    lemma_run_one(state, Token::ElementOpen(RECORD_TAG@), location, channel);
    lemma_items(entered, record.items, location, channel);
    lemma_run_split(state, open, item_tokens(record.items), location, channel);
    lemma_run_one(filled, Token::ElementClose, location, channel);
    lemma_run_split(state, open + item_tokens(record.items), close, location, channel);
    assert(state.region =~= Seq::empty());
    assert(state.r1 =~= Seq::empty());
    assert(state.r2 =~= Seq::empty());
    assert(state.fm =~= Seq::empty());
    assert(filled.stack.drop_last() =~= state.stack);
}

/// Passive markup, met by an idle scan, leaves the scan idle.
proof fn lemma_filler(
    state: ScanState,
    tokens: Seq<Token>,
    location: RadioLocation,
    channel: RadioChannel,
)
    requires
        state.is_idle(),
        forall|i: int| 0 <= i < tokens.len() ==> is_passive(#[trigger] tokens[i]),
    ensures
        state.run(tokens, location, channel) matches Advance::Continue(next) && next.is_idle(),
    decreases tokens.len(),
{
    lemma_reserved_names();
    if tokens.len() > 0 {
        let next = state.advance(tokens[0], location, channel)->Continue_0;
        assert forall|i: int| 0 <= i < next.stack.len() implies !is_reserved(
            #[trigger] next.stack[i],
        ) by {
            if i < state.stack.len() {
                assert(next.stack[i] == state.stack[i]);
            }
        }
        assert forall|i: int| 0 <= i < tokens.skip(1).len() implies is_passive(
            #[trigger] tokens.skip(1)[i],
        ) by {
            assert(tokens.skip(1)[i] == tokens[i + 1]);
        }
        lemma_filler(next, tokens.skip(1), location, channel);
    }
}

/// A well-formed layout, met by an idle scan, ends the scan with the
/// verdict of its first record of `location`; where it has none, it leaves
/// the scan idle.
pub proof fn lemma_layout(
    state: ScanState,
    segments: Seq<Segment>,
    location: RadioLocation,
    channel: RadioChannel,
)
    requires
        state.is_idle(),
        layout_well_formed(segments),
    ensures
        match first_record_of(segments, location) {
            Some(record) => state.run(layout_tokens(segments), location, channel)
                == Advance::Finished(record.verdict(channel)),
            None => state.run(layout_tokens(segments), location, channel) matches Advance::Continue(
                next,
            ) && next.is_idle(),
        },
    decreases segments.len(),
{
    if segments.len() > 0 {
        let first = segments.first();
        let rest = segments.drop_first();
        assert forall|i: int| 0 <= i < rest.len() implies (#[trigger] rest[i]).well_formed() by {
            assert(rest[i] == segments[i + 1]);
        }
        lemma_run_split(state, first.tokens(), layout_tokens(rest), location, channel);
        match first {
            Segment::Entry(record) => {
                lemma_record(state, record, location, channel);
                if record.region() != location.token() {
                    lemma_layout(state, rest, location, channel);
                }
            },
            Segment::Filler(tokens) => {
                lemma_filler(state, tokens, location, channel);
                let next = state.run(tokens, location, channel)->Continue_0;
                lemma_layout(next, rest, location, channel);
            },
        }
    }
}

/// The first record of the requested region decides. Where the events of a
/// document begin with a well-formed layout that holds a record of
/// `location`, the scan returns the verdict of the first such record,
/// whatever stands before it in the layout and whatever follows the layout.
pub proof fn lemma_first_record_decides(
    segments: Seq<Segment>,
    rest: Seq<Token>,
    location: RadioLocation,
    channel: RadioChannel,
)
    requires
        layout_well_formed(segments),
        first_record_of(segments, location) is Some,
    ensures
        ScanState::initial().scan(layout_tokens(segments) + rest, location, channel)
            == first_record_of(segments, location)->0.verdict(channel),
{
    lemma_reserved_names();
    let start = ScanState::initial();
    lemma_layout(start, segments, location, channel);
    lemma_run_split(start, layout_tokens(segments), rest, location, channel);
}

/// A record of the requested region with an endpoint for the channel gives
/// that endpoint. The scan returns its lower-case form, which is the
/// endpoint itself where it holds no upper-case letter.
pub proof fn lemma_endpoint_is_returned(
    segments: Seq<Segment>,
    rest: Seq<Token>,
    location: RadioLocation,
    channel: RadioChannel,
    url: Seq<char>,
)
    requires
        layout_well_formed(segments),
        first_record_of(segments, location) matches Some(record) && field_literal(
            record.items,
            channel.token(),
        ) == Some(url),
        url.len() > 0,
    ensures
        ScanState::initial().scan(layout_tokens(segments) + rest, location, channel) == Ok::<
            Seq<char>,
            ResolutionError,
        >(ascii_lower(url)),
        ascii_lower(url) == url ==> ScanState::initial().scan(
            layout_tokens(segments) + rest,
            location,
            channel,
        ) == Ok::<Seq<char>, ResolutionError>(url),
{
    lemma_first_record_decides(segments, rest, location, channel);
}

/// A document without a record of the requested region is exhausted. Where
/// the events of a document are a well-formed layout that holds no record
/// of `location`, in whatever order its records stand, and then the end of
/// the document, the scan fails with `DocumentExhausted`.
pub proof fn lemma_missing_region_exhausts(
    segments: Seq<Segment>,
    rest: Seq<Token>,
    location: RadioLocation,
    channel: RadioChannel,
)
    requires
        layout_well_formed(segments),
        first_record_of(segments, location) is None,
        rest.len() == 0 || rest[0] == Token::EndOfInput,
    ensures
        ScanState::initial().scan(layout_tokens(segments) + rest, location, channel) == Err::<
            Seq<char>,
            ResolutionError,
        >(ResolutionError::DocumentExhausted),
{
    lemma_reserved_names();
    let start = ScanState::initial();
    lemma_layout(start, segments, location, channel);
    lemma_run_split(start, layout_tokens(segments), rest, location, channel);
}

/// A record of the requested region without an endpoint for the channel is
/// reported as such: the scan fails with `EmptyEndpoint` and returns no
/// empty string.
pub proof fn lemma_blank_endpoint_is_reported(
    segments: Seq<Segment>,
    rest: Seq<Token>,
    location: RadioLocation,
    channel: RadioChannel,
)
    requires
        layout_well_formed(segments),
        first_record_of(segments, location) matches Some(record) && record.endpoint(channel).len()
            == 0,
    ensures
        ScanState::initial().scan(layout_tokens(segments) + rest, location, channel) == Err::<
            Seq<char>,
            ResolutionError,
        >(ResolutionError::EmptyEndpoint),
{
    lemma_first_record_decides(segments, rest, location, channel);
}

/// Records do not leak into one another. A record of the requested region
/// is judged by what it states itself: the scan returns the same for it
/// after any well-formed layout of other regions' records as it returns for
/// it alone.
pub proof fn lemma_records_do_not_leak(
    before: Seq<Segment>,
    record: Record,
    rest: Seq<Token>,
    location: RadioLocation,
    channel: RadioChannel,
)
    requires
        layout_well_formed(before),
        first_record_of(before, location) is None,
        record.well_formed(),
        record.region() == location.token(),
    ensures
        ScanState::initial().scan(
            layout_tokens(before) + (record.tokens() + rest),
            location,
            channel,
        ) == record.verdict(channel),
        ScanState::initial().scan(record.tokens() + rest, location, channel) == record.verdict(
            channel,
        ),
{
    lemma_reserved_names();
    let start = ScanState::initial();
    lemma_layout(start, before, location, channel);
    lemma_run_split(start, layout_tokens(before), record.tokens() + rest, location, channel);
    let idle = start.run(layout_tokens(before), location, channel)->Continue_0;
    lemma_record(idle, record, location, channel);
    lemma_run_split(idle, record.tokens(), rest, location, channel);
    lemma_record(start, record, location, channel);
    lemma_run_split(start, record.tokens(), rest, location, channel);
}

} // verus!
