//! Download and listing streams: the transition function that decides what
//! a session delivers, and the delivery protocol it guarantees.

use vstd::prelude::*;

use crate::ids::{is_v4_id, new_session_id};
use crate::meta::ObjectMeta;

verus! {

/// What a streaming session delivers: the bytes of one object, or the
/// metadata of the objects under a prefix.
#[derive(Clone, Copy, Debug, PartialEq, Eq, Structural)]
pub enum StreamKind {
    Download,
    Listing,
}

/// Where a streaming session stands. The last four phases are terminal.
#[derive(Clone, Copy, Debug, PartialEq, Eq, Structural)]
pub enum StreamPhase {
    /// Waiting for the backend to open the object.
    Starting,
    /// Pulling elements and delivering them.
    Streaming,
    /// The sequence ran out and `Done` was delivered.
    Done,
    /// The backend failed and `Error` was delivered.
    Errored,
    /// The session was cancelled; nothing more is delivered.
    Cancelled,
    /// A delivery failed; nothing more is delivered.
    ReceiverGone,
}

impl StreamPhase {
    pub open spec fn is_terminal(self) -> bool {
        !(self is Starting) && !(self is Streaming)
    }

    pub fn is_finished(&self) -> (r: bool)
        ensures
            r == self.is_terminal(),
    {
        !matches!(self, StreamPhase::Starting | StreamPhase::Streaming)
    }
}

/// One element pulled from the backend's lazy sequence.
#[derive(Clone, Debug, PartialEq, Eq)]
pub enum StreamItem {
    Chunk(Vec<u8>),
    Object(ObjectMeta),
}

/// What the work around a session observed.
#[derive(Clone, Debug, PartialEq, Eq)]
pub enum StreamEvent {
    /// The backend opened the sequence.
    Opened,
    /// The next element arrived.
    Item(StreamItem),
    /// The backend failed, with a description.
    Failed(String),
    /// The sequence has no more elements.
    Exhausted,
    /// A message could not be delivered.
    ReceiverGone,
    /// The session's registry entry was cancelled.
    Cancelled,
}

/// A message for the receiver; each carries its session identifier.
#[derive(Clone, Debug, PartialEq, Eq)]
pub enum StreamMessage {
    Chunk(u128, Vec<u8>),
    Object(u128, ObjectMeta),
    Done(u128),
    Error(u128, String),
}

impl StreamMessage {
    pub open spec fn spec_session_id(self) -> u128 {
        match self {
            StreamMessage::Chunk(id, _) => id,
            StreamMessage::Object(id, _) => id,
            StreamMessage::Done(id) => id,
            StreamMessage::Error(id, _) => id,
        }
    }

    pub open spec fn is_terminal(self) -> bool {
        (self is Done) || (self is Error)
    }

    pub fn session_id(&self) -> (r: u128)
        ensures
            r == self.spec_session_id(),
    {
        match self {
            StreamMessage::Chunk(id, _) => *id,
            StreamMessage::Object(id, _) => *id,
            StreamMessage::Done(id) => *id,
            StreamMessage::Error(id, _) => *id,
        }
    }
}

/// What the work around a session does next.
#[derive(Clone, Debug, PartialEq, Eq)]
pub enum StreamAction {
    /// Pull the next element.
    Pull,
    /// Deliver the message, then pull the next element.
    DeliverAndPull(StreamMessage),
    /// Deliver the message, then stop.
    DeliverAndStop(StreamMessage),
    /// Stop without delivering anything.
    Stop,
}

pub open spec fn item_message(id: u128, item: StreamItem) -> StreamMessage {
    match item {
        StreamItem::Chunk(data) => StreamMessage::Chunk(id, data),
        StreamItem::Object(meta) => StreamMessage::Object(id, meta),
    }
}

/// The transition of session `id` in `phase` on `event`: a terminal phase
/// absorbs every event silently; otherwise elements are delivered, a failure
/// or exhaustion delivers one terminal message, and cancellation or a lost
/// receiver stop without a message.
pub open spec fn step_spec(id: u128, phase: StreamPhase, event: StreamEvent) -> (
    StreamPhase,
    StreamAction,
) {
    if phase.is_terminal() {
        (phase, StreamAction::Stop)
    } else {
        match event {
            StreamEvent::Opened => (StreamPhase::Streaming, StreamAction::Pull),
            StreamEvent::Item(item) => (
                StreamPhase::Streaming,
                StreamAction::DeliverAndPull(item_message(id, item)),
            ),
            StreamEvent::Failed(text) => (
                StreamPhase::Errored,
                StreamAction::DeliverAndStop(StreamMessage::Error(id, text)),
            ),
            StreamEvent::Exhausted => (
                StreamPhase::Done,
                StreamAction::DeliverAndStop(StreamMessage::Done(id)),
            ),
            StreamEvent::ReceiverGone => (StreamPhase::ReceiverGone, StreamAction::Stop),
            StreamEvent::Cancelled => (StreamPhase::Cancelled, StreamAction::Stop),
        }
    }
}

/// Whether `event` suits a session of `kind`: downloads pull chunks and
/// listings pull object metadata.
pub open spec fn fits_kind(kind: StreamKind, event: StreamEvent) -> bool {
    match event {
        StreamEvent::Item(StreamItem::Chunk(_)) => kind == StreamKind::Download,
        StreamEvent::Item(StreamItem::Object(_)) => kind == StreamKind::Listing,
        _ => true,
    }
}

/// The messages an action delivers.
pub open spec fn action_messages(action: StreamAction) -> Seq<StreamMessage> {
    match action {
        StreamAction::DeliverAndPull(m) => seq![m],
        StreamAction::DeliverAndStop(m) => seq![m],
        _ => Seq::empty(),
    }
}

/// The phase a session of `kind` starts in: a download first waits for the
/// object to open; a listing streams at once.
pub open spec fn initial_phase(kind: StreamKind) -> StreamPhase {
    match kind {
        StreamKind::Download => StreamPhase::Starting,
        StreamKind::Listing => StreamPhase::Streaming,
    }
}

/// The phase reached, and every message delivered, when session `id` starts
/// in `phase` and observes `events` in order.
pub open spec fn run(id: u128, phase: StreamPhase, events: Seq<StreamEvent>) -> (
    StreamPhase,
    Seq<StreamMessage>,
)
    decreases events.len(),
{
    if events.len() == 0 {
        (phase, Seq::empty())
    } else {
        let (mid, delivered) = run(id, phase, events.drop_last());
        let (next, action) = step_spec(id, mid, events.last());
        (next, delivered + action_messages(action))
    }
}

/// The events of a session that pulls `items` in order.
pub open spec fn item_events(items: Seq<StreamItem>) -> Seq<StreamEvent> {
    Seq::new(items.len(), |i: int| StreamEvent::Item(items[i]))
}

/// The messages that deliver `items` for session `id`.
pub open spec fn item_messages(id: u128, items: Seq<StreamItem>) -> Seq<StreamMessage> {
    Seq::new(items.len(), |i: int| item_message(id, items[i]))
}

/// The bytes carried by the chunk messages of `messages`, in order.
pub open spec fn delivered_bytes(messages: Seq<StreamMessage>) -> Seq<u8>
    decreases messages.len(),
{
    if messages.len() == 0 {
        Seq::empty()
    } else {
        match messages.last() {
            StreamMessage::Chunk(_, data) => delivered_bytes(messages.drop_last()) + data@,
            _ => delivered_bytes(messages.drop_last()),
        }
    }
}

/// The content of an object read as `chunks`: the chunks joined in order.
pub open spec fn content(chunks: Seq<Vec<u8>>) -> Seq<u8>
    decreases chunks.len(),
{
    if chunks.len() == 0 {
        Seq::empty()
    } else {
        content(chunks.drop_last()) + chunks.last()@
    }
}

/// Running two event sequences one after the other is running their
/// concatenation.
pub proof fn lemma_run_concat(
    id: u128,
    phase: StreamPhase,
    first: Seq<StreamEvent>,
    second: Seq<StreamEvent>,
)
    ensures
        run(id, phase, first + second).0 == run(id, run(id, phase, first).0, second).0,
        run(id, phase, first + second).1 == run(id, phase, first).1 + run(
            id,
            run(id, phase, first).0,
            second,
        ).1,
    decreases second.len(),
{
    if second.len() == 0 {
        assert(first + second =~= first);
        assert(run(id, phase, first).1 + Seq::<StreamMessage>::empty() =~= run(
            id,
            phase,
            first,
        ).1);
    } else {
        lemma_run_concat(id, phase, first, second.drop_last());
        assert((first + second).drop_last() =~= first + second.drop_last());
        assert((first + second).last() == second.last());
        let mid = run(id, phase, first).0;
        let (p2, m2) = run(id, mid, second.drop_last());
        let (_, a) = step_spec(id, p2, second.last());
        assert(run(id, phase, first).1 + m2 + action_messages(a) =~= run(id, phase, first).1 + (
        m2 + action_messages(a)));
    }
}

/// A terminal phase is never left and delivers nothing more.
pub proof fn lemma_terminal_is_silent(id: u128, phase: StreamPhase, events: Seq<StreamEvent>)
    requires
        phase.is_terminal(),
    ensures
        run(id, phase, events).0 == phase,
        run(id, phase, events).1 == Seq::<StreamMessage>::empty(),
    decreases events.len(),
{
    if events.len() > 0 {
        lemma_terminal_is_silent(id, phase, events.drop_last());
        assert(Seq::<StreamMessage>::empty() + Seq::<StreamMessage>::empty() =~= Seq::<
            StreamMessage,
        >::empty());
    }
}

/// Once a session has observed its cancellation, whatever happens afterwards
/// delivers no further message: everything it delivers was delivered before.
pub proof fn lemma_nothing_after_cancel(
    id: u128,
    kind: StreamKind,
    before: Seq<StreamEvent>,
    after: Seq<StreamEvent>,
)
    ensures
        run(id, initial_phase(kind), before.push(StreamEvent::Cancelled) + after).1 == run(
            id,
            initial_phase(kind),
            before,
        ).1,
        run(id, initial_phase(kind), before.push(StreamEvent::Cancelled) + after).0.is_terminal(),
{
    let start = initial_phase(kind);
    let evs = before.push(StreamEvent::Cancelled);
    assert(evs.drop_last() =~= before);
    let p = run(id, start, evs).0;
    assert(p.is_terminal());
    assert(run(id, start, evs).1 =~= run(id, start, before).1);
    lemma_run_concat(id, start, evs, after);
    lemma_terminal_is_silent(id, p, after);
    assert(run(id, start, evs).1 + Seq::<StreamMessage>::empty() =~= run(id, start, evs).1);
}

/// The delivery protocol: every message carries the session's identifier;
/// only the last message may be terminal; and the last message is terminal
/// exactly when the session ended in `Done` or `Errored`.
pub proof fn lemma_messages_well_ordered(id: u128, kind: StreamKind, events: Seq<StreamEvent>)
    ensures
        forall|i: int|
            0 <= i < run(id, initial_phase(kind), events).1.len() ==> (#[trigger] run(
                id,
                initial_phase(kind),
                events,
            ).1[i]).spec_session_id() == id,
        forall|i: int|
            0 <= i < run(id, initial_phase(kind), events).1.len() - 1 ==> !(#[trigger] run(
                id,
                initial_phase(kind),
                events,
            ).1[i]).is_terminal(),
        ({
            let (phase, messages) = run(id, initial_phase(kind), events);
            (messages.len() > 0 && messages.last().is_terminal()) <==> (phase is Done
                || phase is Errored)
        }),
    decreases events.len(),
{
    let start = initial_phase(kind);
    if events.len() > 0 {
        lemma_messages_well_ordered(id, kind, events.drop_last());
        let (mid, before) = run(id, start, events.drop_last());
        let (next, action) = step_spec(id, mid, events.last());
        let all = before + action_messages(action);
        assert(run(id, start, events).1 == all);
        if mid.is_terminal() {
            assert(all =~= before);
        } else {
            assert(before.len() > 0 ==> !before.last().is_terminal());
            assert forall|i: int| 0 <= i < all.len() - 1 implies !(#[trigger] all[i]).is_terminal() by {
                if i < before.len() {
                    if i == before.len() - 1 {
                        assert(all[i] == before.last());
                    } else {
                        assert(all[i] == before[i]);
                    }
                }
            }
            assert forall|i: int| 0 <= i < all.len() implies (#[trigger] all[i]).spec_session_id() == id by {
                if i < before.len() {
                    assert(all[i] == before[i]);
                }
            }
        }
    }
}

/// A session that streams `items` from the start delivers one message per
/// item, in order, and stays streaming.
pub proof fn lemma_items_delivered_in_order(id: u128, items: Seq<StreamItem>)
    ensures
        run(id, StreamPhase::Streaming, item_events(items)).0 == StreamPhase::Streaming,
        run(id, StreamPhase::Streaming, item_events(items)).1 == item_messages(id, items),
    decreases items.len(),
{
    if items.len() > 0 {
        let prev = items.drop_last();
        lemma_items_delivered_in_order(id, prev);
        assert(item_events(items).drop_last() =~= item_events(prev));
        assert(item_messages(id, prev).push(item_message(id, items.last())) =~= item_messages(
            id,
            items,
        ));
    }
}

proof fn lemma_run_single(id: u128, phase: StreamPhase, event: StreamEvent)
    ensures
        run(id, phase, seq![event]).0 == step_spec(id, phase, event).0,
        run(id, phase, seq![event]).1 == action_messages(step_spec(id, phase, event).1),
{
    let events = seq![event];
    assert(events.drop_last() =~= Seq::<StreamEvent>::empty());
    assert(run(id, phase, Seq::<StreamEvent>::empty()).1 == Seq::<StreamMessage>::empty());
    assert(Seq::<StreamMessage>::empty() + action_messages(step_spec(id, phase, event).1)
        =~= action_messages(step_spec(id, phase, event).1));
}

/// Downloading an object whose backend yields `chunks` and then ends:
/// one chunk message per chunk in order, then a single `Done`, and the
/// chunk payloads joined are exactly the object's content.
pub proof fn lemma_download_delivers_content(id: u128, chunks: Seq<Vec<u8>>)
    ensures
        ({
            let items = Seq::new(chunks.len(), |i: int| StreamItem::Chunk(chunks[i]));
            let events = seq![StreamEvent::Opened] + item_events(items) + seq![
                StreamEvent::Exhausted,
            ];
            let (phase, messages) = run(id, initial_phase(StreamKind::Download), events);
            &&& phase == StreamPhase::Done
            &&& messages.len() == chunks.len() + 1
            &&& forall|i: int|
                0 <= i < chunks.len() ==> #[trigger] messages[i] == StreamMessage::Chunk(
                    id,
                    chunks[i],
                )
            &&& messages.last() == StreamMessage::Done(id)
            &&& delivered_bytes(messages.drop_last()) == content(chunks)
            &&& delivered_bytes(messages) == content(chunks)
        }),
{
    let items = Seq::new(chunks.len(), |i: int| StreamItem::Chunk(chunks[i]));
    let opened = seq![StreamEvent::Opened];
    let middle = item_events(items);
    let end = seq![StreamEvent::Exhausted];
    let start = initial_phase(StreamKind::Download);
    lemma_run_single(id, start, StreamEvent::Opened);
    lemma_items_delivered_in_order(id, items);
    lemma_run_concat(id, start, opened, middle);
    lemma_run_single(id, StreamPhase::Streaming, StreamEvent::Exhausted);
    lemma_run_concat(id, start, opened + middle, end);
    let messages = run(id, start, opened + middle + end).1;
    let chunk_messages = item_messages(id, items);
    assert(messages =~= chunk_messages.push(StreamMessage::Done(id)));
    assert(messages.drop_last() =~= chunk_messages);
    lemma_chunk_messages_bytes(id, chunks);
}

proof fn lemma_chunk_messages_bytes(id: u128, chunks: Seq<Vec<u8>>)
    ensures
        delivered_bytes(
            item_messages(id, Seq::new(chunks.len(), |i: int| StreamItem::Chunk(chunks[i]))),
        ) == content(chunks),
    decreases chunks.len(),
{
    if chunks.len() > 0 {
        let prev = chunks.drop_last();
        lemma_chunk_messages_bytes(id, prev);
        let ms = item_messages(id, Seq::new(chunks.len(), |i: int| StreamItem::Chunk(chunks[i])));
        let ps = item_messages(id, Seq::new(prev.len(), |i: int| StreamItem::Chunk(prev[i])));
        assert(ms.drop_last() =~= ps);
        assert(ms.last() == StreamMessage::Chunk(id, chunks.last()));
    }
}

/// Listing `metas` (the backend yields each once and then ends) delivers
/// exactly one object message per entry, in the backend's order, then a
/// single `Done`.
pub proof fn lemma_listing_delivers_each_entry(id: u128, metas: Seq<ObjectMeta>)
    ensures
        ({
            let items = Seq::new(metas.len(), |i: int| StreamItem::Object(metas[i]));
            let events = item_events(items) + seq![StreamEvent::Exhausted];
            let (phase, messages) = run(id, initial_phase(StreamKind::Listing), events);
            &&& phase == StreamPhase::Done
            &&& messages.len() == metas.len() + 1
            &&& forall|i: int|
                0 <= i < metas.len() ==> #[trigger] messages[i] == StreamMessage::Object(
                    id,
                    metas[i],
                )
            &&& messages.last() == StreamMessage::Done(id)
        }),
{
    let items = Seq::new(metas.len(), |i: int| StreamItem::Object(metas[i]));
    let middle = item_events(items);
    let end = seq![StreamEvent::Exhausted];
    lemma_items_delivered_in_order(id, items);
    lemma_run_single(id, StreamPhase::Streaming, StreamEvent::Exhausted);
    lemma_run_concat(id, StreamPhase::Streaming, middle, end);
    let messages = run(id, StreamPhase::Streaming, middle + end).1;
    assert(messages =~= item_messages(id, items).push(StreamMessage::Done(id)));
}

/// A streaming session: its identifier, what it streams, and its phase.
pub struct StreamSession {
    id: u128,
    kind: StreamKind,
    phase: StreamPhase,
}

impl StreamSession {
    pub closed spec fn spec_id(&self) -> u128 {
        self.id
    }

    pub closed spec fn spec_kind(&self) -> StreamKind {
        self.kind
    }

    pub closed spec fn spec_phase(&self) -> StreamPhase {
        self.phase
    }

    fn new(kind: StreamKind) -> (r: StreamSession)
        ensures
            r.spec_kind() == kind,
            r.spec_phase() == initial_phase(kind),
            is_v4_id(r.spec_id()),
    {
        let phase = match kind {
            StreamKind::Download => StreamPhase::Starting,
            StreamKind::Listing => StreamPhase::Streaming,
        };
        StreamSession { id: new_session_id(), kind, phase }
    }

    pub fn id(&self) -> (r: u128)
        ensures
            r == self.spec_id(),
    {
        self.id
    }

    pub fn kind(&self) -> (r: StreamKind)
        ensures
            r == self.spec_kind(),
    {
        self.kind
    }

    pub fn phase(&self) -> (r: StreamPhase)
        ensures
            r == self.spec_phase(),
    {
        self.phase
    }

    /// Whether this session can take `event`.
    pub fn accepts(&self, event: &StreamEvent) -> (r: bool)
        ensures
            r == fits_kind(self.spec_kind(), *event),
    {
        match event {
            StreamEvent::Item(StreamItem::Chunk(_)) => self.kind == StreamKind::Download,
            StreamEvent::Item(StreamItem::Object(_)) => self.kind == StreamKind::Listing,
            _ => true,
        }
    }

    /// Takes one event and says what to do next.
    pub fn step(&mut self, event: StreamEvent) -> (r: StreamAction)
        requires
            fits_kind(old(self).spec_kind(), event),
        ensures
            final(self).spec_id() == old(self).spec_id(),
            final(self).spec_kind() == old(self).spec_kind(),
            (final(self).spec_phase(), r) == step_spec(
                old(self).spec_id(),
                old(self).spec_phase(),
                event,
            ),
    {
        if self.phase.is_finished() {
            return StreamAction::Stop;
        }
        match event {
            StreamEvent::Opened => {
                self.phase = StreamPhase::Streaming;
                StreamAction::Pull
            },
            StreamEvent::Item(item) => {
                self.phase = StreamPhase::Streaming;
                let message = match item {
                    StreamItem::Chunk(data) => StreamMessage::Chunk(self.id, data),
                    StreamItem::Object(meta) => StreamMessage::Object(self.id, meta),
                };
                StreamAction::DeliverAndPull(message)
            },
            StreamEvent::Failed(text) => {
                self.phase = StreamPhase::Errored;
                StreamAction::DeliverAndStop(StreamMessage::Error(self.id, text))
            },
            StreamEvent::Exhausted => {
                self.phase = StreamPhase::Done;
                StreamAction::DeliverAndStop(StreamMessage::Done(self.id))
            },
            StreamEvent::ReceiverGone => {
                self.phase = StreamPhase::ReceiverGone;
                StreamAction::Stop
            },
            StreamEvent::Cancelled => {
                self.phase = StreamPhase::Cancelled;
                StreamAction::Stop
            },
        }
    }
}

impl StreamSession {
    /// Takes one event, first checking that the session is still registered:
    /// a session whose entry is gone observes its cancellation instead.
    pub fn advance(&mut self, still_registered: bool, event: StreamEvent) -> (r: StreamAction)
        requires
            fits_kind(old(self).spec_kind(), event),
        ensures
            final(self).spec_id() == old(self).spec_id(),
            final(self).spec_kind() == old(self).spec_kind(),
            (final(self).spec_phase(), r) == step_spec(
                old(self).spec_id(),
                old(self).spec_phase(),
                if still_registered {
                    event
                } else {
                    StreamEvent::Cancelled
                },
            ),
    {
        if still_registered {
            self.step(event)
        } else {
            self.step(StreamEvent::Cancelled)
        }
    }
}

/// Starts a download session under a fresh identifier; it waits for the
/// object to open.
pub fn start_download_stream() -> (r: StreamSession)
    ensures
        r.spec_kind() == StreamKind::Download,
        r.spec_phase() == StreamPhase::Starting,
        is_v4_id(r.spec_id()),
{
    StreamSession::new(StreamKind::Download)
}

/// Starts a listing session under a fresh identifier; it streams at once.
pub fn start_list_stream() -> (r: StreamSession)
    ensures
        r.spec_kind() == StreamKind::Listing,
        r.spec_phase() == StreamPhase::Streaming,
        is_v4_id(r.spec_id()),
{
    StreamSession::new(StreamKind::Listing)
}

} // verus!
