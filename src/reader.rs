use vstd::prelude::*;
use crate::clock::{utc_now_rfc3339, is_utc_rfc3339};
use crate::framing::{strip_delimiters, strip_end, framed, is_bare_delimiter, lemma_frame_then_strip, lemma_bare_delimiter_strips_to_empty};
use crate::types::{TcpReceivedMessage, TcpMessageReceivedEvent, TcpReceiveResult, ReceivedRecord, EventRecord};

verus! {

/// What one read of a line from the socket produced.
#[derive(Debug)]
pub enum ReadOutcome {
    /// The peer closed the stream: zero bytes were read.
    Closed,
    /// The read failed, with the error's text.
    Failed(String),
    /// A line, with whatever delimiters ended it.
    Line(String),
}

/// The model of a read outcome.
pub enum ReadEvent {
    Closed,
    Failed,
    Line(Seq<char>),
}

impl View for ReadOutcome {
    type V = ReadEvent;

    open spec fn view(&self) -> ReadEvent {
        match self {
            ReadOutcome::Closed => ReadEvent::Closed,
            ReadOutcome::Failed(_) => ReadEvent::Failed,
            ReadOutcome::Line(l) => ReadEvent::Line(l@),
        }
    }
}

/// The two states of a reader: it reads until the stream ends or fails.
#[derive(Debug, Clone, Copy, PartialEq, Eq, Structural)]
pub enum ReaderState {
    Reading,
    Terminated,
}

/// The state a reader is in after a read.
pub open spec fn next_state(e: ReadEvent) -> ReaderState {
    match e {
        ReadEvent::Line(_) => ReaderState::Reading,
        _ => ReaderState::Terminated,
    }
}

/// The history entry that a read adds, if any: a line that is not empty once
/// its delimiters are stripped.
pub open spec fn delivered(source: Seq<char>, e: ReadEvent, timestamp: Seq<char>) -> Option<ReceivedRecord> {
    match e {
        ReadEvent::Line(l) => if strip_end(l).len() > 0 {
            Some(ReceivedRecord { text: strip_end(l), timestamp, source })
        } else {
            None
        },
        _ => None,
    }
}

/// The notification for a history entry on connection `id`.
pub open spec fn notification(id: Seq<char>, r: ReceivedRecord) -> EventRecord {
    EventRecord { connection_id: id, message: r }
}

/// The notifications a step returned, as a sequence of at most one.
pub open spec fn event_records(r: Option<TcpMessageReceivedEvent>) -> Seq<EventRecord> {
    match r {
        Some(e) => seq![e@],
        None => Seq::empty(),
    }
}

/// History went from `before` to `after` by appending exactly the messages of
/// `events`, in their order, and every one of `events` names connection `id`.
pub open spec fn paired(before: Seq<ReceivedRecord>, after: Seq<ReceivedRecord>, id: Seq<char>, events: Seq<EventRecord>) -> bool {
    &&& after == before + events.map_values(|e: EventRecord| e.message)
    &&& forall|i: int| 0 <= i < events.len() ==> (#[trigger] events[i]).connection_id == id
}

/// The ordered, append-only messages received on one connection.
pub struct ConnectionHistory {
    messages: Vec<TcpReceivedMessage>,
}

impl View for ConnectionHistory {
    type V = Seq<ReceivedRecord>;

    closed spec fn view(&self) -> Seq<ReceivedRecord> {
        self.messages@.map_values(|m: TcpReceivedMessage| m@)
    }
}

impl ConnectionHistory {
    /// An empty history.
    pub fn new() -> (r: ConnectionHistory)
        ensures
            r@ == Seq::<ReceivedRecord>::empty(),
    {
        let r = ConnectionHistory { messages: Vec::new() };
        assert(r@ =~= Seq::<ReceivedRecord>::empty());
        r
    }

    /// The number of entries.
    pub fn len(&self) -> (r: usize)
        ensures
            r == self@.len(),
    {
        self.messages.len()
    }

    fn append(&mut self, m: TcpReceivedMessage)
        ensures
            final(self)@ == old(self)@.push(m@),
    {
        self.messages.push(m);
        assert(final(self)@ =~= old(self)@.push(m@));
    }

    /// A copy of every entry, in order.
    pub fn snapshot(&self) -> (r: Vec<TcpReceivedMessage>)
        ensures
            r@.map_values(|m: TcpReceivedMessage| m@) == self@,
    {
        let mut r: Vec<TcpReceivedMessage> = Vec::new();
        let mut i: usize = 0;
        while i < self.messages.len()
            invariant
                i <= self.messages@.len(),
                r@.map_values(|m: TcpReceivedMessage| m@) == self@.subrange(0, i as int),
            decreases self.messages@.len() - i,
        {
            let m = self.messages[i].duplicate();
            proof {
                assert(r@.push(m).map_values(|m: TcpReceivedMessage| m@) =~= r@.map_values(|m: TcpReceivedMessage| m@).push(m@));
                assert(self@.subrange(0, i + 1) =~= self@.subrange(0, i as int).push(self@[i as int]));
            }
            r.push(m);
            i = i + 1;
        }
        assert(self@.subrange(0, i as int) =~= self@);
        r
    }

    /// The whole history as a successful listing.
    pub fn listing(&self) -> (r: TcpReceiveResult)
        ensures
            r.success,
            r.error is None,
            r.messages@.map_values(|m: TcpReceivedMessage| m@) == self@,
    {
        TcpReceiveResult { success: true, messages: self.snapshot(), error: None }
    }
}

/// The reading side of one connection: it turns each line read into at most
/// one history entry and one notification.
pub struct Reader {
    /// The id that notifications carry.
    pub connection_id: String,
    /// The label that history entries carry.
    pub source: String,
    pub state: ReaderState,
}

/// The source label of entries received on connection `id`.
pub open spec fn connection_source(id: Seq<char>) -> Seq<char> {
    "Connection "@ + id
}

impl Reader {
    /// A reader for connection `id`, labelling its entries with the connection.
    pub fn for_connection(id: &str) -> (r: Reader)
        ensures
            r.connection_id@ == id@,
            r.source@ == connection_source(id@),
            r.state == ReaderState::Reading,
    {
        Reader {
            connection_id: String::from_str(id),
            source: String::from_str("Connection ").concat(id),
            state: ReaderState::Reading,
        }
    }

    /// A reader for a peer that a listener accepted, labelling its entries with
    /// the peer's address.
    pub fn for_peer(addr: &str) -> (r: Reader)
        ensures
            r.connection_id@ == addr@,
            r.source@ == addr@,
            r.state == ReaderState::Reading,
    {
        Reader { connection_id: String::from_str(addr), source: String::from_str(addr), state: ReaderState::Reading }
    }

    /// Applies one read, stamped with `timestamp`: a non-empty line is appended
    /// to `history` and its notification returned; an empty line changes
    /// nothing; end of stream or a read error terminates the reader.
    pub fn step_at(&mut self, history: &mut ConnectionHistory, outcome: &ReadOutcome, timestamp: String) -> (r: Option<TcpMessageReceivedEvent>)
        requires
            old(self).state == ReaderState::Reading,
        ensures
            final(self).connection_id == old(self).connection_id,
            final(self).source == old(self).source,
            final(self).state == next_state(outcome@),
            match delivered(old(self).source@, outcome@, timestamp@) {
                Some(rec) => {
                    &&& final(history)@ == old(history)@.push(rec)
                    &&& r matches Some(ev) && ev@ == notification(old(self).connection_id@, rec)
                },
                None => final(history)@ == old(history)@ && r is None,
            },
            paired(old(history)@, final(history)@, old(self).connection_id@, event_records(r)),
    {
        match outcome {
            ReadOutcome::Closed => {
                self.state = ReaderState::Terminated;
                None
            },
            ReadOutcome::Failed(_) => {
                self.state = ReaderState::Terminated;
                None
            },
            ReadOutcome::Line(line) => {
                let text = strip_delimiters(line.as_str());
                if text.as_str().is_empty() {
                    None
                } else {
                    let m = TcpReceivedMessage {
                        message: text,
                        timestamp,
                        client_addr: self.source.clone(),
                    };
                    let ev = TcpMessageReceivedEvent {
                        connection_id: self.connection_id.clone(),
                        message: m.duplicate(),
                    };
                    history.append(m);
                    let r = Some(ev);
                    assert(final(history)@ =~= old(history)@ + event_records(r).map_values(|e: EventRecord| e.message));
                    r
                }
            },
        }
    }

    /// Applies one read, stamping a new entry with the current UTC time.
    pub fn step(&mut self, history: &mut ConnectionHistory, outcome: &ReadOutcome) -> (r: Option<TcpMessageReceivedEvent>)
        requires
            old(self).state == ReaderState::Reading,
        ensures
            final(self).connection_id == old(self).connection_id,
            final(self).source == old(self).source,
            final(self).state == next_state(outcome@),
            paired(old(history)@, final(history)@, old(self).connection_id@, event_records(r)),
            exists|ts: Seq<char>| is_utc_rfc3339(ts) && match #[trigger] delivered(old(self).source@, outcome@, ts) {
                Some(rec) => {
                    &&& final(history)@ == old(history)@.push(rec)
                    &&& r matches Some(ev) && ev@ == notification(old(self).connection_id@, rec)
                },
                None => final(history)@ == old(history)@ && r is None,
            },
    {
        let timestamp = utc_now_rfc3339();
        let r = self.step_at(history, outcome, timestamp);
        assert(match delivered(old(self).source@, outcome@, timestamp@) {
            Some(rec) => {
                &&& final(history)@ == old(history)@.push(rec)
                &&& r matches Some(ev) && ev@ == notification(old(self).connection_id@, rec)
            },
            None => final(history)@ == old(history)@ && r is None,
        });
        r
    }
}

/// Pairing composes over a run of reads: if one run of steps appended exactly
/// the messages of its notifications and the next run did too, the two runs
/// together appended exactly the messages of all their notifications, in order,
/// each naming the same connection.
pub proof fn lemma_pairing_composes(
    h0: Seq<ReceivedRecord>,
    h1: Seq<ReceivedRecord>,
    h2: Seq<ReceivedRecord>,
    id: Seq<char>,
    e1: Seq<EventRecord>,
    e2: Seq<EventRecord>,
)
    requires
        paired(h0, h1, id, e1),
        paired(h1, h2, id, e2),
    ensures
        paired(h0, h2, id, e1 + e2),
{
    let f = |e: EventRecord| e.message;
    assert((e1 + e2).map_values(f) =~= e1.map_values(f) + e2.map_values(f));
    assert(h2 =~= h0 + (e1 + e2).map_values(f));
    assert forall|i: int| 0 <= i < (e1 + e2).len() implies (#[trigger] (e1 + e2)[i]).connection_id == id by {
        if i >= e1.len() {
            assert((e1 + e2)[i] == e2[i - e1.len()]);
        }
    }
}

/// A history with no entries and no notifications is trivially paired, so
/// every run of reads from a new history is.
pub proof fn lemma_pairing_starts_empty(h: Seq<ReceivedRecord>, id: Seq<char>)
    ensures
        paired(h, h, id, Seq::empty()),
{
    assert(h =~= h + Seq::<EventRecord>::empty().map_values(|e: EventRecord| e.message));
}

/// A line that is nothing but a delimiter (a newline, or a carriage return and
/// a newline) adds no entry, emits nothing, and leaves the reader reading.
pub proof fn lemma_delimiter_line_is_discarded(source: Seq<char>, line: Seq<char>, timestamp: Seq<char>)
    requires
        is_bare_delimiter(line),
    ensures
        delivered(source, ReadEvent::Line(line), timestamp) is None,
        next_state(ReadEvent::Line(line)) == ReaderState::Reading,
{
    lemma_bare_delimiter_strips_to_empty(line);
}

/// A text that a peer echoes back as it was framed for sending is recorded
/// unchanged, provided it holds no newline, is not empty and does not end in a
/// carriage return.
pub proof fn lemma_echo_round_trip(source: Seq<char>, text: Seq<char>, timestamp: Seq<char>)
    requires
        text.len() > 0,
        text.last() != '\r',
        forall|i: int| 0 <= i < text.len() ==> text[i] != '\n',
    ensures
        delivered(source, ReadEvent::Line(framed(text)), timestamp) == Some(ReceivedRecord { text, timestamp, source }),
{
    lemma_frame_then_strip(text);
}

} // verus!
