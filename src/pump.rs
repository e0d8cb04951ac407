use vstd::prelude::*;
use vstd::string::StringExecFns;
use crate::framing::{blocks, remainder, EventBuffer};
use crate::stream::{spec_decode, SSEEvent};
use crate::text::{chars_of, text_of_bytes, utf8_lossy};

verus! {

/// What a stream pump learns from the connection or from its consumers.
pub enum PumpInput {
    /// The stream request was answered with a success status.
    Connected,
    /// The stream request failed in transport; the text describes why.
    ConnectFailed(String),
    /// The stream request was answered with the given non-success status.
    BadStatus(String),
    /// Bytes arrived on the open connection.
    Chunk(Vec<u8>),
    /// Reading the open connection failed; the text describes why.
    ReadFailed(String),
    /// The open connection ended without an error.
    StreamEnded,
    /// The consumer of events is gone; the text describes why.
    SendFailed(String),
    /// The owner of the pump asked it to stop.
    Cancelled,
}

/// What a stream pump asks its driver to do, in order.
pub enum PumpAction {
    /// Hand the event to the event channel.
    Publish(SSEEvent),
    /// Hand the message to the error channel.
    PublishError(String),
    /// Wait for the given number of milliseconds.
    Pause(u64),
    /// Open the stream connection again.
    Reconnect,
    /// Stop the pump for good.
    Stop,
}

/// The meaning of a `PumpAction`.
pub enum Act {
    Event(Seq<char>, Seq<char>, Seq<char>),
    Error(Seq<char>),
    Pause(nat),
    Reconnect,
    Stop,
}

impl PumpAction {
    pub open spec fn act(&self) -> Act {
        match self {
            PumpAction::Publish(e) => Act::Event(e.event_type@, e.id@, e.data@),
            PumpAction::PublishError(m) => Act::Error(m@),
            PumpAction::Pause(ms) => Act::Pause(*ms as nat),
            PumpAction::Reconnect => Act::Reconnect,
            PumpAction::Stop => Act::Stop,
        }
    }
}

pub open spec fn acts(v: Seq<PumpAction>) -> Seq<Act> {
    v.map_values(|a: PumpAction| a.act())
}

/// The event type that marks the end of a stream.
pub open spec fn done_type() -> Seq<char> {
    seq!['d', 'o', 'n', 'e']
}

/// The delay before a connection that failed while reading is reopened.
pub const RECONNECT_DELAY_MS: u64 = 1000;

/// What the complete blocks `bs` ask for: each decoded event is published,
/// and each block that fails to decode is published as an error; a `done`
/// event is the last thing published, and the pump then stops.
pub open spec fn block_acts(bs: Seq<Seq<u8>>) -> Seq<Act>
    decreases bs.len(),
{
    if bs.len() == 0 {
        Seq::empty()
    } else {
        match spec_decode(utf8_lossy(bs[0])) {
            None => seq![Act::Error("invalid UTF-8 data"@)] + block_acts(bs.drop_first()),
            Some(f) => if f.0 == done_type() {
                seq![Act::Event(f.0, f.1, f.2), Act::Stop]
            } else {
                seq![Act::Event(f.0, f.1, f.2)] + block_acts(bs.drop_first())
            },
        }
    }
}

pub open spec fn ends_in_stop(a: Seq<Act>) -> bool {
    a.len() > 0 && a.last() is Stop
}

proof fn lemma_block_acts_concat(x: Seq<Seq<u8>>, y: Seq<Seq<u8>>)
    requires
        !ends_in_stop(block_acts(x)),
    ensures
        block_acts(x + y) == block_acts(x) + block_acts(y),
    decreases x.len(),
{
    if x.len() == 0 {
        assert(x + y =~= y);
        assert(block_acts(x) + block_acts(y) =~= block_acts(y));
    } else {
        assert((x + y).drop_first() =~= x.drop_first() + y);
        assert((x + y)[0] == x[0]);
        let rest = block_acts(x.drop_first());
        match spec_decode(utf8_lossy(x[0])) {
            None => {
                let head = seq![Act::Error("invalid UTF-8 data"@)];
                assert(rest.len() > 0 ==> (head + rest).last() == rest.last());
                lemma_block_acts_concat(x.drop_first(), y);
                assert(head + (rest + block_acts(y)) =~= (head + rest) + block_acts(y));
            },
            Some(f) => {
                if f.0 != done_type() {
                    let head = seq![Act::Event(f.0, f.1, f.2)];
                    assert(rest.len() > 0 ==> (head + rest).last() == rest.last());
                    lemma_block_acts_concat(x.drop_first(), y);
                    assert(head + (rest + block_acts(y)) =~= (head + rest) + block_acts(y));
                }
            },
        }
    }
}

/// Where a chunk does not end the stream, what the pump publishes for the
/// bytes `a` and then `b` is what it publishes for `a + b` at once, and
/// the same bytes are left waiting: events do not depend on where the
/// connection split the stream.
pub proof fn lemma_pump_split(pending: Seq<u8>, a: Seq<u8>, b: Seq<u8>)
    requires
        !ends_in_stop(block_acts(blocks(pending + a))),
    ensures
        block_acts(blocks(pending + a)) + block_acts(blocks(remainder(pending + a) + b))
            == block_acts(blocks(pending + a + b)),
        remainder(remainder(pending + a) + b) == remainder(pending + a + b),
{
    crate::framing::lemma_chunking_invariant(pending + a, b);
    lemma_block_acts_concat(blocks(pending + a), blocks(remainder(pending + a) + b));
}

/// The decisions of the background task that reads a job's event stream:
/// it cuts the bytes into events and says what to publish, when to
/// reconnect and when to stop.
pub struct StreamPump {
    buffer: EventBuffer,
    last_event_id: Option<String>,
    stopped: bool,
}

impl StreamPump {
    pub closed spec fn pending(&self) -> Seq<u8> {
        self.buffer.pending()
    }

    pub closed spec fn is_stopped(&self) -> bool {
        self.stopped
    }

    pub closed spec fn resume_id(&self) -> Option<Seq<char>> {
        match self.last_event_id {
            Some(i) => Some(i@),
            None => None,
        }
    }

    /// A pump for a new stream; `last_event` is the last event already
    /// seen, whose id asks the service to resume after it.
    pub fn new(last_event: Option<&SSEEvent>) -> (r: StreamPump)
        ensures
            r.pending() == Seq::<u8>::empty(),
            !r.is_stopped(),
            r.resume_id() == match last_event {
                Some(e) => Some(e.id@),
                None => None::<Seq<char>>,
            },
    {
        let last_event_id = match last_event {
            Some(e) => Some(String::from_str(e.id.as_str())),
            None => None,
        };
        StreamPump { buffer: EventBuffer::new(), last_event_id, stopped: false }
    }

    pub fn is_stopped_now(&self) -> (r: bool)
        ensures
            r == self.is_stopped(),
    {
        self.stopped
    }

    /// The headers of the stream request, as name and value.
    pub fn request_headers(&self) -> (r: Vec<(String, String)>)
        ensures
            r.len() == if self.resume_id() is Some { 4int } else { 3int },
            r[0].0@ == "Accept"@ && r[0].1@ == "text/event-stream"@,
            r[1].0@ == "Cache-Control"@ && r[1].1@ == "no-cache"@,
            r[2].0@ == "Connection"@ && r[2].1@ == "keep-alive"@,
            self.resume_id() is Some ==> r[3].0@ == "Last-Event-ID"@ && r[3].1@
                == self.resume_id()->0,
    {
        let mut r: Vec<(String, String)> = Vec::new();
        r.push((String::from_str("Accept"), String::from_str("text/event-stream")));
        r.push((String::from_str("Cache-Control"), String::from_str("no-cache")));
        r.push((String::from_str("Connection"), String::from_str("keep-alive")));
        match &self.last_event_id {
            Some(id) => r.push((String::from_str("Last-Event-ID"), String::from_str(id.as_str()))),
            None => {},
        }
        r
    }

    /// Decides what follows `input`. A stopped pump asks for nothing more.
    pub fn handle(&mut self, input: PumpInput) -> (r: Vec<PumpAction>)
        ensures
            old(self).is_stopped() ==> r@.len() == 0 && final(self).is_stopped(),
            !old(self).is_stopped() ==> match input {
                PumpInput::Connected => {
                    &&& acts(r@) == Seq::<Act>::empty()
                    &&& final(self).pending() == Seq::<u8>::empty()
                    &&& !final(self).is_stopped()
                },
                PumpInput::ConnectFailed(m) => {
                    &&& acts(r@) == seq![Act::Error("Failed to send request: "@ + m@), Act::Stop]
                    &&& final(self).is_stopped()
                },
                PumpInput::BadStatus(m) => {
                    &&& acts(r@) == seq![
                        Act::Error("Received invalid status code: "@ + m@),
                        Act::Stop,
                    ]
                    &&& final(self).is_stopped()
                },
                PumpInput::Chunk(b) => {
                    let a = block_acts(blocks(old(self).pending() + b@));
                    &&& acts(r@) == a
                    &&& final(self).is_stopped() == ends_in_stop(a)
                    &&& final(self).pending() == remainder(old(self).pending() + b@)
                },
                PumpInput::ReadFailed(m) => {
                    &&& acts(r@) == seq![
                        Act::Error("Error reading stream: "@ + m@),
                        Act::Pause(RECONNECT_DELAY_MS as nat),
                        Act::Reconnect,
                    ]
                    &&& final(self).pending() == Seq::<u8>::empty()
                    &&& !final(self).is_stopped()
                },
                PumpInput::StreamEnded => {
                    &&& acts(r@) == seq![Act::Reconnect]
                    &&& final(self).pending() == Seq::<u8>::empty()
                    &&& !final(self).is_stopped()
                },
                PumpInput::SendFailed(m) => {
                    &&& acts(r@) == seq![Act::Error("Failed to send SSE event: "@ + m@), Act::Stop]
                    &&& final(self).is_stopped()
                },
                PumpInput::Cancelled => {
                    &&& acts(r@) == seq![Act::Stop]
                    &&& final(self).is_stopped()
                },
            },
            final(self).resume_id() == old(self).resume_id(),
    {
        let mut r: Vec<PumpAction> = Vec::new();
        if self.stopped {
            return r;
        }
        match input {
            PumpInput::Connected => {
                self.buffer = EventBuffer::new();
            },
            PumpInput::ConnectFailed(m) => {
                r.push(PumpAction::PublishError(prefixed("Failed to send request: ", &m)));
                r.push(PumpAction::Stop);
                self.stopped = true;
            },
            PumpInput::BadStatus(m) => {
                r.push(PumpAction::PublishError(prefixed("Received invalid status code: ", &m)));
                r.push(PumpAction::Stop);
                self.stopped = true;
            },
            PumpInput::Chunk(b) => {
                r = self.take_blocks(b.as_slice());
            },
            PumpInput::ReadFailed(m) => {
                r.push(PumpAction::PublishError(prefixed("Error reading stream: ", &m)));
                r.push(PumpAction::Pause(RECONNECT_DELAY_MS));
                r.push(PumpAction::Reconnect);
                self.buffer = EventBuffer::new();
            },
            PumpInput::StreamEnded => {
                r.push(PumpAction::Reconnect);
                self.buffer = EventBuffer::new();
            },
            PumpInput::SendFailed(m) => {
                r.push(PumpAction::PublishError(prefixed("Failed to send SSE event: ", &m)));
                r.push(PumpAction::Stop);
                self.stopped = true;
            },
            PumpInput::Cancelled => {
                r.push(PumpAction::Stop);
                self.stopped = true;
            },
        }
        assert(acts(r@) =~= acts(r@));
        r
    }

    fn take_blocks(&mut self, b: &[u8]) -> (r: Vec<PumpAction>)
        requires
            !old(self).is_stopped(),
        ensures
            acts(r@) == block_acts(blocks(old(self).pending() + b@)),
            final(self).is_stopped() == ends_in_stop(acts(r@)),
            final(self).pending() == remainder(old(self).pending() + b@),
            final(self).resume_id() == old(self).resume_id(),
    {
        let bs = self.buffer.feed(b);
        let ghost all = crate::framing::views(bs@);
        let mut r: Vec<PumpAction> = Vec::new();
        let mut k: usize = 0;
        assert(all.skip(0) =~= all);
        assert(acts(r@) =~= Seq::<Act>::empty());
        while k < bs.len()
            invariant
                k <= bs.len(),
                all == blocks(old(self).pending() + b@),
                self.pending() == remainder(old(self).pending() + b@),
                self.resume_id() == old(self).resume_id(),
                all == crate::framing::views(bs@),
                !self.stopped,
                acts(r@) + block_acts(all.skip(k as int)) == block_acts(all),
                !ends_in_stop(acts(r@)),
            decreases bs.len() - k,
        {
            let ghost rest = all.skip(k as int);
            assert(rest.drop_first() =~= all.skip(k + 1));
            assert(rest[0] == bs@[k as int]@);
            let text = text_of_bytes(bs[k].as_slice());
            let ghost a0 = acts(r@);
            match SSEEvent::decode(text.as_str()) {
                Ok(e) => {
                    let done = is_done(&e);
                    r.push(PumpAction::Publish(e));
                    assert(acts(r@) =~= a0.push(r@.last().act()));
                    if done {
                        r.push(PumpAction::Stop);
                        assert(acts(r@) =~= a0 + block_acts(rest));
                        assert(block_acts(all.skip(k as int)) == block_acts(rest));
                        self.stopped = true;
                        return r;
                    }
                    assert(a0.push(r@.last().act()) + block_acts(all.skip(k + 1)) =~= a0
                        + block_acts(rest));
                },
                Err(err) => {
                    r.push(PumpAction::PublishError(err.to_string()));
                    assert(acts(r@) =~= a0.push(r@.last().act()));
                    assert(a0.push(r@.last().act()) + block_acts(all.skip(k + 1)) =~= a0
                        + block_acts(rest));
                },
            }
            k = k + 1;
        }
        assert(all.skip(k as int) =~= Seq::<Seq<u8>>::empty());
        assert(acts(r@) =~= block_acts(all));
        r
    }
}

/// Whether `e` marks the end of the stream.
pub fn is_done(e: &SSEEvent) -> (r: bool)
    ensures
        r == (e.event_type@ == done_type()),
{
    let t = chars_of(e.event_type.as_str());
    let r = t.len() == 4 && t[0] == 'd' && t[1] == 'o' && t[2] == 'n' && t[3] == 'e';
    assert(r ==> t@ =~= done_type());
    r
}

/// The text `p` followed by `m`.
fn prefixed(p: &str, m: &String) -> (r: String)
    ensures
        r@ == p@ + m@,
{
    let mut s = String::from_str(p);
    s.append(m.as_str());
    s
}

} // verus!
