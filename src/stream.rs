//! The streaming bridge: one relay per streaming request, turning reads of
//! the response body into events on a channel named after the caller's
//! correlation id.
use vstd::prelude::*;
use crate::proxy::{request_url, url_of, ProxyError};
use crate::text::{decode_lossy, lossy_text, uppercase, upper_of};

verus! {

/// The method of a streaming request.
#[derive(Clone, Copy, Debug, PartialEq, Eq, Structural)]
pub enum StreamMethod {
    Get,
    Post,
}

/// Prefix of the channel that carries one stream's events.
pub const STREAM_CHANNEL_PREFIX: &'static str = "stream-event-";

/// The channel name for a correlation id.
pub open spec fn channel_name(id: Seq<char>) -> Seq<char> {
    STREAM_CHANNEL_PREFIX@ + id
}

/// The method that an upper-cased method name denotes, if any.
pub open spec fn method_of_upper(u: Seq<char>) -> Option<StreamMethod> {
    if u == "GET"@ {
        Some(StreamMethod::Get)
    } else if u == "POST"@ {
        Some(StreamMethod::Post)
    } else {
        None
    }
}

fn str_eq(a: &str, b: &str) -> (r: bool)
    ensures
        r == (a@ == b@),
{
    let n = a.unicode_len();
    if n != b.unicode_len() {
        return false;
    }
    let mut i: usize = 0;
    while i < n
        invariant
            n == a@.len(),
            n == b@.len(),
            i <= n,
            a@.subrange(0, i as int) == b@.subrange(0, i as int),
        decreases n - i,
    {
        if a.get_char(i) != b.get_char(i) {
            assert(a@[i as int] != b@[i as int]);
            return false;
        }
        assert(a@.subrange(0, i + 1) == a@.subrange(0, i as int).push(a@[i as int]));
        assert(b@.subrange(0, i + 1) == b@.subrange(0, i as int).push(b@[i as int]));
        i = i + 1;
    }
    assert(a@ == a@.subrange(0, n as int));
    assert(b@ == b@.subrange(0, n as int));
    true
}

/// Picks the streaming method from an already upper-cased name.
pub fn method_from_upper(u: &str) -> (r: Option<StreamMethod>)
    ensures
        r == method_of_upper(u@),
{
    if str_eq(u, "GET") {
        Some(StreamMethod::Get)
    } else if str_eq(u, "POST") {
        Some(StreamMethod::Post)
    } else {
        None
    }
}

/// Picks the streaming method from an optional name, case-insensitively;
/// GET when no name is given. Any other name is refused, and the error
/// carries the upper-cased name.
pub fn resolve_method(m: Option<&str>) -> (r: Result<StreamMethod, ProxyError>)
    ensures
        m is None ==> r == Ok::<StreamMethod, ProxyError>(StreamMethod::Get),
        m is Some ==> match method_of_upper(upper_of(m->0@)) {
            Some(sm) => r == Ok::<StreamMethod, ProxyError>(sm),
            None => r is Err && r->Err_0 is UnsupportedMethod && r->Err_0->UnsupportedMethod_0@
                == upper_of(m->0@),
        },
{
    match m {
        None => Ok(StreamMethod::Get),
        Some(s) => {
            let u = uppercase(s);
            match method_from_upper(u.as_str()) {
                Some(sm) => Ok(sm),
                None => Err(ProxyError::UnsupportedMethod(u)),
            }
        },
    }
}

/// Everything a streaming request needs before it is sent: the address,
/// the method, and the relay that will publish its events.
pub struct StreamPlan {
    pub url: String,
    pub method: StreamMethod,
    pub relay: StreamRelay,
}

/// Prepares a streaming request to `path` on the worker, for the stream
/// with correlation id `id`. Fails only on a method other than GET or POST.
pub fn plan_stream(path: &str, method: Option<&str>, id: &str) -> (r: Result<StreamPlan, ProxyError>)
    ensures
        match resolve_method_spec(method) {
            Some(sm) => r is Ok && r->Ok_0.url@ == url_of(path@) && r->Ok_0.method == sm
                && r->Ok_0.relay.wf() && r->Ok_0.relay.channel_view() == channel_name(id@)
                && r->Ok_0.relay.reads() == Seq::<ReadView>::empty(),
            None => r is Err && r->Err_0 is UnsupportedMethod,
        },
{
    let sm = match resolve_method(method) {
        Ok(sm) => sm,
        Err(e) => return Err(e),
    };
    Ok(StreamPlan { url: request_url(path), method: sm, relay: StreamRelay::new(id) })
}

/// The method an optional name selects, if any.
pub open spec fn resolve_method_spec(m: Option<&str>) -> Option<StreamMethod> {
    match m {
        None => Some(StreamMethod::Get),
        Some(s) => method_of_upper(upper_of(s@)),
    }
}

/// The name of the channel that carries the events of stream `id`.
pub fn stream_channel(id: &str) -> (r: String)
    ensures
        r@ == channel_name(id@),
{
    let mut s = STREAM_CHANNEL_PREFIX.to_owned();
    s.append(id);
    s
}

/// Distinct correlation ids name distinct channels, so the events of two
/// concurrent streams never reach each other's listeners.
pub proof fn lemma_channels_distinct(a: Seq<char>, b: Seq<char>)
    requires
        a != b,
    ensures
        channel_name(a) != channel_name(b),
{
    let p = STREAM_CHANNEL_PREFIX@;
    if channel_name(a) == channel_name(b) {
        assert(channel_name(a).subrange(p.len() as int, channel_name(a).len() as int) == a);
        assert(channel_name(b).subrange(p.len() as int, channel_name(b).len() as int) == b);
    }
}

/// One read of a response body.
#[derive(Clone, Debug, PartialEq, Eq)]
pub enum BodyRead {
    /// The next piece of the body.
    Chunk(Vec<u8>),
    /// The body has ended normally.
    End,
    /// Reading failed, with the reader's message.
    Failed(String),
}

/// A body read as plain values.
pub ghost enum ReadView {
    Chunk(Seq<u8>),
    End,
    Failed(Seq<char>),
}

impl View for BodyRead {
    type V = ReadView;

    open spec fn view(&self) -> ReadView {
        match self {
            BodyRead::Chunk(b) => ReadView::Chunk(b@),
            BodyRead::End => ReadView::End,
            BodyRead::Failed(m) => ReadView::Failed(m@),
        }
    }
}

/// An event published on a stream's channel.
#[derive(Clone, Debug, PartialEq, Eq)]
pub enum StreamEvent {
    /// `{type: "chunk", data}`
    Chunk(String),
    /// `{type: "done"}`
    Done,
    /// `{type: "error", message}`
    Error(String),
}

/// A stream event as plain values.
pub ghost enum EventView {
    Chunk(Seq<char>),
    Done,
    Error(Seq<char>),
}

impl View for StreamEvent {
    type V = EventView;

    open spec fn view(&self) -> EventView {
        match self {
            StreamEvent::Chunk(d) => EventView::Chunk(d@),
            StreamEvent::Done => EventView::Done,
            StreamEvent::Error(m) => EventView::Error(m@),
        }
    }
}

impl StreamEvent {
    /// The value of the payload's `type` field.
    pub fn kind(&self) -> (r: &'static str)
        ensures
            r@ == match self {
                StreamEvent::Chunk(_) => "chunk"@,
                StreamEvent::Done => "done"@,
                StreamEvent::Error(_) => "error"@,
            },
    {
        match self {
            StreamEvent::Chunk(_) => "chunk",
            StreamEvent::Done => "done",
            StreamEvent::Error(_) => "error",
        }
    }
}

/// Whether a read ends the stream.
pub open spec fn is_terminal(r: ReadView) -> bool {
    !(r is Chunk)
}

/// The event that one read publishes on a stream that is still open: an
/// empty chunk publishes nothing.
pub open spec fn event_of_read(r: ReadView) -> Option<EventView> {
    match r {
        ReadView::Chunk(b) => if b.len() == 0 {
            None
        } else {
            Some(EventView::Chunk(lossy_text(b)))
        },
        ReadView::End => Some(EventView::Done),
        ReadView::Failed(m) => Some(EventView::Error(m)),
    }
}

/// The events an optional event stands for.
pub open spec fn opt_events(e: Option<EventView>) -> Seq<EventView> {
    match e {
        None => Seq::empty(),
        Some(v) => seq![v],
    }
}

/// An optional stream event as plain values.
pub open spec fn opt_event_view(e: Option<StreamEvent>) -> Option<EventView> {
    match e {
        None => None,
        Some(v) => Some(v@),
    }
}

/// Whether a sequence of reads holds a read that ends the stream.
pub open spec fn stream_closed(reads: Seq<ReadView>) -> bool {
    exists|i: int| 0 <= i < reads.len() && is_terminal(#[trigger] reads[i])
}

/// The events published for a sequence of reads, in order: nothing is
/// published after the read that ends the stream.
pub open spec fn relay_events(reads: Seq<ReadView>) -> Seq<EventView>
    decreases reads.len(),
{
    if reads.len() == 0 {
        Seq::empty()
    } else {
        let prev = reads.drop_last();
        if stream_closed(prev) {
            relay_events(prev)
        } else {
            relay_events(prev) + opt_events(event_of_read(reads.last()))
        }
    }
}

/// The reads of a sequence of body pieces.
pub open spec fn chunk_reads(chunks: Seq<Seq<u8>>) -> Seq<ReadView> {
    chunks.map_values(|c: Seq<u8>| ReadView::Chunk(c))
}

/// The chunk events of a sequence of body pieces.
pub open spec fn chunk_events(chunks: Seq<Seq<u8>>) -> Seq<EventView> {
    chunks.map_values(|c: Seq<u8>| EventView::Chunk(lossy_text(c)))
}

proof fn lemma_open_chunks(chunks: Seq<Seq<u8>>)
    requires
        forall|i: int| 0 <= i < chunks.len() ==> (#[trigger] chunks[i]).len() > 0,
    ensures
        !stream_closed(chunk_reads(chunks)),
        relay_events(chunk_reads(chunks)) == chunk_events(chunks),
    decreases chunks.len(),
{
    let reads = chunk_reads(chunks);
    assert forall|i: int| 0 <= i < reads.len() implies !is_terminal(#[trigger] reads[i]) by {
        assert(reads[i] == ReadView::Chunk(chunks[i]));
    }
    if chunks.len() > 0 {
        let prev = chunks.drop_last();
        assert forall|i: int| 0 <= i < prev.len() implies (#[trigger] prev[i]).len() > 0 by {
            assert(prev[i] == chunks[i]);
        }
        lemma_open_chunks(prev);
        assert(reads.drop_last() == chunk_reads(prev));
        assert(reads.last() == ReadView::Chunk(chunks.last()));
        assert(chunks.last() == chunks[chunks.len() - 1]);
        assert(chunk_events(chunks) == chunk_events(prev).push(EventView::Chunk(lossy_text(chunks.last()))));
    } else {
        assert(chunk_events(chunks) == Seq::<EventView>::empty());
    }
}

proof fn lemma_closed_stays(prefix: Seq<ReadView>, rest: Seq<ReadView>)
    requires
        stream_closed(prefix),
    ensures
        stream_closed(prefix + rest),
        relay_events(prefix + rest) == relay_events(prefix),
    decreases rest.len(),
{
    let all = prefix + rest;
    let i = choose|i: int| 0 <= i < prefix.len() && is_terminal(#[trigger] prefix[i]);
    assert(all[i] == prefix[i]);
    if rest.len() > 0 {
        let shorter = rest.drop_last();
        lemma_closed_stays(prefix, shorter);
        assert(all.drop_last() == prefix + shorter);
    } else {
        assert(all == prefix);
    }
}

/// A body whose non-empty pieces are followed by a normal end publishes one
/// chunk event per piece, in the order received, then exactly one done
/// event, and no error event.
pub proof fn lemma_stream_completes(chunks: Seq<Seq<u8>>)
    requires
        forall|i: int| 0 <= i < chunks.len() ==> (#[trigger] chunks[i]).len() > 0,
    ensures
        relay_events(chunk_reads(chunks).push(ReadView::End)) == chunk_events(chunks).push(
            EventView::Done,
        ),
{
    lemma_open_chunks(chunks);
    let reads = chunk_reads(chunks).push(ReadView::End);
    assert(reads.drop_last() == chunk_reads(chunks));
}

/// A body whose non-empty pieces are followed by a read failure publishes
/// one chunk event per piece, in the order received, then exactly one error
/// event; whatever is read afterwards publishes nothing, so no done event
/// follows.
pub proof fn lemma_stream_fails(chunks: Seq<Seq<u8>>, message: Seq<char>, rest: Seq<ReadView>)
    requires
        forall|i: int| 0 <= i < chunks.len() ==> (#[trigger] chunks[i]).len() > 0,
    ensures
        relay_events(chunk_reads(chunks).push(ReadView::Failed(message)) + rest) == chunk_events(
            chunks,
        ).push(EventView::Error(message)),
{
    lemma_open_chunks(chunks);
    let failed = chunk_reads(chunks).push(ReadView::Failed(message));
    assert(failed.drop_last() == chunk_reads(chunks));
    assert(failed[failed.len() - 1] == ReadView::Failed(message));
    lemma_closed_stays(failed, rest);
}

/// Relays the reads of one response body to the stream's channel.
pub struct StreamRelay {
    channel: String,
    closed: bool,
    reads: Ghost<Seq<ReadView>>,
}

impl StreamRelay {
    /// The reads handed to the relay so far.
    pub closed spec fn reads(&self) -> Seq<ReadView> {
        self.reads@
    }

    /// The events the relay has published so far.
    pub open spec fn published(&self) -> Seq<EventView> {
        relay_events(self.reads())
    }

    /// The channel this relay publishes on.
    pub closed spec fn channel_view(&self) -> Seq<char> {
        self.channel@
    }

    pub closed spec fn wf(&self) -> bool {
        self.closed == stream_closed(self.reads@)
    }

    /// A relay for the stream with correlation id `id`.
    pub fn new(id: &str) -> (r: StreamRelay)
        ensures
            r.wf(),
            r.channel_view() == channel_name(id@),
            r.reads() == Seq::<ReadView>::empty(),
            !stream_closed(r.reads()),
    {
        StreamRelay { channel: stream_channel(id), closed: false, reads: Ghost(Seq::empty()) }
    }

    /// The channel this relay publishes on.
    pub fn channel(&self) -> (r: &str)
        ensures
            r@ == self.channel_view(),
    {
        self.channel.as_str()
    }

    /// Whether the stream has ended, normally or by an error.
    pub fn is_closed(&self) -> (r: bool)
        requires
            self.wf(),
        ensures
            r == stream_closed(self.reads()),
    {
        self.closed
    }

    /// Takes the next read and returns the event to publish, if any.
    pub fn on_read(&mut self, read: BodyRead) -> (r: Option<StreamEvent>)
        requires
            old(self).wf(),
        ensures
            final(self).wf(),
            final(self).channel_view() == old(self).channel_view(),
            final(self).reads() == old(self).reads().push(read@),
            final(self).published() == old(self).published() + opt_events(opt_event_view(r)),
            opt_event_view(r) == if stream_closed(old(self).reads()) {
                None
            } else {
                event_of_read(read@)
            },
    {
        let ghost prev = self.reads@;
        let ghost rv = read@;
        proof {
            let next = prev.push(rv);
            assert(next.drop_last() == prev);
            assert(next.last() == rv);
            if stream_closed(prev) {
                let i = choose|i: int| 0 <= i < prev.len() && is_terminal(#[trigger] prev[i]);
                assert(next[i] == prev[i]);
            }
            if is_terminal(rv) {
                assert(next[prev.len() as int] == rv);
            }
            if !stream_closed(prev) && !is_terminal(rv) {
                assert forall|i: int| 0 <= i < next.len() implies !is_terminal(#[trigger] next[i]) by {
                    if i < prev.len() {
                        assert(next[i] == prev[i]);
                    }
                }
            }
        }
        self.reads = Ghost(prev.push(rv));
        if self.closed {
            return None;
        }
        match read {
            BodyRead::Chunk(b) => {
                if b.len() == 0 {
                    assert(relay_events(self.reads@) == relay_events(prev) + opt_events(None));
                    None
                } else {
                    let text = decode_lossy(b.as_slice());
                    let e = StreamEvent::Chunk(text);
                    Some(e)
                }
            },
            BodyRead::End => {
                self.closed = true;
                Some(StreamEvent::Done)
            },
            BodyRead::Failed(m) => {
                self.closed = true;
                Some(StreamEvent::Error(m))
            },
        }
    }
}

} // verus!
