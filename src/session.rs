//! The per-connection session: which read, reply or close follows each thing
//! that happens on the connection. The caller performs the reads and writes and
//! reports back what happened.
use vstd::prelude::*;
use crate::message::{Request, Response, response_for, dispatch};

verus! {

/// Why a session ended.
#[derive(Debug, Clone, Copy, PartialEq, Eq, Structural)]
pub enum CloseReason {
    /// The peer closed the stream between frames.
    PeerClosed,
    /// The stream ended inside a frame.
    Truncated,
    /// A frame declared more bytes than the maximum.
    TooLarge { declared: u32 },
    /// A payload did not decode as a request.
    DecodeFailed,
    /// No byte arrived within the idle timeout.
    TimedOut,
    /// Any other transport failure on read or write.
    Io,
    /// The server was asked to stop.
    Stopped,
}

/// Where a session stands.
#[derive(Debug, Clone, Copy, PartialEq, Eq, Structural)]
pub enum SessionState {
    /// Waiting for the 4-byte length prefix of the next request.
    AwaitHeader,
    /// Waiting for a payload of `len` bytes.
    AwaitBody { len: usize },
    /// Terminal: the connection is to be dropped.
    Closed { reason: CloseReason },
}

/// What happened on the connection since the last step.
#[derive(Debug, Clone)]
pub enum SessionEvent {
    /// A length prefix was read; it declares `declared` payload bytes.
    Header { declared: u32 },
    /// The payload was read and decoded; `None` when it carried no known variant.
    Body { request: Option<Request> },
    /// The payload was read but did not decode.
    Undecodable,
    /// The stream ended; `partial` when some bytes of the awaited prefix had
    /// already arrived. Inside a payload the end always truncates the frame.
    EndOfStream { partial: bool },
    /// Nothing arrived within the idle timeout.
    TimedOut,
    /// A read or write failed otherwise.
    IoFailed,
    /// The server's running flag was seen cleared.
    Stopping,
}

/// What the caller does next.
#[derive(Debug, Clone)]
pub enum SessionAction {
    /// Read a 4-byte length prefix.
    ReadHeader,
    /// Read exactly `len` payload bytes and decode them.
    ReadBody { len: usize },
    /// Encode `response`, write it as one frame, then read the next prefix.
    Respond { response: Response },
    /// Drop the connection.
    Close { reason: CloseReason },
}

/// The state that follows `s` on event `e`, for a reader whose maximum is `max_len`.
pub open spec fn next_state(s: SessionState, e: SessionEvent, max_len: nat) -> SessionState {
    match s {
        SessionState::Closed { reason } => s,
        SessionState::AwaitHeader => match e {
            SessionEvent::Header { declared } => if declared > max_len {
                SessionState::Closed { reason: CloseReason::TooLarge { declared } }
            } else {
                SessionState::AwaitBody { len: declared as usize }
            },
            SessionEvent::EndOfStream { partial } => SessionState::Closed {
                reason: if partial { CloseReason::Truncated } else { CloseReason::PeerClosed },
            },
            _ => closed_on_fault(e, s),
        },
        SessionState::AwaitBody { len } => match e {
            SessionEvent::Body { request } => SessionState::AwaitHeader,
            SessionEvent::Undecodable => SessionState::Closed { reason: CloseReason::DecodeFailed },
            SessionEvent::EndOfStream { .. } => SessionState::Closed { reason: CloseReason::Truncated },
            _ => closed_on_fault(e, s),
        },
    }
}

/// The state after a timeout, a transport failure or a stop; `s` on any other event.
pub open spec fn closed_on_fault(e: SessionEvent, s: SessionState) -> SessionState {
    match e {
        SessionEvent::TimedOut => SessionState::Closed { reason: CloseReason::TimedOut },
        SessionEvent::IoFailed => SessionState::Closed { reason: CloseReason::Io },
        SessionEvent::Stopping => SessionState::Closed { reason: CloseReason::Stopped },
        _ => s,
    }
}

/// The action that goes with moving from `s` on event `e`.
pub open spec fn action_for(s: SessionState, e: SessionEvent, max_len: nat) -> SessionAction {
    match next_state(s, e, max_len) {
        SessionState::Closed { reason } => SessionAction::Close { reason },
        SessionState::AwaitBody { len } => SessionAction::ReadBody { len },
        SessionState::AwaitHeader => match (s, e) {
            (SessionState::AwaitBody { .. }, SessionEvent::Body { request: Some(req) }) =>
                SessionAction::Respond { response: response_for(req) },
            _ => SessionAction::ReadHeader,
        },
    }
}

/// The state after feeding `events` one by one, starting from `s`.
pub open spec fn run(s: SessionState, events: Seq<SessionEvent>, max_len: nat) -> SessionState
    decreases events.len(),
{
    if events.len() == 0 {
        s
    } else {
        run(next_state(s, events[0], max_len), events.drop_first(), max_len)
    }
}

/// The responses written while feeding `events` one by one, starting from `s`, in order.
pub open spec fn replies(s: SessionState, events: Seq<SessionEvent>, max_len: nat) -> Seq<Response>
    decreases events.len(),
{
    if events.len() == 0 {
        Seq::empty()
    } else {
        let rest = replies(next_state(s, events[0], max_len), events.drop_first(), max_len);
        match action_for(s, events[0], max_len) {
            SessionAction::Respond { response } => seq![response] + rest,
            _ => rest,
        }
    }
}

/// What a connection reports when request `i` arrives in a frame declaring `lens[i]`
/// bytes and decodes as `reqs[i]`, one request after the other.
pub open spec fn exchange(lens: Seq<u32>, reqs: Seq<Request>) -> Seq<SessionEvent>
    decreases reqs.len(),
{
    if reqs.len() == 0 || lens.len() == 0 {
        Seq::empty()
    } else {
        seq![
            SessionEvent::Header { declared: lens[0] },
            SessionEvent::Body { request: Some(reqs[0]) },
        ] + exchange(lens.drop_first(), reqs.drop_first())
    }
}

/// Feeding two runs of events one after the other is feeding the first, then the
/// second from where the first left off.
pub proof fn lemma_run_append(s: SessionState, a: Seq<SessionEvent>, b: Seq<SessionEvent>, max_len: nat)
    ensures
        run(s, a + b, max_len) == run(run(s, a, max_len), b, max_len),
        replies(s, a + b, max_len) == replies(s, a, max_len) + replies(run(s, a, max_len), b, max_len),
    decreases a.len(),
{
    if a.len() == 0 {
        assert(a + b =~= b);
    } else {
        assert((a + b).drop_first() =~= a.drop_first() + b);
        lemma_run_append(next_state(s, a[0], max_len), a.drop_first(), b, max_len);
        assert(replies(s, a + b, max_len) =~= replies(s, a, max_len) + replies(run(s, a, max_len), b, max_len));
    }
}

/// Requests sent back to back on one connection, each in a frame within the
/// maximum, are answered one for one and in the order they were sent, and the
/// session is then ready for the next request.
pub proof fn lemma_replies_in_order(lens: Seq<u32>, reqs: Seq<Request>, max_len: nat)
    requires
        lens.len() == reqs.len(),
        forall|i: int| 0 <= i < lens.len() ==> lens[i] <= max_len,
    ensures
        run(SessionState::AwaitHeader, exchange(lens, reqs), max_len) == SessionState::AwaitHeader,
        replies(SessionState::AwaitHeader, exchange(lens, reqs), max_len) == reqs.map_values(
            |r: Request| response_for(r),
        ),
    decreases reqs.len(),
{
    let s = SessionState::AwaitHeader;
    if reqs.len() == 0 {
        assert(reqs.map_values(|r: Request| response_for(r)) =~= Seq::<Response>::empty());
    } else {
        let first = seq![
            SessionEvent::Header { declared: lens[0] },
            SessionEvent::Body { request: Some(reqs[0]) },
        ];
        let tail = exchange(lens.drop_first(), reqs.drop_first());
        assert(lens[0] <= max_len);
        lemma_run_append(s, first, tail, max_len);
        let mid = next_state(s, first[0], max_len);
        let second = first.drop_first();
        assert(second =~= seq![SessionEvent::Body { request: Some(reqs[0]) }]);
        assert(second.drop_first() =~= Seq::<SessionEvent>::empty());
        assert(mid == SessionState::AwaitBody { len: lens[0] as usize });
        assert(next_state(mid, second[0], max_len) == s);
        assert(run(s, Seq::<SessionEvent>::empty(), max_len) == s);
        assert(replies(s, Seq::<SessionEvent>::empty(), max_len) =~= Seq::<Response>::empty());
        assert(run(mid, second, max_len) == s);
        assert(replies(mid, second, max_len) =~= seq![response_for(reqs[0])]);
        assert(replies(s, first, max_len) == replies(mid, second, max_len));
        assert(run(s, first, max_len) == s);
        assert(replies(s, first, max_len) =~= seq![response_for(reqs[0])]);
        assert forall|i: int| 0 <= i < lens.drop_first().len() implies lens.drop_first()[i] <= max_len by {
            assert(lens.drop_first()[i] == lens[i + 1]);
        }
        lemma_replies_in_order(lens.drop_first(), reqs.drop_first(), max_len);
        assert(reqs.map_values(|r: Request| response_for(r)) =~= seq![response_for(reqs[0])]
            + reqs.drop_first().map_values(|r: Request| response_for(r)));
    }
}

/// A closed session stays closed for the same reason and writes nothing more,
/// whatever happens on the connection afterwards.
pub proof fn lemma_closed_is_final(reason: CloseReason, events: Seq<SessionEvent>, max_len: nat)
    ensures
        run(SessionState::Closed { reason }, events, max_len) == (SessionState::Closed { reason }),
        replies(SessionState::Closed { reason }, events, max_len) == Seq::<Response>::empty(),
    decreases events.len(),
{
    if events.len() > 0 {
        lemma_closed_is_final(reason, events.drop_first(), max_len);
    }
}

/// A frame that declares more than the maximum closes the session without a
/// response, and nothing written afterwards is answered.
pub proof fn lemma_oversized_frame_closes(declared: u32, later: Seq<SessionEvent>, max_len: nat)
    requires
        declared > max_len,
    ensures
        run(SessionState::AwaitHeader, seq![SessionEvent::Header { declared }] + later, max_len)
            == (SessionState::Closed { reason: CloseReason::TooLarge { declared } }),
        replies(SessionState::AwaitHeader, seq![SessionEvent::Header { declared }] + later, max_len)
            == Seq::<Response>::empty(),
{
    let events = seq![SessionEvent::Header { declared }] + later;
    assert(events.drop_first() =~= later);
    lemma_closed_is_final(CloseReason::TooLarge { declared }, later, max_len);
}

/// A payload that does not decode closes the session without a response, and
/// nothing written afterwards is answered.
pub proof fn lemma_garbage_payload_closes(len: usize, later: Seq<SessionEvent>, max_len: nat)
    ensures
        run(SessionState::AwaitBody { len }, seq![SessionEvent::Undecodable] + later, max_len)
            == (SessionState::Closed { reason: CloseReason::DecodeFailed }),
        replies(SessionState::AwaitBody { len }, seq![SessionEvent::Undecodable] + later, max_len)
            == Seq::<Response>::empty(),
{
    let events = seq![SessionEvent::Undecodable] + later;
    assert(events.drop_first() =~= later);
    lemma_closed_is_final(CloseReason::DecodeFailed, later, max_len);
}

/// One connection's session.
pub struct Session {
    pub state: SessionState,
    pub max_len: usize,
}

impl Session {
    /// A session waiting for its first request, reading payloads of at most `max_len` bytes.
    pub fn new(max_len: usize) -> (r: Session)
        ensures
            r.state == SessionState::AwaitHeader,
            r.max_len == max_len,
    {
        Session { state: SessionState::AwaitHeader, max_len }
    }

    /// Whether the session has ended.
    pub fn is_closed(&self) -> (r: bool)
        ensures
            r == (self.state is Closed),
    {
        match self.state {
            SessionState::Closed { .. } => true,
            _ => false,
        }
    }

    /// Moves the session on event `e` and says what the caller does next.
    pub fn step(&mut self, e: SessionEvent) -> (r: SessionAction)
        ensures
            final(self).max_len == old(self).max_len,
            final(self).state == next_state(old(self).state, e, old(self).max_len as nat),
            r == action_for(old(self).state, e, old(self).max_len as nat),
    {
        match self.state {
            SessionState::Closed { reason } => SessionAction::Close { reason },
            SessionState::AwaitHeader => match e {
                SessionEvent::Header { declared } => {
                    if declared as usize > self.max_len {
                        self.close(CloseReason::TooLarge { declared })
                    } else {
                        self.state = SessionState::AwaitBody { len: declared as usize };
                        SessionAction::ReadBody { len: declared as usize }
                    }
                },
                SessionEvent::EndOfStream { partial } => {
                    if partial {
                        self.close(CloseReason::Truncated)
                    } else {
                        self.close(CloseReason::PeerClosed)
                    }
                },
                SessionEvent::TimedOut => self.close(CloseReason::TimedOut),
                SessionEvent::IoFailed => self.close(CloseReason::Io),
                SessionEvent::Stopping => self.close(CloseReason::Stopped),
                _ => SessionAction::ReadHeader,
            },
            SessionState::AwaitBody { len } => match e {
                SessionEvent::Body { request } => {
                    self.state = SessionState::AwaitHeader;
                    match request {
                        Some(req) => SessionAction::Respond { response: dispatch(req) },
                        None => SessionAction::ReadHeader,
                    }
                },
                SessionEvent::Undecodable => self.close(CloseReason::DecodeFailed),
                SessionEvent::EndOfStream { .. } => self.close(CloseReason::Truncated),
                SessionEvent::TimedOut => self.close(CloseReason::TimedOut),
                SessionEvent::IoFailed => self.close(CloseReason::Io),
                SessionEvent::Stopping => self.close(CloseReason::Stopped),
                _ => SessionAction::ReadBody { len },
            },
        }
    }

    fn close(&mut self, reason: CloseReason) -> (r: SessionAction)
        ensures
            final(self).max_len == old(self).max_len,
            final(self).state == (SessionState::Closed { reason }),
            r == (SessionAction::Close { reason }),
    {
        self.state = SessionState::Closed { reason };
        SessionAction::Close { reason }
    }
}

} // verus!
