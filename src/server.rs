//! The accept loop's decisions and the shutdown coordinator. The caller owns
//! the listening socket and the worker threads; it reports what each accept
//! attempt gave and does what the loop asks.
use vstd::prelude::*;
use std::sync::Arc;
use std::sync::atomic::{AtomicBool, Ordering};

verus! {

/// How long the accept loop sleeps when no connection is pending.
pub const POLL_INTERVAL_MS: u64 = 100;

/// How long a session waits for the next byte before closing.
pub const READ_TIMEOUT_SECS: u64 = 30;

/// Number of workers that run sessions.
pub const THREAD_POOL_SIZE: usize = 4;

/// Where the accept loop stands.
#[derive(Debug, Clone, Copy, PartialEq, Eq, Structural)]
pub enum LoopState {
    /// About to read the running flag.
    CheckFlag,
    /// About to try one non-blocking accept.
    Accept,
    /// Finished; `fatal` when an accept error ended it.
    Done { fatal: bool },
}

/// What the caller observed since the last step.
#[derive(Debug, Clone, Copy, PartialEq, Eq, Structural)]
pub enum LoopEvent {
    /// The running flag was read.
    Flag { running: bool },
    /// An accept returned a connection.
    Accepted,
    /// An accept found no pending connection.
    WouldBlock,
    /// An accept failed otherwise.
    AcceptFailed,
}

/// What the caller does next.
#[derive(Debug, Clone, Copy, PartialEq, Eq, Structural)]
pub enum LoopAction {
    /// Read the running flag.
    ReadFlag,
    /// Try one non-blocking accept.
    TryAccept,
    /// Hand the accepted connection to the pool as one task, then read the flag.
    Submit,
    /// Sleep `ms` milliseconds, then read the flag.
    Sleep { ms: u64 },
    /// Leave the loop normally.
    Exit,
    /// Leave the loop on an accept error.
    Fail,
}

/// The loop state that follows `s` on event `e`.
pub open spec fn loop_next(s: LoopState, e: LoopEvent) -> LoopState {
    match (s, e) {
        (LoopState::CheckFlag, LoopEvent::Flag { running }) =>
            if running { LoopState::Accept } else { LoopState::Done { fatal: false } },
        (LoopState::Accept, LoopEvent::Accepted) => LoopState::CheckFlag,
        (LoopState::Accept, LoopEvent::WouldBlock) => LoopState::CheckFlag,
        (LoopState::Accept, LoopEvent::AcceptFailed) => LoopState::Done { fatal: true },
        _ => s,
    }
}

/// The action that goes with moving from `s` on event `e`.
pub open spec fn loop_action(s: LoopState, e: LoopEvent) -> LoopAction {
    match (s, e) {
        (LoopState::Accept, LoopEvent::Accepted) => LoopAction::Submit,
        (LoopState::Accept, LoopEvent::WouldBlock) => LoopAction::Sleep { ms: POLL_INTERVAL_MS },
        _ => match loop_next(s, e) {
            LoopState::CheckFlag => LoopAction::ReadFlag,
            LoopState::Accept => LoopAction::TryAccept,
            LoopState::Done { fatal } => if fatal { LoopAction::Fail } else { LoopAction::Exit },
        },
    }
}

/// Milliseconds of sleep asked for while feeding `events` from `s`.
pub open spec fn slept_ms(s: LoopState, events: Seq<LoopEvent>) -> nat
    decreases events.len(),
{
    if events.len() == 0 {
        0
    } else {
        let here: nat = match loop_action(s, events[0]) {
            LoopAction::Sleep { ms } => ms as nat,
            _ => 0,
        };
        here + slept_ms(loop_next(s, events[0]), events.drop_first())
    }
}

/// The loop state after feeding `events` one by one from `s`.
pub open spec fn loop_run(s: LoopState, events: Seq<LoopEvent>) -> LoopState
    decreases events.len(),
{
    if events.len() == 0 {
        s
    } else {
        loop_run(loop_next(s, events[0]), events.drop_first())
    }
}

/// Whether every flag read among `events` saw the flag cleared.
pub open spec fn all_stopped(events: Seq<LoopEvent>) -> bool {
    forall|i: int| 0 <= i < events.len() ==> !(#[trigger] events[i] matches LoopEvent::Flag { running: true })
}

/// Once the running flag reads cleared, the loop sleeps at most one poll
/// interval before it leaves, and it leaves at the first flag read.
pub proof fn lemma_stop_latency(s: LoopState, events: Seq<LoopEvent>)
    requires
        all_stopped(events),
    ensures
        slept_ms(s, events) <= POLL_INTERVAL_MS,
        s == LoopState::CheckFlag ==> slept_ms(s, events) == 0,
        s == LoopState::CheckFlag && events.len() > 0 && events[0] is Flag ==> loop_run(s, events)
            == (LoopState::Done { fatal: false }),
    decreases events.len(),
{
    if events.len() > 0 {
        let rest = events.drop_first();
        assert(all_stopped(rest)) by {
            assert forall|i: int| 0 <= i < rest.len() implies !(#[trigger] rest[i] matches LoopEvent::Flag { running: true }) by {
                assert(rest[i] == events[i + 1]);
            }
        }
        assert(!(events[0] matches LoopEvent::Flag { running: true }));
        lemma_stop_latency(loop_next(s, events[0]), rest);
        if let LoopState::Done { fatal } = loop_next(s, events[0]) {
            lemma_done_is_final(fatal, rest);
        }
    }
}

/// A finished loop stays finished and sleeps no more.
pub proof fn lemma_done_is_final(fatal: bool, events: Seq<LoopEvent>)
    ensures
        loop_run(LoopState::Done { fatal }, events) == (LoopState::Done { fatal }),
        slept_ms(LoopState::Done { fatal }, events) == 0,
    decreases events.len(),
{
    if events.len() > 0 {
        lemma_done_is_final(fatal, events.drop_first());
    }
}

/// The accept loop's control state.
pub struct AcceptLoop {
    pub state: LoopState,
}

impl AcceptLoop {
    /// A loop about to read the running flag for the first time.
    pub fn new() -> (r: AcceptLoop)
        ensures
            r.state == LoopState::CheckFlag,
    {
        AcceptLoop { state: LoopState::CheckFlag }
    }

    /// Moves the loop on event `e` and says what the caller does next.
    pub fn step(&mut self, e: LoopEvent) -> (r: LoopAction)
        ensures
            final(self).state == loop_next(old(self).state, e),
            r == loop_action(old(self).state, e),
    {
        match (self.state, e) {
            (LoopState::CheckFlag, LoopEvent::Flag { running }) => {
                if running {
                    self.state = LoopState::Accept;
                    LoopAction::TryAccept
                } else {
                    self.state = LoopState::Done { fatal: false };
                    LoopAction::Exit
                }
            },
            (LoopState::Accept, LoopEvent::Accepted) => {
                self.state = LoopState::CheckFlag;
                LoopAction::Submit
            },
            (LoopState::Accept, LoopEvent::WouldBlock) => {
                self.state = LoopState::CheckFlag;
                LoopAction::Sleep { ms: POLL_INTERVAL_MS }
            },
            (LoopState::Accept, LoopEvent::AcceptFailed) => {
                self.state = LoopState::Done { fatal: true };
                LoopAction::Fail
            },
            (LoopState::CheckFlag, _) => LoopAction::ReadFlag,
            (LoopState::Accept, _) => LoopAction::TryAccept,
            (LoopState::Done { fatal }, _) => if fatal { LoopAction::Fail } else { LoopAction::Exit },
        }
    }
}

/// What a stop request does.
#[derive(Debug, Clone, Copy, PartialEq, Eq, Structural)]
pub enum StopAction {
    /// The flag was flipped: open a short-lived connection to the server's own
    /// address so that a pending accept returns.
    WakeListener,
    /// The server was not running: warn and do nothing else.
    AlreadyStopped,
}

/// What a stop request does, given whether the flag was set when it was cleared.
pub open spec fn stop_outcome(was_running: bool) -> StopAction {
    if was_running { StopAction::WakeListener } else { StopAction::AlreadyStopped }
}

/// Decides a stop request from the value the flag held before it was cleared.
pub fn stop_action(was_running: bool) -> (r: StopAction)
    ensures
        r == stop_outcome(was_running),
{
    if was_running {
        StopAction::WakeListener
    } else {
        StopAction::AlreadyStopped
    }
}

/// How a stop depends on the flag it finds: a stop that finds the flag set
/// wakes the listener, and one that finds it cleared only warns. Since
/// `RunningFlag::request_stop` clears the flag in the same atomic step in which
/// it reads it, that second case is what a repeated stop meets.
pub proof fn lemma_second_stop_is_noop(running: bool)
    ensures
        running ==> stop_outcome(running) == StopAction::WakeListener,
        !running ==> stop_outcome(running) == StopAction::AlreadyStopped,
        stop_outcome(false) == StopAction::AlreadyStopped,
{
}

/// The running flag shared by the accept loop and whoever stops the server.
pub struct RunningFlag {
    flag: Arc<AtomicBool>,
}

impl RunningFlag {
    /// A flag that starts cleared: the server is built but not yet running.
    pub fn new() -> (r: RunningFlag) {
        RunningFlag { flag: Arc::new(AtomicBool::new(false)) }
    }

    /// Another handle on the same flag, for another thread.
    pub fn share(&self) -> (r: RunningFlag) {
        RunningFlag { flag: Arc::clone(&self.flag) }
    }

    /// Marks the server running.
    pub fn start(&self) {
        self.flag.store(true, Ordering::SeqCst);
    }

    /// Whether the server is marked running.
    pub fn is_running(&self) -> bool {
        self.flag.load(Ordering::SeqCst)
    }

    /// Clears the flag in one atomic step and says what else the stop must do:
    /// `stop_action` of the value the flag held just before.
    pub fn request_stop(&self) -> StopAction {
        let was = self.flag.swap(false, Ordering::SeqCst);
        stop_action(was)
    }
}

} // verus!
