//! The life of one upstream connection: connect, read, back off, reconnect,
//! until shutdown.

use vstd::prelude::*;

verus! {

/// Delay before the first reconnect would be 250 ms; each further attempt
/// doubles it.
pub const BACKOFF_BASE_MS: u64 = 250;

/// Attempts beyond this one wait no longer.
pub const BACKOFF_MAX_SHIFT: u64 = 4;

/// Longest delay between two attempts.
pub const BACKOFF_MAX_MS: u64 = 4000;

/// Milliseconds to wait before attempt `attempt`: 250 doubled once per
/// attempt, four times at most.
pub open spec fn backoff_ms(attempt: u64) -> u64 {
    if attempt == 0 {
        250
    } else if attempt == 1 {
        500
    } else if attempt == 2 {
        1000
    } else if attempt == 3 {
        2000
    } else {
        4000
    }
}

/// The delay is 250 ms times two to the number of attempts, capped at four.
pub proof fn lemma_backoff_doubles(attempt: u64)
    ensures
        backoff_ms(attempt) == BACKOFF_BASE_MS * vstd::arithmetic::power2::pow2(
            if attempt < BACKOFF_MAX_SHIFT {
                attempt as nat
            } else {
                BACKOFF_MAX_SHIFT as nat
            },
        ),
        BACKOFF_BASE_MS <= backoff_ms(attempt) <= BACKOFF_MAX_MS,
{
    vstd::arithmetic::power2::lemma2_to64();
}

/// Milliseconds to wait before reconnect attempt `attempt`.
pub fn reconnect_backoff(attempt: u64) -> (ms: u64)
    ensures
        ms == backoff_ms(attempt),
{
    let shift: u64 = if attempt < BACKOFF_MAX_SHIFT {
        attempt
    } else {
        BACKOFF_MAX_SHIFT
    };
    assert(shift <= 4 ==> (1u64 << shift) == (if shift == 0 {
        1u64
    } else if shift == 1 {
        2u64
    } else if shift == 2 {
        4u64
    } else if shift == 3 {
        8u64
    } else {
        16u64
    })) by (bit_vector);
    BACKOFF_BASE_MS * (1u64 << shift)
}

/// Where a connection stands.
#[derive(Clone, Copy, Debug, PartialEq, Eq, Structural)]
pub enum IngestPhase {
    /// A connection attempt is under way.
    Connecting,
    /// The connection is up and messages are read.
    Reading,
    /// The connection is down and the backoff delay runs.
    Disconnected,
    /// The loop has returned.
    Closed,
}

/// What happened while the loop waited.
#[derive(Clone, Copy, Debug, PartialEq, Eq, Structural)]
pub enum IngestEvent {
    /// The shutdown signal was raised.
    Shutdown,
    /// The shutdown signal changed without being raised.
    Woken,
    /// The connection attempt succeeded.
    Connected,
    /// The connection attempt failed.
    ConnectFailed,
    /// A binary message was handed to the frame handler, which wants more.
    Handled,
    /// A binary message was handed to the frame handler, which wants no more.
    HandlerDone,
    /// A message arrived that is neither binary nor a close.
    Ignored,
    /// The peer closed the connection.
    PeerClosed,
    /// Reading failed.
    ReadFailed,
    /// The stream of messages ended.
    Ended,
    /// The backoff delay is over.
    DelayOver,
}

/// What the loop does next.
#[derive(Clone, Copy, Debug, PartialEq, Eq, Structural)]
pub enum IngestAction {
    /// Open the connection.
    Connect,
    /// Tell the frame handler that a new connection is up, so that it starts
    /// afresh, then read.
    Announce,
    /// Read the next message.
    Read,
    /// Wait for so many milliseconds.
    Wait(u64),
    /// Return.
    Return,
}

/// What the loop remembers.
pub struct IngestState {
    pub phase: IngestPhase,
    /// Failures since the last successful connect.
    pub attempt: u64,
}

/// `n + 1`, held at the largest `u64`.
pub open spec fn bumped(n: u64) -> u64 {
    if n == u64::MAX {
        n
    } else {
        (n + 1) as u64
    }
}

impl IngestState {
    /// The state of a loop that is about to connect for the first time.
    pub open spec fn initial() -> IngestState {
        IngestState { phase: IngestPhase::Connecting, attempt: 0 }
    }

    /// The state after the connection was lost or could not be made.
    pub open spec fn lost(self) -> IngestState {
        IngestState { phase: IngestPhase::Disconnected, attempt: bumped(self.attempt) }
    }

    /// The action that a phase repeats when nothing moved it on.
    pub open spec fn pending(self) -> IngestAction {
        match self.phase {
            IngestPhase::Connecting => IngestAction::Connect,
            IngestPhase::Reading => IngestAction::Read,
            IngestPhase::Disconnected => IngestAction::Wait(backoff_ms(self.attempt)),
            IngestPhase::Closed => IngestAction::Return,
        }
    }

    /// The state after an event. Shutdown closes the loop from any phase,
    /// and a closed loop stays closed. A successful connect clears the
    /// attempt counter; a failed one and every loss of the connection count
    /// as an attempt. A handler that wants no more closes the loop.
    pub open spec fn next(self, event: IngestEvent) -> IngestState {
        if self.phase == IngestPhase::Closed || event == IngestEvent::Shutdown {
            IngestState { phase: IngestPhase::Closed, attempt: self.attempt }
        } else {
            match (self.phase, event) {
                (IngestPhase::Connecting, IngestEvent::Connected) => IngestState {
                    phase: IngestPhase::Reading,
                    attempt: 0,
                },
                (IngestPhase::Connecting, IngestEvent::ConnectFailed) => self.lost(),
                (IngestPhase::Reading, IngestEvent::HandlerDone) => IngestState {
                    phase: IngestPhase::Closed,
                    attempt: self.attempt,
                },
                (IngestPhase::Reading, IngestEvent::PeerClosed) => self.lost(),
                (IngestPhase::Reading, IngestEvent::ReadFailed) => self.lost(),
                (IngestPhase::Reading, IngestEvent::Ended) => self.lost(),
                (IngestPhase::Disconnected, IngestEvent::DelayOver) => IngestState {
                    phase: IngestPhase::Connecting,
                    attempt: self.attempt,
                },
                (IngestPhase::Disconnected, IngestEvent::Woken) => IngestState {
                    phase: IngestPhase::Connecting,
                    attempt: self.attempt,
                },
                _ => self,
            }
        }
    }

    /// What the loop does after an event: announce a new connection, else
    /// whatever the phase it is in calls for.
    pub open spec fn action(self, event: IngestEvent) -> IngestAction {
        if self.phase == IngestPhase::Connecting && event == IngestEvent::Connected {
            IngestAction::Announce
        } else {
            self.next(event).pending()
        }
    }

    /// The state after a sequence of events.
    pub open spec fn run(self, events: Seq<IngestEvent>) -> IngestState
        decreases events.len(),
    {
        if events.len() == 0 {
            self
        } else {
            self.run(events.drop_last()).next(events.last())
        }
    }
}

/// Once closed, a loop stays closed whatever happens.
pub proof fn lemma_closed_stays_closed(state: IngestState, events: Seq<IngestEvent>)
    requires
        state.phase == IngestPhase::Closed,
    ensures
        state.run(events).phase == IngestPhase::Closed,
    decreases events.len(),
{
    if events.len() > 0 {
        lemma_closed_stays_closed(state, events.drop_last());
    }
}

/// After shutdown was signalled, every event is answered by a return: no
/// connection is attempted and nothing is read or waited for.
pub proof fn lemma_shutdown_is_final(state: IngestState, events: Seq<IngestEvent>, at: int, later: int)
    requires
        0 <= at <= later < events.len(),
        events[at] == IngestEvent::Shutdown,
    ensures
        state.run(events.take(later)).action(events[later]) == IngestAction::Return,
        state.run(events.take(later + 1)).phase == IngestPhase::Closed,
    decreases later - at,
{
    assert(events.take(later + 1).drop_last() =~= events.take(later));
    assert(events.take(later + 1).last() == events[later]);
    if later > at {
        lemma_shutdown_is_final(state, events, at, later - 1);
    }
}

/// Every delay that the loop asks for lies between 250 and 4000 ms.
pub proof fn lemma_wait_is_bounded(state: IngestState, event: IngestEvent)
    ensures
        match state.action(event) {
            IngestAction::Wait(ms) => BACKOFF_BASE_MS <= ms <= BACKOFF_MAX_MS,
            _ => true,
        },
{
}

/// The reconnecting loop of one upstream connection, as the decisions it
/// takes between two waits.
pub struct IngestLoop {
    phase: IngestPhase,
    attempt: u64,
}

impl View for IngestLoop {
    type V = IngestState;

    closed spec fn view(&self) -> IngestState {
        IngestState { phase: self.phase, attempt: self.attempt }
    }
}

impl IngestLoop {
    /// A loop that is about to connect for the first time.
    pub fn new() -> (ingest: Self)
        ensures
            ingest@ == IngestState::initial(),
    {
        Self { phase: IngestPhase::Connecting, attempt: 0 }
    }

    /// The phase that the loop is in.
    pub fn phase(&self) -> (phase: IngestPhase)
        ensures
            phase == self@.phase,
    {
        self.phase
    }

    /// Failures since the last successful connect.
    pub fn attempt(&self) -> (attempt: u64)
        ensures
            attempt == self@.attempt,
    {
        self.attempt
    }

    /// What the loop does first, and whenever nothing has happened.
    pub fn pending(&self) -> (action: IngestAction)
        ensures
            action == self@.pending(),
    {
        match self.phase {
            IngestPhase::Connecting => IngestAction::Connect,
            IngestPhase::Reading => IngestAction::Read,
            IngestPhase::Disconnected => IngestAction::Wait(reconnect_backoff(self.attempt)),
            IngestPhase::Closed => IngestAction::Return,
        }
    }

    fn lose(&mut self)
        ensures
            final(self)@ == old(self)@.lost(),
    {
        self.phase = IngestPhase::Disconnected;
        if self.attempt < u64::MAX {
            self.attempt = self.attempt + 1;
        }
    }

    /// Takes an event and says what to do next.
    pub fn step(&mut self, event: IngestEvent) -> (action: IngestAction)
        ensures
            final(self)@ == old(self)@.next(event),
            action == old(self)@.action(event),
    {
        match (self.phase, event) {
            (IngestPhase::Closed, _) => {},
            (_, IngestEvent::Shutdown) => {
                self.phase = IngestPhase::Closed;
            },
            (IngestPhase::Connecting, IngestEvent::Connected) => {
                self.phase = IngestPhase::Reading;
                self.attempt = 0;
                return IngestAction::Announce;
            },
            (IngestPhase::Connecting, IngestEvent::ConnectFailed) => {
                self.lose();
            },
            (IngestPhase::Reading, IngestEvent::HandlerDone) => {
                self.phase = IngestPhase::Closed;
            },
            (IngestPhase::Reading, IngestEvent::PeerClosed) => {
                self.lose();
            },
            (IngestPhase::Reading, IngestEvent::ReadFailed) => {
                self.lose();
            },
            (IngestPhase::Reading, IngestEvent::Ended) => {
                self.lose();
            },
            (IngestPhase::Disconnected, IngestEvent::DelayOver) => {
                self.phase = IngestPhase::Connecting;
            },
            (IngestPhase::Disconnected, IngestEvent::Woken) => {
                self.phase = IngestPhase::Connecting;
            },
            _ => {},
        }
        self.pending()
    }
}

} // verus!
