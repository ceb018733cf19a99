//! A named pipe that serves access units to one client at a time.

use vstd::prelude::*;
use vstd::string::*;
use crate::text::is_lower_hex;

verus! {

/// Milliseconds to wait after the pipe could not be created.
pub const CREATE_RETRY_MS: u64 = 250;

/// Milliseconds to wait after a client could not be accepted.
pub const CONNECT_RETRY_MS: u64 = 150;

/// Length of the identifier at the end of a pipe's path.
pub const PIPE_ID_LEN: usize = 32;

/// What every pipe path begins with.
pub open spec fn pipe_prefix() -> Seq<char> {
    "\\\\.\\pipe\\mirrativ_llstream_video_"@
}

/// Whether `id` can close a pipe path: 32 hexadecimal digits in lower case.
pub open spec fn is_pipe_id(id: Seq<char>) -> bool {
    id.len() == PIPE_ID_LEN && forall|i: int| 0 <= i < id.len() ==> is_lower_hex(#[trigger] id[i])
}

/// `Uuid::new_v4().simple()` of the uuid crate, as text: a random version 4
/// UUID written as 32 hexadecimal digits in lower case without hyphens.
/// Which digits come out differs from call to call, so the contract says no
/// more than the shape. The call fails where the system hands out no random
/// bytes.
#[verifier::external_body]
fn fresh_pipe_id() -> (id: String)
    ensures
        is_pipe_id(id@),
{
    uuid::Uuid::new_v4().simple().to_string()
}

/// Builds the path of the pipe with the identifier `id`.
pub fn pipe_path(id: &str) -> (path: String)
    ensures
        path@ == pipe_prefix() + id@,
{
    let mut path: String = String::from_str("\\\\.\\pipe\\mirrativ_llstream_video_");
    path.append(id);
    path
}

/// Makes up the path of a new pipe.
pub fn new_pipe_path() -> (path: String)
    ensures
        pipe_prefix().is_prefix_of(path@),
        is_pipe_id(path@.skip(pipe_prefix().len() as int)),
{
    let id: String = fresh_pipe_id();
    let path: String = pipe_path(id.as_str());
    proof {
        assert(path@.skip(pipe_prefix().len() as int) =~= id@);
        assert(path@.subrange(0, pipe_prefix().len() as int) =~= pipe_prefix());
    }
    path
}

/// Where the pipe stands.
#[derive(Clone, Copy, Debug, PartialEq, Eq, Structural)]
pub enum PipePhase {
    /// An instance of the pipe is being created.
    Creating,
    /// The instance waits for its client.
    AwaitingClient,
    /// A client is connected and access units are written to it.
    Writing,
    /// A failure is being slept off before the next instance is created.
    Pausing,
    /// The writer has returned.
    Closed,
}

/// What happened while the writer waited.
pub enum PipeEvent {
    /// The shutdown signal was raised.
    Shutdown,
    /// The shutdown signal changed without being raised.
    Woken,
    /// The pipe instance exists.
    Created,
    /// The pipe instance could not be created.
    CreateFailed,
    /// A client connected.
    ClientConnected,
    /// Waiting for a client failed.
    ConnectFailed,
    /// The next access unit.
    Unit(Vec<u8>),
    /// The writer fell behind and access units were lost.
    Lagged,
    /// No more access units will come.
    ChannelClosed,
    /// Writing to the client failed: it is gone.
    WriteFailed,
    /// The pause is over.
    DelayOver,
}

/// What the writer does next.
pub enum PipeAction {
    /// Create an instance of the pipe.
    Create,
    /// Wait for a client to connect.
    AwaitClient,
    /// Subscribe to the access units, then receive.
    Subscribe,
    /// Receive the next access unit.
    Receive,
    /// Write these bytes to the client, then receive.
    Write(Vec<u8>),
    /// Sleep for so many milliseconds.
    Wait(u64),
    /// Return.
    Return,
}

/// What a pipe event holds.
pub enum PipeOccurrence {
    Shutdown,
    Woken,
    Created,
    CreateFailed,
    ClientConnected,
    ConnectFailed,
    Unit(Seq<u8>),
    Lagged,
    ChannelClosed,
    WriteFailed,
    DelayOver,
}

impl View for PipeEvent {
    type V = PipeOccurrence;

    open spec fn view(&self) -> PipeOccurrence {
        match self {
            PipeEvent::Shutdown => PipeOccurrence::Shutdown,
            PipeEvent::Woken => PipeOccurrence::Woken,
            PipeEvent::Created => PipeOccurrence::Created,
            PipeEvent::CreateFailed => PipeOccurrence::CreateFailed,
            PipeEvent::ClientConnected => PipeOccurrence::ClientConnected,
            PipeEvent::ConnectFailed => PipeOccurrence::ConnectFailed,
            PipeEvent::Unit(bytes) => PipeOccurrence::Unit(bytes@),
            PipeEvent::Lagged => PipeOccurrence::Lagged,
            PipeEvent::ChannelClosed => PipeOccurrence::ChannelClosed,
            PipeEvent::WriteFailed => PipeOccurrence::WriteFailed,
            PipeEvent::DelayOver => PipeOccurrence::DelayOver,
        }
    }
}

/// What a pipe action holds.
pub enum PipeStep {
    Create,
    AwaitClient,
    Subscribe,
    Receive,
    Write(Seq<u8>),
    Wait(u64),
    Return,
}

impl View for PipeAction {
    type V = PipeStep;

    open spec fn view(&self) -> PipeStep {
        match self {
            PipeAction::Create => PipeStep::Create,
            PipeAction::AwaitClient => PipeStep::AwaitClient,
            PipeAction::Subscribe => PipeStep::Subscribe,
            PipeAction::Receive => PipeStep::Receive,
            PipeAction::Write(bytes) => PipeStep::Write(bytes@),
            PipeAction::Wait(ms) => PipeStep::Wait(*ms),
            PipeAction::Return => PipeStep::Return,
        }
    }
}

/// What is done on an event in a phase. Shutdown and the end of the access
/// units end the writer. A failure to create or to connect is slept off. A
/// client that is gone makes room for the next: the pipe is created anew.
/// Access units are written as they come, and lost ones are passed over.
pub open spec fn pipe_step(phase: PipePhase, event: PipeOccurrence) -> PipeStep {
    match (phase, event) {
        (PipePhase::Closed, _) => PipeStep::Return,
        (_, PipeOccurrence::Shutdown) => PipeStep::Return,
        (PipePhase::Creating, PipeOccurrence::Created) => PipeStep::AwaitClient,
        (PipePhase::Creating, PipeOccurrence::CreateFailed) => PipeStep::Wait(CREATE_RETRY_MS),
        (PipePhase::Creating, _) => PipeStep::Create,
        (PipePhase::AwaitingClient, PipeOccurrence::ClientConnected) => PipeStep::Subscribe,
        (PipePhase::AwaitingClient, PipeOccurrence::ConnectFailed) => PipeStep::Wait(
            CONNECT_RETRY_MS,
        ),
        (PipePhase::AwaitingClient, _) => PipeStep::Create,
        (PipePhase::Writing, PipeOccurrence::Unit(bytes)) => PipeStep::Write(bytes),
        (PipePhase::Writing, PipeOccurrence::ChannelClosed) => PipeStep::Return,
        (PipePhase::Writing, PipeOccurrence::WriteFailed) => PipeStep::Create,
        (PipePhase::Writing, _) => PipeStep::Receive,
        (PipePhase::Pausing, _) => PipeStep::Create,
    }
}

/// The phase in which a step leaves the writer.
pub open spec fn phase_after(step: PipeStep) -> PipePhase {
    match step {
        PipeStep::Create => PipePhase::Creating,
        PipeStep::AwaitClient => PipePhase::AwaitingClient,
        PipeStep::Subscribe => PipePhase::Writing,
        PipeStep::Receive => PipePhase::Writing,
        PipeStep::Write(_) => PipePhase::Writing,
        PipeStep::Wait(_) => PipePhase::Pausing,
        PipeStep::Return => PipePhase::Closed,
    }
}

/// The writer of a named pipe, as the decisions it takes between two waits.
pub struct PipeWriter {
    phase: PipePhase,
}

impl View for PipeWriter {
    type V = PipePhase;

    closed spec fn view(&self) -> PipePhase {
        self.phase
    }
}

impl PipeWriter {
    /// A writer that is about to create its pipe.
    pub fn new() -> (writer: Self)
        ensures
            writer@ == PipePhase::Creating,
    {
        Self { phase: PipePhase::Creating }
    }

    /// The phase that the writer is in.
    pub fn phase(&self) -> (phase: PipePhase)
        ensures
            phase == self@,
    {
        self.phase
    }

    /// Takes an event and says what to do next.
    pub fn step(&mut self, event: PipeEvent) -> (action: PipeAction)
        ensures
            action@ == pipe_step(old(self)@, event@),
            final(self)@ == phase_after(pipe_step(old(self)@, event@)),
    {
        let action: PipeAction = match (self.phase, event) {
            (PipePhase::Closed, _) => PipeAction::Return,
            (_, PipeEvent::Shutdown) => PipeAction::Return,
            (PipePhase::Creating, PipeEvent::Created) => PipeAction::AwaitClient,
            (PipePhase::Creating, PipeEvent::CreateFailed) => PipeAction::Wait(CREATE_RETRY_MS),
            (PipePhase::Creating, _) => PipeAction::Create,
            (PipePhase::AwaitingClient, PipeEvent::ClientConnected) => PipeAction::Subscribe,
            (PipePhase::AwaitingClient, PipeEvent::ConnectFailed) => PipeAction::Wait(
                CONNECT_RETRY_MS,
            ),
            (PipePhase::AwaitingClient, _) => PipeAction::Create,
            (PipePhase::Writing, PipeEvent::Unit(bytes)) => PipeAction::Write(bytes),
            (PipePhase::Writing, PipeEvent::ChannelClosed) => PipeAction::Return,
            (PipePhase::Writing, PipeEvent::WriteFailed) => PipeAction::Create,
            (PipePhase::Writing, _) => PipeAction::Receive,
            (PipePhase::Pausing, _) => PipeAction::Create,
        };
        self.phase = match action {
            PipeAction::Create => PipePhase::Creating,
            PipeAction::AwaitClient => PipePhase::AwaitingClient,
            PipeAction::Subscribe => PipePhase::Writing,
            PipeAction::Receive => PipePhase::Writing,
            PipeAction::Write(_) => PipePhase::Writing,
            PipeAction::Wait(_) => PipePhase::Pausing,
            PipeAction::Return => PipePhase::Closed,
        };
        action
    }
}

} // verus!
