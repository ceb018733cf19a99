//! The one relay session that a manager owns, and what starting one takes.

use vstd::prelude::*;
use vstd::string::*;
use crate::text::{trim, trimmed};

verus! {

/// What a caller learns of the relay that was started for it.
pub struct LlstreamRelayInfo {
    /// The address that the player opens.
    pub playlist_url: String,
    /// The container that the relay serves.
    pub mode: String,
    /// The streams that the relay takes in.
    pub source: String,
}

/// The relays that can be started.
#[derive(Clone, Copy, Debug, PartialEq, Eq, Structural)]
pub enum RelayKind {
    /// Video as a transport stream over HTTP.
    VideoTs,
    /// Video and audio as a transport stream over HTTP.
    AvTs,
    /// Video as a stream of access units through a named pipe.
    VideoPipe,
}

/// Samples that wait for the multiplexer at most; one more is dropped.
pub const SAMPLE_QUEUE_CAPACITY: usize = 4096;

impl RelayKind {
    /// The name of the container that a relay serves.
    pub open spec fn mode(self) -> Seq<char> {
        match self {
            RelayKind::VideoTs => "mpegts-video"@,
            RelayKind::AvTs => "mpegts-av"@,
            RelayKind::VideoPipe => "annexb-pipe"@,
        }
    }

    /// The name of the streams that a relay takes in.
    pub open spec fn source(self) -> Seq<char> {
        match self {
            RelayKind::VideoTs => "llstream-video"@,
            RelayKind::AvTs => "llstream-av"@,
            RelayKind::VideoPipe => "llstream-video"@,
        }
    }

    /// Chunks that the broadcast keeps for a consumer that has fallen behind.
    pub open spec fn capacity(self) -> usize {
        match self {
            RelayKind::VideoTs => 512,
            RelayKind::AvTs => 2048,
            RelayKind::VideoPipe => 1024,
        }
    }

    /// Whether a relay takes in audio.
    pub open spec fn has_audio(self) -> bool {
        self == RelayKind::AvTs
    }

    /// Chunks that the broadcast of this relay keeps.
    pub fn broadcast_capacity(self) -> (n: usize)
        ensures
            n == self.capacity(),
    {
        match self {
            RelayKind::VideoTs => 512,
            RelayKind::AvTs => 2048,
            RelayKind::VideoPipe => 1024,
        }
    }

    /// Describes a relay that is published under `address`.
    pub fn info(self, address: String) -> (info: LlstreamRelayInfo)
        ensures
            info.playlist_url == address,
            info.mode@ == self.mode(),
            info.source@ == self.source(),
    {
        let mode: &str = match self {
            RelayKind::VideoTs => "mpegts-video",
            RelayKind::AvTs => "mpegts-av",
            RelayKind::VideoPipe => "annexb-pipe",
        };
        let source: &str = match self {
            RelayKind::VideoTs => "llstream-video",
            RelayKind::AvTs => "llstream-av",
            RelayKind::VideoPipe => "llstream-video",
        };
        LlstreamRelayInfo {
            playlist_url: address,
            mode: String::from_str(mode),
            source: String::from_str(source),
        }
    }
}

/// Why a relay was not started.
#[derive(Clone, Copy, Debug, PartialEq, Eq, Structural)]
pub enum StartError {
    /// The address of the video stream is blank.
    VideoUrlEmpty,
    /// The address of the audio stream is blank.
    AudioUrlEmpty,
    /// This system has no named pipes to serve through.
    PipeUnsupported,
}

impl StartError {
    /// The error in words.
    pub open spec fn text(self) -> Seq<char> {
        match self {
            StartError::VideoUrlEmpty => "video_ws_url is empty"@,
            StartError::AudioUrlEmpty => "audio_ws_url is empty"@,
            StartError::PipeUnsupported => "named pipe relay is supported only on Windows"@,
        }
    }

    /// Puts the error in words.
    pub fn message(self) -> (text: String)
        ensures
            text@ == self.text(),
    {
        match self {
            StartError::VideoUrlEmpty => String::from_str("video_ws_url is empty"),
            StartError::AudioUrlEmpty => String::from_str("audio_ws_url is empty"),
            StartError::PipeUnsupported => String::from_str(
                "named pipe relay is supported only on Windows",
            ),
        }
    }
}

/// The addresses that a relay connects to, as they are used.
pub struct RelayPlan {
    pub kind: RelayKind,
    pub video_ws_url: String,
    /// The address of the audio stream, for a relay that takes in audio.
    pub audio_ws_url: Option<String>,
}

/// What a plan holds.
pub struct Plan {
    pub kind: RelayKind,
    pub video_ws_url: Seq<char>,
    pub audio_ws_url: Option<Seq<char>>,
}

impl View for RelayPlan {
    type V = Plan;

    open spec fn view(&self) -> Plan {
        Plan {
            kind: self.kind,
            video_ws_url: self.video_ws_url@,
            audio_ws_url: match self.audio_ws_url {
                Some(url) => Some(url@),
                None => None,
            },
        }
    }
}

/// The plan for a relay: the addresses without the white space around
/// them, the audio address only where the relay takes in audio. A blank
/// video address is refused first, a blank audio address next.
pub open spec fn planned(kind: RelayKind, video_ws_url: Seq<char>, audio_ws_url: Seq<char>) -> Result<
    Plan,
    StartError,
> {
    if trimmed(video_ws_url).len() == 0 {
        Err(StartError::VideoUrlEmpty)
    } else if kind.has_audio() && trimmed(audio_ws_url).len() == 0 {
        Err(StartError::AudioUrlEmpty)
    } else {
        Ok(
            Plan {
                kind,
                video_ws_url: trimmed(video_ws_url),
                audio_ws_url: if kind.has_audio() {
                    Some(trimmed(audio_ws_url))
                } else {
                    None
                },
            },
        )
    }
}

/// What an optional plan or its refusal holds.
pub open spec fn plan_view(r: Result<RelayPlan, StartError>) -> Result<Plan, StartError> {
    match r {
        Ok(plan) => Ok(plan@),
        Err(e) => Err(e),
    }
}

/// Checks the addresses that a relay was asked to connect to. The audio
/// address is looked at only where the relay takes in audio.
pub fn plan_relay(kind: RelayKind, video_ws_url: &str, audio_ws_url: &str) -> (r: Result<
    RelayPlan,
    StartError,
>)
    ensures
        plan_view(r) == planned(kind, video_ws_url@, audio_ws_url@),
{
    let video: &str = trim(video_ws_url);
    if video.unicode_len() == 0 {
        return Err(StartError::VideoUrlEmpty);
    }
    let with_audio: bool = match kind {
        RelayKind::AvTs => true,
        _ => false,
    };
    if with_audio {
        let audio: &str = trim(audio_ws_url);
        if audio.unicode_len() == 0 {
            return Err(StartError::AudioUrlEmpty);
        }
        Ok(
            RelayPlan {
                kind,
                video_ws_url: String::from_str(video),
                audio_ws_url: Some(String::from_str(audio)),
            },
        )
    } else {
        Ok(RelayPlan { kind, video_ws_url: String::from_str(video), audio_ws_url: None })
    }
}

/// Refuses a relay through a named pipe where the system has none.
pub fn check_pipe_support(supported: bool) -> (r: Result<(), StartError>)
    ensures
        r == (if supported {
            Ok::<(), StartError>(())
        } else {
            Err::<(), StartError>(StartError::PipeUnsupported)
        }),
{
    if supported {
        Ok(())
    } else {
        Err(StartError::PipeUnsupported)
    }
}

/// A running relay: the signal that stops it, the tasks that it runs in, and
/// the address that it is published under.
pub struct RelaySession<S, H> {
    pub shutdown: S,
    pub tasks: Vec<H>,
    pub address: String,
}

/// Owner of the one relay session that may run at a time.
pub struct RelayManager<S, H> {
    session: Option<RelaySession<S, H>>,
}

impl<S, H> RelayManager<S, H> {
    /// The session that runs, if any.
    pub closed spec fn active(&self) -> Option<RelaySession<S, H>> {
        self.session
    }

    /// A manager without a session.
    pub fn new() -> (manager: Self)
        ensures
            manager.active() is None,
    {
        Self { session: None }
    }

    /// The address that the running session is published under.
    pub fn current_url(&self) -> (url: Option<String>)
        ensures
            url == match self.active() {
                Some(session) => Some(session.address),
                None => None::<String>,
            },
    {
        match &self.session {
            Some(session) => Some(session.address.clone()),
            None => None,
        }
    }

    /// Lets go of the running session, whether there is one or not, and
    /// hands it to the caller, who raises its signal and joins every one of
    /// its tasks before anything new is bound.
    pub fn stop(&mut self) -> (ended: Option<RelaySession<S, H>>)
        ensures
            ended == old(self).active(),
            final(self).active() is None,
    {
        self.session.take()
    }

    /// Takes note of the session that was started. Whatever session was
    /// noted before is handed back, to be stopped by the caller.
    pub fn set_running(&mut self, shutdown: S, tasks: Vec<H>, address: String) -> (displaced: Option<
        RelaySession<S, H>,
    >)
        ensures
            displaced == old(self).active(),
            final(self).active() == Some(RelaySession { shutdown, tasks, address }),
    {
        let displaced: Option<RelaySession<S, H>> = self.session.take();
        self.session = Some(RelaySession { shutdown, tasks, address });
        displaced
    }
}

} // verus!
