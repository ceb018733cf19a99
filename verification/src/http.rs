//! The HTTP side of a relay: one listener, and per client one request
//! followed by an endless body of transport packets.

use vstd::prelude::*;
use vstd::string::*;
use crate::octets::append;
use crate::text::{ascii_bytes, ascii_to_vec, decimal, push_decimal};

verus! {

/// Milliseconds that a client has to send its request.
pub const REQUEST_TIMEOUT_MS: u64 = 3000;

/// Bytes of a request that are read.
pub const REQUEST_BUFFER_LEN: usize = 4096;

/// The address under which a relay that listens on `port` is published.
pub open spec fn relay_address(port: u16) -> Seq<char> {
    "http://127.0.0.1:"@ + decimal(port as nat) + "/live.ts"@
}

/// Builds the address under which a relay that listens on `port` is published.
pub fn relay_url(port: u16) -> (url: String)
    ensures
        url@ == relay_address(port),
{
    let mut url: String = String::from_str("http://127.0.0.1:");
    push_decimal(&mut url, port as u64);
    url.append("/live.ts");
    url
}

/// How a request begins that asks for the stream.
pub open spec fn stream_request() -> Seq<u8> {
    ascii_bytes("GET /live.ts"@)
}

/// The answer to a request for anything but the stream.
pub open spec fn not_found_response() -> Seq<u8> {
    ascii_bytes("HTTP/1.1 404 Not Found\r\nContent-Length: 0\r\nConnection: close\r\n\r\n"@)
}

/// The head of the answer to a request for the stream.
pub open spec fn stream_response_head() -> Seq<u8> {
    ascii_bytes(
        "HTTP/1.1 200 OK\r\nContent-Type: video/mp2t\r\nCache-Control: no-store\r\nAccess-Control-Allow-Origin: *\r\nConnection: keep-alive\r\n\r\n"@,
    )
}

/// What a request asks for.
#[derive(Clone, Copy, Debug, PartialEq, Eq, Structural)]
pub enum HttpRoute {
    /// The stream.
    Stream,
    /// Anything else.
    NotFound,
}

/// What a request asks for: the stream where it begins with `GET /live.ts`.
pub open spec fn route_of(request: Seq<u8>) -> HttpRoute {
    if stream_request().is_prefix_of(request) {
        HttpRoute::Stream
    } else {
        HttpRoute::NotFound
    }
}

/// Tests whether `data` begins with `prefix`.
pub fn starts_with(data: &[u8], prefix: &[u8]) -> (yes: bool)
    ensures
        yes == prefix@.is_prefix_of(data@),
{
    if prefix.len() > data.len() {
        return false;
    }
    let mut i: usize = 0;
    while i < prefix.len()
        invariant
            i <= prefix@.len() <= data@.len(),
            forall|k: int| 0 <= k < i ==> prefix@[k] == data@[k],
        decreases prefix@.len() - i,
    {
        if data[i] != prefix[i] {
            proof {
                if prefix@.is_prefix_of(data@) {
                    assert(data@.subrange(0, prefix@.len() as int)[i as int] == prefix@[i as int]);
                }
            }
            return false;
        }
        i += 1;
    }
    assert(prefix@ =~= data@.subrange(0, prefix@.len() as int));
    true
}

/// Decides what a request asks for.
pub fn route_request(request: &[u8]) -> (route: HttpRoute)
    ensures
        route == route_of(request@),
{
    proof {
        reveal_strlit("GET /live.ts");
    }
    let wanted: Vec<u8> = ascii_to_vec("GET /live.ts");
    if starts_with(request, wanted.as_slice()) {
        HttpRoute::Stream
    } else {
        HttpRoute::NotFound
    }
}

/// Where a client stands.
#[derive(Clone, Copy, Debug, PartialEq, Eq, Structural)]
pub enum ClientPhase {
    /// The request has not arrived.
    AwaitingRequest,
    /// The head is sent and packets follow as they come.
    Streaming,
    /// The connection is done with.
    Closed,
}

/// What happened on a client's connection or on the broadcast it listens to.
pub enum ClientEvent {
    /// The bytes of the request, none if the client closed without sending.
    Request(Vec<u8>),
    /// No request came in time, or reading failed.
    RequestFailed,
    /// The next chunk of the broadcast.
    Chunk(Vec<u8>),
    /// The client fell behind and chunks were lost.
    Lagged,
    /// The broadcast is over.
    ChannelClosed,
    /// Writing to the client failed.
    WriteFailed,
    /// The shutdown signal was raised.
    Shutdown,
    /// The shutdown signal changed without being raised.
    Woken,
}

/// What to do for a client next.
pub enum ClientAction {
    /// Write these bytes, then wait for the next event.
    Send(Vec<u8>),
    /// Write these bytes, then close the connection.
    SendAndClose(Vec<u8>),
    /// Wait for the next event.
    Wait,
    /// Close the connection.
    Close,
}

/// What an event holds.
pub enum Event {
    Request(Seq<u8>),
    RequestFailed,
    Chunk(Seq<u8>),
    Lagged,
    ChannelClosed,
    WriteFailed,
    Shutdown,
    Woken,
}

impl View for ClientEvent {
    type V = Event;

    open spec fn view(&self) -> Event {
        match self {
            ClientEvent::Request(bytes) => Event::Request(bytes@),
            ClientEvent::RequestFailed => Event::RequestFailed,
            ClientEvent::Chunk(bytes) => Event::Chunk(bytes@),
            ClientEvent::Lagged => Event::Lagged,
            ClientEvent::ChannelClosed => Event::ChannelClosed,
            ClientEvent::WriteFailed => Event::WriteFailed,
            ClientEvent::Shutdown => Event::Shutdown,
            ClientEvent::Woken => Event::Woken,
        }
    }
}

/// What an action holds.
pub enum Action {
    Send(Seq<u8>),
    SendAndClose(Seq<u8>),
    Wait,
    Close,
}

impl View for ClientAction {
    type V = Action;

    open spec fn view(&self) -> Action {
        match self {
            ClientAction::Send(bytes) => Action::Send(bytes@),
            ClientAction::SendAndClose(bytes) => Action::SendAndClose(bytes@),
            ClientAction::Wait => Action::Wait,
            ClientAction::Close => Action::Close,
        }
    }
}

/// What the service of one client remembers.
pub struct ClientState {
    pub phase: ClientPhase,
    /// The tables that every client receives first.
    pub bootstrap: Seq<u8>,
}

impl ClientState {
    /// The state of a client that has just connected.
    pub open spec fn initial(bootstrap: Seq<u8>) -> ClientState {
        ClientState { phase: ClientPhase::AwaitingRequest, bootstrap }
    }

    /// What is done on an event. The request is answered once: with
    /// nothing if it is empty, with 404 unless it asks for the stream, else
    /// with the head and the tables at once. From then on every chunk is
    /// passed on as it is; lost chunks are passed over; the end of the
    /// broadcast, a failed write and shutdown close the connection.
    pub open spec fn action(self, event: Event) -> Action {
        match (self.phase, event) {
            (ClientPhase::AwaitingRequest, Event::Request(request)) => {
                if request.len() == 0 {
                    Action::Close
                } else if route_of(request) == HttpRoute::Stream {
                    Action::Send(stream_response_head() + self.bootstrap)
                } else {
                    Action::SendAndClose(not_found_response())
                }
            },
            (ClientPhase::Streaming, Event::Chunk(chunk)) => Action::Send(chunk),
            (ClientPhase::Streaming, Event::Lagged) => Action::Wait,
            (ClientPhase::Streaming, Event::Woken) => Action::Wait,
            _ => Action::Close,
        }
    }

    /// The phase after an event.
    pub open spec fn next(self, event: Event) -> ClientState {
        ClientState {
            phase: match self.action(event) {
                Action::Send(_) => ClientPhase::Streaming,
                Action::Wait => ClientPhase::Streaming,
                _ => ClientPhase::Closed,
            },
            bootstrap: self.bootstrap,
        }
    }
}

/// The service of one client.
pub struct HttpClient {
    phase: ClientPhase,
    bootstrap: Vec<u8>,
}

impl View for HttpClient {
    type V = ClientState;

    closed spec fn view(&self) -> ClientState {
        ClientState { phase: self.phase, bootstrap: self.bootstrap@ }
    }
}

impl HttpClient {
    /// The service of a client that has just connected.
    pub fn new(bootstrap: Vec<u8>) -> (client: Self)
        ensures
            client@ == ClientState::initial(bootstrap@),
    {
        Self { phase: ClientPhase::AwaitingRequest, bootstrap }
    }

    /// The phase that the client is in.
    pub fn phase(&self) -> (phase: ClientPhase)
        ensures
            phase == self@.phase,
    {
        self.phase
    }

    /// Takes an event and says what to do next.
    pub fn step(&mut self, event: ClientEvent) -> (action: ClientAction)
        ensures
            action@ == old(self)@.action(event@),
            final(self)@ == old(self)@.next(event@),
    {
        match (self.phase, event) {
            (ClientPhase::AwaitingRequest, ClientEvent::Request(request)) => {
                if request.len() == 0 {
                    self.phase = ClientPhase::Closed;
                    return ClientAction::Close;
                }
                match route_request(request.as_slice()) {
                    HttpRoute::Stream => {
                        proof {
                            reveal_strlit(
                                "HTTP/1.1 200 OK\r\nContent-Type: video/mp2t\r\nCache-Control: no-store\r\nAccess-Control-Allow-Origin: *\r\nConnection: keep-alive\r\n\r\n",
                            );
                        }
                        let mut reply: Vec<u8> = ascii_to_vec(
                            "HTTP/1.1 200 OK\r\nContent-Type: video/mp2t\r\nCache-Control: no-store\r\nAccess-Control-Allow-Origin: *\r\nConnection: keep-alive\r\n\r\n",
                        );
                        append(&mut reply, self.bootstrap.as_slice());
                        self.phase = ClientPhase::Streaming;
                        ClientAction::Send(reply)
                    },
                    HttpRoute::NotFound => {
                        proof {
                            reveal_strlit(
                                "HTTP/1.1 404 Not Found\r\nContent-Length: 0\r\nConnection: close\r\n\r\n",
                            );
                        }
                        let reply: Vec<u8> = ascii_to_vec(
                            "HTTP/1.1 404 Not Found\r\nContent-Length: 0\r\nConnection: close\r\n\r\n",
                        );
                        self.phase = ClientPhase::Closed;
                        ClientAction::SendAndClose(reply)
                    },
                }
            },
            (ClientPhase::Streaming, ClientEvent::Chunk(chunk)) => ClientAction::Send(chunk),
            (ClientPhase::Streaming, ClientEvent::Lagged) => ClientAction::Wait,
            (ClientPhase::Streaming, ClientEvent::Woken) => ClientAction::Wait,
            _ => {
                self.phase = ClientPhase::Closed;
                ClientAction::Close
            },
        }
    }
}

/// What happened while the listener waited.
#[derive(Clone, Copy, Debug, PartialEq, Eq, Structural)]
pub enum ListenerEvent {
    /// The shutdown signal was raised.
    Shutdown,
    /// The shutdown signal changed without being raised.
    Woken,
    /// A client connected.
    Accepted,
    /// Accepting failed.
    AcceptFailed,
}

/// What the listener does next.
#[derive(Clone, Copy, Debug, PartialEq, Eq, Structural)]
pub enum ListenerAction {
    /// Hand the client, with a subscription of its own to the broadcast, to
    /// a task of its own, then accept the next.
    Serve,
    /// Accept the next client.
    Accept,
    /// Return.
    Stop,
}

/// What the listener does after an event: it serves every client that
/// connects, and stops on shutdown or when accepting fails.
pub open spec fn listener_action(event: ListenerEvent) -> ListenerAction {
    match event {
        ListenerEvent::Accepted => ListenerAction::Serve,
        ListenerEvent::Woken => ListenerAction::Accept,
        ListenerEvent::Shutdown => ListenerAction::Stop,
        ListenerEvent::AcceptFailed => ListenerAction::Stop,
    }
}

/// Decides what the listener does after an event.
pub fn listener_step(event: ListenerEvent) -> (action: ListenerAction)
    ensures
        action == listener_action(event),
{
    match event {
        ListenerEvent::Accepted => ListenerAction::Serve,
        ListenerEvent::Woken => ListenerAction::Accept,
        ListenerEvent::Shutdown => ListenerAction::Stop,
        ListenerEvent::AcceptFailed => ListenerAction::Stop,
    }
}

} // verus!
