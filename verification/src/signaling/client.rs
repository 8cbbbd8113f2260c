//! The signaling client: who it connects to, and how its connection goes on.

use bytes::Bytes;
use vstd::prelude::*;

use super::messages::{introduction_message, peer_message, GfnPeerMessage};
use crate::text::push_decimal;

verus! {

use super::messages::{introduction, to_server};
use crate::byte_buffer::content;
use crate::text::{decimal, decimal_round_trip, unsigned_value};

/// Peer numbers are drawn below this bound.
pub const PEER_IDS: u64 = 10_000_000_000;

/// So many events wait for the streaming loop at most.
pub const EVENT_QUEUE_LEN: usize = 8;

/// So much input data waits to be sent at most.
pub const INPUT_QUEUE_LEN: usize = 16;

/// Events from the signaling connection
#[derive(Debug)]
pub enum SignalingEvent {
    /// Video RTP packet received (H.264/H.265)
    VideoPacket(Bytes),
    /// Audio RTP packet received (Opus)
    AudioPacket(Bytes),
    /// Input channel is ready
    InputReady,
    /// Connection established
    Connected,
    /// Connection disconnected
    Disconnected(String),
    /// Error occurred
    Error(String),
}

/// What a `SignalingEvent` says.
pub enum StreamEvent {
    VideoPacket(Seq<u8>),
    AudioPacket(Seq<u8>),
    InputReady,
    Connected,
    Disconnected(Seq<char>),
    Error(Seq<char>),
}

impl View for SignalingEvent {
    type V = StreamEvent;

    open spec fn view(&self) -> StreamEvent {
        match self {
            SignalingEvent::VideoPacket(packet) => StreamEvent::VideoPacket(content(*packet)),
            SignalingEvent::AudioPacket(packet) => StreamEvent::AudioPacket(content(*packet)),
            SignalingEvent::InputReady => StreamEvent::InputReady,
            SignalingEvent::Connected => StreamEvent::Connected,
            SignalingEvent::Disconnected(reason) => StreamEvent::Disconnected(reason@),
            SignalingEvent::Error(reason) => StreamEvent::Error(reason@),
        }
    }
}

/// Signaling client for GFN streaming
#[derive(Debug)]
pub struct SignalingClient {
    pub server: String,
    pub session_id: String,
    pub width: u32,
    pub height: u32,
    pub fps: u32,
    /// Whether input data is accepted, which it is once connecting has begun.
    pub takes_input: bool,
    /// The number of the last message that wants an acknowledgement.
    pub ack_id: u32,
    /// What is known of the input channel.
    pub input: InputChannel,
}

/// The channel for mouse and keyboard events.
#[derive(Debug, Clone, Copy, PartialEq, Eq, Structural)]
pub struct InputChannel {
    /// Whether the channel has been opened and stored.
    pub stored: bool,
    /// Input protocol version from handshake (version > 2 needs packet wrapping)
    pub protocol_version: u16,
    /// When the stream began, in microseconds.
    pub stream_start_us: Option<u64>,
}

/// Where and as whom the client signs in.
#[derive(Debug)]
pub struct SignIn {
    pub peer_name: String,
    pub url: String,
    pub subprotocol: String,
}

/// The name that a random number gives the client.
pub open spec fn peer_name(random: u64) -> Seq<char> {
    "peer-"@ + decimal((random % PEER_IDS) as nat)
}

/// The address for signing in at a server under a name.
pub open spec fn sign_in_url(server: Seq<char>, name: Seq<char>) -> Seq<char> {
    "wss://"@ + server + "/nvst/sign_in?peer_id="@ + name + "&version=2"@
}

/// The subprotocol that proves who the client is.
pub open spec fn session_subprotocol(session_id: Seq<char>) -> Seq<char> {
    "x-nv-sessionid."@ + session_id
}

impl SignIn {
    /// Whether this is how a client signs in after drawing a number.
    pub open spec fn is_for(&self, client: SignalingClient, random: u64) -> bool {
        &&& self.peer_name@ == peer_name(random)
        &&& self.url@ == sign_in_url(client.server@, peer_name(random))
        &&& self.subprotocol@ == session_subprotocol(client.session_id@)
    }
}

/// `rand::random`: a number that nothing is known about beforehand.
#[verifier::external_body]
fn random_number() -> (random: u64)
{
    rand::random::<u64>()
}

impl InputChannel {
    /// An input channel that is not open yet.
    pub fn new() -> (channel: Self)
        ensures
            channel == (InputChannel {
                stored: false,
                protocol_version: 0,
                stream_start_us: None,
            }),
    {
        InputChannel { stored: false, protocol_version: 0, stream_start_us: None }
    }
}

impl SignalingClient {
    /// Whether two clients have the same server, session, and video settings.
    pub open spec fn same_settings(&self, other: &Self) -> bool {
        &&& self.server@ == other.server@
        &&& self.session_id@ == other.session_id@
        &&& self.width == other.width
        &&& self.height == other.height
        &&& self.fps == other.fps
    }

    /// Create a new signaling client
    pub fn new(server: String, session_id: String, width: u32, height: u32, fps: u32) -> (client:
        Self)
        ensures
            client.server@ == server@,
            client.session_id@ == session_id@,
            client.width == width,
            client.height == height,
            client.fps == fps,
            !client.takes_input,
            client.ack_id == 0,
            client.input == (InputChannel {
                stored: false,
                protocol_version: 0,
                stream_start_us: None,
            }),
    {
        Self::new_with_refs(server, session_id, width, height, fps, InputChannel::new())
    }

    /// Create a new signaling client on an input channel that exists already
    pub fn new_with_refs(
        server: String,
        session_id: String,
        width: u32,
        height: u32,
        fps: u32,
        input: InputChannel,
    ) -> (client: Self)
        ensures
            client.server@ == server@,
            client.session_id@ == session_id@,
            client.width == width,
            client.height == height,
            client.fps == fps,
            !client.takes_input,
            client.ack_id == 0,
            client.input == input,
    {
        SignalingClient {
            server,
            session_id,
            width,
            height,
            fps,
            takes_input: false,
            ack_id: 0,
            input,
        }
    }

    /// Begin to connect under a name that is drawn at random
    pub fn connect(&mut self) -> (sign_in: SignIn)
        ensures
            exists|random: u64| sign_in.is_for(*old(self), random),
            final(self).takes_input,
            final(self).same_settings(old(self)),
            final(self).ack_id == old(self).ack_id,
            final(self).input == old(self).input,
    {
        let random: u64 = random_number();
        let sign_in = self.connect_as(random);
        assert(sign_in.is_for(*old(self), random));
        sign_in
    }

    /// Begin to connect under the name that a number gives
    pub fn connect_as(&mut self, random: u64) -> (sign_in: SignIn)
        ensures
            sign_in.is_for(*old(self), random),
            final(self).takes_input,
            final(self).same_settings(old(self)),
            final(self).ack_id == old(self).ack_id,
            final(self).input == old(self).input,
    {
        let mut name: String = "peer-".to_string();
        push_decimal(&mut name, random % PEER_IDS);
        let mut url: String = "wss://".to_string();
        url.append(self.server.as_str());
        url.append("/nvst/sign_in?peer_id=");
        url.append(name.as_str());
        url.append("&version=2");
        let mut subprotocol: String = "x-nv-sessionid.".to_string();
        subprotocol.append(self.session_id.as_str());
        self.takes_input = true;
        SignIn { peer_name: name, url, subprotocol }
    }

    /// Get next ack ID
    pub fn next_ack_id(&mut self) -> (id: u32)
        requires
            old(self).ack_id < u32::MAX,
        ensures
            id == old(self).ack_id + 1,
            final(self).ack_id == id,
            final(self).same_settings(old(self)),
            final(self).takes_input == old(self).takes_input,
            final(self).input == old(self).input,
    {
        self.ack_id += 1;
        self.ack_id
    }

    /// The message that introduces the client once it is connected.
    pub fn introduce(&mut self, name: String) -> (message: GfnPeerMessage)
        requires
            old(self).ack_id < u32::MAX,
        ensures
            message@ == introduction(
                (old(self).ack_id + 1) as u32,
                name@,
                old(self).width,
                old(self).height,
            ),
            final(self).ack_id == old(self).ack_id + 1,
            final(self).same_settings(old(self)),
            final(self).takes_input == old(self).takes_input,
            final(self).input == old(self).input,
    {
        let id: u32 = self.next_ack_id();
        introduction_message(id, name, self.width, self.height)
    }

    /// The message that takes a payload to the server.
    pub fn address(&mut self, payload: String) -> (message: GfnPeerMessage)
        requires
            old(self).ack_id < u32::MAX,
        ensures
            message@ == to_server((old(self).ack_id + 1) as u32, payload@),
            final(self).ack_id == old(self).ack_id + 1,
            final(self).same_settings(old(self)),
            final(self).takes_input == old(self).takes_input,
            final(self).input == old(self).input,
    {
        let id: u32 = self.next_ack_id();
        peer_message(id, payload)
    }

    /// Send input data to the server: the data to queue, if any is taken yet
    pub fn send_input(&self, data: &[u8]) -> (queued: Option<Vec<u8>>)
        ensures
            match queued {
                Some(bytes) => self.takes_input && bytes@ == data@,
                None => !self.takes_input,
            },
    {
        if self.takes_input {
            let mut bytes: Vec<u8> = Vec::new();
            bytes.extend_from_slice(data);
            assert(bytes@ =~= data@);
            Some(bytes)
        } else {
            None
        }
    }
}

/// What comes out of the web socket.
#[derive(Debug)]
pub enum SocketEvent {
    Text(String),
    /// A close frame, with the reason where it gives one.
    Close(Option<String>),
    Ping(Vec<u8>),
    Failed(String),
    Ended,
    Other,
}

/// What the message loop does next.
#[derive(Debug)]
pub enum SocketAction {
    Handle(String),
    Pong(Vec<u8>),
    /// Tell of the event and leave the loop.
    Finish(SignalingEvent),
    Ignore,
}

/// What a `SocketAction` asks for.
pub enum Reaction {
    Handle(Seq<char>),
    Pong(Seq<u8>),
    Finish(StreamEvent),
    Ignore,
}

impl View for SocketAction {
    type V = Reaction;

    open spec fn view(&self) -> Reaction {
        match self {
            SocketAction::Handle(text) => Reaction::Handle(text@),
            SocketAction::Pong(data) => Reaction::Pong(data@),
            SocketAction::Finish(event) => Reaction::Finish(event@),
            SocketAction::Ignore => Reaction::Ignore,
        }
    }
}

/// What the message loop does with what comes out of the web socket.
pub fn on_socket_event(event: SocketEvent) -> (action: SocketAction)
    ensures
        action@ == match event {
            SocketEvent::Text(text) => Reaction::Handle(text@),
            SocketEvent::Close(Some(reason)) => Reaction::Finish(
                StreamEvent::Disconnected(reason@),
            ),
            SocketEvent::Close(None) => Reaction::Finish(StreamEvent::Disconnected("Unknown"@)),
            SocketEvent::Ping(data) => Reaction::Pong(data@),
            SocketEvent::Failed(reason) => Reaction::Finish(StreamEvent::Error(reason@)),
            SocketEvent::Ended => Reaction::Finish(
                StreamEvent::Disconnected("Connection closed"@),
            ),
            SocketEvent::Other => Reaction::Ignore,
        },
{
    match event {
        SocketEvent::Text(text) => SocketAction::Handle(text),
        SocketEvent::Close(Some(reason)) => SocketAction::Finish(
            SignalingEvent::Disconnected(reason),
        ),
        SocketEvent::Close(None) => SocketAction::Finish(
            SignalingEvent::Disconnected("Unknown".to_string()),
        ),
        SocketEvent::Ping(data) => SocketAction::Pong(data),
        SocketEvent::Failed(reason) => SocketAction::Finish(SignalingEvent::Error(reason)),
        SocketEvent::Ended => SocketAction::Finish(
            SignalingEvent::Disconnected("Connection closed".to_string()),
        ),
        SocketEvent::Other => SocketAction::Ignore,
    }
}

/// A client's name ends in the random number modulo ten thousand million, which can be
/// read back.
pub proof fn names_hold_the_number(random: u64)
    ensures
        peer_name(random).take(5) == "peer-"@,
        unsigned_value(peer_name(random).skip(5)) == Some((random % 10_000_000_000) as nat),
{
    reveal_strlit("peer-");
    let number = decimal((random % 10_000_000_000) as nat);
    assert(peer_name(random).take(5) =~= "peer-"@);
    assert(peer_name(random).skip(5) =~= number);
    decimal_round_trip((random % 10_000_000_000) as nat);
}

/// The server, the name and the session stand in the addresses as they are, each between
/// its fixed parts.
pub proof fn addresses_hold_what_they_are_made_from(
    server: Seq<char>,
    name: Seq<char>,
    session_id: Seq<char>,
)
    ensures
        ({
            let url = sign_in_url(server, name);
            let behind = server.len() as int + 6;
            let last = behind + name.len() + 22;
            &&& url.take(6) == "wss://"@
            &&& url.subrange(6, behind) == server
            &&& url.subrange(behind, behind + 22) == "/nvst/sign_in?peer_id="@
            &&& url.subrange(behind + 22, last) == name
            &&& url.skip(last) == "&version=2"@
        }),
        session_subprotocol(session_id).take(15) == "x-nv-sessionid."@,
        session_subprotocol(session_id).skip(15) == session_id,
{
    reveal_strlit("wss://");
    reveal_strlit("/nvst/sign_in?peer_id=");
    reveal_strlit("&version=2");
    reveal_strlit("x-nv-sessionid.");
    let url = sign_in_url(server, name);
    let behind = server.len() as int + 6;
    let last = behind + name.len() + 22;
    assert(url.take(6) =~= "wss://"@);
    assert(url.subrange(6, behind) =~= server);
    assert(url.subrange(behind, behind + 22) =~= "/nvst/sign_in?peer_id="@);
    assert(url.subrange(behind + 22, last) =~= name);
    assert(url.skip(last) =~= "&version=2"@);
    assert(session_subprotocol(session_id).take(15) =~= "x-nv-sessionid."@);
    assert(session_subprotocol(session_id).skip(15) =~= session_id);
}

/// A client signs in at its own server, for its own session, under the name that the
/// number gives.
pub proof fn clients_sign_in_as_themselves(sign_in: SignIn, client: SignalingClient, random: u64)
    requires
        sign_in.is_for(client, random),
    ensures
        sign_in.peer_name@ == peer_name(random),
        sign_in.url@ == sign_in_url(client.server@, sign_in.peer_name@),
        sign_in.subprotocol@ == session_subprotocol(client.session_id@),
{
}

/// Clients with the same settings differ in nothing but what changes as they run.
pub proof fn settings_are_all_that_does_not_change(a: SignalingClient, b: SignalingClient)
    ensures
        a.same_settings(&b) <==> a.server@ == b.server@ && a.session_id@ == b.session_id@ && a.width
            == b.width && a.height == b.height && a.fps == b.fps,
{
}

} // verus!
