//! The peer connection: what it is set up with, what its state changes mean, and
//! the packets on its tracks and data channels.

use bytes::Bytes;
use vstd::prelude::*;

use super::client::{InputChannel, SignalingEvent};
use crate::text::{chars_of, contains};
use crate::wire::{push_be_u64, u16_from_le};

verus! {

use super::client::StreamEvent;
use crate::byte_buffer::content;
use crate::text::contains_text;
use crate::wire::{be_bytes, be_bytes_injective, lemma_be_bytes_len, lemma_byte_spans};

/// The first word of a handshake in the newer format.
pub const HANDSHAKE_WORD: u16 = 526;

/// The last protocol version whose packets travel without a wrapper.
pub const LAST_PLAIN_VERSION: u16 = 2;

/// The first byte of a wrapped packet.
pub const WRAPPER_MARK: u8 = 0x23;

/// Marks what follows in a wrapped packet as a single event.
pub const SINGLE_EVENT_MARK: u8 = 0x22;

/// A codec that the client offers to receive.
#[derive(Debug)]
pub struct Codec {
    pub mime_type: &'static str,
    pub clock_rate: u32,
    pub channels: u16,
    pub sdp_fmtp_line: &'static str,
    pub payload_type: u8,
}

/// How the client's peer connection finds the server.
#[derive(Debug)]
pub struct IceSettings {
    pub stun_server: &'static str,
    pub candidate_pool_size: u8,
}

/// How the input channel carries its messages.
#[derive(Debug)]
pub struct InputChannelSettings {
    pub label: &'static str,
    pub ordered: bool,
    pub max_retransmits: u16,
}

/// H.264 video.
pub fn video_codec() -> (codec: Codec)
    ensures
        codec.mime_type@ == "video/H264"@,
        codec.clock_rate == 90000,
        codec.channels == 0,
        codec.sdp_fmtp_line@
            == "level-asymmetry-allowed=1;packetization-mode=1;profile-level-id=42e01f"@,
        codec.payload_type == 96,
{
    Codec {
        mime_type: "video/H264",
        clock_rate: 90000,
        channels: 0,
        sdp_fmtp_line: "level-asymmetry-allowed=1;packetization-mode=1;profile-level-id=42e01f",
        payload_type: 96,
    }
}

/// Opus audio.
pub fn audio_codec() -> (codec: Codec)
    ensures
        codec.mime_type@ == "audio/opus"@,
        codec.clock_rate == 48000,
        codec.channels == 2,
        codec.sdp_fmtp_line@ == "minptime=10;useinbandfec=1"@,
        codec.payload_type == 111,
{
    Codec {
        mime_type: "audio/opus",
        clock_rate: 48000,
        channels: 2,
        sdp_fmtp_line: "minptime=10;useinbandfec=1",
        payload_type: 111,
    }
}

/// The STUN server and the number of candidates that are kept ready.
pub fn ice_settings() -> (settings: IceSettings)
    ensures
        settings.stun_server@ == "stun:turn.gamestream.nvidia.com:19302"@,
        settings.candidate_pool_size == 2,
{
    IceSettings {
        stun_server: "stun:turn.gamestream.nvidia.com:19302",
        candidate_pool_size: 2,
    }
}

/// Input goes out unordered and is never sent again: the next packet is newer.
pub fn input_channel_settings() -> (settings: InputChannelSettings)
    ensures
        settings.label@ == "input_channel_v1"@,
        !settings.ordered,
        settings.max_retransmits == 0,
{
    InputChannelSettings { label: "input_channel_v1", ordered: false, max_retransmits: 0 }
}

/// The states of a peer connection, as far as they are told on.
#[derive(Debug, Clone, Copy, PartialEq, Eq, Structural)]
pub enum PeerState {
    Connected,
    Disconnected,
    Failed,
    Other,
}

/// The event that a new state of the peer connection gives rise to.
pub fn on_peer_state(state: PeerState) -> (event: Option<SignalingEvent>)
    ensures
        match state {
            PeerState::Connected => event matches Some(e) && e@ == StreamEvent::Connected,
            PeerState::Disconnected => event matches Some(e) && e@ == StreamEvent::Disconnected(
                "Peer disconnected"@,
            ),
            PeerState::Failed => event matches Some(e) && e@ == StreamEvent::Error(
                "Connection failed"@,
            ),
            PeerState::Other => event is None,
        },
{
    match state {
        PeerState::Connected => Some(SignalingEvent::Connected),
        PeerState::Disconnected => Some(
            SignalingEvent::Disconnected("Peer disconnected".to_string()),
        ),
        PeerState::Failed => Some(SignalingEvent::Error("Connection failed".to_string())),
        PeerState::Other => None,
    }
}

/// The event that a packet on a track gives rise to. Empty packets give none, and
/// what is not a video track is an audio track.
pub open spec fn track_event(kind: Seq<char>, payload: Seq<u8>) -> Option<StreamEvent> {
    if payload.len() == 0 {
        None
    } else if kind == "video"@ {
        Some(StreamEvent::VideoPacket(payload))
    } else {
        Some(StreamEvent::AudioPacket(payload))
    }
}

/// The event that a packet on a track gives rise to.
pub fn on_track_packet(kind: &str, payload: Bytes) -> (event: Option<SignalingEvent>)
    ensures
        match event {
            Some(event) => track_event(kind@, content(payload)) == Some(event@),
            None => track_event(kind@, content(payload)) is None,
        },
{
    if payload.is_empty() {
        return None;
    }
    let kind: String = kind.to_string();
    let video: String = "video".to_string();
    if kind == video {
        Some(SignalingEvent::VideoPacket(payload))
    } else {
        Some(SignalingEvent::AudioPacket(payload))
    }
}

/// Whether a channel of the server is one for input.
pub fn is_input_label(label: &str) -> (is: bool)
    ensures
        is == (contains_text(label@, "input"@) || contains_text(label@, "ri_"@)),
{
    let label = chars_of(label);
    contains(&label, &chars_of("input")) || contains(&label, &chars_of("ri_"))
}

/// The little-endian word at a position.
pub open spec fn word_at(data: Seq<u8>, at: int) -> nat {
    (data[at + 1] * 256 + data[at]) as nat
}

/// Whether a message on the input channel is the server's handshake: it begins with
/// the handshake word, or it has four bytes.
pub open spec fn is_handshake(data: Seq<u8>) -> bool {
    data.len() >= 2 && (word_at(data, 0) == HANDSHAKE_WORD || data.len() == 4)
}

/// The protocol version that a handshake names: its second word, or its only one.
pub open spec fn handshake_version(data: Seq<u8>) -> nat {
    if data.len() >= 4 {
        word_at(data, 2)
    } else {
        word_at(data, 0)
    }
}

/// The protocol version that a message names, if it is a handshake.
pub fn read_handshake(data: &[u8]) -> (version: Option<u16>)
    ensures
        match version {
            Some(version) => is_handshake(data@) && version == handshake_version(data@),
            None => !is_handshake(data@),
        },
{
    if data.len() < 2 {
        return None;
    }
    let first: u16 = u16_from_le(data[0], data[1]);
    if first != HANDSHAKE_WORD && data.len() != 4 {
        return None;
    }
    if data.len() >= 4 {
        Some(u16_from_le(data[2], data[3]))
    } else {
        Some(first)
    }
}

/// The event that a message on a channel of the server gives rise to.
pub fn on_server_message(data: &[u8]) -> (event: Option<SignalingEvent>)
    ensures
        match event {
            Some(event) => is_handshake(data@) && event@ == StreamEvent::InputReady,
            None => !is_handshake(data@),
        },
{
    match read_handshake(data) {
        Some(_) => Some(SignalingEvent::InputReady),
        None => None,
    }
}

/// An input packet as it goes out under a protocol version: from the third version
/// on behind a mark, the time since the stream began, and a second mark.
pub open spec fn wrapped(version: u16, timestamp_us: u64, data: Seq<u8>) -> Seq<u8> {
    if version > LAST_PLAIN_VERSION {
        seq![WRAPPER_MARK] + be_bytes(timestamp_us as nat, 8) + seq![SINGLE_EVENT_MARK] + data
    } else {
        data
    }
}

/// An input packet as it goes out under a protocol version.
pub fn wrap_input(version: u16, timestamp_us: u64, data: &[u8]) -> (packet: Bytes)
    ensures
        content(packet) == wrapped(version, timestamp_us, data@),
{
    if version > LAST_PLAIN_VERSION {
        let mut packet: Vec<u8> = Vec::new();
        packet.push(WRAPPER_MARK);
        push_be_u64(&mut packet, timestamp_us);
        packet.push(SINGLE_EVENT_MARK);
        packet.extend_from_slice(data);
        assert(packet@ =~= wrapped(version, timestamp_us, data@));
        Bytes::copy_from_slice(packet.as_slice())
    } else {
        Bytes::copy_from_slice(data)
    }
}

impl InputChannel {
    /// How long the stream has been running, in microseconds.
    pub open spec fn elapsed_us(&self, now_us: u64) -> u64 {
        match self.stream_start_us {
            Some(start) if start <= now_us => (now_us - start) as u64,
            _ => 0,
        }
    }

    /// The packet that input data goes out in now, where the channel is open.
    pub open spec fn outgoing(&self, open: bool, now_us: u64, data: Seq<u8>) -> Option<Seq<u8>> {
        if self.stored && open {
            Some(wrapped(self.protocol_version, self.elapsed_us(now_us), data))
        } else {
            None
        }
    }

    /// The client's channel has opened.
    pub fn on_open(&mut self)
        ensures
            *final(self) == (InputChannel { stored: true, ..*old(self) }),
    {
        self.stored = true;
    }

    /// A message has come in on the client's channel. A handshake settles the
    /// protocol version and begins the stream's time, goes back as it came, and is
    /// told on: input can be sent from now on.
    pub fn on_message(&mut self, data: &[u8], now_us: u64) -> (response: Option<
        (Bytes, SignalingEvent),
    >)
        ensures
            match response {
                Some((echo, event)) => {
                    &&& is_handshake(data@)
                    &&& content(echo) == data@
                    &&& event@ == StreamEvent::InputReady
                    &&& *final(self) == (InputChannel {
                        protocol_version: handshake_version(data@) as u16,
                        stream_start_us: Some(now_us),
                        ..*old(self)
                    })
                },
                None => !is_handshake(data@) && *final(self) == *old(self),
            },
    {
        match read_handshake(data) {
            Some(version) => {
                self.protocol_version = version;
                self.stream_start_us = Some(now_us);
                Some((Bytes::copy_from_slice(data), SignalingEvent::InputReady))
            },
            None => None,
        }
    }

    /// The packet that input data goes out in, where the channel is open.
    pub fn packet(&self, open: bool, now_us: u64, data: &[u8]) -> (packet: Option<Bytes>)
        ensures
            match packet {
                Some(packet) => self.outgoing(open, now_us, data@) == Some(content(packet)),
                None => self.outgoing(open, now_us, data@) is None,
            },
    {
        if !self.stored || !open {
            return None;
        }
        let timestamp_us: u64 = match self.stream_start_us {
            Some(start) => now_us.saturating_sub(start),
            None => 0,
        };
        Some(wrap_input(self.protocol_version, timestamp_us, data))
    }
}

/// A wrapper adds ten bytes in front, whatever it wraps, and the packet itself
/// follows them unchanged.
pub proof fn wrapper_precedes_the_packet(version: u16, timestamp_us: u64, data: Seq<u8>)
    requires
        version > LAST_PLAIN_VERSION,
    ensures
        wrapped(version, timestamp_us, data).len() == 10 + data.len(),
        wrapped(version, timestamp_us, data).skip(10) == data,
{
    lemma_be_bytes_len(timestamp_us as nat, 8);
    assert(wrapped(version, timestamp_us, data).skip(10) =~= data);
}

/// Under one protocol version, packets that look the same on the wire carry the
/// same data, and from the third version on also the same time.
pub proof fn wrapping_is_injective(version: u16, t1: u64, d1: Seq<u8>, t2: u64, d2: Seq<u8>)
    requires
        wrapped(version, t1, d1) == wrapped(version, t2, d2),
    ensures
        d1 == d2,
        version > LAST_PLAIN_VERSION ==> t1 == t2,
{
    if version > LAST_PLAIN_VERSION {
        wrapper_precedes_the_packet(version, t1, d1);
        wrapper_precedes_the_packet(version, t2, d2);
        lemma_be_bytes_len(t1 as nat, 8);
        lemma_be_bytes_len(t2 as nat, 8);
        lemma_byte_spans();
        assert(be_bytes(t1 as nat, 8) =~= wrapped(version, t1, d1).subrange(1, 9));
        assert(be_bytes(t2 as nat, 8) =~= wrapped(version, t2, d2).subrange(1, 9));
        be_bytes_injective(t1 as nat, t2 as nat, 8);
    }
}

/// After a handshake, input is wrapped exactly if the handshake named a version
/// above the second.
pub proof fn handshake_decides_the_wrapper(
    before: InputChannel,
    handshake: Seq<u8>,
    started_us: u64,
    now_us: u64,
    data: Seq<u8>,
)
    requires
        before.stored,
        is_handshake(handshake),
        started_us <= now_us,
    ensures
        ({
            let after = InputChannel {
                protocol_version: handshake_version(handshake) as u16,
                stream_start_us: Some(started_us),
                ..before
            };
            let time = (now_us - started_us) as u64;
            after.outgoing(true, now_us, data) == Some(
                if handshake_version(handshake) > LAST_PLAIN_VERSION {
                    seq![WRAPPER_MARK] + be_bytes(time as nat, 8) + seq![SINGLE_EVENT_MARK] + data
                } else {
                    data
                },
            )
        }),
{
    assert(handshake_version(handshake) <= u16::MAX);
}

/// Up to the second protocol version a packet goes out as it is. From the third on it
/// stands behind ten bytes: a mark, the time in eight bytes, and a mark for a single
/// event.
pub proof fn later_versions_wrap_their_packets(version: u16, timestamp_us: u64, data: Seq<u8>)
    ensures
        version <= 2 ==> wrapped(version, timestamp_us, data) == data,
        version >= 3 ==> {
            let packet = wrapped(version, timestamp_us, data);
            &&& packet.len() == data.len() + 10
            &&& packet[0] == 0x23
            &&& packet.subrange(1, 9) == be_bytes(timestamp_us as nat, 8)
            &&& packet[9] == 0x22
            &&& packet.skip(10) == data
        },
{
    if version >= 3 {
        let packet = wrapped(version, timestamp_us, data);
        lemma_be_bytes_len(timestamp_us as nat, 8);
        assert(packet.subrange(1, 9) =~= be_bytes(timestamp_us as nat, 8));
        assert(packet.skip(10) =~= data);
    }
}

/// A handshake begins with the bytes 14 and 2, or is four bytes long, and every message
/// of that kind is one. The version is in its third and fourth byte, low byte first, or
/// in its first two where it has no fourth.
pub proof fn handshakes_are_known_by_their_bytes(data: Seq<u8>)
    ensures
        data.len() == 4 ==> is_handshake(data),
        data.len() >= 2 && data[0] == 14 && data[1] == 2 ==> is_handshake(data),
        is_handshake(data) ==> data.len() == 4 || (data.len() >= 2 && data[0] == 14 && data[1]
            == 2),
        data.len() >= 4 ==> handshake_version(data) % 256 == data[2] && handshake_version(data)
            / 256 == data[3],
        2 <= data.len() < 4 ==> handshake_version(data) % 256 == data[0] && handshake_version(data)
            / 256 == data[1],
{
}

/// Input goes out exactly if the channel is stored and open, under the channel's version
/// and with the time since the stream began, which is zero before that.
pub proof fn input_carries_the_time_of_the_stream(
    channel: InputChannel,
    open: bool,
    now_us: u64,
    data: Seq<u8>,
    time: u64,
)
    requires
        match channel.stream_start_us {
            Some(start) => if start <= now_us {
                start + time == now_us
            } else {
                time == 0
            },
            None => time == 0,
        },
    ensures
        channel.stored && open ==> channel.outgoing(open, now_us, data) == Some(
            wrapped(channel.protocol_version, time, data),
        ),
        !channel.stored || !open ==> channel.outgoing(open, now_us, data) is None,
{
}

/// A packet on a track is told on as it is, as video from a video track and as audio from
/// any other, unless it is empty.
pub proof fn packets_are_told_by_their_track(kind: Seq<char>, payload: Seq<u8>)
    ensures
        payload.len() == 0 <==> track_event(kind, payload) is None,
        payload.len() > 0 && kind == "video"@ ==> track_event(kind, payload) == Some(
            StreamEvent::VideoPacket(payload),
        ),
        payload.len() > 0 && kind != "video"@ ==> track_event(kind, payload) == Some(
            StreamEvent::AudioPacket(payload),
        ),
{
}

} // verus!
