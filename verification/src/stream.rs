//! The state that the window and the network share, and what each event of the
//! stream does to it.

use bytes::Bytes;
use vstd::prelude::*;

use crate::byte_buffer::packet_slice;
use crate::decoder::DecodedFrame;
use crate::signaling::client::SignalingEvent;
use crate::signaling::messages::dimensions_of;
use crate::stats::StreamStats;

verus! {

use crate::byte_buffer::content;
use crate::signaling::client::StreamEvent;
use crate::signaling::messages::dimensions;
use crate::text::decimal;

/// While no event comes, the streaming loop looks this often at whether it is to end,
/// in milliseconds.
pub const EXIT_CHECK_MS: u64 = 100;

/// Shared state between the render thread and network tasks
pub struct SharedState {
    /// Current video frame
    pub pending_frame: Option<DecodedFrame>,
    /// Stream statistics
    pub stats: StreamStats,
    /// Connection status
    pub connected: bool,
    /// Input channel ready
    pub input_ready: bool,
    /// Status message for overlay
    pub status: String,
    /// Should exit
    pub should_exit: bool,
}

/// What the streaming loop does.
#[derive(Debug)]
pub enum StreamAction {
    /// Hand the packet to the decoder.
    Decode(Bytes),
    /// Hand the data to the audio player.
    Play(Vec<u8>),
    /// Nothing more than what has been noted.
    GoOn,
    /// An error has been told of.
    Report(String),
    /// Leave the loop.
    Stop,
}

/// What a `StreamAction` asks for.
pub enum Doing {
    Decode(Seq<u8>),
    Play(Seq<u8>),
    GoOn,
    Report(Seq<char>),
    Stop,
}

impl View for StreamAction {
    type V = Doing;

    open spec fn view(&self) -> Doing {
        match self {
            StreamAction::Decode(packet) => Doing::Decode(content(*packet)),
            StreamAction::Play(data) => Doing::Play(data@),
            StreamAction::GoOn => Doing::GoOn,
            StreamAction::Report(reason) => Doing::Report(reason@),
            StreamAction::Stop => Doing::Stop,
        }
    }
}

/// What an event asks for. The end of the events ends the loop, and so does a
/// disconnection; an error does not.
pub open spec fn asked_for(event: Option<StreamEvent>) -> Doing {
    match event {
        Some(StreamEvent::VideoPacket(data)) => Doing::Decode(data),
        Some(StreamEvent::AudioPacket(data)) => Doing::Play(data),
        Some(StreamEvent::InputReady) => Doing::GoOn,
        Some(StreamEvent::Connected) => Doing::GoOn,
        Some(StreamEvent::Disconnected(_)) => Doing::Stop,
        Some(StreamEvent::Error(reason)) => Doing::Report(reason),
        None => Doing::Stop,
    }
}

/// The status after an event.
pub open spec fn status_after(status: Seq<char>, event: Option<StreamEvent>) -> Seq<char> {
    match event {
        Some(StreamEvent::InputReady) => "Streaming"@,
        Some(StreamEvent::Connected) => "Connected, waiting for media..."@,
        Some(StreamEvent::Disconnected(reason)) => "Disconnected: "@ + reason,
        _ => status,
    }
}

/// The resolution after a video packet: the size that was asked for, where none is
/// known yet.
pub open spec fn resolution_after(
    resolution: Seq<char>,
    event: Option<StreamEvent>,
    width: u32,
    height: u32,
) -> Seq<char> {
    if event matches Some(StreamEvent::VideoPacket(_)) && resolution.len() == 0 {
        dimensions(width, height)
    } else {
        resolution
    }
}

pub open spec fn event_of(event: Option<SignalingEvent>) -> Option<StreamEvent> {
    match event {
        Some(event) => Some(event@),
        None => None,
    }
}

impl SharedState {
    /// Whether there is room in the counters for another packet.
    pub open spec fn can_count(&self, event: Option<StreamEvent>) -> bool {
        match event {
            Some(StreamEvent::VideoPacket(data)) => self.stats.video_packets < u64::MAX
                && self.stats.bytes_received + data.len() <= u64::MAX,
            Some(StreamEvent::AudioPacket(_)) => self.stats.audio_packets < u64::MAX,
            _ => true,
        }
    }

    /// The state in which the program begins
    pub fn new() -> (state: Self)
        ensures
            state.is_new(),
    {
        SharedState {
            pending_frame: None,
            stats: StreamStats::new(),
            connected: false,
            input_ready: false,
            status: "Initializing...".to_string(),
            should_exit: false,
        }
    }

    pub open spec fn is_new(&self) -> bool {
        &&& self.pending_frame is None
        &&& self.stats.is_new()
        &&& !self.connected
        &&& !self.input_ready
        &&& self.status@ == "Initializing..."@
        &&& !self.should_exit
    }

    /// The stream is to begin, with a target for the frame rate
    pub fn begin(&mut self, target_fps: u32, now_ns: u64)
        ensures
            *final(self) == (SharedState {
                stats: StreamStats {
                    target_fps,
                    stream_start_ns: Some(now_ns),
                    ..old(self).stats
                },
                ..*old(self)
            }),
    {
        self.stats.target_fps = target_fps;
        self.stats.stream_start_ns = Some(now_ns);
    }

    /// The signaling connection is being made
    pub fn connecting(&mut self)
        ensures
            final(self).status@ == "Connecting to server..."@,
            *final(self) == (SharedState { status: final(self).status, ..*old(self) }),
    {
        self.status = "Connecting to server...".to_string();
    }

    /// The signaling connection has been made
    pub fn waiting(&mut self)
        ensures
            final(self).status@ == "Waiting for stream..."@,
            *final(self) == (SharedState {
                status: final(self).status,
                connected: true,
                ..*old(self)
            }),
    {
        self.status = "Waiting for stream...".to_string();
        self.connected = true;
    }

    /// Take note of an event of the stream, or of the end of all events, and say what
    /// to do
    pub fn on_event(&mut self, event: Option<SignalingEvent>, width: u32, height: u32) -> (action:
        StreamAction)
        requires
            old(self).can_count(event_of(event)),
        ensures
            action@ == asked_for(event_of(event)),
            final(self).status@ == status_after(old(self).status@, event_of(event)),
            final(self).stats.resolution@ == resolution_after(
                old(self).stats.resolution@,
                event_of(event),
                width,
                height,
            ),
            *final(self) == (SharedState {
                status: final(self).status,
                connected: old(self).connected && !(event matches Some(
                    SignalingEvent::Disconnected(_),
                )),
                input_ready: old(self).input_ready || (event matches Some(
                    SignalingEvent::InputReady,
                )),
                stats: StreamStats {
                    resolution: final(self).stats.resolution,
                    video_packets: (old(self).stats.video_packets + match event_of(event) {
                        Some(StreamEvent::VideoPacket(_)) => 1int,
                        _ => 0,
                    }) as u64,
                    bytes_received: (old(self).stats.bytes_received + match event_of(event) {
                        Some(StreamEvent::VideoPacket(data)) => data.len() as int,
                        _ => 0,
                    }) as u64,
                    audio_packets: (old(self).stats.audio_packets + match event_of(event) {
                        Some(StreamEvent::AudioPacket(_)) => 1int,
                        _ => 0,
                    }) as u64,
                    ..old(self).stats
                },
                ..*old(self)
            }),
    {
        match event {
            Some(SignalingEvent::VideoPacket(data)) => {
                self.stats.video_packets += 1;
                self.stats.bytes_received += data.len() as u64;
                let unknown = String::new();
                assert(unknown@ =~= Seq::<char>::empty());
                assert(self.stats.resolution@.len() == 0 ==> self.stats.resolution@ =~= unknown@);
                if self.stats.resolution == unknown {
                    self.stats.resolution = dimensions_of(width, height);
                }
                StreamAction::Decode(data)
            },
            Some(SignalingEvent::AudioPacket(data)) => {
                let mut copy: Vec<u8> = Vec::new();
                copy.extend_from_slice(packet_slice(&data));
                assert(copy@ =~= content(data));
                self.stats.audio_packets += 1;
                StreamAction::Play(copy)
            },
            Some(SignalingEvent::InputReady) => {
                self.input_ready = true;
                self.status = "Streaming".to_string();
                StreamAction::GoOn
            },
            Some(SignalingEvent::Connected) => {
                self.status = "Connected, waiting for media...".to_string();
                StreamAction::GoOn
            },
            Some(SignalingEvent::Disconnected(reason)) => {
                self.connected = false;
                let mut status: String = "Disconnected: ".to_string();
                status.append(reason.as_str());
                self.status = status;
                StreamAction::Stop
            },
            Some(SignalingEvent::Error(reason)) => StreamAction::Report(reason),
            None => StreamAction::Stop,
        }
    }

    /// A frame has been decoded
    pub fn on_frame(&mut self, frame: DecodedFrame)
        requires
            old(self).stats.frames_decoded < u64::MAX,
        ensures
            final(self).status@ == if old(self).stats.frames_decoded == 0 {
                "Streaming"@
            } else {
                old(self).status@
            },
            *final(self) == (SharedState {
                pending_frame: Some(frame),
                status: final(self).status,
                stats: StreamStats {
                    frames_decoded: (old(self).stats.frames_decoded + 1) as u64,
                    ..old(self).stats
                },
                ..*old(self)
            }),
    {
        let number: u64 = self.stats.frames_decoded + 1;
        self.pending_frame = Some(frame);
        self.stats.frames_decoded = number;
        if number == 1 {
            self.status = "Streaming".to_string();
        }
    }

    /// Take the frame that waits to be shown, if any
    pub fn take_frame(&mut self) -> (frame: Option<DecodedFrame>)
        ensures
            frame == old(self).pending_frame,
            *final(self) == (SharedState { pending_frame: None, ..*old(self) }),
    {
        self.pending_frame.take()
    }
}

impl Default for SharedState {
    fn default() -> (state: Self)
        ensures
            state.is_new(),
    {
        SharedState::new()
    }
}

/// Only a disconnection and the end of the events end the stream.
pub proof fn stream_ends(event: Option<StreamEvent>)
    ensures
        asked_for(event) is Stop <==> (event is None || event->0 is Disconnected),
{
}

/// Packets are handed on byte by byte, video to the decoder and audio to the player, and
/// an error is told on with its reason; what only changes the state asks for nothing.
pub proof fn packets_are_handed_on(data: Seq<u8>, reason: Seq<char>)
    ensures
        asked_for(Some(StreamEvent::VideoPacket(data))) == Doing::Decode(data),
        asked_for(Some(StreamEvent::AudioPacket(data))) == Doing::Play(data),
        asked_for(Some(StreamEvent::Error(reason))) == Doing::Report(reason),
        asked_for(Some(StreamEvent::InputReady)) is GoOn,
        asked_for(Some(StreamEvent::Connected)) is GoOn,
{
}

/// The status tells of a connection, of an input channel that is ready and of a
/// disconnection with its reason; nothing else changes it.
pub proof fn status_tells_what_happened(
    status: Seq<char>,
    event: Option<StreamEvent>,
    reason: Seq<char>,
)
    ensures
        status_after(status, Some(StreamEvent::Connected)) == "Connected, waiting for media..."@,
        status_after(status, Some(StreamEvent::InputReady)) == "Streaming"@,
        status_after(status, Some(StreamEvent::Disconnected(reason))) == "Disconnected: "@
            + reason,
        event is None || event->0 is VideoPacket || event->0 is AudioPacket || event->0 is Error
            ==> status_after(status, event) == status,
{
}

/// The first video packet sets the resolution to the size that was asked for, its width
/// and height with an x between them; once it is set it stays, and nothing else sets it.
pub proof fn resolution_is_set_once(
    resolution: Seq<char>,
    event: Option<StreamEvent>,
    data: Seq<u8>,
    width: u32,
    height: u32,
)
    ensures
        resolution_after(
            Seq::empty(),
            Some(StreamEvent::VideoPacket(data)),
            width,
            height,
        ) == decimal(width as nat) + "x"@ + decimal(height as nat),
        resolution.len() > 0 ==> resolution_after(resolution, event, width, height) == resolution,
        !(event matches Some(StreamEvent::VideoPacket(_))) ==> resolution_after(
            resolution,
            event,
            width,
            height,
        ) == resolution,
{
}

/// The program begins without a frame or a connection, and counts nothing yet.
pub proof fn the_program_begins_unconnected(state: SharedState)
    ensures
        state.is_new() <==> state.pending_frame is None && state.stats.is_new() && !state.connected
            && !state.input_ready && !state.should_exit && state.status@ == "Initializing..."@,
{
}

} // verus!
