use bytes::Bytes;
use gfn_streamer::controls::{
    counts_as_shown, shows_frame, Controls, DirectInputSender, MouseButton, WindowAction,
    WindowEvent,
};
use gfn_streamer::decoder::DecodedFrame;
use gfn_streamer::input::{InputEncoder, InputEvent};
use gfn_streamer::keys::Scancode;
use gfn_streamer::signaling::client::{InputChannel, SignalingEvent};
use gfn_streamer::stats::StreamStats;
use gfn_streamer::stream::{SharedState, StreamAction, EXIT_CHECK_MS};
use std::sync::Arc;

fn down(scancode: Scancode) -> WindowEvent {
    WindowEvent::KeyDown { scancode: Some(scancode), repeat: false }
}

fn captured() -> Controls {
    let mut controls = Controls::new(0);
    let click = WindowEvent::MouseButtonDown { button: MouseButton::Left };
    assert_eq!(controls.handle(click, 0), WindowAction::CaptureMouse);
    controls
}

#[test]
fn clicking_captures_and_escape_releases() {
    let mut controls = captured();
    assert!(controls.mouse_captured);
    assert_eq!(controls.handle(down(Scancode::Escape), 0), WindowAction::ReleaseMouse);
    assert!(!controls.mouse_captured);
    assert_eq!(controls.handle(down(Scancode::Escape), 0), WindowAction::Nothing);
    let mut controls = captured();
    assert_eq!(controls.handle(WindowEvent::FocusLost, 0), WindowAction::ReleaseMouse);
    assert_eq!(controls.handle(WindowEvent::FocusLost, 0), WindowAction::Nothing);
}

#[test]
fn keys_are_sent_while_captured() {
    let mut controls = Controls::new(0);
    assert_eq!(controls.handle(down(Scancode::A), 5), WindowAction::Nothing);
    let mut controls = captured();
    assert_eq!(
        controls.handle(down(Scancode::A), 5),
        WindowAction::Send(InputEvent::KeyDown {
            keycode: 0x41,
            scancode: 0x1e,
            modifiers: 0,
            timestamp_us: 5
        })
    );
    let up = WindowEvent::KeyUp { scancode: Some(Scancode::F3), repeat: false };
    assert_eq!(
        controls.handle(up, 6),
        WindowAction::Send(InputEvent::KeyUp {
            keycode: 0x72,
            scancode: 0x3d,
            modifiers: 0,
            timestamp_us: 6
        })
    );
    assert_eq!(controls.handle(down(Scancode::Other), 5), WindowAction::Nothing);
    let repeated = WindowEvent::KeyDown { scancode: Some(Scancode::A), repeat: true };
    assert_eq!(controls.handle(repeated, 5), WindowAction::Nothing);
    let unnamed = WindowEvent::KeyDown { scancode: None, repeat: false };
    assert_eq!(controls.handle(unnamed, 5), WindowAction::Nothing);
}

#[test]
fn some_keys_are_for_the_window() {
    let mut controls = captured();
    assert_eq!(controls.handle(down(Scancode::F3), 0), WindowAction::ToggleOverlay);
    assert_eq!(controls.handle(down(Scancode::F11), 0), WindowAction::Nothing);
    assert_eq!(Controls::new(0).handle(down(Scancode::F3), 0), WindowAction::ToggleOverlay);
    assert_eq!(controls.handle(WindowEvent::Quit, 0), WindowAction::Quit);
    assert_eq!(controls.handle(WindowEvent::Other, 0), WindowAction::Nothing);
}

#[test]
fn mouse_buttons_are_numbered() {
    let mut controls = captured();
    for (button, number) in [
        (MouseButton::Left, 1),
        (MouseButton::Right, 2),
        (MouseButton::Middle, 3),
        (MouseButton::X1, 4),
        (MouseButton::X2, 5),
    ] {
        assert_eq!(
            controls.handle(WindowEvent::MouseButtonDown { button }, 1),
            WindowAction::Send(InputEvent::MouseButtonDown { button: number, timestamp_us: 1 })
        );
        assert_eq!(
            controls.handle(WindowEvent::MouseButtonUp { button }, 1),
            WindowAction::Send(InputEvent::MouseButtonUp { button: number, timestamp_us: 1 })
        );
    }
    let other = WindowEvent::MouseButtonUp { button: MouseButton::Other };
    assert_eq!(controls.handle(other, 1), WindowAction::Nothing);
    let left = WindowEvent::MouseButtonUp { button: MouseButton::Left };
    assert_eq!(Controls::new(0).handle(left, 1), WindowAction::Nothing);
}

#[test]
fn movements_keep_their_low_bits() {
    let mut controls = captured();
    let motion = |xrel, yrel| WindowEvent::MouseMotion { xrel, yrel };
    for (x, y) in [(3, -4), (40000, -40000), (0, 65536 + 7), (i32::MIN, i32::MAX)] {
        assert_eq!(
            controls.handle(motion(x, y), 2),
            WindowAction::Send(InputEvent::MouseMove {
                dx: x as i16,
                dy: y as i16,
                timestamp_us: 2
            })
        );
    }
    assert_eq!(controls.handle(motion(0, 0), 2), WindowAction::Nothing);
    assert_eq!(Controls::new(0).handle(motion(1, 1), 2), WindowAction::Nothing);
}

#[test]
fn wheel_turns_in_notches() {
    let mut controls = captured();
    for y in [1, -3, 300] {
        assert_eq!(
            controls.handle(WindowEvent::MouseWheel { y }, 2),
            WindowAction::Send(InputEvent::MouseWheel {
                delta_x: 0,
                delta_y: (y * 120) as i16,
                timestamp_us: 2
            })
        );
    }
    assert_eq!(controls.handle(WindowEvent::MouseWheel { y: 0 }, 2), WindowAction::Nothing);
}

#[test]
fn large_wheel_turns_matter_only_while_captured() {
    let mut controls = Controls::new(0);
    let turn = WindowEvent::MouseWheel { y: i32::MAX };
    assert_eq!(controls.handle(turn, 2), WindowAction::Nothing);
}

#[test]
fn small_wheel_turns_are_sent_as_they_are() {
    let mut controls = captured();
    for (y, delta_y) in [(273, 32760), (-273, -32760), (274, -32656)] {
        assert_eq!(
            controls.handle(WindowEvent::MouseWheel { y }, 7),
            WindowAction::Send(InputEvent::MouseWheel { delta_x: 0, delta_y, timestamp_us: 7 })
        );
    }
}

#[test]
fn what_is_sent_can_be_encoded() {
    let mut controls = captured();
    let mut encoder = InputEncoder::new();
    for (event, len) in [
        (down(Scancode::A), 18),
        (WindowEvent::MouseMotion { xrel: -32768, yrel: 5 }, 22),
        (WindowEvent::MouseWheel { y: 273 }, 22),
    ] {
        match controls.handle(event, 3) {
            WindowAction::Send(sent) => assert_eq!(encoder.encode(&sent).len(), len),
            other => panic!("{other:?}"),
        }
    }
}

#[test]
fn frames_need_a_window_with_a_size() {
    assert!(shows_frame(1, 1));
    assert!(!shows_frame(0, 600) && !shows_frame(800, 0) && !shows_frame(0, 0));
}

#[test]
fn uploaded_frames_count() {
    assert!(counts_as_shown(true, true) && counts_as_shown(true, false));
    assert!(!counts_as_shown(false, false) && !counts_as_shown(false, true));
}

#[test]
fn exit_is_looked_for_ten_times_a_second() {
    assert_eq!(EXIT_CHECK_MS * 10, 1000);
}

#[test]
fn resizing_needs_a_size() {
    let mut controls = Controls::new(0);
    let resized = |width, height| WindowEvent::Resized { width, height };
    assert_eq!(
        controls.handle(resized(800, 600), 0),
        WindowAction::Resize { width: 800, height: 600 }
    );
    assert_eq!(controls.handle(resized(0, 600), 0), WindowAction::Nothing);
    assert_eq!(controls.handle(resized(800, -1), 0), WindowAction::Nothing);
}

#[test]
fn refreshing_is_throttled() {
    let mut controls = Controls::new(1_000);
    assert!(!controls.stats_due(100_000_999));
    assert!(controls.stats_due(100_001_000));
    assert!(!controls.stats_due(100_001_001));
    assert!(!controls.title_due(249_999_999));
    assert!(controls.title_due(250_001_000));
    assert!(!controls.title_due(0));
}

#[test]
fn input_goes_out_over_an_open_channel() {
    let mut sender = DirectInputSender::new();
    let mut stats = StreamStats::new();
    let event = InputEvent::Heartbeat { timestamp_us: 1 };
    let mut channel = InputChannel::new();
    assert!(sender.send(&event, &channel, true, 0, &mut stats).is_none());
    channel.on_open();
    assert!(sender.send(&event, &channel, false, 0, &mut stats).is_none());
    assert_eq!(stats.input_packets_sent, 0);
    let packet = sender.send(&event, &channel, true, 0, &mut stats).unwrap();
    assert_eq!(packet[..], [2, 0, 0, 0]);
    channel.on_message(&[0x0e, 0x02, 3, 0], 10);
    let packet = sender.send(&event, &channel, true, 11, &mut stats).unwrap();
    assert_eq!(packet[..], [0x23, 0, 0, 0, 0, 0, 0, 0, 1, 0x22, 2, 0, 0, 0]);
    assert_eq!((sender.send_count, stats.input_packets_sent), (2, 2));
}

#[test]
fn states_of_the_connection() {
    let mut state = SharedState::default();
    assert_eq!(state.status, "Initializing...");
    assert!(!state.connected && !state.input_ready && !state.should_exit);
    state.begin(120, 77);
    assert_eq!((state.stats.target_fps, state.stats.stream_start_ns), (120, Some(77)));
    state.connecting();
    assert_eq!(state.status, "Connecting to server...");
    state.waiting();
    assert_eq!((state.status.as_str(), state.connected), ("Waiting for stream...", true));
    let action = state.on_event(Some(SignalingEvent::Connected), 1, 1);
    assert!(matches!(action, StreamAction::GoOn));
    assert_eq!(state.status, "Connected, waiting for media...");
    let action = state.on_event(Some(SignalingEvent::InputReady), 1, 1);
    assert!(matches!(action, StreamAction::GoOn));
    assert_eq!((state.status.as_str(), state.input_ready), ("Streaming", true));
    let action = state.on_event(Some(SignalingEvent::Error("oops".to_string())), 1, 1);
    assert!(matches!(action, StreamAction::Report(r) if r == "oops"));
    assert!(state.connected);
    let action = state.on_event(Some(SignalingEvent::Disconnected("bye".to_string())), 1, 1);
    assert!(matches!(action, StreamAction::Stop));
    assert_eq!((state.status.as_str(), state.connected), ("Disconnected: bye", false));
    assert!(matches!(state.on_event(None, 1, 1), StreamAction::Stop));
}

#[test]
fn packets_are_counted() {
    let mut state = SharedState::new();
    let video = SignalingEvent::VideoPacket(Bytes::from(vec![1, 2, 3]));
    let action = state.on_event(Some(video), 1920, 1080);
    assert!(matches!(action, StreamAction::Decode(p) if p[..] == [1, 2, 3]));
    assert_eq!((state.stats.video_packets, state.stats.bytes_received), (1, 3));
    assert_eq!(state.stats.resolution, "1920x1080");
    let video = SignalingEvent::VideoPacket(Bytes::from(vec![4]));
    state.on_event(Some(video), 10, 10);
    assert_eq!(state.stats.resolution, "1920x1080");
    assert_eq!((state.stats.video_packets, state.stats.bytes_received), (2, 4));
    let audio = SignalingEvent::AudioPacket(Bytes::from(vec![9, 8]));
    let action = state.on_event(Some(audio), 10, 10);
    assert!(matches!(action, StreamAction::Play(d) if d == vec![9, 8]));
    assert_eq!(state.stats.audio_packets, 1);
}

#[test]
fn frames_wait_to_be_shown() {
    let frame = || DecodedFrame {
        width: 2,
        height: 2,
        y_data: Arc::new(vec![0; 4]),
        uv_data: Arc::new(vec![0; 2]),
        pts: 3,
    };
    let mut state = SharedState::new();
    state.on_frame(frame());
    assert_eq!((state.status.as_str(), state.stats.frames_decoded), ("Streaming", 1));
    state.status = "other".to_string();
    state.on_frame(frame());
    assert_eq!((state.status.as_str(), state.stats.frames_decoded), ("other", 2));
    assert_eq!(state.take_frame().unwrap().pts, 3);
    assert!(state.take_frame().is_none());
}
