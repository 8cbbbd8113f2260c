use gfn_streamer::input::{InputEncoder, InputEvent};

fn encode(event: InputEvent) -> Vec<u8> {
    InputEncoder::new().encode(&event)
}

#[test]
fn heartbeat_packet() {
    assert_eq!(encode(InputEvent::Heartbeat { timestamp_us: 7 }), vec![2, 0, 0, 0]);
}

#[test]
fn key_down_packet() {
    let packet = encode(InputEvent::KeyDown {
        keycode: 0x0141,
        scancode: 0x021e,
        modifiers: 0x0304,
        timestamp_us: 0x0102030405060708,
    });
    assert_eq!(
        packet,
        vec![3, 0, 0, 0, 0x01, 0x41, 0x03, 0x04, 0x02, 0x1e, 1, 2, 3, 4, 5, 6, 7, 8]
    );
}

#[test]
fn key_up_packet() {
    let packet =
        encode(InputEvent::KeyUp { keycode: 0x41, scancode: 0x1e, modifiers: 0, timestamp_us: 1 });
    assert_eq!(packet, vec![4, 0, 0, 0, 0, 0x41, 0, 0, 0, 0x1e, 0, 0, 0, 0, 0, 0, 0, 1]);
}

#[test]
fn mouse_move_packet() {
    let packet = encode(InputEvent::MouseMove { dx: -2, dy: 258, timestamp_us: u64::MAX });
    assert_eq!(
        packet,
        vec![
            7, 0, 0, 0, 0xff, 0xfe, 0x01, 0x02, 0, 0, 0, 0, 0, 0, 255, 255, 255, 255, 255, 255,
            255, 255
        ]
    );
}

#[test]
fn mouse_button_packets() {
    assert_eq!(
        encode(InputEvent::MouseButtonDown { button: 1, timestamp_us: 256 }),
        vec![8, 0, 0, 0, 1, 0, 0, 0, 0, 0, 0, 0, 0, 0, 0, 0, 1, 0]
    );
    assert_eq!(
        encode(InputEvent::MouseButtonUp { button: 5, timestamp_us: 0 }),
        vec![9, 0, 0, 0, 5, 0, 0, 0, 0, 0, 0, 0, 0, 0, 0, 0, 0, 0]
    );
}

#[test]
fn mouse_wheel_is_negated() {
    let packet = encode(InputEvent::MouseWheel { delta_x: 3, delta_y: 120, timestamp_us: 0 });
    assert_eq!(packet[..8], [10, 0, 0, 0, 0, 3, 0xff, 0x88]);
    assert_eq!(packet.len(), 22);
    let packet = encode(InputEvent::MouseWheel { delta_x: 0, delta_y: i16::MAX, timestamp_us: 0 });
    assert_eq!(packet[4..8], [0, 0, 0x80, 0x01]);
}

#[test]
fn encoder_is_reusable() {
    let mut encoder = InputEncoder::default();
    let first = encoder.encode(&InputEvent::MouseButtonDown { button: 2, timestamp_us: 9 });
    assert_eq!(encoder.encode(&InputEvent::Heartbeat { timestamp_us: 1 }), vec![2, 0, 0, 0]);
    let again = encoder.encode(&InputEvent::MouseButtonDown { button: 2, timestamp_us: 9 });
    assert_eq!(first, again);
}

#[test]
fn packets_differ() {
    let a = encode(InputEvent::MouseMove { dx: 1, dy: 0, timestamp_us: 4 });
    let b = encode(InputEvent::MouseMove { dx: 0, dy: 1, timestamp_us: 4 });
    let c = encode(InputEvent::MouseWheel { delta_x: 1, delta_y: 0, timestamp_us: 4 });
    assert_ne!(a, b);
    assert_ne!(a, c);
    assert_eq!(
        encode(InputEvent::Heartbeat { timestamp_us: 1 }),
        encode(InputEvent::Heartbeat { timestamp_us: 2 })
    );
}

#[test]
fn handshake_response() {
    assert_eq!(InputEncoder::encode_handshake_response(2, 3, 1), vec![0x0e, 2, 3, 1]);
}
