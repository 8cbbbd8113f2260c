//! Input events and their packets.
//!
//! Keyboard and mouse input travels to the server in small binary packets: a
//! four-byte little-endian type, the data of the event and, except for the
//! heartbeat, an eight-byte timestamp in microseconds. Everything after the type
//! is big endian.

use bytes::BytesMut;
use vstd::prelude::*;

use crate::byte_buffer::{
    buffer_clear, buffer_put_i16, buffer_put_u16, buffer_put_u32, buffer_put_u32_le, buffer_put_u64,
    buffer_put_u8, buffer_to_vec, buffer_with_capacity,
};

verus! {

use crate::byte_buffer::buffered;
use crate::wire::{
    be_bytes, be_bytes_injective, le_bytes, lemma_be_bytes_len, lemma_byte_spans, twos_complement,
};

pub const INPUT_HEARTBEAT: u32 = 2;

pub const INPUT_KEY_DOWN: u32 = 3;

pub const INPUT_KEY_UP: u32 = 4;

pub const INPUT_MOUSE_ABS: u32 = 5;

pub const INPUT_MOUSE_REL: u32 = 7;

pub const INPUT_MOUSE_BUTTON_DOWN: u32 = 8;

pub const INPUT_MOUSE_BUTTON_UP: u32 = 9;

pub const INPUT_MOUSE_WHEEL: u32 = 10;

/// Input events that can be sent to the server
#[derive(Debug, Clone, PartialEq, Eq, Structural)]
pub enum InputEvent {
    /// Keyboard key pressed
    KeyDown { keycode: u16, scancode: u16, modifiers: u16, timestamp_us: u64 },
    /// Keyboard key released
    KeyUp { keycode: u16, scancode: u16, modifiers: u16, timestamp_us: u64 },
    /// Mouse moved (relative)
    MouseMove { dx: i16, dy: i16, timestamp_us: u64 },
    /// Mouse button pressed
    MouseButtonDown { button: u8, timestamp_us: u64 },
    /// Mouse button released
    MouseButtonUp { button: u8, timestamp_us: u64 },
    /// Mouse wheel scrolled
    MouseWheel { delta_x: i16, delta_y: i16, timestamp_us: u64 },
    /// Heartbeat (keep-alive)
    Heartbeat { timestamp_us: u64 },
}

/// The six reserved bytes that follow two signed coordinates.
pub open spec fn reserved_six() -> Seq<u8> {
    be_bytes(0, 2) + be_bytes(0, 4)
}

impl InputEvent {
    /// The wheel packet carries the negated vertical movement, which the smallest
    /// 16-bit number does not have.
    pub open spec fn encodable(self) -> bool {
        self matches InputEvent::MouseWheel { delta_y, .. } ==> delta_y != i16::MIN
    }

    /// The type that opens the packet.
    pub open spec fn packet_type(self) -> u32 {
        match self {
            InputEvent::KeyDown { .. } => INPUT_KEY_DOWN,
            InputEvent::KeyUp { .. } => INPUT_KEY_UP,
            InputEvent::MouseMove { .. } => INPUT_MOUSE_REL,
            InputEvent::MouseButtonDown { .. } => INPUT_MOUSE_BUTTON_DOWN,
            InputEvent::MouseButtonUp { .. } => INPUT_MOUSE_BUTTON_UP,
            InputEvent::MouseWheel { .. } => INPUT_MOUSE_WHEEL,
            InputEvent::Heartbeat { .. } => INPUT_HEARTBEAT,
        }
    }

    /// What stands between the type and the timestamp.
    pub open spec fn packet_data(self) -> Seq<u8> {
        match self {
            InputEvent::KeyDown { keycode, scancode, modifiers, .. } => be_bytes(keycode as nat, 2)
                + be_bytes(modifiers as nat, 2) + be_bytes(scancode as nat, 2),
            InputEvent::KeyUp { keycode, scancode, modifiers, .. } => be_bytes(keycode as nat, 2)
                + be_bytes(modifiers as nat, 2) + be_bytes(scancode as nat, 2),
            InputEvent::MouseMove { dx, dy, .. } => be_bytes(twos_complement(dx), 2) + be_bytes(
                twos_complement(dy),
                2,
            ) + reserved_six(),
            InputEvent::MouseButtonDown { button, .. } => seq![button, 0u8] + be_bytes(0, 4),
            InputEvent::MouseButtonUp { button, .. } => seq![button, 0u8] + be_bytes(0, 4),
            InputEvent::MouseWheel { delta_x, delta_y, .. } => be_bytes(twos_complement(delta_x), 2)
                + be_bytes(twos_complement((-delta_y) as i16), 2) + reserved_six(),
            InputEvent::Heartbeat { .. } => Seq::empty(),
        }
    }

    pub open spec fn timestamp(self) -> u64 {
        match self {
            InputEvent::KeyDown { timestamp_us, .. } => timestamp_us,
            InputEvent::KeyUp { timestamp_us, .. } => timestamp_us,
            InputEvent::MouseMove { timestamp_us, .. } => timestamp_us,
            InputEvent::MouseButtonDown { timestamp_us, .. } => timestamp_us,
            InputEvent::MouseButtonUp { timestamp_us, .. } => timestamp_us,
            InputEvent::MouseWheel { timestamp_us, .. } => timestamp_us,
            InputEvent::Heartbeat { timestamp_us } => timestamp_us,
        }
    }

    /// The whole packet. A heartbeat is its type alone.
    pub open spec fn packet(self) -> Seq<u8> {
        if self is Heartbeat {
            le_bytes(INPUT_HEARTBEAT as nat, 4)
        } else {
            le_bytes(self.packet_type() as nat, 4) + self.packet_data() + be_bytes(
                self.timestamp() as nat,
                8,
            )
        }
    }
}

/// Encoder for the input protocol. The scratch buffer is reused from packet to
/// packet.
pub struct InputEncoder {
    buffer: BytesMut,
}

impl InputEncoder {
    /// What the scratch buffer was left with: the last packet, or nothing.
    pub closed spec fn scratch(&self) -> Seq<u8> {
        buffered(self.buffer)
    }

    pub fn new() -> (encoder: Self)
        ensures
            encoder.scratch() == Seq::<u8>::empty(),
    {
        InputEncoder { buffer: buffer_with_capacity(64) }
    }

    /// Encode an input event to binary format
    pub fn encode(&mut self, event: &InputEvent) -> (packet: Vec<u8>)
        requires
            event.encodable(),
        ensures
            packet@ == event.packet(),
            final(self).scratch() == event.packet(),
    {
        buffer_clear(&mut self.buffer);
        proof {
            lemma_be_bytes_len(0, 2);
            lemma_be_bytes_len(0, 4);
            lemma_be_bytes_len(event.packet_type() as nat, 4);
        }
        match event {
            InputEvent::KeyDown { keycode, scancode, modifiers, timestamp_us } => {
                proof {
                    lemma_be_bytes_len(*keycode as nat, 2);
                    lemma_be_bytes_len(*modifiers as nat, 2);
                    lemma_be_bytes_len(*scancode as nat, 2);
                }
                buffer_put_u32_le(&mut self.buffer, INPUT_KEY_DOWN);
                buffer_put_u16(&mut self.buffer, *keycode);
                buffer_put_u16(&mut self.buffer, *modifiers);
                buffer_put_u16(&mut self.buffer, *scancode);
                buffer_put_u64(&mut self.buffer, *timestamp_us);
            },
            InputEvent::KeyUp { keycode, scancode, modifiers, timestamp_us } => {
                proof {
                    lemma_be_bytes_len(*keycode as nat, 2);
                    lemma_be_bytes_len(*modifiers as nat, 2);
                    lemma_be_bytes_len(*scancode as nat, 2);
                }
                buffer_put_u32_le(&mut self.buffer, INPUT_KEY_UP);
                buffer_put_u16(&mut self.buffer, *keycode);
                buffer_put_u16(&mut self.buffer, *modifiers);
                buffer_put_u16(&mut self.buffer, *scancode);
                buffer_put_u64(&mut self.buffer, *timestamp_us);
            },
            InputEvent::MouseMove { dx, dy, timestamp_us } => {
                proof {
                    lemma_be_bytes_len(twos_complement(*dx), 2);
                    lemma_be_bytes_len(twos_complement(*dy), 2);
                }
                buffer_put_u32_le(&mut self.buffer, INPUT_MOUSE_REL);
                buffer_put_i16(&mut self.buffer, *dx);
                buffer_put_i16(&mut self.buffer, *dy);
                buffer_put_u16(&mut self.buffer, 0);
                buffer_put_u32(&mut self.buffer, 0);
                buffer_put_u64(&mut self.buffer, *timestamp_us);
            },
            InputEvent::MouseButtonDown { button, timestamp_us } => {
                buffer_put_u32_le(&mut self.buffer, INPUT_MOUSE_BUTTON_DOWN);
                buffer_put_u8(&mut self.buffer, *button);
                buffer_put_u8(&mut self.buffer, 0);
                buffer_put_u32(&mut self.buffer, 0);
                buffer_put_u64(&mut self.buffer, *timestamp_us);
            },
            InputEvent::MouseButtonUp { button, timestamp_us } => {
                buffer_put_u32_le(&mut self.buffer, INPUT_MOUSE_BUTTON_UP);
                buffer_put_u8(&mut self.buffer, *button);
                buffer_put_u8(&mut self.buffer, 0);
                buffer_put_u32(&mut self.buffer, 0);
                buffer_put_u64(&mut self.buffer, *timestamp_us);
            },
            InputEvent::MouseWheel { delta_x, delta_y, timestamp_us } => {
                let vertical: i16 = -*delta_y;
                proof {
                    lemma_be_bytes_len(twos_complement(*delta_x), 2);
                    lemma_be_bytes_len(twos_complement(vertical), 2);
                }
                buffer_put_u32_le(&mut self.buffer, INPUT_MOUSE_WHEEL);
                buffer_put_i16(&mut self.buffer, *delta_x);
                buffer_put_i16(&mut self.buffer, vertical);
                buffer_put_u16(&mut self.buffer, 0);
                buffer_put_u32(&mut self.buffer, 0);
                buffer_put_u64(&mut self.buffer, *timestamp_us);
            },
            InputEvent::Heartbeat { timestamp_us: _ } => {
                buffer_put_u32_le(&mut self.buffer, INPUT_HEARTBEAT);
            },
        }
        assert(buffered(self.buffer) =~= event.packet());
        buffer_to_vec(&self.buffer)
    }

    /// Encode the protocol handshake response
    pub fn encode_handshake_response(major: u8, minor: u8, flags: u8) -> (response: Vec<u8>)
        ensures
            response@ == seq![0x0eu8, major, minor, flags],
    {
        let response: Vec<u8> = vec![0x0e, major, minor, flags];
        assert(response@ =~= seq![0x0eu8, major, minor, flags]);
        response
    }
}

impl Default for InputEncoder {
    fn default() -> (encoder: Self)
        ensures
            encoder.scratch() == Seq::<u8>::empty(),
    {
        InputEncoder::new()
    }
}

/// Keys and buttons take 18 bytes, movements and the wheel 22, a heartbeat 4.
pub proof fn packet_lengths(event: InputEvent)
    ensures
        event.packet().len() == match event {
            InputEvent::KeyDown { .. } => 18int,
            InputEvent::KeyUp { .. } => 18,
            InputEvent::MouseMove { .. } => 22,
            InputEvent::MouseButtonDown { .. } => 18,
            InputEvent::MouseButtonUp { .. } => 18,
            InputEvent::MouseWheel { .. } => 22,
            InputEvent::Heartbeat { .. } => 4,
        },
{
    lemma_be_bytes_len(INPUT_HEARTBEAT as nat, 4);
    lemma_be_bytes_len(event.packet_type() as nat, 4);
    lemma_be_bytes_len(event.timestamp() as nat, 8);
    lemma_data_len(event);
}

proof fn lemma_data_len(event: InputEvent)
    ensures
        event.packet_data().len() == match event {
            InputEvent::MouseMove { .. } => 10int,
            InputEvent::MouseWheel { .. } => 10,
            InputEvent::Heartbeat { .. } => 0,
            _ => 6,
        },
{
    lemma_be_bytes_len(0, 2);
    lemma_be_bytes_len(0, 4);
    match event {
        InputEvent::KeyDown { keycode, scancode, modifiers, .. } => {
            lemma_be_bytes_len(keycode as nat, 2);
            lemma_be_bytes_len(modifiers as nat, 2);
            lemma_be_bytes_len(scancode as nat, 2);
        },
        InputEvent::KeyUp { keycode, scancode, modifiers, .. } => {
            lemma_be_bytes_len(keycode as nat, 2);
            lemma_be_bytes_len(modifiers as nat, 2);
            lemma_be_bytes_len(scancode as nat, 2);
        },
        InputEvent::MouseMove { dx, dy, .. } => {
            lemma_be_bytes_len(twos_complement(dx), 2);
            lemma_be_bytes_len(twos_complement(dy), 2);
        },
        InputEvent::MouseWheel { delta_x, delta_y, .. } => {
            lemma_be_bytes_len(twos_complement(delta_x), 2);
            lemma_be_bytes_len(twos_complement((-delta_y) as i16), 2);
        },
        _ => {},
    }
}

proof fn lemma_same_type(a: InputEvent, b: InputEvent)
    requires
        le_bytes(a.packet_type() as nat, 4) == le_bytes(b.packet_type() as nat, 4),
    ensures
        a.packet_type() == b.packet_type(),
{
    let x = be_bytes(a.packet_type() as nat, 4);
    let y = be_bytes(b.packet_type() as nat, 4);
    assert(x.reverse().reverse() =~= x);
    assert(y.reverse().reverse() =~= y);
    lemma_byte_spans();
    be_bytes_injective(a.packet_type() as nat, b.packet_type() as nat, 4);
}

/// The two bytes at a position of a packet's data.
spec fn pair_at(event: InputEvent, at: int) -> Seq<u8> {
    event.packet_data().subrange(at, at + 2)
}

proof fn lemma_pairs(event: InputEvent)
    ensures
        event matches InputEvent::KeyDown { keycode, scancode, modifiers, .. } ==> {
            &&& pair_at(event, 0) == be_bytes(keycode as nat, 2)
            &&& pair_at(event, 2) == be_bytes(modifiers as nat, 2)
            &&& pair_at(event, 4) == be_bytes(scancode as nat, 2)
        },
        event matches InputEvent::KeyUp { keycode, scancode, modifiers, .. } ==> {
            &&& pair_at(event, 0) == be_bytes(keycode as nat, 2)
            &&& pair_at(event, 2) == be_bytes(modifiers as nat, 2)
            &&& pair_at(event, 4) == be_bytes(scancode as nat, 2)
        },
        event matches InputEvent::MouseMove { dx, dy, .. } ==> {
            &&& pair_at(event, 0) == be_bytes(twos_complement(dx), 2)
            &&& pair_at(event, 2) == be_bytes(twos_complement(dy), 2)
        },
        event matches InputEvent::MouseWheel { delta_x, delta_y, .. } ==> {
            &&& pair_at(event, 0) == be_bytes(twos_complement(delta_x), 2)
            &&& pair_at(event, 2) == be_bytes(twos_complement((-delta_y) as i16), 2)
        },
{
    lemma_be_bytes_len(0, 2);
    lemma_be_bytes_len(0, 4);
    match event {
        InputEvent::KeyDown { keycode, scancode, modifiers, .. } => {
            lemma_be_bytes_len(keycode as nat, 2);
            lemma_be_bytes_len(modifiers as nat, 2);
            lemma_be_bytes_len(scancode as nat, 2);
            assert(pair_at(event, 0) =~= be_bytes(keycode as nat, 2));
            assert(pair_at(event, 2) =~= be_bytes(modifiers as nat, 2));
            assert(pair_at(event, 4) =~= be_bytes(scancode as nat, 2));
        },
        InputEvent::KeyUp { keycode, scancode, modifiers, .. } => {
            lemma_be_bytes_len(keycode as nat, 2);
            lemma_be_bytes_len(modifiers as nat, 2);
            lemma_be_bytes_len(scancode as nat, 2);
            assert(pair_at(event, 0) =~= be_bytes(keycode as nat, 2));
            assert(pair_at(event, 2) =~= be_bytes(modifiers as nat, 2));
            assert(pair_at(event, 4) =~= be_bytes(scancode as nat, 2));
        },
        InputEvent::MouseMove { dx, dy, .. } => {
            lemma_be_bytes_len(twos_complement(dx), 2);
            lemma_be_bytes_len(twos_complement(dy), 2);
            assert(pair_at(event, 0) =~= be_bytes(twos_complement(dx), 2));
            assert(pair_at(event, 2) =~= be_bytes(twos_complement(dy), 2));
        },
        InputEvent::MouseWheel { delta_x, delta_y, .. } => {
            lemma_be_bytes_len(twos_complement(delta_x), 2);
            lemma_be_bytes_len(twos_complement((-delta_y) as i16), 2);
            assert(pair_at(event, 0) =~= be_bytes(twos_complement(delta_x), 2));
            assert(pair_at(event, 2) =~= be_bytes(twos_complement((-delta_y) as i16), 2));
        },
        _ => {},
    }
}

/// The server can tell all events apart by their packets, but for the time of a
/// heartbeat.
pub proof fn packets_tell_events_apart(a: InputEvent, b: InputEvent)
    requires
        a.encodable(),
        b.encodable(),
        a.packet() == b.packet(),
    ensures
        a == b || (a is Heartbeat && b is Heartbeat),
{
    packet_lengths(a);
    packet_lengths(b);
    if a !is Heartbeat {
        lemma_be_bytes_len(a.packet_type() as nat, 4);
        lemma_be_bytes_len(b.packet_type() as nat, 4);
        lemma_be_bytes_len(a.timestamp() as nat, 8);
        lemma_be_bytes_len(b.timestamp() as nat, 8);
        lemma_data_len(a);
        lemma_data_len(b);
        let whole = a.packet();
        let n = whole.len() as int;
        assert(le_bytes(a.packet_type() as nat, 4) =~= whole.subrange(0, 4));
        assert(le_bytes(b.packet_type() as nat, 4) =~= whole.subrange(0, 4));
        lemma_same_type(a, b);
        assert(a.packet_data() =~= whole.subrange(4, n - 8));
        assert(b.packet_data() =~= whole.subrange(4, n - 8));
        assert(be_bytes(a.timestamp() as nat, 8) =~= whole.subrange(n - 8, n));
        assert(be_bytes(b.timestamp() as nat, 8) =~= whole.subrange(n - 8, n));
        lemma_byte_spans();
        be_bytes_injective(a.timestamp() as nat, b.timestamp() as nat, 8);
        lemma_same_data(a, b);
    }
}

proof fn lemma_same_data(a: InputEvent, b: InputEvent)
    requires
        a.encodable(),
        b.encodable(),
        a !is Heartbeat,
        a.packet_type() == b.packet_type(),
        a.packet_data() == b.packet_data(),
        a.timestamp() == b.timestamp(),
    ensures
        a == b,
{
    lemma_pairs(a);
    lemma_pairs(b);
    lemma_byte_spans();
    match (a, b) {
        (
            InputEvent::KeyDown { keycode: k1, scancode: s1, modifiers: m1, .. },
            InputEvent::KeyDown { keycode: k2, scancode: s2, modifiers: m2, .. },
        ) => {
            be_bytes_injective(k1 as nat, k2 as nat, 2);
            be_bytes_injective(m1 as nat, m2 as nat, 2);
            be_bytes_injective(s1 as nat, s2 as nat, 2);
        },
        (
            InputEvent::KeyUp { keycode: k1, scancode: s1, modifiers: m1, .. },
            InputEvent::KeyUp { keycode: k2, scancode: s2, modifiers: m2, .. },
        ) => {
            be_bytes_injective(k1 as nat, k2 as nat, 2);
            be_bytes_injective(m1 as nat, m2 as nat, 2);
            be_bytes_injective(s1 as nat, s2 as nat, 2);
        },
        (
            InputEvent::MouseMove { dx: x1, dy: y1, .. },
            InputEvent::MouseMove { dx: x2, dy: y2, .. },
        ) => {
            be_bytes_injective(twos_complement(x1), twos_complement(x2), 2);
            be_bytes_injective(twos_complement(y1), twos_complement(y2), 2);
        },
        (
            InputEvent::MouseWheel { delta_x: x1, delta_y: y1, .. },
            InputEvent::MouseWheel { delta_x: x2, delta_y: y2, .. },
        ) => {
            be_bytes_injective(twos_complement(x1), twos_complement(x2), 2);
            be_bytes_injective(
                twos_complement((-y1) as i16),
                twos_complement((-y2) as i16),
                2,
            );
        },
        (
            InputEvent::MouseButtonDown { button: b1, .. },
            InputEvent::MouseButtonDown { button: b2, .. },
        ) => {
            assert(a.packet_data()[0] == b1 && b.packet_data()[0] == b2);
        },
        (
            InputEvent::MouseButtonUp { button: b1, .. },
            InputEvent::MouseButtonUp { button: b2, .. },
        ) => {
            assert(a.packet_data()[0] == b1 && b.packet_data()[0] == b2);
        },
        _ => {},
    }
}

/// Every packet begins with the number of its kind, least significant byte first: 2 for
/// a heartbeat, which is all there is of it, 3 and 4 for a key that goes down and up, 7
/// for a movement, 8 and 9 for a button, 10 for the wheel.
pub proof fn packets_begin_with_their_kind(event: InputEvent)
    ensures
        event.packet().len() >= 4,
        event.packet().take(4) == seq![
            match event {
                InputEvent::Heartbeat { .. } => 2u8,
                InputEvent::KeyDown { .. } => 3,
                InputEvent::KeyUp { .. } => 4,
                InputEvent::MouseMove { .. } => 7,
                InputEvent::MouseButtonDown { .. } => 8,
                InputEvent::MouseButtonUp { .. } => 9,
                InputEvent::MouseWheel { .. } => 10,
            },
            0u8,
            0u8,
            0u8,
        ],
        event is Heartbeat ==> event.packet().len() == 4,
{
    packet_lengths(event);
    lemma_be_bytes_len(event.packet_type() as nat, 4);
    reveal_with_fuel(be_bytes, 5);
    assert(le_bytes(event.packet_type() as nat, 4) =~= seq![
        event.packet_type() as u8,
        0u8,
        0u8,
        0u8,
    ]);
    assert(event.packet().take(4) =~= le_bytes(event.packet_type() as nat, 4));
}

/// The number that two bytes of a packet make, the first one being the more
/// significant.
pub open spec fn pair_value(packet: Seq<u8>, at: int) -> int {
    packet[at] * 256 + packet[at + 1]
}

/// Behind the kind of a key's packet stand its virtual-key code, the modifiers and its
/// scan code; behind that of a movement or of the wheel the two distances, the vertical
/// one of the wheel turned round; behind that of a button its number. What is left of
/// the data is zero.
pub proof fn packets_hold_what_happened(event: InputEvent, i: int)
    requires
        event.encodable(),
    ensures
        match event {
            InputEvent::KeyDown { keycode, scancode, modifiers, .. } => {
                &&& pair_value(event.packet(), 4) == keycode
                &&& pair_value(event.packet(), 6) == modifiers
                &&& pair_value(event.packet(), 8) == scancode
            },
            InputEvent::KeyUp { keycode, scancode, modifiers, .. } => {
                &&& pair_value(event.packet(), 4) == keycode
                &&& pair_value(event.packet(), 6) == modifiers
                &&& pair_value(event.packet(), 8) == scancode
            },
            InputEvent::MouseMove { dx, dy, .. } => {
                &&& pair_value(event.packet(), 4) == dx as int % 65536
                &&& pair_value(event.packet(), 6) == dy as int % 65536
                &&& 8 <= i < 14 ==> event.packet()[i] == 0
            },
            InputEvent::MouseWheel { delta_x, delta_y, .. } => {
                &&& pair_value(event.packet(), 4) == delta_x as int % 65536
                &&& pair_value(event.packet(), 6) == (-delta_y) % 65536
                &&& 8 <= i < 14 ==> event.packet()[i] == 0
            },
            InputEvent::MouseButtonDown { button, .. } => {
                &&& event.packet()[4] == button
                &&& 5 <= i < 10 ==> event.packet()[i] == 0
            },
            InputEvent::MouseButtonUp { button, .. } => {
                &&& event.packet()[4] == button
                &&& 5 <= i < 10 ==> event.packet()[i] == 0
            },
            InputEvent::Heartbeat { .. } => true,
        },
{
    packet_lengths(event);
    lemma_data_len(event);
    lemma_be_bytes_len(event.packet_type() as nat, 4);
    lemma_be_bytes_len(event.timestamp() as nat, 8);
    if event !is Heartbeat {
        let data = event.packet_data();
        assert forall|k: int| 0 <= k < data.len() implies event.packet()[4 + k]
            == #[trigger] data[k] by {}
        assert(event.packet()[4] == data[0] && event.packet()[5] == data[1]);
        lemma_pairs(event);
        lemma_be_bytes_len(0, 2);
        lemma_be_bytes_len(0, 4);
        lemma_zero_bytes();
        match event {
            InputEvent::KeyDown { keycode, scancode, modifiers, .. } => {
                lemma_pair_value(event, 0, keycode as nat);
                lemma_pair_value(event, 2, modifiers as nat);
                lemma_pair_value(event, 4, scancode as nat);
            },
            InputEvent::KeyUp { keycode, scancode, modifiers, .. } => {
                lemma_pair_value(event, 0, keycode as nat);
                lemma_pair_value(event, 2, modifiers as nat);
                lemma_pair_value(event, 4, scancode as nat);
            },
            InputEvent::MouseMove { dx, dy, .. } => {
                lemma_pair_value(event, 0, twos_complement(dx));
                lemma_pair_value(event, 2, twos_complement(dy));
                lemma_be_bytes_len(twos_complement(dx), 2);
                lemma_be_bytes_len(twos_complement(dy), 2);
                if 8 <= i < 14 {
                    assert(data[i - 4] == reserved_six()[i - 8]);
                }
            },
            InputEvent::MouseWheel { delta_x, delta_y, .. } => {
                lemma_pair_value(event, 0, twos_complement(delta_x));
                lemma_pair_value(event, 2, twos_complement((-delta_y) as i16));
                lemma_be_bytes_len(twos_complement(delta_x), 2);
                lemma_be_bytes_len(twos_complement((-delta_y) as i16), 2);
                if 8 <= i < 14 {
                    assert(data[i - 4] == reserved_six()[i - 8]);
                }
            },
            _ => {
                if 5 <= i < 10 {
                    assert(event.packet()[i] == data[i - 4]);
                    if i > 5 {
                        assert(data[i - 4] == be_bytes(0, 4)[i - 6]);
                    }
                }
            },
        }
    }
}

proof fn lemma_zero_bytes()
    ensures
        forall|k: int| 0 <= k < 2 ==> #[trigger] be_bytes(0, 2)[k] == 0,
        forall|k: int| 0 <= k < 4 ==> #[trigger] be_bytes(0, 4)[k] == 0,
        forall|k: int| 0 <= k < 6 ==> #[trigger] reserved_six()[k] == 0,
{
    reveal_with_fuel(be_bytes, 5);
    assert(be_bytes(0, 2) =~= seq![0u8, 0]);
    assert(be_bytes(0, 4) =~= seq![0u8, 0, 0, 0]);
}

proof fn lemma_pair_value(event: InputEvent, at: int, n: nat)
    requires
        event !is Heartbeat,
        0 <= at,
        at + 2 <= event.packet_data().len(),
        event.packet_data().subrange(at, at + 2) == be_bytes(n, 2),
        n < 65536,
    ensures
        pair_value(event.packet(), 4 + at) == n,
{
    lemma_be_bytes_len(event.packet_type() as nat, 4);
    reveal_with_fuel(be_bytes, 3);
    let pair = event.packet_data().subrange(at, at + 2);
    assert(pair =~= seq![(n / 256 % 256) as u8, (n % 256) as u8]);
    assert(event.packet()[4 + at] == pair[0]);
    assert(event.packet()[5 + at] == pair[1]);
}

/// Every packet but a heartbeat ends with the time of the event in eight bytes, the most
/// significant one first.
pub proof fn packets_end_with_their_time(event: InputEvent)
    ensures
        event matches InputEvent::KeyDown { timestamp_us, .. } ==> event.packet().skip(10)
            == be_bytes(timestamp_us as nat, 8),
        event matches InputEvent::KeyUp { timestamp_us, .. } ==> event.packet().skip(10)
            == be_bytes(timestamp_us as nat, 8),
        event matches InputEvent::MouseMove { timestamp_us, .. } ==> event.packet().skip(14)
            == be_bytes(timestamp_us as nat, 8),
        event matches InputEvent::MouseButtonDown { timestamp_us, .. } ==> event.packet().skip(10)
            == be_bytes(timestamp_us as nat, 8),
        event matches InputEvent::MouseButtonUp { timestamp_us, .. } ==> event.packet().skip(10)
            == be_bytes(timestamp_us as nat, 8),
        event matches InputEvent::MouseWheel { timestamp_us, .. } ==> event.packet().skip(14)
            == be_bytes(timestamp_us as nat, 8),
{
    packet_lengths(event);
    lemma_data_len(event);
    lemma_be_bytes_len(event.packet_type() as nat, 4);
    lemma_be_bytes_len(event.timestamp() as nat, 8);
    if event !is Heartbeat {
        let n = event.packet().len() as int;
        assert(event.packet().skip(n - 8) =~= be_bytes(event.timestamp() as nat, 8));
    }
}

} // verus!
