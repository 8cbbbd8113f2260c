//! The window's event loop: what each event of the window system leads to, when the
//! figures are refreshed, and how input goes out.

use bytes::Bytes;
use vstd::prelude::*;

use crate::input::{InputEncoder, InputEvent};
use crate::keys::{sdl_scancode_to_vk, Scancode};
use crate::signaling::client::InputChannel;
use crate::stats::StreamStats;

verus! {

use crate::byte_buffer::content;
use crate::keys::{key_of, known_keys_have_codes, scancode_codes};

/// One notch of the wheel.
pub const WHEEL_NOTCH: i32 = 120;

/// The figures are calculated ten times a second.
pub const STATS_INTERVAL_NS: u64 = 100_000_000;

/// The title of the window changes four times a second.
pub const TITLE_INTERVAL_NS: u64 = 250_000_000;

#[derive(Debug, Clone, Copy, PartialEq, Eq, Structural)]
pub enum MouseButton {
    Left,
    Right,
    Middle,
    X1,
    X2,
    Other,
}

/// An event of the window system.
#[derive(Debug, Clone, Copy, PartialEq, Eq, Structural)]
pub enum WindowEvent {
    Quit,
    KeyDown { scancode: Option<Scancode>, repeat: bool },
    KeyUp { scancode: Option<Scancode>, repeat: bool },
    MouseButtonDown { button: MouseButton },
    MouseButtonUp { button: MouseButton },
    MouseMotion { xrel: i32, yrel: i32 },
    MouseWheel { y: i32 },
    FocusLost,
    Resized { width: i32, height: i32 },
    Other,
}

/// What the event loop does.
#[derive(Debug, PartialEq, Eq, Structural)]
pub enum WindowAction {
    Nothing,
    Quit,
    CaptureMouse,
    ReleaseMouse,
    ToggleOverlay,
    Resize { width: u32, height: u32 },
    Send(InputEvent),
}

/// The number of a mouse button in the protocol, or zero.
pub open spec fn button_number(button: MouseButton) -> u8 {
    match button {
        MouseButton::Left => 1,
        MouseButton::Right => 2,
        MouseButton::Middle => 3,
        MouseButton::X1 => 4,
        MouseButton::X2 => 5,
        MouseButton::Other => 0,
    }
}

/// The number that the low 16 bits of a number denote.
pub open spec fn low_word(n: int) -> i16 {
    ((n + 0x8000) % 0x1_0000 - 0x8000) as i16
}

/// What a key leads to that goes to the server, if the server knows it.
pub open spec fn key_event(scancode: Scancode, down: bool, timestamp_us: u64) -> WindowAction {
    let (vk, scan) = scancode_codes(scancode);
    if vk == 0 {
        WindowAction::Nothing
    } else if down {
        WindowAction::Send(
            InputEvent::KeyDown { keycode: vk, scancode: scan, modifiers: 0, timestamp_us },
        )
    } else {
        WindowAction::Send(
            InputEvent::KeyUp { keycode: vk, scancode: scan, modifiers: 0, timestamp_us },
        )
    }
}

/// What a mouse button leads to that goes to the server, if the server knows it.
pub open spec fn button_event(button: MouseButton, down: bool, timestamp_us: u64) -> WindowAction {
    if button_number(button) == 0 {
        WindowAction::Nothing
    } else if down {
        WindowAction::Send(
            InputEvent::MouseButtonDown { button: button_number(button), timestamp_us },
        )
    } else {
        WindowAction::Send(
            InputEvent::MouseButtonUp { button: button_number(button), timestamp_us },
        )
    }
}

/// What an event leads to, depending on whether the mouse is captured.
pub open spec fn reaction(captured: bool, event: WindowEvent, timestamp_us: u64) -> WindowAction {
    match event {
        WindowEvent::Quit => WindowAction::Quit,
        WindowEvent::KeyDown { scancode: Some(scancode), repeat: false } => if scancode is Escape
            && captured {
            WindowAction::ReleaseMouse
        } else if scancode is F3 {
            WindowAction::ToggleOverlay
        } else if scancode is F11 || !captured {
            WindowAction::Nothing
        } else {
            key_event(scancode, true, timestamp_us)
        },
        WindowEvent::KeyUp { scancode: Some(scancode), repeat: false } => if captured {
            key_event(scancode, false, timestamp_us)
        } else {
            WindowAction::Nothing
        },
        WindowEvent::MouseButtonDown { button } => if captured {
            button_event(button, true, timestamp_us)
        } else {
            WindowAction::CaptureMouse
        },
        WindowEvent::MouseButtonUp { button } => if captured {
            button_event(button, false, timestamp_us)
        } else {
            WindowAction::Nothing
        },
        WindowEvent::MouseMotion { xrel, yrel } => if captured && (xrel != 0 || yrel != 0) {
            WindowAction::Send(
                InputEvent::MouseMove {
                    dx: low_word(xrel as int),
                    dy: low_word(yrel as int),
                    timestamp_us,
                },
            )
        } else {
            WindowAction::Nothing
        },
        WindowEvent::MouseWheel { y } => if captured && y != 0 {
            WindowAction::Send(
                InputEvent::MouseWheel {
                    delta_x: 0,
                    delta_y: low_word(y * WHEEL_NOTCH),
                    timestamp_us,
                },
            )
        } else {
            WindowAction::Nothing
        },
        WindowEvent::FocusLost => if captured {
            WindowAction::ReleaseMouse
        } else {
            WindowAction::Nothing
        },
        WindowEvent::Resized { width, height } => if width > 0 && height > 0 {
            WindowAction::Resize { width: width as u32, height: height as u32 }
        } else {
            WindowAction::Nothing
        },
        _ => WindowAction::Nothing,
    }
}

/// Whether the mouse is captured after an action.
pub open spec fn captured_after(captured: bool, action: WindowAction) -> bool {
    match action {
        WindowAction::CaptureMouse => true,
        WindowAction::ReleaseMouse => false,
        _ => captured,
    }
}

/// The number of a mouse button in the protocol, or zero
pub fn button_number_of(button: MouseButton) -> (number: u8)
    ensures
        number == button_number(button),
{
    match button {
        MouseButton::Left => 1,
        MouseButton::Right => 2,
        MouseButton::Middle => 3,
        MouseButton::X1 => 4,
        MouseButton::X2 => 5,
        MouseButton::Other => 0,
    }
}

fn low_word_of(n: i32) -> (word: i16)
    ensures
        word == low_word(n as int),
{
    let word: i16 = #[verifier::truncate]
    (n as i16);
    assert(((n as i16) - n) % 0x1_0000 == 0) by (bit_vector);
    assert((word - n) % 0x1_0000 == 0);
    word
}

fn send_key(scancode: Scancode, down: bool, timestamp_us: u64) -> (action: WindowAction)
    ensures
        action == key_event(scancode, down, timestamp_us),
{
    let (vk, scan) = sdl_scancode_to_vk(scancode);
    if vk == 0 {
        WindowAction::Nothing
    } else if down {
        WindowAction::Send(
            InputEvent::KeyDown { keycode: vk, scancode: scan, modifiers: 0, timestamp_us },
        )
    } else {
        WindowAction::Send(
            InputEvent::KeyUp { keycode: vk, scancode: scan, modifiers: 0, timestamp_us },
        )
    }
}

fn send_button(button: MouseButton, down: bool, timestamp_us: u64) -> (action: WindowAction)
    ensures
        action == button_event(button, down, timestamp_us),
{
    let number: u8 = button_number_of(button);
    if number == 0 {
        WindowAction::Nothing
    } else if down {
        WindowAction::Send(InputEvent::MouseButtonDown { button: number, timestamp_us })
    } else {
        WindowAction::Send(InputEvent::MouseButtonUp { button: number, timestamp_us })
    }
}

/// What the event loop knows.
#[derive(Debug, Clone, Copy, PartialEq, Eq, Structural)]
pub struct Controls {
    pub mouse_captured: bool,
    pub last_stats_ns: u64,
    pub last_title_ns: u64,
}

impl Controls {
    /// The state in which the event loop begins
    pub fn new(now_ns: u64) -> (controls: Self)
        ensures
            controls == (Controls {
                mouse_captured: false,
                last_stats_ns: now_ns,
                last_title_ns: now_ns,
            }),
    {
        Controls { mouse_captured: false, last_stats_ns: now_ns, last_title_ns: now_ns }
    }

    /// Handle an event of the window system
    pub fn handle(&mut self, event: WindowEvent, timestamp_us: u64) -> (action: WindowAction)
        requires
            old(self).mouse_captured ==> (event matches WindowEvent::MouseWheel { y } ==> i32::MIN
                <= y * WHEEL_NOTCH <= i32::MAX),
        ensures
            action == reaction(old(self).mouse_captured, event, timestamp_us),
            *final(self) == (Controls {
                mouse_captured: captured_after(old(self).mouse_captured, action),
                ..*old(self)
            }),
    {
        match event {
            WindowEvent::Quit => WindowAction::Quit,
            WindowEvent::KeyDown { scancode: Some(scancode), repeat: false } => {
                if scancode == Scancode::Escape && self.mouse_captured {
                    self.mouse_captured = false;
                    return WindowAction::ReleaseMouse;
                }
                if scancode == Scancode::F3 {
                    return WindowAction::ToggleOverlay;
                }
                if scancode == Scancode::F11 {
                    return WindowAction::Nothing;
                }
                if self.mouse_captured {
                    send_key(scancode, true, timestamp_us)
                } else {
                    WindowAction::Nothing
                }
            },
            WindowEvent::KeyUp { scancode: Some(scancode), repeat: false } => {
                if self.mouse_captured {
                    send_key(scancode, false, timestamp_us)
                } else {
                    WindowAction::Nothing
                }
            },
            WindowEvent::MouseButtonDown { button } => {
                if !self.mouse_captured {
                    self.mouse_captured = true;
                    return WindowAction::CaptureMouse;
                }
                send_button(button, true, timestamp_us)
            },
            WindowEvent::MouseButtonUp { button } => {
                if self.mouse_captured {
                    send_button(button, false, timestamp_us)
                } else {
                    WindowAction::Nothing
                }
            },
            WindowEvent::MouseMotion { xrel, yrel } => {
                if self.mouse_captured && (xrel != 0 || yrel != 0) {
                    WindowAction::Send(
                        InputEvent::MouseMove {
                            dx: low_word_of(xrel),
                            dy: low_word_of(yrel),
                            timestamp_us,
                        },
                    )
                } else {
                    WindowAction::Nothing
                }
            },
            WindowEvent::MouseWheel { y } => {
                if self.mouse_captured && y != 0 {
                    WindowAction::Send(
                        InputEvent::MouseWheel {
                            delta_x: 0,
                            delta_y: low_word_of(y * WHEEL_NOTCH),
                            timestamp_us,
                        },
                    )
                } else {
                    WindowAction::Nothing
                }
            },
            WindowEvent::FocusLost => {
                if self.mouse_captured {
                    self.mouse_captured = false;
                    WindowAction::ReleaseMouse
                } else {
                    WindowAction::Nothing
                }
            },
            WindowEvent::Resized { width, height } => {
                if width > 0 && height > 0 {
                    WindowAction::Resize { width: width as u32, height: height as u32 }
                } else {
                    WindowAction::Nothing
                }
            },
            _ => WindowAction::Nothing,
        }
    }

    /// Whether the figures are to be calculated now
    pub fn stats_due(&mut self, now_ns: u64) -> (due: bool)
        ensures
            due == (now_ns - old(self).last_stats_ns >= STATS_INTERVAL_NS),
            due <==> now_ns >= old(self).last_stats_ns + 100_000_000,
            *final(self) == if due {
                Controls { last_stats_ns: now_ns, ..*old(self) }
            } else {
                *old(self)
            },
    {
        if now_ns.saturating_sub(self.last_stats_ns) >= STATS_INTERVAL_NS {
            self.last_stats_ns = now_ns;
            true
        } else {
            false
        }
    }

    /// Whether the title of the window is to change now
    pub fn title_due(&mut self, now_ns: u64) -> (due: bool)
        ensures
            due == (now_ns - old(self).last_title_ns >= TITLE_INTERVAL_NS),
            due <==> now_ns >= old(self).last_title_ns + 250_000_000,
            *final(self) == if due {
                Controls { last_title_ns: now_ns, ..*old(self) }
            } else {
                *old(self)
            },
    {
        if now_ns.saturating_sub(self.last_title_ns) >= TITLE_INTERVAL_NS {
            self.last_title_ns = now_ns;
            true
        } else {
            false
        }
    }
}

/// Whether a new frame is shown: only where the window has a size
pub fn shows_frame(width: u32, height: u32) -> (shows: bool)
    ensures
        shows == (width > 0 && height > 0),
{
    width > 0 && height > 0
}

/// Whether a frame counts for the frame rate: it does once it is uploaded, even where
/// drawing it failed
#[allow(unused_variables)]
pub fn counts_as_shown(uploaded: bool, drawn: bool) -> (counts: bool)
    ensures
        counts == uploaded,
{
    uploaded
}

/// Direct input sender - turns input events into packets for the input channel
pub struct DirectInputSender {
    /// Input encoder
    pub encoder: InputEncoder,
    /// Send count
    pub send_count: u64,
}

impl DirectInputSender {
    pub fn new() -> (sender: Self)
        ensures
            sender.send_count == 0,
    {
        DirectInputSender { encoder: InputEncoder::new(), send_count: 0 }
    }

    /// Send input event directly: the packet, if the channel is open, which then counts
    pub fn send(
        &mut self,
        event: &InputEvent,
        channel: &InputChannel,
        open: bool,
        now_us: u64,
        stats: &mut StreamStats,
    ) -> (packet: Option<Bytes>)
        requires
            event.encodable(),
            channel.stored && open ==> old(self).send_count < u64::MAX,
        ensures
            match packet {
                Some(packet) => {
                    &&& channel.outgoing(open, now_us, event.packet()) == Some(content(packet))
                    &&& final(self).send_count == old(self).send_count + 1
                    &&& *final(stats) == (StreamStats {
                        input_packets_sent: final(self).send_count,
                        ..*old(stats)
                    })
                },
                None => {
                    &&& channel.outgoing(open, now_us, event.packet()) is None
                    &&& final(self).send_count == old(self).send_count
                    &&& *final(stats) == *old(stats)
                },
            },
    {
        let data = self.encoder.encode(event);
        match channel.packet(open, now_us, data.as_slice()) {
            Some(packet) => {
                self.send_count += 1;
                stats.input_packets_sent = self.send_count;
                Some(packet)
            },
            None => None,
        }
    }
}

/// Nothing goes to the server while the mouse is not captured.
pub proof fn input_needs_the_mouse(event: WindowEvent, timestamp_us: u64)
    ensures
        reaction(false, event, timestamp_us) !is Send,
{
}

/// While the mouse is captured, every key that the server knows reaches it, but for
/// the three that the window keeps for itself.
pub proof fn captured_keys_are_sent(scancode: Scancode, timestamp_us: u64)
    requires
        scancode !is Other,
        scancode !is Escape,
        scancode !is F3,
        scancode !is F11,
    ensures
        reaction(
            true,
            WindowEvent::KeyDown { scancode: Some(scancode), repeat: false },
            timestamp_us,
        ) is Send,
        reaction(
            true,
            WindowEvent::KeyUp { scancode: Some(scancode), repeat: false },
            timestamp_us,
        ) is Send,
{
    known_keys_have_codes(key_of(scancode), scancode);
}

/// A captured mouse can always be released, by the escape key and by turning to
/// another window, and a click captures it again.
pub proof fn capture_and_release(button: MouseButton, timestamp_us: u64)
    ensures
        !captured_after(
            true,
            reaction(
                true,
                WindowEvent::KeyDown { scancode: Some(Scancode::Escape), repeat: false },
                timestamp_us,
            ),
        ),
        !captured_after(true, reaction(true, WindowEvent::FocusLost, timestamp_us)),
        captured_after(
            false,
            reaction(false, WindowEvent::MouseButtonDown { button }, timestamp_us),
        ),
{
}

/// Movements that fit into 16 bits are sent as they are.
pub proof fn small_movements_are_exact(xrel: i16, yrel: i16, timestamp_us: u64)
    requires
        xrel != 0 || yrel != 0,
    ensures
        reaction(
            true,
            WindowEvent::MouseMotion { xrel: xrel as i32, yrel: yrel as i32 },
            timestamp_us,
        ) == WindowAction::Send(InputEvent::MouseMove { dx: xrel, dy: yrel, timestamp_us }),
{
}

/// Up to 273 notches of the wheel at a time are sent as they are.
pub proof fn small_wheel_turns_are_exact(y: i32, timestamp_us: u64)
    requires
        y != 0,
        -273 <= y <= 273,
    ensures
        reaction(true, WindowEvent::MouseWheel { y }, timestamp_us) == WindowAction::Send(
            InputEvent::MouseWheel { delta_x: 0, delta_y: (y * WHEEL_NOTCH) as i16, timestamp_us },
        ),
{
}

/// Whatever goes to the server can be encoded, but for turns of the wheel that come
/// out as the smallest number of 16 bits.
pub proof fn sent_events_are_encodable(captured: bool, event: WindowEvent, timestamp_us: u64)
    requires
        event matches WindowEvent::MouseWheel { y } ==> low_word(y * WHEEL_NOTCH) != i16::MIN,
    ensures
        reaction(captured, event, timestamp_us) matches WindowAction::Send(sent)
            ==> sent.encodable(),
{
}

/// While the mouse is captured, a key goes out with the codes that the table has for it
/// and without modifiers, and a button with its number, from one for the left one to
/// five; a button without a number goes nowhere.
pub proof fn keys_and_buttons_keep_their_codes(
    scancode: Scancode,
    button: MouseButton,
    timestamp_us: u64,
)
    requires
        scancode !is Other,
    ensures
        ({
            let (keycode, code) = scancode_codes(scancode);
            let down = WindowEvent::KeyDown { scancode: Some(scancode), repeat: false };
            let up = WindowEvent::KeyUp { scancode: Some(scancode), repeat: false };
            &&& scancode !is Escape && scancode !is F3 && scancode !is F11 ==> reaction(
                true,
                down,
                timestamp_us,
            ) == WindowAction::Send(
                InputEvent::KeyDown { keycode, scancode: code, modifiers: 0, timestamp_us },
            )
            &&& reaction(true, up, timestamp_us) == WindowAction::Send(
                InputEvent::KeyUp { keycode, scancode: code, modifiers: 0, timestamp_us },
            )
        }),
        ({
            let number = match button {
                MouseButton::Left => 1u8,
                MouseButton::Right => 2,
                MouseButton::Middle => 3,
                MouseButton::X1 => 4,
                MouseButton::X2 => 5,
                MouseButton::Other => 0,
            };
            let down = reaction(true, WindowEvent::MouseButtonDown { button }, timestamp_us);
            let up = reaction(true, WindowEvent::MouseButtonUp { button }, timestamp_us);
            &&& button_number(button) == number
            &&& number > 0 ==> down == WindowAction::Send(
                InputEvent::MouseButtonDown { button: number, timestamp_us },
            )
            &&& number > 0 ==> up == WindowAction::Send(
                InputEvent::MouseButtonUp { button: number, timestamp_us },
            )
            &&& number == 0 ==> down is Nothing && up is Nothing
        }),
{
    known_keys_have_codes(key_of(scancode), scancode);
}

/// Distances go out as the 16-bit numbers that are congruent to them, and the wheel as
/// 120 for each notch; without a distance nothing goes out.
pub proof fn distances_are_congruent(xrel: i32, yrel: i32, y: i32, timestamp_us: u64)
    ensures
        xrel != 0 || yrel != 0 ==> (reaction(
            true,
            WindowEvent::MouseMotion { xrel, yrel },
            timestamp_us,
        ) matches WindowAction::Send(InputEvent::MouseMove { dx, dy, timestamp_us: t }) && (dx
            - xrel) % 65536 == 0 && (dy - yrel) % 65536 == 0 && t == timestamp_us),
        y != 0 ==> (reaction(true, WindowEvent::MouseWheel { y }, timestamp_us) matches
            WindowAction::Send(InputEvent::MouseWheel { delta_x, delta_y, timestamp_us: t })
            && delta_x == 0 && (delta_y - 120 * y) % 65536 == 0 && t == timestamp_us),
        reaction(true, WindowEvent::MouseMotion { xrel: 0, yrel: 0 }, timestamp_us) is Nothing,
        reaction(true, WindowEvent::MouseWheel { y: 0 }, timestamp_us) is Nothing,
{
}

/// What the window keeps for itself happens whether or not the mouse is captured: F3
/// toggles the overlay, F11 does nothing, a window with a size is taken over, and
/// quitting quits. A key that repeats, or that has no name, never does anything.
pub proof fn window_events_are_handled(
    captured: bool,
    scancode: Option<Scancode>,
    width: i32,
    height: i32,
    timestamp_us: u64,
)
    ensures
        reaction(
            captured,
            WindowEvent::KeyDown { scancode: Some(Scancode::F3), repeat: false },
            timestamp_us,
        ) is ToggleOverlay,
        reaction(
            captured,
            WindowEvent::KeyDown { scancode: Some(Scancode::F11), repeat: false },
            timestamp_us,
        ) is Nothing,
        reaction(captured, WindowEvent::KeyDown { scancode, repeat: true }, timestamp_us)
            is Nothing,
        reaction(captured, WindowEvent::KeyUp { scancode, repeat: true }, timestamp_us) is Nothing,
        reaction(captured, WindowEvent::KeyDown { scancode: None, repeat: false }, timestamp_us)
            is Nothing,
        reaction(captured, WindowEvent::KeyUp { scancode: None, repeat: false }, timestamp_us)
            is Nothing,
        reaction(captured, WindowEvent::Quit, timestamp_us) is Quit,
        reaction(captured, WindowEvent::Other, timestamp_us) is Nothing,
        width > 0 && height > 0 ==> reaction(
            captured,
            WindowEvent::Resized { width, height },
            timestamp_us,
        ) == (WindowAction::Resize { width: width as u32, height: height as u32 }),
        width <= 0 || height <= 0 ==> reaction(
            captured,
            WindowEvent::Resized { width, height },
            timestamp_us,
        ) is Nothing,
{
}

/// Whether the mouse is captured changes by nothing but capturing and releasing: a
/// click captures a free mouse, and only the escape key and another window release a
/// captured one.
pub proof fn only_clicks_capture_and_only_leaving_releases(
    captured: bool,
    event: WindowEvent,
    timestamp_us: u64,
)
    ensures
        ({
            let after = captured_after(captured, reaction(captured, event, timestamp_us));
            &&& !captured ==> (after <==> event is MouseButtonDown)
            &&& captured ==> (after <==> !(event is FocusLost || event
                == (WindowEvent::KeyDown { scancode: Some(Scancode::Escape), repeat: false })))
            &&& reaction(captured, event, timestamp_us) is CaptureMouse ==> !captured
            &&& reaction(captured, event, timestamp_us) is ReleaseMouse ==> captured
        }),
{
}

} // verus!
