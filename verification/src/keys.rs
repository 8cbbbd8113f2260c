//! Keys, and the codes that the server knows them by.
//!
//! The server takes a Windows virtual-key code and a hardware scan code. Keys come
//! in under the names of two libraries, and both tables agree on the keys that they
//! share.

use vstd::prelude::*;

verus! {

/// A key by its position on the keyboard.
#[derive(Debug, Clone, Copy, PartialEq, Eq, Structural)]
pub enum KeyCode {
    KeyA,
    KeyB,
    KeyC,
    KeyD,
    KeyE,
    KeyF,
    KeyG,
    KeyH,
    KeyI,
    KeyJ,
    KeyK,
    KeyL,
    KeyM,
    KeyN,
    KeyO,
    KeyP,
    KeyQ,
    KeyR,
    KeyS,
    KeyT,
    KeyU,
    KeyV,
    KeyW,
    KeyX,
    KeyY,
    KeyZ,
    Digit0,
    Digit1,
    Digit2,
    Digit3,
    Digit4,
    Digit5,
    Digit6,
    Digit7,
    Digit8,
    Digit9,
    F1,
    F2,
    F3,
    F4,
    F5,
    F6,
    F7,
    F8,
    F9,
    F10,
    F11,
    F12,
    Escape,
    Tab,
    CapsLock,
    ShiftLeft,
    ShiftRight,
    ControlLeft,
    ControlRight,
    AltLeft,
    AltRight,
    SuperLeft,
    SuperRight,
    Space,
    Enter,
    Backspace,
    Insert,
    Delete,
    Home,
    End,
    PageUp,
    PageDown,
    ArrowUp,
    ArrowDown,
    ArrowLeft,
    ArrowRight,
    NumLock,
    Numpad0,
    Numpad1,
    Numpad2,
    Numpad3,
    Numpad4,
    Numpad5,
    Numpad6,
    Numpad7,
    Numpad8,
    Numpad9,
    NumpadAdd,
    NumpadSubtract,
    NumpadMultiply,
    NumpadDivide,
    NumpadDecimal,
    NumpadEnter,
    Minus,
    Equal,
    BracketLeft,
    BracketRight,
    Backslash,
    Semicolon,
    Quote,
    Backquote,
    Comma,
    Period,
    Slash,
    PrintScreen,
    ScrollLock,
    Pause,
    /// Any other key.
    Other,
}

/// A key as the window system reports it.
#[derive(Debug, Clone, Copy, PartialEq, Eq, Structural)]
pub enum Scancode {
    A,
    B,
    C,
    D,
    E,
    F,
    G,
    H,
    I,
    J,
    K,
    L,
    M,
    N,
    O,
    P,
    Q,
    R,
    S,
    T,
    U,
    V,
    W,
    X,
    Y,
    Z,
    Num1,
    Num2,
    Num3,
    Num4,
    Num5,
    Num6,
    Num7,
    Num8,
    Num9,
    Num0,
    Return,
    Escape,
    Backspace,
    Tab,
    Space,
    LShift,
    RShift,
    LCtrl,
    RCtrl,
    LAlt,
    RAlt,
    Left,
    Right,
    Up,
    Down,
    F1,
    F2,
    F3,
    F4,
    F5,
    F6,
    F7,
    F8,
    F9,
    F10,
    F11,
    F12,
    /// Any other key.
    Other,
}

/// The virtual-key code and the scan code of a key, or zeros.
pub open spec fn key_codes(keycode: KeyCode) -> (u16, u16) {
    match keycode {
        KeyCode::KeyA => (0x41, 0x1E),
        KeyCode::KeyB => (0x42, 0x30),
        KeyCode::KeyC => (0x43, 0x2E),
        KeyCode::KeyD => (0x44, 0x20),
        KeyCode::KeyE => (0x45, 0x12),
        KeyCode::KeyF => (0x46, 0x21),
        KeyCode::KeyG => (0x47, 0x22),
        KeyCode::KeyH => (0x48, 0x23),
        KeyCode::KeyI => (0x49, 0x17),
        KeyCode::KeyJ => (0x4A, 0x24),
        KeyCode::KeyK => (0x4B, 0x25),
        KeyCode::KeyL => (0x4C, 0x26),
        KeyCode::KeyM => (0x4D, 0x32),
        KeyCode::KeyN => (0x4E, 0x31),
        KeyCode::KeyO => (0x4F, 0x18),
        KeyCode::KeyP => (0x50, 0x19),
        KeyCode::KeyQ => (0x51, 0x10),
        KeyCode::KeyR => (0x52, 0x13),
        KeyCode::KeyS => (0x53, 0x1F),
        KeyCode::KeyT => (0x54, 0x14),
        KeyCode::KeyU => (0x55, 0x16),
        KeyCode::KeyV => (0x56, 0x2F),
        KeyCode::KeyW => (0x57, 0x11),
        KeyCode::KeyX => (0x58, 0x2D),
        KeyCode::KeyY => (0x59, 0x15),
        KeyCode::KeyZ => (0x5A, 0x2C),
        KeyCode::Digit0 => (0x30, 0x0B),
        KeyCode::Digit1 => (0x31, 0x02),
        KeyCode::Digit2 => (0x32, 0x03),
        KeyCode::Digit3 => (0x33, 0x04),
        KeyCode::Digit4 => (0x34, 0x05),
        KeyCode::Digit5 => (0x35, 0x06),
        KeyCode::Digit6 => (0x36, 0x07),
        KeyCode::Digit7 => (0x37, 0x08),
        KeyCode::Digit8 => (0x38, 0x09),
        KeyCode::Digit9 => (0x39, 0x0A),
        KeyCode::F1 => (0x70, 0x3B),
        KeyCode::F2 => (0x71, 0x3C),
        KeyCode::F3 => (0x72, 0x3D),
        KeyCode::F4 => (0x73, 0x3E),
        KeyCode::F5 => (0x74, 0x3F),
        KeyCode::F6 => (0x75, 0x40),
        KeyCode::F7 => (0x76, 0x41),
        KeyCode::F8 => (0x77, 0x42),
        KeyCode::F9 => (0x78, 0x43),
        KeyCode::F10 => (0x79, 0x44),
        KeyCode::F11 => (0x7A, 0x57),
        KeyCode::F12 => (0x7B, 0x58),
        KeyCode::Escape => (0x1B, 0x01),
        KeyCode::Tab => (0x09, 0x0F),
        KeyCode::CapsLock => (0x14, 0x3A),
        KeyCode::ShiftLeft => (0x10, 0x2A),
        KeyCode::ShiftRight => (0x10, 0x36),
        KeyCode::ControlLeft => (0x11, 0x1D),
        KeyCode::ControlRight => (0x11, 0x1D),
        KeyCode::AltLeft => (0x12, 0x38),
        KeyCode::AltRight => (0x12, 0x38),
        KeyCode::SuperLeft => (0x5B, 0x5B),
        KeyCode::SuperRight => (0x5C, 0x5C),
        KeyCode::Space => (0x20, 0x39),
        KeyCode::Enter => (0x0D, 0x1C),
        KeyCode::Backspace => (0x08, 0x0E),
        KeyCode::Insert => (0x2D, 0x52),
        KeyCode::Delete => (0x2E, 0x53),
        KeyCode::Home => (0x24, 0x47),
        KeyCode::End => (0x23, 0x4F),
        KeyCode::PageUp => (0x21, 0x49),
        KeyCode::PageDown => (0x22, 0x51),
        KeyCode::ArrowUp => (0x26, 0x48),
        KeyCode::ArrowDown => (0x28, 0x50),
        KeyCode::ArrowLeft => (0x25, 0x4B),
        KeyCode::ArrowRight => (0x27, 0x4D),
        KeyCode::NumLock => (0x90, 0x45),
        KeyCode::Numpad0 => (0x60, 0x52),
        KeyCode::Numpad1 => (0x61, 0x4F),
        KeyCode::Numpad2 => (0x62, 0x50),
        KeyCode::Numpad3 => (0x63, 0x51),
        KeyCode::Numpad4 => (0x64, 0x4B),
        KeyCode::Numpad5 => (0x65, 0x4C),
        KeyCode::Numpad6 => (0x66, 0x4D),
        KeyCode::Numpad7 => (0x67, 0x47),
        KeyCode::Numpad8 => (0x68, 0x48),
        KeyCode::Numpad9 => (0x69, 0x49),
        KeyCode::NumpadAdd => (0x6B, 0x4E),
        KeyCode::NumpadSubtract => (0x6D, 0x4A),
        KeyCode::NumpadMultiply => (0x6A, 0x37),
        KeyCode::NumpadDivide => (0x6F, 0x35),
        KeyCode::NumpadDecimal => (0x6E, 0x53),
        KeyCode::NumpadEnter => (0x0D, 0x1C),
        KeyCode::Minus => (0xBD, 0x0C),
        KeyCode::Equal => (0xBB, 0x0D),
        KeyCode::BracketLeft => (0xDB, 0x1A),
        KeyCode::BracketRight => (0xDD, 0x1B),
        KeyCode::Backslash => (0xDC, 0x2B),
        KeyCode::Semicolon => (0xBA, 0x27),
        KeyCode::Quote => (0xDE, 0x28),
        KeyCode::Backquote => (0xC0, 0x29),
        KeyCode::Comma => (0xBC, 0x33),
        KeyCode::Period => (0xBE, 0x34),
        KeyCode::Slash => (0xBF, 0x35),
        KeyCode::PrintScreen => (0x2C, 0x37),
        KeyCode::ScrollLock => (0x91, 0x46),
        KeyCode::Pause => (0x13, 0x45),
        KeyCode::Other => (0, 0),
    }
}

/// Convert a key to Windows Virtual Key code and scan code
pub fn keycode_to_vk_scan(keycode: KeyCode) -> (codes: (u16, u16))
    ensures
        codes == key_codes(keycode),
{
    match keycode {
        KeyCode::KeyA => (0x41, 0x1E),
        KeyCode::KeyB => (0x42, 0x30),
        KeyCode::KeyC => (0x43, 0x2E),
        KeyCode::KeyD => (0x44, 0x20),
        KeyCode::KeyE => (0x45, 0x12),
        KeyCode::KeyF => (0x46, 0x21),
        KeyCode::KeyG => (0x47, 0x22),
        KeyCode::KeyH => (0x48, 0x23),
        KeyCode::KeyI => (0x49, 0x17),
        KeyCode::KeyJ => (0x4A, 0x24),
        KeyCode::KeyK => (0x4B, 0x25),
        KeyCode::KeyL => (0x4C, 0x26),
        KeyCode::KeyM => (0x4D, 0x32),
        KeyCode::KeyN => (0x4E, 0x31),
        KeyCode::KeyO => (0x4F, 0x18),
        KeyCode::KeyP => (0x50, 0x19),
        KeyCode::KeyQ => (0x51, 0x10),
        KeyCode::KeyR => (0x52, 0x13),
        KeyCode::KeyS => (0x53, 0x1F),
        KeyCode::KeyT => (0x54, 0x14),
        KeyCode::KeyU => (0x55, 0x16),
        KeyCode::KeyV => (0x56, 0x2F),
        KeyCode::KeyW => (0x57, 0x11),
        KeyCode::KeyX => (0x58, 0x2D),
        KeyCode::KeyY => (0x59, 0x15),
        KeyCode::KeyZ => (0x5A, 0x2C),
        KeyCode::Digit0 => (0x30, 0x0B),
        KeyCode::Digit1 => (0x31, 0x02),
        KeyCode::Digit2 => (0x32, 0x03),
        KeyCode::Digit3 => (0x33, 0x04),
        KeyCode::Digit4 => (0x34, 0x05),
        KeyCode::Digit5 => (0x35, 0x06),
        KeyCode::Digit6 => (0x36, 0x07),
        KeyCode::Digit7 => (0x37, 0x08),
        KeyCode::Digit8 => (0x38, 0x09),
        KeyCode::Digit9 => (0x39, 0x0A),
        KeyCode::F1 => (0x70, 0x3B),
        KeyCode::F2 => (0x71, 0x3C),
        KeyCode::F3 => (0x72, 0x3D),
        KeyCode::F4 => (0x73, 0x3E),
        KeyCode::F5 => (0x74, 0x3F),
        KeyCode::F6 => (0x75, 0x40),
        KeyCode::F7 => (0x76, 0x41),
        KeyCode::F8 => (0x77, 0x42),
        KeyCode::F9 => (0x78, 0x43),
        KeyCode::F10 => (0x79, 0x44),
        KeyCode::F11 => (0x7A, 0x57),
        KeyCode::F12 => (0x7B, 0x58),
        KeyCode::Escape => (0x1B, 0x01),
        KeyCode::Tab => (0x09, 0x0F),
        KeyCode::CapsLock => (0x14, 0x3A),
        KeyCode::ShiftLeft => (0x10, 0x2A),
        KeyCode::ShiftRight => (0x10, 0x36),
        KeyCode::ControlLeft => (0x11, 0x1D),
        KeyCode::ControlRight => (0x11, 0x1D),
        KeyCode::AltLeft => (0x12, 0x38),
        KeyCode::AltRight => (0x12, 0x38),
        KeyCode::SuperLeft => (0x5B, 0x5B),
        KeyCode::SuperRight => (0x5C, 0x5C),
        KeyCode::Space => (0x20, 0x39),
        KeyCode::Enter => (0x0D, 0x1C),
        KeyCode::Backspace => (0x08, 0x0E),
        KeyCode::Insert => (0x2D, 0x52),
        KeyCode::Delete => (0x2E, 0x53),
        KeyCode::Home => (0x24, 0x47),
        KeyCode::End => (0x23, 0x4F),
        KeyCode::PageUp => (0x21, 0x49),
        KeyCode::PageDown => (0x22, 0x51),
        KeyCode::ArrowUp => (0x26, 0x48),
        KeyCode::ArrowDown => (0x28, 0x50),
        KeyCode::ArrowLeft => (0x25, 0x4B),
        KeyCode::ArrowRight => (0x27, 0x4D),
        KeyCode::NumLock => (0x90, 0x45),
        KeyCode::Numpad0 => (0x60, 0x52),
        KeyCode::Numpad1 => (0x61, 0x4F),
        KeyCode::Numpad2 => (0x62, 0x50),
        KeyCode::Numpad3 => (0x63, 0x51),
        KeyCode::Numpad4 => (0x64, 0x4B),
        KeyCode::Numpad5 => (0x65, 0x4C),
        KeyCode::Numpad6 => (0x66, 0x4D),
        KeyCode::Numpad7 => (0x67, 0x47),
        KeyCode::Numpad8 => (0x68, 0x48),
        KeyCode::Numpad9 => (0x69, 0x49),
        KeyCode::NumpadAdd => (0x6B, 0x4E),
        KeyCode::NumpadSubtract => (0x6D, 0x4A),
        KeyCode::NumpadMultiply => (0x6A, 0x37),
        KeyCode::NumpadDivide => (0x6F, 0x35),
        KeyCode::NumpadDecimal => (0x6E, 0x53),
        KeyCode::NumpadEnter => (0x0D, 0x1C),
        KeyCode::Minus => (0xBD, 0x0C),
        KeyCode::Equal => (0xBB, 0x0D),
        KeyCode::BracketLeft => (0xDB, 0x1A),
        KeyCode::BracketRight => (0xDD, 0x1B),
        KeyCode::Backslash => (0xDC, 0x2B),
        KeyCode::Semicolon => (0xBA, 0x27),
        KeyCode::Quote => (0xDE, 0x28),
        KeyCode::Backquote => (0xC0, 0x29),
        KeyCode::Comma => (0xBC, 0x33),
        KeyCode::Period => (0xBE, 0x34),
        KeyCode::Slash => (0xBF, 0x35),
        KeyCode::PrintScreen => (0x2C, 0x37),
        KeyCode::ScrollLock => (0x91, 0x46),
        KeyCode::Pause => (0x13, 0x45),
        KeyCode::Other => (0, 0),
    }
}

/// The virtual-key code and the scan code of a key, or zeros.
pub open spec fn scancode_codes(scancode: Scancode) -> (u16, u16) {
    match scancode {
        Scancode::A => (0x41, 0x1E),
        Scancode::B => (0x42, 0x30),
        Scancode::C => (0x43, 0x2E),
        Scancode::D => (0x44, 0x20),
        Scancode::E => (0x45, 0x12),
        Scancode::F => (0x46, 0x21),
        Scancode::G => (0x47, 0x22),
        Scancode::H => (0x48, 0x23),
        Scancode::I => (0x49, 0x17),
        Scancode::J => (0x4A, 0x24),
        Scancode::K => (0x4B, 0x25),
        Scancode::L => (0x4C, 0x26),
        Scancode::M => (0x4D, 0x32),
        Scancode::N => (0x4E, 0x31),
        Scancode::O => (0x4F, 0x18),
        Scancode::P => (0x50, 0x19),
        Scancode::Q => (0x51, 0x10),
        Scancode::R => (0x52, 0x13),
        Scancode::S => (0x53, 0x1F),
        Scancode::T => (0x54, 0x14),
        Scancode::U => (0x55, 0x16),
        Scancode::V => (0x56, 0x2F),
        Scancode::W => (0x57, 0x11),
        Scancode::X => (0x58, 0x2D),
        Scancode::Y => (0x59, 0x15),
        Scancode::Z => (0x5A, 0x2C),
        Scancode::Num1 => (0x31, 0x02),
        Scancode::Num2 => (0x32, 0x03),
        Scancode::Num3 => (0x33, 0x04),
        Scancode::Num4 => (0x34, 0x05),
        Scancode::Num5 => (0x35, 0x06),
        Scancode::Num6 => (0x36, 0x07),
        Scancode::Num7 => (0x37, 0x08),
        Scancode::Num8 => (0x38, 0x09),
        Scancode::Num9 => (0x39, 0x0A),
        Scancode::Num0 => (0x30, 0x0B),
        Scancode::Return => (0x0D, 0x1C),
        Scancode::Escape => (0x1B, 0x01),
        Scancode::Backspace => (0x08, 0x0E),
        Scancode::Tab => (0x09, 0x0F),
        Scancode::Space => (0x20, 0x39),
        Scancode::LShift => (0x10, 0x2A),
        Scancode::RShift => (0x10, 0x36),
        Scancode::LCtrl => (0x11, 0x1D),
        Scancode::RCtrl => (0x11, 0x1D),
        Scancode::LAlt => (0x12, 0x38),
        Scancode::RAlt => (0x12, 0x38),
        Scancode::Left => (0x25, 0x4B),
        Scancode::Right => (0x27, 0x4D),
        Scancode::Up => (0x26, 0x48),
        Scancode::Down => (0x28, 0x50),
        Scancode::F1 => (0x70, 0x3B),
        Scancode::F2 => (0x71, 0x3C),
        Scancode::F3 => (0x72, 0x3D),
        Scancode::F4 => (0x73, 0x3E),
        Scancode::F5 => (0x74, 0x3F),
        Scancode::F6 => (0x75, 0x40),
        Scancode::F7 => (0x76, 0x41),
        Scancode::F8 => (0x77, 0x42),
        Scancode::F9 => (0x78, 0x43),
        Scancode::F10 => (0x79, 0x44),
        Scancode::F11 => (0x7A, 0x57),
        Scancode::F12 => (0x7B, 0x58),
        Scancode::Other => (0, 0),
    }
}

/// Convert a scancode to Windows virtual key and scan code
pub fn sdl_scancode_to_vk(scancode: Scancode) -> (codes: (u16, u16))
    ensures
        codes == scancode_codes(scancode),
{
    match scancode {
        Scancode::A => (0x41, 0x1E),
        Scancode::B => (0x42, 0x30),
        Scancode::C => (0x43, 0x2E),
        Scancode::D => (0x44, 0x20),
        Scancode::E => (0x45, 0x12),
        Scancode::F => (0x46, 0x21),
        Scancode::G => (0x47, 0x22),
        Scancode::H => (0x48, 0x23),
        Scancode::I => (0x49, 0x17),
        Scancode::J => (0x4A, 0x24),
        Scancode::K => (0x4B, 0x25),
        Scancode::L => (0x4C, 0x26),
        Scancode::M => (0x4D, 0x32),
        Scancode::N => (0x4E, 0x31),
        Scancode::O => (0x4F, 0x18),
        Scancode::P => (0x50, 0x19),
        Scancode::Q => (0x51, 0x10),
        Scancode::R => (0x52, 0x13),
        Scancode::S => (0x53, 0x1F),
        Scancode::T => (0x54, 0x14),
        Scancode::U => (0x55, 0x16),
        Scancode::V => (0x56, 0x2F),
        Scancode::W => (0x57, 0x11),
        Scancode::X => (0x58, 0x2D),
        Scancode::Y => (0x59, 0x15),
        Scancode::Z => (0x5A, 0x2C),
        Scancode::Num1 => (0x31, 0x02),
        Scancode::Num2 => (0x32, 0x03),
        Scancode::Num3 => (0x33, 0x04),
        Scancode::Num4 => (0x34, 0x05),
        Scancode::Num5 => (0x35, 0x06),
        Scancode::Num6 => (0x36, 0x07),
        Scancode::Num7 => (0x37, 0x08),
        Scancode::Num8 => (0x38, 0x09),
        Scancode::Num9 => (0x39, 0x0A),
        Scancode::Num0 => (0x30, 0x0B),
        Scancode::Return => (0x0D, 0x1C),
        Scancode::Escape => (0x1B, 0x01),
        Scancode::Backspace => (0x08, 0x0E),
        Scancode::Tab => (0x09, 0x0F),
        Scancode::Space => (0x20, 0x39),
        Scancode::LShift => (0x10, 0x2A),
        Scancode::RShift => (0x10, 0x36),
        Scancode::LCtrl => (0x11, 0x1D),
        Scancode::RCtrl => (0x11, 0x1D),
        Scancode::LAlt => (0x12, 0x38),
        Scancode::RAlt => (0x12, 0x38),
        Scancode::Left => (0x25, 0x4B),
        Scancode::Right => (0x27, 0x4D),
        Scancode::Up => (0x26, 0x48),
        Scancode::Down => (0x28, 0x50),
        Scancode::F1 => (0x70, 0x3B),
        Scancode::F2 => (0x71, 0x3C),
        Scancode::F3 => (0x72, 0x3D),
        Scancode::F4 => (0x73, 0x3E),
        Scancode::F5 => (0x74, 0x3F),
        Scancode::F6 => (0x75, 0x40),
        Scancode::F7 => (0x76, 0x41),
        Scancode::F8 => (0x77, 0x42),
        Scancode::F9 => (0x78, 0x43),
        Scancode::F10 => (0x79, 0x44),
        Scancode::F11 => (0x7A, 0x57),
        Scancode::F12 => (0x7B, 0x58),
        Scancode::Other => (0, 0),
    }
}

/// The key that a scancode stands for.
pub open spec fn key_of(scancode: Scancode) -> KeyCode {
    match scancode {
        Scancode::A => KeyCode::KeyA,
        Scancode::B => KeyCode::KeyB,
        Scancode::C => KeyCode::KeyC,
        Scancode::D => KeyCode::KeyD,
        Scancode::E => KeyCode::KeyE,
        Scancode::F => KeyCode::KeyF,
        Scancode::G => KeyCode::KeyG,
        Scancode::H => KeyCode::KeyH,
        Scancode::I => KeyCode::KeyI,
        Scancode::J => KeyCode::KeyJ,
        Scancode::K => KeyCode::KeyK,
        Scancode::L => KeyCode::KeyL,
        Scancode::M => KeyCode::KeyM,
        Scancode::N => KeyCode::KeyN,
        Scancode::O => KeyCode::KeyO,
        Scancode::P => KeyCode::KeyP,
        Scancode::Q => KeyCode::KeyQ,
        Scancode::R => KeyCode::KeyR,
        Scancode::S => KeyCode::KeyS,
        Scancode::T => KeyCode::KeyT,
        Scancode::U => KeyCode::KeyU,
        Scancode::V => KeyCode::KeyV,
        Scancode::W => KeyCode::KeyW,
        Scancode::X => KeyCode::KeyX,
        Scancode::Y => KeyCode::KeyY,
        Scancode::Z => KeyCode::KeyZ,
        Scancode::Num1 => KeyCode::Digit1,
        Scancode::Num2 => KeyCode::Digit2,
        Scancode::Num3 => KeyCode::Digit3,
        Scancode::Num4 => KeyCode::Digit4,
        Scancode::Num5 => KeyCode::Digit5,
        Scancode::Num6 => KeyCode::Digit6,
        Scancode::Num7 => KeyCode::Digit7,
        Scancode::Num8 => KeyCode::Digit8,
        Scancode::Num9 => KeyCode::Digit9,
        Scancode::Num0 => KeyCode::Digit0,
        Scancode::Return => KeyCode::Enter,
        Scancode::Escape => KeyCode::Escape,
        Scancode::Backspace => KeyCode::Backspace,
        Scancode::Tab => KeyCode::Tab,
        Scancode::Space => KeyCode::Space,
        Scancode::LShift => KeyCode::ShiftLeft,
        Scancode::RShift => KeyCode::ShiftRight,
        Scancode::LCtrl => KeyCode::ControlLeft,
        Scancode::RCtrl => KeyCode::ControlRight,
        Scancode::LAlt => KeyCode::AltLeft,
        Scancode::RAlt => KeyCode::AltRight,
        Scancode::Left => KeyCode::ArrowLeft,
        Scancode::Right => KeyCode::ArrowRight,
        Scancode::Up => KeyCode::ArrowUp,
        Scancode::Down => KeyCode::ArrowDown,
        Scancode::F1 => KeyCode::F1,
        Scancode::F2 => KeyCode::F2,
        Scancode::F3 => KeyCode::F3,
        Scancode::F4 => KeyCode::F4,
        Scancode::F5 => KeyCode::F5,
        Scancode::F6 => KeyCode::F6,
        Scancode::F7 => KeyCode::F7,
        Scancode::F8 => KeyCode::F8,
        Scancode::F9 => KeyCode::F9,
        Scancode::F10 => KeyCode::F10,
        Scancode::F11 => KeyCode::F11,
        Scancode::F12 => KeyCode::F12,
        Scancode::Other => KeyCode::Other,
    }
}

/// Both tables give the same codes for the same key.
pub proof fn tables_agree(scancode: Scancode)
    ensures
        scancode_codes(scancode) == key_codes(key_of(scancode)),
{
}

/// Exactly the keys that have a virtual-key code have a scan code, and those are all
/// that are known by name.
pub proof fn known_keys_have_codes(keycode: KeyCode, scancode: Scancode)
    ensures
        key_codes(keycode).0 == 0 <==> keycode is Other,
        key_codes(keycode).1 == 0 <==> keycode is Other,
        scancode_codes(scancode).0 == 0 <==> scancode is Other,
        scancode_codes(scancode).1 == 0 <==> scancode is Other,
{
}

/// The letters, from A to Z.
pub open spec fn letters() -> Seq<KeyCode> {
    seq![
        KeyCode::KeyA,
        KeyCode::KeyB,
        KeyCode::KeyC,
        KeyCode::KeyD,
        KeyCode::KeyE,
        KeyCode::KeyF,
        KeyCode::KeyG,
        KeyCode::KeyH,
        KeyCode::KeyI,
        KeyCode::KeyJ,
        KeyCode::KeyK,
        KeyCode::KeyL,
        KeyCode::KeyM,
        KeyCode::KeyN,
        KeyCode::KeyO,
        KeyCode::KeyP,
        KeyCode::KeyQ,
        KeyCode::KeyR,
        KeyCode::KeyS,
        KeyCode::KeyT,
        KeyCode::KeyU,
        KeyCode::KeyV,
        KeyCode::KeyW,
        KeyCode::KeyX,
        KeyCode::KeyY,
        KeyCode::KeyZ,
    ]
}

/// The digits above the letters, from 0 to 9.
pub open spec fn digits() -> Seq<KeyCode> {
    seq![
        KeyCode::Digit0,
        KeyCode::Digit1,
        KeyCode::Digit2,
        KeyCode::Digit3,
        KeyCode::Digit4,
        KeyCode::Digit5,
        KeyCode::Digit6,
        KeyCode::Digit7,
        KeyCode::Digit8,
        KeyCode::Digit9,
    ]
}

/// The function keys, from F1 to F12.
pub open spec fn function_keys() -> Seq<KeyCode> {
    seq![
        KeyCode::F1,
        KeyCode::F2,
        KeyCode::F3,
        KeyCode::F4,
        KeyCode::F5,
        KeyCode::F6,
        KeyCode::F7,
        KeyCode::F8,
        KeyCode::F9,
        KeyCode::F10,
        KeyCode::F11,
        KeyCode::F12,
    ]
}

/// The digits of the number pad, from 0 to 9.
pub open spec fn numpad_digits() -> Seq<KeyCode> {
    seq![
        KeyCode::Numpad0,
        KeyCode::Numpad1,
        KeyCode::Numpad2,
        KeyCode::Numpad3,
        KeyCode::Numpad4,
        KeyCode::Numpad5,
        KeyCode::Numpad6,
        KeyCode::Numpad7,
        KeyCode::Numpad8,
        KeyCode::Numpad9,
    ]
}

/// The keys in the order in which the keyboard numbers them.
pub open spec fn keyboard() -> Seq<KeyCode> {
    seq![
        KeyCode::Escape,
        KeyCode::Digit1,
        KeyCode::Digit2,
        KeyCode::Digit3,
        KeyCode::Digit4,
        KeyCode::Digit5,
        KeyCode::Digit6,
        KeyCode::Digit7,
        KeyCode::Digit8,
        KeyCode::Digit9,
        KeyCode::Digit0,
        KeyCode::Minus,
        KeyCode::Equal,
        KeyCode::Backspace,
        KeyCode::Tab,
        KeyCode::KeyQ,
        KeyCode::KeyW,
        KeyCode::KeyE,
        KeyCode::KeyR,
        KeyCode::KeyT,
        KeyCode::KeyY,
        KeyCode::KeyU,
        KeyCode::KeyI,
        KeyCode::KeyO,
        KeyCode::KeyP,
        KeyCode::BracketLeft,
        KeyCode::BracketRight,
        KeyCode::Enter,
        KeyCode::ControlLeft,
        KeyCode::KeyA,
        KeyCode::KeyS,
        KeyCode::KeyD,
        KeyCode::KeyF,
        KeyCode::KeyG,
        KeyCode::KeyH,
        KeyCode::KeyJ,
        KeyCode::KeyK,
        KeyCode::KeyL,
        KeyCode::Semicolon,
        KeyCode::Quote,
        KeyCode::Backquote,
        KeyCode::ShiftLeft,
        KeyCode::Backslash,
        KeyCode::KeyZ,
        KeyCode::KeyX,
        KeyCode::KeyC,
        KeyCode::KeyV,
        KeyCode::KeyB,
        KeyCode::KeyN,
        KeyCode::KeyM,
        KeyCode::Comma,
        KeyCode::Period,
        KeyCode::Slash,
        KeyCode::ShiftRight,
        KeyCode::NumpadMultiply,
        KeyCode::AltLeft,
        KeyCode::Space,
        KeyCode::CapsLock,
        KeyCode::F1,
        KeyCode::F2,
        KeyCode::F3,
        KeyCode::F4,
        KeyCode::F5,
        KeyCode::F6,
        KeyCode::F7,
        KeyCode::F8,
        KeyCode::F9,
        KeyCode::F10,
        KeyCode::NumLock,
        KeyCode::ScrollLock,
        KeyCode::Numpad7,
        KeyCode::Numpad8,
        KeyCode::Numpad9,
        KeyCode::NumpadSubtract,
        KeyCode::Numpad4,
        KeyCode::Numpad5,
        KeyCode::Numpad6,
        KeyCode::NumpadAdd,
        KeyCode::Numpad1,
        KeyCode::Numpad2,
        KeyCode::Numpad3,
        KeyCode::Numpad0,
        KeyCode::NumpadDecimal,
    ]
}

/// Letters and digits have their ASCII codes, and the function keys and the digits of
/// the number pad follow one another.
pub proof fn families_are_consecutive(i: int)
    ensures
        0 <= i < 26 ==> key_codes(letters()[i]).0 == 'A' as int + i,
        0 <= i < 10 ==> key_codes(digits()[i]).0 == '0' as int + i,
        0 <= i < 12 ==> key_codes(function_keys()[i]).0 == 0x70 + i,
        0 <= i < 10 ==> key_codes(numpad_digits()[i]).0 == 0x60 + i,
{
}

/// The scan codes count the keys of the keyboard from one on.
pub proof fn scan_codes_number_the_keyboard(i: int)
    requires
        0 <= i < keyboard().len(),
    ensures
        key_codes(keyboard()[i]).1 == i + 1,
{
}

/// The arrow keys, in the order left, up, right, down.
pub open spec fn arrows() -> Seq<KeyCode> {
    seq![KeyCode::ArrowLeft, KeyCode::ArrowUp, KeyCode::ArrowRight, KeyCode::ArrowDown]
}

/// The arrow keys of the window system, in the order left, up, right, down.
pub open spec fn window_arrows() -> Seq<Scancode> {
    seq![Scancode::Left, Scancode::Up, Scancode::Right, Scancode::Down]
}

/// The letters of the window system, from A to Z.
pub open spec fn window_letters() -> Seq<Scancode> {
    seq![
        Scancode::A,
        Scancode::B,
        Scancode::C,
        Scancode::D,
        Scancode::E,
        Scancode::F,
        Scancode::G,
        Scancode::H,
        Scancode::I,
        Scancode::J,
        Scancode::K,
        Scancode::L,
        Scancode::M,
        Scancode::N,
        Scancode::O,
        Scancode::P,
        Scancode::Q,
        Scancode::R,
        Scancode::S,
        Scancode::T,
        Scancode::U,
        Scancode::V,
        Scancode::W,
        Scancode::X,
        Scancode::Y,
        Scancode::Z,
    ]
}

/// The digits of the window system, from 0 to 9.
pub open spec fn window_digits() -> Seq<Scancode> {
    seq![
        Scancode::Num0,
        Scancode::Num1,
        Scancode::Num2,
        Scancode::Num3,
        Scancode::Num4,
        Scancode::Num5,
        Scancode::Num6,
        Scancode::Num7,
        Scancode::Num8,
        Scancode::Num9,
    ]
}

/// The function keys of the window system, from F1 to F12.
pub open spec fn window_function_keys() -> Seq<Scancode> {
    seq![
        Scancode::F1,
        Scancode::F2,
        Scancode::F3,
        Scancode::F4,
        Scancode::F5,
        Scancode::F6,
        Scancode::F7,
        Scancode::F8,
        Scancode::F9,
        Scancode::F10,
        Scancode::F11,
        Scancode::F12,
    ]
}

/// The arrows have four virtual-key codes in a row from 0x25 on, and the scan codes of
/// the number pad keys 4, 8, 6 and 2 that share their places; both tables say so.
pub proof fn arrows_turn_clockwise(i: int)
    requires
        0 <= i < 4,
    ensures
        key_codes(arrows()[i]).0 == 0x25 + i,
        scancode_codes(window_arrows()[i]).0 == 0x25 + i,
        key_codes(arrows()[i]).1 == scancode_codes(window_arrows()[i]).1,
        key_codes(KeyCode::ArrowLeft).1 == key_codes(KeyCode::Numpad4).1,
        key_codes(KeyCode::ArrowUp).1 == key_codes(KeyCode::Numpad8).1,
        key_codes(KeyCode::ArrowRight).1 == key_codes(KeyCode::Numpad6).1,
        key_codes(KeyCode::ArrowDown).1 == key_codes(KeyCode::Numpad2).1,
{
}

/// The keys of the navigation block have the scan codes of the number pad keys that
/// share their places, and the four virtual-key codes before those of the arrows.
pub proof fn navigation_shares_the_number_pad()
    ensures
        key_codes(KeyCode::Insert).1 == key_codes(KeyCode::Numpad0).1,
        key_codes(KeyCode::Delete).1 == key_codes(KeyCode::NumpadDecimal).1,
        key_codes(KeyCode::Home).1 == key_codes(KeyCode::Numpad7).1,
        key_codes(KeyCode::End).1 == key_codes(KeyCode::Numpad1).1,
        key_codes(KeyCode::PageUp).1 == key_codes(KeyCode::Numpad9).1,
        key_codes(KeyCode::PageDown).1 == key_codes(KeyCode::Numpad3).1,
        key_codes(KeyCode::PageUp).0 == 0x21,
        key_codes(KeyCode::PageDown).0 == 0x22,
        key_codes(KeyCode::End).0 == 0x23,
        key_codes(KeyCode::Home).0 == 0x24,
        key_codes(KeyCode::Insert).0 == 0x2D,
        key_codes(KeyCode::Delete).0 == 0x2E,
{
}

/// Left and right modifiers share their virtual-key codes, and control and alt their
/// scan codes too; the two shift keys and the two system keys are told apart.
pub proof fn modifiers_come_in_pairs()
    ensures
        key_codes(KeyCode::ShiftLeft).0 == 0x10,
        key_codes(KeyCode::ShiftRight).0 == 0x10,
        key_codes(KeyCode::ControlLeft).0 == 0x11,
        key_codes(KeyCode::AltLeft).0 == 0x12,
        key_codes(KeyCode::ControlRight) == key_codes(KeyCode::ControlLeft),
        key_codes(KeyCode::AltRight) == key_codes(KeyCode::AltLeft),
        key_codes(KeyCode::SuperLeft) == (0x5Bu16, 0x5Bu16),
        key_codes(KeyCode::SuperRight) == (0x5Cu16, 0x5Cu16),
{
}

/// The keys with a control character have its code, and the remaining keys the ones
/// that Windows names them by.
pub proof fn named_keys_have_their_codes()
    ensures
        key_codes(KeyCode::Backspace).0 == 0x08,
        key_codes(KeyCode::Tab).0 == 0x09,
        key_codes(KeyCode::Enter).0 == 0x0D,
        key_codes(KeyCode::Pause).0 == 0x13,
        key_codes(KeyCode::CapsLock).0 == 0x14,
        key_codes(KeyCode::Escape).0 == 0x1B,
        key_codes(KeyCode::Space).0 == ' ' as int,
        key_codes(KeyCode::PrintScreen).0 == 0x2C,
        key_codes(KeyCode::NumpadMultiply).0 == 0x6A,
        key_codes(KeyCode::NumpadAdd).0 == 0x6B,
        key_codes(KeyCode::NumpadSubtract).0 == 0x6D,
        key_codes(KeyCode::NumpadDecimal).0 == 0x6E,
        key_codes(KeyCode::NumpadDivide).0 == 0x6F,
        key_codes(KeyCode::NumLock).0 == 0x90,
        key_codes(KeyCode::ScrollLock).0 == 0x91,
        key_codes(KeyCode::Semicolon).0 == 0xBA,
        key_codes(KeyCode::Equal).0 == 0xBB,
        key_codes(KeyCode::Comma).0 == 0xBC,
        key_codes(KeyCode::Minus).0 == 0xBD,
        key_codes(KeyCode::Period).0 == 0xBE,
        key_codes(KeyCode::Slash).0 == 0xBF,
        key_codes(KeyCode::Backquote).0 == 0xC0,
        key_codes(KeyCode::BracketLeft).0 == 0xDB,
        key_codes(KeyCode::Backslash).0 == 0xDC,
        key_codes(KeyCode::BracketRight).0 == 0xDD,
        key_codes(KeyCode::Quote).0 == 0xDE,
{
}

/// The keys that came to the keyboard later have the scan codes of the keys that they
/// were put beside, and the last two function keys their own.
pub proof fn later_keys_share_scan_codes()
    ensures
        key_codes(KeyCode::NumpadEnter) == key_codes(KeyCode::Enter),
        key_codes(KeyCode::NumpadDivide).1 == key_codes(KeyCode::Slash).1,
        key_codes(KeyCode::PrintScreen).1 == key_codes(KeyCode::NumpadMultiply).1,
        key_codes(KeyCode::Pause).1 == key_codes(KeyCode::NumLock).1,
        key_codes(KeyCode::F11).1 == 0x57,
        key_codes(KeyCode::F12).1 == 0x58,
{
}

/// The window system's letters, digits and function keys have the codes of the keys of
/// the same name.
pub proof fn window_families_are_consecutive(i: int)
    ensures
        0 <= i < 26 ==> scancode_codes(window_letters()[i]) == (
            ('A' as int + i) as u16,
            key_codes(letters()[i]).1,
        ),
        0 <= i < 10 ==> scancode_codes(window_digits()[i]) == (
            ('0' as int + i) as u16,
            key_codes(digits()[i]).1,
        ),
        0 <= i < 12 ==> scancode_codes(window_function_keys()[i]) == (
            (0x70 + i) as u16,
            key_codes(function_keys()[i]).1,
        ),
{
}

/// The window system's remaining keys have the codes of the keys of the same name.
pub proof fn window_keys_have_their_codes()
    ensures
        scancode_codes(Scancode::Return) == key_codes(KeyCode::Enter),
        scancode_codes(Scancode::Escape) == key_codes(KeyCode::Escape),
        scancode_codes(Scancode::Backspace) == key_codes(KeyCode::Backspace),
        scancode_codes(Scancode::Tab) == key_codes(KeyCode::Tab),
        scancode_codes(Scancode::Space) == key_codes(KeyCode::Space),
        scancode_codes(Scancode::LShift) == key_codes(KeyCode::ShiftLeft),
        scancode_codes(Scancode::RShift) == key_codes(KeyCode::ShiftRight),
        scancode_codes(Scancode::LCtrl) == key_codes(KeyCode::ControlLeft),
        scancode_codes(Scancode::RCtrl) == key_codes(KeyCode::ControlRight),
        scancode_codes(Scancode::LAlt) == key_codes(KeyCode::AltLeft),
        scancode_codes(Scancode::RAlt) == key_codes(KeyCode::AltRight),
{
}

/// No two keys that the keyboard numbers share a scan code, and no two letters, digits
/// or function keys share a virtual-key code.
pub proof fn numbered_keys_are_told_apart(i: int, j: int)
    requires
        0 <= i < j,
    ensures
        j < keyboard().len() ==> key_codes(keyboard()[i]).1 != key_codes(keyboard()[j]).1,
        j < 26 ==> scancode_codes(window_letters()[i]) != scancode_codes(window_letters()[j]),
        j < 10 ==> scancode_codes(window_digits()[i]) != scancode_codes(window_digits()[j]),
{
    if j < keyboard().len() {
        scan_codes_number_the_keyboard(i);
        scan_codes_number_the_keyboard(j);
    }
    window_families_are_consecutive(i);
    window_families_are_consecutive(j);
}

} // verus!
