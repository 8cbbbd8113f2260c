use gfn_streamer::keys::{keycode_to_vk_scan, sdl_scancode_to_vk, KeyCode, Scancode};

#[test]
fn letters_and_digits_have_ascii_codes() {
    assert_eq!(keycode_to_vk_scan(KeyCode::KeyA), (0x41, 0x1e));
    assert_eq!(keycode_to_vk_scan(KeyCode::KeyZ), (0x5a, 0x2c));
    assert_eq!(keycode_to_vk_scan(KeyCode::Digit0), (0x30, 0x0b));
    assert_eq!(keycode_to_vk_scan(KeyCode::Digit9), (0x39, 0x0a));
}

#[test]
fn special_keys_have_codes() {
    assert_eq!(keycode_to_vk_scan(KeyCode::Escape), (0x1b, 0x01));
    assert_eq!(keycode_to_vk_scan(KeyCode::ControlRight), (0x11, 0x1d));
    assert_eq!(keycode_to_vk_scan(KeyCode::SuperLeft), (0x5b, 0x5b));
    assert_eq!(keycode_to_vk_scan(KeyCode::F12), (0x7b, 0x58));
    assert_eq!(keycode_to_vk_scan(KeyCode::NumpadEnter), (0x0d, 0x1c));
    assert_eq!(keycode_to_vk_scan(KeyCode::NumpadDivide), (0x6f, 0x35));
    assert_eq!(keycode_to_vk_scan(KeyCode::Quote), (0xde, 0x28));
    assert_eq!(keycode_to_vk_scan(KeyCode::Pause), (0x13, 0x45));
    assert_eq!(keycode_to_vk_scan(KeyCode::PrintScreen), (0x2c, 0x37));
}

#[test]
fn unknown_keys_have_none() {
    assert_eq!(keycode_to_vk_scan(KeyCode::Other), (0, 0));
    assert_eq!(sdl_scancode_to_vk(Scancode::Other), (0, 0));
}

#[test]
fn both_tables_agree() {
    let pairs = vec![
        (Scancode::A, KeyCode::KeyA),
        (Scancode::Num1, KeyCode::Digit1),
        (Scancode::Return, KeyCode::Enter),
        (Scancode::LShift, KeyCode::ShiftLeft),
        (Scancode::RAlt, KeyCode::AltRight),
        (Scancode::Down, KeyCode::ArrowDown),
        (Scancode::F11, KeyCode::F11),
        (Scancode::Tab, KeyCode::Tab),
    ];
    for (scancode, keycode) in pairs {
        assert_eq!(sdl_scancode_to_vk(scancode), keycode_to_vk_scan(keycode));
    }
}
