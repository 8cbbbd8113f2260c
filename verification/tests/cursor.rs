use gfn_streamer::cursor::center::{Movement, StoredCenter};
use gfn_streamer::cursor::polling::{
    get_accumulated_mouse_delta, get_mouse_delta, is_mouse_polling_active, pause_after_poll,
    start_mouse_polling, stop_mouse_polling, MousePolling, PollingStart,
};
use gfn_streamer::cursor::session::{
    capture_cursor, get_input_platform, is_cursor_captured, is_native_input_available,
    recenter_cursor, recenter_step, release_cursor, CaptureError, CursorAction, CursorSession, Platform, Progress,
};
use gfn_streamer::cursor::session::CursorAction::{
    CenterCursor, ClipToWindow, DetachMouse, DisableAcceleration, HideCursor, InitDisplay,
    UpdateCenter,
};
use gfn_streamer::cursor::{linux, macos, windows};

fn run(session: &mut CursorSession, mut next: Progress, answers: &[bool]) -> (Vec<CursorAction>, Progress) {
    let mut done = Vec::new();
    for ok in answers {
        match next {
            Progress::Perform(action) => {
                done.push(action);
                next = session.report(*ok);
            }
            Progress::Finished(_) => unreachable!(),
        }
    }
    (done, next)
}

fn captured_session(platform: Platform, calls: usize) -> CursorSession {
    let mut session = CursorSession::new(platform);
    let first = capture_cursor(&mut session);
    let (_, last) = run(&mut session, first, &vec![true; calls]);
    assert_eq!(last, Progress::Finished(Ok(true)));
    session
}

#[test]
fn capturing_on_each_platform() {
    for (platform, script) in [
        (Platform::Macos, vec![UpdateCenter, CenterCursor, HideCursor, DetachMouse]),
        (
            Platform::Windows,
            vec![UpdateCenter, DisableAcceleration, CenterCursor, HideCursor, ClipToWindow],
        ),
        (Platform::Linux, vec![InitDisplay, UpdateCenter, CenterCursor, HideCursor]),
    ] {
        let mut session = CursorSession::new(platform);
        let first = capture_cursor(&mut session);
        let (done, last) = run(&mut session, first, &vec![true; script.len()]);
        assert_eq!(done, script);
        assert_eq!(last, Progress::Finished(Ok(true)));
        assert!(is_cursor_captured(&session));
        assert_eq!(capture_cursor(&mut session), Progress::Finished(Ok(true)));
    }
    let mut session = CursorSession::new(Platform::Unsupported);
    assert_eq!(capture_cursor(&mut session), Progress::Finished(Ok(false)));
    assert_eq!(release_cursor(&mut session), Progress::Finished(Ok(true)));
}

#[test]
fn failures_while_capturing() {
    let cases = vec![
        (Platform::Macos, vec![false, false, false], CaptureError::CursorNotHidden),
        (Platform::Macos, vec![true, true, true, false, true], CaptureError::MouseNotDetached),
        (Platform::Windows, vec![false], CaptureError::WindowCenterUnknown),
        (Platform::Linux, vec![false], CaptureError::DisplayUnavailable),
        (Platform::Linux, vec![true, false], CaptureError::ScreenCenterUnknown),
        (Platform::Linux, vec![true, true, false, false], CaptureError::PointerNotGrabbed),
    ];
    for (platform, answers, error) in cases {
        let mut session = CursorSession::new(platform);
        let first = capture_cursor(&mut session);
        let (_, last) = run(&mut session, first, &answers);
        assert_eq!(last, Progress::Finished(Err(error)));
        assert!(!is_cursor_captured(&session));
    }
    assert_eq!(CaptureError::CursorNotHidden.message(), "Failed to hide cursor");
    assert_eq!(
        CaptureError::MouseNotDetached.message(),
        "Failed to disassociate mouse from cursor"
    );
    assert_eq!(CaptureError::WindowCenterUnknown.message(), "Failed to get window center");
    assert_eq!(CaptureError::ScreenCenterUnknown.message(), "Failed to get screen center");
    assert_eq!(CaptureError::DisplayUnavailable.message(), "Failed to initialize X11 display");
    assert_eq!(CaptureError::PointerNotGrabbed.message(), "Failed to grab pointer");
}

#[test]
fn failed_detachment_shows_the_cursor() {
    let mut session = CursorSession::new(Platform::Macos);
    let first = capture_cursor(&mut session);
    let (_, next) = run(&mut session, first, &[true, true, true, false]);
    assert_eq!(next, Progress::Perform(CursorAction::ShowCursor));
}

#[test]
fn releasing_always_works() {
    let mut session = captured_session(Platform::Windows, 5);
    let first = release_cursor(&mut session);
    let (done, last) = run(&mut session, first, &[false; 4]);
    assert_eq!(
        done,
        vec![
            CursorAction::RestoreAcceleration,
            CursorAction::ReleaseClip,
            CursorAction::ShowCursor,
            CursorAction::CenterCursor
        ]
    );
    assert_eq!(last, Progress::Finished(Ok(true)));
    assert!(!is_cursor_captured(&session));
}

#[test]
fn platforms() {
    assert_eq!(get_input_platform(Platform::Windows), "windows");
    assert_eq!(get_input_platform(Platform::Macos), "macos");
    assert_eq!(get_input_platform(Platform::Linux), "linux");
    assert_eq!(get_input_platform(Platform::Unsupported), "unsupported");
    assert!(is_native_input_available(Platform::Linux));
    assert!(!is_native_input_available(Platform::Unsupported));
}

#[test]
fn movement_from_the_center() {
    let mut center = StoredCenter::unknown();
    assert_eq!(
        linux::get_delta_and_recenter(&center, Some((5, 5))),
        Movement { dx: 0, dy: 0, warp_to: None }
    );
    assert!(macos::update_center(&mut center, (100, 50)));
    assert_eq!(macos::get_stored_center(&center), (100, 50));
    let moved = macos::get_delta_and_recenter(&center, Some((97, 60)));
    assert_eq!(moved, Movement { dx: -3, dy: 10, warp_to: Some((100, 50)) });
    assert_eq!(
        windows::get_delta_and_recenter(&center, moved.warp_to),
        Movement { dx: 0, dy: 0, warp_to: None }
    );
    assert_eq!(
        windows::get_delta_and_recenter(&center, None),
        Movement { dx: 0, dy: 0, warp_to: None }
    );
}

#[test]
fn captured_movement_is_measured_from_the_center() {
    let middle = (960, 540);
    let mut center = StoredCenter::unknown();
    let mut cursor = (3, 4);
    let mut session = CursorSession::new(Platform::Macos);
    let mut next = capture_cursor(&mut session);
    while let Progress::Perform(action) = next {
        match action {
            UpdateCenter => assert!(macos::update_center(&mut center, middle)),
            CenterCursor => cursor = middle,
            _ => {}
        }
        next = session.report(true);
    }
    assert_eq!(next, Progress::Finished(Ok(true)));
    assert_eq!(
        get_mouse_delta(&session, &center, Some((cursor.0 + 5, cursor.1))),
        Movement { dx: 5, dy: 0, warp_to: Some(middle) }
    );
}

#[test]
fn far_positions_matter_only_while_captured() {
    let center = StoredCenter { x: -10, y: 10 };
    let free = CursorSession::new(Platform::Macos);
    assert_eq!(
        get_mouse_delta(&free, &center, Some((i32::MAX, 0))),
        Movement { dx: 0, dy: 0, warp_to: None }
    );
}

#[test]
fn centering_on_linux() {
    let mut center = StoredCenter::unknown();
    assert_eq!(linux::center_cursor(&mut center, None), None);
    assert_eq!(linux::center_cursor(&mut center, Some((1921, -3))), Some((960, -1)));
    assert_eq!(linux::center_cursor(&mut center, Some((10, 10))), Some((960, -1)));
    assert!(!linux::update_center(&mut center, None));
    assert_eq!(linux::get_stored_center(&center), (960, -1));
}

#[test]
fn display_on_linux() {
    let mut display = linux::DisplayState::closed();
    assert!(!linux::init_display(&mut display, None));
    assert!(linux::init_display(&mut display, Some(0x1_0000_0123)));
    assert_eq!(linux::get_root(&display), 0x123);
    assert!(linux::init_display(&mut display, None));
    assert!(linux::close_display(&mut display));
    assert!(!linux::close_display(&mut display));
    assert!(linux::init_display(&mut display, Some(0xffff_ffff)));
    assert_eq!(linux::get_root(&display), u64::MAX);
}

#[test]
fn centering_on_windows() {
    assert_eq!(windows::client_middle(1921, -3), (960, -1));
    let mut center = StoredCenter::unknown();
    assert_eq!(windows::center_cursor(&mut center, None), None);
    assert_eq!(windows::center_cursor(&mut center, Some((7, 8))), Some((7, 8)));
    assert_eq!(windows::get_stored_center(&center), (7, 8));
    assert!(windows::update_center(&mut center, Some((1, 2))));
    assert!(!windows::update_center(&mut center, None));
    assert_eq!(windows::center_cursor(&mut center, Some((7, 8))), Some((1, 2)));
}

#[test]
fn acceleration_is_restored() {
    let mut state = windows::Acceleration::untouched();
    assert!(windows::wants_mouse_parameters(&state));
    let set = windows::disable_mouse_acceleration(&mut state, Some((6, 10, 1)));
    assert_eq!(set, Some((0, 0, 0)));
    windows::acceleration_set(&mut state, true);
    assert!(!windows::wants_mouse_parameters(&state));
    assert_eq!(windows::disable_mouse_acceleration(&mut state, Some((1, 1, 1))), None);
    assert_eq!(windows::restore_mouse_acceleration(&state), Some((6, 10, 1)));
    windows::acceleration_restored(&mut state, false);
    assert!(state.disabled);
    windows::acceleration_restored(&mut state, true);
    assert_eq!(windows::restore_mouse_acceleration(&state), None);
    assert_eq!(windows::disable_mouse_acceleration(&mut state, Some((1, 2, 0))), None);
}

#[test]
fn class_cursor_on_windows() {
    assert_eq!(windows::hide_cursor(5, 9), 9);
    assert_eq!(windows::hide_cursor(5, 0), 5);
    assert_eq!(windows::show_cursor(9), Some(9));
    assert_eq!(windows::show_cursor(0), None);
    assert!(windows::keep_hiding(0) && !windows::keep_hiding(-1));
    assert!(windows::keep_showing(-1) && !windows::keep_showing(0));
}

#[test]
fn polling_accumulates() {
    let free = CursorSession::new(Platform::Linux);
    let mut polling = MousePolling::idle();
    assert_eq!(start_mouse_polling(&mut polling, &free), PollingStart::Refused);
    let session = captured_session(Platform::Linux, 4);
    assert_eq!(
        start_mouse_polling(&mut polling, &session),
        PollingStart::Start { update_center: true }
    );
    assert_eq!(start_mouse_polling(&mut polling, &session), PollingStart::AlreadyRunning);
    assert!(is_mouse_polling_active(&polling));
    polling.accumulate(3, 0);
    polling.accumulate(-1, 5);
    assert_eq!(get_accumulated_mouse_delta(&mut polling), (2, 5));
    assert_eq!(get_accumulated_mouse_delta(&mut polling), (0, 0));
    polling.accumulate(i32::MAX, i32::MIN);
    polling.accumulate(1, -1);
    assert_eq!(get_accumulated_mouse_delta(&mut polling), (i32::MIN, i32::MAX));
    assert!(polling.keep_polling(&session));
    assert!(!polling.keep_polling(&free));
    assert!(!is_mouse_polling_active(&polling));
    stop_mouse_polling(&mut polling);
    assert_eq!(polling, MousePolling::idle());
    let windows_session = captured_session(Platform::Windows, 5);
    assert_eq!(
        start_mouse_polling(&mut polling, &windows_session),
        PollingStart::Start { update_center: false }
    );
    let unsupported = CursorSession::new(Platform::Unsupported);
    assert_eq!(start_mouse_polling(&mut polling, &unsupported), PollingStart::Refused);
}

#[test]
fn polling_pauses() {
    assert_eq!(pause_after_poll(0), Some(1000));
    assert_eq!(pause_after_poll(999), Some(1));
    assert_eq!(pause_after_poll(1000), None);
}

#[test]
fn deltas_need_a_captured_cursor() {
    let center = StoredCenter { x: 10, y: 10 };
    let free = CursorSession::new(Platform::Macos);
    assert_eq!(
        get_mouse_delta(&free, &center, Some((11, 12))),
        Movement { dx: 0, dy: 0, warp_to: None }
    );
    let session = captured_session(Platform::Macos, 4);
    assert_eq!(
        get_mouse_delta(&session, &center, Some((11, 12))),
        Movement { dx: 1, dy: 2, warp_to: Some((10, 10)) }
    );
}

#[test]
fn recentering_measures_and_centers() {
    for platform in [Platform::Macos, Platform::Linux] {
        let session = captured_session(platform, 4);
        assert_eq!(recenter_cursor(&session), Ok(UpdateCenter));
        for measured in [true, false] {
            assert_eq!(recenter_step(&session, 1, measured), Ok(CenterCursor));
        }
        assert_eq!(recenter_step(&session, 2, true), Err(true));
        assert_eq!(recenter_step(&session, 2, false), Err(false));
    }
    let free = CursorSession::new(Platform::Linux);
    assert_eq!(recenter_cursor(&free), Err(false));
    assert_eq!(recenter_step(&free, 2, true), Err(false));
    assert_eq!(recenter_cursor(&CursorSession::new(Platform::Unsupported)), Err(false));
}
