use win_mouse::flags::{
    absolute_move_flags, BUTTON_CODES, MOUSEEVENTF_ABSOLUTE, MOUSEEVENTF_LEFTDOWN,
    MOUSEEVENTF_LEFTUP, MOUSEEVENTF_MIDDLEDOWN, MOUSEEVENTF_MIDDLEUP, MOUSEEVENTF_MOVE,
    MOUSEEVENTF_RIGHTDOWN, MOUSEEVENTF_RIGHTUP,
};
use win_mouse::{
    dispatch_status, get_mouse_pos, get_mouse_pos_inner, mouse_click, mouse_event, mouse_move,
    mouse_move_inner, Dispatched, InputEvent, MouseButton, MouseError, Point, ScreenPoint,
    ScreenSize,
};

const FULL_HD: ScreenSize = ScreenSize { width: 1920, height: 1080 };

fn event(flags: u32, dx: i32, dy: i32) -> InputEvent {
    InputEvent { flags, dx, dy, data: 0, extra_info: 0 }
}

#[test]
fn event_codes_have_their_win32_values() {
    assert_eq!(MOUSEEVENTF_MOVE, 0x0001);
    assert_eq!(MOUSEEVENTF_LEFTDOWN, 0x0002);
    assert_eq!(MOUSEEVENTF_LEFTUP, 0x0004);
    assert_eq!(MOUSEEVENTF_RIGHTDOWN, 0x0008);
    assert_eq!(MOUSEEVENTF_RIGHTUP, 0x0010);
    assert_eq!(MOUSEEVENTF_MIDDLEDOWN, 0x0020);
    assert_eq!(MOUSEEVENTF_MIDDLEUP, 0x0040);
    assert_eq!(MOUSEEVENTF_ABSOLUTE, 0x8000);
    assert_eq!(absolute_move_flags(), 0x8001);
    assert_eq!(absolute_move_flags() & BUTTON_CODES, 0);
}

#[test]
fn each_button_has_its_own_pair_of_codes() {
    assert_eq!(MouseButton::Left.press_flag(), 0x0002);
    assert_eq!(MouseButton::Left.release_flag(), 0x0004);
    assert_eq!(MouseButton::Right.press_flag(), 0x0008);
    assert_eq!(MouseButton::Right.release_flag(), 0x0010);
    assert_eq!(MouseButton::Middle.press_flag(), 0x0020);
    assert_eq!(MouseButton::Middle.release_flag(), 0x0040);
}

#[test]
fn mouse_event_scales_position_and_keeps_the_rest() {
    assert_eq!(
        mouse_event(0x0800, 960, 540, -120, 77, FULL_HD),
        Ok(InputEvent { flags: 0x0800, dx: 32768, dy: 32768, data: -120, extra_info: 77 })
    );
    assert_eq!(
        mouse_event(0x0001, 1, 1, 0, 0, ScreenSize { width: 0, height: 0 }),
        Err(MouseError::InvalidScreen)
    );
    assert_eq!(
        mouse_event(0x0001, 1, 40000, 0, 0, ScreenSize { width: 1, height: 1 }),
        Err(MouseError::CoordinateOverflow)
    );
}

#[test]
fn move_is_one_absolute_move_event() {
    assert_eq!(mouse_move_inner(960, 540, FULL_HD), Ok(event(0x8001, 32768, 32768)));
    assert_eq!(mouse_move(960, 540, FULL_HD), Ok(vec![event(0x8001, 32768, 32768)]));
    assert_eq!(mouse_move(480, 810, FULL_HD), Ok(vec![event(0x8001, 16384, 49152)]));
}

#[test]
fn move_to_the_corners_stays_in_range() {
    assert_eq!(mouse_move(0, 0, FULL_HD), Ok(vec![event(0x8001, 0, 0)]));
    assert_eq!(mouse_move(1919, 1079, FULL_HD), Ok(vec![event(0x8001, 65501, 65475)]));
    for (w, h) in [(1, 1), (640, 480), (1366, 768), (3840, 2160), (i32::MAX, i32::MAX)] {
        let screen = ScreenSize { width: w, height: h };
        assert_eq!(mouse_move(0, 0, screen), Ok(vec![event(0x8001, 0, 0)]));
        let far = mouse_move(w - 1, h - 1, screen).unwrap();
        assert_eq!(far.len(), 1);
        assert!((0..65536).contains(&far[0].dx));
        assert!((0..65536).contains(&far[0].dy));
    }
}

#[test]
fn move_on_an_unusable_screen_fails() {
    assert_eq!(
        mouse_move(10, 10, ScreenSize { width: 0, height: 1080 }),
        Err(MouseError::InvalidScreen)
    );
    assert_eq!(
        mouse_move(10, 10, ScreenSize { width: 1920, height: -1 }),
        Err(MouseError::InvalidScreen)
    );
    assert_eq!(
        mouse_move_inner(i32::MAX, 0, ScreenSize { width: 2, height: 2 }),
        Err(MouseError::CoordinateOverflow)
    );
}

#[test]
fn left_click_is_move_press_release() {
    assert_eq!(
        mouse_click(MouseButton::Left, 960, 540, FULL_HD),
        Ok(vec![
            event(0x8001, 32768, 32768),
            event(0x0002, 32768, 32768),
            event(0x0004, 32768, 32768),
        ])
    );
}

#[test]
fn right_click_is_move_press_release() {
    assert_eq!(
        mouse_click(MouseButton::Right, 480, 270, FULL_HD),
        Ok(vec![
            event(0x8001, 16384, 16384),
            event(0x0008, 16384, 16384),
            event(0x0010, 16384, 16384),
        ])
    );
}

#[test]
fn middle_click_is_move_press_release() {
    assert_eq!(
        mouse_click(MouseButton::Middle, 1919, 0, FULL_HD),
        Ok(vec![event(0x8001, 65501, 0), event(0x0020, 65501, 0), event(0x0040, 65501, 0)])
    );
}

#[test]
fn click_has_one_press_and_one_release_at_one_point() {
    for button in [MouseButton::Left, MouseButton::Right, MouseButton::Middle] {
        let events = mouse_click(button, 123, 456, FULL_HD).unwrap();
        let presses: Vec<usize> =
            (0..events.len()).filter(|&i| events[i].flags == button.press_flag()).collect();
        let releases: Vec<usize> =
            (0..events.len()).filter(|&i| events[i].flags == button.release_flag()).collect();
        assert_eq!(presses, vec![1]);
        assert_eq!(releases, vec![2]);
        let transitions =
            events.iter().filter(|e| e.flags & BUTTON_CODES != 0).count();
        assert_eq!(transitions, 2);
        for e in &events {
            assert_eq!((e.dx, e.dy), (events[0].dx, events[0].dy));
            assert_eq!((e.data, e.extra_info), (0, 0));
        }
    }
}

#[test]
fn click_that_cannot_be_placed_emits_nothing() {
    assert_eq!(
        mouse_click(MouseButton::Left, 5, 5, ScreenSize { width: 0, height: 0 }),
        Err(MouseError::InvalidScreen)
    );
    assert_eq!(
        mouse_click(MouseButton::Middle, i32::MIN, 5, ScreenSize { width: 1, height: 1 }),
        Err(MouseError::CoordinateOverflow)
    );
}

#[test]
fn cursor_reading_is_reported_verbatim() {
    assert_eq!(
        get_mouse_pos_inner(Some(ScreenPoint { x: 812, y: 77 })),
        Point { x: 812, y: 77 }
    );
    assert_eq!(
        get_mouse_pos(Dispatched::Completed(Some(ScreenPoint { x: 0, y: 2159 }))),
        Ok(Point::new(0, 2159))
    );
    assert_eq!(
        get_mouse_pos_inner(Some(ScreenPoint { x: i32::MAX, y: 0 })),
        Point { x: 2147483647, y: 0 }
    );
}

#[test]
fn negative_cursor_reading_keeps_its_bits() {
    assert_eq!(
        get_mouse_pos_inner(Some(ScreenPoint { x: -1, y: -1920 })),
        Point { x: 4294967295, y: 4294965376 }
    );
    assert_eq!(
        get_mouse_pos_inner(Some(ScreenPoint { x: i32::MIN, y: 3 })),
        Point { x: 2147483648, y: 3 }
    );
}

#[test]
fn missing_cursor_reading_falls_back_to_the_origin() {
    assert_eq!(get_mouse_pos_inner(None), Point { x: 0, y: 0 });
    assert_eq!(get_mouse_pos(Dispatched::Completed(None)), Ok(Point { x: 0, y: 0 }));
}

#[test]
fn lost_worker_is_a_dispatch_failure_not_the_origin() {
    assert_eq!(get_mouse_pos(Dispatched::Failed), Err(MouseError::DispatchFailure));
    assert_eq!(dispatch_status(Dispatched::Failed), Err(MouseError::DispatchFailure));
}

#[test]
fn completed_dispatch_reports_true_or_the_workers_refusal() {
    assert_eq!(dispatch_status(Dispatched::Completed(Ok(()))), Ok(true));
    assert_eq!(
        dispatch_status(Dispatched::Completed(Err(MouseError::InvalidScreen))),
        Err(MouseError::InvalidScreen)
    );
    assert_eq!(
        dispatch_status(Dispatched::Completed(Err(MouseError::CoordinateOverflow))),
        Err(MouseError::CoordinateOverflow)
    );
}
