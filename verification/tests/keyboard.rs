use dial_controller::keyboard::{
    Keyboard, RotaryInputKeys, KEY_CODE_MAX, KEY_ENTER, KEY_ESCAPE, KEY_LEFT_ARROW, KEY_TAB, SHIFT,
};
use dial_controller::report::{Action, KeyReport, KEYBOARD_REPORT_LEN, REPORT_DELAY_MS};

fn tap(code: u8) -> Vec<Action> {
    vec![
        Action::Transmit([0, 0, code, 0, 0, 0, 0, 0]),
        Action::Delay(7),
        Action::Transmit([0, 0, 0, 0, 0, 0, 0, 0]),
        Action::Delay(7),
    ]
}

fn transmitted(actions: &[Action]) -> Vec<[u8; 8]> {
    let mut reports = Vec::new();
    for action in actions {
        if let Action::Transmit(bytes) = action {
            reports.push(*bytes);
        }
    }
    reports
}

#[test]
fn new_keyboard_is_disconnected_and_silent() {
    let mut keyboard = Keyboard::new();
    assert!(!keyboard.connected());
    assert_eq!(keyboard.pending(), 0);
    assert_eq!(keyboard.take_actions(), vec![]);
}

#[test]
fn connected_follows_the_link_count() {
    let mut keyboard = Keyboard::new();
    keyboard.set_connected_count(1);
    assert!(keyboard.connected());
    keyboard.set_connected_count(3);
    assert!(keyboard.connected());
    keyboard.set_connected_count(0);
    assert!(!keyboard.connected());
}

#[test]
fn connected_does_not_touch_the_queue() {
    let mut keyboard = Keyboard::new();
    keyboard.send_char(0x04);
    let before = keyboard.clone();
    let _ = keyboard.connected();
    assert_eq!(keyboard, before);
}

#[test]
fn send_char_is_press_then_release() {
    let mut keyboard = Keyboard::new();
    keyboard.send_char(0x04);
    assert_eq!(keyboard.pending(), 4);
    assert_eq!(keyboard.take_actions(), tap(0x04));
    assert_eq!(keyboard.pending(), 0);
}

#[test]
fn every_report_is_followed_by_seven_milliseconds() {
    assert_eq!(REPORT_DELAY_MS, 7);
    let mut keyboard = Keyboard::new();
    keyboard.press_enter();
    let actions = keyboard.take_actions();
    assert_eq!(actions.len(), 4);
    assert!(matches!(actions[0], Action::Transmit(_)));
    assert_eq!(actions[1], Action::Delay(7));
    assert!(matches!(actions[2], Action::Transmit(_)));
    assert_eq!(actions[3], Action::Delay(7));
}

#[test]
fn press_enter_sends_enter() {
    let mut keyboard = Keyboard::new();
    keyboard.press_enter();
    let actions = keyboard.take_actions();
    assert_eq!(
        transmitted(&actions),
        vec![[0x00, 0x00, 0x28, 0, 0, 0, 0, 0], [0, 0, 0, 0, 0, 0, 0, 0]]
    );
}

#[test]
fn press_escape_sends_escape() {
    let mut keyboard = Keyboard::new();
    keyboard.press_escape();
    let actions = keyboard.take_actions();
    assert_eq!(
        transmitted(&actions),
        vec![[0x00, 0x00, 0x29, 0, 0, 0, 0, 0], [0, 0, 0, 0, 0, 0, 0, 0]]
    );
}

#[test]
fn press_arrow_forward_sends_tab() {
    let mut keyboard = Keyboard::new();
    keyboard.press_arrow_forward();
    let actions = keyboard.take_actions();
    assert_eq!(
        transmitted(&actions),
        vec![[0x00, 0x00, 0x2b, 0, 0, 0, 0, 0], [0, 0, 0, 0, 0, 0, 0, 0]]
    );
}

#[test]
fn press_arrow_back_sends_left_arrow() {
    let mut keyboard = Keyboard::new();
    keyboard.press_arrow_back();
    let actions = keyboard.take_actions();
    assert_eq!(actions, tap(0x50));
    assert_eq!(
        transmitted(&actions),
        vec![[0x00, 0x00, 0x50, 0, 0, 0, 0, 0], [0, 0, 0, 0, 0, 0, 0, 0]]
    );
}

#[test]
fn every_named_key_transmits_exactly_two_reports() {
    let presses: [(fn(&mut Keyboard), u8); 4] = [
        (Keyboard::press_enter, 0x28),
        (Keyboard::press_escape, 0x29),
        (Keyboard::press_arrow_forward, 0x2b),
        (Keyboard::press_arrow_back, 0x50),
    ];
    for (press, code) in presses {
        let mut keyboard = Keyboard::new();
        press(&mut keyboard);
        let reports = transmitted(&keyboard.take_actions());
        assert_eq!(reports.len(), 2);
        assert_eq!(reports[0][0], 0);
        assert_eq!(reports[0][1], 0);
        assert_eq!(reports[0][2], code);
        assert_ne!(reports[0][2], 0);
        assert_eq!(&reports[0][3..], &[0, 0, 0, 0, 0]);
        assert_eq!(reports[1], [0; 8]);
    }
}

#[test]
fn step_back_and_step_forward_send_different_codes() {
    let mut forward = Keyboard::new();
    forward.press_arrow_forward();
    let mut back = Keyboard::new();
    back.press_arrow_back();
    assert_ne!(transmitted(&forward.take_actions())[0], transmitted(&back.take_actions())[0]);
}

#[test]
fn send_char_twice_is_two_full_cycles() {
    let mut keyboard = Keyboard::new();
    keyboard.send_char(0x1e);
    keyboard.send_char(0x1e);
    let actions = keyboard.take_actions();
    let mut expected = tap(0x1e);
    expected.extend(tap(0x1e));
    assert_eq!(actions, expected);
    assert_eq!(
        transmitted(&actions),
        vec![
            [0, 0, 0x1e, 0, 0, 0, 0, 0],
            [0; 8],
            [0, 0, 0x1e, 0, 0, 0, 0, 0],
            [0; 8],
        ]
    );
}

#[test]
fn strokes_queue_up_in_order_until_taken() {
    let mut keyboard = Keyboard::new();
    keyboard.press_enter();
    keyboard.press_escape();
    assert_eq!(keyboard.pending(), 8);
    let mut expected = tap(0x28);
    expected.extend(tap(0x29));
    assert_eq!(keyboard.take_actions(), expected);
    keyboard.press_arrow_forward();
    assert_eq!(keyboard.take_actions(), tap(0x2b));
}

#[test]
fn take_actions_keeps_the_link_count() {
    let mut keyboard = Keyboard::new();
    keyboard.set_connected_count(2);
    keyboard.press_enter();
    let _ = keyboard.take_actions();
    assert!(keyboard.connected());
}

#[test]
fn key_codes() {
    assert_eq!(KEY_ENTER, 0x28);
    assert_eq!(KEY_ESCAPE, 0x29);
    assert_eq!(KEY_TAB, 0x2b);
    assert_eq!(KEY_LEFT_ARROW, 0x50);
    assert_eq!(KEY_CODE_MAX, 0x65);
    assert_eq!(SHIFT, 0x80);
}

#[test]
fn rotary_input_keys_as_byte() {
    assert_eq!(RotaryInputKeys::Forward.as_byte(), 0x01);
    assert_eq!(RotaryInputKeys::Back.as_byte(), 0x02);
    assert_eq!(RotaryInputKeys::Select.as_byte(), 0x04);
}

#[test]
fn key_report_layout() {
    assert_eq!(KEYBOARD_REPORT_LEN, 8);
    let mut report = KeyReport::new();
    assert_eq!(report.to_bytes(), [0; 8]);
    report.press(0x2b);
    assert_eq!(report.to_bytes(), [0, 0, 0x2b, 0, 0, 0, 0, 0]);
    report.modifiers = 0x02;
    report.reserved = 0x11;
    report.keys[5] = 0x33;
    assert_eq!(report.to_bytes(), [0x02, 0x11, 0x2b, 0, 0, 0, 0, 0x33]);
    report.press(0x04);
    assert_eq!(report.to_bytes(), [0x02, 0x11, 0x04, 0, 0, 0, 0, 0x33]);
    report.release();
    assert_eq!(report.to_bytes(), [0; 8]);
    assert_eq!(report, KeyReport::new());
}
