use notedeck_ios::input::{
    key_from_code, translate_events, InputEvent, Key, Modifiers, PointerButton, UiEvent, WheelUnit,
};
use notedeck_ios::scalar::Scalar;

fn pt(value: f32) -> Scalar {
    Scalar::from_bits(value.to_bits())
}

fn no_modifiers() -> Modifiers {
    Modifiers { alt: false, ctrl: false, shift: false, mac_cmd: false, command: false }
}

#[test]
fn scalar_keeps_its_bits() {
    let s = pt(10.5);
    assert_eq!(s.to_bits(), 10.5f32.to_bits());
    assert_eq!(f32::from_bits(s.to_bits()), 10.5);
    assert_eq!(pt(-0.0).to_bits(), 0x8000_0000);
}

#[test]
fn modifiers_none_has_no_key_held() {
    assert_eq!(Modifiers::new_none(), no_modifiers());
}

#[test]
fn pointer_move_gives_pointer_moved() {
    let event = InputEvent::from_pointer_moved(pt(20.0), pt(10.0));
    assert_eq!(event, InputEvent::PointerMoved(pt(20.0), pt(10.0)));
    assert_eq!(
        event.into_egui_event(),
        Some(UiEvent::PointerMoved { x: pt(20.0), y: pt(10.0) })
    );
}

#[test]
fn wheel_gives_scroll_in_points_without_modifiers() {
    let event = InputEvent::from_mouse_wheel(pt(1.5), pt(-3.0));
    assert_eq!(
        event.into_egui_event(),
        Some(UiEvent::MouseWheel {
            unit: WheelUnit::Point,
            dx: pt(1.5),
            dy: pt(-3.0),
            modifiers: no_modifiers(),
        })
    );
}

#[test]
fn left_button_gives_primary_button() {
    let down = InputEvent::from_left_mouse_down(pt(10.0), pt(10.0), true);
    assert_eq!(
        down.into_egui_event(),
        Some(UiEvent::PointerButton {
            x: pt(10.0),
            y: pt(10.0),
            button: PointerButton::Primary,
            pressed: true,
            modifiers: no_modifiers(),
        })
    );
    let up = InputEvent::from_left_mouse_down(pt(10.0), pt(12.0), false);
    assert_eq!(
        up.into_egui_event(),
        Some(UiEvent::PointerButton {
            x: pt(10.0),
            y: pt(12.0),
            button: PointerButton::Primary,
            pressed: false,
            modifiers: no_modifiers(),
        })
    );
}

#[test]
fn right_button_gives_secondary_button() {
    let event = InputEvent::from_right_mouse_down(pt(4.0), pt(5.0), true);
    assert_eq!(
        event.into_egui_event(),
        Some(UiEvent::PointerButton {
            x: pt(4.0),
            y: pt(5.0),
            button: PointerButton::Secondary,
            pressed: true,
            modifiers: no_modifiers(),
        })
    );
}

#[test]
fn window_focus_is_forwarded() {
    assert_eq!(
        InputEvent::from_window_focused(true).into_egui_event(),
        Some(UiEvent::WindowFocused(true))
    );
    assert_eq!(
        InputEvent::from_window_focused(false).into_egui_event(),
        Some(UiEvent::WindowFocused(false))
    );
}

#[test]
fn scene_phase_gives_no_event() {
    for phase in 0u8..=255 {
        assert_eq!(InputEvent::from_scene_phase_changed(phase).into_egui_event(), None);
    }
}

#[test]
fn keyboard_visibility_gives_no_event() {
    assert_eq!(InputEvent::from_keyboard_visibility(true).into_egui_event(), None);
    assert_eq!(InputEvent::from_keyboard_visibility(false).into_egui_event(), None);
}

#[test]
fn host_only_translation_is_repeatable() {
    let first = InputEvent::from_scene_phase_changed(2).into_egui_event();
    let second = InputEvent::from_scene_phase_changed(2).into_egui_event();
    assert_eq!(first, second);
    assert_eq!(first, None);
}

#[test]
fn committed_text_gives_text_event() {
    assert_eq!(
        InputEvent::from_text_commit(String::from("abc")).into_egui_event(),
        Some(UiEvent::Text(String::from("abc")))
    );
}

#[test]
fn preedit_gives_ime_preedit_event() {
    assert_eq!(
        InputEvent::from_ime_preedit(String::from("ni")).into_egui_event(),
        Some(UiEvent::ImePreedit(String::from("ni")))
    );
}

#[test]
fn clipboard_commands_are_forwarded() {
    assert_eq!(InputEvent::from_copy().into_egui_event(), Some(UiEvent::Copy));
    assert_eq!(InputEvent::from_cut().into_egui_event(), Some(UiEvent::Cut));
    assert_eq!(
        InputEvent::from_paste(String::from("hello")).into_egui_event(),
        Some(UiEvent::Paste(String::from("hello")))
    );
}

#[test]
fn key_codes_zero_to_seven_name_the_eight_keys() {
    assert_eq!(key_from_code(0), Some(Key::Backspace));
    assert_eq!(key_from_code(1), Some(Key::Enter));
    assert_eq!(key_from_code(2), Some(Key::Tab));
    assert_eq!(key_from_code(3), Some(Key::Escape));
    assert_eq!(key_from_code(4), Some(Key::ArrowUp));
    assert_eq!(key_from_code(5), Some(Key::ArrowDown));
    assert_eq!(key_from_code(6), Some(Key::ArrowLeft));
    assert_eq!(key_from_code(7), Some(Key::ArrowRight));
}

#[test]
fn virtual_key_gives_key_event_without_repeat() {
    assert_eq!(
        InputEvent::from_virtual_key(1, true).into_egui_event(),
        Some(UiEvent::Key {
            key: Key::Enter,
            pressed: true,
            repeat: false,
            modifiers: no_modifiers(),
        })
    );
    assert_eq!(
        InputEvent::from_virtual_key(7, false).into_egui_event(),
        Some(UiEvent::Key {
            key: Key::ArrowRight,
            pressed: false,
            repeat: false,
            modifiers: no_modifiers(),
        })
    );
}

#[test]
fn unknown_key_codes_give_no_event() {
    for code in 8u8..=255 {
        assert_eq!(key_from_code(code), None);
        assert_eq!(InputEvent::from_virtual_key(code, true).into_egui_event(), None);
        assert_eq!(InputEvent::from_virtual_key(code, false).into_egui_event(), None);
    }
}

#[test]
fn batch_keeps_button_down_before_pointer_move() {
    let batch = vec![
        InputEvent::from_left_mouse_down(pt(10.0), pt(10.0), true),
        InputEvent::from_pointer_moved(pt(20.0), pt(10.0)),
    ];
    assert_eq!(
        translate_events(batch),
        vec![
            UiEvent::PointerButton {
                x: pt(10.0),
                y: pt(10.0),
                button: PointerButton::Primary,
                pressed: true,
                modifiers: no_modifiers(),
            },
            UiEvent::PointerMoved { x: pt(20.0), y: pt(10.0) },
        ]
    );
}

#[test]
fn batch_drops_host_only_events_and_keeps_the_rest_in_order() {
    let batch = vec![
        InputEvent::from_keyboard_visibility(true),
        InputEvent::from_text_commit(String::from("a")),
        InputEvent::from_scene_phase_changed(1),
        InputEvent::from_virtual_key(42, true),
        InputEvent::from_virtual_key(0, true),
        InputEvent::from_paste(String::from("b")),
    ];
    assert_eq!(
        translate_events(batch),
        vec![
            UiEvent::Text(String::from("a")),
            UiEvent::Key {
                key: Key::Backspace,
                pressed: true,
                repeat: false,
                modifiers: no_modifiers(),
            },
            UiEvent::Paste(String::from("b")),
        ]
    );
}

#[test]
fn empty_batch_gives_no_events() {
    assert_eq!(translate_events(Vec::new()), Vec::<UiEvent>::new());
}

#[test]
fn translating_two_batches_in_turn_is_translating_them_joined() {
    let first = || vec![InputEvent::from_copy(), InputEvent::from_scene_phase_changed(0)];
    let second = || vec![InputEvent::from_virtual_key(9, true), InputEvent::from_cut()];
    let mut joined = first();
    joined.extend(second());
    let mut in_turn = translate_events(first());
    in_turn.extend(translate_events(second()));
    assert_eq!(translate_events(joined), in_turn);
    assert_eq!(in_turn, vec![UiEvent::Copy, UiEvent::Cut]);
}
