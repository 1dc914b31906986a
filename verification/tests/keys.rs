use elikar_egui::input::{Key, ModState, Modifiers};
use elikar_egui::keys::key_map;
use elikar_egui::scancode;

#[test]
fn letters_map_in_alphabetical_order() {
    let letters = [
        Key::A, Key::B, Key::C, Key::D, Key::E, Key::F, Key::G, Key::H, Key::I, Key::J, Key::K,
        Key::L, Key::M, Key::N, Key::O, Key::P, Key::Q, Key::R, Key::S, Key::T, Key::U, Key::V,
        Key::W, Key::X, Key::Y, Key::Z,
    ];
    for (i, key) in letters.iter().enumerate() {
        assert_eq!(key_map(scancode::A + i as u32), Some(*key));
    }
    assert_eq!(key_map(scancode::C), Some(Key::C));
    assert_eq!(key_map(scancode::Z), Some(Key::Z));
}

#[test]
fn digits_map_from_both_rows() {
    let digits = [
        Key::Num0, Key::Num1, Key::Num2, Key::Num3, Key::Num4, Key::Num5, Key::Num6, Key::Num7,
        Key::Num8, Key::Num9,
    ];
    let main_row = [
        scancode::NUM_0, scancode::NUM_1, scancode::NUM_2, scancode::NUM_3, scancode::NUM_4,
        scancode::NUM_5, scancode::NUM_6, scancode::NUM_7, scancode::NUM_8, scancode::NUM_9,
    ];
    let keypad = [
        scancode::KP_0, scancode::KP_1, scancode::KP_2, scancode::KP_3, scancode::KP_4,
        scancode::KP_5, scancode::KP_6, scancode::KP_7, scancode::KP_8, scancode::KP_9,
    ];
    for d in 0..10 {
        assert_eq!(key_map(main_row[d]), Some(digits[d]));
        assert_eq!(key_map(keypad[d]), Some(digits[d]));
    }
}

#[test]
fn named_keys_map() {
    assert_eq!(key_map(scancode::LEFT), Some(Key::ArrowLeft));
    assert_eq!(key_map(scancode::UP), Some(Key::ArrowUp));
    assert_eq!(key_map(scancode::RIGHT), Some(Key::ArrowRight));
    assert_eq!(key_map(scancode::DOWN), Some(Key::ArrowDown));
    assert_eq!(key_map(scancode::ESCAPE), Some(Key::Escape));
    assert_eq!(key_map(scancode::TAB), Some(Key::Tab));
    assert_eq!(key_map(scancode::BACKSPACE), Some(Key::Backspace));
    assert_eq!(key_map(scancode::SPACE), Some(Key::Space));
    assert_eq!(key_map(scancode::RETURN), Some(Key::Enter));
    assert_eq!(key_map(scancode::INSERT), Some(Key::Insert));
    assert_eq!(key_map(scancode::HOME), Some(Key::Home));
    assert_eq!(key_map(scancode::DELETE), Some(Key::Delete));
    assert_eq!(key_map(scancode::END), Some(Key::End));
    assert_eq!(key_map(scancode::PAGEDOWN), Some(Key::PageDown));
    assert_eq!(key_map(scancode::PAGEUP), Some(Key::PageUp));
}

#[test]
fn other_codes_have_no_key() {
    assert_eq!(key_map(scancode::UNKNOWN), None);
    assert_eq!(key_map(3), None);
    assert_eq!(key_map(scancode::MINUS), None);
    assert_eq!(key_map(scancode::F1), None);
    assert_eq!(key_map(scancode::F12), None);
    assert_eq!(key_map(72), None);
    assert_eq!(key_map(83), None);
    assert_eq!(key_map(scancode::KP_ENTER), None);
    assert_eq!(key_map(99), None);
    assert_eq!(key_map(scancode::LCTRL), None);
    assert_eq!(key_map(scancode::RGUI), None);
    assert_eq!(key_map(512), None);
    assert_eq!(key_map(u32::MAX), None);
}

#[test]
fn exactly_fifty_one_codes_have_a_key() {
    let mapped = (0u32..600).filter(|code| key_map(*code).is_some()).count();
    assert_eq!(mapped, 26 + 10 + 10 + 15);
}

#[test]
fn modifiers_join_left_and_right() {
    let none = ModState::none();
    assert!(!none.ctrl());
    assert_eq!(
        none.modifiers(),
        Modifiers { alt: false, ctrl: false, shift: false, mac_cmd: false, command: false }
    );
    let right = ModState {
        right_shift: true,
        right_ctrl: true,
        right_alt: true,
        right_gui: true,
        ..none
    };
    assert!(right.ctrl());
    assert_eq!(
        right.modifiers(),
        Modifiers { alt: true, ctrl: true, shift: true, mac_cmd: true, command: false }
    );
    let left_ctrl = ModState { left_ctrl: true, ..none };
    assert!(left_ctrl.ctrl());
    assert_eq!(
        left_ctrl.modifiers(),
        Modifiers { alt: false, ctrl: true, shift: false, mac_cmd: false, command: true }
    );
    let left_gui = ModState { left_gui: true, ..none };
    assert!(!left_gui.ctrl());
    assert_eq!(
        left_gui.modifiers(),
        Modifiers { alt: false, ctrl: false, shift: false, mac_cmd: true, command: true }
    );
    let left_shift_alt = ModState { left_shift: true, left_alt: true, ..none };
    assert_eq!(
        left_shift_alt.modifiers(),
        Modifiers { alt: true, ctrl: false, shift: true, mac_cmd: false, command: false }
    );
}
