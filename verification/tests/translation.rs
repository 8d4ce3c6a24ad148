use egui_window_winit::config::WinitConfig;
use egui_window_winit::input::{
    winit_modifiers_to_egui, winit_mouse_button_to_egui, Modifiers, ModifiersState, MouseButton,
    PointerButton, ALT_BIT, CTRL_BIT, LOGO_BIT, SHIFT_BIT,
};
use egui_window_winit::keys::{winit_key_to_egui, Key, KeyCode};

#[test]
fn digits_of_both_rows_give_the_same_key() {
    assert_eq!(winit_key_to_egui(KeyCode::Key0), Some(Key::Num0));
    assert_eq!(winit_key_to_egui(KeyCode::Numpad0), Some(Key::Num0));
    assert_eq!(winit_key_to_egui(KeyCode::Key7), Some(Key::Num7));
    assert_eq!(winit_key_to_egui(KeyCode::Numpad7), Some(Key::Num7));
    assert_eq!(winit_key_to_egui(KeyCode::Key9), Some(Key::Num9));
    assert_eq!(winit_key_to_egui(KeyCode::Numpad9), Some(Key::Num9));
}

#[test]
fn named_keys_translate() {
    assert_eq!(winit_key_to_egui(KeyCode::Down), Some(Key::ArrowDown));
    assert_eq!(winit_key_to_egui(KeyCode::Left), Some(Key::ArrowLeft));
    assert_eq!(winit_key_to_egui(KeyCode::Back), Some(Key::Backspace));
    assert_eq!(winit_key_to_egui(KeyCode::Return), Some(Key::Enter));
    assert_eq!(winit_key_to_egui(KeyCode::PageDown), Some(Key::PageDown));
    assert_eq!(winit_key_to_egui(KeyCode::A), Some(Key::A));
    assert_eq!(winit_key_to_egui(KeyCode::Z), Some(Key::Z));
    assert_eq!(winit_key_to_egui(KeyCode::F1), Some(Key::F1));
    assert_eq!(winit_key_to_egui(KeyCode::F20), Some(Key::F20));
}

#[test]
fn keys_without_an_egui_key_give_none() {
    assert_eq!(winit_key_to_egui(KeyCode::F21), None);
    assert_eq!(winit_key_to_egui(KeyCode::LShift), None);
    assert_eq!(winit_key_to_egui(KeyCode::Minus), None);
    assert_eq!(winit_key_to_egui(KeyCode::Plus), None);
    assert_eq!(winit_key_to_egui(KeyCode::NumpadEnter), None);
    assert_eq!(winit_key_to_egui(KeyCode::Cut), None);
}

#[test]
fn no_modifier_bits_give_no_modifiers() {
    assert_eq!(winit_modifiers_to_egui(ModifiersState { bits: 0 }), Modifiers::none());
}

#[test]
fn modifier_bits_translate_one_by_one() {
    let m = winit_modifiers_to_egui(ModifiersState { bits: ALT_BIT | LOGO_BIT });
    assert_eq!(m, Modifiers { alt: true, ctrl: false, shift: false, mac_cmd: false, command: true });
    let m = winit_modifiers_to_egui(ModifiersState { bits: CTRL_BIT | SHIFT_BIT });
    assert_eq!(m, Modifiers { alt: false, ctrl: true, shift: true, mac_cmd: false, command: false });
}

#[test]
fn all_modifiers_never_set_mac_cmd() {
    let m = winit_modifiers_to_egui(ModifiersState { bits: SHIFT_BIT | CTRL_BIT | ALT_BIT | LOGO_BIT });
    assert_eq!(m, Modifiers { alt: true, ctrl: true, shift: true, mac_cmd: false, command: true });
}

#[test]
fn modifier_bits_match_winit() {
    assert_eq!(SHIFT_BIT, winit::event::ModifiersState::SHIFT.bits());
    assert_eq!(CTRL_BIT, winit::event::ModifiersState::CTRL.bits());
    assert_eq!(ALT_BIT, winit::event::ModifiersState::ALT.bits());
    assert_eq!(LOGO_BIT, winit::event::ModifiersState::LOGO.bits());
}

#[test]
fn mouse_buttons_translate() {
    assert_eq!(winit_mouse_button_to_egui(MouseButton::Left), PointerButton::Primary);
    assert_eq!(winit_mouse_button_to_egui(MouseButton::Right), PointerButton::Secondary);
    assert_eq!(winit_mouse_button_to_egui(MouseButton::Middle), PointerButton::Middle);
    assert_eq!(winit_mouse_button_to_egui(MouseButton::Other(4)), PointerButton::Extra1);
    assert_eq!(winit_mouse_button_to_egui(MouseButton::Other(9)), PointerButton::Extra1);
}

#[test]
fn default_config_names_title_and_canvas() {
    let config = WinitConfig::default();
    assert_eq!(config.title, "egui winit window");
    assert_eq!(config.dom_element_id, Some("egui_canvas".to_string()));
}
