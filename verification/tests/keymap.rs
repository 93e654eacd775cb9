use keycoury::keycodes::Keycode;
use keycoury::layers::Layers;

#[test]
fn usage_ids_follow_the_hid_convention() {
    assert_eq!(Keycode::No.to_byte(), 0x00);
    assert_eq!(Keycode::A.to_byte(), 0x04);
    assert_eq!(Keycode::B.to_byte(), 0x05);
    assert_eq!(Keycode::Z.to_byte(), 0x1D);
    assert_eq!(Keycode::N1.to_byte(), 0x1E);
    assert_eq!(Keycode::N0.to_byte(), 0x27);
    assert_eq!(Keycode::Enter.to_byte(), 0x28);
    assert_eq!(Keycode::CapsLock.to_byte(), 0x39);
    assert_eq!(Keycode::F1.to_byte(), 0x3A);
    assert_eq!(Keycode::F12.to_byte(), 0x45);
    assert_eq!(Keycode::Up.to_byte(), 0x52);
    assert_eq!(Keycode::Kp0.to_byte(), 0x62);
    assert_eq!(Keycode::F24.to_byte(), 0x73);
    assert_eq!(Keycode::ExSel.to_byte(), 0xA4);
    assert_eq!(Keycode::LCtrl.to_byte(), 0xE0);
    assert_eq!(Keycode::RGui.to_byte(), 0xE7);
}

#[test]
fn exactly_the_eight_modifiers_are_modifiers() {
    let modifiers = [
        Keycode::LCtrl,
        Keycode::LShift,
        Keycode::LAlt,
        Keycode::LGui,
        Keycode::RCtrl,
        Keycode::RShift,
        Keycode::RAlt,
        Keycode::RGui,
    ];
    for m in modifiers {
        assert!(m.is_modifier());
    }
    assert!(!Keycode::No.is_modifier());
    assert!(!Keycode::A.is_modifier());
    assert!(!Keycode::F12.is_modifier());
    assert!(!Keycode::ExSel.is_modifier());
}

#[test]
fn each_modifier_owns_one_mask_bit() {
    assert_eq!(Keycode::LCtrl.to_modifier_bitfield(), 0x01);
    assert_eq!(Keycode::LShift.to_modifier_bitfield(), 0x02);
    assert_eq!(Keycode::LAlt.to_modifier_bitfield(), 0x04);
    assert_eq!(Keycode::LGui.to_modifier_bitfield(), 0x08);
    assert_eq!(Keycode::RCtrl.to_modifier_bitfield(), 0x10);
    assert_eq!(Keycode::RShift.to_modifier_bitfield(), 0x20);
    assert_eq!(Keycode::RAlt.to_modifier_bitfield(), 0x40);
    assert_eq!(Keycode::RGui.to_modifier_bitfield(), 0x80);
    assert_eq!(Keycode::A.to_modifier_bitfield(), 0x00);
    assert_eq!(Keycode::No.to_modifier_bitfield(), 0x00);
}

#[test]
fn the_base_layer_maps_letters_and_digits() {
    let layers = Layers::new();
    assert_eq!(layers.get_current_layer(), 0);
    assert_eq!(layers.get_keycode(0, 0, 0), Keycode::A);
    assert_eq!(layers.get_keycode(0, 0, 1), Keycode::B);
    assert_eq!(layers.get_keycode(0, 0, 7), Keycode::H);
    assert_eq!(layers.get_keycode(0, 1, 0), Keycode::I);
    assert_eq!(layers.get_keycode(0, 2, 7), Keycode::X);
    assert_eq!(layers.get_keycode(0, 3, 0), Keycode::Y);
    assert_eq!(layers.get_keycode(0, 3, 7), Keycode::N6);
}

#[test]
fn the_function_layer_maps_function_keys() {
    let layers = Layers::new();
    assert_eq!(layers.get_keycode(1, 0, 0), Keycode::F1);
    assert_eq!(layers.get_keycode(1, 0, 7), Keycode::F8);
    assert_eq!(layers.get_keycode(1, 1, 3), Keycode::F12);
    assert_eq!(layers.get_keycode(1, 1, 4), Keycode::No);
    assert_eq!(layers.get_keycode(1, 2, 0), Keycode::No);
    assert_eq!(layers.get_keycode(1, 3, 7), Keycode::No);
}

#[test]
fn set_layer_switches_between_valid_layers() {
    let mut layers = Layers::new();
    layers.set_layer(1);
    assert_eq!(layers.get_current_layer(), 1);
    layers.set_layer(0);
    assert_eq!(layers.get_current_layer(), 0);
}

#[test]
fn an_out_of_range_layer_request_is_ignored() {
    let mut layers = Layers::new();
    layers.set_layer(1);
    layers.set_layer(2);
    assert_eq!(layers.get_current_layer(), 1);
    layers.set_layer(usize::MAX);
    assert_eq!(layers.get_current_layer(), 1);
}
