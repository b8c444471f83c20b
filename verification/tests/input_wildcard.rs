//! Wildcard equality behavior of keys, key states and key events.

use psychophysics::input::{Key, KeyEvent, KeyState};
use psychophysics::visual::Color;

#[test]
fn key_any_equals_every_key() {
    assert!(Key::Any == Key::R);
    assert!(Key::R == Key::Any);
    assert!(Key::Any == Key::Any);
    assert!(Key::Any == Key::Escape);
    assert!(Key::Space == Key::Any);
}

#[test]
fn concrete_keys_compare_by_identity() {
    assert!(Key::R == Key::R);
    assert!(Key::G == Key::G);
    assert!(Key::R != Key::G);
    assert!(Key::Key1 != Key::Numpad1);
    assert!(Key::F1 != Key::Key1);
}

#[test]
fn keystate_any_equals_every_state() {
    assert!(KeyState::Any == KeyState::Pressed);
    assert!(KeyState::Pressed == KeyState::Any);
    assert!(KeyState::Any == KeyState::Released);
    assert!(KeyState::Released == KeyState::Any);
    assert!(KeyState::Any == KeyState::Any);
}

#[test]
fn keystate_concrete_compare_by_identity() {
    assert!(KeyState::Pressed == KeyState::Pressed);
    assert!(KeyState::Released == KeyState::Released);
    assert!(KeyState::Pressed != KeyState::Released);
}

#[test]
fn keyevent_equality_uses_wildcards_on_both_fields() {
    let rp = KeyEvent { key: Key::R, state: KeyState::Pressed };
    let rr = KeyEvent { key: Key::R, state: KeyState::Released };
    let gp = KeyEvent { key: Key::G, state: KeyState::Pressed };
    let any = KeyEvent { key: Key::Any, state: KeyState::Any };
    assert!(rp == rp);
    assert!(rp != rr);
    assert!(rp != gp);
    assert!(any == rp);
    assert!(rr == any);
}

#[test]
fn keyevent_compares_with_bare_key_by_key_only() {
    let rp = KeyEvent { key: Key::R, state: KeyState::Pressed };
    assert!(rp == Key::R);
    assert!(Key::R == rp);
    assert!(rp != Key::G);
    assert!(Key::G != rp);
    assert!(rp == Key::Any);
    assert!(Key::Any == rp);
}

#[test]
fn color_from_triple_is_rgb() {
    let c = Color::from((10u8, 20u8, 30u8));
    assert_eq!(c, Color::RGB { r: 10, g: 20, b: 30 });
}
