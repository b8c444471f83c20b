//! Broadcast relay: fan-out to independent listeners, registration
//! semantics, and the drop-oldest overflow policy.

use psychophysics::input::{Key, KeyEvent, KeyPressReceiver, KeyState};
use psychophysics::pwindow::{Window, KEY_EVENT_BUFFER};

fn event(key: Key, state: KeyState) -> KeyEvent {
    KeyEvent { key, state }
}

#[test]
fn two_listeners_registered_before_a_publish_both_receive_it() {
    let (window, key_sender) = Window::new();
    let mut first = KeyPressReceiver::new(&window);
    let mut second = KeyPressReceiver::new(&window);
    key_sender.try_broadcast(event(Key::R, KeyState::Pressed)).unwrap();
    let got_first = first.get_keys();
    let got_second = second.get_keys();
    assert_eq!(got_first.len(), 1);
    assert_eq!(got_second.len(), 1);
    assert!(got_first[0].key == Key::R);
    assert!(got_first[0].state == KeyState::Pressed);
    assert!(got_second[0].key == Key::R);
}

#[test]
fn listener_registered_after_a_publish_does_not_see_it() {
    let (window, key_sender) = Window::new();
    // someone must be listening or the relay reports no listeners
    let mut early = KeyPressReceiver::new(&window);
    key_sender.try_broadcast(event(Key::G, KeyState::Pressed)).unwrap();
    let mut late = KeyPressReceiver::new(&window);
    assert_eq!(late.get_keys().len(), 0);
    assert_eq!(early.get_keys().len(), 1);
}

#[test]
fn publish_without_listeners_does_not_block_or_panic() {
    let (_window, key_sender) = Window::new();
    // only the deactivated hub exists: the relay reports inactive listeners
    let r = key_sender.try_broadcast(event(Key::A, KeyState::Pressed));
    assert!(r.is_err());
}

#[test]
fn overflow_drops_the_oldest_event_not_the_newest() {
    let (window, key_sender) = Window::new();
    let mut listener = KeyPressReceiver::new(&window);
    // the first event is the distinguished oldest one
    key_sender.try_broadcast(event(Key::A, KeyState::Pressed)).unwrap();
    // fill the rest of the buffer, then one more to force an overflow
    for _ in 0..KEY_EVENT_BUFFER {
        key_sender.try_broadcast(event(Key::B, KeyState::Pressed)).unwrap();
    }
    // the drain first reports the overflow (an empty batch), then resumes
    let first_batch = listener.get_keys();
    assert_eq!(first_batch.len(), 0);
    let second_batch = listener.get_keys();
    assert_eq!(second_batch.len(), KEY_EVENT_BUFFER);
    // the oldest event (Key::A) is gone; every survivor is Key::B
    for e in &second_batch {
        assert!(e.key == Key::B);
    }
}

#[test]
fn get_keys_returns_buffered_events_oldest_first() {
    let (window, key_sender) = Window::new();
    let mut listener = KeyPressReceiver::new(&window);
    key_sender.try_broadcast(event(Key::A, KeyState::Pressed)).unwrap();
    key_sender.try_broadcast(event(Key::A, KeyState::Released)).unwrap();
    key_sender.try_broadcast(event(Key::B, KeyState::Pressed)).unwrap();
    let got = listener.get_keys();
    assert_eq!(got.len(), 3);
    assert!(got[0].key == Key::A && got[0].state == KeyState::Pressed);
    assert!(got[1].key == Key::A && got[1].state == KeyState::Released);
    assert!(got[2].key == Key::B && got[2].state == KeyState::Pressed);
    // drained means drained: a second call finds nothing
    assert_eq!(listener.get_keys().len(), 0);
}

#[test]
fn listeners_consume_independently() {
    let (window, key_sender) = Window::new();
    let mut first = KeyPressReceiver::new(&window);
    key_sender.try_broadcast(event(Key::C, KeyState::Pressed)).unwrap();
    // draining one listener leaves the other's buffer untouched
    assert_eq!(first.get_keys().len(), 1);
    let mut second = KeyPressReceiver::new(&window);
    key_sender.try_broadcast(event(Key::D, KeyState::Pressed)).unwrap();
    assert_eq!(first.get_keys().len(), 1);
    assert_eq!(second.get_keys().len(), 1);
}
