//! Keyboard input model: keys, key states, observed transitions, and the
//! wildcard equality rule that listener-side filtering applies.
//!
//! `Key::Any` and `KeyState::Any` are wildcards: each compares equal to every
//! value of its type, on either side of `==`. Concrete values compare equal
//! only to themselves.

use vstd::prelude::*;

use crate::pwindow::Window;

verus! {

#[verifier::external_type_specification]
#[verifier::external_body]
#[verifier::reject_recursive_types(T)]
pub struct ExBroadcastSender<T>(async_broadcast::Sender<T>);

#[verifier::external_type_specification]
#[verifier::external_body]
#[verifier::reject_recursive_types(T)]
pub struct ExBroadcastReceiver<T>(async_broadcast::Receiver<T>);

#[verifier::external_type_specification]
#[verifier::external_body]
#[verifier::reject_recursive_types(T)]
pub struct ExInactiveReceiver<T>(async_broadcast::InactiveReceiver<T>);

/// A platform-neutral physical key, plus the wildcard `Any`.
#[derive(Debug, Clone, Copy, Hash)]
pub enum Key {
    Key1,
    Key2,
    Key3,
    Key4,
    Key5,
    Key6,
    Key7,
    Key8,
    Key9,
    Key0,
    A,
    B,
    C,
    D,
    E,
    F,
    G,
    H,
    I,
    J,
    K,
    L,
    M,
    N,
    O,
    P,
    Q,
    R,
    S,
    T,
    U,
    V,
    W,
    X,
    Y,
    Z,
    Escape,
    F1,
    F2,
    F3,
    F4,
    F5,
    F6,
    F7,
    F8,
    F9,
    F10,
    F11,
    F12,
    F13,
    F14,
    F15,
    F16,
    F17,
    F18,
    F19,
    F20,
    F21,
    F22,
    F23,
    F24,
    Snapshot,
    Scroll,
    Pause,
    Insert,
    Home,
    Delete,
    End,
    PageDown,
    PageUp,
    Left,
    Up,
    Right,
    Down,
    Back,
    Return,
    Space,
    Compose,
    Caret,
    Numlock,
    Numpad0,
    Numpad1,
    Numpad2,
    Numpad3,
    Numpad4,
    Numpad5,
    Numpad6,
    Numpad7,
    Numpad8,
    Numpad9,
    NumpadAdd,
    NumpadDivide,
    NumpadDecimal,
    NumpadComma,
    NumpadEnter,
    NumpadEquals,
    NumpadMultiply,
    NumpadSubtract,
    AbntC1,
    AbntC2,
    Apostrophe,
    Apps,
    Asterisk,
    At,
    Ax,
    Backslash,
    Calculator,
    Capital,
    Colon,
    Comma,
    Convert,
    Equals,
    Grave,
    Kana,
    Kanji,
    LAlt,
    LBracket,
    LControl,
    LShift,
    LWin,
    Mail,
    MediaSelect,
    MediaStop,
    Minus,
    Mute,
    MyComputer,
    NavigateForward,
    NavigateBackward,
    NextTrack,
    NoConvert,
    OEM102,
    Period,
    PlayPause,
    Plus,
    Power,
    PrevTrack,
    RAlt,
    RBracket,
    RControl,
    RShift,
    RWin,
    Semicolon,
    Slash,
    Sleep,
    Stop,
    Sysrq,
    Tab,
    Underline,
    Unlabeled,
    VolumeDown,
    VolumeUp,
    Wake,
    WebBack,
    WebFavorites,
    WebForward,
    WebHome,
    WebRefresh,
    WebSearch,
    WebStop,
    Yen,
    Copy,
    Paste,
    Cut,
    /// The wildcard: compares equal to every key.
    Any,
}

/// Wildcard equality on keys: `Any` matches everything, concrete keys
/// match only themselves.
pub open spec fn key_eq(a: Key, b: Key) -> bool {
    a is Any || b is Any || a == b
}

/// A key transition direction, plus the wildcard `Any`.
#[derive(Debug, Clone, Copy, Hash)]
pub enum KeyState {
    Pressed,
    Released,
    /// The wildcard: compares equal to every key state.
    Any,
}

/// Wildcard equality on key states.
pub open spec fn state_eq(a: KeyState, b: KeyState) -> bool {
    a is Any || b is Any || a == b
}

/// One observed key transition: which key, and in which direction.
#[derive(Debug, Clone, Copy, Hash)]
pub struct KeyEvent {
    pub key: Key,
    pub state: KeyState,
}

/// Wildcard equality on key events: both fields must match under the
/// wildcard rule of their type.
pub open spec fn event_eq(a: KeyEvent, b: KeyEvent) -> bool {
    key_eq(a.key, b.key) && state_eq(a.state, b.state)
}

impl PartialEq for Key {
    fn eq(&self, other: &Key) -> (r: bool) {
        match (self, other) {
            (Key::Any, _) => true,
            (_, Key::Any) => true,
            (Key::Key1, Key::Key1) => true,
            (Key::Key2, Key::Key2) => true,
            (Key::Key3, Key::Key3) => true,
            (Key::Key4, Key::Key4) => true,
            (Key::Key5, Key::Key5) => true,
            (Key::Key6, Key::Key6) => true,
            (Key::Key7, Key::Key7) => true,
            (Key::Key8, Key::Key8) => true,
            (Key::Key9, Key::Key9) => true,
            (Key::Key0, Key::Key0) => true,
            (Key::A, Key::A) => true,
            (Key::B, Key::B) => true,
            (Key::C, Key::C) => true,
            (Key::D, Key::D) => true,
            (Key::E, Key::E) => true,
            (Key::F, Key::F) => true,
            (Key::G, Key::G) => true,
            (Key::H, Key::H) => true,
            (Key::I, Key::I) => true,
            (Key::J, Key::J) => true,
            (Key::K, Key::K) => true,
            (Key::L, Key::L) => true,
            (Key::M, Key::M) => true,
            (Key::N, Key::N) => true,
            (Key::O, Key::O) => true,
            (Key::P, Key::P) => true,
            (Key::Q, Key::Q) => true,
            (Key::R, Key::R) => true,
            (Key::S, Key::S) => true,
            (Key::T, Key::T) => true,
            (Key::U, Key::U) => true,
            (Key::V, Key::V) => true,
            (Key::W, Key::W) => true,
            (Key::X, Key::X) => true,
            (Key::Y, Key::Y) => true,
            (Key::Z, Key::Z) => true,
            (Key::Escape, Key::Escape) => true,
            (Key::F1, Key::F1) => true,
            (Key::F2, Key::F2) => true,
            (Key::F3, Key::F3) => true,
            (Key::F4, Key::F4) => true,
            (Key::F5, Key::F5) => true,
            (Key::F6, Key::F6) => true,
            (Key::F7, Key::F7) => true,
            (Key::F8, Key::F8) => true,
            (Key::F9, Key::F9) => true,
            (Key::F10, Key::F10) => true,
            (Key::F11, Key::F11) => true,
            (Key::F12, Key::F12) => true,
            (Key::F13, Key::F13) => true,
            (Key::F14, Key::F14) => true,
            (Key::F15, Key::F15) => true,
            (Key::F16, Key::F16) => true,
            (Key::F17, Key::F17) => true,
            (Key::F18, Key::F18) => true,
            (Key::F19, Key::F19) => true,
            (Key::F20, Key::F20) => true,
            (Key::F21, Key::F21) => true,
            (Key::F22, Key::F22) => true,
            (Key::F23, Key::F23) => true,
            (Key::F24, Key::F24) => true,
            (Key::Snapshot, Key::Snapshot) => true,
            (Key::Scroll, Key::Scroll) => true,
            (Key::Pause, Key::Pause) => true,
            (Key::Insert, Key::Insert) => true,
            (Key::Home, Key::Home) => true,
            (Key::Delete, Key::Delete) => true,
            (Key::End, Key::End) => true,
            (Key::PageDown, Key::PageDown) => true,
            (Key::PageUp, Key::PageUp) => true,
            (Key::Left, Key::Left) => true,
            (Key::Up, Key::Up) => true,
            (Key::Right, Key::Right) => true,
            (Key::Down, Key::Down) => true,
            (Key::Back, Key::Back) => true,
            (Key::Return, Key::Return) => true,
            (Key::Space, Key::Space) => true,
            (Key::Compose, Key::Compose) => true,
            (Key::Caret, Key::Caret) => true,
            (Key::Numlock, Key::Numlock) => true,
            (Key::Numpad0, Key::Numpad0) => true,
            (Key::Numpad1, Key::Numpad1) => true,
            (Key::Numpad2, Key::Numpad2) => true,
            (Key::Numpad3, Key::Numpad3) => true,
            (Key::Numpad4, Key::Numpad4) => true,
            (Key::Numpad5, Key::Numpad5) => true,
            (Key::Numpad6, Key::Numpad6) => true,
            (Key::Numpad7, Key::Numpad7) => true,
            (Key::Numpad8, Key::Numpad8) => true,
            (Key::Numpad9, Key::Numpad9) => true,
            (Key::NumpadAdd, Key::NumpadAdd) => true,
            (Key::NumpadDivide, Key::NumpadDivide) => true,
            (Key::NumpadDecimal, Key::NumpadDecimal) => true,
            (Key::NumpadComma, Key::NumpadComma) => true,
            (Key::NumpadEnter, Key::NumpadEnter) => true,
            (Key::NumpadEquals, Key::NumpadEquals) => true,
            (Key::NumpadMultiply, Key::NumpadMultiply) => true,
            (Key::NumpadSubtract, Key::NumpadSubtract) => true,
            (Key::AbntC1, Key::AbntC1) => true,
            (Key::AbntC2, Key::AbntC2) => true,
            (Key::Apostrophe, Key::Apostrophe) => true,
            (Key::Apps, Key::Apps) => true,
            (Key::Asterisk, Key::Asterisk) => true,
            (Key::At, Key::At) => true,
            (Key::Ax, Key::Ax) => true,
            (Key::Backslash, Key::Backslash) => true,
            (Key::Calculator, Key::Calculator) => true,
            (Key::Capital, Key::Capital) => true,
            (Key::Colon, Key::Colon) => true,
            (Key::Comma, Key::Comma) => true,
            (Key::Convert, Key::Convert) => true,
            (Key::Equals, Key::Equals) => true,
            (Key::Grave, Key::Grave) => true,
            (Key::Kana, Key::Kana) => true,
            (Key::Kanji, Key::Kanji) => true,
            (Key::LAlt, Key::LAlt) => true,
            (Key::LBracket, Key::LBracket) => true,
            (Key::LControl, Key::LControl) => true,
            (Key::LShift, Key::LShift) => true,
            (Key::LWin, Key::LWin) => true,
            (Key::Mail, Key::Mail) => true,
            (Key::MediaSelect, Key::MediaSelect) => true,
            (Key::MediaStop, Key::MediaStop) => true,
            (Key::Minus, Key::Minus) => true,
            (Key::Mute, Key::Mute) => true,
            (Key::MyComputer, Key::MyComputer) => true,
            (Key::NavigateForward, Key::NavigateForward) => true,
            (Key::NavigateBackward, Key::NavigateBackward) => true,
            (Key::NextTrack, Key::NextTrack) => true,
            (Key::NoConvert, Key::NoConvert) => true,
            (Key::OEM102, Key::OEM102) => true,
            (Key::Period, Key::Period) => true,
            (Key::PlayPause, Key::PlayPause) => true,
            (Key::Plus, Key::Plus) => true,
            (Key::Power, Key::Power) => true,
            (Key::PrevTrack, Key::PrevTrack) => true,
            (Key::RAlt, Key::RAlt) => true,
            (Key::RBracket, Key::RBracket) => true,
            (Key::RControl, Key::RControl) => true,
            (Key::RShift, Key::RShift) => true,
            (Key::RWin, Key::RWin) => true,
            (Key::Semicolon, Key::Semicolon) => true,
            (Key::Slash, Key::Slash) => true,
            (Key::Sleep, Key::Sleep) => true,
            (Key::Stop, Key::Stop) => true,
            (Key::Sysrq, Key::Sysrq) => true,
            (Key::Tab, Key::Tab) => true,
            (Key::Underline, Key::Underline) => true,
            (Key::Unlabeled, Key::Unlabeled) => true,
            (Key::VolumeDown, Key::VolumeDown) => true,
            (Key::VolumeUp, Key::VolumeUp) => true,
            (Key::Wake, Key::Wake) => true,
            (Key::WebBack, Key::WebBack) => true,
            (Key::WebFavorites, Key::WebFavorites) => true,
            (Key::WebForward, Key::WebForward) => true,
            (Key::WebHome, Key::WebHome) => true,
            (Key::WebRefresh, Key::WebRefresh) => true,
            (Key::WebSearch, Key::WebSearch) => true,
            (Key::WebStop, Key::WebStop) => true,
            (Key::Yen, Key::Yen) => true,
            (Key::Copy, Key::Copy) => true,
            (Key::Paste, Key::Paste) => true,
            (Key::Cut, Key::Cut) => true,
            _ => false,
        }
    }
}

impl Eq for Key {
}

impl vstd::std_specs::cmp::PartialEqSpecImpl for Key {
    open spec fn obeys_eq_spec() -> bool {
        true
    }

    open spec fn eq_spec(&self, other: &Key) -> bool {
        key_eq(*self, *other)
    }
}

impl PartialEq for KeyState {
    fn eq(&self, other: &KeyState) -> (r: bool) {
        match (self, other) {
            (KeyState::Any, _) => true,
            (_, KeyState::Any) => true,
            (KeyState::Pressed, KeyState::Pressed) => true,
            (KeyState::Released, KeyState::Released) => true,
            _ => false,
        }
    }
}

impl Eq for KeyState {
}

impl vstd::std_specs::cmp::PartialEqSpecImpl for KeyState {
    open spec fn obeys_eq_spec() -> bool {
        true
    }

    open spec fn eq_spec(&self, other: &KeyState) -> bool {
        state_eq(*self, *other)
    }
}

impl PartialEq for KeyEvent {
    fn eq(&self, other: &KeyEvent) -> (r: bool) {
        self.key == other.key && self.state == other.state
    }
}

impl Eq for KeyEvent {
}

impl vstd::std_specs::cmp::PartialEqSpecImpl for KeyEvent {
    open spec fn obeys_eq_spec() -> bool {
        true
    }

    open spec fn eq_spec(&self, other: &KeyEvent) -> bool {
        event_eq(*self, *other)
    }
}

impl PartialEq<Key> for KeyEvent {
    fn eq(&self, other: &Key) -> (r: bool) {
        self.key == *other
    }
}

impl vstd::std_specs::cmp::PartialEqSpecImpl<Key> for KeyEvent {
    open spec fn obeys_eq_spec() -> bool {
        true
    }

    open spec fn eq_spec(&self, other: &Key) -> bool {
        key_eq(self.key, *other)
    }
}

impl PartialEq<KeyEvent> for Key {
    fn eq(&self, other: &KeyEvent) -> (r: bool) {
        *self == other.key
    }
}

impl vstd::std_specs::cmp::PartialEqSpecImpl<KeyEvent> for Key {
    open spec fn obeys_eq_spec() -> bool {
        true
    }

    open spec fn eq_spec(&self, other: &KeyEvent) -> bool {
        key_eq(*self, other.key)
    }
}

/// The wildcard laws for keys: `Any` equals every key on either side,
/// wildcard equality is commutative, and on concrete keys it coincides
/// with structural equality (so it is reflexive, and distinct concrete
/// keys are unequal).
pub proof fn lemma_key_wildcard(x: Key, y: Key)
    ensures
        key_eq(Key::Any, x),
        key_eq(x, Key::Any),
        key_eq(x, y) == key_eq(y, x),
        !(x is Any) && !(y is Any) ==> (key_eq(x, y) <==> x == y),
{
}

/// The wildcard laws for key states, mirroring those for keys.
pub proof fn lemma_state_wildcard(x: KeyState, y: KeyState)
    ensures
        state_eq(KeyState::Any, x),
        state_eq(x, KeyState::Any),
        state_eq(x, y) == state_eq(y, x),
        !(x is Any) && !(y is Any) ==> (state_eq(x, y) <==> x == y),
{
}


/// Relies on Clone for async_broadcast::InactiveReceiver: the copy is a
/// handle to the same relay, still buffering nothing.
pub assume_specification<T>[ <async_broadcast::InactiveReceiver<T> as std::clone::Clone>::clone ](
    receiver: &async_broadcast::InactiveReceiver<T>,
) -> async_broadcast::InactiveReceiver<T>;

/// The outcome of a non-blocking receive from the broadcast relay.
pub enum RecvAttempt<T> {
    /// The next buffered event for this listener.
    Received(T),
    /// The listener's buffer overflowed since it last looked: the given
    /// number of oldest events were dropped in favor of newer ones.
    /// The next receive resumes at the oldest surviving event.
    Overflowed(u64),
    /// Nothing is buffered right now.
    Empty,
    /// The relay is closed and drained.
    Closed,
}

/// Relies on async_broadcast::broadcast: a fan-out channel buffering at
/// most `cap` events per listener; every active listener receives every
/// published event. `broadcast` panics on a zero capacity, so that input
/// is excluded.
#[verifier::external_body]
fn relay_channel<T>(cap: usize) -> (r: (async_broadcast::Sender<T>, async_broadcast::Receiver<
    T>))
    requires
        cap >= 1,
{
    async_broadcast::broadcast(cap)
}

/// Relies on async_broadcast::Sender::set_overflow: with overflow mode on,
/// publishing into a full buffer drops that buffer's oldest event rather
/// than failing or blocking the publisher.
#[verifier::external_body]
fn relay_set_overflow<T>(sender: &mut async_broadcast::Sender<T>, overflow: bool) {
    sender.set_overflow(overflow);
}

/// Relies on async_broadcast::Receiver::deactivate: the returned handle
/// keeps the relay open without buffering events itself.
#[verifier::external_body]
fn relay_deactivate<T>(receiver: async_broadcast::Receiver<T>) -> (r:
    async_broadcast::InactiveReceiver<T>) {
    receiver.deactivate()
}

/// Relies on async_broadcast::InactiveReceiver::activate_cloned: the
/// returned listener is independent of every other listener and starts at
/// the relay's current position, so it only sees events published after
/// this call.
#[verifier::external_body]
fn relay_activate_cloned<T>(receiver: &async_broadcast::InactiveReceiver<T>) -> (r:
    async_broadcast::Receiver<T>) {
    receiver.activate_cloned()
}

/// Relies on async_broadcast::Receiver::try_recv: returns the oldest
/// event buffered for this listener without blocking, or reports an
/// overflow, an empty buffer, or a closed relay.
#[verifier::external_body]
fn relay_try_recv<T: Clone>(receiver: &mut async_broadcast::Receiver<T>) -> (r: RecvAttempt<T>) {
    match receiver.try_recv() {
        Ok(event) => RecvAttempt::Received(event),
        Err(async_broadcast::TryRecvError::Overflowed(n)) => RecvAttempt::Overflowed(n),
        Err(async_broadcast::TryRecvError::Empty) => RecvAttempt::Empty,
        Err(async_broadcast::TryRecvError::Closed) => RecvAttempt::Closed,
    }
}

/// Builds the keyboard relay with the core's topology: the given
/// per-listener buffer capacity, overflow mode on (recency beats
/// completeness under load), and the listening end handed out deactivated
/// so nothing buffers until a listener registers.
pub(crate) fn relay_new(cap: usize) -> (
    async_broadcast::Sender<KeyEvent>,
    async_broadcast::InactiveReceiver<KeyEvent>,
)
    requires
        cap >= 1,
{
    let (mut sender, receiver) = relay_channel(cap);
    relay_set_overflow(&mut sender, true);
    let inactive = relay_deactivate(receiver);
    (sender, inactive)
}

/// An independent listener on a window's keyboard broadcast relay.
///
/// Each consumer obtains its own cloned receiver, so concurrent listeners
/// do not interfere with each other's consumption; a listener only sees
/// events published after it registered.
pub struct KeyPressReceiver {
    receiver: async_broadcast::Receiver<KeyEvent>,
}

impl KeyPressReceiver {
    /// Registers a fresh, independent listener on the window's relay.
    pub fn new(window: &Window) -> (r: KeyPressReceiver) {
        KeyPressReceiver { receiver: relay_activate_cloned(&window.keyboard_receiver) }
    }

    /// Drains and returns the key events currently buffered for this
    /// listener, oldest first, without blocking. One call drains at most
    /// the relay's whole per-listener buffer.
    ///
    /// The drain stops at an overflow notice (the next call resumes at
    /// the oldest surviving event), at an empty buffer, or at a closed
    /// relay, so no event is ever delivered twice and none is invented.
    pub fn get_keys(&mut self) -> Vec<KeyEvent> {
        let mut keys: Vec<KeyEvent> = Vec::new();
        let mut budget: usize = crate::pwindow::KEY_EVENT_BUFFER;
        while budget > 0
            decreases budget,
        {
            match relay_try_recv(&mut self.receiver) {
                RecvAttempt::Received(event) => {
                    keys.push(event);
                },
                _ => {
                    return keys;
                },
            }
            budget = budget - 1;
        }
        keys
    }
}

} // verus!
