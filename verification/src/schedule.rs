//! The presentation loop scheduler and the OS-event decisions.
//!
//! [`loop_frames`] drives repeated frame generation until a caller-supplied
//! wall-clock timeout elapses or an observed key event matches the
//! caller's accepted keys and key state under wildcard equality. Each
//! iteration takes one scheduling decision, [`step_decision`]: the timeout
//! is checked before the drained events, so a timeout exactly coincident
//! with a qualifying keypress resolves as a timeout.
//!
//! [`handle_os_event`] is the OS-event thread's decision function: it maps
//! each observed windowing event to the action the event loop must
//! perform, intercepting the escape key as a global shutdown request that
//! is never delivered to ordinary listeners.

use vstd::prelude::*;

use crate::clock::elapsed_micros;
use crate::errors::PsychophysicsError;
use crate::input::{key_eq, state_eq, Key, KeyEvent, KeyPressReceiver, KeyState};
use crate::pwindow::Window;
use crate::visual::{frame_empty, Frame};
use crate::PFutureReturns;

verus! {

/// True when `k` is accepted by the key set under wildcard equality.
pub open spec fn key_in_set(k: Key, keys: Seq<Key>) -> bool {
    exists|i: int| 0 <= i < keys.len() && key_eq(keys[i], k)
}

/// True when an observed event satisfies the stop condition: its key is
/// in the accepted set and its state matches the accepted state, both
/// under wildcard equality.
pub open spec fn event_matches(e: KeyEvent, keys: Seq<Key>, state: KeyState) -> bool {
    key_in_set(e.key, keys) && state_eq(state, e.state)
}

/// The key of the earliest drained event that satisfies the stop
/// condition, if any: events are examined oldest first and the first
/// match decides, so no event is missed or double-counted.
pub open spec fn first_match(events: Seq<KeyEvent>, keys: Seq<Key>, state: KeyState) -> Option<
    Key,
>
    decreases events.len(),
{
    if events.len() == 0 {
        None
    } else if event_matches(events[0], keys, state) {
        Some(events[0].key)
    } else {
        first_match(events.drop_first(), keys, state)
    }
}

/// True when a wall-clock timeout is set and the elapsed reading exceeds it.
pub open spec fn past_timeout(elapsed: u64, timeout_micros: Option<u64>) -> bool {
    timeout_micros matches Some(t) && elapsed > t
}

/// One scheduling decision of the presentation loop.
#[derive(Debug, Clone, Copy)]
pub enum LoopDecision {
    /// The timeout elapsed; stop without generating another frame.
    TimedOut,
    /// An accepted key event arrived; stop with the matched key.
    Matched(Key),
    /// Neither stopping condition holds; generate the next frame.
    Continue,
}

/// The scheduling decision for one loop iteration. The timeout is checked
/// before the drained events, so a timeout coincident with a qualifying
/// keypress resolves as a timeout (first-checked wins).
pub open spec fn step_decision(
    elapsed: u64,
    timeout_micros: Option<u64>,
    events: Seq<KeyEvent>,
    keys: Seq<Key>,
    state: KeyState,
) -> LoopDecision {
    if past_timeout(elapsed, timeout_micros) {
        LoopDecision::TimedOut
    } else {
        match first_match(events, keys, state) {
            Some(k) => LoopDecision::Matched(k),
            None => LoopDecision::Continue,
        }
    }
}

/// The first match is sound and complete: when it yields a key, some
/// earliest drained event satisfied the stop condition and contributed
/// exactly that key; when it yields nothing, no drained event satisfied
/// the stop condition. In particular an event whose state fails the
/// accepted state never satisfies it, however acceptable its key.
pub proof fn lemma_first_match_sound(events: Seq<KeyEvent>, keys: Seq<Key>, state: KeyState)
    ensures
        first_match(events, keys, state) matches Some(k) ==> exists|i: int|
            {
                &&& 0 <= i < events.len()
                &&& #[trigger] event_matches(events[i], keys, state)
                &&& events[i].key == k
                &&& forall|j: int| 0 <= j < i ==> !event_matches(events[j], keys, state)
            },
        first_match(events, keys, state) is None ==> forall|i: int|
            0 <= i < events.len() ==> !(#[trigger] event_matches(events[i], keys, state)),
    decreases events.len(),
{
    if events.len() == 0 {
    } else if event_matches(events[0], keys, state) {
        assert(event_matches(events[0], keys, state));
    } else {
        let rest = events.drop_first();
        lemma_first_match_sound(rest, keys, state);
        assert(forall|i: int| 0 <= i < rest.len() ==> rest[i] == events[i + 1]);
        match first_match(rest, keys, state) {
            Some(k) => {
                let i0 = choose|i: int|
                    {
                        &&& 0 <= i < rest.len()
                        &&& #[trigger] event_matches(rest[i], keys, state)
                        &&& rest[i].key == k
                        &&& forall|j: int| 0 <= j < i ==> !event_matches(rest[j], keys, state)
                    };
                assert(event_matches(events[i0 + 1], keys, state));
                assert forall|j: int| 0 <= j < i0 + 1 implies !event_matches(
                    events[j],
                    keys,
                    state,
                ) by {
                    if j > 0 {
                        assert(rest[j - 1] == events[j]);
                    }
                }
            },
            None => {
                assert forall|i: int| 0 <= i < events.len() implies !event_matches(
                    events[i],
                    keys,
                    state,
                ) by {
                    if i > 0 {
                        assert(rest[i - 1] == events[i]);
                    }
                }
            },
        }
    }
}

/// Whether `k` is accepted by the key set under wildcard equality.
pub fn contains_key(keys: &Vec<Key>, k: Key) -> (b: bool)
    ensures
        b == key_in_set(k, keys@),
{
    let n = keys.len();
    let mut i: usize = 0;
    while i < n
        invariant
            i <= n,
            n == keys@.len(),
            forall|j: int| 0 <= j < i ==> !key_eq(keys@[j], k),
        decreases n - i,
    {
        if keys[i] == k {
            proof {
                assert(key_eq(keys@[i as int], k));
            }
            return true;
        }
        i = i + 1;
    }
    false
}

/// Scans the drained events oldest first and returns the key of the
/// first one satisfying the stop condition, or nothing when none does.
pub fn find_match(events: &Vec<KeyEvent>, keys: &Vec<Key>, keystate: KeyState) -> (r: Option<
    Key,
>)
    ensures
        r == first_match(events@, keys@, keystate),
{
    let n = events.len();
    let mut i: usize = 0;
    proof {
        assert(events@.skip(0) =~= events@);
    }
    while i < n
        invariant
            i <= n,
            n == events@.len(),
            first_match(events@, keys@, keystate) == first_match(
                events@.skip(i as int),
                keys@,
                keystate,
            ),
        decreases n - i,
    {
        let e = events[i];
        let key_ok = contains_key(keys, e.key);
        let state_ok = keystate == e.state;
        proof {
            assert(events@.skip(i as int)[0] == events@[i as int]);
        }
        if key_ok && state_ok {
            proof {
                assert(event_matches(events@[i as int], keys@, keystate));
            }
            return Some(e.key);
        }
        proof {
            assert(!event_matches(events@.skip(i as int)[0], keys@, keystate));
            assert(events@.skip(i as int).drop_first() =~= events@.skip(i + 1 as int));
        }
        i = i + 1;
    }
    proof {
        assert(events@.skip(n as int).len() == 0);
    }
    None
}

/// Takes one scheduling decision from an elapsed reading, the configured
/// timeout, and the batch of events drained this iteration.
pub fn loop_step(
    elapsed: u64,
    timeout_micros: Option<u64>,
    events: &Vec<KeyEvent>,
    keys: &Vec<Key>,
    keystate: KeyState,
) -> (d: LoopDecision)
    ensures
        d == step_decision(elapsed, timeout_micros, events@, keys@, keystate),
{
    match timeout_micros {
        Some(t) => {
            if elapsed > t {
                return LoopDecision::TimedOut;
            }
        },
        None => {},
    }
    match find_match(events, keys, keystate) {
        Some(k) => LoopDecision::Matched(k),
        None => LoopDecision::Continue,
    }
}

/// Drives repeated frame generation until a stopping condition holds.
///
/// The body receives a fresh empty frame each cycle and returns the
/// populated frame, which is submitted through the single-slot handoff
/// channel (submission blocks while the previous frame is unconsumed).
/// One content cycle runs before the clock starts; then each iteration
/// checks the timeout first, drains the listener's buffered events, and
/// either stops or generates the next frame. An empty accepted set means
/// no key can stop the loop; a `None` timeout means no timeout.
///
/// Returns which stopping condition fired: `Timeout` with the elapsed
/// reading that exceeded the timeout, or `KeyPress` with the matched key
/// (the key of the earliest accepted event) and the elapsed time, both in
/// microseconds. Exhausting the loop's entire iteration budget without a
/// stopping condition reports `NeverReturn`; an error is reported only
/// when the handoff channel is closed.
pub fn loop_frames<F: Fn(Frame) -> Frame>(
    window: &Window,
    keys: &Vec<Key>,
    keystate: KeyState,
    timeout_micros: Option<u64>,
    body: F,
) -> (r: Result<PFutureReturns, PsychophysicsError>)
    requires
        forall|f: Frame| frame_empty(f) ==> call_requires(body, (f,)),
    ensures
        r matches Ok(p) ==> !(p is Duration),
        r matches Ok(PFutureReturns::Timeout(d)) ==> past_timeout(d, timeout_micros),
        r matches Ok(PFutureReturns::KeyPress(kd)) ==> exists|e: KeyEvent|
            #[trigger] event_matches(e, keys@, keystate) && kd.0 == e.key,
        r matches Err(e) ==> e == PsychophysicsError::FrameChannelClosed,
        keys@.len() == 0 && timeout_micros is None ==> !(r matches Ok(
            PFutureReturns::Timeout(_),
        )) && !(r matches Ok(PFutureReturns::KeyPress(_))),
{
    let mut receiver = KeyPressReceiver::new(window);
    let mut start = std::time::Instant::now();
    let mut first_cycle = true;
    let mut fuel: u64 = u64::MAX;
    while fuel > 0
        invariant
            forall|f: Frame| frame_empty(f) ==> call_requires(body, (f,)),
        decreases fuel,
    {
        if !first_cycle {
            let elapsed = elapsed_micros(&start);
            let events = receiver.get_keys();
            match loop_step(elapsed, timeout_micros, &events, keys, keystate) {
                LoopDecision::TimedOut => {
                    return Ok(PFutureReturns::Timeout(elapsed));
                },
                LoopDecision::Matched(k) => {
                    proof {
                        lemma_first_match_sound(events@, keys@, keystate);
                    }
                    let total = elapsed_micros(&start);
                    return Ok(PFutureReturns::KeyPress((k, total)));
                },
                LoopDecision::Continue => {},
            }
        }
        let next = body(window.get_frame());
        match window.submit_frame(next) {
            Err(e) => {
                return Err(e);
            },
            Ok(()) => {},
        }
        if first_cycle {
            // the clock is anchored to the first submission, so elapsed
            // readings measure time since the initial content was handed off
            start = std::time::Instant::now();
            first_cycle = false;
        }
        fuel = fuel - 1;
    }
    Ok(PFutureReturns::NeverReturn)
}

/// An event observed by the OS-event thread, reduced to what the core's
/// decisions depend on. A keyboard transition carries its resolved key,
/// or nothing when the platform reported no resolved key code.
#[derive(Debug, Clone, Copy)]
pub enum OsEvent {
    /// A keyboard transition, with its resolved key if any.
    KeyboardInput { key: Option<Key>, state: KeyState },
    /// The presentation surface was resized.
    Resized { width: u32, height: u32 },
    /// The platform asked for a redraw; presentation tasks already drive
    /// drawing, so nothing is done.
    RedrawRequested,
    /// The window's close control was activated.
    CloseRequested,
    /// Any other event the core does not act on.
    Other,
}

/// The action the OS-event thread must perform for one observed event.
#[derive(Debug, Clone, Copy)]
pub enum OsAction {
    /// Publish the key transition to the broadcast relay, best-effort and
    /// non-blocking.
    PublishKey(KeyEvent),
    /// Reconfigure the presentation surface to the given size, under the
    /// exclusive lock on the shared window state.
    Reconfigure { width: u32, height: u32 },
    /// Exit the event loop, shutting the whole process down.
    Shutdown,
    /// Do nothing.
    Ignore,
}

/// The decision rule of the OS-event thread: the escape key and a close
/// request shut the process down (escape is intercepted here and never
/// published to listeners); any other resolved key transition is
/// published; a resize is applied with each dimension clamped to at least
/// one; everything else is ignored.
pub open spec fn os_event_action(e: OsEvent) -> OsAction {
    match e {
        OsEvent::KeyboardInput { key: Some(k), state } => if k is Escape {
            OsAction::Shutdown
        } else {
            OsAction::PublishKey(KeyEvent { key: k, state })
        },
        OsEvent::KeyboardInput { key: None, .. } => OsAction::Ignore,
        OsEvent::Resized { width, height } => OsAction::Reconfigure {
            width: if width == 0 { 1u32 } else { width },
            height: if height == 0 { 1u32 } else { height },
        },
        OsEvent::CloseRequested => OsAction::Shutdown,
        OsEvent::RedrawRequested => OsAction::Ignore,
        OsEvent::Other => OsAction::Ignore,
    }
}

/// Decides what the event loop must do for one observed event; the
/// decision is exactly [`os_event_action`].
pub fn handle_os_event(event: &OsEvent) -> (a: OsAction)
    ensures
        a == os_event_action(*event),
{
    match event {
        OsEvent::KeyboardInput { key: Some(k), state } => {
            match k {
                Key::Escape => OsAction::Shutdown,
                _ => OsAction::PublishKey(KeyEvent { key: *k, state: *state }),
            }
        },
        OsEvent::KeyboardInput { key: None, .. } => OsAction::Ignore,
        OsEvent::Resized { width, height } => {
            let w = if *width == 0 {
                1u32
            } else {
                *width
            };
            let h = if *height == 0 {
                1u32
            } else {
                *height
            };
            OsAction::Reconfigure { width: w, height: h }
        },
        OsEvent::CloseRequested => OsAction::Shutdown,
        OsEvent::RedrawRequested => OsAction::Ignore,
        OsEvent::Other => OsAction::Ignore,
    }
}

} // verus!
