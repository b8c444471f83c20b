//! A frame-scheduling and input-synchronization engine for timed visual
//! stimulus presentation.
//!
//! The crate coordinates three execution contexts: an OS-event thread that
//! publishes keyboard events into a broadcast relay, an experiment thread
//! that composes [`visual::Frame`]s and pushes them through a single-slot
//! handoff channel, and presentation tasks that pull frames and drive the
//! graphics backend. The graphics backend itself, windowing, text shaping
//! and serial I/O are external collaborators: the core only schedules and
//! synchronizes around them.
//!
//! All wall-clock quantities are carried as microseconds in integer form.

use vstd::prelude::*;

pub mod clock;
pub mod errors;
pub mod input;
pub mod pwindow;
pub mod schedule;
pub mod serial;
pub mod visual;

use crate::errors::PsychophysicsError;
use crate::input::Key;

verus! {

/// The tagged outcome of a timed wait: which stopping condition fired.
///
/// Callers must be able to distinguish "a plain duration elapsed" from
/// "the wait timed out" from "a key was pressed" without conflating them;
/// an internal error travels separately as the `Err` arm of a `Result`.
/// Durations are wall-clock microseconds.
#[derive(Debug, PartialEq)]
pub enum PFutureReturns {
    /// A plain elapsed duration, in microseconds.
    Duration(u64),
    /// The wait ended because its timeout elapsed; the payload is the
    /// elapsed time in microseconds, which exceeds the timeout.
    Timeout(u64),
    /// The wait ended because an accepted key event arrived: the matched
    /// key and the elapsed time in microseconds.
    KeyPress((Key, u64)),
    /// A wait that never produces a value.
    NeverReturn,
}

/// Access to the elapsed duration carried by a timed-wait outcome.
pub trait UnwrapDuration: Sized {
    /// True when a duration may be extracted: the outcome carries one.
    spec fn carries_duration(&self) -> bool;

    /// The duration carried by the outcome, in microseconds.
    spec fn duration_spec(&self) -> u64;

    /// True when the outcome is a plain duration or a timeout.
    spec fn is_duration_spec(&self) -> bool;

    /// True when the outcome is a timeout.
    spec fn is_timeout_spec(&self) -> bool;

    /// Extracts the elapsed duration in microseconds.
    fn unwrap_duration(self) -> (d: u64)
        requires
            self.carries_duration(),
        ensures
            d == self.duration_spec(),
    ;

    /// Whether the outcome is a plain duration or a timeout.
    fn is_duration(&self) -> (b: bool)
        ensures
            b == self.is_duration_spec(),
    ;

    /// Whether the outcome is a timeout.
    fn is_timeout(&self) -> (b: bool)
        ensures
            b == self.is_timeout_spec(),
    ;
}

/// Access to the matched key and elapsed duration of a keypress outcome.
pub trait UnwrapKeyPressAndDuration: Sized {
    /// True when the outcome is a keypress.
    spec fn is_keypress_spec(&self) -> bool;

    /// The key and duration carried by a keypress outcome.
    spec fn keypress_spec(&self) -> (Key, u64);

    /// Extracts the matched key and the elapsed duration in microseconds.
    fn unwrap_key_and_duration(self) -> (kd: (Key, u64))
        requires
            self.is_keypress_spec(),
        ensures
            kd == self.keypress_spec(),
    ;

    /// Whether the outcome is a keypress.
    fn is_keypress(&self) -> (b: bool)
        ensures
            b == self.is_keypress_spec(),
    ;
}

impl UnwrapDuration for Result<PFutureReturns, PsychophysicsError> {
    open spec fn carries_duration(&self) -> bool {
        match *self {
            Ok(PFutureReturns::Duration(_)) => true,
            Ok(PFutureReturns::Timeout(_)) => true,
            Ok(PFutureReturns::KeyPress(_)) => true,
            Ok(PFutureReturns::NeverReturn) => false,
            Err(_) => false,
        }
    }

    open spec fn duration_spec(&self) -> u64 {
        match *self {
            Ok(PFutureReturns::Duration(d)) => d,
            Ok(PFutureReturns::Timeout(d)) => d,
            Ok(PFutureReturns::KeyPress((_, d))) => d,
            _ => 0,
        }
    }

    open spec fn is_duration_spec(&self) -> bool {
        match *self {
            Ok(PFutureReturns::Duration(_)) => true,
            Ok(PFutureReturns::Timeout(_)) => true,
            _ => false,
        }
    }

    open spec fn is_timeout_spec(&self) -> bool {
        match *self {
            Ok(PFutureReturns::Timeout(_)) => true,
            _ => false,
        }
    }

    fn unwrap_duration(self) -> (d: u64) {
        match self {
            Ok(PFutureReturns::Duration(d)) => d,
            Ok(PFutureReturns::Timeout(d)) => d,
            Ok(PFutureReturns::KeyPress((_, d))) => d,
            _ => unreached(),
        }
    }

    fn is_duration(&self) -> (b: bool) {
        match self {
            Ok(PFutureReturns::Duration(_)) => true,
            Ok(PFutureReturns::Timeout(_)) => true,
            _ => false,
        }
    }

    fn is_timeout(&self) -> (b: bool) {
        match self {
            Ok(PFutureReturns::Timeout(_)) => true,
            _ => false,
        }
    }
}

impl UnwrapKeyPressAndDuration for Result<PFutureReturns, PsychophysicsError> {
    open spec fn is_keypress_spec(&self) -> bool {
        match *self {
            Ok(PFutureReturns::KeyPress(_)) => true,
            _ => false,
        }
    }

    open spec fn keypress_spec(&self) -> (Key, u64) {
        match *self {
            Ok(PFutureReturns::KeyPress(kd)) => kd,
            _ => (Key::Any, 0),
        }
    }

    fn unwrap_key_and_duration(self) -> (kd: (Key, u64)) {
        match self {
            Ok(PFutureReturns::KeyPress(kd)) => kd,
            _ => unreached(),
        }
    }

    fn is_keypress(&self) -> (b: bool) {
        match self {
            Ok(PFutureReturns::KeyPress(_)) => true,
            _ => false,
        }
    }
}

} // verus!
