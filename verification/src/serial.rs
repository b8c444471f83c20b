//! The capability contract for serial ports used as external hardware
//! triggers.
//!
//! Serial I/O is an external collaborator: device access lives outside the
//! core, behind this trait. A failed device open degrades gracefully to a
//! no-op stand-in with a loud warning, never silently; that stand-in and
//! the real device both implement this trait.

use vstd::prelude::*;

use crate::errors::PsychophysicsError;

verus! {

/// Writing triggers to a serial device, or to a no-op stand-in.
pub trait SerialPortTrait {
    /// Writes a string to the port.
    fn write(&mut self, data: &str) -> Result<(), PsychophysicsError>;

    /// Writes a slice of bytes to the port.
    fn write_bytes(&mut self, data: &[u8]) -> Result<(), PsychophysicsError>;
}

} // verus!
