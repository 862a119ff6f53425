//! The single-byte command protocol of the sensor device.

use vstd::prelude::*;

verus! {

/// A command understood by the device, written to it as a single byte.
/// `Statistics` is reserved by the protocol but never issued: the device
/// gives no acknowledgement, so nothing here guesses at its semantics.
#[derive(Debug, Clone, Copy, PartialEq, Eq, Structural)]
pub enum Command {
    Cancel,
    Arm,
    Measure,
    Statistics,
}

/// The on-wire byte of each command.
pub open spec fn spec_command_code(c: Command) -> u8 {
    match c {
        Command::Cancel => 0,
        Command::Arm => 1,
        Command::Measure => 2,
        Command::Statistics => 3,
    }
}

impl Command {
    /// Encode this command as the byte written to the device.
    pub fn code(&self) -> (b: u8)
        ensures
            b == spec_command_code(*self),
    {
        match self {
            Command::Cancel => 0,
            Command::Arm => 1,
            Command::Measure => 2,
            Command::Statistics => 3,
        }
    }
}

} // verus!
