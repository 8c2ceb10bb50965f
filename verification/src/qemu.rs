//! The emulator-exit side channel: a dedicated port takes a status code
//! and terminates execution immediately. Used only under a test harness,
//! never in normal operation; the port write itself is performed outside
//! this library.
use vstd::prelude::*;

verus! {

/// The dedicated exit port.
pub const QEMU_EXIT_PORT: u16 = 0xF4;

/// The status a run ends with.
#[derive(Clone, Copy, PartialEq, Eq, Structural, Debug)]
pub enum QemuExitCode {
    Success,
    Failure,
}

/// The status code each outcome writes to the exit port.
pub open spec fn exit_code_value(c: QemuExitCode) -> u32 {
    match c {
        QemuExitCode::Success => 0x10,
        QemuExitCode::Failure => 0x11,
    }
}

impl QemuExitCode {
    /// The status code written to the exit port.
    pub fn code(self) -> (v: u32)
        ensures
            v == exit_code_value(self),
    {
        match self {
            QemuExitCode::Success => 0x10,
            QemuExitCode::Failure => 0x11,
        }
    }
}

} // verus!
