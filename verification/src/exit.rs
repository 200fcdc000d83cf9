//! The verdict of a run and the value that reports it to the emulator.

use vstd::prelude::*;

verus! {

/// The I/O port of the emulator's exit device.
pub const EXIT_PORT: u16 = 0xf4;

/// The verdict of a run. Writing its code to the exit port, as a value of
/// four bytes, ends the emulated machine.
#[derive(Debug, Clone, Copy, PartialEq, Eq, Structural)]
pub enum QemuExitCode {
    Success,
    Failed,
}

impl QemuExitCode {
    /// The value that is written to the exit port.
    pub open spec fn spec_code(self) -> u32 {
        match self {
            QemuExitCode::Success => 0x10,
            QemuExitCode::Failed => 0x11,
        }
    }

    /// The exit status with which the emulator's own process ends once the
    /// code has been written: the code shifted left by one bit, with the
    /// lowest bit set.
    pub open spec fn spec_host_status(self) -> u32 {
        (2 * self.spec_code() + 1) as u32
    }

    /// Returns the value that is written to the exit port.
    #[verifier::when_used_as_spec(spec_code)]
    pub fn code(self) -> (code: u32)
        ensures
            code == self.spec_code(),
    {
        match self {
            QemuExitCode::Success => 0x10,
            QemuExitCode::Failed => 0x11,
        }
    }

    /// Returns the exit status of the emulator's process for this verdict.
    #[verifier::when_used_as_spec(spec_host_status)]
    pub fn host_status(self) -> (status: u32)
        ensures
            status == self.spec_host_status(),
    {
        let code: u32 = self.code();
        assert((code << 1 | 1) == 2 * code + 1) by (bit_vector)
            requires
                code <= 0x11,
        ;
        code << 1 | 1
    }
}

/// The host tells the two verdicts apart: they give different exit statuses,
/// and neither is the status 0 of a process that ended without a verdict.
pub proof fn lemma_verdicts_are_distinct(a: QemuExitCode, b: QemuExitCode)
    ensures
        a.spec_host_status() != 0,
        a.spec_host_status() == b.spec_host_status() ==> a == b,
        a.spec_code() == b.spec_code() ==> a == b,
{
}

} // verus!
