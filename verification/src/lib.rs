//! Boot-time foundation of a small x86_64 kernel: the decisions behind fault
//! isolation, interrupt dispatch, physical frame allocation and the heap
//! bootstrap, with their contracts proved. The code that touches the
//! processor, the I/O ports and the page tables lives with the kernel binary and
//! acts on what these functions decide.

use vstd::prelude::*;

pub mod addr;
pub mod allocator;
pub mod gdt;
pub mod interrupts;
pub mod memory;
pub mod vga;

verus! {

/// How a run of the kernel under the emulator ended.
#[derive(Clone, Copy, Debug, PartialEq, Eq, Structural)]
pub enum QemuExitCode {
    Success,
    Failed,
}

impl QemuExitCode {
    /// The value that tells the emulator to exit with this result.
    pub open spec fn code(self) -> u32 {
        match self {
            QemuExitCode::Success => 0x10,
            QemuExitCode::Failed => 0x11,
        }
    }

    /// The value to write to the exit device of the emulator.
    pub fn as_u32(self) -> (code: u32)
        ensures
            code == self.code(),
    {
        match self {
            QemuExitCode::Success => 0x10,
            QemuExitCode::Failed => 0x11,
        }
    }
}

} // verus!
