//! The state of one simulated hart.

use vstd::prelude::*;
use crate::csr::CsrFile;
use crate::csr::Privilege;
use crate::registers::RegisterFile;

verus! {

/// Mathematical model of a hart: its registers, its control and status
/// registers, the address of the next instruction and its privilege level.
pub struct HartState {
    pub regs: Seq<u32>,
    pub csrs: CsrFile,
    pub pc: u32,
    pub privilege: Privilege,
}

/// One simulated hart.
#[derive(Clone, Copy, Debug)]
pub struct Hart {
    pub regs: RegisterFile,
    pub csrs: CsrFile,
    pub pc: u32,
    pub privilege: Privilege,
}

impl View for Hart {
    type V = HartState;

    open spec fn view(&self) -> HartState {
        HartState { regs: self.regs@, csrs: self.csrs, pc: self.pc, privilege: self.privilege }
    }
}

impl Hart {
    /// The hart as it leaves reset: in machine mode at address zero, with
    /// every register zero.
    pub fn new() -> (hart: Hart)
        ensures
            hart@.regs == Seq::new(32, |r: int| 0u32),
            hart@.csrs == CsrFile::cleared(),
            hart@.pc == 0,
            hart@.privilege == Privilege::Machine,
    {
        Hart {
            regs: RegisterFile::new(),
            csrs: CsrFile::new(),
            pc: 0,
            privilege: Privilege::Machine,
        }
    }
}

} // verus!
