//! The control and status registers that the boot and trap routines use.

use vstd::prelude::*;

verus! {

/// Mode flags on return from a trap taken in the kernel: previous privilege
/// level machine, nothing else set.
pub const MODE_FLAGS_KERNEL: u32 = 0x0000_1800;

/// Mode flags on return from a trap taken in an application, and the value
/// that the trap dispatcher writes: previous privilege level machine, and
/// machine interrupts enabled.
pub const MODE_FLAGS_KERNEL_ENABLED: u32 = 0x0000_1808;

/// Address written to the first protection region: with top-of-range
/// matching the region then covers the whole address space.
pub const PROTECTION_ALL_ADDRESSES: u32 = 0xFFFF_FFFF;

/// Configuration of the first protection region: read, write and execute
/// allowed, top-of-range matching, not locked.
pub const PROTECTION_ALLOW_ALL: u32 = 0x0000_000F;

/// Mode bits of the trap vector register that route every trap to one entry point.
pub const TRAP_VECTOR_DIRECT: u32 = 0x0000_0002;

/// One control and status register, named by its role.
#[derive(Clone, Copy, Debug, PartialEq, Eq, Structural)]
pub enum Csr {
    /// Privilege level and global interrupt enable (number 0x300).
    ModeFlags,
    /// Base address and mode of the trap vector (number 0x305).
    TrapVector,
    /// Locator of the kernel's save frame (number 0x340).
    TrapContext,
    /// Address at which execution resumes after a trap (number 0x341).
    ResumeAddress,
    /// Cause of the trap being handled (number 0x342).
    TrapCause,
    /// Configuration of the first protection region (number 0x3a0).
    ProtectionConfig,
    /// Address of the first protection region (number 0x3b0).
    ProtectionAddress,
}

impl Csr {
    /// The number by which the hardware addresses the register.
    pub open spec fn spec_number(self) -> u16 {
        match self {
            Csr::ModeFlags => 0x300,
            Csr::TrapVector => 0x305,
            Csr::TrapContext => 0x340,
            Csr::ResumeAddress => 0x341,
            Csr::TrapCause => 0x342,
            Csr::ProtectionConfig => 0x3a0,
            Csr::ProtectionAddress => 0x3b0,
        }
    }

    /// The number by which the hardware addresses the register.
    #[verifier::when_used_as_spec(spec_number)]
    pub fn number(self) -> (n: u16)
        ensures
            n == self.spec_number(),
    {
        match self {
            Csr::ModeFlags => 0x300,
            Csr::TrapVector => 0x305,
            Csr::TrapContext => 0x340,
            Csr::ResumeAddress => 0x341,
            Csr::TrapCause => 0x342,
            Csr::ProtectionConfig => 0x3a0,
            Csr::ProtectionAddress => 0x3b0,
        }
    }

    /// The register with the given number, if this layer uses it.
    pub fn from_number(n: u16) -> (csr: Option<Csr>)
        ensures
            match csr {
                Some(c) => c.number() == n,
                None => forall|c: Csr| c.number() != n,
            },
    {
        if n == 0x300 {
            Some(Csr::ModeFlags)
        } else if n == 0x305 {
            Some(Csr::TrapVector)
        } else if n == 0x340 {
            Some(Csr::TrapContext)
        } else if n == 0x341 {
            Some(Csr::ResumeAddress)
        } else if n == 0x342 {
            Some(Csr::TrapCause)
        } else if n == 0x3a0 {
            Some(Csr::ProtectionConfig)
        } else if n == 0x3b0 {
            Some(Csr::ProtectionAddress)
        } else {
            None
        }
    }
}

/// The values of the control and status registers of one hart.
#[derive(Clone, Copy, Debug, PartialEq, Eq, Structural)]
pub struct CsrFile {
    pub mode_flags: u32,
    pub trap_vector: u32,
    pub trap_context: u32,
    pub resume_address: u32,
    pub trap_cause: u32,
    pub protection_config: u32,
    pub protection_address: u32,
}

impl CsrFile {
    /// The value of one register.
    pub open spec fn get(self, csr: Csr) -> u32 {
        match csr {
            Csr::ModeFlags => self.mode_flags,
            Csr::TrapVector => self.trap_vector,
            Csr::TrapContext => self.trap_context,
            Csr::ResumeAddress => self.resume_address,
            Csr::TrapCause => self.trap_cause,
            Csr::ProtectionConfig => self.protection_config,
            Csr::ProtectionAddress => self.protection_address,
        }
    }

    /// The register file in which `csr` holds `value` and every other
    /// register is as in `self`.
    pub open spec fn with(self, csr: Csr, value: u32) -> CsrFile {
        match csr {
            Csr::ModeFlags => CsrFile { mode_flags: value, ..self },
            Csr::TrapVector => CsrFile { trap_vector: value, ..self },
            Csr::TrapContext => CsrFile { trap_context: value, ..self },
            Csr::ResumeAddress => CsrFile { resume_address: value, ..self },
            Csr::TrapCause => CsrFile { trap_cause: value, ..self },
            Csr::ProtectionConfig => CsrFile { protection_config: value, ..self },
            Csr::ProtectionAddress => CsrFile { protection_address: value, ..self },
        }
    }

    /// The register file in which every register is zero.
    pub open spec fn cleared() -> CsrFile {
        CsrFile {
            mode_flags: 0,
            trap_vector: 0,
            trap_context: 0,
            resume_address: 0,
            trap_cause: 0,
            protection_config: 0,
            protection_address: 0,
        }
    }

    /// The register file after reset, with every register zero.
    pub fn new() -> (csrs: CsrFile)
        ensures
            csrs == CsrFile::cleared(),
    {
        CsrFile {
            mode_flags: 0,
            trap_vector: 0,
            trap_context: 0,
            resume_address: 0,
            trap_cause: 0,
            protection_config: 0,
            protection_address: 0,
        }
    }

    /// Reads one register.
    pub fn read(&self, csr: Csr) -> (value: u32)
        ensures
            value == self.get(csr),
    {
        match csr {
            Csr::ModeFlags => self.mode_flags,
            Csr::TrapVector => self.trap_vector,
            Csr::TrapContext => self.trap_context,
            Csr::ResumeAddress => self.resume_address,
            Csr::TrapCause => self.trap_cause,
            Csr::ProtectionConfig => self.protection_config,
            Csr::ProtectionAddress => self.protection_address,
        }
    }

    /// Writes one register and leaves the others as they are.
    pub fn write(&mut self, csr: Csr, value: u32)
        ensures
            *final(self) == old(self).with(csr, value),
    {
        match csr {
            Csr::ModeFlags => self.mode_flags = value,
            Csr::TrapVector => self.trap_vector = value,
            Csr::TrapContext => self.trap_context = value,
            Csr::ResumeAddress => self.resume_address = value,
            Csr::TrapCause => self.trap_cause = value,
            Csr::ProtectionConfig => self.protection_config = value,
            Csr::ProtectionAddress => self.protection_address = value,
        }
    }
}

/// A privilege level of the hart.
#[derive(Clone, Copy, Debug, PartialEq, Eq, Structural)]
pub enum Privilege {
    /// The level at which applications run.
    User,
    /// The level at which the kernel runs.
    Machine,
}

/// The privilege level that a two-bit previous-privilege field stands for.
/// Only the all-zero field is the application level; every other value
/// counts as the kernel.
pub open spec fn field_privilege(field: u32) -> Privilege {
    if field == 0 {
        Privilege::User
    } else {
        Privilege::Machine
    }
}

/// The previous-privilege field of a trap cause: its bits 28 and 29.
pub open spec fn cause_privilege_field(cause: u32) -> u32 {
    (cause >> 28) & 0x3
}

/// The previous-privilege field of the mode flags: their bits 11 and 12.
pub open spec fn flags_privilege_field(flags: u32) -> u32 {
    (flags >> 11) & 0x3
}

/// The privilege level at which the hart was running when a trap with the
/// given cause was taken.
pub fn trapped_privilege(cause: u32) -> (level: Privilege)
    ensures
        level == field_privilege(cause_privilege_field(cause)),
{
    if (cause >> 28) & 0x3 == 0 {
        Privilege::User
    } else {
        Privilege::Machine
    }
}

/// The privilege level that a return from trap enters under the given mode flags.
pub fn resumed_privilege(flags: u32) -> (level: Privilege)
    ensures
        level == field_privilege(flags_privilege_field(flags)),
{
    if (flags >> 11) & 0x3 == 0 {
        Privilege::User
    } else {
        Privilege::Machine
    }
}

/// Both mode-flag patterns that the trap routines write make a return from
/// trap enter the kernel's privilege level.
pub proof fn lemma_fixed_flags_resume_in_kernel()
    ensures
        field_privilege(flags_privilege_field(MODE_FLAGS_KERNEL)) == Privilege::Machine,
        field_privilege(flags_privilege_field(MODE_FLAGS_KERNEL_ENABLED)) == Privilege::Machine,
{
    assert((0x0000_1800u32 >> 11) & 0x3 == 3) by (bit_vector);
    assert((0x0000_1808u32 >> 11) & 0x3 == 3) by (bit_vector);
}

} // verus!
