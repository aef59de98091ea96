//! Boot sequencer, and the protection and timer bootstrap that it runs.

use vstd::prelude::*;
use crate::csr::Csr;
use crate::csr::CsrFile;
use crate::csr::PROTECTION_ALLOW_ALL;
use crate::csr::PROTECTION_ALL_ADDRESSES;
use crate::hart::Hart;
use crate::hart::HartState;
use crate::layout::LinkerMarkers;
use crate::memory::Memory;
use crate::memory::MemoryState;
use crate::registers::GP;
use crate::registers::S0;
use crate::registers::SP;

verus! {

/// Address of the low half of the machine timer's 64-bit compare register.
pub const TIMER_COMPARE_LOW: u32 = 0x0200_4000;

/// Address of the high half of the machine timer's compare register.
pub const TIMER_COMPARE_HIGH: u32 = 0x0200_4004;

/// Value of each half of the compare register while the timer is disarmed.
pub const TIMER_HALF_DISARMED: u32 = 0xFFFF_FFFF;

/// The 64-bit value that the timer compares the time against.
pub open spec fn timer_compare(m: MemoryState) -> int {
    m.word(TIMER_COMPARE_LOW) + 0x1_0000_0000 * m.word(TIMER_COMPARE_HIGH)
}

/// The memory after the timer was disarmed: both halves of the compare
/// register were written, the low half first.
pub open spec fn timer_disarmed(m: MemoryState) -> MemoryState {
    m.store(TIMER_COMPARE_LOW, TIMER_HALF_DISARMED).store(
        TIMER_COMPARE_HIGH,
        TIMER_HALF_DISARMED,
    )
}

/// The memory after the timer was disarmed `n` times in a row.
pub open spec fn disarmed_times(m: MemoryState, n: nat) -> MemoryState
    decreases n,
{
    if n == 0 {
        m
    } else {
        timer_disarmed(disarmed_times(m, (n - 1) as nat))
    }
}

/// The control and status registers after protection was configured: one
/// region over the whole address space, with every access allowed.
pub open spec fn protection_opened(csrs: CsrFile) -> CsrFile {
    csrs.with(Csr::ProtectionAddress, PROTECTION_ALL_ADDRESSES).with(
        Csr::ProtectionConfig,
        PROTECTION_ALLOW_ALL,
    )
}

/// The hart at the moment the boot sequence hands over to the board: global
/// pointer, stack pointer and frame pointer set from the markers, protection
/// opened, and the next instruction that of the board's continuation.
pub open spec fn booted(h: HartState, markers: LinkerMarkers) -> HartState {
    HartState {
        regs: h.regs.update(GP as int, markers.global_pointer).update(
            SP as int,
            markers.estack,
        ).update(S0 as int, markers.estack),
        csrs: protection_opened(h.csrs),
        pc: markers.reset_handler,
        privilege: h.privilege,
    }
}

/// Opens the memory protection unit: the first region covers the whole
/// address space and allows reading, writing and executing.
pub fn configure_protection(csrs: &mut CsrFile)
    ensures
        *final(csrs) == protection_opened(*old(csrs)),
{
    csrs.write(Csr::ProtectionAddress, PROTECTION_ALL_ADDRESSES);
    csrs.write(Csr::ProtectionConfig, PROTECTION_ALLOW_ALL);
}

/// Disarms the machine timer by setting both halves of its compare register
/// to all ones, so that it cannot fire before it is armed again.
pub fn disarm_timer(mem: &mut Memory)
    ensures
        final(mem)@ == timer_disarmed(old(mem)@),
        timer_compare(final(mem)@) == u64::MAX,
{
    mem.store(TIMER_COMPARE_LOW, TIMER_HALF_DISARMED);
    mem.store(TIMER_COMPARE_HIGH, TIMER_HALF_DISARMED);
}

/// Reads the machine timer's compare register.
pub fn read_timer_compare(mem: &Memory) -> (value: u64)
    ensures
        value == timer_compare(mem@),
{
    let low: u32 = mem.load(TIMER_COMPARE_LOW);
    let high: u32 = mem.load(TIMER_COMPARE_HIGH);
    low as u64 + 0x1_0000_0000 * (high as u64)
}

/// Entry point after reset. Sets the global pointer, the stack pointer and
/// the frame pointer, opens protection, disarms the timer and continues at
/// the board's reset handler.
pub fn start(hart: &mut Hart, mem: &mut Memory, markers: &LinkerMarkers)
    ensures
        final(hart)@ == booted(old(hart)@, *markers),
        final(mem)@ == timer_disarmed(old(mem)@),
{
    hart.regs.write(GP, markers.global_pointer);
    hart.regs.write(SP, markers.estack);
    hart.regs.write(S0, markers.estack);
    configure_protection(&mut hart.csrs);
    disarm_timer(mem);
    hart.pc = markers.reset_handler;
}

/// Disarming the timer any number of times, at least once, leaves the
/// compare register at its largest value, and leaves every word of memory
/// as a single disarming does.
pub proof fn lemma_disarm_is_idempotent(m: MemoryState, n: nat)
    requires
        n >= 1,
    ensures
        timer_compare(disarmed_times(m, n)) == u64::MAX,
        disarmed_times(m, n).words == timer_disarmed(m).words,
    decreases n,
{
    if n > 1 {
        lemma_disarm_is_idempotent(m, (n - 1) as nat);
        let before = disarmed_times(m, (n - 1) as nat);
        assert(timer_disarmed(before).words =~= before.words);
    } else {
        assert(disarmed_times(m, 0) == m);
    }
}

} // verus!
