//! Trap vector configuration, trap entry and exit, and the trap dispatcher.

use vstd::prelude::*;
use crate::csr::cause_privilege_field;
use crate::csr::field_privilege;
use crate::csr::flags_privilege_field;
use crate::csr::lemma_fixed_flags_resume_in_kernel;
use crate::csr::resumed_privilege;
use crate::csr::trapped_privilege;
use crate::csr::Csr;
use crate::csr::CsrFile;
use crate::csr::Privilege;
use crate::csr::MODE_FLAGS_KERNEL;
use crate::csr::MODE_FLAGS_KERNEL_ENABLED;
use crate::csr::TRAP_VECTOR_DIRECT;
use crate::hart::Hart;
use crate::hart::HartState;
use crate::layout::LinkerMarkers;
use crate::memory::lemma_frame_slots;
use crate::memory::word_addr;
use crate::memory::word_address;
use crate::memory::word_address_below;
use crate::memory::word_aligned;
use crate::memory::Memory;
use crate::memory::MemoryState;
use crate::registers::frame_loaded;
use crate::registers::frame_stored;
use crate::registers::lemma_frame_round_trip;
use crate::registers::load_frame;
use crate::registers::store_frame;
use crate::registers::FrameLayout;
use crate::registers::SP;

verus! {

/// Number of words in the frame that a trap taken in the kernel pushes.
pub const KERNEL_FRAME_WORDS: u32 = 16;

/// Slot, in the kernel's save frame, that holds the address of the register
/// context of the running application.
pub const CONTEXT_POINTER_SLOT: u32 = 30;

/// Number of words of the kernel's save frame that a trap taken in an
/// application pops.
pub const KERNEL_SAVE_WORDS: u32 = 31;

/// The two ways through trap entry and exit.
#[derive(Clone, Copy, Debug, PartialEq, Eq, Structural)]
pub enum TrapPath {
    /// The trap interrupted the kernel.
    KernelOrigin,
    /// The trap interrupted an application.
    AppOrigin,
}

/// The path that a trap with the given cause takes: the application path
/// when the cause names the application level as the previous privilege
/// level, the kernel path for every other cause.
pub open spec fn path_of(cause: u32) -> TrapPath {
    match field_privilege(cause_privilege_field(cause)) {
        Privilege::User => TrapPath::AppOrigin,
        Privilege::Machine => TrapPath::KernelOrigin,
    }
}

/// The value of the trap vector register that sends every trap to `entry`.
pub open spec fn trap_vector_value(entry: u32) -> u32 {
    entry | TRAP_VECTOR_DIRECT
}

/// The hart after a return from trap: it continues at the resume address, at
/// the privilege level that the mode flags name as the previous one.
pub open spec fn resumed(h: HartState) -> HartState {
    HartState {
        regs: h.regs,
        csrs: h.csrs,
        pc: h.csrs.resume_address,
        privilege: field_privilege(flags_privilege_field(h.csrs.mode_flags)),
    }
}

/// Address of the frame that a trap taken in the kernel pushes on the stack.
pub open spec fn kernel_frame(h: HartState) -> u32 {
    word_addr(h.regs[SP as int], -(KERNEL_FRAME_WORDS as int))
}

/// The memory after a trap taken in the kernel: the caller-saved registers
/// lie in a frame just below the stack pointer.
pub open spec fn kernel_trap_memory(h: HartState, m: MemoryState) -> MemoryState {
    frame_stored(m, kernel_frame(h), h.regs, FrameLayout::CallerSaved, KERNEL_FRAME_WORDS as int)
}

/// The hart after a trap taken in the kernel: every register as before, the
/// mode flags forced, execution back at the interrupted code in machine mode.
pub open spec fn kernel_trap_hart(h: HartState) -> HartState {
    HartState {
        regs: h.regs,
        csrs: h.csrs.with(Csr::ModeFlags, MODE_FLAGS_KERNEL),
        pc: h.csrs.resume_address,
        privilege: Privilege::Machine,
    }
}

/// Address of the register context of the running application, as the
/// kernel's save frame names it.
pub open spec fn context_address(h: HartState, m: MemoryState) -> u32 {
    m.word(word_addr(h.csrs.trap_context, CONTEXT_POINTER_SLOT as int))
}

/// The memory after a trap taken in an application: the register context of
/// the application holds its registers.
pub open spec fn app_trap_memory(h: HartState, m: MemoryState) -> MemoryState {
    frame_stored(
        m,
        context_address(h, m),
        h.regs,
        FrameLayout::Context,
        FrameLayout::Context.spec_slots(),
    )
}

/// The hart after a trap taken in an application: the registers of the
/// kernel reloaded from its save frame, the stack pointer just past that
/// frame, the trap cause handed over in the trap context register, and
/// execution at the kernel's continuation in machine mode.
pub open spec fn app_trap_hart(h: HartState, m: MemoryState, markers: LinkerMarkers) -> HartState {
    HartState {
        regs: frame_loaded(
            h.regs,
            app_trap_memory(h, m),
            h.csrs.trap_context,
            FrameLayout::Context,
            FrameLayout::Context.spec_slots(),
        ).update(SP as int, word_addr(h.csrs.trap_context, KERNEL_SAVE_WORDS as int)),
        csrs: h.csrs.with(Csr::TrapContext, h.csrs.trap_cause).with(
            Csr::ResumeAddress,
            markers.return_to_kernel,
        ).with(Csr::ModeFlags, MODE_FLAGS_KERNEL_ENABLED),
        pc: markers.return_to_kernel,
        privilege: Privilege::Machine,
    }
}

/// The frames that the trap with the pending cause will access lie at word
/// addresses: the stack for a trap taken in the kernel; the kernel's save
/// frame and the register context for one taken in an application.
pub open spec fn trap_ready(h: HartState, m: MemoryState) -> bool {
    match path_of(h.csrs.trap_cause) {
        TrapPath::KernelOrigin => word_aligned(h.regs[SP as int]),
        TrapPath::AppOrigin => word_aligned(h.csrs.trap_context) && word_aligned(
            context_address(h, m),
        ),
    }
}

/// The memory after trap entry and exit.
pub open spec fn trap_memory(h: HartState, m: MemoryState) -> MemoryState {
    match path_of(h.csrs.trap_cause) {
        TrapPath::KernelOrigin => kernel_trap_memory(h, m),
        TrapPath::AppOrigin => app_trap_memory(h, m),
    }
}

/// The hart after trap entry and exit.
pub open spec fn trap_hart(h: HartState, m: MemoryState, markers: LinkerMarkers) -> HartState {
    match path_of(h.csrs.trap_cause) {
        TrapPath::KernelOrigin => kernel_trap_hart(h),
        TrapPath::AppOrigin => app_trap_hart(h, m, markers),
    }
}

/// Restoring from the register context right after a trap taken in an
/// application gives every register but the always-zero register and the
/// stack pointer the value that it had when the trap was taken, whatever
/// the context held before and whatever the registers hold by then.
pub proof fn lemma_context_round_trip(h: HartState, m: MemoryState, current: Seq<u32>)
    requires
        h.regs.len() == 32,
        current.len() == 32,
    ensures
        forall|r: int|
            0 <= r < 32 && r != 0 && r != SP ==> #[trigger] frame_loaded(
                current,
                app_trap_memory(h, m),
                context_address(h, m),
                FrameLayout::Context,
                FrameLayout::Context.spec_slots(),
            )[r] == h.regs[r],
{
    lemma_frame_round_trip(m, context_address(h, m), h.regs, current, FrameLayout::Context);
}

/// After trap entry and exit the mode flags hold one of the two fixed
/// patterns, by the path taken, and the hart runs in machine mode.
pub proof fn lemma_mode_flags_after_trap(h: HartState, m: MemoryState, markers: LinkerMarkers)
    ensures
        trap_hart(h, m, markers).csrs.mode_flags == (match path_of(h.csrs.trap_cause) {
            TrapPath::KernelOrigin => MODE_FLAGS_KERNEL,
            TrapPath::AppOrigin => MODE_FLAGS_KERNEL_ENABLED,
        }),
        trap_hart(h, m, markers).privilege == Privilege::Machine,
        resumed(trap_hart(h, m, markers)).privilege == Privilege::Machine,
{
    lemma_fixed_flags_resume_in_kernel();
}

/// A trap taken in an application always resumes in the kernel: at its
/// continuation, with the trap cause in the trap context register.
pub proof fn lemma_app_trap_enters_kernel(h: HartState, m: MemoryState, markers: LinkerMarkers)
    requires
        path_of(h.csrs.trap_cause) == TrapPath::AppOrigin,
    ensures
        trap_hart(h, m, markers).pc == markers.return_to_kernel,
        trap_hart(h, m, markers).csrs.resume_address == markers.return_to_kernel,
        trap_hart(h, m, markers).csrs.trap_context == h.csrs.trap_cause,
{
}

/// The trap vector value selects direct vectoring, and keeps the address of
/// an entry routine that lies at a word address.
pub proof fn lemma_trap_vector_is_direct(entry: u32)
    ensures
        trap_vector_value(entry) & 0x2 == 0x2,
        word_aligned(entry) ==> trap_vector_value(entry) & 0x3 == 0x2 && trap_vector_value(entry)
            & 0xFFFF_FFFC == entry,
{
    assert((entry | 0x2) & 0x2 == 0x2) by (bit_vector);
    assert(entry % 4 == 0 ==> (entry | 0x2) & 0x3 == 0x2 && (entry | 0x2) & 0xFFFF_FFFC == entry)
        by (bit_vector);
}

/// A cause whose bits 28 and 29 are both zero takes the application path;
/// any other cause takes the kernel path.
pub proof fn lemma_path_by_cause_bits(cause: u32)
    ensures
        path_of(cause) == TrapPath::AppOrigin <==> cause & 0x3000_0000 == 0,
        path_of(cause) == TrapPath::KernelOrigin <==> cause & 0x3000_0000 != 0,
{
    assert(((cause >> 28) & 0x3 == 0) <==> (cause & 0x3000_0000 == 0)) by (bit_vector);
}

/// Tells the hart where the trap entry routine is: writes its address to the
/// trap vector register, with the mode bits that send every trap there.
pub fn configure_trap_handler(csrs: &mut CsrFile, markers: &LinkerMarkers)
    ensures
        *final(csrs) == old(csrs).with(Csr::TrapVector, trap_vector_value(markers.start_trap)),
{
    csrs.write(Csr::TrapVector, markers.start_trap | TRAP_VECTOR_DIRECT);
}

/// Decides which path a trap with the given cause takes.
pub fn trap_path(cause: u32) -> (path: TrapPath)
    ensures
        path == path_of(cause),
{
    match trapped_privilege(cause) {
        Privilege::User => TrapPath::AppOrigin,
        Privilege::Machine => TrapPath::KernelOrigin,
    }
}

/// Trap dispatcher, reached from traps taken in the kernel. It forces the
/// mode flags and looks at nothing else.
pub fn start_trap_rust(csrs: &mut CsrFile)
    ensures
        *final(csrs) == old(csrs).with(Csr::ModeFlags, MODE_FLAGS_KERNEL_ENABLED),
{
    csrs.write(Csr::ModeFlags, MODE_FLAGS_KERNEL_ENABLED);
}

/// Returns from a trap: continues at the resume address, at the previous
/// privilege level that the mode flags name.
pub fn return_from_trap(hart: &mut Hart)
    ensures
        final(hart)@ == resumed(old(hart)@),
{
    hart.pc = hart.csrs.read(Csr::ResumeAddress);
    hart.privilege = resumed_privilege(hart.csrs.read(Csr::ModeFlags));
}

/// Handles a trap taken in the kernel: saves the caller-saved registers in a
/// frame below the stack pointer, runs the dispatcher, restores the
/// registers, forces the mode flags and returns to the interrupted code.
pub fn from_kernel(hart: &mut Hart, mem: &mut Memory)
    requires
        word_aligned(old(hart)@.regs[SP as int]),
    ensures
        final(hart)@ == kernel_trap_hart(old(hart)@),
        final(mem)@ == kernel_trap_memory(old(hart)@, old(mem)@),
{
    let frame: u32 = word_address_below(hart.regs.read(SP), KERNEL_FRAME_WORDS);
    store_frame(mem, frame, &hart.regs, FrameLayout::CallerSaved);
    start_trap_rust(&mut hart.csrs);
    load_frame(&mut hart.regs, mem, frame, FrameLayout::CallerSaved);
    proof {
        lemma_frame_round_trip(
            old(mem)@,
            frame,
            old(hart)@.regs,
            old(hart)@.regs,
            FrameLayout::CallerSaved,
        );
        assert(hart@.regs =~= old(hart)@.regs);
    }
    hart.csrs.write(Csr::ModeFlags, MODE_FLAGS_KERNEL);
    return_from_trap(hart);
    proof {
        lemma_fixed_flags_resume_in_kernel();
    }
}

/// Handles a trap taken in an application: saves the registers of the
/// application in its register context, reloads those of the kernel from
/// its save frame, hands the trap cause over and returns into the kernel.
pub fn from_app(hart: &mut Hart, mem: &mut Memory, markers: &LinkerMarkers)
    requires
        word_aligned(old(hart)@.csrs.trap_context),
        word_aligned(context_address(old(hart)@, old(mem)@)),
    ensures
        final(hart)@ == app_trap_hart(old(hart)@, old(mem)@, *markers),
        final(mem)@ == app_trap_memory(old(hart)@, old(mem)@),
{
    let locator: u32 = hart.csrs.read(Csr::TrapContext);
    proof {
        lemma_frame_slots(locator, CONTEXT_POINTER_SLOT as int, 0);
    }
    let context: u32 = mem.load(word_address(locator, CONTEXT_POINTER_SLOT));
    store_frame(mem, context, &hart.regs, FrameLayout::Context);
    load_frame(&mut hart.regs, mem, locator, FrameLayout::Context);
    hart.regs.write(SP, word_address(locator, KERNEL_SAVE_WORDS));
    let cause: u32 = hart.csrs.read(Csr::TrapCause);
    hart.csrs.write(Csr::TrapContext, cause);
    hart.csrs.write(Csr::ResumeAddress, markers.return_to_kernel);
    hart.csrs.write(Csr::ModeFlags, MODE_FLAGS_KERNEL_ENABLED);
    return_from_trap(hart);
    proof {
        lemma_fixed_flags_resume_in_kernel();
    }
}

/// Tells whether the frames that the pending trap will access lie at word
/// addresses.
pub fn can_take_trap(hart: &Hart, mem: &Memory) -> (ready: bool)
    ensures
        ready == trap_ready(hart@, mem@),
{
    match trap_path(hart.csrs.read(Csr::TrapCause)) {
        TrapPath::KernelOrigin => hart.regs.read(SP) % 4 == 0,
        TrapPath::AppOrigin => {
            let locator: u32 = hart.csrs.read(Csr::TrapContext);
            if locator % 4 != 0 {
                return false;
            }
            proof {
                lemma_frame_slots(locator, CONTEXT_POINTER_SLOT as int, 0);
            }
            mem.load(word_address(locator, CONTEXT_POINTER_SLOT)) % 4 == 0
        },
    }
}

/// Trap entry and exit. Branches on the privilege level that the trap came
/// from, takes the matching path and says which one it took.
pub fn start_trap(hart: &mut Hart, mem: &mut Memory, markers: &LinkerMarkers) -> (path: TrapPath)
    requires
        trap_ready(old(hart)@, old(mem)@),
    ensures
        path == path_of(old(hart)@.csrs.trap_cause),
        final(hart)@ == trap_hart(old(hart)@, old(mem)@, *markers),
        final(mem)@ == trap_memory(old(hart)@, old(mem)@),
{
    let path: TrapPath = trap_path(hart.csrs.read(Csr::TrapCause));
    match path {
        TrapPath::KernelOrigin => from_kernel(hart, mem),
        TrapPath::AppOrigin => from_app(hart, mem, markers),
    }
    path
}

} // verus!
