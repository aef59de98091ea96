//! General-purpose registers, and the two frame layouts in which the trap
//! routines keep them in memory.

use vstd::prelude::*;
use crate::memory::frame_slot;
use crate::memory::in_frame;
use crate::memory::lemma_frame_member;
use crate::memory::lemma_frame_slots;
use crate::memory::word_addr;
use crate::memory::word_address;
use crate::memory::word_aligned;
use crate::memory::Memory;
use crate::memory::MemoryState;

verus! {

/// Stack pointer register.
pub const SP: u8 = 2;

/// Global pointer register.
pub const GP: u8 = 3;

/// Frame pointer register.
pub const S0: u8 = 8;

/// The general-purpose registers of one hart. Register zero always reads as
/// zero, whatever is written to it.
#[derive(Clone, Copy, Debug)]
pub struct RegisterFile {
    pub x: [u32; 32],
}

impl View for RegisterFile {
    type V = Seq<u32>;

    open spec fn view(&self) -> Seq<u32> {
        Seq::new(
            32,
            |r: int|
                if r == 0 {
                    0u32
                } else {
                    self.x[r]
                },
        )
    }
}

impl RegisterFile {
    /// The register file with every register zero.
    pub fn new() -> (regs: RegisterFile)
        ensures
            regs@ == Seq::new(32, |r: int| 0u32),
    {
        let regs = RegisterFile { x: [0u32;32] };
        assert(regs@ =~= Seq::new(32, |r: int| 0u32));
        regs
    }

    /// Reads register `r`.
    pub fn read(&self, r: u8) -> (value: u32)
        requires
            r < 32,
        ensures
            value == self@[r as int],
    {
        if r == 0 {
            0
        } else {
            self.x[r as usize]
        }
    }

    /// Writes register `r`. A write to register zero changes nothing.
    pub fn write(&mut self, r: u8, value: u32)
        requires
            r < 32,
        ensures
            final(self)@ == written(old(self)@, r as int, value),
    {
        if r != 0 {
            self.x[r as usize] = value;
        }
        assert(self@ =~= written(old(self)@, r as int, value));
    }
}

/// The registers after `value` was written to register `r`.
pub open spec fn written(regs: Seq<u32>, r: int, value: u32) -> Seq<u32> {
    if r == 0 {
        regs
    } else {
        regs.update(r, value)
    }
}

/// The order in which a frame in memory holds registers.
#[derive(Clone, Copy, Debug, PartialEq, Eq, Structural)]
pub enum FrameLayout {
    /// A register context: every register but the always-zero register and
    /// the stack pointer, in ascending order, in 30 slots.
    Context,
    /// The registers that a callee may overwrite: the return address, the
    /// seven temporaries and the eight argument registers, in 16 slots.
    CallerSaved,
}

impl FrameLayout {
    /// Number of slots of a frame.
    pub open spec fn spec_slots(self) -> int {
        match self {
            FrameLayout::Context => 30,
            FrameLayout::CallerSaved => 16,
        }
    }

    /// The register that slot `k` holds.
    pub open spec fn spec_register(self, k: int) -> int {
        match self {
            FrameLayout::Context => if k == 0 {
                1
            } else {
                k + 2
            },
            FrameLayout::CallerSaved => if k == 0 {
                1
            } else if k <= 3 {
                k + 4
            } else if k <= 7 {
                k + 24
            } else {
                k + 2
            },
        }
    }

    /// The slot that holds register `r`, if the frame holds it at all.
    pub open spec fn spec_slot(self, r: int) -> Option<int> {
        match self {
            FrameLayout::Context => if r == 1 {
                Some(0int)
            } else if 3 <= r <= 31 {
                Some(r - 2)
            } else {
                None
            },
            FrameLayout::CallerSaved => if r == 1 {
                Some(0int)
            } else if 5 <= r <= 7 {
                Some(r - 4)
            } else if 10 <= r <= 17 {
                Some(r - 2)
            } else if 28 <= r <= 31 {
                Some(r - 24)
            } else {
                None
            },
        }
    }

    /// Number of slots of a frame.
    pub fn slots(self) -> (n: u32)
        ensures
            n == self.spec_slots(),
    {
        match self {
            FrameLayout::Context => 30,
            FrameLayout::CallerSaved => 16,
        }
    }

    /// The register that slot `k` holds.
    pub fn register(self, k: u32) -> (r: u8)
        requires
            k < self.spec_slots(),
        ensures
            r == self.spec_register(k as int),
            1 <= r < 32,
    {
        match self {
            FrameLayout::Context => if k == 0 {
                1
            } else {
                (k + 2) as u8
            },
            FrameLayout::CallerSaved => if k == 0 {
                1
            } else if k <= 3 {
                (k + 4) as u8
            } else if k <= 7 {
                (k + 24) as u8
            } else {
                (k + 2) as u8
            },
        }
    }

    /// The slot that holds register `r`, if the frame holds it at all.
    pub fn slot(self, r: u8) -> (k: Option<u32>)
        ensures
            match k {
                Some(k) => self.spec_slot(r as int) == Some(k as int),
                None => self.spec_slot(r as int) is None,
            },
    {
        match self {
            FrameLayout::Context => if r == 1 {
                Some(0)
            } else if 3 <= r && r <= 31 {
                Some((r - 2) as u32)
            } else {
                None
            },
            FrameLayout::CallerSaved => if r == 1 {
                Some(0)
            } else if 5 <= r && r <= 7 {
                Some((r - 4) as u32)
            } else if 10 <= r && r <= 17 {
                Some((r - 2) as u32)
            } else if 28 <= r && r <= 31 {
                Some((r - 24) as u32)
            } else {
                None
            },
        }
    }
}

/// Slots and registers of a layout correspond one to one: every slot holds
/// a register other than register zero, that register is kept in that slot
/// and in no other, and a register that has a slot is the one the slot holds.
pub proof fn lemma_layout_is_one_to_one(layout: FrameLayout)
    ensures
        forall|k: int|
            0 <= k < layout.spec_slots() ==> 1 <= #[trigger] layout.spec_register(k) < 32
                && layout.spec_slot(layout.spec_register(k)) == Some(k),
        forall|r: int|
            (#[trigger] layout.spec_slot(r)) is Some ==> 0 <= layout.spec_slot(r).unwrap()
                < layout.spec_slots() && layout.spec_register(layout.spec_slot(r).unwrap()) == r,
{
}

/// A register context holds every register but the always-zero register and
/// the stack pointer.
pub proof fn lemma_context_holds_thirty_registers()
    ensures
        forall|r: int|
            0 <= r < 32 ==> ((#[trigger] FrameLayout::Context.spec_slot(r)) is Some <==> r != 0
                && r != 2),
{
}

/// The memory after the first `n` slots of a frame at `base` were stored
/// from `regs`, slot zero first.
pub open spec fn frame_stored(
    m: MemoryState,
    base: u32,
    regs: Seq<u32>,
    layout: FrameLayout,
    n: int,
) -> MemoryState {
    MemoryState {
        words: Map::new(
            |a: u32| m.words.contains_key(a) || in_frame(a, base, n),
            |a: u32|
                if in_frame(a, base, n) {
                    regs[layout.spec_register(frame_slot(a, base))]
                } else {
                    m.words[a]
                },
        ),
        stores: m.stores + Seq::new(n as nat, |k: int| word_addr(base, k)),
    }
}

/// The registers after the first `n` slots of a frame at `base` were loaded
/// into the registers that they hold.
pub open spec fn frame_loaded(
    regs: Seq<u32>,
    m: MemoryState,
    base: u32,
    layout: FrameLayout,
    n: int,
) -> Seq<u32> {
    Seq::new(
        32,
        |r: int|
            if layout.spec_slot(r) is Some && layout.spec_slot(r).unwrap() < n {
                m.word(word_addr(base, layout.spec_slot(r).unwrap()))
            } else {
                regs[r]
            },
    )
}

proof fn lemma_store_step(m: MemoryState, base: u32, regs: Seq<u32>, layout: FrameLayout, i: int)
    requires
        0 <= i < layout.spec_slots(),
    ensures
        frame_stored(m, base, regs, layout, i).store(
            word_addr(base, i),
            regs[layout.spec_register(i)],
        ) == frame_stored(m, base, regs, layout, i + 1),
{
    let to = word_addr(base, i);
    let after = frame_stored(m, base, regs, layout, i).store(to, regs[layout.spec_register(i)]);
    let goal = frame_stored(m, base, regs, layout, i + 1);
    lemma_frame_slots(base, i, i);
    lemma_frame_slots(base, i, i + 1);
    assert(after.words =~= goal.words) by {
        assert forall|a: u32| after.words.contains_key(a) <==> goal.words.contains_key(a) by {
            if in_frame(a, base, i + 1) && a != to {
                lemma_frame_member(a, base, i + 1);
            }
        }
        assert forall|a: u32| after.words.contains_key(a) implies #[trigger] after.words[a]
            == goal.words[a] by {
            if in_frame(a, base, i + 1) && a != to {
                lemma_frame_member(a, base, i + 1);
            }
        }
    }
    assert(after.stores =~= goal.stores);
}

/// Stores the registers of a frame to memory at `base`, slot zero first.
pub fn store_frame(mem: &mut Memory, base: u32, regs: &RegisterFile, layout: FrameLayout)
    requires
        word_aligned(base),
    ensures
        final(mem)@ == frame_stored(old(mem)@, base, regs@, layout, layout.spec_slots()),
{
    let n: u32 = layout.slots();
    let mut k: u32 = 0;
    assert(mem@ =~= frame_stored(old(mem)@, base, regs@, layout, 0)) by {
        assert(mem@.words =~= frame_stored(old(mem)@, base, regs@, layout, 0).words);
        assert(mem@.stores =~= frame_stored(old(mem)@, base, regs@, layout, 0).stores);
    }
    while k < n
        invariant
            k <= n,
            n == layout.spec_slots(),
            word_aligned(base),
            mem@ == frame_stored(old(mem)@, base, regs@, layout, k as int),
        decreases n - k,
    {
        let addr: u32 = word_address(base, k);
        let value: u32 = regs.read(layout.register(k));
        proof {
            lemma_frame_slots(base, k as int, n as int);
            lemma_store_step(old(mem)@, base, regs@, layout, k as int);
        }
        mem.store(addr, value);
        k = k + 1;
    }
}

/// Loads the registers of a frame from memory at `base`. Registers that the
/// frame does not hold keep their values.
pub fn load_frame(regs: &mut RegisterFile, mem: &Memory, base: u32, layout: FrameLayout)
    requires
        word_aligned(base),
    ensures
        final(regs)@ == frame_loaded(old(regs)@, mem@, base, layout, layout.spec_slots()),
{
    let n: u32 = layout.slots();
    let mut k: u32 = 0;
    assert(regs@ =~= frame_loaded(old(regs)@, mem@, base, layout, 0));
    while k < n
        invariant
            k <= n,
            n == layout.spec_slots(),
            word_aligned(base),
            regs@ == frame_loaded(old(regs)@, mem@, base, layout, k as int),
        decreases n - k,
    {
        let addr: u32 = word_address(base, k);
        proof {
            lemma_frame_slots(base, k as int, n as int);
            lemma_layout_is_one_to_one(layout);
        }
        let value: u32 = mem.load(addr);
        let r: u8 = layout.register(k);
        let ghost before = regs@;
        regs.write(r, value);
        assert(regs@ =~= frame_loaded(old(regs)@, mem@, base, layout, k + 1)) by {
            assert(layout.spec_slot(layout.spec_register(k as int)) == Some(k as int));
            assert forall|q: int| 0 <= q < 32 implies #[trigger] regs@[q] == frame_loaded(
                old(regs)@,
                mem@,
                base,
                layout,
                k + 1,
            )[q] by {
                if q != r && layout.spec_slot(q) is Some {
                    assert(layout.spec_register(layout.spec_slot(q).unwrap()) == q);
                }
            }
        }
        k = k + 1;
    }
}

/// Loading a frame right after it was stored gives every register that the
/// frame holds the value that it had when the frame was stored, whatever the
/// registers held in between and whatever the memory held before.
pub proof fn lemma_frame_round_trip(
    m: MemoryState,
    base: u32,
    saved: Seq<u32>,
    current: Seq<u32>,
    layout: FrameLayout,
)
    requires
        saved.len() == 32,
        current.len() == 32,
    ensures
        forall|r: int|
            0 <= r < 32 && layout.spec_slot(r) is Some ==> #[trigger] frame_loaded(
                current,
                frame_stored(m, base, saved, layout, layout.spec_slots()),
                base,
                layout,
                layout.spec_slots(),
            )[r] == saved[r],
        forall|r: int|
            0 <= r < 32 && layout.spec_slot(r) is None ==> #[trigger] frame_loaded(
                current,
                frame_stored(m, base, saved, layout, layout.spec_slots()),
                base,
                layout,
                layout.spec_slots(),
            )[r] == current[r],
{
    let n = layout.spec_slots();
    let stored = frame_stored(m, base, saved, layout, n);
    lemma_layout_is_one_to_one(layout);
    assert forall|r: int| 0 <= r < 32 && layout.spec_slot(r) is Some implies #[trigger] frame_loaded(
        current,
        stored,
        base,
        layout,
        n,
    )[r] == saved[r] by {
        let k = layout.spec_slot(r).unwrap();
        lemma_frame_slots(base, k, n);
    }
}

} // verus!
