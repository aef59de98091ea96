//! Word-addressed simulated memory that keeps a journal of every store.

use std::collections::HashMap;
use vstd::prelude::*;

verus! {

broadcast use vstd::std_specs::hash::group_hash_axioms;

/// An address is usable for a word access when it is a multiple of the word size.
pub open spec fn word_aligned(addr: u32) -> bool {
    addr % 4 == 0
}

/// Address of the `k`-th word after `base`, wrapping around the 32-bit address space.
pub open spec fn word_addr(base: u32, k: int) -> u32 {
    ((base + 4 * k) % 0x1_0000_0000) as u32
}

/// Distance in bytes from `base` up to `addr`, going around the end of the
/// address space where `addr` lies below `base`.
pub open spec fn frame_offset(addr: u32, base: u32) -> int {
    (addr - base) % 0x1_0000_0000
}

/// `addr` is the address of one of the `words` words of the frame at `base`.
pub open spec fn in_frame(addr: u32, base: u32, words: int) -> bool {
    frame_offset(addr, base) % 4 == 0 && frame_offset(addr, base) < 4 * words
}

/// Index, within the frame at `base`, of the word at `addr`.
pub open spec fn frame_slot(addr: u32, base: u32) -> int {
    frame_offset(addr, base) / 4
}

/// The words of a frame have distinct addresses, each of which names its slot.
pub proof fn lemma_frame_slots(base: u32, k: int, words: int)
    requires
        0 <= k < 0x4000_0000,
        0 <= words <= 0x4000_0000,
    ensures
        in_frame(word_addr(base, k), base, words) <==> k < words,
        frame_slot(word_addr(base, k), base) == k,
        word_aligned(base) ==> word_aligned(word_addr(base, k)),
{
}

/// Every address inside a frame is the address of the slot that it names.
pub proof fn lemma_frame_member(addr: u32, base: u32, words: int)
    requires
        0 <= words <= 0x4000_0000,
        in_frame(addr, base, words),
    ensures
        0 <= frame_slot(addr, base) < words,
        addr == word_addr(base, frame_slot(addr, base)),
{
}

/// Computes the address of the `k`-th word after `base`.
pub fn word_address(base: u32, k: u32) -> (addr: u32)
    requires
        k < 0x4000_0000,
    ensures
        addr == word_addr(base, k as int),
{
    let sum: u64 = base as u64 + 4 * (k as u64);
    (sum % 0x1_0000_0000) as u32
}

/// Computes the address of the `k`-th word before `base`.
pub fn word_address_below(base: u32, k: u32) -> (addr: u32)
    requires
        k < 0x4000_0000,
    ensures
        addr == word_addr(base, -(k as int)),
        word_aligned(base) ==> word_aligned(addr),
{
    let sum: u64 = base as u64 + 0x1_0000_0000 - 4 * (k as u64);
    (sum % 0x1_0000_0000) as u32
}

/// Mathematical model of a memory: the words that were ever written, and the
/// addresses of all stores in the order in which they happened.
pub struct MemoryState {
    pub words: Map<u32, u32>,
    pub stores: Seq<u32>,
}

impl MemoryState {
    /// The memory in which nothing was ever stored.
    pub open spec fn empty() -> MemoryState {
        MemoryState { words: Map::empty(), stores: Seq::empty() }
    }

    /// The word at `addr`; a word that was never written reads as zero.
    pub open spec fn word(self, addr: u32) -> u32 {
        if self.words.contains_key(addr) {
            self.words[addr]
        } else {
            0
        }
    }

    /// The memory after one store of `value` to `addr`.
    pub open spec fn store(self, addr: u32, value: u32) -> MemoryState {
        MemoryState { words: self.words.insert(addr, value), stores: self.stores.push(addr) }
    }
}

/// A simulated memory. Every store is recorded, so that a caller can tell
/// which words a routine touched and in what order.
pub struct Memory {
    cells: HashMap<u32, u32>,
    journal: Vec<u32>,
}

impl View for Memory {
    type V = MemoryState;

    closed spec fn view(&self) -> MemoryState {
        MemoryState { words: self.cells@, stores: self.journal@ }
    }
}

impl Memory {
    /// Creates a memory that reads as zero everywhere and has an empty journal.
    pub fn new() -> (mem: Memory)
        ensures
            mem@ == MemoryState::empty(),
    {
        Memory { cells: HashMap::new(), journal: Vec::new() }
    }

    /// Reads the word at `addr`.
    pub fn load(&self, addr: u32) -> (value: u32)
        requires
            word_aligned(addr),
        ensures
            value == self@.word(addr),
    {
        match self.cells.get(&addr) {
            Some(v) => *v,
            None => 0,
        }
    }

    /// Writes `value` to the word at `addr` and records the store.
    pub fn store(&mut self, addr: u32, value: u32)
        requires
            word_aligned(addr),
        ensures
            final(self)@ == old(self)@.store(addr, value),
    {
        self.cells.insert(addr, value);
        self.journal.push(addr);
    }

    /// Number of stores made so far.
    pub fn store_count(&self) -> (n: usize)
        ensures
            n == self@.stores.len(),
    {
        self.journal.len()
    }

    /// Address of the `i`-th store, counted from zero, if there were that many.
    pub fn stored_address(&self, i: usize) -> (addr: Option<u32>)
        ensures
            addr == (if i < self@.stores.len() {
                Some(self@.stores[i as int])
            } else {
                None
            }),
    {
        if i < self.journal.len() {
            Some(self.journal[i])
        } else {
            None
        }
    }
}

} // verus!
