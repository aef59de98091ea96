//! The address markers that the link step fixes for one kernel image.

use vstd::prelude::*;
use crate::memory::word_aligned;

verus! {

/// Boot-time configuration: every address that the link step and the board
/// supply to the boot and trap routines.
#[derive(Clone, Copy, Debug, PartialEq, Eq, Structural)]
pub struct LinkerMarkers {
    /// Top of the stack region, where the stack pointer starts.
    pub estack: u32,
    /// Base for position-independent data accesses.
    pub global_pointer: u32,
    /// Address of the trap entry routine.
    pub start_trap: u32,
    /// First address of the zero-initialized region.
    pub szero: u32,
    /// Address just past the zero-initialized region.
    pub ezero: u32,
    /// End of the code region in storage, where the data image is kept.
    pub etext: u32,
    /// First address of the initialized-data region in working memory.
    pub srelocate: u32,
    /// Address just past the initialized-data region.
    pub erelocate: u32,
    /// Continuation that the board supplies for the end of the boot sequence.
    pub reset_handler: u32,
    /// Continuation in the kernel that every trap taken from an application resumes at.
    pub return_to_kernel: u32,
}

impl LinkerMarkers {
    /// Number of words in the initialized-data region.
    pub open spec fn data_words(self) -> int {
        (self.erelocate - self.srelocate) / 4
    }

    /// Number of words in the zero-initialized region.
    pub open spec fn zero_words(self) -> int {
        (self.ezero - self.szero) / 4
    }

    /// Number of words that the memory initializer copies: those of the
    /// initialized-data region, or none where the data image is stored at
    /// the address at which it is used.
    pub open spec fn copy_words(self) -> int {
        if self.etext == self.srelocate {
            0
        } else {
            self.data_words()
        }
    }

    /// The markers describe regions that the memory initializer can walk:
    /// each region starts no later than it ends, every bound is word-aligned,
    /// and the stored data image lies inside the address space.
    pub open spec fn wf(self) -> bool {
        &&& self.szero <= self.ezero
        &&& self.srelocate <= self.erelocate
        &&& word_aligned(self.szero)
        &&& word_aligned(self.ezero)
        &&& word_aligned(self.srelocate)
        &&& word_aligned(self.erelocate)
        &&& word_aligned(self.etext)
        &&& self.etext + (self.erelocate - self.srelocate) <= 0x1_0000_0000
    }

    /// Counts the words that the memory initializer copies.
    pub fn copy_word_count(&self) -> (words: u32)
        requires
            self.wf(),
        ensures
            words == self.copy_words(),
            words < 0x4000_0000,
    {
        if self.etext == self.srelocate {
            0
        } else {
            (self.erelocate - self.srelocate) / 4
        }
    }

    /// Counts the words that the memory initializer sets to zero.
    pub fn zero_word_count(&self) -> (words: u32)
        requires
            self.wf(),
        ensures
            words == self.zero_words(),
            words < 0x4000_0000,
    {
        (self.ezero - self.szero) / 4
    }

    /// Tells whether the markers are well-formed.
    pub fn is_valid(&self) -> (valid: bool)
        ensures
            valid == self.wf(),
    {
        if self.szero > self.ezero || self.srelocate > self.erelocate {
            return false;
        }
        let image_bytes: u32 = self.erelocate - self.srelocate;
        let aligned = self.szero % 4 == 0 && self.ezero % 4 == 0 && self.srelocate % 4 == 0
            && self.erelocate % 4 == 0 && self.etext % 4 == 0;
        aligned && (image_bytes == 0 || image_bytes - 1 <= u32::MAX - self.etext)
    }
}

} // verus!
