//! Memory initializer: moves the data image into working memory and clears
//! the zero-initialized region.

use vstd::prelude::*;
use vstd::arithmetic::div_mod::lemma_mod_sub_multiples_vanish;
use vstd::arithmetic::div_mod::lemma_small_mod;
use crate::layout::LinkerMarkers;
use crate::memory::word_aligned;
use crate::memory::Memory;
use crate::memory::MemoryState;

verus! {

/// `addr` is one of the `words` word addresses that start at `base`.
pub open spec fn in_region(addr: u32, base: u32, words: int) -> bool {
    base <= addr < base + 4 * words && (addr - base) % 4 == 0
}

/// Index of the word of the stored image that ends up in word `k` of the
/// destination. The copy runs upwards one word at a time, so a destination
/// that starts inside the image sees the words before it repeat.
pub open spec fn image_word(src: u32, dst: u32, k: int) -> int {
    if src < dst {
        k % ((dst - src) / 4)
    } else {
        k
    }
}

/// The memory after `words` words were copied upwards from `src` to `dst`.
pub open spec fn copied(m: MemoryState, src: u32, dst: u32, words: int) -> MemoryState {
    MemoryState {
        words: Map::new(
            |a: u32| m.words.contains_key(a) || in_region(a, dst, words),
            |a: u32|
                if in_region(a, dst, words) {
                    m.word((src + 4 * image_word(src, dst, (a - dst) / 4)) as u32)
                } else {
                    m.words[a]
                },
        ),
        stores: m.stores + Seq::new(words as nat, |k: int| (dst + 4 * k) as u32),
    }
}

/// The memory after the data image was relocated: untouched when the image
/// is stored where it runs, copied otherwise.
pub open spec fn relocated(m: MemoryState, src: u32, dst: u32, words: int) -> MemoryState {
    if src == dst {
        m
    } else {
        copied(m, src, dst, words)
    }
}

/// The memory after `words` words from `start` on were set to zero.
pub open spec fn zeroed(m: MemoryState, start: u32, words: int) -> MemoryState {
    MemoryState {
        words: Map::new(
            |a: u32| m.words.contains_key(a) || in_region(a, start, words),
            |a: u32|
                if in_region(a, start, words) {
                    0u32
                } else {
                    m.words[a]
                },
        ),
        stores: m.stores + Seq::new(words as nat, |k: int| (start + 4 * k) as u32),
    }
}

/// The memory after the memory initializer ran with the given markers.
pub open spec fn initialized(m: MemoryState, markers: LinkerMarkers) -> MemoryState {
    zeroed(
        relocated(m, markers.etext, markers.srelocate, markers.data_words()),
        markers.szero,
        markers.zero_words(),
    )
}

proof fn lemma_copy_step(m: MemoryState, src: u32, dst: u32, i: int)
    requires
        src != dst,
        word_aligned(src),
        word_aligned(dst),
        0 <= i,
        src + 4 * (i + 1) <= 0x1_0000_0000,
        dst + 4 * (i + 1) <= 0x1_0000_0000,
    ensures
        copied(m, src, dst, i).store(
            (dst + 4 * i) as u32,
            copied(m, src, dst, i).word((src + 4 * i) as u32),
        ) == copied(m, src, dst, i + 1),
{
    let before = copied(m, src, dst, i);
    let from = (src + 4 * i) as u32;
    let to = (dst + 4 * i) as u32;
    let after = before.store(to, before.word(from));
    let goal = copied(m, src, dst, i + 1);
    assert(before.word(from) == m.word((src + 4 * image_word(src, dst, i)) as u32)) by {
        if src < dst {
            let d = (dst - src) / 4;
            assert(dst - src == 4 * d);
            if in_region(from, dst, i) {
                assert((from - dst) / 4 == i - d);
                lemma_mod_sub_multiples_vanish(i, d);
            } else {
                assert(i < d);
                lemma_small_mod(i as nat, d as nat);
            }
        } else {
            assert(!in_region(from, dst, i));
        }
    }
    assert(after.words =~= goal.words) by {
        assert forall|a: u32| after.words.contains_key(a) <==> goal.words.contains_key(a) by {
            if a == to {
                assert(in_region(a, dst, i + 1));
            }
        }
        assert forall|a: u32| after.words.contains_key(a) implies #[trigger] after.words[a]
            == goal.words[a] by {
            if a == to {
                assert(in_region(a, dst, i + 1));
                assert((a - dst) / 4 == i);
            } else if in_region(a, dst, i + 1) {
                assert(in_region(a, dst, i));
            }
        }
    }
    assert(after.stores =~= goal.stores);
}

proof fn lemma_zero_step(m: MemoryState, start: u32, i: int)
    requires
        word_aligned(start),
        0 <= i,
        start + 4 * (i + 1) <= 0x1_0000_0000,
    ensures
        zeroed(m, start, i).store((start + 4 * i) as u32, 0) == zeroed(m, start, i + 1),
{
    let to = (start + 4 * i) as u32;
    let after = zeroed(m, start, i).store(to, 0);
    let goal = zeroed(m, start, i + 1);
    assert(after.words =~= goal.words) by {
        assert forall|a: u32| after.words.contains_key(a) <==> goal.words.contains_key(a) by {
            if a == to {
                assert(in_region(a, start, i + 1));
            }
        }
        assert forall|a: u32| after.words.contains_key(a) implies #[trigger] after.words[a]
            == goal.words[a] by {
            if a == to {
                assert(in_region(a, start, i + 1));
            } else if in_region(a, start, i + 1) {
                assert(in_region(a, start, i));
            }
        }
    }
    assert(after.stores =~= goal.stores);
}

/// Clearing a region whose bounds are in order and word-aligned stores once
/// to each of its `(end - start) / 4` words, lowest address first, after the
/// stores made before. Those words then read zero, and every other word
/// reads as it did.
pub proof fn lemma_zeroed_bounds(m: MemoryState, start: u32, end: u32)
    requires
        start <= end,
        word_aligned(start),
        word_aligned(end),
    ensures
        ({
            let n = (end - start) / 4;
            let z = zeroed(m, start, n);
            &&& z.stores.len() == m.stores.len() + n
            &&& forall|k: int| 0 <= k < m.stores.len() ==> #[trigger] z.stores[k] == m.stores[k]
            &&& forall|k: int|
                0 <= k < n ==> #[trigger] z.stores[m.stores.len() + k] == start + 4 * k
            &&& forall|a: u32|
                #[trigger] z.word(a) == if start <= a < end && word_aligned(a) {
                    0
                } else {
                    m.word(a)
                }
        }),
{
    let n = (end - start) / 4;
    let z = zeroed(m, start, n);
    assert forall|a: u32|
        #[trigger] z.word(a) == if start <= a < end && word_aligned(a) {
            0
        } else {
            m.word(a)
        } by {
        assert(in_region(a, start, n) <==> start <= a < end && word_aligned(a));
    }
}

/// Copying a data image that is not stored where it runs, between bounds
/// that are in order and word-aligned, stores once to each of the
/// `(end - dst) / 4` words of the destination, lowest address first, after
/// the stores made before. Each of those words then holds the word of the
/// image that `image_word` names, and every other word reads as it did.
pub proof fn lemma_copied_bounds(m: MemoryState, src: u32, dst: u32, end: u32)
    requires
        src != dst,
        dst <= end,
        word_aligned(src),
        word_aligned(dst),
        word_aligned(end),
        src + (end - dst) <= 0x1_0000_0000,
    ensures
        ({
            let n = (end - dst) / 4;
            let c = relocated(m, src, dst, n);
            &&& c.stores.len() == m.stores.len() + n
            &&& forall|k: int| 0 <= k < m.stores.len() ==> #[trigger] c.stores[k] == m.stores[k]
            &&& forall|k: int| 0 <= k < n ==> #[trigger] c.stores[m.stores.len() + k] == dst + 4 * k
            &&& forall|k: int|
                0 <= k < n ==> #[trigger] c.word((dst + 4 * k) as u32) == m.word(
                    (src + 4 * image_word(src, dst, k)) as u32,
                )
            &&& forall|a: u32|
                !(dst <= a < end && word_aligned(a)) ==> #[trigger] c.word(a) == m.word(a)
        }),
{
    let n = (end - dst) / 4;
    let c = relocated(m, src, dst, n);
    assert forall|k: int| 0 <= k < n implies #[trigger] c.word((dst + 4 * k) as u32) == m.word(
        (src + 4 * image_word(src, dst, k)) as u32,
    ) by {
        let a = (dst + 4 * k) as u32;
        assert(in_region(a, dst, n));
        assert((a - dst) / 4 == k);
    }
    assert forall|a: u32| !(dst <= a < end && word_aligned(a)) implies #[trigger] c.word(a)
        == m.word(a) by {
        assert(!in_region(a, dst, n));
    }
}

/// Where the stored image does not start below a destination that it runs
/// into, word `k` of the destination receives word `k` of the image.
pub proof fn lemma_image_word_without_overlap(src: u32, dst: u32, words: int, k: int)
    requires
        word_aligned(src),
        word_aligned(dst),
        0 <= k < words,
        src >= dst || src + 4 * words <= dst,
    ensures
        image_word(src, dst, k) == k,
{
    if src < dst {
        let d = (dst - src) / 4;
        assert(dst - src == 4 * d);
        lemma_small_mod(k as nat, d as nat);
    }
}

/// With well-formed markers the memory initializer makes exactly as many
/// stores as the two regions have words: `(erelocate - srelocate) / 4` for
/// the data image, unless the image is stored where it runs, and then
/// `(ezero - szero) / 4` for the zero-initialized region.
pub proof fn lemma_initialized_store_count(m: MemoryState, markers: LinkerMarkers)
    requires
        markers.wf(),
    ensures
        initialized(m, markers).stores.len() == m.stores.len() + markers.copy_words()
            + markers.zero_words(),
{
}

/// A data image that is stored where it runs is not copied: the memory
/// initializer then does nothing but clear the zero-initialized region.
pub proof fn lemma_relocation_in_place(m: MemoryState, markers: LinkerMarkers)
    requires
        markers.wf(),
        markers.etext == markers.srelocate,
    ensures
        initialized(m, markers) == zeroed(m, markers.szero, markers.zero_words()),
        initialized(m, markers).stores.len() == m.stores.len() + markers.zero_words(),
{
}

/// Copies the data image, one word at a time and upwards, from `src` to the
/// region from `dst` up to `end`. Nothing is copied when the image is
/// already stored at `dst`.
pub fn relocate_data(mem: &mut Memory, src: u32, dst: u32, end: u32)
    requires
        dst <= end,
        word_aligned(src),
        word_aligned(dst),
        word_aligned(end),
        src + (end - dst) <= 0x1_0000_0000,
    ensures
        final(mem)@ == relocated(old(mem)@, src, dst, (end - dst) / 4),
{
    if src == dst {
        return ;
    }
    let words: u32 = (end - dst) / 4;
    let mut i: u32 = 0;
    assert(mem@ =~= copied(old(mem)@, src, dst, 0)) by {
        assert(mem@.words =~= copied(old(mem)@, src, dst, 0).words);
        assert(mem@.stores =~= copied(old(mem)@, src, dst, 0).stores);
    }
    while i < words
        invariant
            src != dst,
            i <= words,
            words == (end - dst) / 4,
            dst <= end,
            word_aligned(src),
            word_aligned(dst),
            word_aligned(end),
            src + (end - dst) <= 0x1_0000_0000,
            mem@ == copied(old(mem)@, src, dst, i as int),
        decreases words - i,
    {
        let value = mem.load(src + 4 * i);
        mem.store(dst + 4 * i, value);
        proof {
            lemma_copy_step(old(mem)@, src, dst, i as int);
        }
        i = i + 1;
    }
}

/// Sets every word from `start` up to `end` to zero, lowest address first.
pub fn zero_region(mem: &mut Memory, start: u32, end: u32)
    requires
        start <= end,
        word_aligned(start),
        word_aligned(end),
    ensures
        final(mem)@ == zeroed(old(mem)@, start, (end - start) / 4),
{
    let words: u32 = (end - start) / 4;
    let mut i: u32 = 0;
    assert(mem@ =~= zeroed(old(mem)@, start, 0)) by {
        assert(mem@.words =~= zeroed(old(mem)@, start, 0).words);
        assert(mem@.stores =~= zeroed(old(mem)@, start, 0).stores);
    }
    while i < words
        invariant
            i <= words,
            words == (end - start) / 4,
            start <= end,
            word_aligned(start),
            word_aligned(end),
            mem@ == zeroed(old(mem)@, start, i as int),
        decreases words - i,
    {
        mem.store(start + 4 * i, 0);
        proof {
            lemma_zero_step(old(mem)@, start, i as int);
        }
        i = i + 1;
    }
}

/// Sets up memory for the kernel: moves the data image from storage into
/// working memory, then clears the zero-initialized region.
pub fn init_memory(mem: &mut Memory, markers: &LinkerMarkers)
    requires
        markers.wf(),
    ensures
        final(mem)@ == initialized(old(mem)@, *markers),
{
    relocate_data(mem, markers.etext, markers.srelocate, markers.erelocate);
    zero_region(mem, markers.szero, markers.ezero);
}

} // verus!
