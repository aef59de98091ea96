use rv32i::init_memory;
use rv32i::layout::LinkerMarkers;
use rv32i::meminit::relocate_data;
use rv32i::meminit::zero_region;
use rv32i::memory::word_address;
use rv32i::memory::word_address_below;
use rv32i::memory::Memory;

fn markers(etext: u32, srelocate: u32, erelocate: u32, szero: u32, ezero: u32) -> LinkerMarkers {
    LinkerMarkers {
        estack: 0x8000_4000,
        global_pointer: 0x8000_0800,
        start_trap: 0x2040_0100,
        szero,
        ezero,
        etext,
        srelocate,
        erelocate,
        reset_handler: 0x2040_0200,
        return_to_kernel: 0x2040_0300,
    }
}

fn journal(mem: &Memory) -> Vec<u32> {
    let mut out = Vec::new();
    let mut i = 0;
    while let Some(addr) = mem.stored_address(i) {
        out.push(addr);
        i += 1;
    }
    out
}

#[test]
fn fresh_memory_reads_zero_and_has_no_stores() {
    let mem = Memory::new();
    assert_eq!(mem.load(0), 0);
    assert_eq!(mem.load(0x8000_0000), 0);
    assert_eq!(mem.store_count(), 0);
    assert_eq!(mem.stored_address(0), None);
}

#[test]
fn store_changes_one_word_and_is_recorded() {
    let mut mem = Memory::new();
    mem.store(0x100, 0xDEAD_BEEF);
    mem.store(0x104, 7);
    mem.store(0x100, 9);
    assert_eq!(mem.load(0x100), 9);
    assert_eq!(mem.load(0x104), 7);
    assert_eq!(mem.load(0x108), 0);
    assert_eq!(journal(&mem), vec![0x100, 0x104, 0x100]);
    assert_eq!(mem.stored_address(3), None);
}

#[test]
fn word_addresses_wrap_around_the_address_space() {
    assert_eq!(word_address(0x1000, 0), 0x1000);
    assert_eq!(word_address(0x1000, 30), 0x1078);
    assert_eq!(word_address(0xFFFF_FFFC, 1), 0);
    assert_eq!(word_address(0xFFFF_FFF8, 3), 4);
    assert_eq!(word_address_below(0x1000, 16), 0x0FC0);
    assert_eq!(word_address_below(0x10, 16), 0xFFFF_FFD0);
    assert_eq!(word_address_below(0x10, 0), 0x10);
}

#[test]
fn zero_region_of_four_words_writes_four_zeros_and_stops() {
    let mut mem = Memory::new();
    for addr in [0x1FFCu32, 0x2000, 0x2004, 0x2008, 0x200C, 0x2010] {
        mem.store(addr, 0xAAAA_0000 | addr);
    }
    let before = mem.store_count();
    let m = markers(0x8000_0000, 0x8000_0000, 0x8000_0000, 0x2000, 0x2010);
    assert!(m.is_valid());
    init_memory(&mut mem, &m);
    assert_eq!(journal(&mem)[before..], [0x2000, 0x2004, 0x2008, 0x200C]);
    assert_eq!(mem.load(0x2000), 0);
    assert_eq!(mem.load(0x2004), 0);
    assert_eq!(mem.load(0x2008), 0);
    assert_eq!(mem.load(0x200C), 0);
    assert_eq!(mem.load(0x1FFC), 0xAAAA_1FFC);
    assert_eq!(mem.load(0x2010), 0xAAAA_2010);
}

#[test]
fn empty_regions_are_not_touched() {
    let mut mem = Memory::new();
    mem.store(0x2000, 5);
    zero_region(&mut mem, 0x2000, 0x2000);
    relocate_data(&mut mem, 0x100, 0x2000, 0x2000);
    assert_eq!(mem.store_count(), 1);
    assert_eq!(mem.load(0x2000), 5);
}

#[test]
fn data_image_is_copied_word_by_word() {
    let mut mem = Memory::new();
    let image = [0x11u32, 0x22, 0x33, 0x44, 0x55];
    for (k, w) in image.iter().enumerate() {
        mem.store(0x2040_1000 + 4 * k as u32, *w);
    }
    mem.store(0x2040_1014, 0x66);
    mem.store(0x8000_0014, 0x77);
    let before = mem.store_count();
    relocate_data(&mut mem, 0x2040_1000, 0x8000_0000, 0x8000_0014);
    assert_eq!(
        journal(&mem)[before..],
        [0x8000_0000, 0x8000_0004, 0x8000_0008, 0x8000_000C, 0x8000_0010]
    );
    for (k, w) in image.iter().enumerate() {
        assert_eq!(mem.load(0x8000_0000 + 4 * k as u32), *w);
        assert_eq!(mem.load(0x2040_1000 + 4 * k as u32), *w);
    }
    assert_eq!(mem.load(0x8000_0014), 0x77);
}

#[test]
fn init_memory_touches_exactly_the_words_of_both_regions() {
    let mut mem = Memory::new();
    for k in 0..3u32 {
        mem.store(0x2040_2000 + 4 * k, 0x100 + k);
    }
    for k in 0..6u32 {
        mem.store(0x8000_0100 + 4 * k, 0xFFFF_FFFF);
    }
    let before = mem.store_count();
    let m = markers(0x2040_2000, 0x8000_0000, 0x8000_000C, 0x8000_0100, 0x8000_0118);
    assert!(m.is_valid());
    init_memory(&mut mem, &m);
    assert_eq!(mem.store_count() - before, 3 + 6);
    assert_eq!(
        journal(&mem)[before..],
        [
            0x8000_0000, 0x8000_0004, 0x8000_0008, 0x8000_0100, 0x8000_0104, 0x8000_0108,
            0x8000_010C, 0x8000_0110, 0x8000_0114
        ]
    );
    assert_eq!(mem.load(0x8000_0000), 0x100);
    assert_eq!(mem.load(0x8000_0004), 0x101);
    assert_eq!(mem.load(0x8000_0008), 0x102);
    assert_eq!(mem.load(0x8000_000C), 0);
    for k in 0..6u32 {
        assert_eq!(mem.load(0x8000_0100 + 4 * k), 0);
    }
}

#[test]
fn image_stored_in_place_is_not_copied_but_zero_region_is_cleared() {
    let mut mem = Memory::new();
    mem.store(0x8000_0000, 0xABCD);
    mem.store(0x8000_0004, 0x1234);
    mem.store(0x8000_0100, 0x5555);
    let before = mem.store_count();
    let m = markers(0x8000_0000, 0x8000_0000, 0x8000_0008, 0x8000_0100, 0x8000_0108);
    assert!(m.is_valid());
    init_memory(&mut mem, &m);
    assert_eq!(journal(&mem)[before..], [0x8000_0100, 0x8000_0104]);
    assert_eq!(mem.load(0x8000_0000), 0xABCD);
    assert_eq!(mem.load(0x8000_0004), 0x1234);
    assert_eq!(mem.load(0x8000_0100), 0);
    assert_eq!(mem.load(0x8000_0104), 0);
}

#[test]
fn copy_into_a_destination_inside_the_image_repeats_the_leading_words() {
    let mut mem = Memory::new();
    for k in 0..5u32 {
        mem.store(0x1000 + 4 * k, 0xA0 + k);
    }
    relocate_data(&mut mem, 0x1000, 0x1008, 0x101C);
    let got: Vec<u32> = (0..7u32).map(|k| mem.load(0x1000 + 4 * k)).collect();
    assert_eq!(got, vec![0xA0, 0xA1, 0xA0, 0xA1, 0xA0, 0xA1, 0xA0]);
}

#[test]
fn copy_to_a_destination_below_the_image_keeps_every_word() {
    let mut mem = Memory::new();
    for k in 0..4u32 {
        mem.store(0x1008 + 4 * k, 0xB0 + k);
    }
    relocate_data(&mut mem, 0x1008, 0x1000, 0x1010);
    let got: Vec<u32> = (0..6u32).map(|k| mem.load(0x1000 + 4 * k)).collect();
    assert_eq!(got, vec![0xB0, 0xB1, 0xB2, 0xB3, 0xB2, 0xB3]);
}

#[test]
fn image_may_end_at_the_top_of_the_address_space() {
    let mut mem = Memory::new();
    mem.store(0xFFFF_FFF8, 1);
    mem.store(0xFFFF_FFFC, 2);
    let m = markers(0xFFFF_FFF8, 0x8000_0000, 0x8000_0008, 0, 0);
    assert!(m.is_valid());
    init_memory(&mut mem, &m);
    assert_eq!(mem.load(0x8000_0000), 1);
    assert_eq!(mem.load(0x8000_0004), 2);
}

#[test]
fn markers_are_valid_only_when_ordered_aligned_and_in_range() {
    assert!(markers(0x2040_0000, 0x8000_0000, 0x8000_0010, 0x8000_0010, 0x8000_0020).is_valid());
    assert!(markers(0, 0, 0, 0, 0).is_valid());
    assert!(!markers(0x2040_0000, 0x8000_0010, 0x8000_0000, 0x8000_0010, 0x8000_0020).is_valid());
    assert!(!markers(0x2040_0000, 0x8000_0000, 0x8000_0010, 0x8000_0020, 0x8000_0010).is_valid());
    assert!(!markers(0x2040_0002, 0x8000_0000, 0x8000_0010, 0x8000_0010, 0x8000_0020).is_valid());
    assert!(!markers(0x2040_0000, 0x8000_0001, 0x8000_0010, 0x8000_0010, 0x8000_0020).is_valid());
    assert!(!markers(0x2040_0000, 0x8000_0000, 0x8000_0012, 0x8000_0010, 0x8000_0020).is_valid());
    assert!(!markers(0x2040_0000, 0x8000_0000, 0x8000_0010, 0x8000_0013, 0x8000_0020).is_valid());
    assert!(!markers(0x2040_0000, 0x8000_0000, 0x8000_0010, 0x8000_0010, 0x8000_0021).is_valid());
    assert!(!markers(0xFFFF_FFF8, 0x8000_0000, 0x8000_000C, 0, 0).is_valid());
}

#[test]
fn word_counts_are_those_of_the_regions() {
    let m = markers(0x2040_2000, 0x8000_0000, 0x8000_000C, 0x8000_0100, 0x8000_0118);
    assert_eq!(m.copy_word_count(), 3);
    assert_eq!(m.zero_word_count(), 6);
    let empty = markers(0x2040_2000, 0x8000_0000, 0x8000_0000, 0x8000_0100, 0x8000_0100);
    assert_eq!(empty.copy_word_count(), 0);
    assert_eq!(empty.zero_word_count(), 0);
}

#[test]
fn no_word_is_counted_for_copying_when_the_image_is_stored_in_place() {
    let m = markers(0x8000_0000, 0x8000_0000, 0x8000_0008, 0x8000_0100, 0x8000_0108);
    assert_eq!(m.copy_word_count(), 0);
    assert_eq!(m.zero_word_count(), 2);
}

#[test]
fn word_counts_match_the_stores_that_init_memory_makes() {
    let m = markers(0x2040_2000, 0x8000_0000, 0x8000_0010, 0x8000_0100, 0x8000_010C);
    let mut mem = Memory::new();
    init_memory(&mut mem, &m);
    assert_eq!(mem.store_count() as u32, m.copy_word_count() + m.zero_word_count());
    for k in 0..m.copy_word_count() {
        assert_eq!(mem.stored_address(k as usize), Some(word_address(m.srelocate, k)));
    }
    for k in 0..m.zero_word_count() {
        assert_eq!(
            mem.stored_address((m.copy_word_count() + k) as usize),
            Some(word_address(m.szero, k))
        );
    }
}
