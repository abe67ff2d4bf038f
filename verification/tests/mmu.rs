use rest_emu::mmu::Mmu;

#[test]
fn new_memory_is_zeroed() {
    let mmu = Mmu::new(32);
    assert_eq!(mmu.size(), 32);
    for addr in 0..32u64 {
        assert_eq!(mmu.read_u8(addr), 0);
    }
}

#[test]
fn empty_memory_has_size_zero() {
    let mmu = Mmu::new(0);
    assert_eq!(mmu.size(), 0);
    assert!(!mmu.contains(0, 1));
    assert!(mmu.contains(0, 0));
}

#[test]
fn byte_round_trip() {
    let mut mmu = Mmu::new(16);
    mmu.write_u8(3, 0xab);
    assert_eq!(mmu.read_u8(3), 0xab);
    assert_eq!(mmu.read_u8(2), 0);
    assert_eq!(mmu.read_u8(4), 0);
}

#[test]
fn half_round_trip_every_address() {
    let mut mmu = Mmu::new(16);
    for addr in 0..=14u64 {
        mmu.write_u16(addr, 0xbeef);
        assert_eq!(mmu.read_u16(addr), 0xbeef);
    }
}

#[test]
fn word_round_trip_every_address() {
    let mut mmu = Mmu::new(16);
    for addr in 0..=12u64 {
        mmu.write_u32(addr, 0xdead_beef);
        assert_eq!(mmu.read_u32(addr), 0xdead_beef);
    }
}

#[test]
fn double_round_trip_every_address() {
    let mut mmu = Mmu::new(16);
    for addr in 0..=8u64 {
        mmu.write_u64(addr, 0x0123_4567_89ab_cdef);
        assert_eq!(mmu.read_u64(addr), 0x0123_4567_89ab_cdef);
    }
}

#[test]
fn round_trip_of_extreme_values() {
    let mut mmu = Mmu::new(8);
    for v in [0u64, 1, u64::MAX, 0x8000_0000_0000_0000, 0x00ff_00ff_00ff_00ff] {
        mmu.write_u64(0, v);
        assert_eq!(mmu.read_u64(0), v);
    }
    for v in [0u32, 1, u32::MAX, 0x8000_0000] {
        mmu.write_u32(4, v);
        assert_eq!(mmu.read_u32(4), v);
    }
    for v in [0u16, 1, u16::MAX, 0x8000] {
        mmu.write_u16(6, v);
        assert_eq!(mmu.read_u16(6), v);
    }
    for v in [0u8, 1, u8::MAX, 0x80] {
        mmu.write_u8(7, v);
        assert_eq!(mmu.read_u8(7), v);
    }
}

#[test]
fn double_is_stored_least_significant_byte_first() {
    let mut mmu = Mmu::new(16);
    mmu.write_u64(4, 0x0102_0304_0506_0708);
    let expected = [0x08u8, 0x07, 0x06, 0x05, 0x04, 0x03, 0x02, 0x01];
    for (i, b) in expected.iter().enumerate() {
        assert_eq!(mmu.read_u8(4 + i as u64), *b);
    }
    assert_eq!(mmu.read_u8(3), 0);
    assert_eq!(mmu.read_u8(12), 0);
}

#[test]
fn word_is_stored_least_significant_byte_first() {
    let mut mmu = Mmu::new(8);
    mmu.write_u32(1, 0x1122_3344);
    assert_eq!(mmu.read_u8(1), 0x44);
    assert_eq!(mmu.read_u8(2), 0x33);
    assert_eq!(mmu.read_u8(3), 0x22);
    assert_eq!(mmu.read_u8(4), 0x11);
    assert_eq!(mmu.read_u16(1), 0x3344);
    assert_eq!(mmu.read_u16(3), 0x1122);
}

#[test]
fn multi_byte_read_concatenates_bytes() {
    let mut mmu = Mmu::new(8);
    for i in 0..8u64 {
        mmu.write_u8(i, 0x10 + i as u8);
    }
    assert_eq!(mmu.read_u16(0), 0x1110);
    assert_eq!(mmu.read_u32(0), 0x1312_1110);
    assert_eq!(mmu.read_u64(0), 0x1716_1514_1312_1110);
    assert_eq!(mmu.read_u32(3), 0x1615_1413);
}

#[test]
fn write_leaves_other_bytes_alone() {
    let mut mmu = Mmu::new(16);
    for i in 0..16u64 {
        mmu.write_u8(i, 0xee);
    }
    mmu.write_u32(6, 0);
    for i in 0..16u64 {
        let expected = if (6..10).contains(&i) { 0 } else { 0xee };
        assert_eq!(mmu.read_u8(i), expected);
    }
    assert_eq!(mmu.size(), 16);
}

#[test]
fn load_bytes_copies_at_offset() {
    let mut mmu = Mmu::new(8);
    mmu.load_bytes(2, &[1, 2, 3]);
    let expected = [0u8, 0, 1, 2, 3, 0, 0, 0];
    for (i, b) in expected.iter().enumerate() {
        assert_eq!(mmu.read_u8(i as u64), *b);
    }
    mmu.load_bytes(8, &[]);
    mmu.load_bytes(0, &[9, 9, 9, 9, 9, 9, 9, 9]);
    assert_eq!(mmu.read_u64(0), 0x0909_0909_0909_0909);
}

#[test]
fn contains_tells_the_end_of_memory() {
    let mmu = Mmu::new(16);
    assert!(mmu.contains(0, 16));
    assert!(mmu.contains(15, 1));
    assert!(mmu.contains(8, 8));
    assert!(mmu.contains(16, 0));
    assert!(!mmu.contains(16, 1));
    assert!(!mmu.contains(9, 8));
    assert!(!mmu.contains(0, 17));
    assert!(!mmu.contains(u64::MAX, 1));
    assert!(!mmu.contains(u64::MAX, 8));
}
