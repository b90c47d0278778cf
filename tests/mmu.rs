use realmode::memory::{translate, Memory, MEMORY_SIZE};
use realmode::mmu::{read_at, read_u16_at, read_u8_at, write_at, write_u16_at, write_u8_at, MMU};

#[test]
fn translate_segment_offset() {
    assert_eq!(translate(0x1000, 0x0010), 0x10010);
    let m = MMU::new();
    assert_eq!(m.s_translate(0x1000, 0x0010), 0x10010);
    assert_eq!(m.s_translate(0xFFFF, 0xFFFF), 0x10FFEF);
}

#[test]
fn overlapping_addresses_alias() {
    let mut m = MMU::new();
    m.write_u8(0x1000, 0x0010, 0x5A).unwrap();
    assert_eq!(m.read_u8(0x1001, 0x0000).unwrap(), 0x5A);
}

#[test]
fn word_round_trip_little_endian() {
    let mut m = MMU::new();
    m.write_u16(0x2000, 0x0100, 0xABCD).unwrap();
    assert_eq!(m.read_u16(0x2000, 0x0100).unwrap(), 0xABCD);
    assert_eq!(m.read_u8(0x2000, 0x0100).unwrap(), 0xCD);
    assert_eq!(m.read_u8(0x2000, 0x0101).unwrap(), 0xAB);
}

#[test]
fn handles_share_one_store() {
    let mut a = MMU::new();
    let b = a.clone();
    a.write_u8(0x0040, 0x0002, 0x77).unwrap();
    assert_eq!(b.read_u8(0x0040, 0x0002).unwrap(), 0x77);
    let mut c = b.clone();
    c.write_u16(0x0000, 0x0000, 0x1234).unwrap();
    assert_eq!(a.read_u16(0x0000, 0x0000).unwrap(), 0x1234);
}

#[test]
fn block_read_and_write() {
    let mut m = MMU::new();
    m.write(0x0100, 0x0004, &[1, 2, 3, 4]).unwrap();
    assert_eq!(m.read(0x0100, 0x0003, 6).unwrap(), vec![0, 1, 2, 3, 4, 0]);
    let copy = m.read(0x0100, 0x0004, 2).unwrap();
    m.write_u8(0x0100, 0x0004, 9).unwrap();
    assert_eq!(copy, vec![1, 2]);
    assert_eq!(m.read(0x0100, 0x0004, 0).unwrap(), Vec::<u8>::new());
}

#[test]
fn snapshot_has_capacity_and_sees_writes() {
    let mut m = MMU::new();
    let before = m.dump_mem().unwrap();
    assert_eq!(before.len(), MEMORY_SIZE);
    assert!(before.iter().all(|b| *b == 0));
    m.write_u8(0xF000, 0xFFFF, 0x11).unwrap();
    m.write_u16(0x0000, 0x0010, 0xBEEF).unwrap();
    m.write(0x0001, 0x0002, &[7, 8]).unwrap();
    let after = m.dump_mem().unwrap();
    assert_eq!(after.len(), MEMORY_SIZE);
    assert_eq!(after[0xFFFFF], 0x11);
    assert_eq!(after[0x10], 0xEF);
    assert_eq!(after[0x11], 0xBE);
    assert_eq!(after[0x12], 7);
    assert_eq!(after[0x13], 8);
    assert_eq!(before[0x10], 0);
}

#[test]
fn last_byte_of_store_is_reachable() {
    let mut m = MMU::new();
    m.write_u8(0xFFFF, 0x000F, 0xC3).unwrap();
    assert_eq!(m.read_u8(0xF000, 0xFFFF).unwrap(), 0xC3);
    assert_eq!(m.read_u16(0xF000, 0xFFFE).unwrap(), 0xC300);
}

#[test]
fn memory_store_is_zero_filled() {
    let s = Memory::new(16);
    assert_eq!(s.capacity(), 16);
    assert_eq!(s.snapshot(), vec![0u8; 16]);
}

#[test]
fn memory_store_word_and_block() {
    let mut s = Memory::new(8);
    s.write_u16(2, 0xABCD);
    assert_eq!(s.read_u8(2), 0xCD);
    assert_eq!(s.read_u8(3), 0xAB);
    assert_eq!(s.read_u16(2), 0xABCD);
    s.write(5, &[1, 2, 3]);
    assert_eq!(s.read(4, 4), vec![0, 1, 2, 3]);
    s.write_u8(0, 0xFF);
    assert_eq!(s.snapshot(), vec![0xFF, 0, 0xCD, 0xAB, 0, 1, 2, 3]);
}

#[test]
fn segment_access_on_a_store() {
    let mut s = Memory::new(0x40);
    write_u16_at(&mut s, 0x0001, 0x0002, 0xABCD);
    assert_eq!(read_u8_at(&s, 0x0001, 0x0002), 0xCD);
    assert_eq!(read_u8_at(&s, 0x0001, 0x0003), 0xAB);
    assert_eq!(read_u16_at(&s, 0x0000, 0x0012), 0xABCD);
    write_u8_at(&mut s, 0x0002, 0x0000, 0x5A);
    assert_eq!(read_u8_at(&s, 0x0000, 0x0020), 0x5A);
    write_at(&mut s, 0x0003, 0x0001, &[4, 5, 6]);
    assert_eq!(read_at(&s, 0x0003, 0x0000, 5), vec![0, 4, 5, 6, 0]);
    assert_eq!(s.snapshot()[0x12], 0xCD);
    assert_eq!(s.snapshot().len(), 0x40);
}
