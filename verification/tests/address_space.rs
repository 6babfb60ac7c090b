use gbcore::memory::Memory;

#[test]
fn writable_regions_round_trip() {
    let mut m = Memory::new(Vec::new());
    // one low, one middle and the last address of each writable RAM region
    let regions: [(u16, u16); 5] = [
        (0x8000, 0x9FFF),  // Video RAM
        (0xA000, 0xBFFF),  // External RAM
        (0xC000, 0xDFFF),  // Work RAM
        (0xFE00, 0xFE9F),  // Object Attribute Memory
        (0xFF80, 0xFFFE),  // High RAM
    ];
    for (lo, hi) in regions {
        let mid = lo + (hi - lo) / 2;
        for addr in [lo, mid, hi] {
            for v in [0u8, 0x5A, 0xFF] {
                m.write(addr, v);
                assert_eq!(m.read(addr), v);
            }
        }
    }
}

#[test]
fn rom_region_is_writable_storage() {
    let mut m = Memory::new(vec![0xAA; 0x8000]);
    assert_eq!(m.read(0x0000), 0xAA);
    assert_eq!(m.read(0x7FFF), 0xAA);
    m.write(0x1234, 0x42);
    assert_eq!(m.read(0x1234), 0x42);
}

#[test]
fn short_cartridge_is_zero_padded() {
    let m = Memory::new(vec![1, 2, 3]);
    assert_eq!(m.read(0), 1);
    assert_eq!(m.read(2), 3);
    assert_eq!(m.read(3), 0);
    assert_eq!(m.read(0x7FFF), 0);
}

#[test]
fn echo_ram_aliases_work_ram_both_ways() {
    let mut m = Memory::new(Vec::new());
    for k in [0u16, 1, 0x0ABC, 0x1DFF] {
        m.write(0xC000 + k, 0x77);
        assert_eq!(m.read(0xE000 + k), 0x77);
        m.write(0xE000 + k, 0x88);
        assert_eq!(m.read(0xC000 + k), 0x88);
    }
}

#[test]
fn unusable_region_reads_zero_regardless_of_writes() {
    let mut m = Memory::new(Vec::new());
    let mut addr: u16 = 0xFEA0;
    while addr <= 0xFEFF {
        m.write(addr, 0xFF);
        assert_eq!(m.read(addr), 0);
        addr += 1;
    }
}

#[test]
fn interrupt_enable_byte_is_plain_storage() {
    let mut m = Memory::new(Vec::new());
    assert_eq!(m.read(0xFFFF), 0);
    m.write(0xFFFF, 0x1F);
    assert_eq!(m.read(0xFFFF), 0x1F);
}

#[test]
fn interrupt_flag_byte_is_plain_storage() {
    let mut m = Memory::new(Vec::new());
    assert_eq!(m.read(0xFF0F), 0);
    m.write(0xFF0F, 0x04);
    assert_eq!(m.read(0xFF0F), 0x04);
}

#[test]
fn joypad_register_masks_low_nibble() {
    let mut m = Memory::new(Vec::new());
    // power-on: stored 0x0F, read forces low nibble high
    assert_eq!(m.read(0xFF00), 0x0F);
    m.write(0xFF00, 0x35);
    // only the top nibble of the write is retained; reads force the low
    // nibble to all-ones (active-low lines at rest)
    assert_eq!(m.read(0xFF00), 0x3F);
}

#[test]
fn timer_registers_dispatch_through_io_window() {
    let mut m = Memory::new(Vec::new());
    m.write(0xFF05, 0x12);
    m.write(0xFF06, 0x34);
    m.write(0xFF07, 0x05);
    assert_eq!(m.read(0xFF05), 0x12);
    assert_eq!(m.read(0xFF06), 0x34);
    assert_eq!(m.read(0xFF07), 0x05);
    // the divider register is read-only through the window; writing resets
    // only its internal accumulator, and the visible byte starts at zero
    assert_eq!(m.read(0xFF04), 0);
    m.write(0xFF04, 0xFF);
    assert_eq!(m.read(0xFF04), 0);
}

#[test]
fn unimplemented_io_registers_stub_to_zero() {
    let mut m = Memory::new(Vec::new());
    for addr in [0xFF01u16, 0xFF02, 0xFF03, 0xFF10, 0xFF26, 0xFF3F, 0xFF4F, 0xFF77] {
        m.write(addr, 0xAB);
        assert_eq!(m.read(addr), 0);
    }
}
