use nes_cpu::mem::{Mem, MemoryMap, Ram};

#[test]
fn ram_is_mirrored_four_times() {
    let mut m = MemoryMap::new(Vec::new());
    m.storeb(0x0001, 0xAB);
    assert_eq!(m.loadb(0x0001), 0xAB);
    assert_eq!(m.loadb(0x0801), 0xAB);
    assert_eq!(m.loadb(0x1001), 0xAB);
    assert_eq!(m.loadb(0x1801), 0xAB);
    m.storeb(0x1FFF, 0x5A);
    assert_eq!(m.loadb(0x07FF), 0x5A);
    assert_eq!(m.loadb(0x0002), 0x00);
}

#[test]
fn ram_wraps_past_its_end() {
    let mut r = Ram::new();
    r.storeb(0x0805, 9);
    assert_eq!(r.loadb(0x0005), 9);
}

#[test]
fn devices_and_unmapped_space() {
    let mut m = MemoryMap::new(Vec::new());
    // Picture-unit registers are a stub reading 0.
    m.storeb(0x2000, 0xFF);
    assert_eq!(m.loadb(0x2008), 0);
    // Audio registers keep what is written.
    m.storeb(0x4003, 0x12);
    m.storeb(0x4015, 0x34);
    assert_eq!(m.loadb(0x4003), 0x12);
    assert_eq!(m.loadb(0x4015), 0x34);
    // Controller ports read a fixed value.
    m.storeb(0x4016, 0x01);
    assert_eq!(m.loadb(0x4016), 0);
    assert_eq!(m.loadb(0x4017), 0);
    // Unmapped and empty cartridge space read 0.
    m.storeb(0x4018, 0x77);
    assert_eq!(m.loadb(0x4018), 0);
    assert_eq!(m.loadb(0x6000), 0);
    assert_eq!(m.loadb(0xFFFC), 0);
}

#[test]
fn program_rom_fills_upper_half() {
    let mut prg = vec![0u8; 0x4000];
    prg[0] = 0x11;
    prg[0x3FFF] = 0x22;
    let mut m = MemoryMap::new(prg);
    assert_eq!(m.loadb(0x8000), 0x11);
    assert_eq!(m.loadb(0xC000), 0x11);
    assert_eq!(m.loadb(0xBFFF), 0x22);
    assert_eq!(m.loadb(0xFFFF), 0x22);
    m.storeb(0x8000, 0x99);
    assert_eq!(m.loadb(0x8000), 0x11);
}
