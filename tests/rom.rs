use nes_cpu::rom::{INesHeader, Rom, RomError};

fn image(magic: [u8; 4], prg_units: u8, chr_units: u8, payload: usize) -> Vec<u8> {
    let mut d = vec![0u8; 16];
    d[..4].copy_from_slice(&magic);
    d[4] = prg_units;
    d[5] = chr_units;
    d[6] = 0x01;
    d[8] = 0x02;
    for i in 0..payload {
        d.push((i % 251) as u8);
    }
    d
}

const MAGIC: [u8; 4] = [0x4E, 0x45, 0x53, 0x1A];

#[test]
fn is_one() {
    assert_eq!(1, 1);
}

#[test]
fn loads_exact_sizes() {
    let d = image(MAGIC, 1, 1, 16384 + 8192);
    let rom = Rom::load(&d).ok().unwrap();
    assert_eq!(rom.prg.len(), 16384);
    assert_eq!(rom.chr.len(), 8192);
    assert_eq!(rom.prg[..], d[16..16 + 16384]);
    assert_eq!(rom.chr[..], d[16 + 16384..]);
    assert_eq!(rom.header.prg_rom, 1);
    assert_eq!(rom.header.chr_rom, 1);
    assert_eq!(rom.header.flags_6, 1);
    assert_eq!(rom.header.prg_ram, 2);
    assert!(rom.header.check_magic());
}

#[test]
fn ignores_trailing_bytes() {
    let d = image(MAGIC, 1, 0, 16384 + 5);
    let rom = Rom::load(&d).ok().unwrap();
    assert_eq!(rom.prg.len(), 16384);
    assert_eq!(rom.chr.len(), 0);
}

#[test]
fn wrong_magic_is_format_error() {
    let d = image([0x4E, 0x45, 0x53, 0x00], 1, 1, 16384 + 8192);
    assert!(matches!(Rom::load(&d), Err(RomError::FormatError)));
}

#[test]
fn short_payload_is_truncated() {
    let d = image(MAGIC, 1, 0, 16383);
    assert!(matches!(Rom::load(&d), Err(RomError::Truncated)));
    let d = image(MAGIC, 1, 1, 16384 + 8191);
    assert!(matches!(Rom::load(&d), Err(RomError::Truncated)));
}

#[test]
fn short_header_is_truncated() {
    assert!(matches!(Rom::load(&MAGIC), Err(RomError::Truncated)));
    assert!(matches!(Rom::load(&[]), Err(RomError::Truncated)));
}

#[test]
fn header_fields() {
    let mut bytes = [0u8; 16];
    bytes[..4].copy_from_slice(&MAGIC);
    bytes[4] = 2;
    bytes[5] = 3;
    bytes[7] = 0x10;
    bytes[9] = 1;
    bytes[10] = 4;
    let h = INesHeader::parse_header(bytes);
    assert!(h.check_magic());
    assert_eq!((h.prg_rom, h.chr_rom, h.flags_7, h.flags_9, h.flags_10), (2, 3, 0x10, 1, 4));
    bytes[0] = 0;
    assert!(!INesHeader::parse_header(bytes).check_magic());
}

#[test]
fn payload_len_counts_both_roms() {
    let mut bytes = [0u8; 16];
    bytes[..4].copy_from_slice(&MAGIC);
    bytes[4] = 2;
    bytes[5] = 1;
    let h = INesHeader::parse_header(bytes);
    assert_eq!(h.payload_len(), 2 * 16384 + 8192);
    assert_eq!(h.zero, [0u8; 5]);
}
