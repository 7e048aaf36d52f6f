use vstd::prelude::*;

verus! {

/// Length of the iNES header.
pub const HEADER_LEN: usize = 16;

/// Bytes of program ROM per unit of the header's size field.
pub const PRG_UNIT: usize = 16384;

/// Bytes of character ROM per unit of the header's size field.
pub const CHR_UNIT: usize = 8192;

/// Why a byte stream is not a ROM image.
#[derive(Clone, Copy, Debug, PartialEq, Eq, Structural)]
pub enum RomError {
    /// The stream ends before the header or the payloads it declares.
    Truncated,
    /// The stream does not start with the iNES magic bytes.
    FormatError,
}

/// Whether `d` starts with the magic bytes `4E 45 53 1A` ("NES" and an end-of-file mark).
pub open spec fn has_magic(d: Seq<u8>) -> bool {
    &&& d.len() >= 4
    &&& d[0] == 0x4E
    &&& d[1] == 0x45
    &&& d[2] == 0x53
    &&& d[3] == 0x1A
}

/// Program ROM size that the header at the start of `d` declares.
pub open spec fn prg_len_of(d: Seq<u8>) -> int {
    d[4] as int * PRG_UNIT as int
}

/// Character ROM size that the header at the start of `d` declares.
pub open spec fn chr_len_of(d: Seq<u8>) -> int {
    d[5] as int * CHR_UNIT as int
}

/// Whether `d` holds the header and both payloads that the header declares.
pub open spec fn is_complete(d: Seq<u8>) -> bool {
    d.len() >= HEADER_LEN + prg_len_of(d) + chr_len_of(d)
}

/// The 16-byte header of an iNES image.
#[derive(Clone, Copy, Debug)]
pub struct INesHeader {
    /// The magic bytes.
    pub magic: [u8; 4],
    /// Size of program ROM in 16 KiB units.
    pub prg_rom: u8,
    /// Size of character ROM in 8 KiB units.
    pub chr_rom: u8,
    /// Mirroring, battery, trainer, and the low nibble of the mapper number.
    pub flags_6: u8,
    /// System type, and the high nibble of the mapper number.
    pub flags_7: u8,
    /// Size of program RAM in 8 KiB units.
    pub prg_ram: u8,
    /// TV system.
    pub flags_9: u8,
    /// TV system and program RAM presence; outside the official format.
    pub flags_10: u8,
    /// Unused padding, kept zero.
    pub zero: [u8; 5],
}

impl INesHeader {
    /// The first four bytes of the header.
    pub open spec fn magic_view(&self) -> Seq<u8> {
        self.magic@
    }

    /// Whether this header was read from the first 16 bytes of `d`.
    pub open spec fn read_from(&self, d: Seq<u8>) -> bool {
        &&& d.len() >= HEADER_LEN
        &&& self.magic_view() == d.subrange(0, 4)
        &&& self.prg_rom == d[4]
        &&& self.chr_rom == d[5]
        &&& self.flags_6 == d[6]
        &&& self.flags_7 == d[7]
        &&& self.prg_ram == d[8]
        &&& self.flags_9 == d[9]
        &&& self.flags_10 == d[10]
    }

    /// Splits the 16 header bytes into their fields.
    pub fn parse_header(header: [u8; 16]) -> (r: Self)
        ensures
            r.read_from(header@),
            r.zero@ == seq![0u8, 0u8, 0u8, 0u8, 0u8],
    {
        let r = INesHeader {
            magic: [header[0], header[1], header[2], header[3]],
            prg_rom: header[4],
            chr_rom: header[5],
            flags_6: header[6],
            flags_7: header[7],
            prg_ram: header[8],
            flags_9: header[9],
            flags_10: header[10],
            zero: [0u8; 5],
        };
        assert(r.magic@ =~= header@.subrange(0, 4));
        assert(r.zero@ =~= seq![0u8, 0u8, 0u8, 0u8, 0u8]);
        r
    }

    /// Bytes of program and character ROM that follow the header.
    pub fn payload_len(&self) -> (r: usize)
        ensures
            r == self.prg_rom as int * PRG_UNIT as int + self.chr_rom as int * CHR_UNIT as int,
    {
        self.prg_rom as usize * PRG_UNIT + self.chr_rom as usize * CHR_UNIT
    }

    /// Whether the header starts with the iNES magic bytes.
    pub fn check_magic(&self) -> (r: bool)
        ensures
            r == has_magic(self.magic_view()),
    {
        self.magic[0] == 0x4E && self.magic[1] == 0x45 && self.magic[2] == 0x53 && self.magic[3] == 0x1A
    }
}

/// A loaded cartridge image: its header and its two payloads.
pub struct Rom {
    pub header: INesHeader,
    pub prg: Vec<u8>,
    pub chr: Vec<u8>,
}

/// The bytes of `data` from `start` on, `len` of them.
fn copy_range(data: &[u8], start: usize, len: usize) -> (r: Vec<u8>)
    requires
        start + len <= data@.len(),
    ensures
        r@ == data@.subrange(start as int, start + len),
{
    let mut out: Vec<u8> = Vec::with_capacity(len);
    let mut i: usize = 0;
    let n = data.len();
    while i < len
        invariant
            n == data@.len(),
            start + len <= n,
            i <= len,
            out@ == data@.subrange(start as int, start + i),
        decreases len - i,
    {
        out.push(data[start + i]);
        i += 1;
        assert(out@ =~= data@.subrange(start as int, start + i));
    }
    out
}

impl Rom {
    /// Parses an iNES image: the header, then the program ROM and the character ROM of
    /// the sizes it declares. Bytes after the character ROM are ignored.
    pub fn load(data: &[u8]) -> (r: Result<Rom, RomError>)
        ensures
            r == Err::<Rom, RomError>(RomError::Truncated) <==> data@.len() < HEADER_LEN || (
            has_magic(data@) && !is_complete(data@)),
            r == Err::<Rom, RomError>(RomError::FormatError) <==> data@.len() >= HEADER_LEN
                && !has_magic(data@),
            r is Ok <==> data@.len() >= HEADER_LEN && has_magic(data@) && is_complete(data@),
            r matches Ok(rom) ==> {
                &&& rom.header.read_from(data@)
                &&& rom.prg@ == data@.subrange(HEADER_LEN as int, HEADER_LEN + prg_len_of(data@))
                &&& rom.chr@ == data@.subrange(
                    HEADER_LEN + prg_len_of(data@),
                    HEADER_LEN + prg_len_of(data@) + chr_len_of(data@),
                )
            },
    {
        if data.len() < HEADER_LEN {
            return Err(RomError::Truncated);
        }
        let header = [
            data[0], data[1], data[2], data[3], data[4], data[5], data[6], data[7], data[8],
            data[9], data[10], data[11], data[12], data[13], data[14], data[15],
        ];
        assert(header@.subrange(0, 4) =~= data@.subrange(0, 4));
        let nes_header = INesHeader::parse_header(header);
        if !nes_header.check_magic() {
            return Err(RomError::FormatError);
        }
        let prg_len = nes_header.prg_rom as usize * PRG_UNIT;
        let chr_len = nes_header.chr_rom as usize * CHR_UNIT;
        if data.len() - HEADER_LEN < prg_len || data.len() - HEADER_LEN - prg_len < chr_len {
            return Err(RomError::Truncated);
        }
        let prg = copy_range(data, HEADER_LEN, prg_len);
        let chr = copy_range(data, HEADER_LEN + prg_len, chr_len);
        Ok(Rom { header: nes_header, prg, chr })
    }
}

} // verus!
