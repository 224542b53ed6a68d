//! Loading of iNES cartridge images.
//!
//! An image is a 16-byte header, an optional 512-byte trainer, the program
//! ROM in pages of 16 KiB and the character ROM in pages of 8 KiB.

use vstd::prelude::*;

pub mod test;

verus! {

/// Size of one page of program ROM.
pub const PRG_ROM_PAGE_SIZE: usize = 16384;

/// Size of one page of character ROM.
pub const CHR_ROM_PAGE_SIZE: usize = 8192;

/// Size of the header that starts every image.
pub const HEADER_SIZE: usize = 16;

/// Size of the trainer that may follow the header.
pub const TRAINER_SIZE: usize = 512;

/// Bit of control byte 1 that selects vertical mirroring.
pub const VERTICAL_MIRRORING: u8 = 0b0000_0001;

/// Bit of control byte 1 that announces a trainer.
pub const TRAINER: u8 = 0b0000_0100;

/// Bit of control byte 1 that selects four-screen mirroring.
pub const FOUR_SCREEN: u8 = 0b0000_1000;

/// Bits of control byte 2 that mark an image in a later format.
pub const INES_V2: u8 = 0b0000_1100;

/// Bits of control byte 2 that hold the high nibble of the mapper number.
pub const MAPPER_UPPER: u8 = 0b1111_0000;

/// How the cartridge lays out the name tables.
#[derive(Debug, PartialEq, Eq, Structural, Clone, Copy)]
pub enum Mirroring {
    VERTICAL,
    HORIZONTAL,
    FOURSCREEN,
}

/// A loaded cartridge.
pub struct Rom {
    pub prg_rom: Vec<u8>,
    pub chr_rom: Vec<u8>,
    pub mapper: u8,
    pub screen_mirroring: Mirroring,
}

/// What a cartridge holds, as plain mathematical values.
#[verifier::ext_equal]
pub struct Cartridge {
    pub prg: Seq<u8>,
    pub chr: Seq<u8>,
    pub mapper: u8,
    pub mirroring: Mirroring,
}

impl View for Rom {
    type V = Cartridge;

    open spec fn view(&self) -> Cartridge {
        Cartridge {
            prg: self.prg_rom@,
            chr: self.chr_rom@,
            mapper: self.mapper,
            mirroring: self.screen_mirroring,
        }
    }
}

/// The image starts with the four bytes `N`, `E`, `S`, `0x1A`.
pub open spec fn has_signature(raw: Seq<u8>) -> bool {
    &&& raw.len() >= 4
    &&& raw[0] == 0x4E
    &&& raw[1] == 0x45
    &&& raw[2] == 0x53
    &&& raw[3] == 0x1A
}

/// Control byte 2 carries a format marker that this loader does not read.
pub open spec fn is_ines2(raw: Seq<u8>) -> bool {
    raw[7] & INES_V2 != 0
}

/// The header announces a trainer between itself and the program ROM.
pub open spec fn has_trainer(raw: Seq<u8>) -> bool {
    raw[6] & TRAINER != 0
}

/// The mapper number: low nibble from control byte 1, high nibble from
/// control byte 2.
pub open spec fn mapper_of(raw: Seq<u8>) -> u8 {
    (raw[7] & MAPPER_UPPER) | (raw[6] >> 4)
}

/// The mirroring mode; the four-screen bit overrides the vertical bit.
pub open spec fn mirroring_of(raw: Seq<u8>) -> Mirroring {
    if raw[6] & FOUR_SCREEN != 0 {
        Mirroring::FOURSCREEN
    } else if raw[6] & VERTICAL_MIRRORING != 0 {
        Mirroring::VERTICAL
    } else {
        Mirroring::HORIZONTAL
    }
}

/// Offset of the first byte of program ROM.
pub open spec fn prg_start(raw: Seq<u8>) -> int {
    if has_trainer(raw) {
        HEADER_SIZE + TRAINER_SIZE
    } else {
        HEADER_SIZE as int
    }
}

/// Length of the program ROM that the header declares.
pub open spec fn prg_len(raw: Seq<u8>) -> int {
    raw[4] * PRG_ROM_PAGE_SIZE
}

/// Length of the character ROM that the header declares.
pub open spec fn chr_len(raw: Seq<u8>) -> int {
    raw[5] * CHR_ROM_PAGE_SIZE
}

/// Length of the whole image that the header declares.
pub open spec fn image_len(raw: Seq<u8>) -> int {
    prg_start(raw) + prg_len(raw) + chr_len(raw)
}

/// Why an image is refused.
pub enum Rejection {
    /// The signature is missing.
    NotInes,
    /// The image is in the later format.
    UnsupportedVersion,
    /// The image is shorter than its header, or than the header declares.
    Truncated,
}

impl Rejection {
    /// The text that `Rom::new` returns for this rejection.
    pub open spec fn message(self) -> Seq<char> {
        match self {
            Rejection::NotInes => "File is not in iNES file format"@,
            Rejection::UnsupportedVersion => "NES2.0 format is not supported"@,
            Rejection::Truncated => "File is shorter than its header declares"@,
        }
    }
}

/// The first reason, if any, for which `raw` is refused.
pub open spec fn rejection(raw: Seq<u8>) -> Option<Rejection> {
    if !has_signature(raw) {
        Some(Rejection::NotInes)
    } else if raw.len() < 8 {
        Some(Rejection::Truncated)
    } else if is_ines2(raw) {
        Some(Rejection::UnsupportedVersion)
    } else if raw.len() < image_len(raw) {
        Some(Rejection::Truncated)
    } else {
        None
    }
}

/// An image whose first four bytes are not the signature is refused for
/// that reason, whatever else it holds. A bare header of 16 bytes is such an
/// image.
pub proof fn law_signature_is_required(raw: Seq<u8>)
    requires
        raw.len() < 4 || raw[0] != 0x4E || raw[1] != 0x45 || raw[2] != 0x53 || raw[3] != 0x1A,
    ensures
        rejection(raw) == Some(Rejection::NotInes),
{
}

/// An image is accepted exactly where it starts with the signature, holds
/// the first eight bytes of the header, is not marked as being in the later
/// format and is as long as its header declares.
pub proof fn law_accepted_images(raw: Seq<u8>)
    ensures
        rejection(raw) is None <==> {
            &&& has_signature(raw)
            &&& raw.len() >= 8
            &&& !is_ines2(raw)
            &&& raw.len() >= image_len(raw)
        },
        rejection(raw) is None ==> {
            &&& cartridge_of(raw).prg.len() == 16384 * raw[4]
            &&& cartridge_of(raw).chr.len() == 8192 * raw[5]
        },
{
}

/// The cartridge that an accepted image describes.
pub open spec fn cartridge_of(raw: Seq<u8>) -> Cartridge {
    Cartridge {
        prg: raw.subrange(prg_start(raw), prg_start(raw) + prg_len(raw)),
        chr: raw.subrange(prg_start(raw) + prg_len(raw), image_len(raw)),
        mapper: mapper_of(raw),
        mirroring: mirroring_of(raw),
    }
}

/// The fields of the header that the loader reads behind the signature.
struct Header {
    prg_rom_size: u8,
    chr_rom_size: u8,
    control1: u8,
    control2: u8,
}

impl Header {
    fn parse_header(raw: &Vec<u8>) -> (header: Self)
        requires
            raw.len() >= 8,
        ensures
            header.prg_rom_size == raw[4],
            header.chr_rom_size == raw[5],
            header.control1 == raw[6],
            header.control2 == raw[7],
    {
        Header {
            prg_rom_size: raw[4],
            chr_rom_size: raw[5],
            control1: raw[6],
            control2: raw[7],
        }
    }
}

/// Whether the first four bytes of `raw` are the signature.
fn starts_with_nestag(raw: &Vec<u8>) -> (found: bool)
    ensures
        found == has_signature(raw@),
{
    raw.len() >= 4 && raw[0] == 0x4E && raw[1] == 0x45 && raw[2] == 0x53 && raw[3] == 0x1A
}

/// Copies `len` bytes of `raw`, from `start` on.
fn copy_bytes(raw: &Vec<u8>, start: usize, len: usize) -> (bytes: Vec<u8>)
    requires
        start + len <= raw.len(),
    ensures
        bytes@ == raw@.subrange(start as int, start + len),
{
    let mut bytes: Vec<u8> = Vec::with_capacity(len);
    let mut i: usize = 0;
    while i < len
        invariant
            i <= len,
            start + len <= raw.len(),
            bytes@ == raw@.subrange(start as int, start + i),
        decreases len - i,
    {
        bytes.push(raw[start + i]);
        i = i + 1;
    }
    bytes
}

impl Rom {
    /// Reads a cartridge from the bytes of an iNES image.
    ///
    /// The image is refused, with a message that says why, if it does not
    /// start with the signature, if it is marked as being in the later
    /// format, or if it is shorter than its header declares. Every other
    /// image is accepted.
    pub fn new(raw: &Vec<u8>) -> (result: Result<Rom, String>)
        ensures
            match rejection(raw@) {
                Some(why) => result matches Err(message) && message@ == why.message(),
                None => result matches Ok(rom) && rom@ == cartridge_of(raw@),
            },
            !has_signature(raw@) ==> (result matches Err(message) && message@
                == Rejection::NotInes.message()),
    {
        if !starts_with_nestag(raw) {
            return Err("File is not in iNES file format".to_string());
        }
        if raw.len() < 8 {
            return Err("File is shorter than its header declares".to_string());
        }
        let header = Header::parse_header(raw);

        if header.control2 & INES_V2 != 0 {
            return Err("NES2.0 format is not supported".to_string());
        }
        let mapper = (header.control2 & MAPPER_UPPER) | (header.control1 >> 4);

        let four_screen = header.control1 & FOUR_SCREEN != 0;
        let vertical_mirroring = header.control1 & VERTICAL_MIRRORING != 0;
        let screen_mirroring = if four_screen {
            Mirroring::FOURSCREEN
        } else if vertical_mirroring {
            Mirroring::VERTICAL
        } else {
            Mirroring::HORIZONTAL
        };

        let prg_rom_size = header.prg_rom_size as usize * PRG_ROM_PAGE_SIZE;
        let chr_rom_size = header.chr_rom_size as usize * CHR_ROM_PAGE_SIZE;

        let skip_trainer = header.control1 & TRAINER != 0;

        let prg_rom_start = HEADER_SIZE + if skip_trainer {
            TRAINER_SIZE
        } else {
            0
        };
        let chr_rom_start = prg_rom_start + prg_rom_size;

        if raw.len() < chr_rom_start + chr_rom_size {
            return Err("File is shorter than its header declares".to_string());
        }
        Ok(
            Rom {
                prg_rom: copy_bytes(raw, prg_rom_start, prg_rom_size),
                chr_rom: copy_bytes(raw, chr_rom_start, chr_rom_size),
                mapper,
                screen_mirroring,
            },
        )
    }
}

} // verus!
