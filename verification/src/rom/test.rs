//! Cartridge images built in memory, for trying the loader and the machine
//! without a file.

use crate::rom::{
    cartridge_of, rejection, Cartridge, Mirroring, Rom, CHR_ROM_PAGE_SIZE, PRG_ROM_PAGE_SIZE,
};
use vstd::prelude::*;

verus! {

/// The parts of an image, before they are put together.
pub struct TestRom {
    pub header: Vec<u8>,
    pub trainer: Option<Vec<u8>>,
    pub pgp_rom: Vec<u8>,
    pub chr_rom: Vec<u8>,
}

impl TestRom {
    /// The bytes of the trainer; none where there is no trainer.
    pub open spec fn trainer_bytes(self) -> Seq<u8> {
        match self.trainer {
            Some(t) => t@,
            None => Seq::empty(),
        }
    }

    /// The image: header, trainer, program ROM and character ROM in a row.
    pub open spec fn image(self) -> Seq<u8> {
        self.header@ + self.trainer_bytes() + self.pgp_rom@ + self.chr_rom@
    }
}

/// Appends the bytes of `part` to `image`.
fn append_bytes(image: &mut Vec<u8>, part: &Vec<u8>)
    ensures
        final(image)@ == old(image)@ + part@,
{
    let mut i: usize = 0;
    while i < part.len()
        invariant
            i <= part.len(),
            image@ == old(image)@ + part@.subrange(0, i as int),
        decreases part.len() - i,
    {
        image.push(part[i]);
        i = i + 1;
    }
    assert(part@.subrange(0, part.len() as int) == part@);
}

/// Puts the parts of an image together.
pub fn create_rom(rom: TestRom) -> (result: Vec<u8>)
    ensures
        result@ == rom.image(),
{
    let mut result: Vec<u8> = Vec::new();
    append_bytes(&mut result, &rom.header);
    match &rom.trainer {
        Some(t) => {
            append_bytes(&mut result, t);
        },
        None => {},
    }
    append_bytes(&mut result, &rom.pgp_rom);
    append_bytes(&mut result, &rom.chr_rom);
    result
}

/// The program ROM of the cartridge that `test_rom` builds: `program`, then
/// bytes of value 1 up to two pages.
pub open spec fn test_prg(program: Seq<u8>) -> Seq<u8> {
    Seq::new(
        (2 * PRG_ROM_PAGE_SIZE) as nat,
        |i: int|
            if i < program.len() {
                program[i]
            } else {
                1u8
            },
    )
}

/// The cartridge that `test_rom` builds around `program`: two pages of
/// program ROM, one page of character ROM filled with 2, mapper 3 and
/// vertical mirroring.
pub open spec fn test_cartridge(program: Seq<u8>) -> Cartridge {
    Cartridge {
        prg: test_prg(program),
        chr: Seq::new(CHR_ROM_PAGE_SIZE as nat, |i: int| 2u8),
        mapper: 3,
        mirroring: Mirroring::VERTICAL,
    }
}

/// A cartridge whose program ROM starts with `program`.
pub fn test_rom(program: Vec<u8>) -> (rom: Rom)
    requires
        program.len() <= 2 * PRG_ROM_PAGE_SIZE,
    ensures
        rom@ == test_cartridge(program@),
{
    let header: Vec<u8> = vec![
        0x4E, 0x45, 0x53, 0x1A, 0x02, 0x01, 0x31, 00, 00, 00, 00, 00, 00, 00, 00, 00,
    ];
    let mut pgp_rom: Vec<u8> = vec![1; 2 * PRG_ROM_PAGE_SIZE];
    let mut i: usize = 0;
    while i < program.len()
        invariant
            i <= program.len() <= 2 * PRG_ROM_PAGE_SIZE,
            pgp_rom.len() == 2 * PRG_ROM_PAGE_SIZE,
            forall|j: int| 0 <= j < i ==> pgp_rom[j] == program[j],
            forall|j: int| i <= j < 2 * PRG_ROM_PAGE_SIZE ==> pgp_rom[j] == 1,
        decreases program.len() - i,
    {
        pgp_rom[i] = program[i];
        i = i + 1;
    }
    let parts = TestRom {
        header,
        trainer: None,
        pgp_rom,
        chr_rom: vec![2; 1 * CHR_ROM_PAGE_SIZE],
    };
    let image = create_rom(parts);
    proof {
        let raw = image@;
        assert(raw.len() == 16 + 2 * PRG_ROM_PAGE_SIZE + CHR_ROM_PAGE_SIZE);
        assert(raw[0] == 0x4E && raw[1] == 0x45 && raw[2] == 0x53 && raw[3] == 0x1A);
        assert(raw[4] == 2 && raw[5] == 1 && raw[6] == 0x31 && raw[7] == 0);
        assert(0u8 & 0b0000_1100 == 0 && 0x31u8 & 0b0000_0100 == 0 && 0x31u8 & 0b0000_1000 == 0
            && 0x31u8 & 0b0000_0001 != 0 && (0u8 & 0b1111_0000) | (0x31u8 >> 4) == 3)
            by (bit_vector);
        assert(rejection(raw) is None);
        assert(cartridge_of(raw).prg =~= test_prg(program@));
        assert(cartridge_of(raw).chr =~= test_cartridge(program@).chr);
    }
    Rom::new(&image).unwrap()
}

} // verus!
