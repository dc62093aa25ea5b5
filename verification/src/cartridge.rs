//! Cartridges in the iNES 1.0 container.
//!
//! A file is a 16-byte header, an optional 512-byte trainer, the program ROM
//! and the character ROM, in that order:
//!
//! | Byte  | Meaning                                                        |
//! |-------|----------------------------------------------------------------|
//! | 0..4  | the signature `4E 45 53 1A`                                    |
//! | 4     | size of the program ROM in 16 KiB pages                        |
//! | 5     | size of the character ROM in 8 KiB pages                       |
//! | 6     | bit 0 vertical mirroring, bit 1 battery, bit 2 trainer, bit 3 four-screen, bits 4..8 low nibble of the mapper |
//! | 7     | bit 1 marks a later version of the format, bits 4..8 high nibble of the mapper |
//! | 8..16 | not used here                                                  |

use vstd::prelude::*;

verus! {

pub const HEADER_SIZE: usize = 16;

pub const TRAINER_SIZE: usize = 512;

pub const PROGRAM_ROM_PAGE_SIZE: usize = 0x4000;

pub const CHARACTER_ROM_PAGE_SIZE: usize = 0x2000;

pub const FLAG_VERTICAL_MIRRORING: u8 = 0b0000_0001;

pub const FLAG_TRAINER: u8 = 0b0000_0100;

pub const FLAG_FOUR_SCREEN: u8 = 0b0000_1000;

pub const FLAG_LATER_FORMAT: u8 = 0b0000_0010;

/// How the cartridge wires the two name tables of the video memory.
#[derive(Clone, Copy, Debug, PartialEq, Eq, Structural)]
pub enum Mirroring {
    Vertical,
    Horizontal,
    FourScreen,
}

/// Why a byte sequence is not accepted as a cartridge.
#[derive(Clone, Copy, Debug, PartialEq, Eq, Structural)]
pub enum CartridgeError {
    /// Shorter than a header, without the signature, or shorter than the
    /// header says.
    BadFormat,
    /// Marked as a later version of the container format.
    UnsupportedFormat,
}

/// A parsed cartridge.
#[derive(Debug)]
pub struct Cartridge {
    pub program_rom: Vec<u8>,
    pub character_rom: Vec<u8>,
    pub mirroring: Mirroring,
    pub mapper: u8,
    /// Set when there is a single 16 KiB page of program ROM, which the
    /// machine then sees twice, at $8000 and at $C000.
    pub is_program_rom_mirrored: bool,
}

/// What a cartridge holds, as mathematical values.
pub struct Image {
    pub program_rom: Seq<u8>,
    pub character_rom: Seq<u8>,
    pub mirroring: Mirroring,
    pub mapper: u8,
    pub is_program_rom_mirrored: bool,
}

impl View for Cartridge {
    type V = Image;

    open spec fn view(&self) -> Image {
        Image {
            program_rom: self.program_rom@,
            character_rom: self.character_rom@,
            mirroring: self.mirroring,
            mapper: self.mapper,
            is_program_rom_mirrored: self.is_program_rom_mirrored,
        }
    }
}

/// Whether `raw` starts with a whole header that carries the signature.
pub open spec fn has_signature(raw: Seq<u8>) -> bool {
    &&& raw.len() >= HEADER_SIZE
    &&& raw[0] == 0x4E
    &&& raw[1] == 0x45
    &&& raw[2] == 0x53
    &&& raw[3] == 0x1A
}

/// The mirroring that the sixth header byte asks for.
pub open spec fn mirroring_of(flags_6: u8) -> Mirroring {
    if flags_6 & FLAG_FOUR_SCREEN != 0 {
        Mirroring::FourScreen
    } else if flags_6 & FLAG_VERTICAL_MIRRORING != 0 {
        Mirroring::Vertical
    } else {
        Mirroring::Horizontal
    }
}

/// The mapper number: its high nibble from byte 7, its low nibble from byte 6.
pub open spec fn mapper_of(flags_6: u8, flags_7: u8) -> u8 {
    (flags_7 & 0xF0) | (flags_6 >> 4)
}

/// Where the program ROM starts in a file with this sixth header byte.
pub open spec fn program_rom_start(flags_6: u8) -> int {
    if flags_6 & FLAG_TRAINER != 0 {
        HEADER_SIZE + TRAINER_SIZE
    } else {
        HEADER_SIZE as int
    }
}

/// The length that the header of `raw` announces for the whole file.
pub open spec fn announced_len(raw: Seq<u8>) -> int {
    program_rom_start(raw[6]) + raw[4] * PROGRAM_ROM_PAGE_SIZE + raw[5] * CHARACTER_ROM_PAGE_SIZE
}

/// The cartridge that the bytes `raw` describe, or the reason why they
/// describe none.
pub open spec fn parse(raw: Seq<u8>) -> Result<Image, CartridgeError> {
    if !has_signature(raw) {
        Err(CartridgeError::BadFormat)
    } else if raw[7] & FLAG_LATER_FORMAT != 0 {
        Err(CartridgeError::UnsupportedFormat)
    } else if raw.len() < announced_len(raw) {
        Err(CartridgeError::BadFormat)
    } else {
        let start = program_rom_start(raw[6]);
        let middle = start + raw[4] * PROGRAM_ROM_PAGE_SIZE;
        Ok(
            Image {
                program_rom: raw.subrange(start, middle),
                character_rom: raw.subrange(middle, announced_len(raw)),
                mirroring: mirroring_of(raw[6]),
                mapper: mapper_of(raw[6], raw[7]),
                is_program_rom_mirrored: raw[4] == 1,
            },
        )
    }
}

/// A cartridge that was parsed has the signature in its file, and ROMs of
/// the sizes that the header announces: 16 KiB for each page of program ROM,
/// 8 KiB for each page of character ROM.
pub proof fn lemma_parsed_sizes(raw: Seq<u8>)
    requires
        parse(raw) is Ok,
    ensures
        has_signature(raw),
        parse(raw)->Ok_0.program_rom.len() == raw[4] * PROGRAM_ROM_PAGE_SIZE,
        parse(raw)->Ok_0.character_rom.len() == raw[5] * CHARACTER_ROM_PAGE_SIZE,
        parse(raw)->Ok_0.is_program_rom_mirrored == (parse(raw)->Ok_0.program_rom.len()
            == PROGRAM_ROM_PAGE_SIZE),
{
}

/// Copies the bytes of `raw` from `start` up to `end`.
fn copy_range(raw: &Vec<u8>, start: usize, end: usize) -> (out: Vec<u8>)
    requires
        start <= end <= raw.len(),
    ensures
        out@ == raw@.subrange(start as int, end as int),
{
    let mut out: Vec<u8> = Vec::new();
    let mut i: usize = start;
    while i < end
        invariant
            start <= i <= end <= raw.len(),
            out@ == raw@.subrange(start as int, i as int),
        decreases end - i,
    {
        out.push(raw[i]);
        i += 1;
        assert(out@ =~= raw@.subrange(start as int, i as int));
    }
    out
}

impl Cartridge {
    /// Parses a file in the iNES 1.0 format.
    ///
    /// Fails with `BadFormat` on a file that is shorter than a header, lacks
    /// the signature or ends before the ROMs that its header announces, and
    /// with `UnsupportedFormat` on one marked as a later format. Bytes after
    /// the character ROM are ignored.
    pub fn new(raw_data: &Vec<u8>) -> (r: Result<Cartridge, CartridgeError>)
        ensures
            match parse(raw_data@) {
                Ok(image) => r is Ok && r->Ok_0@ == image,
                Err(e) => r == Err::<Cartridge, CartridgeError>(e),
            },
    {
        if raw_data.len() < HEADER_SIZE {
            return Err(CartridgeError::BadFormat);
        }
        if raw_data[0] != 0x4E || raw_data[1] != 0x45 || raw_data[2] != 0x53 || raw_data[3]
            != 0x1A {
            return Err(CartridgeError::BadFormat);
        }
        let flags_6 = raw_data[6];
        let flags_7 = raw_data[7];
        if flags_7 & FLAG_LATER_FORMAT != 0 {
            return Err(CartridgeError::UnsupportedFormat);
        }
        let program_rom_size: usize = raw_data[4] as usize * PROGRAM_ROM_PAGE_SIZE;
        let character_rom_size: usize = raw_data[5] as usize * CHARACTER_ROM_PAGE_SIZE;
        let program_rom_start: usize = if flags_6 & FLAG_TRAINER != 0 {
            HEADER_SIZE + TRAINER_SIZE
        } else {
            HEADER_SIZE
        };
        let character_rom_start: usize = program_rom_start + program_rom_size;
        let end: usize = character_rom_start + character_rom_size;
        if raw_data.len() < end {
            return Err(CartridgeError::BadFormat);
        }
        let mirroring = if flags_6 & FLAG_FOUR_SCREEN != 0 {
            Mirroring::FourScreen
        } else if flags_6 & FLAG_VERTICAL_MIRRORING != 0 {
            Mirroring::Vertical
        } else {
            Mirroring::Horizontal
        };
        Ok(
            Cartridge {
                program_rom: copy_range(raw_data, program_rom_start, character_rom_start),
                character_rom: copy_range(raw_data, character_rom_start, end),
                mirroring,
                mapper: (flags_7 & 0xF0) | (flags_6 >> 4),
                is_program_rom_mirrored: raw_data[4] == 1,
            },
        )
    }
}

/// Appends `count` copies of `byte` to `bytes`.
fn extend_with(bytes: &mut Vec<u8>, byte: u8, count: usize)
    ensures
        final(bytes)@ == old(bytes)@ + Seq::new(count as nat, |i: int| byte),
{
    let ghost before = bytes@;
    let mut i: usize = 0;
    while i < count
        invariant
            i <= count,
            bytes@ == before + Seq::new(i as nat, |j: int| byte),
        decreases count - i,
    {
        bytes.push(byte);
        i += 1;
        assert(bytes@ =~= before + Seq::new(i as nat, |j: int| byte));
    }
}

/// A cartridge for experiments: two pages of program ROM filled with zeros,
/// no character ROM, horizontal mirroring, mapper 0.
///
/// The cartridge is made by parsing a file. With `dummy_trainer_data` the
/// file carries a trainer, which parsing skips.
pub fn create_test_cartridge(dummy_trainer_data: bool) -> (cartridge: Cartridge)
    ensures
        cartridge@ == (Image {
            program_rom: Seq::new(0x8000, |i: int| 0u8),
            character_rom: Seq::empty(),
            mirroring: Mirroring::Horizontal,
            mapper: 0,
            is_program_rom_mirrored: false,
        }),
{
    let program_rom_pages: u8 = 2;
    let character_rom_pages: u8 = 0;
    let flags_6: u8 = if dummy_trainer_data {
        FLAG_TRAINER
    } else {
        0
    };
    let mut raw_data: Vec<u8> = Vec::new();
    raw_data.push(0x4E);
    raw_data.push(0x45);
    raw_data.push(0x53);
    raw_data.push(0x1A);
    raw_data.push(program_rom_pages);
    raw_data.push(character_rom_pages);
    raw_data.push(flags_6);
    raw_data.push(0);
    extend_with(&mut raw_data, 0, 8);
    let ghost header = raw_data@;
    if dummy_trainer_data {
        extend_with(&mut raw_data, 3, TRAINER_SIZE);
    }
    let ghost start = raw_data@.len() as int;
    extend_with(&mut raw_data, 0, program_rom_pages as usize * PROGRAM_ROM_PAGE_SIZE);
    proof {
        assert(0u8 & 0x04 == 0 && 0x04u8 & 0x04 != 0 && 0u8 & 0x08 == 0 && 0x04u8 & 0x08 == 0 && 0u8
            & 0x01 == 0 && 0x04u8 & 0x01 == 0 && 0u8 & 0x02 == 0 && (0u8 & 0xF0) | (0u8 >> 4) == 0
            && (0u8 & 0xF0) | (0x04u8 >> 4) == 0) by (bit_vector);
        assert(forall|i: int| 0 <= i < 16 ==> raw_data@[i] == header[i]);
        assert(start == program_rom_start(flags_6));
        assert(raw_data@.len() == announced_len(raw_data@));
        assert(raw_data@.subrange(start, start + 0x8000) =~= Seq::new(0x8000, |i: int| 0u8));
        assert(raw_data@.subrange(start + 0x8000, start + 0x8000) =~= Seq::<u8>::empty());
    }
    match Cartridge::new(&raw_data) {
        Ok(cartridge) => cartridge,
        Err(_) => vstd::pervasive::unreached(),
    }
}

} // verus!
