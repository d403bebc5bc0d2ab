//! Cartridge images in the iNES format.
//!
//! An image starts with a header of 16 bytes: the four bytes `4E 45 53 1A`,
//! the number of 16 KiB banks of program data, the number of 8 KiB banks of
//! character data, and flags. An optional trainer of 512 bytes follows,
//! then the program data, then the character data. No mapper is supported.

use vstd::prelude::*;
use crate::cpu::CPU;
use crate::machine::Machine;

verus! {

/// The length of the header.
pub const HEADER_SIZE: usize = 16;

/// The length of a trainer.
pub const TRAINER_SIZE: usize = 512;

/// The length of one bank of program data.
pub const PRG_BANK_SIZE: usize = 16384;

/// The length of one bank of character data.
pub const CHR_BANK_SIZE: usize = 8192;

/// Where a trainer is placed in memory.
pub const TRAINER_START: u16 = 0x7000;

/// Where the program data is placed in memory.
pub const PRG_START: u16 = 0x8000;

/// The most banks of program data that fit between `PRG_START` and the end
/// of memory.
pub const MAX_PRG_BANKS: u8 = 2;

/// The most banks of character data that fit in memory.
pub const MAX_CHR_BANKS: u8 = 8;

/// What kind of image a file is.
#[derive(Clone, Copy, Debug, PartialEq, Eq, Structural)]
pub enum RomFormat {
    /// An image in the NES 2.0 format, which is recognised and not loaded.
    Nes2,
    /// An image in the iNES format.
    INes,
    /// Anything else.
    Invalid,
}

/// Why an iNES image was not loaded.
#[derive(Clone, Copy, Debug, PartialEq, Eq, Structural)]
pub enum ImageError {
    /// The header announces more banks than fit in memory.
    TooLarge,
    /// The image is shorter than its header announces.
    Truncated,
}

/// Whether `image` starts with a complete header that bears the format's
/// mark.
pub open spec fn has_header(image: Seq<u8>) -> bool {
    &&& image.len() >= 16
    &&& image[0] == 0x4E
    &&& image[1] == 0x45
    &&& image[2] == 0x53
    &&& image[3] == 0x1A
}

/// The format of `image`: NES 2.0 where bits 2 and 3 of header byte 7 are
/// `10`, iNES for any other image with a header.
pub open spec fn format_of(image: Seq<u8>) -> RomFormat {
    if !has_header(image) {
        RomFormat::Invalid
    } else if image[7] & 0x0C == 0x08 {
        RomFormat::Nes2
    } else {
        RomFormat::INes
    }
}

/// The length of the trainer: 512 where bit 1 of header byte 6 is set.
pub open spec fn trainer_len(image: Seq<u8>) -> int {
    if image[6] & 0x02 != 0 {
        512
    } else {
        0
    }
}

/// The length of the program data.
pub open spec fn prg_len(image: Seq<u8>) -> int {
    image[4] * 16384
}

/// The length of the character data.
pub open spec fn chr_len(image: Seq<u8>) -> int {
    image[5] * 8192
}

/// Where the program data starts in the image.
pub open spec fn prg_offset(image: Seq<u8>) -> int {
    16 + trainer_len(image)
}

/// Where the character data starts in the image.
pub open spec fn chr_offset(image: Seq<u8>) -> int {
    prg_offset(image) + prg_len(image)
}

/// The trainer of `image`; empty where it has none.
pub open spec fn trainer_of(image: Seq<u8>) -> Seq<u8> {
    image.subrange(16, prg_offset(image))
}

/// The program data of `image`.
pub open spec fn prg_of(image: Seq<u8>) -> Seq<u8> {
    image.subrange(prg_offset(image), chr_offset(image))
}

/// The character data of `image`.
pub open spec fn chr_of(image: Seq<u8>) -> Seq<u8> {
    image.subrange(chr_offset(image), chr_offset(image) + chr_len(image))
}

/// What stands in the way of loading the iNES image `image`, if anything.
pub open spec fn image_fault(image: Seq<u8>) -> Option<ImageError> {
    if image[4] > 2 || image[5] > 8 {
        Some(ImageError::TooLarge)
    } else if image.len() < chr_offset(image) + chr_len(image) {
        Some(ImageError::Truncated)
    } else {
        None
    }
}

/// The state `m` after the parts of the iNES image `image` are placed in
/// memory: the trainer from `0x7000`, then the program data from `0x8000`,
/// then the character data from `0x0000`. Where two parts overlap, the one
/// placed later stays.
pub open spec fn installed(m: Machine, image: Seq<u8>) -> Machine {
    m.overlay(0x7000, trainer_of(image)).overlay(0x8000, prg_of(image)).overlay(0, chr_of(image))
}

/// Tells the format of `image`.
pub fn rom_format(image: &Vec<u8>) -> (format: RomFormat)
    ensures
        format == format_of(image@),
{
    if image.len() < HEADER_SIZE || image[0] != 0x4E || image[1] != 0x45 || image[2] != 0x53
        || image[3] != 0x1A {
        RomFormat::Invalid
    } else if image[7] & 0x0C == 0x08 {
        RomFormat::Nes2
    } else {
        RomFormat::INes
    }
}

/// Loads a cartridge image into the memory of `cpu` and tells its format.
///
/// Only an image in the iNES format is loaded: its trainer, if it has one,
/// goes to `0x7000`, its program data to `0x8000` and its character data to
/// `0x0000`. An image of another format leaves the processor as it is. An
/// iNES image that announces more than 2 banks of program data or more than
/// 8 banks of character data is refused as `TooLarge`, one that is shorter
/// than its header announces as `Truncated`; the processor is then left as
/// it is. The registers are never touched.
pub fn load_nes_image(cpu: &mut CPU, image: &Vec<u8>) -> (loaded: Result<RomFormat, ImageError>)
    ensures
        format_of(image@) != RomFormat::INes ==> loaded == Ok::<RomFormat, ImageError>(
            format_of(image@),
        ) && final(cpu)@ == old(cpu)@,
        format_of(image@) == RomFormat::INes ==> match image_fault(image@) {
            Some(fault) => loaded == Err::<RomFormat, ImageError>(fault) && final(cpu)@ == old(cpu)@,
            None => loaded == Ok::<RomFormat, ImageError>(RomFormat::INes) && final(cpu)@
                == installed(old(cpu)@, image@),
        },
{
    let format = rom_format(image);
    match format {
        RomFormat::INes => {},
        _ => {
            return Ok(format);
        },
    }
    if image[4] > MAX_PRG_BANKS || image[5] > MAX_CHR_BANKS {
        return Err(ImageError::TooLarge);
    }
    let trainer_size: usize = if image[6] & 0x02 != 0 {
        TRAINER_SIZE
    } else {
        0
    };
    let prg_size: usize = (image[4] as usize) * PRG_BANK_SIZE;
    let chr_size: usize = (image[5] as usize) * CHR_BANK_SIZE;
    let prg_from: usize = HEADER_SIZE + trainer_size;
    let chr_from: usize = prg_from + prg_size;
    if image.len() < chr_from + chr_size {
        return Err(ImageError::Truncated);
    }
    cpu.write_block(TRAINER_START, image, HEADER_SIZE, trainer_size);
    cpu.write_block(PRG_START, image, prg_from, prg_size);
    cpu.write_block(0, image, chr_from, chr_size);
    Ok(RomFormat::INes)
}

} // verus!
