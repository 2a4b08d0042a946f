pub mod fds;
pub mod image;
pub mod ines;
pub mod unif;

use vstd::prelude::*;
use crate::common::error::{is_rom_error, NesleError, Result};
use fds::{fds_result, has_fds_magic, parse_fds};
use ines::{has_ines_magic, ines_result, parse_ines};
use unif::{has_unif_magic, parse_unif, unif_result};

pub use image::{CartridgeFormat, CartridgeImage, Mirroring, Region};

verus! {

/// Dispatch on the four-byte magic to the iNES/NES 2.0, UNIF or FDS parser.
pub fn parse_cartridge_image(bytes: &[u8]) -> (r: Result<CartridgeImage>)
    ensures
        has_ines_magic(bytes@) ==> ines_result(bytes@, r),
        has_unif_magic(bytes@) ==> unif_result(bytes@, r),
        has_fds_magic(bytes@) ==> fds_result(bytes@, r),
        !has_ines_magic(bytes@) && !has_unif_magic(bytes@) && !has_fds_magic(bytes@)
            ==> is_rom_error(r, "unsupported NES cartridge format"@),
{
    if bytes.len() >= 4 && bytes[0] == 0x4E && bytes[1] == 0x45 && bytes[2] == 0x53 && bytes[3]
        == 0x1A {
        return parse_ines(bytes);
    }
    if bytes.len() >= 4 && bytes[0] == 0x55 && bytes[1] == 0x4E && bytes[2] == 0x49 && bytes[3]
        == 0x46 {
        return parse_unif(bytes);
    }
    if bytes.len() >= 4 && bytes[0] == 0x46 && bytes[1] == 0x44 && bytes[2] == 0x53 && bytes[3]
        == 0x1A {
        return parse_fds(bytes);
    }
    Err(NesleError::invalid_rom("unsupported NES cartridge format"))
}

} // verus!
