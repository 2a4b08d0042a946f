use vstd::prelude::*;
use crate::common::error::{is_rom_error, NesleError, Result};
use super::image::CartridgeImage;

verus! {

pub const FDS_HEADER_LEN: usize = 16;

/// The first four bytes spell `FDS\x1a`.
pub open spec fn has_fds_magic(b: Seq<u8>) -> bool {
    b.len() >= 4 && b[0] == 0x46 && b[1] == 0x44 && b[2] == 0x53 && b[3] == 0x1A
}

/// Validate FDS magic and reject clearly; Famicom Disk System hardware is
/// outside the supported mapper set, so every FDS image is refused. The
/// message tells a truncated header apart from an unsupported disk image.
pub fn parse_fds(bytes: &[u8]) -> (r: Result<CartridgeImage>)
    ensures
        fds_result(bytes@, r),
{
    if bytes.len() < FDS_HEADER_LEN || bytes[0] != 0x46 || bytes[1] != 0x44 || bytes[2] != 0x53
        || bytes[3] != 0x1A {
        return Err(NesleError::invalid_rom("FDS cartridge: missing or truncated header"));
    }
    Err(NesleError::invalid_rom(fds_unsupported_message()))
}

/// What `parse_fds` returns for `bytes`: always an invalid-ROM error.
pub open spec fn fds_result(bytes: Seq<u8>, r: Result<CartridgeImage>) -> bool {
    is_rom_error(
            r,
            if bytes.len() < FDS_HEADER_LEN || !has_fds_magic(bytes) {
                "FDS cartridge: missing or truncated header"@
            } else {
                fds_unsupported_message_spec()@
            },
        )
}

pub open spec fn fds_unsupported_message_spec() -> &'static str {
    "FDS (Famicom Disk System) cartridges are not supported. NESLE targets standard NES mappers {0,1,2,3,4,5,7,9,10,69}; FDS requires a separate disk controller, external BIOS ROM, and runtime disk-side swapping. Use a full-featured emulator (Mesen2, FCEUX) for FDS playback."
}

#[verifier::when_used_as_spec(fds_unsupported_message_spec)]
fn fds_unsupported_message() -> (r: &'static str)
    ensures
        r == fds_unsupported_message_spec(),
{
    "FDS (Famicom Disk System) cartridges are not supported. NESLE targets standard NES mappers {0,1,2,3,4,5,7,9,10,69}; FDS requires a separate disk controller, external BIOS ROM, and runtime disk-side swapping. Use a full-featured emulator (Mesen2, FCEUX) for FDS playback."
}

} // verus!
