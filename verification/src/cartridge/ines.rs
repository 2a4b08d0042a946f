use vstd::prelude::*;
use crate::bytes::copy_range;
use crate::common::error::{is_rom_error, NesleError, Result};
use super::image::{CartridgeFormat, CartridgeImage, Mirroring, Region};

verus! {

pub const HEADER_LEN: usize = 16;
pub const PRG_BANK: usize = 16 * 1024;
pub const CHR_BANK: usize = 8 * 1024;

/// The first four bytes spell `NES\x1a`.
pub open spec fn has_ines_magic(b: Seq<u8>) -> bool {
    b.len() >= 4 && b[0] == 0x4E && b[1] == 0x45 && b[2] == 0x53 && b[3] == 0x1A
}

pub open spec fn ines_format(b: Seq<u8>) -> CartridgeFormat {
    if b[7] & 0x0C == 0x08 { CartridgeFormat::Nes20 } else { CartridgeFormat::INes }
}

/// Mapper number: high nibble of flags 7, low nibble from flags 6, plus the
/// NES 2.0 extension nibble of byte 8.
pub open spec fn ines_mapper_id(b: Seq<u8>) -> int {
    let base = (b[7] / 16) * 16 + b[6] / 16;
    if ines_format(b) == CartridgeFormat::Nes20 { base + (b[8] % 16) * 256 } else { base }
}

pub open spec fn ines_submapper(b: Seq<u8>) -> int {
    if ines_format(b) == CartridgeFormat::Nes20 { (b[8] / 16) as int } else { 0 }
}

/// NES 2.0 ROM-size field: plain `count | nibble << 8` units, or the
/// exponent-multiplier form `(2 * (count & 3) + 1) << (count >> 2)` when the
/// nibble is 0xF. `None` when the exponent does not fit the address width.
pub open spec fn nes20_rom_size_spec(count: u8, nibble: u8, unit: usize) -> Option<usize> {
    if nibble == 0x0F {
        let exponent = (count / 4) as usize;
        let multiplier = ((count % 4) * 2 + 1) as usize;
        if exponent >= usize::BITS { None } else { Some(multiplier << exponent) }
    } else {
        Some(((count + nibble * 256) * unit) as usize)
    }
}

/// PRG and CHR ROM lengths declared by the header (`None` on a NES 2.0
/// exponent that does not fit).
pub open spec fn ines_rom_lengths(b: Seq<u8>) -> Option<(int, int)> {
    if ines_format(b) == CartridgeFormat::INes {
        let prg = if b[4] == 0 { 256 } else { b[4] as int };
        Some((prg * PRG_BANK, b[5] * CHR_BANK))
    } else {
        match (
            nes20_rom_size_spec(b[4], b[9] % 16, PRG_BANK),
            nes20_rom_size_spec(b[5], b[9] / 16, CHR_BANK),
        ) {
            (Some(p), Some(c)) => Some((p as int, c as int)),
            _ => None,
        }
    }
}

pub open spec fn ines_trainer_len(b: Seq<u8>) -> int {
    if b[6] & 0x04 != 0 { 512 } else { 0 }
}

pub open spec fn ines_mirroring(b: Seq<u8>) -> Mirroring {
    if b[6] & 0x08 != 0 {
        Mirroring::FourScreen
    } else if b[6] & 0x01 != 0 {
        Mirroring::Vertical
    } else {
        Mirroring::Horizontal
    }
}

pub open spec fn ines_region(b: Seq<u8>) -> Region {
    if ines_format(b) == CartridgeFormat::Nes20 {
        if b[12] % 4 == 0 || b[12] % 4 == 2 {
            Region::Ntsc
        } else if b[12] % 4 == 1 {
            Region::Pal
        } else {
            Region::Dendy
        }
    } else if b[9] & 0x01 != 0 {
        Region::Pal
    } else {
        Region::Ntsc
    }
}

pub open spec fn ines_input_device(b: Seq<u8>) -> u8 {
    if ines_format(b) == CartridgeFormat::Nes20 && b[15] < 0x2E { b[15] } else { 0 }
}

/// RAM size encoded as a shift count: 0 means none, otherwise `64 << s`.
pub open spec fn ram_shift_spec(s: u8) -> int {
    if s == 0 { 0 } else { (64usize << s) as int }
}

/// The header is well formed and the payload holds everything it declares.
pub open spec fn ines_accepts(b: Seq<u8>) -> bool {
    &&& b.len() >= HEADER_LEN
    &&& has_ines_magic(b)
    &&& match ines_rom_lengths(b) {
        Some((prg, chr)) => HEADER_LEN + ines_trainer_len(b) + prg + chr <= b.len(),
        None => false,
    }
}

/// Every field of `img` is the one the iNES / NES 2.0 header of `b` declares.
pub open spec fn ines_image(b: Seq<u8>, img: CartridgeImage) -> bool {
    let (prg_len, chr_len) = ines_rom_lengths(b).unwrap();
    let prg_start = HEADER_LEN + ines_trainer_len(b);
    let nes20 = ines_format(b) == CartridgeFormat::Nes20;
    &&& img.format == ines_format(b)
    &&& img.mapper_id == ines_mapper_id(b)
    &&& img.submapper == ines_submapper(b)
    &&& img.mirroring == ines_mirroring(b)
    &&& img.battery == (b[6] & 0x02 != 0)
    &&& img.region == ines_region(b)
    &&& img.prg_rom@ == b.subrange(prg_start, prg_start + prg_len)
    &&& img.chr_rom@ == b.subrange(prg_start + prg_len, prg_start + prg_len + chr_len)
    &&& img.trainer_data@ == b.subrange(HEADER_LEN as int, prg_start)
    &&& img.work_ram_size == (if nes20 { ram_shift_spec(b[10] % 16) } else { 0 })
    &&& img.save_ram_size == (if nes20 { ram_shift_spec(b[10] / 16) } else { 0 })
    &&& img.prg_ram_size == img.work_ram_size + img.save_ram_size
    &&& img.prg_ram_unspecified == !nes20
    &&& img.chr_ram_size == (if nes20 {
        ram_shift_spec(b[11] % 16)
    } else if b[5] == 0 {
        CHR_BANK as int
    } else {
        0
    })
    &&& img.save_chr_ram_size == (if nes20 { ram_shift_spec(b[11] / 16) } else { 0 })
    &&& img.chr_ram_unspecified == !nes20
    &&& img.input_device == ines_input_device(b)
}

/// Why `b` is refused: no header, a NES 2.0 exponent size that overflows,
/// or a payload shorter than the header declares.
pub open spec fn ines_error(b: Seq<u8>) -> Seq<char> {
    if b.len() < HEADER_LEN || !has_ines_magic(b) {
        "missing iNES header"@
    } else if ines_rom_lengths(b) is None {
        "NES 2.0 exponent ROM-size encoding overflows usize"@
    } else {
        "iNES payload is truncated"@
    }
}

/// What `parse_ines` returns for `b`: the declared image when the header is
/// accepted, the invalid-ROM error `ines_error` names otherwise.
pub open spec fn ines_result(b: Seq<u8>, r: Result<CartridgeImage>) -> bool {
    &&& (r is Ok <==> ines_accepts(b))
    &&& (r matches Ok(img) ==> ines_image(b, img))
    &&& (!ines_accepts(b) ==> is_rom_error(r, ines_error(b)))
}

/// Parse an iNES 1.0 or NES 2.0 image.
pub fn parse_ines(bytes: &[u8]) -> (r: Result<CartridgeImage>)
    ensures
        ines_result(bytes@, r),
{
    let n = bytes.len();
    if n < HEADER_LEN || bytes[0] != 0x4E || bytes[1] != 0x45 || bytes[2] != 0x53 || bytes[3]
        != 0x1A {
        return Err(NesleError::invalid_rom("missing iNES header"));
    }
    let flags6 = bytes[6];
    let flags7 = bytes[7];
    let nes20 = flags7 & 0x0C == 0x08;
    let format = if nes20 { CartridgeFormat::Nes20 } else { CartridgeFormat::INes };
    let flags8 = bytes[8];
    let flags9 = bytes[9];
    let base_id: u16 = (flags7 as u16 / 16) * 16 + flags6 as u16 / 16;
    let mapper_id: u16 = if nes20 { base_id + (flags8 as u16 % 16) * 256 } else { base_id };
    let submapper: u8 = if nes20 { flags8 / 16 } else { 0 };
    let prg_len: usize;
    let chr_len: usize;
    if nes20 {
        match nes20_rom_size(bytes[4], flags9 % 16, PRG_BANK) {
            Ok(p) => { prg_len = p; },
            Err(e) => { return Err(e); },
        }
        match nes20_rom_size(bytes[5], flags9 / 16, CHR_BANK) {
            Ok(c) => { chr_len = c; },
            Err(e) => { return Err(e); },
        }
    } else {
        let prg_raw = bytes[4] as usize;
        let prg = if prg_raw == 0 { 256 } else { prg_raw };
        prg_len = prg * PRG_BANK;
        chr_len = bytes[5] as usize * CHR_BANK;
    }
    let mirroring = if flags6 & 0x08 != 0 {
        Mirroring::FourScreen
    } else if flags6 & 0x01 != 0 {
        Mirroring::Vertical
    } else {
        Mirroring::Horizontal
    };
    let region = if nes20 {
        let r = bytes[12] % 4;
        if r == 0 || r == 2 {
            Region::Ntsc
        } else if r == 1 {
            Region::Pal
        } else {
            Region::Dendy
        }
    } else if flags9 & 0x01 != 0 {
        Region::Pal
    } else {
        Region::Ntsc
    };
    let input_device = if nes20 && bytes[15] < 0x2E { bytes[15] } else { 0 };
    let trainer_len: usize = if flags6 & 0x04 != 0 { 512 } else { 0 };
    let prg_start = HEADER_LEN + trainer_len;
    if n < prg_start || n - prg_start < prg_len || n - prg_start - prg_len < chr_len {
        return Err(NesleError::invalid_rom("iNES payload is truncated"));
    }
    let chr_start = prg_start + prg_len;
    let end = chr_start + chr_len;
    let (work_ram_size, save_ram_size, prg_ram_unspecified) = prg_ram_sizes(format, bytes);
    let (chr_ram_size, save_chr_ram_size, chr_ram_unspecified) = chr_ram_sizes(format, bytes, bytes[5] as usize);
    let img = CartridgeImage {
        format,
        mapper_id,
        submapper,
        mirroring,
        battery: flags6 & 0x02 != 0,
        region,
        prg_rom: copy_range(bytes, prg_start, prg_len),
        chr_rom: copy_range(bytes, chr_start, chr_len),
        trainer_data: copy_range(bytes, HEADER_LEN, trainer_len),
        work_ram_size,
        save_ram_size,
        prg_ram_size: work_ram_size + save_ram_size,
        prg_ram_unspecified,
        save_chr_ram_size,
        chr_ram_size,
        chr_ram_unspecified,
        input_device,
    };
    Ok(img)
}

/// Decode a NES 2.0 ROM-size field (see `nes20_rom_size_spec`).
fn nes20_rom_size(count: u8, upper_nibble: u8, unit: usize) -> (r: Result<usize>)
    requires
        upper_nibble < 16,
        unit <= 0x4000,
    ensures
        nes20_rom_size_spec(count, upper_nibble, unit) matches Some(v) ==> r == Ok::<usize, NesleError>(v),
        nes20_rom_size_spec(count, upper_nibble, unit) is None ==> is_rom_error(
            r,
            "NES 2.0 exponent ROM-size encoding overflows usize"@,
        ),
{
    if upper_nibble == 0x0F {
        let exponent = (count / 4) as usize;
        let multiplier = ((count % 4) * 2 + 1) as usize;
        if exponent >= usize::BITS as usize {
            return Err(NesleError::invalid_rom("NES 2.0 exponent ROM-size encoding overflows usize"));
        }
        Ok(multiplier << exponent)
    } else {
        let units = count as usize + upper_nibble as usize * 256;
        assert(units * unit <= 4095 * 0x4000) by (nonlinear_arith)
            requires
                units <= 4095,
                unit <= 0x4000,
        ;
        Ok(units * unit)
    }
}

/// PRG-RAM sizes `(work, battery-backed, unspecified)` a header declares:
/// NES 2.0 gives both as shift counts in byte 10; iNES 1.0 leaves them to
/// the mapper's defaults.
fn prg_ram_sizes(format: CartridgeFormat, header: &[u8]) -> (r: (usize, usize, bool))
    requires
        header@.len() >= HEADER_LEN,
    ensures
        r == (match format {
            CartridgeFormat::INes => (0usize, 0usize, true),
            CartridgeFormat::Nes20 => (
                ram_shift_spec(header@[10] % 16) as usize,
                ram_shift_spec(header@[10] / 16) as usize,
                false,
            ),
            _ => (0usize, 0usize, false),
        }),
        r.0 <= 64 * 0x8000 && r.1 <= 64 * 0x8000,
{
    match format {
        CartridgeFormat::INes => (0, 0, true),
        CartridgeFormat::Nes20 => {
            let byte = header[10];
            (ram_shift_size(byte % 16), ram_shift_size(byte / 16), false)
        },
        _ => (0, 0, false),
    }
}

/// CHR-RAM sizes `(volatile, battery-backed, unspecified)` a header
/// declares: NES 2.0 gives both as shift counts in byte 11; an iNES 1.0
/// cartridge without CHR ROM has one 8 KiB bank of CHR RAM.
fn chr_ram_sizes(format: CartridgeFormat, header: &[u8], chr_banks: usize) -> (r: (usize, usize, bool))
    requires
        header@.len() >= HEADER_LEN,
    ensures
        r == (match format {
            CartridgeFormat::INes => (if chr_banks == 0 { CHR_BANK } else { 0usize }, 0usize, true),
            CartridgeFormat::Nes20 => (
                ram_shift_spec(header@[11] % 16) as usize,
                ram_shift_spec(header@[11] / 16) as usize,
                false,
            ),
            _ => (0usize, 0usize, false),
        }),
        r.0 <= 64 * 0x8000 && r.1 <= 64 * 0x8000,
{
    match format {
        CartridgeFormat::INes => {
            if chr_banks == 0 {
                (CHR_BANK, 0, true)
            } else {
                (0, 0, true)
            }
        },
        CartridgeFormat::Nes20 => {
            let byte = header[11];
            (ram_shift_size(byte % 16), ram_shift_size(byte / 16), false)
        },
        _ => (0, 0, false),
    }
}

/// `64 << shift`, or 0 for a zero shift.
fn ram_shift_size(shift: u8) -> (r: usize)
    requires
        shift < 16,
    ensures
        r == ram_shift_spec(shift),
        r <= 64 * 0x8000,
{
    if shift == 0 {
        0
    } else {
        proof {
            lemma_ram_shift_bound(shift);
        }
        64usize << shift
    }
}

proof fn lemma_ram_shift_bound(s: u8)
    requires
        s < 16,
    ensures
        (64usize << s) <= 64 * 0x8000,
{
    assert((64usize << s) <= 64 * 0x8000) by (bit_vector)
        requires
            s < 16;
}

} // verus!
