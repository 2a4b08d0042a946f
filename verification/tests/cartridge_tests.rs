use nesle::cartridge::ines::parse_ines;
use nesle::cartridge::unif::parse_unif;
use nesle::cartridge::{parse_cartridge_image, CartridgeFormat, Mirroring, Region};
use nesle::common::error::NesleError;

const PRG_BANK: usize = 16 * 1024;
const CHR_BANK: usize = 8 * 1024;

fn ines_header() -> Vec<u8> {
    let mut rom = Vec::new();
    rom.extend_from_slice(b"NES\x1a");
    rom.extend_from_slice(&[1, 1, 0, 0, 0, 0, 0, 0, 0, 0, 0, 0]);
    rom
}

#[test]
fn parses_legacy_ines_mapper_and_default_ram() {
    let mut rom = ines_header();
    rom[6] = 0x21;
    rom[7] = 0x40;
    rom.extend(std::iter::repeat_n(0xaa, PRG_BANK));
    rom.extend(std::iter::repeat_n(0xbb, CHR_BANK));

    let image = parse_ines(&rom).unwrap();
    assert_eq!(image.format, CartridgeFormat::INes);
    assert_eq!(image.mapper_id, 0x42);
    assert_eq!(image.mirroring, Mirroring::Vertical);
    assert_eq!(image.prg_ram_size, 0);
    assert_eq!(image.work_ram_size, 0);
    assert_eq!(image.save_ram_size, 0);
    assert!(image.prg_ram_unspecified);
    assert_eq!(image.initialized_prg_ram(8 * 1024).len(), 8 * 1024);
    assert_eq!(image.chr_ram_size, 0);
}

#[test]
fn parses_nes20_mapper_submapper_and_ram_sizes() {
    let mut rom = ines_header();
    rom[4] = 2;
    rom[5] = 0;
    rom[6] = 0x30;
    rom[7] = 0x98;
    rom[8] = 0x51;
    rom[10] = 0x76;
    rom[11] = 0x54;
    rom.extend(std::iter::repeat_n(0xaa, PRG_BANK * 2));

    let image = parse_ines(&rom).unwrap();
    assert_eq!(image.format, CartridgeFormat::Nes20);
    assert_eq!(image.mapper_id, 0x193);
    assert_eq!(image.submapper, 5);
    assert_eq!(image.prg_ram_size, (64usize << 6) + (64usize << 7));
    assert_eq!(image.work_ram_size, 64usize << 6);
    assert_eq!(image.save_ram_size, 64usize << 7);
    assert_eq!(image.chr_ram_size, 64usize << 4);
    assert_eq!(image.save_chr_ram_size, 64usize << 5);
}

#[test]
fn parses_nes20_exponent_multiplier_rom_sizes() {
    let mut rom = ines_header();
    rom[4] = 0x16;
    rom[5] = 0x10;
    rom[7] = 0x08;
    rom[9] = 0xFF;
    let prg_len = 5usize << 5;
    let chr_len = 1usize << 4;
    rom.extend(std::iter::repeat_n(0xaa, prg_len));
    rom.extend(std::iter::repeat_n(0xbb, chr_len));

    let image = parse_ines(&rom).unwrap();
    assert_eq!(image.prg_rom.len(), prg_len);
    assert_eq!(image.chr_rom.len(), chr_len);
}

#[test]
fn keeps_trainer_data_for_mapper_ram_initialization() {
    let mut rom = ines_header();
    rom[6] = 0x04;
    rom.extend(std::iter::repeat_n(0x7a, 512));
    rom.extend(std::iter::repeat_n(0xaa, PRG_BANK));
    rom.extend(std::iter::repeat_n(0xbb, CHR_BANK));

    let image = parse_ines(&rom).unwrap();
    assert_eq!(image.trainer_data.len(), 512);
    let ram = image.initialized_prg_ram(8 * 1024);
    assert_eq!(&ram[0x1000..0x1200], image.trainer_data.as_slice());
}

#[test]
fn ines_truncated_payload_is_rejected() {
    let mut rom = ines_header();
    rom.extend(std::iter::repeat_n(0xaa, PRG_BANK));
    let err = parse_ines(&rom).unwrap_err();
    assert_eq!(err, NesleError::InvalidRom("iNES payload is truncated".to_string()));
    assert!(parse_ines(b"NES").is_err());
}

#[test]
fn ines_region_and_input_device_from_nes20_bytes() {
    let mut rom = ines_header();
    rom[7] = 0x08;
    rom[12] = 0x03;
    rom[15] = 0x02;
    rom.extend(std::iter::repeat_n(0, PRG_BANK + CHR_BANK));
    let image = parse_ines(&rom).unwrap();
    assert_eq!(image.region, Region::Dendy);
    assert_eq!(image.input_device, 2);
    assert!(image.is_nes20());
    assert!(!image.has_trainer());
}

#[test]
fn routes_supported_cartridge_magic_to_format_parsers() {
    let mut rom = Vec::new();
    rom.extend_from_slice(b"NES\x1a");
    rom.extend_from_slice(&[1, 1, 0, 0, 0, 0, 0, 0, 0, 0, 0, 0]);
    rom.extend(std::iter::repeat_n(0xea, 16 * 1024));
    rom.extend(std::iter::repeat_n(0, 8 * 1024));
    assert_eq!(parse_cartridge_image(&rom).unwrap().format, CartridgeFormat::INes);

    let err = parse_cartridge_image(b"UNIFstub").unwrap_err().message();
    assert!(err.contains("UNIF"));

    let err = parse_cartridge_image(b"FDS\x1astub").unwrap_err().message();
    assert!(err.contains("FDS"));
}

#[test]
fn rejects_unknown_rom_magic_before_core_load() {
    let err = parse_cartridge_image(b"not a cartridge").unwrap_err().message();
    assert!(err.contains("unsupported NES cartridge format"));
}

fn build_unif(mapper: &str, prg: &[u8], chr: &[u8], mirr: u8) -> Vec<u8> {
    let mut buf = Vec::new();
    buf.extend_from_slice(b"UNIF");
    buf.extend(std::iter::repeat_n(0, 32 - 4));
    buf.extend_from_slice(b"MAPR");
    let mut mapr = mapper.as_bytes().to_vec();
    mapr.push(0);
    buf.extend_from_slice(&(mapr.len() as u32).to_le_bytes());
    buf.extend_from_slice(&mapr);
    buf.extend_from_slice(b"PRG0");
    buf.extend_from_slice(&(prg.len() as u32).to_le_bytes());
    buf.extend_from_slice(prg);
    if !chr.is_empty() {
        buf.extend_from_slice(b"CHR0");
        buf.extend_from_slice(&(chr.len() as u32).to_le_bytes());
        buf.extend_from_slice(chr);
    }
    buf.extend_from_slice(b"MIRR");
    buf.extend_from_slice(&1u32.to_le_bytes());
    buf.push(mirr);
    buf
}

#[test]
fn parses_minimal_nrom_unif() {
    let rom = build_unif("NROM-256", &[0xea; 32 * 1024], &[0; 8 * 1024], 1);
    let img = parse_unif(&rom).unwrap();
    assert_eq!(img.mapper_id, 0);
    assert_eq!(img.format, CartridgeFormat::Unif);
    assert_eq!(img.prg_rom.len(), 32 * 1024);
    assert_eq!(img.chr_rom.len(), 8 * 1024);
    assert_eq!(img.mirroring, Mirroring::Vertical);
    assert_eq!(img.chr_ram_size, 0);
}

#[test]
fn unif_default_chr_ram_8k_when_chr_rom_absent() {
    let rom = build_unif("UNROM", &[0xea; 32 * 1024], &[], 0);
    let img = parse_unif(&rom).unwrap();
    assert_eq!(img.mapper_id, 2);
    assert_eq!(img.chr_rom.len(), 0);
    assert_eq!(img.chr_ram_size, 8 * 1024);
    assert!(img.chr_ram_unspecified);
}

#[test]
fn unif_mapper_name_prefix_strip() {
    let rom = build_unif("NES-TLROM", &[0xea; 32 * 1024], &[0; 8 * 1024], 1);
    let img = parse_unif(&rom).unwrap();
    assert_eq!(img.mapper_id, 4);
}

#[test]
fn unif_board_names_ignore_case_and_blanks() {
    let rom = build_unif("BMC- s x rom", &[0xea; 16 * 1024], &[], 0);
    let img = parse_unif(&rom).unwrap();
    assert_eq!(img.mapper_id, 1);
}

#[test]
fn unif_rejects_unknown_mapper() {
    let rom = build_unif("MADE-UP-BOARD", &[0xea; 8 * 1024], &[], 0);
    let err = parse_unif(&rom).unwrap_err().message();
    assert!(err.contains("unsupported board name"));
    assert!(err.contains("`MADE-UP-BOARD`"));
}

#[test]
fn unif_rejects_truncated_header() {
    let err = parse_unif(b"UNIFstub").unwrap_err().message();
    assert!(err.contains("UNIF"));
}

#[test]
fn unif_rejects_chunk_past_end() {
    let mut rom = build_unif("NROM", &[0xea; 16], &[], 0);
    rom.extend_from_slice(b"XXXX");
    rom.extend_from_slice(&100u32.to_le_bytes());
    let err = parse_unif(&rom).unwrap_err();
    assert_eq!(
        err,
        NesleError::InvalidRom("UNIF chunk payload extends past end-of-file".to_string())
    );
}
