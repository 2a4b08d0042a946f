use nesle::mapper::banking::ChrMemory;
use nesle::cartridge::{CartridgeFormat, CartridgeImage, Mirroring, Region};
use nesle::cpu::{InterruptLines, IrqSource};
use nesle::mapper::axrom::Axrom;
use nesle::mapper::banking::PrgMemory;
use nesle::mapper::cnrom::Cnrom;
use nesle::mapper::mmc1::Mmc1;
use nesle::mapper::mmc2::Mmc2;
use nesle::mapper::mmc3::Mmc3;
use nesle::mapper::mmc5::Mmc5;
use nesle::mapper::nrom::Nrom;
use nesle::mapper::sunsoft5::Sunsoft5;
use nesle::mapper::uxrom::Uxrom;
use nesle::mapper::{create_mapper, Mapper};
use nesle::common::error::NesleError;

fn base_cartridge(mapper_id: u16) -> CartridgeImage {
    CartridgeImage {
        format: CartridgeFormat::INes,
        mapper_id,
        submapper: 0,
        mirroring: Mirroring::Horizontal,
        battery: false,
        region: Region::Ntsc,
        prg_rom: Vec::new(),
        chr_rom: Vec::new(),
        trainer_data: Vec::new(),
        work_ram_size: 8 * 1024,
        save_ram_size: 0,
        prg_ram_size: 8 * 1024,
        prg_ram_unspecified: false,
        save_chr_ram_size: 0,
        chr_ram_size: 0,
        chr_ram_unspecified: false,
        input_device: 0,
    }
}

fn nrom_cartridge(prg_size: usize, chr_size: usize) -> CartridgeImage {
    CartridgeImage {
        mirroring: Mirroring::Horizontal,
        prg_rom: (0..prg_size).map(|value| value as u8).collect(),
        chr_rom: (0..chr_size).map(|value| (value as u8).wrapping_add(1)).collect(),
        chr_ram_size: if chr_size == 0 { 8 * 1024 } else { 0 },
        ..base_cartridge(0)
    }
}

#[test]
fn mirrors_16k_prg_rom() {
    let mut mapper = Nrom::new(&nrom_cartridge(16 * 1024, 8 * 1024));
    assert_eq!(mapper.cpu_read(0x8000), 0);
    assert_eq!(mapper.cpu_read(0xbfff), 0xff);
    assert_eq!(mapper.cpu_read(0xc000), 0);
    assert_eq!(mapper.cpu_read(0xffff), 0xff);
}

#[test]
fn maps_32k_prg_rom_without_mirroring() {
    let mut mapper = Nrom::new(&nrom_cartridge(32 * 1024, 8 * 1024));
    assert_eq!(mapper.cpu_read(0x8000), 0);
    assert_eq!(mapper.cpu_read(0xc000), 0);
    assert_eq!(mapper.cpu_read(0xc001), 1);
}

#[test]
fn only_chr_ram_accepts_ppu_writes() {
    let mut chr_rom = Nrom::new(&nrom_cartridge(16 * 1024, 8 * 1024));
    let before = chr_rom.ppu_read(0x0010);
    chr_rom.ppu_write(0x0010, 0xee);
    assert_eq!(chr_rom.ppu_read(0x0010), before);

    let mut chr_ram = Nrom::new(&nrom_cartridge(16 * 1024, 0));
    chr_ram.ppu_write(0x0010, 0xee);
    assert_eq!(chr_ram.ppu_read(0x0010), 0xee);
}

#[test]
fn nrom_open_bus_and_prg_ram_window() {
    let mut mapper = Nrom::new(&nrom_cartridge(16 * 1024, 8 * 1024));
    let mut lines = InterruptLines::default();
    assert_eq!(mapper.cpu_read_open_bus(0x5000, 0x42, &mut lines), 0x42);
    mapper.cpu_write(0x6123, 0x99, &mut lines);
    assert_eq!(mapper.cpu_read(0x6123), 0x99);
    assert_eq!(mapper.cpu_code_read(0x6123), None);
}

#[test]
fn nrom_snapshot_round_trip() {
    let mut mapper = Nrom::new(&nrom_cartridge(16 * 1024, 0));
    let mut lines = InterruptLines::default();
    mapper.cpu_write(0x6001, 0x12, &mut lines);
    mapper.ppu_write(0x0005, 0x34, );
    let snap = mapper.snapshot_bytes();
    let mut other = Nrom::new(&nrom_cartridge(16 * 1024, 0));
    assert!(other.restore_snapshot(&snap).is_ok());
    assert_eq!(other.cpu_read(0x6001), 0x12);
    assert_eq!(other.ppu_read(0x0005), 0x34);
    assert!(other.restore_snapshot(&snap[..2]).is_err());
}

fn uxrom_cartridge() -> CartridgeImage {
    CartridgeImage {
        prg_rom: (0..0xc000).map(|value| (value / 0x4000) as u8).collect(),
        chr_ram_size: 8 * 1024,
        ..base_cartridge(2)
    }
}

#[test]
fn switches_low_prg_bank_and_fixes_high_bank() {
    let mut mapper = Uxrom::new(&uxrom_cartridge());
    let mut lines = InterruptLines::default();
    assert_eq!(mapper.cpu_read(0x8000), 0);
    assert_eq!(mapper.cpu_read(0xc000), 2);
    mapper.cpu_write(0x8000, 1, &mut lines);
    assert_eq!(mapper.cpu_read(0x8000), 1);
    assert_eq!(mapper.cpu_read(0xc000), 2);
}

#[test]
fn cpu_code_read_tracks_bank_switch_and_skips_prg_ram() {
    let mut mapper = Uxrom::new(&uxrom_cartridge());
    let mut lines = InterruptLines::default();

    assert_eq!(mapper.cpu_code_read(0x6000), None);
    assert_eq!(mapper.cpu_code_read(0x8000), Some(0));
    assert_eq!(mapper.cpu_code_read(0xc000), Some(2));

    mapper.cpu_write(0x8000, 1, &mut lines);
    assert_eq!(mapper.cpu_code_read(0x8000), Some(1));
    assert_eq!(mapper.cpu_code_read(0xc000), Some(2));
}

#[test]
fn cpu_code_read_state_is_per_mapper_instance() {
    let mapper_a = Uxrom::new(&uxrom_cartridge());
    let mut mapper_b = Uxrom::new(&uxrom_cartridge());
    let mut lines = InterruptLines::default();

    mapper_b.cpu_write(0x8000, 1, &mut lines);

    assert_eq!(mapper_a.cpu_code_read(0x8000), Some(0));
    assert_eq!(mapper_b.cpu_code_read(0x8000), Some(1));
}

#[test]
fn uxrom_bank_select_keeps_all_eight_bits() {
    let mut mapper = Uxrom::new(&uxrom_cartridge());
    let mut lines = InterruptLines::default();
    mapper.cpu_write(0x8000, 0x11, &mut lines);
    assert_eq!(mapper.bank_select, 0x11);
    // 0x11 wraps modulo the three banks to bank 2.
    assert_eq!(mapper.cpu_read(0x8000), 2);
    let snap = mapper.snapshot_bytes();
    let mut other = Uxrom::new(&uxrom_cartridge());
    assert!(other.restore_snapshot(&snap).is_ok());
    assert_eq!(other.bank_select, 0x11);
    assert!(other.restore_snapshot(&[]).is_err());
}

fn cnrom_cartridge() -> CartridgeImage {
    CartridgeImage {
        prg_rom: (0..0x8000).map(|value| value as u8).collect(),
        chr_rom: (0..0x4000).map(|value| (value / 0x2000) as u8).collect(),
        ..base_cartridge(3)
    }
}

#[test]
fn switches_8k_chr_bank() {
    let mut mapper = Cnrom::new(&cnrom_cartridge());
    let mut lines = InterruptLines::default();
    assert_eq!(mapper.ppu_read(0x0010), 0);
    mapper.cpu_write(0x8000, 1, &mut lines);
    assert_eq!(mapper.ppu_read(0x0010), 1);
}

fn axrom_cartridge() -> CartridgeImage {
    CartridgeImage {
        mirroring: Mirroring::SingleScreenLower,
        prg_rom: (0..0x10000).map(|value| (value / 0x8000) as u8).collect(),
        chr_ram_size: 8 * 1024,
        ..base_cartridge(7)
    }
}

#[test]
fn switches_32k_prg_bank() {
    let mut mapper = Axrom::new(&axrom_cartridge());
    let mut lines = InterruptLines::default();
    assert_eq!(mapper.cpu_read(0x8000), 0);
    mapper.cpu_write(0x8000, 1, &mut lines);
    assert_eq!(mapper.cpu_read(0x8000), 1);
    assert_eq!(mapper.cpu_read(0xffff), 1);
}

#[test]
fn axrom_one_screen_select_follows_bit_4() {
    let mut mapper = Axrom::new(&axrom_cartridge());
    let mut lines = InterruptLines::default();
    assert_eq!(mapper.nametable_mirroring(), Mirroring::SingleScreenLower);
    mapper.cpu_write(0x8000, 0x10, &mut lines);
    assert_eq!(mapper.nametable_mirroring(), Mirroring::SingleScreenUpper);
}

#[test]
fn prg_read_masks_power_of_two_bank_count() {
    let prg = PrgMemory::new((0..16).map(|value| value as u8).collect(), 4);

    assert_eq!(prg.bank_count(), 4);
    assert_eq!(prg.read(0, 0x8000), 0);
    assert_eq!(prg.read(2, 0x8000), 8);
    assert_eq!(prg.read(6, 0x8000), 8);
}

#[test]
fn prg_read_modulos_non_power_of_two_bank_count() {
    let prg = PrgMemory::new((0..12).map(|value| value as u8).collect(), 4);

    assert_eq!(prg.bank_count(), 3);
    assert_eq!(prg.read(0, 0x8000), 0);
    assert_eq!(prg.read(2, 0x8000), 8);
    assert_eq!(prg.read(5, 0x8000), 8);
}

#[test]
fn prg_read_preserves_partial_bank_wrap_behavior() {
    let prg = PrgMemory::new((0..3).map(|value| value as u8).collect(), 4);

    assert_eq!(prg.bank_count(), 1);
    assert_eq!(prg.read(0, 0x8002), 2);
    assert_eq!(prg.read(0, 0x8003), 0);
    assert_eq!(prg.read(7, 0x8003), 0);
}

fn mmc1_cartridge() -> CartridgeImage {
    CartridgeImage {
        prg_rom: (0..0x20000).map(|value| (value / 0x4000) as u8).collect(),
        chr_ram_size: 8 * 1024,
        ..base_cartridge(1)
    }
}

fn mmc1_serial_write(mapper: &mut Mmc1, addr: u16, value: u8, lines: &mut InterruptLines) {
    for bit in 0..5 {
        mapper.process_cpu_clock(lines);
        mapper.process_cpu_clock(lines);
        mapper.cpu_write(addr, (value >> bit) & 1, lines);
    }
}

#[test]
fn mmc1_serial_port_loads_prg_bank_after_five_writes() {
    let mut mapper = Mmc1::new(&mmc1_cartridge());
    let mut lines = InterruptLines::default();
    // Power-on PRG mode 3: switchable $8000, last bank fixed at $C000.
    assert_eq!(mapper.cpu_read(0xc000), 7);
    mmc1_serial_write(&mut mapper, 0xe000, 3, &mut lines);
    assert_eq!(mapper.cpu_read(0x8000), 3);
    assert_eq!(mapper.cpu_read(0xc000), 7);
    assert_eq!(mapper.regs.shift_count, 0);
}

#[test]
fn mmc1_same_cycle_write_is_ignored() {
    let mut mapper = Mmc1::new(&mmc1_cartridge());
    let mut lines = InterruptLines::default();
    mapper.process_cpu_clock(&mut lines);
    mapper.process_cpu_clock(&mut lines);
    mapper.cpu_write(0x8000, 1, &mut lines);
    mapper.cpu_write(0x8000, 1, &mut lines);
    assert_eq!(mapper.regs.shift_count, 1);
    mapper.cpu_write(0x8000, 0x80, &mut lines);
    assert_eq!(mapper.regs.shift_count, 0);
    assert_eq!(mapper.regs.control & 0x0c, 0x0c);
}

#[test]
fn mmc1_mirroring_from_control_register() {
    let mut mapper = Mmc1::new(&mmc1_cartridge());
    let mut lines = InterruptLines::default();
    mmc1_serial_write(&mut mapper, 0x8000, 0x0e, &mut lines);
    assert_eq!(mapper.nametable_mirroring(), Mirroring::Vertical);
    mmc1_serial_write(&mut mapper, 0x8000, 0x0f, &mut lines);
    assert_eq!(mapper.nametable_mirroring(), Mirroring::Horizontal);
    let state = mapper.mmc1_state().unwrap();
    assert_eq!(state.mirroring, 3);
    assert_eq!(state.control, 0x0f);
}

#[test]
fn mmc1_snapshot_round_trip() {
    let mut mapper = Mmc1::new(&mmc1_cartridge());
    let mut lines = InterruptLines::default();
    mmc1_serial_write(&mut mapper, 0xe000, 2, &mut lines);
    mapper.cpu_write(0x6010, 0x77, &mut lines);
    let snap = mapper.snapshot_bytes();
    let mut other = Mmc1::new(&mmc1_cartridge());
    assert!(other.restore_snapshot(&snap).is_ok());
    assert_eq!(other.regs, mapper.regs);
    assert_eq!(other.cpu_read(0x6010), 0x77);
    assert!(other.restore_snapshot(&snap[..snap.len() - 1]).is_err());
}

fn mmc2_cartridge() -> CartridgeImage {
    CartridgeImage {
        prg_rom: (0..0x10000).map(|value| (value / 0x2000) as u8).collect(),
        chr_rom: (0..0x8000).map(|value| (value / 0x1000) as u8).collect(),
        work_ram_size: 0,
        prg_ram_size: 0,
        ..base_cartridge(9)
    }
}

#[test]
fn switches_low_prg_bank_and_keeps_fixed_high_banks() {
    let mut mapper = Mmc2::new(&mmc2_cartridge());
    assert_eq!(mapper.cpu_read(0x8000), 0);
    assert_eq!(mapper.cpu_read(0xa000), 5);
    assert_eq!(mapper.cpu_read(0xc000), 6);
    assert_eq!(mapper.cpu_read(0xe000), 7);
    let mut lines = InterruptLines::default();
    mapper.cpu_write(0xa000, 3, &mut lines);
    assert_eq!(mapper.cpu_read(0x8000), 3);
}

#[test]
fn pattern_reads_update_chr_latches() {
    let mut mapper = Mmc2::new(&mmc2_cartridge());
    let mut lines = InterruptLines::default();
    mapper.cpu_write(0xb000, 2, &mut lines);
    mapper.cpu_write(0xc000, 3, &mut lines);
    mapper.cpu_write(0xd000, 4, &mut lines);
    mapper.cpu_write(0xe000, 5, &mut lines);
    assert_eq!(mapper.ppu_read(0x0000), 3);
    mapper.ppu_read(0x0fd8);
    assert_eq!(mapper.ppu_read(0x0000), 2);
    mapper.ppu_read(0x0fe8);
    assert_eq!(mapper.ppu_read(0x0000), 3);
    mapper.ppu_read(0x1fd8);
    assert_eq!(mapper.ppu_read(0x1000), 4);
    mapper.ppu_read(0x1fe8);
    assert_eq!(mapper.ppu_read(0x1000), 5);
}

#[test]
fn latch_trigger_affects_next_pattern_access() {
    let mut mapper = Mmc2::new(&mmc2_cartridge());
    let mut lines = InterruptLines::default();
    mapper.cpu_write(0xb000, 2, &mut lines);
    mapper.cpu_write(0xc000, 3, &mut lines);

    assert_eq!(mapper.ppu_read(0x0000), 3);
    assert_eq!(mapper.ppu_read(0x0fd8), 3);
    assert_eq!(mapper.ppu_read(0x0000), 2);
}

#[test]
fn mmc2_left_latch_uses_exact_trigger_addresses() {
    let mut mapper = Mmc2::new(&mmc2_cartridge());
    let mut lines = InterruptLines::default();
    mapper.cpu_write(0xb000, 2, &mut lines);
    mapper.cpu_write(0xc000, 3, &mut lines);

    assert_eq!(mapper.ppu_read(0x0000), 3);
    mapper.ppu_read(0x0fd9);
    assert_eq!(mapper.ppu_read(0x0000), 3);
    mapper.ppu_read(0x0fd8);
    assert_eq!(mapper.ppu_read(0x0000), 2);
}

#[test]
fn mmc4_uses_16k_prg_banks_and_wider_left_latch_ranges() {
    let mut mapper = Mmc2::new_mmc4(&CartridgeImage { mapper_id: 10, ..mmc2_cartridge() });
    assert_eq!(mapper.mapper_id(), 10);
    assert_eq!(mapper.cpu_read(0x8000), 0);
    assert_eq!(mapper.cpu_read(0xa000), 1);
    assert_eq!(mapper.cpu_read(0xc000), 6);
    assert_eq!(mapper.cpu_read(0xe000), 7);
    let mut lines = InterruptLines::default();
    mapper.cpu_write(0xa000, 2, &mut lines);
    assert_eq!(mapper.cpu_read(0x8000), 4);
    assert_eq!(mapper.cpu_read(0xa000), 5);

    mapper.cpu_write(0xb000, 2, &mut lines);
    mapper.cpu_write(0xc000, 3, &mut lines);
    assert_eq!(mapper.ppu_read(0x0000), 3);
    assert_eq!(mapper.ppu_read(0x0fd9), 3);
    assert_eq!(mapper.ppu_read(0x0000), 2);
}

#[test]
fn mmc2_snapshot_rejects_bad_mirroring_byte() {
    let mapper = Mmc2::new(&mmc2_cartridge());
    let mut snap = mapper.snapshot_bytes();
    let mut other = Mmc2::new(&mmc2_cartridge());
    assert!(other.restore_snapshot(&snap).is_ok());
    snap[10] = 9;
    match other.restore_snapshot(&snap) {
        Err(NesleError::InvalidState(_)) => {}
        other => panic!("unexpected {:?}", other),
    }
}

fn mmc3_cartridge() -> CartridgeImage {
    CartridgeImage {
        prg_rom: (0..(8 * 0x2000)).map(|value| value as u8).collect(),
        chr_rom: vec![0; 8 * 0x400],
        ..base_cartridge(4)
    }
}

fn mmc3_bank_number_cartridge() -> CartridgeImage {
    CartridgeImage {
        prg_rom: (0..(8 * 0x2000)).map(|value| (value / 0x2000) as u8).collect(),
        ..mmc3_cartridge()
    }
}

#[test]
fn wram_gated_by_protect_register() {
    let mut mapper = Mmc3::new(&mmc3_cartridge());
    let mut lines = InterruptLines::default();
    assert_eq!(mapper.cpu_read(0x6000), 0);
    mapper.cpu_write(0x6000, 0x5a, &mut lines);
    assert_eq!(mapper.cpu_read(0x6000), 0);

    mapper.cpu_write(0xa001, 0x80, &mut lines);
    mapper.cpu_write(0x6000, 0x5a, &mut lines);
    assert_eq!(mapper.cpu_read(0x6000), 0x5a);

    mapper.cpu_write(0xa001, 0xc0, &mut lines);
    mapper.cpu_write(0x6000, 0xff, &mut lines);
    assert_eq!(mapper.cpu_read(0x6000), 0x5a);
}

#[test]
fn cpu_code_read_tracks_prg_mode_and_skips_wram() {
    let mut mapper = Mmc3::new(&mmc3_bank_number_cartridge());
    let mut lines = InterruptLines::default();

    assert_eq!(mapper.cpu_code_read(0x6000), None);
    assert_eq!(mapper.cpu_code_read(0x8000), Some(0));
    assert_eq!(mapper.cpu_code_read(0xa000), Some(1));
    assert_eq!(mapper.cpu_code_read(0xe000), Some(7));

    mapper.cpu_write(0x8000, 0x06, &mut lines);
    mapper.cpu_write(0x8001, 0x02, &mut lines);
    assert_eq!(mapper.cpu_code_read(0x8000), Some(2));
    assert_eq!(mapper.cpu_code_read(0xc000), Some(6));

    mapper.cpu_write(0x8000, 0x46, &mut lines);
    assert_eq!(mapper.cpu_code_read(0x8000), Some(6));
    assert_eq!(mapper.cpu_code_read(0xc000), Some(2));
}

fn step_a12(mapper: &mut Mmc3, master_clock: &mut u64, lines: &mut InterruptLines) {
    mapper.notify_vram_addr(0x0000, *master_clock, lines);
    *master_clock += 40;
    mapper.notify_vram_addr(0x1000, *master_clock, lines);
    *master_clock += 40;
}

#[test]
fn clocks_irq_counter_from_a12_edges() {
    let mut mapper = Mmc3::new(&mmc3_cartridge());
    let mut lines = InterruptLines::default();
    mapper.cpu_write(0xc000, 2, &mut lines);
    mapper.cpu_write(0xe001, 0, &mut lines);

    let mut clock = 4_u64;
    step_a12(&mut mapper, &mut clock, &mut lines);
    assert!(!lines.has_irq_source(IrqSource::External));
    assert_eq!(mapper.irq_counter, 2);

    step_a12(&mut mapper, &mut clock, &mut lines);
    assert!(!lines.has_irq_source(IrqSource::External));
    assert_eq!(mapper.irq_counter, 1);

    step_a12(&mut mapper, &mut clock, &mut lines);
    assert!(lines.has_irq_source(IrqSource::External));
    assert_eq!(mapper.irq_counter, 0);

    mapper.cpu_write(0xe000, 0, &mut lines);
    assert!(!lines.has_irq_source(IrqSource::External));
}

#[test]
fn irq_reload_uses_latch_on_next_edge() {
    let mut mapper = Mmc3::new(&mmc3_cartridge());
    let mut lines = InterruptLines::default();
    mapper.cpu_write(0xc000, 7, &mut lines);
    mapper.cpu_write(0xc001, 0, &mut lines);

    let mut clock = 4_u64;
    step_a12(&mut mapper, &mut clock, &mut lines);
    assert_eq!(mapper.irq_counter, 7);
    assert!(!mapper.irq_reload);
}

#[test]
fn a12_low_filter_rejects_back_to_back_high_accesses() {
    let mut mapper = Mmc3::new(&mmc3_cartridge());
    let mut lines = InterruptLines::default();
    mapper.cpu_write(0xc000, 5, &mut lines);
    mapper.cpu_write(0xe001, 0, &mut lines);

    let mut clock = 4_u64;
    mapper.notify_vram_addr(0x0000, clock, &mut lines);
    clock += 40;
    mapper.notify_vram_addr(0x1000, clock, &mut lines);
    clock += 4;
    mapper.notify_vram_addr(0x1100, clock, &mut lines);
    assert_eq!(mapper.irq_counter, 5);
}

#[test]
fn mmc3_snapshot_round_trip() {
    let mut mapper = Mmc3::new(&mmc3_cartridge());
    let mut lines = InterruptLines::default();
    mapper.cpu_write(0x8000, 0x47, &mut lines);
    mapper.cpu_write(0x8001, 0x05, &mut lines);
    mapper.cpu_write(0xc000, 9, &mut lines);
    let snap = mapper.snapshot_bytes();
    let mut other = Mmc3::new(&mmc3_cartridge());
    assert!(other.restore_snapshot(&snap).is_ok());
    assert_eq!(other.bank_select, 0x47);
    assert_eq!(other.bank_regs, mapper.bank_regs);
    assert_eq!(other.irq_latch, 9);
    assert!(other.restore_snapshot(&snap[..24]).is_err());
}

fn mmc5_cartridge() -> CartridgeImage {
    CartridgeImage {
        prg_rom: (0..0x4000).map(|value| value as u8).collect(),
        chr_rom: vec![0x55; 0x2000],
        ..base_cartridge(5)
    }
}

#[test]
fn maps_small_prg_rom_and_exram() {
    let mut mapper = Mmc5::new(&mmc5_cartridge());
    let mut lines = InterruptLines::default();
    assert_eq!(mapper.cpu_read(0x8001), 1);
    mapper.cpu_write(0x5c10, 0x77, &mut lines);
    assert_eq!(mapper.cpu_read_open_bus(0x5c10, 0x12, &mut lines), 0x12);
    mapper.cpu_write(0x5104, 0x02, &mut lines);
    mapper.cpu_write(0x5c10, 0x77, &mut lines);
    assert_eq!(mapper.cpu_read_open_bus(0x5c10, 0x12, &mut lines), 0x77);
}

#[test]
fn dynamic_nametable_fill_and_exram_sources() {
    let mut mapper = Mmc5::new(&mmc5_cartridge());
    let mut lines = InterruptLines::default();
    let mut ciram = [0u8; 0x1000];
    ciram[0] = 0x11;
    ciram[0x400] = 0x22;
    mapper.cpu_write(0x5106, 0x33, &mut lines);
    mapper.cpu_write(0x5107, 0x02, &mut lines);
    mapper.cpu_write(0x5105, 0b11_10_01_00, &mut lines);

    assert_eq!(mapper.ppu_read_nametable(0x2000, &ciram, &mut lines), Some(0x11));
    assert_eq!(mapper.ppu_read_nametable(0x2400, &ciram, &mut lines), Some(0x22));
    mapper.ppu_write_nametable(0x2801, 0x44, &mut ciram);
    assert_eq!(mapper.ppu_read_nametable(0x2801, &ciram, &mut lines), Some(0x44));
    assert_eq!(mapper.ppu_read_nametable(0x2c00, &ciram, &mut lines), Some(0x33));
    assert_eq!(mapper.ppu_read_nametable(0x2fc0, &ciram, &mut lines), Some(0xaa));
}

#[test]
fn mmc5_multiplier_and_irq_status() {
    let mut mapper = Mmc5::new(&mmc5_cartridge());
    let mut lines = InterruptLines::default();
    mapper.cpu_write(0x5205, 200, &mut lines);
    mapper.cpu_write(0x5206, 3, &mut lines);
    assert_eq!(mapper.cpu_read_open_bus(0x5205, 0, &mut lines), (600u16 & 0xff) as u8);
    assert_eq!(mapper.cpu_read_open_bus(0x5206, 0, &mut lines), (600u16 >> 8) as u8);
    mapper.irq_status = 0x80;
    assert_eq!(mapper.cpu_read_open_bus(0x5204, 0, &mut lines), 0x80);
    assert_eq!(mapper.irq_status & 0x80, 0);
}

#[test]
fn mmc5_snapshot_round_trip() {
    let mut mapper = Mmc5::new(&mmc5_cartridge());
    let mut lines = InterruptLines::default();
    mapper.cpu_write(0x5104, 0x02, &mut lines);
    mapper.cpu_write(0x5c20, 0x66, &mut lines);
    mapper.cpu_write(0x5120, 0x03, &mut lines);
    let snap = mapper.snapshot_bytes();
    let mut other = Mmc5::new(&mmc5_cartridge());
    assert!(other.restore_snapshot(&snap).is_ok());
    assert_eq!(other.exram[0x20], 0x66);
    assert_eq!(other.chr_banks_a, mapper.chr_banks_a);
    assert_eq!(other.snapshot_bytes(), snap);
    assert!(other.restore_snapshot(&snap[..90]).is_err());
}

fn sunsoft5_cartridge() -> CartridgeImage {
    CartridgeImage {
        prg_rom: (0..0x20000).map(|value| (value / 0x2000) as u8).collect(),
        chr_rom: vec![0; 0x2000],
        ..base_cartridge(69)
    }
}

#[test]
fn disabled_wram_window_returns_cpu_open_bus() {
    let mut mapper = Sunsoft5::new(&sunsoft5_cartridge());
    let mut lines = InterruptLines::default();
    mapper.cpu_write(0x8000, 0x08, &mut lines);
    mapper.cpu_write(0xa000, 0x40, &mut lines);

    assert_eq!(mapper.cpu_read_open_bus(0x6000, 0xa5, &mut lines), 0xa5);
}

#[test]
fn wram_window_writes_only_when_enabled() {
    let mut mapper = Sunsoft5::new(&sunsoft5_cartridge());
    let mut lines = InterruptLines::default();

    mapper.cpu_write(0x8000, 0x08, &mut lines);
    mapper.cpu_write(0xa000, 0x40, &mut lines);
    mapper.cpu_write(0x6000, 0x11, &mut lines);
    mapper.cpu_write(0xa000, 0xc0, &mut lines);
    assert_eq!(mapper.cpu_read(0x6000), 0xff);

    mapper.cpu_write(0x6000, 0x22, &mut lines);
    assert_eq!(mapper.cpu_read(0x6000), 0x22);
}

#[test]
fn irq_control_bits_match_fme7() {
    let mut mapper = Sunsoft5::new(&sunsoft5_cartridge());
    let mut lines = InterruptLines::default();

    mapper.irq_counter = 0;
    mapper.irq_control = 0x80;
    mapper.process_cpu_clock(&mut lines);
    assert_eq!(mapper.irq_counter, 0xffff);
    assert!(!lines.has_irq_source(IrqSource::External));

    mapper.irq_counter = 0;
    mapper.irq_control = 0x01;
    mapper.process_cpu_clock(&mut lines);
    assert_eq!(mapper.irq_counter, 0);
    assert!(!lines.has_irq_source(IrqSource::External));

    mapper.irq_counter = 0;
    mapper.irq_control = 0x81;
    mapper.process_cpu_clock(&mut lines);
    assert_eq!(mapper.irq_counter, 0xffff);
    assert!(lines.has_irq_source(IrqSource::External));
}

#[test]
fn create_mapper_dispatches_and_rejects_unknown_boards() {
    let mut nrom = create_mapper(&nrom_cartridge(16 * 1024, 8 * 1024)).unwrap();
    assert_eq!(nrom.mapper_id(), 0);
    assert_eq!(nrom.name(), "NROM");
    assert_eq!(nrom.cpu_read(0xbfff), 0xff);
    let mmc4 = create_mapper(&CartridgeImage { mapper_id: 10, ..mmc2_cartridge() }).unwrap();
    assert_eq!(mmc4.mapper_id(), 10);
    assert_eq!(mmc4.name(), "MMC4");
    match create_mapper(&base_cartridge(11)) {
        Err(NesleError::UnsupportedMapper(11)) => {}
        other => panic!("unexpected {:?}", other.map(|m| m.mapper_id())),
    }
    let mmc1 = create_mapper(&mmc1_cartridge()).unwrap();
    assert!(mmc1.mmc1_state().is_some());
    assert!(mmc1.has_cpu_clock_hook());
    assert!(!nrom.has_cpu_clock_hook());
}

#[test]
fn chr_memory_snapshot_after_a_prefix_restores_ram_and_pages() {
    let cart = nrom_cartridge(16 * 1024, 0);
    let mut source = ChrMemory::new(&cart, 0);
    source.write(0x0010, 0x5a);
    source.write(0x1fff, 0xa5);
    let mut bytes = vec![1u8, 2, 3];
    source.snapshot_bytes(&mut bytes);
    let mut target = ChrMemory::new(&cart, 0);
    let mut offset = 3usize;
    assert!(target.restore_snapshot(&bytes, &mut offset, "CHR").is_ok());
    assert_eq!(offset, bytes.len());
    assert_eq!(target.read(0x0010), 0x5a);
    assert_eq!(target.read(0x1fff), 0xa5);
    let mut again = Vec::new();
    target.snapshot_bytes(&mut again);
    assert_eq!(&again[..], &bytes[3..]);
}

#[test]
fn mmc3_is_notified_of_ppu_address_changes() {
    let mut cart = base_cartridge(4);
    cart.prg_rom = vec![0; 32 * 1024];
    cart.chr_ram_size = 8 * 1024;
    let mut mapper = create_mapper(&cart).unwrap();
    assert!(mapper.has_vram_addr_hook());
    let mut nrom = create_mapper(&nrom_cartridge(16 * 1024, 8 * 1024)).unwrap();
    assert!(!nrom.has_vram_addr_hook());
    let mut lines = InterruptLines::default();
    nrom.notify_vram_addr(0x1000, 100, &mut lines);
    assert_eq!(lines.irq_flag, 0);
    mapper.notify_vram_addr(0x0000, 0, &mut lines);
    assert_eq!(lines.irq_flag, 0);
}
