use nesle::cartridge::Region;
use nesle::cpu::{addr_mode, AddrMode, Cpu, InterruptLines, IrqSource, MemoryOperationType, CARRY, NEGATIVE, OVERFLOW, ZERO};

#[test]
fn addr_mode_table_jsr_and_brk_are_none() {
    assert_eq!(addr_mode(0x20), AddrMode::Special);
    assert_eq!(addr_mode(0x00), AddrMode::Imp);
}

#[test]
fn addr_mode_table_jmp_indirect_uses_ind() {
    assert_eq!(addr_mode(0x6C), AddrMode::Ind);
    assert_eq!(addr_mode(0x4C), AddrMode::Abs);
}

#[test]
fn addr_mode_table_indexed_store_quirks_are_none() {
    assert_eq!(addr_mode(0x93), AddrMode::Special);
    assert_eq!(addr_mode(0x9B), AddrMode::Special);
    assert_eq!(addr_mode(0x9C), AddrMode::Special);
    assert_eq!(addr_mode(0x9E), AddrMode::Special);
    assert_eq!(addr_mode(0x9F), AddrMode::Special);
}

#[test]
fn addr_mode_table_lda_variants_cover_all_modes() {
    assert_eq!(addr_mode(0xA9), AddrMode::Imm);
    assert_eq!(addr_mode(0xA5), AddrMode::Zero);
    assert_eq!(addr_mode(0xB5), AddrMode::ZeroX);
    assert_eq!(addr_mode(0xA1), AddrMode::IndX);
    assert_eq!(addr_mode(0xB1), AddrMode::IndY);
    assert_eq!(addr_mode(0xAD), AddrMode::Abs);
    assert_eq!(addr_mode(0xBD), AddrMode::AbsX);
    assert_eq!(addr_mode(0xB9), AddrMode::AbsY);
}

#[test]
fn addr_mode_table_sta_uses_write_form_for_indexed() {
    assert_eq!(addr_mode(0x85), AddrMode::Zero);
    assert_eq!(addr_mode(0x95), AddrMode::ZeroX);
    assert_eq!(addr_mode(0x81), AddrMode::IndX);
    assert_eq!(addr_mode(0x91), AddrMode::IndYW);
    assert_eq!(addr_mode(0x8D), AddrMode::Abs);
    assert_eq!(addr_mode(0x9D), AddrMode::AbsXW);
    assert_eq!(addr_mode(0x99), AddrMode::AbsYW);
}

#[test]
fn addr_mode_table_rmw_uses_write_form_for_indexed() {
    assert_eq!(addr_mode(0x1E), AddrMode::AbsXW);
    assert_eq!(addr_mode(0x5E), AddrMode::AbsXW);
    assert_eq!(addr_mode(0x3E), AddrMode::AbsXW);
    assert_eq!(addr_mode(0x7E), AddrMode::AbsXW);
    assert_eq!(addr_mode(0xFE), AddrMode::AbsXW);
    assert_eq!(addr_mode(0xDE), AddrMode::AbsXW);
}

#[test]
fn addr_mode_table_branches_are_relative() {
    for branch in [0x10, 0x30, 0x50, 0x70, 0x90, 0xB0, 0xD0, 0xF0u8] {
        assert_eq!(addr_mode(branch), AddrMode::Rel, "branch opcode 0x{branch:02X} should be Rel");
    }
}

#[test]
fn addr_mode_table_kil_opcodes_are_none() {
    for kil in [0x02, 0x12, 0x22, 0x32, 0x42, 0x52, 0x62, 0x72, 0x92, 0xB2, 0xD2, 0xF2u8] {
        assert_eq!(addr_mode(kil), AddrMode::Special, "KIL opcode 0x{kil:02X} should be None");
    }
}

/// The 6502 addressing-mode matrix row by row (Mesen2 order).
const ADDR_MODE_ROWS: [[&str; 16]; 16] = [
    ["Imp", "IndX", "S", "IndX", "Zero", "Zero", "Zero", "Zero", "Imp", "Imm", "Acc", "Imm", "Abs", "Abs", "Abs", "Abs"],
    ["Rel", "IndY", "S", "IndYW", "ZeroX", "ZeroX", "ZeroX", "ZeroX", "Imp", "AbsY", "Imp", "AbsYW", "AbsX", "AbsX", "AbsXW", "AbsXW"],
    ["S", "IndX", "S", "IndX", "Zero", "Zero", "Zero", "Zero", "Imp", "Imm", "Acc", "Imm", "Abs", "Abs", "Abs", "Abs"],
    ["Rel", "IndY", "S", "IndYW", "ZeroX", "ZeroX", "ZeroX", "ZeroX", "Imp", "AbsY", "Imp", "AbsYW", "AbsX", "AbsX", "AbsXW", "AbsXW"],
    ["Imp", "IndX", "S", "IndX", "Zero", "Zero", "Zero", "Zero", "Imp", "Imm", "Acc", "Imm", "Abs", "Abs", "Abs", "Abs"],
    ["Rel", "IndY", "S", "IndYW", "ZeroX", "ZeroX", "ZeroX", "ZeroX", "Imp", "AbsY", "Imp", "AbsYW", "AbsX", "AbsX", "AbsXW", "AbsXW"],
    ["Imp", "IndX", "S", "IndX", "Zero", "Zero", "Zero", "Zero", "Imp", "Imm", "Acc", "Imm", "Ind", "Abs", "Abs", "Abs"],
    ["Rel", "IndY", "S", "IndYW", "ZeroX", "ZeroX", "ZeroX", "ZeroX", "Imp", "AbsY", "Imp", "AbsYW", "AbsX", "AbsX", "AbsXW", "AbsXW"],
    ["Imm", "IndX", "Imm", "IndX", "Zero", "Zero", "Zero", "Zero", "Imp", "Imm", "Imp", "Imm", "Abs", "Abs", "Abs", "Abs"],
    ["Rel", "IndYW", "S", "S", "ZeroX", "ZeroX", "ZeroY", "ZeroY", "Imp", "AbsYW", "Imp", "S", "S", "AbsXW", "S", "S"],
    ["Imm", "IndX", "Imm", "IndX", "Zero", "Zero", "Zero", "Zero", "Imp", "Imm", "Imp", "Imm", "Abs", "Abs", "Abs", "Abs"],
    ["Rel", "IndY", "S", "IndY", "ZeroX", "ZeroX", "ZeroY", "ZeroY", "Imp", "AbsY", "Imp", "AbsY", "AbsX", "AbsX", "AbsY", "AbsY"],
    ["Imm", "IndX", "Imm", "IndX", "Zero", "Zero", "Zero", "Zero", "Imp", "Imm", "Imp", "Imm", "Abs", "Abs", "Abs", "Abs"],
    ["Rel", "IndY", "S", "IndYW", "ZeroX", "ZeroX", "ZeroX", "ZeroX", "Imp", "AbsY", "Imp", "AbsYW", "AbsX", "AbsX", "AbsXW", "AbsXW"],
    ["Imm", "IndX", "Imm", "IndX", "Zero", "Zero", "Zero", "Zero", "Imp", "Imm", "Imp", "Imm", "Abs", "Abs", "Abs", "Abs"],
    ["Rel", "IndY", "S", "IndYW", "ZeroX", "ZeroX", "ZeroX", "ZeroX", "Imp", "AbsY", "Imp", "AbsYW", "AbsX", "AbsX", "AbsXW", "AbsXW"],
];

fn mode_name(m: AddrMode) -> &'static str {
    match m {
        AddrMode::Special => "S",
        AddrMode::Imp => "Imp",
        AddrMode::Acc => "Acc",
        AddrMode::Imm => "Imm",
        AddrMode::Rel => "Rel",
        AddrMode::Zero => "Zero",
        AddrMode::ZeroX => "ZeroX",
        AddrMode::ZeroY => "ZeroY",
        AddrMode::Ind => "Ind",
        AddrMode::IndX => "IndX",
        AddrMode::IndY => "IndY",
        AddrMode::IndYW => "IndYW",
        AddrMode::Abs => "Abs",
        AddrMode::AbsX => "AbsX",
        AddrMode::AbsXW => "AbsXW",
        AddrMode::AbsY => "AbsY",
        AddrMode::AbsYW => "AbsYW",
    }
}

#[test]
fn addr_mode_matches_the_full_opcode_matrix() {
    for op in 0..=255u8 {
        let expected = ADDR_MODE_ROWS[(op >> 4) as usize][(op & 0x0f) as usize];
        assert_eq!(mode_name(addr_mode(op)), expected, "opcode 0x{op:02X}");
    }
}

#[test]
fn cpu_default_uses_mesen2_ntsc_clock_counts() {
    let cpu = Cpu::default();
    assert_eq!(cpu.start_clock_count, 6);
    assert_eq!(cpu.end_clock_count, 6);
    assert_eq!(cpu.ppu_offset, 1);
    assert_eq!(cpu.irq_mask, 0xFF);
    assert_eq!(cpu.master_clock, 0);
}

#[test]
fn cpu_set_master_clock_divider_ntsc_pal_dendy() {
    let mut cpu = Cpu::default();
    cpu.set_master_clock_divider(Region::Ntsc);
    assert_eq!(cpu.start_clock_count, 6);
    assert_eq!(cpu.end_clock_count, 6);
    cpu.set_master_clock_divider(Region::Pal);
    assert_eq!(cpu.start_clock_count, 8);
    assert_eq!(cpu.end_clock_count, 8);
    cpu.set_master_clock_divider(Region::Dendy);
    assert_eq!(cpu.start_clock_count, 7);
    assert_eq!(cpu.end_clock_count, 8);
}

#[test]
fn interrupt_lines_irq_source_bits_are_independent() {
    let mut lines = InterruptLines::default();
    assert!(!lines.has_irq_source(IrqSource::External));
    lines.set_irq_source(IrqSource::External);
    lines.set_irq_source(IrqSource::FrameCounter);
    assert!(lines.has_irq_source(IrqSource::External));
    assert!(lines.has_irq_source(IrqSource::FrameCounter));
    assert!(!lines.has_irq_source(IrqSource::Dmc));
    lines.clear_irq_source(IrqSource::External);
    assert!(!lines.has_irq_source(IrqSource::External));
    assert!(lines.has_irq_source(IrqSource::FrameCounter));
}

#[test]
fn cpu_run_dma_transfer_sets_oam_dma_state() {
    let mut cpu = Cpu::default();
    cpu.run_dma_transfer(0x07);
    assert!(cpu.sprite_dma_transfer);
    assert_eq!(cpu.sprite_dma_offset, 0x07);
    assert!(cpu.need_halt);
}

#[test]
fn cpu_start_stop_dmc_transfer_state_transitions() {
    let mut cpu = Cpu::default();
    cpu.start_dmc_transfer();
    assert!(cpu.dmc_dma_running);
    assert!(cpu.need_dummy_read);
    assert!(cpu.need_halt);
    cpu.stop_dmc_transfer();
    assert!(!cpu.dmc_dma_running);
    assert!(!cpu.need_dummy_read);
    assert!(!cpu.need_halt);

    cpu.start_dmc_transfer();
    cpu.need_halt = false;
    cpu.stop_dmc_transfer();
    assert!(cpu.dmc_dma_running, "DMA still running until aborted");
    assert!(cpu.abort_dmc_dma, "abort flag set instead of clean cancel");
}

#[test]
fn interrupt_lines_nmi_and_dmc_requests() {
    let mut lines = InterruptLines::default();
    lines.set_nmi_flag();
    lines.request_dmc_dma();
    lines.request_dmc_dma_stop();
    assert!(lines.nmi_flag && lines.dmc_dma_pending && lines.dmc_dma_stop);
    lines.clear_nmi_flag();
    assert!(!lines.nmi_flag);
    assert_eq!(IrqSource::Dmc.bits(), 0x04);
}

#[test]
fn cpu_snapshot_round_trip() {
    let mut cpu = Cpu::default();
    cpu.pc = 0xc123;
    cpu.a = 0x42;
    cpu.cycles = 0x0102_0304_0506_0708;
    cpu.master_clock = 99;
    cpu.jammed = true;
    cpu.inst_addr_mode = AddrMode::AbsYW;
    cpu.operand = 0xbeef;
    let snap = cpu.snapshot_bytes();
    assert_eq!(snap.len(), 44);
    let mut other = Cpu::default();
    assert!(other.restore_snapshot(&snap).is_ok());
    assert_eq!(other, Cpu { jammed: false, ..cpu });
    let mut jammed = Cpu::default();
    jammed.jammed = true;
    assert!(jammed.restore_snapshot(&other.snapshot_bytes()).is_ok());
    assert!(jammed.jammed);
    assert!(other.restore_snapshot(&snap[..43]).is_err());
    let mut bad = snap.clone();
    bad[41] = 17;
    assert!(other.restore_snapshot(&bad).is_err());
}

#[test]
fn cpu_reset_keeps_region_clock_counts() {
    let mut cpu = Cpu::default();
    cpu.set_master_clock_divider(Region::Pal);
    cpu.pc = 0x1234;
    cpu.need_nmi = true;
    cpu.reset();
    assert_eq!(cpu.pc, 0);
    assert!(!cpu.need_nmi);
    assert_eq!(cpu.sp, 0xfd);
    assert_eq!(cpu.start_clock_count, 8);
}

#[test]
fn adc_sets_carry_and_signed_overflow() {
    let mut cpu = Cpu::default();
    cpu.a = 0x7f;
    cpu.adc(0x01);
    assert_eq!(cpu.a, 0x80);
    assert!(cpu.flag(OVERFLOW));
    assert!(cpu.flag(NEGATIVE));
    assert!(!cpu.flag(CARRY));
    cpu.a = 0xff;
    cpu.set_flag(CARRY, false);
    cpu.adc(0x01);
    assert_eq!(cpu.a, 0x00);
    assert!(cpu.flag(CARRY));
    assert!(cpu.flag(ZERO));
    assert!(!cpu.flag(OVERFLOW));
}

#[test]
fn sbc_with_carry_set_subtracts() {
    let mut cpu = Cpu::default();
    cpu.a = 0x50;
    cpu.set_flag(CARRY, true);
    cpu.sbc(0x10);
    assert_eq!(cpu.a, 0x40);
    assert!(cpu.flag(CARRY));
    cpu.compare(0x10, 0x20);
    assert!(!cpu.flag(CARRY));
    assert!(cpu.flag(NEGATIVE));
}

#[test]
fn rotates_shift_through_carry() {
    let mut cpu = Cpu::default();
    cpu.a = 0x81;
    cpu.set_flag(CARRY, false);
    cpu.rol_acc();
    assert_eq!(cpu.a, 0x02);
    assert!(cpu.flag(CARRY));
    cpu.ror_acc();
    assert_eq!(cpu.a, 0x81);
    assert!(!cpu.flag(CARRY));
    cpu.lsr_acc();
    assert_eq!(cpu.a, 0x40);
    assert!(cpu.flag(CARRY));
    cpu.asl_acc();
    assert_eq!(cpu.a, 0x80);
    assert!(!cpu.flag(CARRY));
}

#[test]
fn memory_operation_tags() {
    assert_eq!(MemoryOperationType::DummyRead.tag(), 6);
    assert_eq!(MemoryOperationType::ExecOperand.tag(), 3);
    assert!(nesle::cpu::page_crossed(0x10ff, 0x1100));
    assert!(!nesle::cpu::page_crossed(0x1000, 0x10ff));
}
