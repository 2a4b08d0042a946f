use nesle::cpu::{Cpu, InterruptLines};
use nesle::ppu::Ppu;
use nesle::trace::{record_cpu_trace, CpuTraceLogEntry, CPU_TRACE_LOG_CAPACITY};

#[test]
fn trace_entry_captures_registers_and_ppu_flags() {
    let mut cpu = Cpu::default();
    cpu.pc = 0x8123;
    cpu.a = 0x42;
    let mut lines = InterruptLines::default();
    lines.nmi_flag = true;
    lines.irq_flag = 0x04;
    let mut ppu = Ppu::default();
    ppu.status = 0xff;
    ppu.mask = 0x1e;
    ppu.sprite0_visible = true;
    let e = CpuTraceLogEntry::capture(&cpu, &lines, &ppu);
    assert_eq!(e.pc, 0x8123);
    assert_eq!(e.a, 0x42);
    assert_eq!(e.nmi_flag, 1);
    assert_eq!(e.irq_flag, 0x04);
    assert_eq!(e.ppu_status, 0xe0);
    assert_eq!(e.ppu_mask, 0x1e);
    assert_eq!(e.ppu_sprite0_visible, 1);
    assert_eq!(e.ppu_scanline, ppu.scanline);
}

#[test]
fn trace_log_stops_at_capacity() {
    let cpu = Cpu::default();
    let lines = InterruptLines::default();
    let ppu = Ppu::default();
    let e = CpuTraceLogEntry::capture(&cpu, &lines, &ppu);
    let mut log = vec![e; CPU_TRACE_LOG_CAPACITY - 1];
    record_cpu_trace(&mut log, e);
    assert_eq!(log.len(), CPU_TRACE_LOG_CAPACITY);
    record_cpu_trace(&mut log, e);
    assert_eq!(log.len(), CPU_TRACE_LOG_CAPACITY);
}
