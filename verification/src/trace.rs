//! Per-instruction CPU trace records, each paired with the PPU beam state
//! for divergence diagnostics.
use vstd::prelude::*;
use crate::cpu::{Cpu, InterruptLines};
use crate::ppu::Ppu;

verus! {

/// Most records a trace log keeps; later instructions go unrecorded.
pub const CPU_TRACE_LOG_CAPACITY: usize = 131072;

/// One traced instruction: CPU registers and interrupt lines, with the PPU
/// beam position and flags at that moment.
#[derive(Debug, Clone, Copy, PartialEq, Eq)]
pub struct CpuTraceLogEntry {
    pub cycle_count: u64,
    pub pc: u16,
    pub sp: u8,
    pub a: u8,
    pub x: u8,
    pub y: u8,
    pub status: u8,
    pub irq_flag: u8,
    pub nmi_flag: u8,
    pub ppu_scanline: i16,
    pub ppu_cycle: u16,
    /// `$2002` flag bits only: sprite overflow, sprite-0 hit and VBlank.
    pub ppu_status: u8,
    pub ppu_sprite0_visible: u8,
    pub ppu_mask: u8,
}

impl CpuTraceLogEntry {
    /// The record of the instruction about to run.
    pub fn capture(cpu: &Cpu, interrupt: &InterruptLines, ppu: &Ppu) -> (r: Self)
        ensures
            r == (CpuTraceLogEntry {
                cycle_count: cpu.cycles,
                pc: cpu.pc,
                sp: cpu.sp,
                a: cpu.a,
                x: cpu.x,
                y: cpu.y,
                status: cpu.status,
                irq_flag: interrupt.irq_flag,
                nmi_flag: if interrupt.nmi_flag { 1 } else { 0 },
                ppu_scanline: ppu.scanline,
                ppu_cycle: ppu.cycle,
                ppu_status: ppu.status & 0xe0,
                ppu_sprite0_visible: if ppu.sprite0_visible { 1 } else { 0 },
                ppu_mask: ppu.mask,
            }),
    {
        CpuTraceLogEntry {
            cycle_count: cpu.cycles,
            pc: cpu.pc,
            sp: cpu.sp,
            a: cpu.a,
            x: cpu.x,
            y: cpu.y,
            status: cpu.status,
            irq_flag: interrupt.irq_flag,
            nmi_flag: if interrupt.nmi_flag { 1 } else { 0 },
            ppu_scanline: ppu.scanline,
            ppu_cycle: ppu.cycle,
            ppu_status: ppu.status_byte() & 0xe0,
            ppu_sprite0_visible: if ppu.sprite0_visible { 1 } else { 0 },
            ppu_mask: ppu.mask_byte(),
        }
    }
}

/// Append a record unless the log already holds `CPU_TRACE_LOG_CAPACITY`.
pub fn record_cpu_trace(log: &mut Vec<CpuTraceLogEntry>, entry: CpuTraceLogEntry)
    ensures
        old(log)@.len() == CPU_TRACE_LOG_CAPACITY ==> final(log)@ == old(log)@,
        old(log)@.len() != CPU_TRACE_LOG_CAPACITY ==> final(log)@ == old(log)@.push(entry),
{
    if log.len() == CPU_TRACE_LOG_CAPACITY {
        return;
    }
    log.push(entry);
}

} // verus!
