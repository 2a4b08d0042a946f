use vstd::prelude::*;
use crate::bytes::{push_array, lemma_u16_at_bytes, lemma_u64_at_bytes, push_u16, push_u64, read_u16, read_u64, u16_at, u16_bytes, u64_at, u64_bytes};
use crate::bus::CpuBusContext;
use crate::cartridge::Region;
use crate::mapper::Mapper;
use crate::common::error::{state_error_with, usize_to_decimal, NesleError, Result};
use crate::input::b2u;

verus! {

/// Source of a maskable interrupt request. Several sources can be asserted
/// at once; each owns one bit of `InterruptLines::irq_flag`.
#[derive(Debug, Clone, Copy, PartialEq, Eq)]
pub enum IrqSource {
    /// Cartridge mapper IRQ (scanline counters, cycle timers).
    External,
    /// APU frame counter IRQ.
    FrameCounter,
    /// APU DMC sample-end IRQ.
    Dmc,
}

pub open spec fn irq_bit(s: IrqSource) -> u8 {
    match s {
        IrqSource::External => 0x01,
        IrqSource::FrameCounter => 0x02,
        IrqSource::Dmc => 0x04,
    }
}

impl IrqSource {
    /// The bit of `irq_flag` this source owns.
    pub fn bits(self) -> (r: u8)
        ensures
            r == irq_bit(self),
    {
        match self {
            IrqSource::External => 0x01,
            IrqSource::FrameCounter => 0x02,
            IrqSource::Dmc => 0x04,
        }
    }
}

/// Interrupt and DMA request lines pushed by the PPU, APU and mapper and
/// sampled by the CPU.
#[derive(Debug, Clone)]
pub struct InterruptLines {
    /// Bitmask of asserted IRQ sources.
    pub irq_flag: u8,
    /// PPU NMI line.
    pub nmi_flag: bool,
    /// DMC DMA request.
    pub dmc_dma_pending: bool,
    /// DMC DMA abort request.
    pub dmc_dma_stop: bool,
}

impl Default for InterruptLines {
    fn default() -> (r: Self)
        ensures
            r.irq_flag == 0,
            !r.nmi_flag,
            !r.dmc_dma_pending,
            !r.dmc_dma_stop,
    {
        InterruptLines { irq_flag: 0, nmi_flag: false, dmc_dma_pending: false, dmc_dma_stop: false }
    }
}

impl InterruptLines {
    /// Assert `source`: its bit is set, every other bit and line is kept.
    pub fn set_irq_source(&mut self, source: IrqSource)
        ensures
            final(self).irq_flag == old(self).irq_flag | irq_bit(source),
            final(self).nmi_flag == old(self).nmi_flag,
            final(self).dmc_dma_pending == old(self).dmc_dma_pending,
            final(self).dmc_dma_stop == old(self).dmc_dma_stop,
    {
        self.irq_flag = self.irq_flag | source.bits();
    }

    /// Release `source`: its bit is cleared, every other bit and line is kept.
    pub fn clear_irq_source(&mut self, source: IrqSource)
        ensures
            final(self).irq_flag == old(self).irq_flag & !irq_bit(source),
            final(self).nmi_flag == old(self).nmi_flag,
            final(self).dmc_dma_pending == old(self).dmc_dma_pending,
            final(self).dmc_dma_stop == old(self).dmc_dma_stop,
    {
        self.irq_flag = self.irq_flag & !source.bits();
    }

    /// Whether `source` is asserted.
    pub fn has_irq_source(&self, source: IrqSource) -> (r: bool)
        ensures
            r == (self.irq_flag & irq_bit(source) != 0),
    {
        self.irq_flag & source.bits() != 0
    }

    pub fn set_nmi_flag(&mut self)
        ensures
            *final(self) == (InterruptLines { nmi_flag: true, ..*old(self) }),
    {
        self.nmi_flag = true;
    }

    pub fn clear_nmi_flag(&mut self)
        ensures
            *final(self) == (InterruptLines { nmi_flag: false, ..*old(self) }),
    {
        self.nmi_flag = false;
    }

    pub fn request_dmc_dma(&mut self)
        ensures
            *final(self) == (InterruptLines { dmc_dma_pending: true, ..*old(self) }),
    {
        self.dmc_dma_pending = true;
    }

    pub fn request_dmc_dma_stop(&mut self)
        ensures
            *final(self) == (InterruptLines { dmc_dma_stop: true, ..*old(self) }),
    {
        self.dmc_dma_stop = true;
    }
}

/// Setting then testing a source reports it; clearing it reports it gone;
/// neither touches the other sources.
pub proof fn lemma_irq_sources_independent(flag: u8, a: IrqSource, b: IrqSource)
    ensures
        (flag | irq_bit(a)) & irq_bit(a) != 0,
        (flag & !irq_bit(a)) & irq_bit(a) == 0,
        a != b ==> (((flag | irq_bit(a)) & irq_bit(b) != 0) <==> (flag & irq_bit(b) != 0)),
        a != b ==> (((flag & !irq_bit(a)) & irq_bit(b) != 0) <==> (flag & irq_bit(b) != 0)),
{
    let x = irq_bit(a);
    let y = irq_bit(b);
    assert(x == 1 || x == 2 || x == 4);
    assert(y == 1 || y == 2 || y == 4);
    assert((x == 1u8 || x == 2u8 || x == 4u8) ==> (flag | x) & x != 0 && (flag & !x) & x == 0) by (bit_vector);
    assert((x == 1u8 || x == 2u8 || x == 4u8) && (y == 1u8 || y == 2u8 || y == 4u8) && x != y ==> ((((flag
        | x) & y != 0) <==> (flag & y != 0)) && (((flag & !x) & y != 0) <==> (flag & y != 0)))) by (bit_vector);
}

/// CPU bus operation class, used by memory access and DMA timing.
#[derive(Debug, Clone, Copy, PartialEq, Eq)]
pub enum MemoryOperationType {
    /// Real CPU bus read.
    Read,
    /// Real CPU bus write.
    Write,
    /// Opcode fetch.
    ExecOpCode,
    /// Operand fetch after the opcode byte.
    ExecOperand,
    /// Hardware dummy read.
    DummyRead,
    /// Hardware dummy write (the old-value write of read-modify-write).
    DummyWrite,
}

impl MemoryOperationType {
    /// Numeric tag of the operation class.
    pub fn tag(self) -> (r: u8)
        ensures
            r == match self {
                MemoryOperationType::Read => 0u8,
                MemoryOperationType::Write => 1,
                MemoryOperationType::ExecOpCode => 2,
                MemoryOperationType::ExecOperand => 3,
                MemoryOperationType::DummyRead => 6,
                MemoryOperationType::DummyWrite => 7,
            },
    {
        match self {
            MemoryOperationType::Read => 0,
            MemoryOperationType::Write => 1,
            MemoryOperationType::ExecOpCode => 2,
            MemoryOperationType::ExecOperand => 3,
            MemoryOperationType::DummyRead => 6,
            MemoryOperationType::DummyWrite => 7,
        }
    }
}

/// 6502 addressing mode.
#[derive(Debug, Clone, Copy, PartialEq, Eq, PartialOrd, Ord)]
pub enum AddrMode {
    /// Special per-opcode handling (JSR, KIL, unstable stores).
    Special,
    /// Implied.
    Imp,
    /// Accumulator.
    Acc,
    /// Immediate operand byte.
    Imm,
    /// Signed branch offset.
    Rel,
    /// Zero page.
    Zero,
    /// Zero page indexed by X.
    ZeroX,
    /// Zero page indexed by Y.
    ZeroY,
    /// JMP indirect, with the `$xxFF` page-wrap bug.
    Ind,
    /// `(Indirect,X)`.
    IndX,
    /// `(Indirect),Y` read form.
    IndY,
    /// `(Indirect),Y` write form (always a dummy read).
    IndYW,
    /// Absolute.
    Abs,
    /// Absolute,X read form.
    AbsX,
    /// Absolute,X write form (always a dummy read).
    AbsXW,
    /// Absolute,Y read form.
    AbsY,
    /// Absolute,Y write form (always a dummy read).
    AbsYW,
}

/// Addressing mode of each opcode. The table follows the 6502 opcode
/// matrix: the low nibble picks the column, even and odd high nibbles
/// differ, and a handful of cells are special.
pub open spec fn addr_mode_of(op: u8) -> AddrMode {
    let hi = op / 16;
    let lo = op % 16;
    if hi % 2 == 0 {
        if lo == 0 {
            if op == 0x20 { AddrMode::Special } else if hi >= 8 { AddrMode::Imm } else { AddrMode::Imp }
        } else if lo == 1 || lo == 3 {
            AddrMode::IndX
        } else if lo == 2 {
            if hi >= 8 { AddrMode::Imm } else { AddrMode::Special }
        } else if 4 <= lo <= 7 {
            AddrMode::Zero
        } else if lo == 8 {
            AddrMode::Imp
        } else if lo == 9 || lo == 0xb {
            AddrMode::Imm
        } else if lo == 0xa {
            if hi >= 8 { AddrMode::Imp } else { AddrMode::Acc }
        } else if op == 0x6c {
            AddrMode::Ind
        } else {
            AddrMode::Abs
        }
    } else {
        if lo == 0 {
            AddrMode::Rel
        } else if lo == 1 {
            if op == 0x91 { AddrMode::IndYW } else { AddrMode::IndY }
        } else if lo == 2 {
            AddrMode::Special
        } else if lo == 3 {
            if op == 0x93 { AddrMode::Special } else if op == 0xb3 { AddrMode::IndY } else { AddrMode::IndYW }
        } else if lo == 4 || lo == 5 {
            AddrMode::ZeroX
        } else if lo == 6 || lo == 7 {
            if hi == 9 || hi == 0xb { AddrMode::ZeroY } else { AddrMode::ZeroX }
        } else if lo == 8 || lo == 0xa {
            AddrMode::Imp
        } else if lo == 9 {
            if op == 0x99 { AddrMode::AbsYW } else { AddrMode::AbsY }
        } else if lo == 0xb {
            if op == 0x9b { AddrMode::Special } else if op == 0xbb { AddrMode::AbsY } else { AddrMode::AbsYW }
        } else if lo == 0xc {
            if op == 0x9c { AddrMode::Special } else { AddrMode::AbsX }
        } else if lo == 0xd {
            if op == 0x9d { AddrMode::AbsXW } else { AddrMode::AbsX }
        } else {
            if hi == 9 { AddrMode::Special } else if hi == 0xb { AddrMode::AbsY } else { AddrMode::AbsXW }
        }
    }
}

/// Addressing mode of opcode `op`.
pub fn addr_mode(op: u8) -> (r: AddrMode)
    ensures
        r == addr_mode_of(op),
{
    let hi = op / 16;
    let lo = op % 16;
    if hi % 2 == 0 {
        if lo == 0 {
            if op == 0x20 { AddrMode::Special } else if hi >= 8 { AddrMode::Imm } else { AddrMode::Imp }
        } else if lo == 1 || lo == 3 {
            AddrMode::IndX
        } else if lo == 2 {
            if hi >= 8 { AddrMode::Imm } else { AddrMode::Special }
        } else if 4 <= lo && lo <= 7 {
            AddrMode::Zero
        } else if lo == 8 {
            AddrMode::Imp
        } else if lo == 9 || lo == 0xb {
            AddrMode::Imm
        } else if lo == 0xa {
            if hi >= 8 { AddrMode::Imp } else { AddrMode::Acc }
        } else if op == 0x6c {
            AddrMode::Ind
        } else {
            AddrMode::Abs
        }
    } else {
        if lo == 0 {
            AddrMode::Rel
        } else if lo == 1 {
            if op == 0x91 { AddrMode::IndYW } else { AddrMode::IndY }
        } else if lo == 2 {
            AddrMode::Special
        } else if lo == 3 {
            if op == 0x93 { AddrMode::Special } else if op == 0xb3 { AddrMode::IndY } else { AddrMode::IndYW }
        } else if lo == 4 || lo == 5 {
            AddrMode::ZeroX
        } else if lo == 6 || lo == 7 {
            if hi == 9 || hi == 0xb { AddrMode::ZeroY } else { AddrMode::ZeroX }
        } else if lo == 8 || lo == 0xa {
            AddrMode::Imp
        } else if lo == 9 {
            if op == 0x99 { AddrMode::AbsYW } else { AddrMode::AbsY }
        } else if lo == 0xb {
            if op == 0x9b { AddrMode::Special } else if op == 0xbb { AddrMode::AbsY } else { AddrMode::AbsYW }
        } else if lo == 0xc {
            if op == 0x9c { AddrMode::Special } else { AddrMode::AbsX }
        } else if lo == 0xd {
            if op == 0x9d { AddrMode::AbsXW } else { AddrMode::AbsX }
        } else {
            if hi == 9 { AddrMode::Special } else if hi == 0xb { AddrMode::AbsY } else { AddrMode::AbsXW }
        }
    }
}

/// Snapshot tag of an addressing mode (declaration order, 0..=16).
pub open spec fn addr_mode_tag(m: AddrMode) -> u8 {
    match m {
        AddrMode::Special => 0,
        AddrMode::Imp => 1,
        AddrMode::Acc => 2,
        AddrMode::Imm => 3,
        AddrMode::Rel => 4,
        AddrMode::Zero => 5,
        AddrMode::ZeroX => 6,
        AddrMode::ZeroY => 7,
        AddrMode::Ind => 8,
        AddrMode::IndX => 9,
        AddrMode::IndY => 10,
        AddrMode::IndYW => 11,
        AddrMode::Abs => 12,
        AddrMode::AbsX => 13,
        AddrMode::AbsXW => 14,
        AddrMode::AbsY => 15,
        AddrMode::AbsYW => 16,
    }
}

impl AddrMode {
    pub fn snapshot_tag(self) -> (r: u8)
        ensures
            r == addr_mode_tag(self),
    {
        match self {
            AddrMode::Special => 0,
            AddrMode::Imp => 1,
            AddrMode::Acc => 2,
            AddrMode::Imm => 3,
            AddrMode::Rel => 4,
            AddrMode::Zero => 5,
            AddrMode::ZeroX => 6,
            AddrMode::ZeroY => 7,
            AddrMode::Ind => 8,
            AddrMode::IndX => 9,
            AddrMode::IndY => 10,
            AddrMode::IndYW => 11,
            AddrMode::Abs => 12,
            AddrMode::AbsX => 13,
            AddrMode::AbsXW => 14,
            AddrMode::AbsY => 15,
            AddrMode::AbsYW => 16,
        }
    }

    /// Mode with the given snapshot tag; tags above 16 are refused.
    pub fn from_snapshot_tag(tag: u8) -> (r: Result<Self>)
        ensures
            r is Ok <==> tag <= 16,
            r matches Ok(m) ==> addr_mode_tag(m) == tag,
            r is Err ==> r matches Err(NesleError::InvalidState(_)),
    {
        if tag == 0 {
            Ok(AddrMode::Special)
        } else if tag == 1 {
            Ok(AddrMode::Imp)
        } else if tag == 2 {
            Ok(AddrMode::Acc)
        } else if tag == 3 {
            Ok(AddrMode::Imm)
        } else if tag == 4 {
            Ok(AddrMode::Rel)
        } else if tag == 5 {
            Ok(AddrMode::Zero)
        } else if tag == 6 {
            Ok(AddrMode::ZeroX)
        } else if tag == 7 {
            Ok(AddrMode::ZeroY)
        } else if tag == 8 {
            Ok(AddrMode::Ind)
        } else if tag == 9 {
            Ok(AddrMode::IndX)
        } else if tag == 10 {
            Ok(AddrMode::IndY)
        } else if tag == 11 {
            Ok(AddrMode::IndYW)
        } else if tag == 12 {
            Ok(AddrMode::Abs)
        } else if tag == 13 {
            Ok(AddrMode::AbsX)
        } else if tag == 14 {
            Ok(AddrMode::AbsXW)
        } else if tag == 15 {
            Ok(AddrMode::AbsY)
        } else if tag == 16 {
            Ok(AddrMode::AbsYW)
        } else {
            Err(state_error_with("invalid CPU addressing mode snapshot tag ", usize_to_decimal(tag as usize).as_str()))
        }
    }
}

pub const CARRY: u8 = 0x01;
pub const ZERO: u8 = 0x02;
pub const INTERRUPT_DISABLE: u8 = 0x04;
pub const DECIMAL: u8 = 0x08;
pub const BREAK: u8 = 0x10;
pub const UNUSED: u8 = 0x20;
pub const OVERFLOW: u8 = 0x40;
pub const NEGATIVE: u8 = 0x80;

/// 6502 register file plus the master-clock, DMA and interrupt-sampling
/// state of the cycle-accurate core.
#[derive(Debug, Clone, Copy, PartialEq, Eq)]
pub struct Cpu {
    pub pc: u16,
    pub sp: u8,
    pub a: u8,
    pub x: u8,
    pub y: u8,
    pub status: u8,
    pub cycles: u64,
    /// KIL/JAM state; permanent until reset.
    pub jammed: bool,
    /// Absolute PPU master clock advanced by CPU cycle boundaries.
    pub master_clock: u64,
    /// PPU alignment offset subtracted before PPU catch-up.
    pub ppu_offset: u8,
    /// Master clocks added at cycle start.
    pub start_clock_count: u8,
    /// Master clocks added at cycle end.
    pub end_clock_count: u8,
    /// Pending DMA halt and alignment work.
    pub need_halt: bool,
    /// OAM DMA in progress.
    pub sprite_dma_transfer: bool,
    /// OAM DMA source page.
    pub sprite_dma_offset: u8,
    /// DMC sample DMA in progress.
    pub dmc_dma_running: bool,
    /// DMC DMA cancelled mid-transfer.
    pub abort_dmc_dma: bool,
    /// DMC DMA needs an alignment dummy read.
    pub need_dummy_read: bool,
    /// Current access is a DMC DMA read.
    pub is_dmc_dma_read: bool,
    /// CPU is in a write cycle.
    pub cpu_write_flag: bool,
    /// Previous-cycle IRQ dispatch gate.
    pub prev_run_irq: bool,
    /// Live IRQ flag after masking.
    pub run_irq: bool,
    /// Prior NMI line value for edge detection.
    pub prev_nmi_flag: bool,
    /// One-cycle-delayed NMI dispatch gate.
    pub prev_need_nmi: bool,
    /// NMI rising edge detected.
    pub need_nmi: bool,
    /// Mask applied to pending IRQ sources.
    pub irq_mask: u8,
    /// Addressing mode of the instruction executing.
    pub inst_addr_mode: AddrMode,
    /// Operand or resolved address of the instruction executing.
    pub operand: u16,
}

/// `status` with `flag` set or cleared.
pub open spec fn with_flag(status: u8, flag: u8, on: bool) -> u8 {
    if on { status | flag } else { status & !flag }
}

/// `status` with Z and N set from `value`.
pub open spec fn with_zn(status: u8, value: u8) -> u8 {
    with_flag(with_flag(status, ZERO, value == 0), NEGATIVE, value & 0x80 != 0)
}

/// The power-on CPU.
pub open spec fn cpu_power_on() -> Cpu {
    Cpu {
        pc: 0,
        sp: 0xfd,
        a: 0,
        x: 0,
        y: 0,
        status: INTERRUPT_DISABLE,
        cycles: 0,
        jammed: false,
        master_clock: 0,
        ppu_offset: 1,
        start_clock_count: 6,
        end_clock_count: 6,
        need_halt: false,
        sprite_dma_transfer: false,
        sprite_dma_offset: 0,
        dmc_dma_running: false,
        abort_dmc_dma: false,
        need_dummy_read: false,
        is_dmc_dma_read: false,
        cpu_write_flag: false,
        prev_run_irq: false,
        run_irq: false,
        prev_nmi_flag: false,
        prev_need_nmi: false,
        need_nmi: false,
        irq_mask: 0xff,
        inst_addr_mode: AddrMode::Special,
        operand: 0,
    }
}

impl Default for Cpu {
    fn default() -> (r: Self)
        ensures
            r == cpu_power_on(),
    {
        Cpu {
            pc: 0,
            sp: 0xfd,
            a: 0,
            x: 0,
            y: 0,
            status: INTERRUPT_DISABLE,
            cycles: 0,
            jammed: false,
            master_clock: 0,
            ppu_offset: 1,
            start_clock_count: 6,
            end_clock_count: 6,
            need_halt: false,
            sprite_dma_transfer: false,
            sprite_dma_offset: 0,
            dmc_dma_running: false,
            abort_dmc_dma: false,
            need_dummy_read: false,
            is_dmc_dma_read: false,
            cpu_write_flag: false,
            prev_run_irq: false,
            run_irq: false,
            prev_nmi_flag: false,
            prev_need_nmi: false,
            need_nmi: false,
            irq_mask: 0xff,
            inst_addr_mode: AddrMode::Special,
            operand: 0,
        }
    }
}

/// Length of a CPU snapshot.
pub const CPU_SNAPSHOT_LEN: usize = 44;

impl Cpu {
    /// Snapshot layout: PC, SP, A, X, Y, P, cycle counter, jam flag,
    /// master clock, PPU offset and clock counts, the DMA and interrupt
    /// flags, IRQ mask, addressing-mode tag, operand.
    #[verifier::opaque]
    pub open spec fn snapshot_spec(&self) -> Seq<u8> {
        self.register_bytes() + (self.clock_bytes() + (self.flag_bytes() + u16_bytes(self.operand)))
    }

    /// Snapshot bytes 0-6: PC, SP, A, X, Y, P.
    pub open spec fn register_bytes(&self) -> Seq<u8> {
        u16_bytes(self.pc) + seq![self.sp, self.a, self.x, self.y, self.status]
    }

    /// Snapshot bytes 7-26: cycle counter, jam flag, master clock, PPU
    /// offset and clock counts.
    pub open spec fn clock_bytes(&self) -> Seq<u8> {
        u64_bytes(self.cycles) + (seq![b2u(self.jammed)] + (u64_bytes(self.master_clock) + seq![
            self.ppu_offset,
            self.start_clock_count,
            self.end_clock_count,
        ]))
    }

    /// Snapshot bytes 27-41: DMA and interrupt flags, IRQ mask, mode tag.
    pub open spec fn flag_bytes(&self) -> Seq<u8> {
        Seq::new(15, |i: int| self.flag_byte(i))
    }

    /// Byte `i` of `flag_bytes`.
    pub open spec fn flag_byte(&self, i: int) -> u8 {
        if i == 0 {
            b2u(self.need_halt)
        } else if i == 1 {
            b2u(self.sprite_dma_transfer)
        } else if i == 2 {
            self.sprite_dma_offset
        } else if i == 3 {
            b2u(self.dmc_dma_running)
        } else if i == 4 {
            b2u(self.abort_dmc_dma)
        } else if i == 5 {
            b2u(self.need_dummy_read)
        } else if i == 6 {
            b2u(self.is_dmc_dma_read)
        } else if i == 7 {
            b2u(self.cpu_write_flag)
        } else if i == 8 {
            b2u(self.prev_run_irq)
        } else if i == 9 {
            b2u(self.run_irq)
        } else if i == 10 {
            b2u(self.prev_nmi_flag)
        } else if i == 11 {
            b2u(self.prev_need_nmi)
        } else if i == 12 {
            b2u(self.need_nmi)
        } else if i == 13 {
            self.irq_mask
        } else {
            addr_mode_tag(self.inst_addr_mode)
        }
    }

    /// The CPU a valid snapshot `b` describes (mode from byte 41); the jam
    /// state is not part of the saved state and comes from `jammed`.
    pub open spec fn from_snapshot(b: Seq<u8>, mode: AddrMode, jammed: bool) -> Cpu {
        Cpu {
            pc: u16_at(b, 0),
            sp: b[2],
            a: b[3],
            x: b[4],
            y: b[5],
            status: b[6],
            cycles: u64_at(b, 7),
            jammed,
            master_clock: u64_at(b, 16),
            ppu_offset: b[24],
            start_clock_count: b[25],
            end_clock_count: b[26],
            need_halt: b[27] != 0,
            sprite_dma_transfer: b[28] != 0,
            sprite_dma_offset: b[29],
            dmc_dma_running: b[30] != 0,
            abort_dmc_dma: b[31] != 0,
            need_dummy_read: b[32] != 0,
            is_dmc_dma_read: b[33] != 0,
            cpu_write_flag: b[34] != 0,
            prev_run_irq: b[35] != 0,
            run_irq: b[36] != 0,
            prev_nmi_flag: b[37] != 0,
            prev_need_nmi: b[38] != 0,
            need_nmi: b[39] != 0,
            irq_mask: b[40],
            inst_addr_mode: mode,
            operand: u16_at(b, 42),
        }
    }

    /// Back to the power-on state, except that the PPU offset and the
    /// clock counts (region settings) are kept.
    pub fn reset(&mut self)
        ensures
            *final(self) == (Cpu {
                ppu_offset: old(self).ppu_offset,
                start_clock_count: old(self).start_clock_count,
                end_clock_count: old(self).end_clock_count,
                ..cpu_power_on()
            }),
    {
        self.pc = 0;
        self.sp = 0xfd;
        self.a = 0;
        self.x = 0;
        self.y = 0;
        self.status = INTERRUPT_DISABLE;
        self.cycles = 0;
        self.jammed = false;
        self.master_clock = 0;
        self.need_halt = false;
        self.sprite_dma_transfer = false;
        self.sprite_dma_offset = 0;
        self.dmc_dma_running = false;
        self.abort_dmc_dma = false;
        self.need_dummy_read = false;
        self.is_dmc_dma_read = false;
        self.cpu_write_flag = false;
        self.prev_run_irq = false;
        self.run_irq = false;
        self.prev_nmi_flag = false;
        self.prev_need_nmi = false;
        self.need_nmi = false;
        self.irq_mask = 0xff;
        self.inst_addr_mode = AddrMode::Special;
        self.operand = 0;
    }

    pub fn snapshot_bytes(&self) -> (r: Vec<u8>)
        ensures
            r@ == self.snapshot_spec(),
            r@.len() == CPU_SNAPSHOT_LEN,
    {
        let mut bytes: Vec<u8> = Vec::with_capacity(48);
        push_u16(&mut bytes, self.pc);
        bytes.push(self.sp);
        bytes.push(self.a);
        bytes.push(self.x);
        bytes.push(self.y);
        bytes.push(self.status);
        assert(bytes@ =~= self.register_bytes());
        let ghost head = bytes@;
        push_u64(&mut bytes, self.cycles);
        bytes.push(if self.jammed { 1u8 } else { 0u8 });
        push_u64(&mut bytes, self.master_clock);
        bytes.push(self.ppu_offset);
        bytes.push(self.start_clock_count);
        bytes.push(self.end_clock_count);
        assert(bytes@ =~= head + self.clock_bytes());
        let ghost mid = bytes@;
        self.push_flag_bytes(&mut bytes);
        push_u16(&mut bytes, self.operand);
        assert(bytes@ =~= mid + (self.flag_bytes() + u16_bytes(self.operand)));
        proof {
            lemma_snapshot_parts(*self);
        }
        assert(bytes@ =~= self.snapshot_spec());
        bytes
    }

    fn push_flag_bytes(&self, bytes: &mut Vec<u8>)
        ensures
            final(bytes)@ == old(bytes)@ + self.flag_bytes(),
    {
        let flags: [u8; 15] = [
            if self.need_halt { 1u8 } else { 0u8 },
            if self.sprite_dma_transfer { 1u8 } else { 0u8 },
            self.sprite_dma_offset,
            if self.dmc_dma_running { 1u8 } else { 0u8 },
            if self.abort_dmc_dma { 1u8 } else { 0u8 },
            if self.need_dummy_read { 1u8 } else { 0u8 },
            if self.is_dmc_dma_read { 1u8 } else { 0u8 },
            if self.cpu_write_flag { 1u8 } else { 0u8 },
            if self.prev_run_irq { 1u8 } else { 0u8 },
            if self.run_irq { 1u8 } else { 0u8 },
            if self.prev_nmi_flag { 1u8 } else { 0u8 },
            if self.prev_need_nmi { 1u8 } else { 0u8 },
            if self.need_nmi { 1u8 } else { 0u8 },
            self.irq_mask,
            self.inst_addr_mode.snapshot_tag(),
        ];
        assert(flags@ =~= self.flag_bytes());
        push_array(bytes, &flags);
    }

    /// Restore from a snapshot of exactly 44 bytes whose mode tag is
    /// known; any other input is refused and leaves the registers read so
    /// far in place. The jam state is not restored: the byte the snapshot
    /// holds for it is ignored and the current state kept.
    pub fn restore_snapshot(&mut self, bytes: &[u8]) -> (r: Result<()>)
        ensures
            r is Ok <==> (bytes@.len() == CPU_SNAPSHOT_LEN && bytes@[41] <= 16),
            r is Ok ==> exists|m: AddrMode| addr_mode_tag(m) == bytes@[41] && *final(self) == Cpu::from_snapshot(
                bytes@,
                m,
                old(self).jammed,
            ),
            bytes@.len() != CPU_SNAPSHOT_LEN ==> *final(self) == *old(self),
            r is Err ==> r matches Err(NesleError::InvalidState(_)),
    {
        if bytes.len() != CPU_SNAPSHOT_LEN {
            return Err(state_error_with("CPU snapshot length must be 44 bytes, got ", usize_to_decimal(bytes.len()).as_str()));
        }
        self.pc = read_u16(bytes, 0);
        self.sp = bytes[2];
        self.a = bytes[3];
        self.x = bytes[4];
        self.y = bytes[5];
        self.status = bytes[6];
        self.cycles = read_u64(bytes, 7);
        self.master_clock = read_u64(bytes, 16);
        self.ppu_offset = bytes[24];
        self.start_clock_count = bytes[25];
        self.end_clock_count = bytes[26];
        self.need_halt = bytes[27] != 0;
        self.sprite_dma_transfer = bytes[28] != 0;
        self.sprite_dma_offset = bytes[29];
        self.dmc_dma_running = bytes[30] != 0;
        self.abort_dmc_dma = bytes[31] != 0;
        self.need_dummy_read = bytes[32] != 0;
        self.is_dmc_dma_read = bytes[33] != 0;
        self.cpu_write_flag = bytes[34] != 0;
        self.prev_run_irq = bytes[35] != 0;
        self.run_irq = bytes[36] != 0;
        self.prev_nmi_flag = bytes[37] != 0;
        self.prev_need_nmi = bytes[38] != 0;
        self.need_nmi = bytes[39] != 0;
        self.irq_mask = bytes[40];
        self.inst_addr_mode = match AddrMode::from_snapshot_tag(bytes[41]) {
            Ok(m) => m,
            Err(e) => return Err(e),
        };
        self.operand = read_u16(bytes, 42);
        Ok(())
    }

    /// Master-clock dividers per region: NTSC 6/6, PAL 8/8, Dendy 7/8.
    pub fn set_master_clock_divider(&mut self, region: Region)
        ensures
            *final(self) == (Cpu {
                start_clock_count: match region {
                    Region::Ntsc => 6u8,
                    Region::Pal => 8,
                    Region::Dendy => 7,
                },
                end_clock_count: match region {
                    Region::Ntsc => 6u8,
                    Region::Pal => 8,
                    Region::Dendy => 8,
                },
                ..*old(self)
            }),
    {
        match region {
            Region::Ntsc => {
                self.start_clock_count = 6;
                self.end_clock_count = 6;
            },
            Region::Pal => {
                self.start_clock_count = 8;
                self.end_clock_count = 8;
            },
            Region::Dendy => {
                self.start_clock_count = 7;
                self.end_clock_count = 8;
            },
        }
    }

    /// Begin an OAM DMA from page `offset_value`.
    pub fn run_dma_transfer(&mut self, offset_value: u8)
        ensures
            *final(self) == (Cpu {
                sprite_dma_transfer: true,
                sprite_dma_offset: offset_value,
                need_halt: true,
                ..*old(self)
            }),
    {
        self.sprite_dma_transfer = true;
        self.sprite_dma_offset = offset_value;
        self.need_halt = true;
    }

    /// Begin a DMC sample DMA.
    pub fn start_dmc_transfer(&mut self)
        ensures
            *final(self) == (Cpu { dmc_dma_running: true, need_dummy_read: true, need_halt: true, ..*old(self) }),
    {
        self.dmc_dma_running = true;
        self.need_dummy_read = true;
        self.need_halt = true;
    }

    /// Cancel a DMC DMA: outright while its halt is still pending,
    /// otherwise by flagging an abort.
    pub fn stop_dmc_transfer(&mut self)
        ensures
            *final(self) == if !old(self).dmc_dma_running {
                *old(self)
            } else if old(self).need_halt {
                Cpu { dmc_dma_running: false, need_dummy_read: false, need_halt: false, ..*old(self) }
            } else {
                Cpu { abort_dmc_dma: true, ..*old(self) }
            },
    {
        if self.dmc_dma_running {
            if self.need_halt {
                self.dmc_dma_running = false;
                self.need_dummy_read = false;
                self.need_halt = false;
            } else {
                self.abort_dmc_dma = true;
            }
        }
    }

    /// Resolve one pending abort, halt or dummy-read flag before the next
    /// DMA cycle.
    pub fn process_cycle_setup(&mut self)
        ensures
            *final(self) == if old(self).abort_dmc_dma {
                Cpu {
                    dmc_dma_running: false,
                    abort_dmc_dma: false,
                    need_dummy_read: false,
                    need_halt: false,
                    ..*old(self)
                }
            } else if old(self).need_halt {
                Cpu { need_halt: false, ..*old(self) }
            } else if old(self).need_dummy_read {
                Cpu { need_dummy_read: false, ..*old(self) }
            } else {
                *old(self)
            },
    {
        if self.abort_dmc_dma {
            self.dmc_dma_running = false;
            self.abort_dmc_dma = false;
            self.need_dummy_read = false;
            self.need_halt = false;
        } else if self.need_halt {
            self.need_halt = false;
        } else if self.need_dummy_read {
            self.need_dummy_read = false;
        }
    }

    pub fn flag(&self, flag: u8) -> (r: bool)
        ensures
            r == (self.status & flag != 0),
    {
        self.status & flag != 0
    }

    pub fn set_flag(&mut self, flag: u8, enabled: bool)
        ensures
            *final(self) == (Cpu { status: with_flag(old(self).status, flag, enabled), ..*old(self) }),
    {
        if enabled {
            self.status = self.status | flag;
        } else {
            self.status = self.status & !flag;
        }
    }

    pub fn set_zn(&mut self, value: u8)
        ensures
            *final(self) == (Cpu { status: with_zn(old(self).status, value), ..*old(self) }),
    {
        self.set_flag(ZERO, value == 0);
        self.set_flag(NEGATIVE, value & 0x80 != 0);
    }

    pub fn set_a(&mut self, value: u8)
        ensures
            *final(self) == (Cpu { a: value, status: with_zn(old(self).status, value), ..*old(self) }),
    {
        self.a = value;
        self.set_zn(value);
    }

    pub fn set_x(&mut self, value: u8)
        ensures
            *final(self) == (Cpu { x: value, status: with_zn(old(self).status, value), ..*old(self) }),
    {
        self.x = value;
        self.set_zn(value);
    }

    pub fn set_y(&mut self, value: u8)
        ensures
            *final(self) == (Cpu { y: value, status: with_zn(old(self).status, value), ..*old(self) }),
    {
        self.y = value;
        self.set_zn(value);
    }

    pub fn tax(&mut self)
        ensures
            *final(self) == (Cpu { x: old(self).a, status: with_zn(old(self).status, old(self).a), ..*old(self) }),
    {
        let v = self.a;
        self.set_x(v);
    }

    pub fn tay(&mut self)
        ensures
            *final(self) == (Cpu { y: old(self).a, status: with_zn(old(self).status, old(self).a), ..*old(self) }),
    {
        let v = self.a;
        self.set_y(v);
    }

    pub fn tsx(&mut self)
        ensures
            *final(self) == (Cpu { x: old(self).sp, status: with_zn(old(self).status, old(self).sp), ..*old(self) }),
    {
        let v = self.sp;
        self.set_x(v);
    }

    pub fn txa(&mut self)
        ensures
            *final(self) == (Cpu { a: old(self).x, status: with_zn(old(self).status, old(self).x), ..*old(self) }),
    {
        let v = self.x;
        self.set_a(v);
    }

    /// TXS does not touch the flags.
    pub fn txs(&mut self)
        ensures
            *final(self) == (Cpu { sp: old(self).x, ..*old(self) }),
    {
        self.sp = self.x;
    }

    pub fn tya(&mut self)
        ensures
            *final(self) == (Cpu { a: old(self).y, status: with_zn(old(self).status, old(self).y), ..*old(self) }),
    {
        let v = self.y;
        self.set_a(v);
    }

    pub fn inx(&mut self)
        ensures
            ({
                let v = vstd::wrapping::u8_specs::wrapping_add(old(self).x, 1);
                *final(self) == (Cpu { x: v, status: with_zn(old(self).status, v), ..*old(self) })
            }),
    {
        let v = self.x.wrapping_add(1);
        self.set_x(v);
    }

    pub fn iny(&mut self)
        ensures
            ({
                let v = vstd::wrapping::u8_specs::wrapping_add(old(self).y, 1);
                *final(self) == (Cpu { y: v, status: with_zn(old(self).status, v), ..*old(self) })
            }),
    {
        let v = self.y.wrapping_add(1);
        self.set_y(v);
    }

    pub fn dex(&mut self)
        ensures
            ({
                let v = vstd::wrapping::u8_specs::wrapping_sub(old(self).x, 1);
                *final(self) == (Cpu { x: v, status: with_zn(old(self).status, v), ..*old(self) })
            }),
    {
        let v = self.x.wrapping_sub(1);
        self.set_x(v);
    }

    pub fn dey(&mut self)
        ensures
            ({
                let v = vstd::wrapping::u8_specs::wrapping_sub(old(self).y, 1);
                *final(self) == (Cpu { y: v, status: with_zn(old(self).status, v), ..*old(self) })
            }),
    {
        let v = self.y.wrapping_sub(1);
        self.set_y(v);
    }

    /// ASL A: bit 7 to carry, shift left.
    pub fn asl_acc(&mut self)
        ensures
            *final(self) == asl_result(*old(self)),
    {
        let a = self.a;
        self.set_flag(CARRY, a & 0x80 != 0);
        assert(a << 1 == ((a as int * 2) % 256) as u8) by (bit_vector);
        self.set_a(a << 1);
    }

    /// LSR A: bit 0 to carry, shift right.
    pub fn lsr_acc(&mut self)
        ensures
            *final(self) == lsr_result(*old(self)),
    {
        let a = self.a;
        self.set_flag(CARRY, a & 0x01 != 0);
        assert(a >> 1 == a / 2) by (bit_vector);
        self.set_a(a >> 1);
    }

    /// ROL A: rotate left through carry.
    pub fn rol_acc(&mut self)
        ensures
            *final(self) == rol_result(*old(self)),
    {
        let carry_in: u8 = if self.flag(CARRY) { 1 } else { 0 };
        let a = self.a;
        self.set_flag(CARRY, a & 0x80 != 0);
        assert((carry_in == 0 || carry_in == 1) ==> (a << 1) | carry_in == ((a as int * 2 + carry_in) % 256) as u8)
            by (bit_vector);
        self.set_a((a << 1) | carry_in);
    }

    /// ROR A: rotate right through carry.
    pub fn ror_acc(&mut self)
        ensures
            *final(self) == ror_result(*old(self)),
    {
        let carry_in: u8 = if self.flag(CARRY) { 0x80 } else { 0 };
        let a = self.a;
        self.set_flag(CARRY, a & 0x01 != 0);
        assert((carry_in == 0 || carry_in == 0x80) ==> (a >> 1) | carry_in == (a / 2 + carry_in) as u8) by (bit_vector);
        self.set_a((a >> 1) | carry_in);
    }

    pub fn jmp_abs(&mut self)
        ensures
            *final(self) == (Cpu { pc: old(self).operand, ..*old(self) }),
    {
        self.pc = self.operand;
    }

    /// KIL: the CPU jams and backs PC up to the opcode.
    pub fn hlt_op(&mut self)
        ensures
            *final(self) == (Cpu {
                jammed: true,
                pc: vstd::wrapping::u16_specs::wrapping_sub(old(self).pc, 1),
                prev_run_irq: false,
                prev_need_nmi: false,
                ..*old(self)
            }),
    {
        self.jammed = true;
        self.pc = self.pc.wrapping_sub(1);
        self.prev_run_irq = false;
        self.prev_need_nmi = false;
    }

    /// BIT: Z from `A & value`, V and N from bits 6 and 7 of `value`.
    pub fn bit(&mut self, value: u8)
        ensures
            *final(self) == (Cpu {
                status: with_flag(
                    with_flag(with_flag(old(self).status, ZERO, old(self).a & value == 0), OVERFLOW, value & OVERFLOW != 0),
                    NEGATIVE,
                    value & NEGATIVE != 0,
                ),
                ..*old(self)
            }),
    {
        let a = self.a;
        self.set_flag(ZERO, a & value == 0);
        self.set_flag(OVERFLOW, value & OVERFLOW != 0);
        self.set_flag(NEGATIVE, value & NEGATIVE != 0);
    }

    /// ADC (binary mode): A + value + C; C from the ninth bit, V from a
    /// sign change that the operands do not share.
    #[verifier::rlimit(50)]
    pub fn adc(&mut self, value: u8)
        ensures
            *final(self) == adc_result(*old(self), value),
    {
        let carry: u16 = if self.flag(CARRY) { 1 } else { 0 };
        let a = self.a;
        let sum: u16 = (a as u16) + (value as u16) + carry;
        let result = (sum % 256) as u8;
        let v = (!(a ^ value) & (a ^ result) & 0x80) != 0;
        let mut st = self.status;
        st = if sum > 0xff { st | CARRY } else { st & !CARRY };
        st = if v { st | OVERFLOW } else { st & !OVERFLOW };
        st = if result == 0 { st | ZERO } else { st & !ZERO };
        st = if result & 0x80 != 0 { st | NEGATIVE } else { st & !NEGATIVE };
        self.a = result;
        self.status = st;
    }

    /// SBC is ADC of the complement.
    pub fn sbc(&mut self, value: u8)
        ensures
            *final(self) == adc_result(*old(self), !value),
    {
        self.adc(!value);
    }

    /// CMP/CPX/CPY: C when `register >= value`, Z and N from the
    /// difference.
    pub fn compare(&mut self, register: u8, value: u8)
        ensures
            *final(self) == compare_result(*old(self), register, value),
    {
        let result = register.wrapping_sub(value);
        self.set_flag(CARRY, register >= value);
        self.set_zn(result);
    }
}

/// CPU after ASL A.
pub open spec fn asl_result(c: Cpu) -> Cpu {
    let v = ((c.a as int * 2) % 256) as u8;
    Cpu { a: v, status: with_zn(with_flag(c.status, CARRY, c.a & 0x80 != 0), v), ..c }
}

/// CPU after LSR A.
pub open spec fn lsr_result(c: Cpu) -> Cpu {
    let v = c.a / 2;
    Cpu { a: v, status: with_zn(with_flag(c.status, CARRY, c.a & 0x01 != 0), v), ..c }
}

/// CPU after ROL A.
pub open spec fn rol_result(c: Cpu) -> Cpu {
    let carry_in: int = if c.status & CARRY != 0 { 1 } else { 0 };
    let v = ((c.a as int * 2 + carry_in) % 256) as u8;
    Cpu { a: v, status: with_zn(with_flag(c.status, CARRY, c.a & 0x80 != 0), v), ..c }
}

/// CPU after ROR A.
pub open spec fn ror_result(c: Cpu) -> Cpu {
    let carry_in: int = if c.status & CARRY != 0 { 0x80 } else { 0 };
    let v = (c.a / 2 + carry_in) as u8;
    Cpu { a: v, status: with_zn(with_flag(c.status, CARRY, c.a & 0x01 != 0), v), ..c }
}

/// CPU after CMP/CPX/CPY of `register` against `value`.
pub open spec fn compare_result(c: Cpu, register: u8, value: u8) -> Cpu {
    Cpu {
        status: with_zn(with_flag(c.status, CARRY, register >= value), vstd::wrapping::u8_specs::wrapping_sub(register, value)),
        ..c
    }
}

/// The carry flag after a flag update and a Z/N update reads as set, and
/// the flags outside C, Z and N keep their values.
proof fn lemma_carry_then_zn(status: u8, on: bool, value: u8)
    ensures
        (with_zn(with_flag(status, CARRY, on), value) & CARRY != 0) == on,
        with_zn(with_flag(status, CARRY, on), value) & 0x3c == status & 0x3c,
        (with_zn(with_flag(status, CARRY, on), value) & ZERO != 0) == (value == 0),
        (with_zn(with_flag(status, CARRY, on), value) & NEGATIVE != 0) == (value >= 0x80),
{
    crate::bits::lemma_law_bits();
    let s1 = with_flag(status, CARRY, on);
    let s2 = with_flag(s1, ZERO, value == 0);
    let s3 = with_flag(s2, NEGATIVE, value & 0x80 != 0);
    assert(with_zn(status, value) == with_flag(with_flag(status, ZERO, value == 0), NEGATIVE, value & 0x80 != 0));
    assert(s1 & CARRY != 0 <==> on);
    assert(s2 & CARRY == s1 & CARRY);
    assert(s3 & CARRY == s2 & CARRY);
    assert(s1 & 0x3c == status & 0x3c);
    assert(s2 & 0x3c == s1 & 0x3c);
    assert(s3 & 0x3c == s2 & 0x3c);
    law_zero_negative(s1, value);
}

/// Shifts and rotates of A: ASL and ROL move bit 7 into C, LSR and ROR move
/// bit 0 into C; ASL and LSR shift in a zero, ROL and ROR shift in the old
/// carry; Z and N follow the new A, the flags outside C, Z and N and every
/// other register keep their values.
pub proof fn law_shifts(c: Cpu)
    ensures
        ({
            let cin: int = if c.status & CARRY != 0 { 1 } else { 0 };
            let asl = asl_result(c);
            let lsr = lsr_result(c);
            let rol = rol_result(c);
            let ror = ror_result(c);
            &&& asl.a == (2 * c.a) % 256 && (asl.status & CARRY != 0) == (c.a >= 0x80)
            &&& lsr.a == c.a / 2 && (lsr.status & CARRY != 0) == (c.a % 2 == 1)
            &&& rol.a == (2 * c.a + cin) % 256 && (rol.status & CARRY != 0) == (c.a >= 0x80)
            &&& ror.a == c.a / 2 + 128 * cin && (ror.status & CARRY != 0) == (c.a % 2 == 1)
            &&& forall|r: Cpu| r == asl || r == lsr || r == rol || r == ror ==> {
                &&& (r.status & ZERO != 0) == (r.a == 0)
                &&& (r.status & NEGATIVE != 0) == (r.a >= 0x80)
                &&& r.status & 0x3c == c.status & 0x3c
                &&& r == (Cpu { a: r.a, status: r.status, ..c })
            }
        }),
{
    crate::bits::lemma_law_bits();
    crate::bits::lemma_u8_bits();
    assert(c.a & 0x80 == (if c.a >= 0x80 { 0x80u8 } else { 0u8 }));
    assert(c.a & 0x01 == c.a % 2);
    lemma_carry_then_zn(c.status, c.a & 0x80 != 0, asl_result(c).a);
    lemma_carry_then_zn(c.status, c.a & 0x01 != 0, lsr_result(c).a);
    lemma_carry_then_zn(c.status, c.a & 0x80 != 0, rol_result(c).a);
    lemma_carry_then_zn(c.status, c.a & 0x01 != 0, ror_result(c).a);
}

/// A rotate undone: ROR after ROL, and ROL after ROR, give back the
/// original A and carry.
pub proof fn law_rotate_roundtrip(c: Cpu)
    ensures
        ror_result(rol_result(c)).a == c.a,
        (ror_result(rol_result(c)).status & CARRY != 0) == (c.status & CARRY != 0),
        rol_result(ror_result(c)).a == c.a,
        (rol_result(ror_result(c)).status & CARRY != 0) == (c.status & CARRY != 0),
{
    crate::bits::lemma_law_bits();
    crate::bits::lemma_u8_bits();
    let cin: int = if c.status & CARRY != 0 { 1 } else { 0 };
    let l = rol_result(c);
    let r = ror_result(c);
    assert(c.a & 0x80 == (if c.a >= 0x80 { 0x80u8 } else { 0u8 }));
    assert(c.a & 0x01 == c.a % 2);
    lemma_carry_then_zn(c.status, c.a & 0x80 != 0, l.a);
    lemma_carry_then_zn(c.status, c.a & 0x01 != 0, r.a);
    assert(l.a == (2 * c.a + cin) % 256);
    assert(r.a == c.a / 2 + 128 * cin);
    assert(l.a & 0x01 == l.a % 2);
    assert(r.a & 0x80 == (if r.a >= 0x80 { 0x80u8 } else { 0u8 }));
    lemma_carry_then_zn(l.status, l.a & 0x01 != 0, ror_result(l).a);
    lemma_carry_then_zn(r.status, r.a & 0x80 != 0, rol_result(r).a);
}

/// Compare: C is set exactly when the register is at least the operand
/// (unsigned), Z exactly when they are equal, N from bit 7 of their
/// difference modulo 256; nothing else changes.
pub proof fn law_compare(c: Cpu, register: u8, value: u8)
    ensures
        ({
            let r = compare_result(c, register, value);
            &&& (r.status & CARRY != 0) == (register >= value)
            &&& (r.status & ZERO != 0) == (register == value)
            &&& (r.status & NEGATIVE != 0) == ((register - value + 256) % 256 >= 0x80)
            &&& r.status & 0x3c == c.status & 0x3c
            &&& r == (Cpu { status: r.status, ..c })
        }),
{
    let d = vstd::wrapping::u8_specs::wrapping_sub(register, value);
    assert(d == (register - value + 256) % 256);
    lemma_carry_then_zn(c.status, register >= value, d);
}

/// CPU after ADC of `value` (binary mode).
pub open spec fn adc_result(c: Cpu, value: u8) -> Cpu {
    let carry: int = if c.status & CARRY != 0 { 1 } else { 0 };
    let sum = c.a as int + value as int + carry;
    let result = (sum % 256) as u8;
    let v = (!(c.a ^ value) & (c.a ^ result) & 0x80) != 0;
    Cpu { a: result, status: with_zn(with_flag(with_flag(c.status, CARRY, sum > 0xff), OVERFLOW, v), result), ..c }
}

/// Setting or clearing a status flag: a single-bit flag reads back as
/// requested and every other bit keeps its value.
pub proof fn law_status_flag(status: u8, flag: u8, on: bool)
    requires
        flag == CARRY || flag == ZERO || flag == INTERRUPT_DISABLE || flag == DECIMAL || flag == BREAK
            || flag == UNUSED || flag == OVERFLOW || flag == NEGATIVE,
    ensures
        (with_flag(status, flag, on) & flag != 0) == on,
        with_flag(status, flag, on) & !flag == status & !flag,
{
    crate::bits::lemma_law_bits();
    assert((status | flag) & flag == flag);
    assert((status & !flag) & flag == 0);
}

/// Z and N after a result: Z exactly when the result is zero, N exactly when
/// its bit 7 is set; the other flags keep their values.
pub proof fn law_zero_negative(status: u8, value: u8)
    ensures
        (with_zn(status, value) & ZERO != 0) == (value == 0),
        (with_zn(status, value) & NEGATIVE != 0) == (value >= 0x80),
        with_zn(status, value) & 0x7d == status & 0x7d,
{
    crate::bits::lemma_law_bits();
    let s1 = with_flag(status, ZERO, value == 0);
    let s2 = with_flag(s1, NEGATIVE, value & 0x80 != 0);
    assert(with_zn(status, value) == s2);
    assert(s1 & ZERO != 0 <==> value == 0);
    assert(s2 & ZERO == s1 & ZERO);
    assert(s2 & NEGATIVE != 0 <==> value & 0x80 != 0);
    assert(value & 0x80 == (if value >= 0x80 { 0x80u8 } else { 0u8 }));
    assert(s1 & 0x7d == status & 0x7d);
    assert(s2 & 0x7d == s1 & 0x7d);
}

/// ADC adds the operand and the carry to A: A becomes the low byte of the
/// sum, C is set exactly when the unsigned sum passes 0xFF, V exactly when
/// both addends have the same sign and the result's sign differs, Z and N
/// follow the result, and nothing else changes.
pub proof fn law_adc_adds_with_carry(c: Cpu, value: u8)
    ensures
        ({
            let carry_in: int = if c.status & CARRY != 0 { 1 } else { 0 };
            let sum: int = c.a + value + carry_in;
            let r = adc_result(c, value);
            &&& r.a == sum % 256
            &&& (r.status & CARRY != 0) == (sum > 0xff)
            &&& (r.status & OVERFLOW != 0) == ((c.a >= 0x80) == (value >= 0x80) && (r.a >= 0x80) != (c.a >= 0x80))
            &&& (r.status & ZERO != 0) == (r.a == 0)
            &&& (r.status & NEGATIVE != 0) == (r.a >= 0x80)
            &&& r.status & 0x3c == c.status & 0x3c
            &&& r == (Cpu { a: r.a, status: r.status, ..c })
        }),
{
    crate::bits::lemma_law_bits();
    let carry_in: int = if c.status & CARRY != 0 { 1 } else { 0 };
    let sum: int = c.a + value + carry_in;
    let result = (sum % 256) as u8;
    let v = (!(c.a ^ value) & (c.a ^ result) & 0x80) != 0;
    let s1 = with_flag(c.status, CARRY, sum > 0xff);
    let s2 = with_flag(s1, OVERFLOW, v);
    let s3 = with_flag(s2, ZERO, result == 0);
    let s4 = with_flag(s3, NEGATIVE, result & 0x80 != 0);
    assert(adc_result(c, value).status == s4);
    assert(s1 & CARRY != 0 <==> sum > 0xff);
    assert(s2 & CARRY == s1 & CARRY);
    assert(s3 & CARRY == s2 & CARRY);
    assert(s4 & CARRY == s3 & CARRY);
    assert(s2 & OVERFLOW != 0 <==> v);
    assert(s3 & OVERFLOW == s2 & OVERFLOW);
    assert(s4 & OVERFLOW == s3 & OVERFLOW);
    assert(s3 & ZERO != 0 <==> result == 0);
    assert(s4 & ZERO == s3 & ZERO);
    assert(s4 & NEGATIVE != 0 <==> result & 0x80 != 0);
    assert(s1 & 0x3c == c.status & 0x3c);
    assert(s2 & 0x3c == s1 & 0x3c);
    assert(s3 & 0x3c == s2 & 0x3c);
    assert(s4 & 0x3c == s3 & 0x3c);
    assert(result & 0x80 == (if result >= 0x80 { 0x80u8 } else { 0u8 }));
    assert(c.a & 0x80 == (if c.a >= 0x80 { 0x80u8 } else { 0u8 }));
    assert(value & 0x80 == (if value >= 0x80 { 0x80u8 } else { 0u8 }));
}

/// SBC is ADC of the complement: A becomes `A - value - borrow` modulo 256,
/// where the borrow is the inverted carry; C is set exactly when no borrow
/// occurs (`A >= value + borrow`), V exactly when the operands have
/// different signs and the result's sign differs from A's.
pub proof fn law_sbc_subtracts_with_borrow(c: Cpu, value: u8)
    ensures
        ({
            let borrow: int = if c.status & CARRY != 0 { 0 } else { 1 };
            let diff: int = c.a - value - borrow;
            let r = adc_result(c, !value);
            &&& r.a == (diff + 256) % 256
            &&& (r.status & CARRY != 0) == (diff >= 0)
            &&& (r.status & OVERFLOW != 0) == ((c.a >= 0x80) != (value >= 0x80) && (r.a >= 0x80) != (c.a >= 0x80))
            &&& (r.status & ZERO != 0) == (r.a == 0)
            &&& (r.status & NEGATIVE != 0) == (r.a >= 0x80)
        }),
{
    crate::bits::lemma_law_bits();
    law_adc_adds_with_carry(c, !value);
    assert(!value == (255 - value) as u8);
}

/// Whether `base` and `addr` lie on different 256-byte pages.
pub fn page_crossed(base: u16, addr: u16) -> (r: bool)
    ensures
        r == (base / 256 != addr / 256),
{
    assert((base & 0xff00 != addr & 0xff00) == (base / 256 != addr / 256)) by (bit_vector);
    base & 0xff00 != addr & 0xff00
}

proof fn lemma_snapshot_words(c: Cpu)
    ensures
        u16_at(c.snapshot_spec(), 0) == c.pc,
        u64_at(c.snapshot_spec(), 7) == c.cycles,
        u64_at(c.snapshot_spec(), 16) == c.master_clock,
        u16_at(c.snapshot_spec(), 42) == c.operand,
{
    lemma_snapshot_pc(c);
    lemma_snapshot_cycles(c);
    lemma_snapshot_master_clock(c);
    lemma_snapshot_operand(c);
}

proof fn lemma_snapshot_pc(c: Cpu)
    ensures
        u16_at(c.snapshot_spec(), 0) == c.pc,
{
    reveal(Cpu::snapshot_spec);
    assert(c.snapshot_spec().subrange(0, 2) =~= u16_bytes(c.pc));
    lemma_u16_at_bytes(c.snapshot_spec(), 0, c.pc);
}

proof fn lemma_snapshot_cycles(c: Cpu)
    ensures
        u64_at(c.snapshot_spec(), 7) == c.cycles,
{
    reveal(Cpu::snapshot_spec);
    assert(c.snapshot_spec().subrange(7, 15) =~= u64_bytes(c.cycles));
    lemma_u64_at_bytes(c.snapshot_spec(), 7, c.cycles);
}

proof fn lemma_snapshot_master_clock(c: Cpu)
    ensures
        u64_at(c.snapshot_spec(), 16) == c.master_clock,
{
    reveal(Cpu::snapshot_spec);
    assert(c.snapshot_spec().subrange(16, 24) =~= u64_bytes(c.master_clock));
    lemma_u64_at_bytes(c.snapshot_spec(), 16, c.master_clock);
}

proof fn lemma_snapshot_operand(c: Cpu)
    ensures
        u16_at(c.snapshot_spec(), 42) == c.operand,
{
    reveal(Cpu::snapshot_spec);
    assert(c.snapshot_spec().subrange(42, 44) =~= u16_bytes(c.operand));
    lemma_u16_at_bytes(c.snapshot_spec(), 42, c.operand);
}

proof fn lemma_snapshot_register_bytes(c: Cpu)
    ensures
        c.snapshot_spec()[2] == c.sp,
        c.snapshot_spec()[3] == c.a,
        c.snapshot_spec()[4] == c.x,
        c.snapshot_spec()[5] == c.y,
        c.snapshot_spec()[6] == c.status,
        c.snapshot_spec()[15] == b2u(c.jammed),
        c.snapshot_spec()[24] == c.ppu_offset,
        c.snapshot_spec()[25] == c.start_clock_count,
        c.snapshot_spec()[26] == c.end_clock_count,
{
    reveal(Cpu::snapshot_spec);
}

proof fn lemma_snapshot_flag_bytes(c: Cpu)
    ensures
        c.snapshot_spec().len() == CPU_SNAPSHOT_LEN,
        c.snapshot_spec().subrange(27, 42) == c.flag_bytes(),
{
    reveal(Cpu::snapshot_spec);
    assert(c.snapshot_spec().subrange(27, 42) =~= c.flag_bytes());
}

proof fn lemma_decode_words(c: Cpu)
    ensures
        ({
            let d = Cpu::from_snapshot(c.snapshot_spec(), c.inst_addr_mode, c.jammed);
            d.pc == c.pc && d.cycles == c.cycles && d.master_clock == c.master_clock && d.operand == c.operand
        }),
{
    lemma_snapshot_words(c);
}

proof fn lemma_decode_registers(c: Cpu)
    ensures
        ({
            let d = Cpu::from_snapshot(c.snapshot_spec(), c.inst_addr_mode, c.jammed);
            &&& d.sp == c.sp && d.a == c.a && d.x == c.x && d.y == c.y && d.status == c.status
            &&& d.jammed == c.jammed && d.ppu_offset == c.ppu_offset
            &&& d.start_clock_count == c.start_clock_count && d.end_clock_count == c.end_clock_count
        }),
{
    lemma_snapshot_register_bytes(c);
}

proof fn lemma_decode_flags(c: Cpu)
    ensures
        ({
            let d = Cpu::from_snapshot(c.snapshot_spec(), c.inst_addr_mode, c.jammed);
            &&& d.need_halt == c.need_halt && d.sprite_dma_transfer == c.sprite_dma_transfer
            &&& d.sprite_dma_offset == c.sprite_dma_offset && d.dmc_dma_running == c.dmc_dma_running
            &&& d.abort_dmc_dma == c.abort_dmc_dma && d.need_dummy_read == c.need_dummy_read
            &&& d.is_dmc_dma_read == c.is_dmc_dma_read && d.cpu_write_flag == c.cpu_write_flag
            &&& d.prev_run_irq == c.prev_run_irq && d.run_irq == c.run_irq
            &&& d.prev_nmi_flag == c.prev_nmi_flag && d.prev_need_nmi == c.prev_need_nmi
            &&& d.need_nmi == c.need_nmi && d.irq_mask == c.irq_mask
        }),
{
    lemma_flag_bytes_at(c);
}

proof fn lemma_flag_bytes_at(c: Cpu)
    ensures
        c.snapshot_spec()[27] == b2u(c.need_halt),
        c.snapshot_spec()[28] == b2u(c.sprite_dma_transfer),
        c.snapshot_spec()[29] == c.sprite_dma_offset,
        c.snapshot_spec()[30] == b2u(c.dmc_dma_running),
        c.snapshot_spec()[31] == b2u(c.abort_dmc_dma),
        c.snapshot_spec()[32] == b2u(c.need_dummy_read),
        c.snapshot_spec()[33] == b2u(c.is_dmc_dma_read),
        c.snapshot_spec()[34] == b2u(c.cpu_write_flag),
        c.snapshot_spec()[35] == b2u(c.prev_run_irq),
        c.snapshot_spec()[36] == b2u(c.run_irq),
        c.snapshot_spec()[37] == b2u(c.prev_nmi_flag),
        c.snapshot_spec()[38] == b2u(c.prev_need_nmi),
        c.snapshot_spec()[39] == b2u(c.need_nmi),
        c.snapshot_spec()[40] == c.irq_mask,
{
    lemma_snapshot_flag_bytes(c);
    let s = c.snapshot_spec();
    let t = s.subrange(27, 42);
    assert(s[27] == t[0]);
    assert(s[28] == t[1]);
    assert(s[29] == t[2]);
    assert(s[30] == t[3]);
    assert(s[31] == t[4]);
    assert(s[32] == t[5]);
    assert(s[33] == t[6]);
    assert(s[34] == t[7]);
    assert(s[35] == t[8]);
    assert(s[36] == t[9]);
    assert(s[37] == t[10]);
    assert(s[38] == t[11]);
    assert(s[39] == t[12]);
    assert(s[40] == t[13]);
}

proof fn lemma_snapshot_decodes(c: Cpu)
    ensures
        Cpu::from_snapshot(c.snapshot_spec(), c.inst_addr_mode, c.jammed) == c,
{
    lemma_decode_words(c);
    lemma_decode_registers(c);
    lemma_decode_flags(c);
}

proof fn lemma_snapshot_parts(c: Cpu)
    ensures
        c.snapshot_spec() == c.register_bytes() + (c.clock_bytes() + (c.flag_bytes() + u16_bytes(c.operand))),
{
    reveal(Cpu::snapshot_spec);
}

/// A snapshot restores to the CPU it was taken from, whatever jam state
/// `j` the restoring CPU keeps.
pub proof fn lemma_cpu_snapshot_roundtrip(c: Cpu, j: bool)
    ensures
        c.snapshot_spec().len() == CPU_SNAPSHOT_LEN,
        c.snapshot_spec()[41] <= 16,
        forall|m: AddrMode|
            addr_mode_tag(m) == c.snapshot_spec()[41] ==> Cpu::from_snapshot(c.snapshot_spec(), m, j) == (Cpu {
                jammed: j,
                ..c
            }),
{
    lemma_snapshot_flag_bytes(c);
    lemma_snapshot_decodes(c);
    let s = c.snapshot_spec();
    assert(s[41] == s.subrange(27, 42)[14]);
    assert(c.flag_bytes()[14] == s[41]);
    assert forall|m: AddrMode| addr_mode_tag(m) == s[41] implies Cpu::from_snapshot(s, m, j) == (Cpu {
        jammed: j,
        ..c
    }) by {
        assert(m == c.inst_addr_mode);
    }
}

/// Master clocks a cycle half adds: `base + 1` or `base - 1` (wrapping).
pub open spec fn half_clocks(base: u8, plus: bool) -> u64 {
    if plus { (base + 1) as u64 } else { ((base as int - 1) % 0x1_0000_0000_0000_0000) as u64 }
}

/// `a + b` wrapped to 64 bits.
pub open spec fn add64(a: u64, b: u64) -> u64 {
    ((a + b) % 0x1_0000_0000_0000_0000) as u64
}

/// `a - b` wrapped to 64 bits.
pub open spec fn sub64(a: u64, b: u64) -> u64 {
    ((a - b) % 0x1_0000_0000_0000_0000) as u64
}

impl Cpu {
    /// First half of a CPU bus cycle: the master clock advances (one clock
    /// less on reads, one more on writes), the cycle count ticks, the PPU
    /// catches up, host input committed by the PPU goes live, and the
    /// board's clock hook, the audio unit and the controller strobe each
    /// see one cycle.
    #[verifier::spinoff_prover]
    #[verifier::rlimit(100)]
    pub fn start_cpu_cycle<M: Mapper>(&mut self, is_read: bool, ctx: &mut CpuBusContext<'_, M>)
        requires
            old(ctx).mapper.inv(),
            old(ctx).ppu.wf(),
            old(ctx).ppu.master_clock <= u64::MAX - 256,
            sub64(add64(old(self).master_clock, half_clocks(old(self).start_clock_count, !is_read)), old(self).ppu_offset as u64)
                <= u64::MAX - 256,
            old(ctx).apu.wf(),
            old(ctx).apu.cycles < old(ctx).apu.previous_cycle + 0x7ffe_0000,
        ensures
            final(ctx).mapper.inv(),
            final(ctx).ppu.wf(),
            final(ctx).apu.wf(),
            final(self).master_clock == add64(old(self).master_clock, half_clocks(old(self).start_clock_count, !is_read)),
            final(self).cycles == add64(old(self).cycles, 1),
            final(ctx).cpu_cycle_count == final(self).cycles,
            final(ctx).master_clock == final(self).master_clock,
            final(ctx).ppu.mapper_cpu_cycle_count == final(self).cycles,
            final(ctx).apu.cycles == add64(old(ctx).apu.cycles, 1),
            *final(self) == (Cpu { master_clock: final(self).master_clock, cycles: final(self).cycles, ..*old(self) }),
    {
        let start = self.start_clock_count as u64;
        let clocks: u64 = if is_read { start.wrapping_sub(1) } else { start.wrapping_add(1) };
        self.master_clock = self.master_clock.wrapping_add(clocks);
        self.cycles = self.cycles.wrapping_add(1);
        ctx.cpu_cycle_count = self.cycles;
        ctx.master_clock = self.master_clock;
        let target = self.master_clock.wrapping_sub(self.ppu_offset as u64);
        let c = self.cycles;
        let hook = ctx.mapper_has_vram_addr_hook;
        ctx.ppu.run_with_cpu_cycle(target, ctx.mapper, ctx.interrupt, c, hook);
        if ctx.ppu.pending_input_commit {
            ctx.ppu.pending_input_commit = false;
            ctx.controllers.commit_pending_input();
        }
        if ctx.mapper_has_cpu_clock_hook {
            ctx.mapper.process_cpu_clock(ctx.interrupt);
        }
        ctx.apu.process_cpu_clock(ctx.interrupt);
        ctx.controllers.process_pending_write();
    }

    /// Second half of a CPU bus cycle: the master clock advances (one clock
    /// more on reads, one less on writes), the PPU catches up, then the NMI
    /// line's rising edge and the masked IRQ line are sampled, each keeping
    /// its previous sample.
    #[verifier::spinoff_prover]
    #[verifier::rlimit(100)]
    pub fn end_cpu_cycle<M: Mapper>(&mut self, is_read: bool, ctx: &mut CpuBusContext<'_, M>)
        requires
            old(ctx).mapper.inv(),
            old(ctx).ppu.wf(),
            old(ctx).ppu.master_clock <= u64::MAX - 256,
            sub64(add64(old(self).master_clock, half_clocks(old(self).end_clock_count, is_read)), old(self).ppu_offset as u64)
                <= u64::MAX - 256,
        ensures
            final(ctx).mapper.inv(),
            final(ctx).ppu.wf(),
            *final(self) == (Cpu {
                master_clock: add64(old(self).master_clock, half_clocks(old(self).end_clock_count, is_read)),
                prev_need_nmi: old(self).need_nmi,
                need_nmi: old(self).need_nmi || (!old(self).prev_nmi_flag && final(ctx).interrupt.nmi_flag),
                prev_nmi_flag: final(ctx).interrupt.nmi_flag,
                prev_run_irq: old(self).run_irq,
                run_irq: final(ctx).interrupt.irq_flag & old(self).irq_mask != 0 && old(self).status & INTERRUPT_DISABLE == 0,
                ..*old(self)
            }),
    {
        let end = self.end_clock_count as u64;
        let clocks: u64 = if is_read { end.wrapping_add(1) } else { end.wrapping_sub(1) };
        self.master_clock = self.master_clock.wrapping_add(clocks);
        let target = self.master_clock.wrapping_sub(self.ppu_offset as u64);
        let c = self.cycles;
        let hook = ctx.mapper_has_vram_addr_hook;
        ctx.ppu.run_with_cpu_cycle(target, ctx.mapper, ctx.interrupt, c, hook);
        let nmi = ctx.interrupt.nmi_flag;
        let irq = ctx.interrupt.irq_flag;
        self.sample_interrupt_lines(nmi, irq);
    }

    /// Sample the NMI line's rising edge and the masked IRQ line, keeping
    /// the previous samples.
    fn sample_interrupt_lines(&mut self, nmi: bool, irq: u8)
        ensures
            *final(self) == (Cpu {
                prev_need_nmi: old(self).need_nmi,
                need_nmi: old(self).need_nmi || (!old(self).prev_nmi_flag && nmi),
                prev_nmi_flag: nmi,
                prev_run_irq: old(self).run_irq,
                run_irq: irq & old(self).irq_mask != 0 && old(self).status & INTERRUPT_DISABLE == 0,
                ..*old(self)
            }),
    {
        self.prev_need_nmi = self.need_nmi;
        if !self.prev_nmi_flag && nmi {
            self.need_nmi = true;
        }
        self.prev_nmi_flag = nmi;
        self.prev_run_irq = self.run_irq;
        self.run_irq = (irq & self.irq_mask) != 0 && (self.status & INTERRUPT_DISABLE) == 0;
    }
}

} // verus!
