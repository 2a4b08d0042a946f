use vstd::prelude::*;
use crate::cartridge::{Mirroring, Region};
use crate::common::error::Result;
use crate::cpu::InterruptLines;

verus! {

/// Cartridge board logic seen from the CPU and PPU buses. Each board keeps
/// its own well-formedness `inv`, which every operation preserves; mapper
/// IRQs are raised through the `InterruptLines` handed in.
pub trait Mapper: Sized {
    /// Well-formedness of the board state; a board with nothing to keep
    /// holds it always.
    open spec fn inv(&self) -> bool {
        true
    }

    fn mapper_id(&self) -> u16
        requires
            self.inv(),
    ;

    fn name(&self) -> &'static str
        requires
            self.inv(),
    ;

    /// `r` is what a CPU read of `addr` without an open-bus value returns
    /// (unmapped addresses read as 0) and `next` what the board becomes.
    /// Every board of this crate states it; a board that does not claims
    /// nothing.
    open spec fn cpu_read_value(&self, addr: u16, next: Self, r: u8) -> bool {
        true
    }

    /// `r` is what a CPU read of `addr` returns when the bus held
    /// `open_bus`, and `next`, `next_interrupt` what the board and the
    /// interrupt lines become (reads can acknowledge IRQs). Every board of
    /// this crate states it; a board that does not claims nothing.
    open spec fn cpu_read_result(
        &self,
        addr: u16,
        open_bus: u8,
        interrupt: InterruptLines,
        next: Self,
        next_interrupt: InterruptLines,
        r: u8,
    ) -> bool {
        true
    }

    /// `next` and `next_interrupt` are the board and the interrupt lines
    /// after a CPU write of `value` to `addr`. Every board of this crate
    /// states it; a board that does not claims nothing.
    open spec fn cpu_written(
        &self,
        addr: u16,
        value: u8,
        interrupt: InterruptLines,
        next: Self,
        next_interrupt: InterruptLines,
    ) -> bool {
        true
    }

    /// `r` says whether CPU writes to `$8000-$FFFF` see bus conflicts on
    /// this board. Every board of this crate states it; a board that does
    /// not claims nothing.
    open spec fn conflicts_are(&self, r: bool) -> bool {
        true
    }

    /// CPU bus read; unmapped addresses read as 0.
    fn cpu_read(&mut self, addr: u16) -> (r: u8)
        requires
            old(self).inv(),
        ensures
            final(self).inv(),
            old(self).cpu_read_value(addr, *final(self), r),
    ;

    /// Side-effect-free instruction fetch from PRG ROM: `None` for anything
    /// that is not plain PRG ROM.
    fn cpu_code_read(&self, addr: u16) -> (r: Option<u8>)
        requires
            self.inv(),
        default_ensures
            r is None,
    {
        None
    }

    /// CPU bus read with the open-bus value carried in, for unmapped
    /// addresses, and the interrupt lines, for reads that acknowledge IRQs.
    fn cpu_read_open_bus(&mut self, addr: u16, open_bus: u8, interrupt: &mut InterruptLines) -> (r: u8)
        requires
            old(self).inv(),
        ensures
            final(self).inv(),
            old(self).cpu_read_result(addr, open_bus, *old(interrupt), *final(self), *final(interrupt), r),
    ;

    fn cpu_write(&mut self, addr: u16, value: u8, interrupt: &mut InterruptLines)
        requires
            old(self).inv(),
        ensures
            final(self).inv(),
            old(self).cpu_written(addr, value, *old(interrupt), *final(self), *final(interrupt)),
    ;

    /// `r` is what a PPU read of pattern address `addr` returns and `next`
    /// what the board becomes (boards with CHR latches or fetch counters
    /// change on reads). Every board of this crate states it; a board that
    /// does not claims nothing.
    open spec fn ppu_read_result(&self, addr: u16, next: Self, r: u8) -> bool {
        true
    }

    /// `next` is the board after a PPU write of `value` to pattern address
    /// `addr`. Every board of this crate states it; a board that does not
    /// claims nothing.
    open spec fn ppu_written(&self, addr: u16, value: u8, next: Self) -> bool {
        true
    }

    fn ppu_read(&mut self, addr: u16) -> (r: u8)
        requires
            old(self).inv(),
        ensures
            final(self).inv(),
            old(self).ppu_read_result(addr, *final(self), r),
    ;

    /// Side-effect-free CHR read at the current bank mapping.
    fn debug_ppu_read(&self, addr: u16) -> u8
        requires
            self.inv(),
    ;

    fn ppu_write(&mut self, addr: u16, value: u8)
        requires
            old(self).inv(),
        ensures
            final(self).inv(),
            old(self).ppu_written(addr, value, *final(self)),
    ;

    /// `r` is the board's answer to a nametable read at `addr` (`None`:
    /// console RAM `ciram` serves it), and `next`, `next_interrupt` what the
    /// board and the interrupt lines become. Every board of this crate
    /// states it; a board that does not claims nothing.
    open spec fn nametable_read_result(
        &self,
        addr: u16,
        ciram: Seq<u8>,
        interrupt: InterruptLines,
        next: Self,
        next_interrupt: InterruptLines,
        r: Option<u8>,
    ) -> bool {
        true
    }

    /// `r` says whether the board served a nametable write of `value` at
    /// `addr` itself (else console RAM takes it under the board's
    /// mirroring); `next` and `next_ciram` are the board and console RAM
    /// after it. Every board of this crate states it; a board that does not
    /// claims nothing.
    open spec fn nametable_written(
        &self,
        addr: u16,
        value: u8,
        ciram: Seq<u8>,
        next: Self,
        next_ciram: Seq<u8>,
        r: bool,
    ) -> bool {
        true
    }

    /// `m` is the board's nametable mirroring. Every board of this crate
    /// states it; a board that does not claims nothing.
    open spec fn mirrors(&self, m: Mirroring) -> bool {
        true
    }

    /// Nametable read served by the board itself (`None`: use console RAM).
    fn ppu_read_nametable(&mut self, addr: u16, ciram: &[u8; 0x1000], interrupt: &mut InterruptLines) -> (r: Option<u8>)
        requires
            old(self).inv(),
        ensures
            final(self).inv(),
            old(self).nametable_read_result(addr, ciram@, *old(interrupt), *final(self), *final(interrupt), r),
    ;

    /// Nametable write served by the board itself (`false`: use console
    /// RAM).
    fn ppu_write_nametable(&mut self, addr: u16, value: u8, ciram: &mut [u8; 0x1000]) -> (r: bool)
        requires
            old(self).inv(),
        ensures
            final(self).inv(),
            old(self).nametable_written(addr, value, old(ciram)@, *final(self), final(ciram)@, r),
    ;

    /// PPU register write snooped by the board.
    fn ppu_register_write(&mut self, original_addr: u16, canonical_addr: u16, value: u8)
        requires
            old(self).inv(),
        ensures
            final(self).inv(),
        default_ensures
            *final(self) == *old(self),
    {
    }

    fn nametable_mirroring(&self) -> (r: Mirroring)
        requires
            self.inv(),
        ensures
            self.mirrors(r),
    ;

    /// Called once per CPU cycle for boards with timers or IRQ counters.
    fn process_cpu_clock(&mut self, interrupt: &mut InterruptLines)
        requires
            old(self).inv(),
        ensures
            final(self).inv(),
        default_ensures
            *final(self) == *old(self),
            *final(interrupt) == *old(interrupt),
    {
    }

    /// Whether `process_cpu_clock` does anything for this board.
    fn has_cpu_clock_hook(&self) -> (r: bool)
        requires
            self.inv(),
        default_ensures
            !r,
    {
        false
    }

    /// Whether the board watches the PPU address bus.
    open spec fn watches_vram_addr(&self) -> bool {
        false
    }

    /// `next` and `next_interrupt` are what the board and the interrupt
    /// lines become when it is told that the PPU bus address is now `addr`
    /// at CPU cycle `cpu_cycle_count`; a board that does not react keeps
    /// both.
    open spec fn vram_addr_notified(
        &self,
        addr: u16,
        cpu_cycle_count: u64,
        interrupt: InterruptLines,
        next: Self,
        next_interrupt: InterruptLines,
    ) -> bool {
        next == *self && next_interrupt == interrupt
    }

    /// Called whenever the PPU bus address changes.
    fn notify_vram_addr(&mut self, addr: u16, cpu_cycle_count: u64, interrupt: &mut InterruptLines)
        requires
            old(self).inv(),
        ensures
            final(self).inv(),
            old(self).vram_addr_notified(addr, cpu_cycle_count, *old(interrupt), *final(self), *final(interrupt)),
    ;

    /// Whether `notify_vram_addr` does anything for this board.
    fn has_vram_addr_hook(&self) -> (r: bool)
        requires
            self.inv(),
        ensures
            r == self.watches_vram_addr(),
    ;

    /// Whether CPU writes to `$8000-$FFFF` see bus conflicts.
    fn has_bus_conflicts(&self) -> (r: bool)
        requires
            self.inv(),
        ensures
            self.conflicts_are(r),
    ;

    /// Soft reset: clears volatile board state, keeps cartridge data.
    fn soft_reset(&mut self)
        requires
            old(self).inv(),
        ensures
            final(self).inv(),
        default_ensures
            *final(self) == *old(self),
    {
    }

    /// Refresh region-dependent timing.
    fn set_region(&mut self, region: Region)
        requires
            old(self).inv(),
        ensures
            final(self).inv(),
        default_ensures
            *final(self) == *old(self),
    {
    }

    fn snapshot_bytes(&self) -> (r: Vec<u8>)
        requires
            self.inv(),
        default_ensures
            r@.len() == 0,
    {
        Vec::new()
    }

    fn restore_snapshot(&mut self, bytes: &[u8]) -> (r: Result<()>)
        requires
            old(self).inv(),
        ensures
            final(self).inv(),
        default_ensures
            r is Ok,
            *final(self) == *old(self),
    {
        Ok(())
    }

    /// MMC1 register state for diagnostics (`None` on other boards).
    fn mmc1_state(&self) -> (r: Option<Mmc1State>)
        requires
            self.inv(),
        default_ensures
            r is None,
    {
        None
    }
}

/// MMC1 internal register state for diagnostics.
#[derive(Debug, Clone, Copy, PartialEq, Eq)]
pub struct Mmc1State {
    pub write_buffer: u8,
    pub shift_count: u8,
    /// Reconstructed `$8000` control byte: bits 0-1 mirroring, bit 2
    /// slot select, bit 3 PRG mode, bit 4 CHR mode.
    pub control: u8,
    pub chr_reg0: u8,
    pub chr_reg1: u8,
    pub prg_reg: u8,
    pub last_write_cycle: u64,
    pub last_chr_reg: u16,
    pub wram_disable: bool,
    pub force_wram_on: bool,
    pub chr_mode: bool,
    pub prg_mode: bool,
    pub slot_select: bool,
    /// 0 = one-screen A, 1 = one-screen B, 2 = vertical, 3 = horizontal,
    /// 0xFF = other.
    pub mirroring: u8,
}

} // verus!
