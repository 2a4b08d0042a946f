use vstd::prelude::*;
use crate::bytes::{push_u16, push_u32, push_u64, read_u16, read_u32, read_u64, u16_at, u16_bytes, u32_at, u32_bytes, u64_at, u64_bytes};
use crate::cartridge::{CartridgeImage, Mirroring};
use crate::common::error::{NesleError, Result};
use crate::cpu::{irq_bit, InterruptLines, IrqSource};
use crate::input::b2u;
use crate::mapper::banking::{lemma_bank_sizes_pow2, mem_read, prg_read_spec, spec_bank_count, ChrMemory, PrgMemory};
use crate::mapper::mmc2::{mirroring_tag, mirroring_to_byte};
use crate::mapper::traits::Mapper;
use crate::mapper::{in_prg_ram_window, prg_ram_accepts, prg_ram_index, prg_ram_snapshot, restore_prg_ram, snapshot_prg_ram};

verus! {

/// MMC3 IRQ flavour; McAcc counts every eighth falling A12 edge instead of
/// filtering rising edges.
#[derive(Debug, Clone, Copy, PartialEq, Eq)]
pub enum Mmc3Variant {
    Standard,
    /// McAcc pulse counter and previous PPU address.
    McAcc { counter: u32, prev_addr: u16 },
}

/// Board 4: two switchable 8 KiB PRG banks, eight CHR bank registers and
/// a scanline IRQ counter clocked by PPU A12.
#[derive(Debug)]
pub struct Mmc3 {
    pub prg: PrgMemory,
    pub chr: ChrMemory,
    pub bank_select: u8,
    pub bank_regs: [u8; 8],
    pub prg_ram: Vec<u8>,
    pub mirroring: Mirroring,
    pub four_screen: bool,
    pub irq_latch: u8,
    pub irq_counter: u8,
    pub irq_reload: bool,
    pub irq_enabled: bool,
    /// `$A001` WRAM enable/write-protect register.
    pub wram_protect: u8,
    /// CPU cycle of the last PPU access with A12 low (0: none pending).
    pub a12_low_master_clock: u64,
    /// MMC3A IRQ behaviour.
    pub force_mmc3_rev_a_irqs: bool,
    /// Cycles A12 must stay low before a rising edge counts.
    pub a12_low_threshold: u64,
    pub variant: Mmc3Variant,
}

/// IRQ counter clock: reload from the latch when zero or a reload is
/// pending, else count down; returns the new counter and whether the IRQ
/// fires (MMC3A needs a non-zero count or a reload before reaching zero).
pub open spec fn mmc3_irq_clock(counter: u8, latch: u8, reload: bool, enabled: bool, rev_a: bool) -> (u8, bool) {
    let next: u8 = if counter == 0 || reload { latch } else { (counter - 1) as u8 };
    let fire = if rev_a { (counter > 0 || reload) && next == 0 && enabled } else { next == 0 && enabled };
    (next, fire)
}

/// A12 low-pass filter: returns whether `addr` makes a counted rising edge
/// and the new low-phase timestamp. A high access counts when A12 has been
/// low for at least `threshold` cycles; a low access starts the low phase.
pub open spec fn a12_filter(low_clock: u64, threshold: u64, addr: u16, cycle: u64) -> (bool, u64) {
    if addr & 0x1000 != 0 {
        let elapsed = if cycle >= low_clock { cycle - low_clock } else { 0 };
        (low_clock > 0 && elapsed >= threshold, 0u64)
    } else {
        (false, if low_clock == 0 { if cycle >= 1 { cycle } else { 1u64 } } else { low_clock })
    }
}

/// Mirroring of an MMC3 snapshot byte (unknown bytes read as horizontal).
pub open spec fn mmc3_mirroring_of(v: u8) -> Mirroring {
    if v == 1 {
        Mirroring::Vertical
    } else if v == 2 {
        Mirroring::FourScreen
    } else if v == 3 {
        Mirroring::SingleScreenLower
    } else if v == 4 {
        Mirroring::SingleScreenUpper
    } else {
        Mirroring::Horizontal
    }
}

fn byte_to_mirroring(v: u8) -> (r: Mirroring)
    ensures
        r == mmc3_mirroring_of(v),
{
    if v == 1 {
        Mirroring::Vertical
    } else if v == 2 {
        Mirroring::FourScreen
    } else if v == 3 {
        Mirroring::SingleScreenLower
    } else if v == 4 {
        Mirroring::SingleScreenUpper
    } else {
        Mirroring::Horizontal
    }
}

impl Mmc3 {
    pub open spec fn wram_writable_spec(&self) -> bool {
        self.wram_protect & 0x80 != 0 && self.wram_protect & 0x40 == 0
    }

    pub open spec fn wram_readable_spec(&self) -> bool {
        self.wram_protect & 0x80 != 0
    }

    /// 8 KiB PRG bank mapped at `addr >= $8000`: R6 and R7 switch, the
    /// last bank is fixed at `$E000`, and bit 6 of the bank select swaps
    /// R6 with the second-to-last bank.
    pub open spec fn prg_bank_spec(&self, addr: u16) -> int {
        let last = spec_bank_count(self.prg.spec_rom().len() as int, 0x2000) - 1;
        let second_last = if last >= 1 { last - 1 } else { 0 };
        let swap = self.bank_select & 0x40 != 0;
        let bank6 = self.bank_regs@[6] as int;
        let bank7 = self.bank_regs@[7] as int;
        if addr <= 0x9fff {
            if swap { second_last } else { bank6 }
        } else if addr <= 0xbfff {
            bank7
        } else if addr <= 0xdfff {
            if swap { bank6 } else { second_last }
        } else {
            last
        }
    }

    /// PRG banking: `$A000` always shows R7 and `$E000` the last bank; R6
    /// shows at `$8000`, or at `$C000` when bit 6 of the bank select is set,
    /// and flipping that bit swaps what `$8000` and `$C000` show.
    pub proof fn law_prg_banks(&self, addr: u16)
        requires
            0x8000 <= addr,
        ensures
            ({
                let r6 = self.bank_regs@[6] as int;
                let flipped = Mmc3 { bank_select: self.bank_select ^ 0x40, ..*self };
                let swap = self.bank_select & 0x40 != 0;
                &&& 0xa000 <= addr <= 0xbfff ==> self.prg_bank_spec(addr) == self.bank_regs@[7] as int
                &&& 0xe000 <= addr ==> self.prg_bank_spec(addr) == self.prg_bank_spec(0xffff)
                    && self.prg_bank_spec(0xffff) == spec_bank_count(self.prg.spec_rom().len() as int, 0x2000) - 1
                &&& addr <= 0x9fff ==> {
                    &&& (if swap { self.prg_bank_spec((addr + 0x4000) as u16) } else { self.prg_bank_spec(addr) }) == r6
                    &&& flipped.prg_bank_spec(addr) == self.prg_bank_spec((addr + 0x4000) as u16)
                    &&& flipped.prg_bank_spec((addr + 0x4000) as u16) == self.prg_bank_spec(addr)
                }
            }),
    {
        crate::bits::lemma_u8_bits();
        let b = self.bank_select;
        assert(((b ^ 0x40) & 0x40 != 0) == (b & 0x40 == 0));
    }

    pub open spec fn prg_byte(&self, addr: u16) -> u8 {
        prg_read_spec(self.prg.spec_rom(), 0x2000, self.prg_bank_spec(addr), addr as int)
    }

    /// CPU bus value at `addr`: PRG RAM (when enabled) in its window,
    /// PRG ROM at `$8000+`, open bus elsewhere.
    pub open spec fn cpu_value(&self, addr: u16, open_bus: u8) -> u8 {
        if in_prg_ram_window(addr, self.prg_ram@) {
            if self.wram_readable_spec() { self.prg_ram@[prg_ram_index(addr, self.prg_ram@)] } else { open_bus }
        } else if addr >= 0x8000 {
            self.prg_byte(addr)
        } else {
            open_bus
        }
    }

    /// 1 KiB CHR bank of PPU slot `addr / $400`: R0/R1 are 2 KiB pairs,
    /// R2-R5 single banks; bit 7 of the bank select swaps the two halves.
    pub open spec fn chr_reg_bank(&self, addr: u16) -> u8 {
        let slot = addr / 0x400;
        let r = self.bank_regs@;
        let s = if self.bank_select & 0x80 != 0 { (slot + 4) % 8 } else if slot < 8 { slot as int } else { 7 };
        if s == 0 {
            r[0] & 0xfe
        } else if s == 1 {
            r[0] | 1
        } else if s == 2 {
            r[1] & 0xfe
        } else if s == 3 {
            r[1] | 1
        } else if s == 4 {
            r[2]
        } else if s == 5 {
            r[3]
        } else if s == 6 {
            r[4]
        } else {
            r[5]
        }
    }

    /// CHR banking: one 4 KiB half of the pattern tables is two 2 KiB
    /// windows from R0 and R1 (even bank, then the odd one after it), the
    /// other half four 1 KiB windows from R2-R5. The pairs sit at `$0000`,
    /// or at `$1000` when bit 7 of the bank select is set.
    pub proof fn law_chr_banks(&self, addr: u16)
        requires
            addr < 0x2000,
        ensures
            ({
                let r = self.bank_regs@;
                let pairs_high = self.bank_select & 0x80 != 0;
                let in_pairs = (addr >= 0x1000) == pairs_high;
                let within: int = (addr % 0x1000) as int;
                &&& in_pairs ==> self.chr_reg_bank(addr) == if (within / 0x400) % 2 == 0 {
                    r[within / 0x800] & 0xfe
                } else {
                    r[within / 0x800] | 1
                }
                &&& !in_pairs ==> self.chr_reg_bank(addr) == r[2 + within / 0x400]
            }),
    {
    }

    pub open spec fn chr_offset_spec(&self, addr: u16) -> int {
        (self.chr_reg_bank(addr) as int % self.chr.chr_bank_count(0x400)) * 0x400 + (addr & 0x03ff) as int
    }

    /// Snapshot: bank select, the eight bank registers, mirroring,
    /// four-screen flag, IRQ latch/counter/reload/enable, WRAM protect,
    /// MMC3A flag, A12 timestamp, McAcc state (McAcc only), PRG RAM, then
    /// CHR state.
    pub open spec fn snapshot_spec(&self) -> Seq<u8> {
        let variant_bytes = match self.variant {
            Mmc3Variant::Standard => Seq::<u8>::empty(),
            Mmc3Variant::McAcc { counter, prev_addr } => u32_bytes(counter) + u16_bytes(prev_addr),
        };
        self.register_bytes() + u64_bytes(self.a12_low_master_clock) + variant_bytes + prg_ram_snapshot(self.prg_ram@)
            + self.chr.snapshot_spec()
    }

    /// The 17 register bytes that open a snapshot.
    pub open spec fn register_bytes(&self) -> Seq<u8> {
        seq![self.bank_select] + self.bank_regs@ + seq![
            mirroring_tag(self.mirroring),
            b2u(self.four_screen),
            self.irq_latch,
            self.irq_counter,
            b2u(self.irq_reload),
            b2u(self.irq_enabled),
            self.wram_protect,
            b2u(self.force_mmc3_rev_a_irqs),
        ]
    }

    /// Registers and IRQ state unchanged apart from what a step names.
    pub open spec fn same_regs(&self, other: &Mmc3) -> bool {
        &&& self.bank_select == other.bank_select
        &&& self.bank_regs == other.bank_regs
        &&& self.mirroring == other.mirroring
        &&& self.four_screen == other.four_screen
        &&& self.irq_latch == other.irq_latch
        &&& self.irq_enabled == other.irq_enabled
        &&& self.wram_protect == other.wram_protect
        &&& self.force_mmc3_rev_a_irqs == other.force_mmc3_rev_a_irqs
        &&& self.a12_low_threshold == other.a12_low_threshold
    }

    pub fn new(cartridge: &CartridgeImage) -> (r: Self)
        requires
            cartridge.fits_in_memory(),
        ensures
            r.inv(),
            r.prg.spec_rom() == cartridge.prg_rom@,
            r.chr.is_fresh(*cartridge, 0x2000),
            cartridge.is_initialized_prg_ram(r.prg_ram@, 0x2000),
            r.bank_select == 0,
            r.bank_regs@ == seq![0u8, 2, 4, 5, 6, 7, 0, 1],
            r.mirroring == cartridge.mirroring,
            r.four_screen == (cartridge.mirroring == Mirroring::FourScreen),
            r.irq_latch == 0,
            r.irq_counter == 0,
            !r.irq_reload,
            !r.irq_enabled,
            r.wram_protect == 0,
            r.a12_low_master_clock == 0,
            !r.force_mmc3_rev_a_irqs,
            r.a12_low_threshold == 3,
            r.variant == if cartridge.submapper == 3 {
                Mmc3Variant::McAcc { counter: 0, prev_addr: 0 }
            } else {
                Mmc3Variant::Standard
            },
    {
        proof {
            lemma_bank_sizes_pow2();
        }
        let r = Mmc3 {
            prg: PrgMemory::new(cartridge.prg_rom.clone(), 0x2000),
            chr: ChrMemory::new(cartridge, 0x2000),
            bank_select: 0,
            bank_regs: [0u8, 2, 4, 5, 6, 7, 0, 1],
            prg_ram: cartridge.initialized_prg_ram(0x2000),
            mirroring: cartridge.mirroring,
            four_screen: match cartridge.mirroring {
                Mirroring::FourScreen => true,
                _ => false,
            },
            irq_latch: 0,
            irq_counter: 0,
            irq_reload: false,
            irq_enabled: false,
            wram_protect: 0,
            a12_low_master_clock: 0,
            force_mmc3_rev_a_irqs: false,
            a12_low_threshold: 3,
            variant: if cartridge.submapper == 3 {
                Mmc3Variant::McAcc { counter: 0, prev_addr: 0 }
            } else {
                Mmc3Variant::Standard
            },
        };
        assert(r.bank_regs@ =~= seq![0u8, 2, 4, 5, 6, 7, 0, 1]);
        r
    }

    fn wram_writable(&self) -> (r: bool)
        ensures
            r == self.wram_writable_spec(),
    {
        self.wram_protect & 0x80 != 0 && self.wram_protect & 0x40 == 0
    }

    fn wram_readable(&self) -> (r: bool)
        ensures
            r == self.wram_readable_spec(),
    {
        self.wram_protect & 0x80 != 0
    }

    fn prg_bank_for(&self, addr: u16) -> (r: usize)
        requires
            self.inv(),
        ensures
            r == self.prg_bank_spec(addr),
    {
        let last = self.prg.bank_count() - 1;
        let second_last = last.saturating_sub(1);
        let swap = self.bank_select & 0x40 != 0;
        let bank6 = self.bank_regs[6] as usize;
        let bank7 = self.bank_regs[7] as usize;
        if addr <= 0x9fff {
            if swap { second_last } else { bank6 }
        } else if addr <= 0xbfff {
            bank7
        } else if addr <= 0xdfff {
            if swap { bank6 } else { second_last }
        } else {
            last
        }
    }

    fn chr_offset(&self, addr: u16) -> (r: usize)
        requires
            self.chr.wf(),
        ensures
            r == self.chr_offset_spec(addr),
    {
        let slot = addr / 0x400;
        let s: u16 = if self.bank_select & 0x80 != 0 { (slot + 4) % 8 } else if slot < 8 { slot } else { 7 };
        let r = self.bank_regs;
        let reg_bank: u8 = if s == 0 {
            r[0] & 0xfe
        } else if s == 1 {
            r[0] | 1
        } else if s == 2 {
            r[1] & 0xfe
        } else if s == 3 {
            r[1] | 1
        } else if s == 4 {
            r[2]
        } else if s == 5 {
            r[3]
        } else if s == 6 {
            r[4]
        } else {
            r[5]
        };
        let count = self.chr.bank_count(0x400);
        let bank = (reg_bank as usize) % count;
        assert((addr & 0x03ff) < 0x400) by (bit_vector);
        proof {
            assert(bank * 0x400 + 0x400 <= count * 0x400) by (nonlinear_arith)
                requires
                    bank < count,
            ;
        }
        bank * 0x400 + (addr & 0x03ff) as usize
    }

    fn is_a12_rising_edge(&mut self, addr: u16, cpu_cycle_count: u64) -> (r: bool)
        ensures
            (r, final(self).a12_low_master_clock) == a12_filter(
                old(self).a12_low_master_clock,
                old(self).a12_low_threshold,
                addr,
                cpu_cycle_count,
            ),
            final(self).same_regs(old(self)),
            final(self).prg == old(self).prg,
            final(self).chr == old(self).chr,
            final(self).prg_ram == old(self).prg_ram,
            final(self).irq_counter == old(self).irq_counter,
            final(self).irq_reload == old(self).irq_reload,
            final(self).variant == old(self).variant,
    {
        if addr & 0x1000 != 0 {
            let rising = self.a12_low_master_clock > 0 && cpu_cycle_count.saturating_sub(self.a12_low_master_clock)
                >= self.a12_low_threshold;
            self.a12_low_master_clock = 0;
            rising
        } else {
            if self.a12_low_master_clock == 0 {
                self.a12_low_master_clock = if cpu_cycle_count >= 1 { cpu_cycle_count } else { 1 };
            }
            false
        }
    }

    /// One IRQ counter clock; raises the external IRQ when it fires.
    fn clock_irq_counter(&mut self, interrupt: &mut InterruptLines)
        ensures
            ({
                let (next, fire) = mmc3_irq_clock(
                    old(self).irq_counter,
                    old(self).irq_latch,
                    old(self).irq_reload,
                    old(self).irq_enabled,
                    old(self).force_mmc3_rev_a_irqs,
                );
                &&& final(self).irq_counter == next
                &&& *final(interrupt) == if fire {
                    InterruptLines { irq_flag: old(interrupt).irq_flag | irq_bit(IrqSource::External), ..*old(interrupt) }
                } else {
                    *old(interrupt)
                }
            }),
            !final(self).irq_reload,
            final(self).same_regs(old(self)),
            final(self).prg == old(self).prg,
            final(self).chr == old(self).chr,
            final(self).prg_ram == old(self).prg_ram,
            final(self).a12_low_master_clock == old(self).a12_low_master_clock,
            final(self).variant == old(self).variant,
    {
        let prev = self.irq_counter;
        if self.irq_counter == 0 || self.irq_reload {
            self.irq_counter = self.irq_latch;
        } else {
            self.irq_counter = self.irq_counter - 1;
        }
        let fire = if self.force_mmc3_rev_a_irqs {
            (prev > 0 || self.irq_reload) && self.irq_counter == 0 && self.irq_enabled
        } else {
            self.irq_counter == 0 && self.irq_enabled
        };
        if fire {
            interrupt.set_irq_source(IrqSource::External);
        }
        self.irq_reload = false;
    }
}

impl Mapper for Mmc3 {
    open spec fn inv(&self) -> bool {
        &&& self.prg.wf()
        &&& self.prg.spec_bank_size() == 0x2000
        &&& self.chr.wf()
    }

    fn mapper_id(&self) -> (r: u16)
        ensures
            r == 4,
    {
        4
    }

    fn name(&self) -> (r: &'static str)
        ensures
            r@ == "MMC3"@,
    {
        "MMC3"
    }

    open spec fn cpu_read_value(&self, addr: u16, next: Self, r: u8) -> bool {
        &&& r == self.cpu_value(addr, 0)
        &&& next == *self
    }

    fn cpu_read(&mut self, addr: u16) -> (r: u8) {
        if 0x6000 <= addr && addr <= 0x7fff && self.prg_ram.len() > 0 {
            if !self.wram_readable() {
                return 0;
            }
            return self.prg_ram[((addr - 0x6000) as usize) % self.prg_ram.len()];
        }
        if addr >= 0x8000 {
            return self.prg.read(self.prg_bank_for(addr), addr);
        }
        0
    }

    fn cpu_code_read(&self, addr: u16) -> (r: Option<u8>)
        ensures
            r == if addr < 0x8000 { None } else { Some(self.prg_byte(addr)) },
    {
        if addr < 0x8000 {
            return None;
        }
        Some(self.prg.read(self.prg_bank_for(addr), addr))
    }

    open spec fn cpu_read_result(&self, addr: u16, open_bus: u8, interrupt: InterruptLines, next: Self, next_interrupt: InterruptLines, r: u8) -> bool {
        &&& r == self.cpu_value(addr, open_bus)
        &&& next == *self
        &&& next_interrupt == interrupt
    }

    fn cpu_read_open_bus(&mut self, addr: u16, open_bus: u8, interrupt: &mut InterruptLines) -> (r: u8) {
        if 0x6000 <= addr && addr <= 0x7fff && self.prg_ram.len() > 0 {
            if !self.wram_readable() {
                return open_bus;
            }
            return self.prg_ram[((addr - 0x6000) as usize) % self.prg_ram.len()];
        }
        if addr >= 0x8000 {
            return self.prg.read(self.prg_bank_for(addr), addr);
        }
        open_bus
    }

    open spec fn cpu_written(&self, addr: u16, value: u8, interrupt: InterruptLines, next: Self, next_interrupt: InterruptLines) -> bool {
        &&& (({
            let o = *self;
            let f = next;
            let window = in_prg_ram_window(addr, o.prg_ram@);
            let odd = addr % 2 == 1;
            let r8 = 0x8000 <= addr <= 0x9fff;
            let ra = 0xa000 <= addr <= 0xbfff;
            let rc = 0xc000 <= addr <= 0xdfff;
            let re = 0xe000 <= addr;
            let idx = (o.bank_select & 0x07) as int;
            &&& f.prg == o.prg
            &&& f.chr == o.chr
            &&& f.four_screen == o.four_screen
            &&& f.force_mmc3_rev_a_irqs == o.force_mmc3_rev_a_irqs
            &&& f.a12_low_master_clock == o.a12_low_master_clock
            &&& f.a12_low_threshold == o.a12_low_threshold
            &&& f.prg_ram@ == if window && o.wram_writable_spec() {
                o.prg_ram@.update(prg_ram_index(addr, o.prg_ram@), value)
            } else {
                o.prg_ram@
            }
            &&& f.bank_select == if r8 && !odd { value } else { o.bank_select }
            &&& f.bank_regs@ == if r8 && odd {
                o.bank_regs@.update(idx, if idx <= 1 { value & 0xfe } else { value })
            } else {
                o.bank_regs@
            }
            &&& f.mirroring == if ra && !odd && !o.four_screen {
                if value & 1 == 0 { Mirroring::Vertical } else { Mirroring::Horizontal }
            } else {
                o.mirroring
            }
            &&& f.wram_protect == if ra && (odd || o.four_screen) { value } else { o.wram_protect }
            &&& f.irq_latch == if rc && !odd { value } else { o.irq_latch }
            &&& f.irq_counter == if rc && odd { 0 } else { o.irq_counter }
            &&& f.irq_reload == if rc && odd { true } else { o.irq_reload }
            &&& f.variant == if rc && odd {
                match o.variant {
                    Mmc3Variant::McAcc { counter, prev_addr } => Mmc3Variant::McAcc { counter: 0, prev_addr },
                    Mmc3Variant::Standard => Mmc3Variant::Standard,
                }
            } else {
                o.variant
            }
            &&& f.irq_enabled == if re { odd } else { o.irq_enabled }
            &&& next_interrupt == if re && !odd {
                InterruptLines { irq_flag: interrupt.irq_flag & !irq_bit(IrqSource::External), ..interrupt }
            } else {
                interrupt
            }
        }))
    }

    /// Registers in pairs selected by address bit 0: `$8000` bank select /
    /// bank data, `$A000` mirroring / WRAM protect, `$C000` IRQ latch / IRQ
    /// reload, `$E000` IRQ disable (acknowledging it) / IRQ enable.
    fn cpu_write(&mut self, addr: u16, value: u8, interrupt: &mut InterruptLines) {
        if 0x6000 <= addr && addr <= 0x7fff && self.prg_ram.len() > 0 {
            if !self.wram_writable() {
                return;
            }
            let len = self.prg_ram.len();
            self.prg_ram.set(((addr - 0x6000) as usize) % len, value);
            return;
        }
        let odd = addr % 2 == 1;
        if 0x8000 <= addr && addr <= 0x9fff {
            if !odd {
                self.bank_select = value;
            } else {
                let reg_idx = (self.bank_select & 0x07) as usize;
                let bs = self.bank_select;
                assert(bs & 0x07 < 8) by (bit_vector);
                let masked = if reg_idx <= 1 { value & 0xfe } else { value };
                self.bank_regs[reg_idx] = masked;
            }
        } else if 0xa000 <= addr && addr <= 0xbfff {
            if !odd && !self.four_screen {
                self.mirroring = if value & 1 == 0 { Mirroring::Vertical } else { Mirroring::Horizontal };
            } else {
                self.wram_protect = value;
            }
        } else if 0xc000 <= addr && addr <= 0xdfff {
            if !odd {
                self.irq_latch = value;
            } else {
                self.variant = match self.variant {
                    Mmc3Variant::McAcc { counter: _, prev_addr } => Mmc3Variant::McAcc { counter: 0, prev_addr },
                    Mmc3Variant::Standard => Mmc3Variant::Standard,
                };
                self.irq_counter = 0;
                self.irq_reload = true;
            }
        } else if 0xe000 <= addr {
            if !odd {
                self.irq_enabled = false;
                interrupt.clear_irq_source(IrqSource::External);
            } else {
                self.irq_enabled = true;
            }
        }
    }

    open spec fn ppu_read_result(&self, addr: u16, next: Self, r: u8) -> bool {
        &&& r == mem_read(self.chr.spec_rom(), self.chr.spec_ram(), self.chr_offset_spec(addr))
        &&& next == *self
    }

    fn ppu_read(&mut self, addr: u16) -> (r: u8) {
        let offset = self.chr_offset(addr);
        self.chr.read(offset)
    }

    fn debug_ppu_read(&self, addr: u16) -> (r: u8)
        ensures
            r == mem_read(self.chr.spec_rom(), self.chr.spec_ram(), self.chr_offset_spec(addr)),
    {
        self.chr.read(self.chr_offset(addr))
    }

    open spec fn ppu_written(&self, addr: u16, value: u8, next: Self) -> bool {
        &&& next.same_regs(self)
        &&& next.prg == self.prg
        &&& next.prg_ram == self.prg_ram
        &&& next.irq_counter == self.irq_counter
        &&& next.irq_reload == self.irq_reload
        &&& next.a12_low_master_clock == self.a12_low_master_clock
        &&& next.variant == self.variant
        &&& next.chr.spec_rom() == self.chr.spec_rom()
        &&& next.chr.spec_pages() == self.chr.spec_pages()
        &&& next.chr.spec_ram() == self.chr.written(self.chr_offset_spec(addr), value)
    }

    fn ppu_write(&mut self, addr: u16, value: u8) {
        let offset = self.chr_offset(addr);
        self.chr.write(offset, value);
    }

    /// Nametables live in console RAM: the board serves no nametable
    /// access.
    open spec fn nametable_read_result(
        &self,
        addr: u16,
        ciram: Seq<u8>,
        interrupt: InterruptLines,
        next: Self,
        next_interrupt: InterruptLines,
        r: Option<u8>,
    ) -> bool {
        r is None && next == *self && next_interrupt == interrupt
    }

    open spec fn nametable_written(
        &self,
        addr: u16,
        value: u8,
        ciram: Seq<u8>,
        next: Self,
        next_ciram: Seq<u8>,
        r: bool,
    ) -> bool {
        !r && next == *self && next_ciram == ciram
    }

    fn ppu_read_nametable(&mut self, addr: u16, ciram: &[u8; 0x1000], interrupt: &mut InterruptLines) -> (r: Option<u8>) {
        None
    }

    fn ppu_write_nametable(&mut self, addr: u16, value: u8, ciram: &mut [u8; 0x1000]) -> (r: bool) {
        false
    }

    open spec fn mirrors(&self, m: Mirroring) -> bool {
        m == self.mirroring
    }

    /// Writes reach the board unchanged: no bus conflicts.
    open spec fn conflicts_are(&self, r: bool) -> bool {
        !r
    }

    fn has_bus_conflicts(&self) -> (r: bool) {
        false
    }

    fn nametable_mirroring(&self) -> (r: Mirroring) {
        self.mirroring
    }

    fn has_vram_addr_hook(&self) -> (r: bool) {
        true
    }

    /// Restores the power-on bank registers and disables the IRQ.
    fn soft_reset(&mut self)
        ensures
            final(self).bank_select == 0,
            final(self).bank_regs@ == seq![0u8, 2, 4, 5, 6, 7, 0, 1],
            !final(self).irq_enabled,
            !final(self).irq_reload,
            final(self).irq_latch == 0,
            final(self).irq_counter == old(self).irq_counter,
            final(self).mirroring == old(self).mirroring,
            final(self).four_screen == old(self).four_screen,
            final(self).wram_protect == old(self).wram_protect,
            final(self).force_mmc3_rev_a_irqs == old(self).force_mmc3_rev_a_irqs,
            final(self).a12_low_master_clock == old(self).a12_low_master_clock,
            final(self).a12_low_threshold == old(self).a12_low_threshold,
            final(self).variant == old(self).variant,
            final(self).prg == old(self).prg,
            final(self).chr == old(self).chr,
            final(self).prg_ram == old(self).prg_ram,
    {
        self.bank_select = 0;
        self.bank_regs = [0u8, 2, 4, 5, 6, 7, 0, 1];
        self.irq_enabled = false;
        self.irq_reload = false;
        self.irq_latch = 0;
        assert(self.bank_regs@ =~= seq![0u8, 2, 4, 5, 6, 7, 0, 1]);
    }

    /// Standard boards clock the IRQ counter on filtered A12 rising edges;
    /// McAcc boards on the first of every eight A12 falling edges.
    open spec fn vram_addr_notified(
        &self,
        addr: u16,
        cpu_cycle_count: u64,
        interrupt: InterruptLines,
        next: Self,
        next_interrupt: InterruptLines,
    ) -> bool {
        &&& next.same_regs(self)
        &&& next.prg == self.prg
        &&& next.chr == self.chr
        &&& next.prg_ram == self.prg_ram
        &&& ({
                let o = *self;
                let (counted, fire) = mmc3_irq_clock(o.irq_counter, o.irq_latch, o.irq_reload, o.irq_enabled, o.force_mmc3_rev_a_irqs);
                let clocked = match o.variant {
                    Mmc3Variant::Standard => a12_filter(o.a12_low_master_clock, o.a12_low_threshold, addr, cpu_cycle_count).0,
                    Mmc3Variant::McAcc { counter, prev_addr } => addr & 0x1000 == 0 && prev_addr & 0x1000 != 0
                        && vstd::wrapping::u32_specs::wrapping_add(counter, 1) == 1,
                };
                &&& next.irq_counter == if clocked { counted } else { o.irq_counter }
                &&& next.irq_reload == if clocked { false } else { o.irq_reload }
                &&& next_interrupt == if clocked && fire {
                    InterruptLines { irq_flag: interrupt.irq_flag | irq_bit(IrqSource::External), ..interrupt }
                } else {
                    interrupt
                }
                &&& match o.variant {
                    Mmc3Variant::Standard => {
                        &&& next.variant == o.variant
                        &&& next.a12_low_master_clock == a12_filter(
                            o.a12_low_master_clock,
                            o.a12_low_threshold,
                            addr,
                            cpu_cycle_count,
                        ).1
                    },
                    Mmc3Variant::McAcc { counter, prev_addr } => {
                        let falling = addr & 0x1000 == 0 && prev_addr & 0x1000 != 0;
                        let c = vstd::wrapping::u32_specs::wrapping_add(counter, 1);
                        &&& next.a12_low_master_clock == o.a12_low_master_clock
                        &&& next.variant == Mmc3Variant::McAcc {
                            counter: if !falling { counter } else if c == 8 { 0 } else { c },
                            prev_addr: addr,
                        }
                    },
                }
            })
    }

    open spec fn watches_vram_addr(&self) -> bool {
        true
    }

    fn notify_vram_addr(&mut self, addr: u16, cpu_cycle_count: u64, interrupt: &mut InterruptLines)
    {
        match self.variant {
            Mmc3Variant::Standard => {
                if self.is_a12_rising_edge(addr, cpu_cycle_count) {
                    self.clock_irq_counter(interrupt);
                }
            },
            Mmc3Variant::McAcc { counter, prev_addr } => {
                let falling = addr & 0x1000 == 0 && prev_addr & 0x1000 != 0;
                let mut c = counter;
                if falling {
                    c = c.wrapping_add(1);
                    if c == 1 {
                        self.clock_irq_counter(interrupt);
                    } else if c == 8 {
                        c = 0;
                    }
                }
                self.variant = Mmc3Variant::McAcc { counter: c, prev_addr: addr };
            },
        }
    }

    fn snapshot_bytes(&self) -> (r: Vec<u8>)
        ensures
            r@ == self.snapshot_spec(),
    {
        let mut bytes: Vec<u8> = Vec::new();
        bytes.push(self.bank_select);
        let mut i: usize = 0;
        while i < 8
            invariant
                i <= 8,
                bytes@ == seq![self.bank_select] + self.bank_regs@.subrange(0, i as int),
            decreases 8 - i,
        {
            bytes.push(self.bank_regs[i]);
            i = i + 1;
            assert(bytes@ =~= seq![self.bank_select] + self.bank_regs@.subrange(0, i as int));
        }
        assert(self.bank_regs@.subrange(0, 8) =~= self.bank_regs@);
        bytes.push(mirroring_to_byte(self.mirroring));
        bytes.push(if self.four_screen { 1u8 } else { 0u8 });
        bytes.push(self.irq_latch);
        bytes.push(self.irq_counter);
        bytes.push(if self.irq_reload { 1u8 } else { 0u8 });
        bytes.push(if self.irq_enabled { 1u8 } else { 0u8 });
        bytes.push(self.wram_protect);
        bytes.push(if self.force_mmc3_rev_a_irqs { 1u8 } else { 0u8 });
        assert(bytes@ =~= self.register_bytes());
        push_u64(&mut bytes, self.a12_low_master_clock);
        let ghost head = bytes@;
        match self.variant {
            Mmc3Variant::McAcc { counter, prev_addr } => {
                push_u32(&mut bytes, counter);
                push_u16(&mut bytes, prev_addr);
            },
            Mmc3Variant::Standard => {},
        }
        let ghost with_variant = bytes@;
        assert(with_variant =~= self.register_bytes() + u64_bytes(self.a12_low_master_clock) + match self.variant {
            Mmc3Variant::Standard => Seq::<u8>::empty(),
            Mmc3Variant::McAcc { counter, prev_addr } => u32_bytes(counter) + u16_bytes(prev_addr),
        });
        snapshot_prg_ram(&mut bytes, self.prg_ram.as_slice());
        self.chr.snapshot_bytes(&mut bytes);
        assert(bytes@ =~= self.snapshot_spec());
        bytes
    }

    fn restore_snapshot(&mut self, bytes: &[u8]) -> (r: Result<()>)
        ensures
            final(self).prg == old(self).prg,
            final(self).a12_low_threshold == old(self).a12_low_threshold,
            final(self).prg_ram@.len() == old(self).prg_ram@.len(),
            final(self).chr.spec_rom() == old(self).chr.spec_rom(),
            final(self).variant is McAcc <==> old(self).variant is McAcc,
            ({
                let b = bytes@;
                let n = old(self).prg_ram@.len() as int;
                let cursor: int = if old(self).variant is McAcc { 31 } else { 25 };
                &&& r is Ok <==> (b.len() >= cursor && prg_ram_accepts(b, cursor, n)
                    && old(self).chr.restore_accepts(b, cursor + 4 + n))
                &&& r is Ok ==> {
                    &&& final(self).bank_select == b[0]
                    &&& final(self).bank_regs@ == b.subrange(1, 9)
                    &&& final(self).mirroring == mmc3_mirroring_of(b[9])
                    &&& final(self).four_screen == (b[10] != 0)
                    &&& final(self).irq_latch == b[11]
                    &&& final(self).irq_counter == b[12]
                    &&& final(self).irq_reload == (b[13] != 0)
                    &&& final(self).irq_enabled == (b[14] != 0)
                    &&& final(self).wram_protect == b[15]
                    &&& final(self).force_mmc3_rev_a_irqs == (b[16] != 0)
                    &&& final(self).a12_low_master_clock == u64_at(b, 17)
                    &&& old(self).variant is McAcc ==> final(self).variant == Mmc3Variant::McAcc {
                        counter: u32_at(b, 25),
                        prev_addr: u16_at(b, 29),
                    }
                    &&& final(self).prg_ram@ == b.subrange(cursor + 4, cursor + 4 + n)
                    &&& ChrMemory::restored(old(self).chr, final(self).chr, b, cursor + 4 + n)
                }
                &&& r is Err ==> r matches Err(NesleError::InvalidState(_))
            }),
    {
        if bytes.len() < 25 {
            return Err(NesleError::invalid_state("MMC3 snapshot is missing register bytes"));
        }
        self.bank_select = bytes[0];
        let mut i: usize = 0;
        while i < 8
            invariant
                i <= 8,
                25 <= bytes@.len(),
                forall|j: int| 0 <= j < i ==> #[trigger] self.bank_regs@[j] == bytes@[1 + j],
                self.prg == old(self).prg,
                self.chr == old(self).chr,
                self.prg_ram == old(self).prg_ram,
                self.variant == old(self).variant,
                self.a12_low_threshold == old(self).a12_low_threshold,
                self.bank_select == bytes@[0],
            decreases 8 - i,
        {
            self.bank_regs[i] = bytes[1 + i];
            i = i + 1;
        }
        assert(self.bank_regs@ =~= bytes@.subrange(1, 9));
        self.mirroring = byte_to_mirroring(bytes[9]);
        self.four_screen = bytes[10] != 0;
        self.irq_latch = bytes[11];
        self.irq_counter = bytes[12];
        self.irq_reload = bytes[13] != 0;
        self.irq_enabled = bytes[14] != 0;
        self.wram_protect = bytes[15];
        self.force_mmc3_rev_a_irqs = bytes[16] != 0;
        self.a12_low_master_clock = read_u64(bytes, 17);
        let mut cursor: usize = 25;
        match self.variant {
            Mmc3Variant::McAcc { .. } => {
                if bytes.len() < 31 {
                    return Err(NesleError::invalid_state("MMC3 McAcc snapshot is missing variant state bytes"));
                }
                self.variant = Mmc3Variant::McAcc { counter: read_u32(bytes, 25), prev_addr: read_u16(bytes, 29) };
                cursor = 31;
            },
            Mmc3Variant::Standard => {},
        }
        let mut offset = match restore_prg_ram(bytes, cursor, &mut self.prg_ram, "MMC3") {
            Ok(o) => o,
            Err(e) => return Err(e),
        };
        self.chr.restore_snapshot(bytes, &mut offset, "MMC3")
    }
}

/// With the IRQ enabled and a latch of `n`, the `n + 1`-th counter clock
/// after a reload is the first that fires (standard MMC3).
pub proof fn lemma_mmc3_irq_fires_after_latch_plus_one(latch: u8, k: nat)
    requires
        latch > 0,
    ensures
        mmc3_irq_clock(0, latch, true, true, false) == (latch, false),
        k < latch ==> mmc3_irq_clock((latch - k) as u8, latch, false, true, false) == ((latch - k - 1) as u8, k + 1 == latch),
{
}

} // verus!
