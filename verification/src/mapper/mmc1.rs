use vstd::prelude::*;
use crate::bytes::{push_u16, push_u64, read_u16, read_u64, u16_bytes, u16_at, u64_at, u64_bytes};
use crate::cartridge::{CartridgeImage, Mirroring};
use crate::common::error::{NesleError, Result};
use crate::cpu::InterruptLines;
use crate::mapper::banking::{lemma_bank_sizes_pow2, mem_read, prg_read_spec, ChrMemory, PrgMemory};
use crate::mapper::traits::{Mapper, Mmc1State};
use crate::mapper::{prg_ram_accepts, prg_ram_snapshot, restore_prg_ram, snapshot_prg_ram};

verus! {

/// MMC1 register file: the five-bit serial shift register and the four
/// internal registers it loads, plus the write gate and WRAM latches.
#[derive(Debug, Clone, Copy, PartialEq, Eq)]
pub struct Mmc1Regs {
    pub shift: u8,
    pub shift_count: u8,
    pub control: u8,
    pub chr_bank0: u8,
    pub chr_bank1: u8,
    pub prg_bank: u8,
    /// CPU cycle counter for the consecutive-write gate.
    pub cycle_count: u64,
    /// Cycle of the last register write; a second write in the same cycle
    /// is ignored.
    pub last_write_cycle: u64,
    /// Address of the last CHR register load (selects the extension
    /// register).
    pub last_chr_reg: u16,
    /// `$E000` bit 4 WRAM-disable latch.
    pub wram_disable: bool,
    /// MMC1A boards keep WRAM enabled regardless of `wram_disable`.
    pub force_wram_on: bool,
}

/// Registers after a CPU write of `value` to `addr >= $8000`: bit 7 resets
/// the shift register and forces PRG mode 3; a write in the same cycle as
/// the previous one is dropped; otherwise bit 0 is shifted in, and the
/// fifth bit loads the register that `addr` selects.
pub open spec fn mmc1_serial_write(r: Mmc1Regs, addr: u16, value: u8) -> Mmc1Regs {
    if value & 0x80 != 0 {
        Mmc1Regs { shift: 0, shift_count: 0, control: r.control | 0x0c, last_write_cycle: r.cycle_count, ..r }
    } else if r.cycle_count == r.last_write_cycle {
        r
    } else {
        let shift = r.shift | vstd::wrapping::u8_specs::wrapping_shl(value & 0x01, r.shift_count as u32);
        let count = vstd::wrapping::u8_specs::wrapping_add(r.shift_count, 1);
        if count == 5 {
            let loaded = if addr <= 0x9fff {
                Mmc1Regs { control: shift, ..r }
            } else if addr <= 0xbfff {
                Mmc1Regs { chr_bank0: shift, last_chr_reg: addr, ..r }
            } else if addr <= 0xdfff {
                Mmc1Regs { chr_bank1: shift, last_chr_reg: addr, ..r }
            } else {
                Mmc1Regs { prg_bank: shift, wram_disable: shift & 0x10 != 0, ..r }
            };
            Mmc1Regs { shift: 0, shift_count: 0, last_write_cycle: r.cycle_count, ..loaded }
        } else {
            Mmc1Regs { shift, shift_count: count, last_write_cycle: r.cycle_count, ..r }
        }
    }
}

/// CHR-side extension register used for SUROM PRG and SOROM/SXROM WRAM
/// banking.
pub open spec fn mmc1_extra_reg(r: Mmc1Regs) -> u8 {
    if r.last_chr_reg == 0xc000 && r.control & 0x10 != 0 {
        r.chr_bank1
    } else {
        r.chr_bank0
    }
}

/// 16 KiB PRG bank mapped at `addr >= $8000`.
pub open spec fn mmc1_prg_bank(r: Mmc1Regs, prg_size: int, addr: u16) -> u8 {
    let mode = (r.control >> 2) & 0x03;
    let bank = r.prg_bank & 0x0f;
    let sel: u8 = if prg_size == 0x80000 { mmc1_extra_reg(r) & 0x10 } else { 0 };
    if addr < 0x8000 {
        0
    } else if mode == 0 || mode == 1 {
        if addr <= 0xbfff { (bank & 0xfe) | sel } else { (bank & 0xfe) | 1 | sel }
    } else if mode == 2 {
        if addr <= 0xbfff { sel } else { bank | sel }
    } else {
        if addr <= 0xbfff { bank | sel } else { 0x0f | sel }
    }
}

/// PRG banking modes (control bits 2-3): in modes 0 and 1 the 32 KiB window
/// holds the even bank below the selected one and the bank after it; in
/// mode 2 `$8000` is fixed to the first bank and `$C000` switched; in mode 3
/// `$8000` is switched and `$C000` fixed to the last bank of the 256 KiB
/// half. Every address in a 16 KiB half maps the same bank; on 512 KiB
/// boards the CHR register's bit 4 selects the half.
pub proof fn law_mmc1_prg_modes(r: Mmc1Regs, prg_size: int, addr: u16)
    requires
        addr >= 0x8000,
    ensures
        ({
            let mode = (r.control / 4) % 4;
            let bank: int = (r.prg_bank % 16) as int;
            let outer: int = if prg_size == 0x80000 && mmc1_extra_reg(r) & 0x10 != 0 { 16 } else { 0 };
            let lo = mmc1_prg_bank(r, prg_size, 0x8000);
            let hi = mmc1_prg_bank(r, prg_size, 0xc000);
            &&& mmc1_prg_bank(r, prg_size, addr) == if addr < 0xc000 { lo } else { hi }
            &&& mode <= 1 ==> lo == outer + bank - bank % 2 && hi == lo + 1
            &&& mode == 2 ==> lo == outer && hi == outer + bank
            &&& mode == 3 ==> lo == outer + bank && hi == outer + 15
        }),
{
    crate::bits::lemma_u8_bits();
    let b = r.prg_bank & 0x0f;
    let e = mmc1_extra_reg(r) & 0x10;
    assert(e == 0 || e == 0x10);
    let sel: u8 = if prg_size == 0x80000 { e } else { 0 };
    assert(sel == 0 || sel == 0x10);
    assert(b == r.prg_bank % 16);
    let even = b & 0xfe;
    assert(even == (b - b % 2) as u8);
    assert(even | 1 == (even + 1) as u8);
    assert((even | 1) < 16);
    assert(even | sel == (even + sel) as u8);
    assert((even | 1) | sel == ((even | 1) + sel) as u8);
    assert(b | sel == (b + sel) as u8);
    assert(0x0fu8 | sel == (0x0fu8 + sel) as u8);
    assert(0u8 | sel == sel);
    assert(((r.control >> 2) & 0x03) == (r.control / 4) % 4);
}

/// Nametable mirroring selected by control bits 0-1.
pub open spec fn mmc1_mirroring(control: u8) -> Mirroring {
    let m = control & 0x03;
    if m == 0 {
        Mirroring::SingleScreenLower
    } else if m == 1 {
        Mirroring::SingleScreenUpper
    } else if m == 2 {
        Mirroring::Vertical
    } else {
        Mirroring::Horizontal
    }
}

/// Board 1 (SxROM family).
#[derive(Debug)]
pub struct Mmc1 {
    pub prg: PrgMemory,
    pub chr: ChrMemory,
    pub regs: Mmc1Regs,
    /// Battery-backed 8 KiB half on SOROM; empty otherwise.
    pub save_ram: Vec<u8>,
    /// Volatile WRAM: SOROM 8 KiB, SXROM 32 KiB, or plain 8 KiB.
    pub work_ram: Vec<u8>,
    /// PRG ROM length (selects SUROM 512 KiB banking).
    pub prg_size: usize,
}

impl Mmc1 {
    /// CHR offset of PPU address `addr`: one 8 KiB bank (even bank number)
    /// or two 4 KiB banks, each wrapped by the 4 KiB bank count.
    pub open spec fn chr_offset_spec(&self, addr: u16) -> int {
        let count = self.chr.chr_bank_count(0x1000);
        if self.regs.control & 0x10 == 0 {
            ((self.regs.chr_bank0 & 0xfe) as int % count) * 0x1000 + (addr & 0x1fff) as int
        } else {
            let bank = if addr < 0x1000 { self.regs.chr_bank0 } else { self.regs.chr_bank1 };
            (bank as int % count) * 0x1000 + (addr & 0x0fff) as int
        }
    }

    /// Whether the `$6000-$7FFF` window is enabled.
    pub open spec fn wram_enabled(&self) -> bool {
        !self.regs.wram_disable || self.regs.force_wram_on
    }

    /// Whether the board is SOROM (8 KiB save RAM plus 8 KiB work RAM).
    pub open spec fn is_sorom(&self) -> bool {
        self.save_ram@.len() > 0 && self.work_ram@.len() == 0x2000
    }

    /// Whether a SOROM access goes to work RAM (else save RAM).
    pub open spec fn sorom_work_selected(&self) -> bool {
        (mmc1_extra_reg(self.regs) >> 3) & 0x01 != 0
    }

    /// Work RAM index of `$6000 + offset` on a 32 KiB SXROM board.
    pub open spec fn sxrom_index(&self, offset: int) -> int {
        ((mmc1_extra_reg(self.regs) >> 2) & 0x03) as int * 0x2000 + offset
    }

    /// Value of the `$6000-$7FFF` window at `addr` (`None`: open bus).
    pub open spec fn ram_value(&self, addr: u16) -> Option<u8> {
        let offset = addr - 0x6000;
        if !self.wram_enabled() {
            None
        } else if self.is_sorom() {
            if self.sorom_work_selected() {
                Some(self.work_ram@[offset])
            } else {
                Some(self.save_ram@[offset])
            }
        } else if self.work_ram@.len() == 0x8000 {
            Some(self.work_ram@[self.sxrom_index(offset)])
        } else if self.work_ram@.len() > 0 {
            Some(self.work_ram@[offset % self.work_ram@.len() as int])
        } else if self.save_ram@.len() > 0 {
            Some(self.save_ram@[offset % self.save_ram@.len() as int])
        } else {
            None
        }
    }

    /// `(save_ram, work_ram)` after writing `value` to the window at `addr`.
    pub open spec fn ram_written(&self, addr: u16, value: u8) -> (Seq<u8>, Seq<u8>) {
        let offset = addr - 0x6000;
        let s = self.save_ram@;
        let w = self.work_ram@;
        if !self.wram_enabled() {
            (s, w)
        } else if self.is_sorom() {
            if self.sorom_work_selected() {
                (s, w.update(offset, value))
            } else {
                (s.update(offset, value), w)
            }
        } else if w.len() == 0x8000 {
            (s, w.update(self.sxrom_index(offset), value))
        } else if w.len() > 0 {
            (s, w.update(offset % w.len() as int, value))
        } else if s.len() > 0 {
            (s.update(offset % s.len() as int, value), w)
        } else {
            (s, w)
        }
    }

    pub open spec fn prg_byte(&self, addr: u16) -> u8 {
        prg_read_spec(self.prg.spec_rom(), 0x4000, mmc1_prg_bank(self.regs, self.prg_size as int, addr) as int, addr as int)
    }

    /// CPU bus value at `addr`.
    pub open spec fn cpu_value(&self, addr: u16, open_bus: u8) -> u8 {
        if 0x6000 <= addr <= 0x7fff {
            match self.ram_value(addr) {
                Some(v) => v,
                None => open_bus,
            }
        } else if addr < 0x8000 {
            open_bus
        } else {
            self.prg_byte(addr)
        }
    }

    /// Snapshot: six registers, the CHR register address, the two WRAM
    /// latches, save RAM, work RAM, CHR state, then the two cycle counters.
    pub open spec fn snapshot_spec(&self) -> Seq<u8> {
        let r = self.regs;
        seq![r.shift, r.shift_count, r.control, r.chr_bank0, r.chr_bank1, r.prg_bank] + u16_bytes(r.last_chr_reg)
            + seq![if r.wram_disable { 1u8 } else { 0u8 }, if r.force_wram_on { 1u8 } else { 0u8 }]
            + prg_ram_snapshot(self.save_ram@) + prg_ram_snapshot(self.work_ram@) + self.chr.snapshot_spec()
            + u64_bytes(r.cycle_count) + u64_bytes(r.last_write_cycle)
    }

    /// Power-on WRAM sizes: SOROM 8 KiB save plus 8 KiB work; more than
    /// 8 KiB in total as one pool; otherwise 8 KiB when any is declared.
    pub open spec fn wram_sizes(cartridge: CartridgeImage) -> (int, int) {
        let s = cartridge.save_ram_size as int;
        let w = cartridge.work_ram_size as int;
        if s == 0x2000 && w == 0x2000 {
            (0x2000, 0x2000)
        } else if s + w > 0x2000 {
            (0, s + w)
        } else if s + w > 0 {
            (0, 0x2000)
        } else {
            (0, 0)
        }
    }

    pub fn new(cartridge: &CartridgeImage) -> (r: Self)
        requires
            cartridge.fits_in_memory(),
        ensures
            r.inv(),
            r.prg.spec_rom() == cartridge.prg_rom@,
            r.chr.is_fresh(*cartridge, 0x2000),
            r.prg_size == cartridge.prg_rom@.len(),
            r.save_ram@.len() == Mmc1::wram_sizes(*cartridge).0,
            r.work_ram@.len() == Mmc1::wram_sizes(*cartridge).1,
            forall|i: int| 0 <= i < r.save_ram@.len() ==> #[trigger] r.save_ram@[i] == 0xff,
            forall|i: int| 0 <= i < r.work_ram@.len() ==> #[trigger] r.work_ram@[i] == 0xff,
            r.regs == (Mmc1Regs {
                shift: 0,
                shift_count: 0,
                control: 0x0c,
                chr_bank0: 0,
                chr_bank1: 0,
                prg_bank: 0,
                cycle_count: u64::MAX,
                last_write_cycle: 0,
                last_chr_reg: 0xa000,
                wram_disable: false,
                force_wram_on: cartridge.submapper == 1,
            }),
    {
        proof {
            lemma_bank_sizes_pow2();
        }
        let s = cartridge.save_ram_size;
        let w = cartridge.work_ram_size;
        let (save_size, work_size): (usize, usize) = if s == 0x2000 && w == 0x2000 {
            (0x2000, 0x2000)
        } else if s + w > 0x2000 {
            (0, s + w)
        } else if s + w > 0 {
            (0, 0x2000)
        } else {
            (0, 0)
        };
        let save_ram: Vec<u8> = vec![0xff; save_size];
        let work_ram: Vec<u8> = vec![0xff; work_size];
        proof {
            assert forall|i: int| 0 <= i < save_ram@.len() implies #[trigger] save_ram@[i] == 0xff by {
                assert(cloned::<u8>(0xff, save_ram@[i]));
            }
            assert forall|i: int| 0 <= i < work_ram@.len() implies #[trigger] work_ram@[i] == 0xff by {
                assert(cloned::<u8>(0xff, work_ram@[i]));
            }
        }
        Mmc1 {
            prg: PrgMemory::new(cartridge.prg_rom.clone(), 0x4000),
            chr: ChrMemory::new(cartridge, 0x2000),
            regs: Mmc1Regs {
                shift: 0,
                shift_count: 0,
                control: 0x0c,
                chr_bank0: 0,
                chr_bank1: 0,
                prg_bank: 0,
                cycle_count: u64::MAX,
                last_write_cycle: 0,
                last_chr_reg: 0xa000,
                wram_disable: false,
                force_wram_on: cartridge.submapper == 1,
            },
            save_ram,
            work_ram,
            prg_size: cartridge.prg_rom.len(),
        }
    }

    fn extra_reg(&self) -> (r: u8)
        ensures
            r == mmc1_extra_reg(self.regs),
    {
        if self.regs.last_chr_reg == 0xc000 && self.regs.control & 0x10 != 0 {
            self.regs.chr_bank1
        } else {
            self.regs.chr_bank0
        }
    }

    fn prg_bank_for(&self, addr: u16) -> (r: usize)
        ensures
            r == mmc1_prg_bank(self.regs, self.prg_size as int, addr),
    {
        let mode = (self.regs.control >> 2) & 0x03;
        let bank = self.regs.prg_bank & 0x0f;
        let sel: u8 = if self.prg_size == 0x80000 { self.extra_reg() & 0x10 } else { 0 };
        let b: u8 = if addr < 0x8000 {
            0
        } else if mode == 0 || mode == 1 {
            if addr <= 0xbfff { (bank & 0xfe) | sel } else { (bank & 0xfe) | 1 | sel }
        } else if mode == 2 {
            if addr <= 0xbfff { sel } else { bank | sel }
        } else {
            if addr <= 0xbfff { bank | sel } else { 0x0f | sel }
        };
        b as usize
    }

    fn chr_offset(&self, addr: u16) -> (r: usize)
        requires
            self.chr.wf(),
        ensures
            r == self.chr_offset_spec(addr),
    {
        let four_k_banks = self.chr.bank_count(0x1000);
        if self.regs.control & 0x10 == 0 {
            let bank = ((self.regs.chr_bank0 & 0xfe) as usize) % four_k_banks;
            proof { crate::bits::lemma_u16_bits(); }
            assert((addr & 0x1fff) < 0x2000);
            proof {
                assert(bank * 0x1000 + 0x1000 <= four_k_banks * 0x1000) by (nonlinear_arith)
                    requires
                        bank < four_k_banks,
                ;
            }
            bank * 0x1000 + (addr & 0x1fff) as usize
        } else {
            let b = if addr < 0x1000 { self.regs.chr_bank0 } else { self.regs.chr_bank1 };
            let bank = (b as usize) % four_k_banks;
            proof { crate::bits::lemma_u16_bits(); }
            assert((addr & 0x0fff) < 0x1000);
            proof {
                assert(bank * 0x1000 + 0x1000 <= four_k_banks * 0x1000) by (nonlinear_arith)
                    requires
                        bank < four_k_banks,
                ;
            }
            bank * 0x1000 + (addr & 0x0fff) as usize
        }
    }

    /// `$6000-$7FFF` read; `None` means disabled WRAM (open bus).
    fn read_ram(&self, addr: u16) -> (r: Option<u8>)
        requires
            self.inv(),
            0x6000 <= addr <= 0x7fff,
        ensures
            r == self.ram_value(addr),
    {
        if self.regs.wram_disable && !self.regs.force_wram_on {
            return None;
        }
        let offset = (addr - 0x6000) as usize;
        if self.save_ram.len() > 0 && self.work_ram.len() == 0x2000 {
            if (self.extra_reg() >> 3) & 0x01 != 0 {
                Some(self.work_ram[offset])
            } else {
                Some(self.save_ram[offset])
            }
        } else if self.work_ram.len() == 0x8000 {
            let x = self.extra_reg();
            proof { crate::bits::lemma_u8_bits(); }
            assert((x >> 2) & 0x03 <= 3);
            let bank = ((x >> 2) & 0x03) as usize;
            Some(self.work_ram[bank * 0x2000 + offset])
        } else if self.work_ram.len() > 0 {
            Some(self.work_ram[offset % self.work_ram.len()])
        } else if self.save_ram.len() > 0 {
            Some(self.save_ram[offset % self.save_ram.len()])
        } else {
            None
        }
    }

    fn write_ram(&mut self, addr: u16, value: u8)
        requires
            old(self).inv(),
            0x6000 <= addr <= 0x7fff,
        ensures
            (final(self).save_ram@, final(self).work_ram@) == old(self).ram_written(addr, value),
            final(self).prg == old(self).prg,
            final(self).chr == old(self).chr,
            final(self).regs == old(self).regs,
            final(self).prg_size == old(self).prg_size,
    {
        if self.regs.wram_disable && !self.regs.force_wram_on {
            return;
        }
        let offset = (addr - 0x6000) as usize;
        if self.save_ram.len() > 0 && self.work_ram.len() == 0x2000 {
            if (self.extra_reg() >> 3) & 0x01 != 0 {
                self.work_ram.set(offset, value);
            } else {
                self.save_ram.set(offset, value);
            }
        } else if self.work_ram.len() == 0x8000 {
            let x = self.extra_reg();
            proof { crate::bits::lemma_u8_bits(); }
            assert((x >> 2) & 0x03 <= 3);
            let bank = ((x >> 2) & 0x03) as usize;
            self.work_ram.set(bank * 0x2000 + offset, value);
        } else if self.work_ram.len() > 0 {
            let len = self.work_ram.len();
            self.work_ram.set(offset % len, value);
        } else if self.save_ram.len() > 0 {
            let len = self.save_ram.len();
            self.save_ram.set(offset % len, value);
        }
    }
}

impl Mapper for Mmc1 {
    open spec fn inv(&self) -> bool {
        &&& self.prg.wf()
        &&& self.prg.spec_bank_size() == 0x4000
        &&& self.chr.wf()
        &&& self.save_ram@.len() == 0 || self.save_ram@.len() == 0x2000
    }

    fn mapper_id(&self) -> (r: u16)
        ensures
            r == 1,
    {
        1
    }

    fn name(&self) -> (r: &'static str)
        ensures
            r@ == "MMC1"@,
    {
        "MMC1"
    }

    open spec fn cpu_read_value(&self, addr: u16, next: Self, r: u8) -> bool {
        &&& r == self.cpu_value(addr, 0)
        &&& next == *self
    }

    fn cpu_read(&mut self, addr: u16) -> (r: u8) {
        if 0x6000 <= addr && addr <= 0x7fff {
            return match self.read_ram(addr) {
                Some(v) => v,
                None => 0,
            };
        }
        if addr < 0x8000 {
            return 0;
        }
        self.prg.read(self.prg_bank_for(addr), addr)
    }

    fn cpu_code_read(&self, addr: u16) -> (r: Option<u8>)
        ensures
            r == if addr < 0x8000 { None } else { Some(self.prg_byte(addr)) },
    {
        if addr < 0x8000 {
            return None;
        }
        Some(self.prg.read(self.prg_bank_for(addr), addr))
    }

    open spec fn cpu_read_result(&self, addr: u16, open_bus: u8, interrupt: InterruptLines, next: Self, next_interrupt: InterruptLines, r: u8) -> bool {
        &&& r == self.cpu_value(addr, open_bus)
        &&& next == *self
        &&& next_interrupt == interrupt
    }

    fn cpu_read_open_bus(&mut self, addr: u16, open_bus: u8, interrupt: &mut InterruptLines) -> (r: u8) {
        if 0x6000 <= addr && addr <= 0x7fff {
            return match self.read_ram(addr) {
                Some(v) => v,
                None => open_bus,
            };
        }
        if addr < 0x8000 {
            return open_bus;
        }
        self.prg.read(self.prg_bank_for(addr), addr)
    }

    open spec fn cpu_written(&self, addr: u16, value: u8, interrupt: InterruptLines, next: Self, next_interrupt: InterruptLines) -> bool {
        &&& next.prg == self.prg
        &&& next.chr == self.chr
        &&& next.prg_size == self.prg_size
        &&& ((next.save_ram@, next.work_ram@) == if 0x6000 <= addr <= 0x7fff {
            self.ram_written(addr, value)
        } else {
            (self.save_ram@, self.work_ram@)
        })
        &&& (next.regs == if addr >= 0x8000 {
            mmc1_serial_write(self.regs, addr, value)
        } else {
            self.regs
        })
        &&& next_interrupt == interrupt
    }

    /// WRAM write in `$6000-$7FFF`; serial register write at `$8000+`.
    fn cpu_write(&mut self, addr: u16, value: u8, interrupt: &mut InterruptLines) {
        if 0x6000 <= addr && addr <= 0x7fff {
            self.write_ram(addr, value);
            return;
        }
        if addr < 0x8000 {
            return;
        }
        self.regs = mmc1_write_register(self.regs, addr, value);
    }

    open spec fn ppu_read_result(&self, addr: u16, next: Self, r: u8) -> bool {
        &&& r == mem_read(self.chr.spec_rom(), self.chr.spec_ram(), self.chr_offset_spec(addr))
        &&& next == *self
    }

    fn ppu_read(&mut self, addr: u16) -> (r: u8) {
        let offset = self.chr_offset(addr);
        self.chr.read(offset)
    }

    fn debug_ppu_read(&self, addr: u16) -> (r: u8)
        ensures
            r == mem_read(self.chr.spec_rom(), self.chr.spec_ram(), self.chr_offset_spec(addr)),
    {
        self.chr.read(self.chr_offset(addr))
    }

    open spec fn ppu_written(&self, addr: u16, value: u8, next: Self) -> bool {
        &&& next.prg == self.prg
        &&& next.regs == self.regs
        &&& next.save_ram == self.save_ram
        &&& next.work_ram == self.work_ram
        &&& next.prg_size == self.prg_size
        &&& next.chr.spec_rom() == self.chr.spec_rom()
        &&& next.chr.spec_pages() == self.chr.spec_pages()
        &&& next.chr.spec_ram() == self.chr.written(self.chr_offset_spec(addr), value)
    }

    fn ppu_write(&mut self, addr: u16, value: u8) {
        let offset = self.chr_offset(addr);
        self.chr.write(offset, value);
    }

    /// The board does not watch the PPU address bus.
    fn has_vram_addr_hook(&self) -> (r: bool) {
        false
    }

    fn notify_vram_addr(&mut self, addr: u16, cpu_cycle_count: u64, interrupt: &mut InterruptLines) {
    }

    /// Nametables live in console RAM: the board serves no nametable
    /// access.
    open spec fn nametable_read_result(
        &self,
        addr: u16,
        ciram: Seq<u8>,
        interrupt: InterruptLines,
        next: Self,
        next_interrupt: InterruptLines,
        r: Option<u8>,
    ) -> bool {
        r is None && next == *self && next_interrupt == interrupt
    }

    open spec fn nametable_written(
        &self,
        addr: u16,
        value: u8,
        ciram: Seq<u8>,
        next: Self,
        next_ciram: Seq<u8>,
        r: bool,
    ) -> bool {
        !r && next == *self && next_ciram == ciram
    }

    fn ppu_read_nametable(&mut self, addr: u16, ciram: &[u8; 0x1000], interrupt: &mut InterruptLines) -> (r: Option<u8>) {
        None
    }

    fn ppu_write_nametable(&mut self, addr: u16, value: u8, ciram: &mut [u8; 0x1000]) -> (r: bool) {
        false
    }

    open spec fn mirrors(&self, m: Mirroring) -> bool {
        m == mmc1_mirroring(self.regs.control)
    }

    /// Writes reach the board unchanged: no bus conflicts.
    open spec fn conflicts_are(&self, r: bool) -> bool {
        !r
    }

    fn has_bus_conflicts(&self) -> (r: bool) {
        false
    }

    fn nametable_mirroring(&self) -> (r: Mirroring) {
        let m = self.regs.control & 0x03;
        if m == 0 {
            Mirroring::SingleScreenLower
        } else if m == 1 {
            Mirroring::SingleScreenUpper
        } else if m == 2 {
            Mirroring::Vertical
        } else {
            Mirroring::Horizontal
        }
    }

    /// Advances the write-gate cycle counter (wrapping).
    fn process_cpu_clock(&mut self, interrupt: &mut InterruptLines)
        ensures
            final(self).regs == (Mmc1Regs {
                cycle_count: vstd::wrapping::u64_specs::wrapping_add(old(self).regs.cycle_count, 1),
                ..old(self).regs
            }),
            final(self).prg == old(self).prg,
            final(self).chr == old(self).chr,
            final(self).save_ram == old(self).save_ram,
            final(self).work_ram == old(self).work_ram,
            final(self).prg_size == old(self).prg_size,
            *final(interrupt) == *old(interrupt),
    {
        self.regs.cycle_count = self.regs.cycle_count.wrapping_add(1);
    }

    fn has_cpu_clock_hook(&self) -> (r: bool)
        ensures
            r,
    {
        true
    }

    /// Clears the shift register and forces PRG mode 3.
    fn soft_reset(&mut self)
        ensures
            final(self).regs == (Mmc1Regs {
                shift: 0,
                shift_count: 0,
                control: old(self).regs.control | 0x0c,
                ..old(self).regs
            }),
            final(self).prg == old(self).prg,
            final(self).chr == old(self).chr,
            final(self).save_ram == old(self).save_ram,
            final(self).work_ram == old(self).work_ram,
            final(self).prg_size == old(self).prg_size,
    {
        self.regs.shift = 0;
        self.regs.shift_count = 0;
        self.regs.control = self.regs.control | 0x0c;
    }

    fn mmc1_state(&self) -> (r: Option<Mmc1State>)
        ensures
            r == Some(Mmc1State {
                write_buffer: self.regs.shift,
                shift_count: self.regs.shift_count,
                control: self.regs.control,
                chr_reg0: self.regs.chr_bank0,
                chr_reg1: self.regs.chr_bank1,
                prg_reg: self.regs.prg_bank,
                last_write_cycle: self.regs.last_write_cycle,
                last_chr_reg: self.regs.last_chr_reg,
                wram_disable: self.regs.wram_disable,
                force_wram_on: self.regs.force_wram_on,
                chr_mode: self.regs.control & 0x10 != 0,
                prg_mode: self.regs.control & 0x08 != 0,
                slot_select: self.regs.control & 0x04 != 0,
                mirroring: self.regs.control & 0x03,
            }),
    {
        Some(Mmc1State {
            write_buffer: self.regs.shift,
            shift_count: self.regs.shift_count,
            control: self.regs.control,
            chr_reg0: self.regs.chr_bank0,
            chr_reg1: self.regs.chr_bank1,
            prg_reg: self.regs.prg_bank,
            last_write_cycle: self.regs.last_write_cycle,
            last_chr_reg: self.regs.last_chr_reg,
            wram_disable: self.regs.wram_disable,
            force_wram_on: self.regs.force_wram_on,
            chr_mode: self.regs.control & 0x10 != 0,
            prg_mode: self.regs.control & 0x08 != 0,
            slot_select: self.regs.control & 0x04 != 0,
            mirroring: self.regs.control & 0x03,
        })
    }

    fn snapshot_bytes(&self) -> (r: Vec<u8>)
        ensures
            r@ == self.snapshot_spec(),
    {
        let mut bytes: Vec<u8> = Vec::new();
        bytes.push(self.regs.shift);
        bytes.push(self.regs.shift_count);
        bytes.push(self.regs.control);
        bytes.push(self.regs.chr_bank0);
        bytes.push(self.regs.chr_bank1);
        bytes.push(self.regs.prg_bank);
        push_u16(&mut bytes, self.regs.last_chr_reg);
        bytes.push(if self.regs.wram_disable { 1u8 } else { 0u8 });
        bytes.push(if self.regs.force_wram_on { 1u8 } else { 0u8 });
        snapshot_prg_ram(&mut bytes, self.save_ram.as_slice());
        snapshot_prg_ram(&mut bytes, self.work_ram.as_slice());
        self.chr.snapshot_bytes(&mut bytes);
        push_u64(&mut bytes, self.regs.cycle_count);
        push_u64(&mut bytes, self.regs.last_write_cycle);
        assert(bytes@ =~= self.snapshot_spec());
        bytes
    }

    fn restore_snapshot(&mut self, bytes: &[u8]) -> (r: Result<()>)
        ensures
            final(self).prg == old(self).prg,
            final(self).prg_size == old(self).prg_size,
            final(self).save_ram@.len() == old(self).save_ram@.len(),
            final(self).work_ram@.len() == old(self).work_ram@.len(),
            final(self).chr.spec_rom() == old(self).chr.spec_rom(),
            ({
                let b = bytes@;
                let s = old(self).save_ram@.len() as int;
                let w = old(self).work_ram@.len() as int;
                let chr_at = 18 + s + w;
                let end = old(self).chr.restore_end(b, chr_at);
                &&& r is Ok <==> (b.len() >= 10 && prg_ram_accepts(b, 10, s) && prg_ram_accepts(b, 14 + s, w)
                    && old(self).chr.restore_accepts(b, chr_at) && end + 16 <= b.len())
                &&& r is Ok ==> final(self).regs == (Mmc1Regs {
                    shift: b[0],
                    shift_count: b[1],
                    control: b[2],
                    chr_bank0: b[3],
                    chr_bank1: b[4],
                    prg_bank: b[5],
                    last_chr_reg: u16_at(b, 6),
                    wram_disable: b[8] != 0,
                    force_wram_on: b[9] != 0,
                    cycle_count: u64_at(b, end),
                    last_write_cycle: u64_at(b, end + 8),
                })
                &&& r is Ok ==> final(self).save_ram@ == b.subrange(14, 14 + s)
                &&& r is Ok ==> final(self).work_ram@ == b.subrange(18 + s, 18 + s + w)
                &&& r is Ok ==> ChrMemory::restored(old(self).chr, final(self).chr, b, chr_at)
                &&& r is Err ==> r matches Err(NesleError::InvalidState(_))
            }),
    {
        if bytes.len() < 10 {
            return Err(NesleError::invalid_state("MMC1 snapshot is missing register bytes"));
        }
        self.regs.shift = bytes[0];
        self.regs.shift_count = bytes[1];
        self.regs.control = bytes[2];
        self.regs.chr_bank0 = bytes[3];
        self.regs.chr_bank1 = bytes[4];
        self.regs.prg_bank = bytes[5];
        self.regs.last_chr_reg = read_u16(bytes, 6);
        self.regs.wram_disable = bytes[8] != 0;
        self.regs.force_wram_on = bytes[9] != 0;
        let offset = match restore_prg_ram(bytes, 10, &mut self.save_ram, "MMC1 SaveRam") {
            Ok(o) => o,
            Err(e) => return Err(e),
        };
        let mut offset = match restore_prg_ram(bytes, offset, &mut self.work_ram, "MMC1 WorkRam") {
            Ok(o) => o,
            Err(e) => return Err(e),
        };
        match self.chr.restore_snapshot(bytes, &mut offset, "MMC1") {
            Ok(()) => {},
            Err(e) => return Err(e),
        }
        if bytes.len() < 16 || bytes.len() - 16 < offset {
            return Err(NesleError::invalid_state("MMC1 snapshot truncated: missing cycle_count fields"));
        }
        self.regs.cycle_count = read_u64(bytes, offset);
        self.regs.last_write_cycle = read_u64(bytes, offset + 8);
        Ok(())
    }
}

/// Shifting five bits into the register file, in five writes on distinct
/// cycles after a reset write, loads the register `addr` selects with those
/// bits (bit 0 first) and leaves the shift register empty.
pub proof fn lemma_mmc1_five_writes_load(r0: Mmc1Regs, addr: u16, v: Seq<u8>, cycles: Seq<u64>)
    requires
        addr >= 0x8000,
        addr <= 0x9fff,
        v.len() == 5,
        cycles.len() == 5,
        r0.shift_count == 0,
        r0.shift == 0,
        forall|i: int| 0 <= i < 5 ==> #[trigger] v[i] & 0x80 == 0,
        cycles[0] != r0.last_write_cycle,
        forall|i: int| 0 <= i < 4 ==> #[trigger] cycles[i] != cycles[i + 1],
    ensures
        ({
            let r1 = mmc1_serial_write(Mmc1Regs { cycle_count: cycles[0], ..r0 }, addr, v[0]);
            let r2 = mmc1_serial_write(Mmc1Regs { cycle_count: cycles[1], ..r1 }, addr, v[1]);
            let r3 = mmc1_serial_write(Mmc1Regs { cycle_count: cycles[2], ..r2 }, addr, v[2]);
            let r4 = mmc1_serial_write(Mmc1Regs { cycle_count: cycles[3], ..r3 }, addr, v[3]);
            let r5 = mmc1_serial_write(Mmc1Regs { cycle_count: cycles[4], ..r4 }, addr, v[4]);
            &&& r5.control == (v[0] & 1) | ((v[1] & 1) << 1) | ((v[2] & 1) << 2) | ((v[3] & 1) << 3) | ((v[4] & 1) << 4)
            &&& r5.shift == 0
            &&& r5.shift_count == 0
            &&& r5.chr_bank0 == r0.chr_bank0
            &&& r5.chr_bank1 == r0.chr_bank1
            &&& r5.prg_bank == r0.prg_bank
        }),
{
    let (a, b, c, d, e) = (v[0], v[1], v[2], v[3], v[4]);
    assert(v[0] & 0x80 == 0 && v[1] & 0x80 == 0 && v[2] & 0x80 == 0 && v[3] & 0x80 == 0 && v[4] & 0x80 == 0);
    assert(a & 0x80 == 0 && b & 0x80 == 0);
    let s1 = vstd::wrapping::u8_specs::wrapping_shl(a & 0x01, 0u32);
    let s2 = vstd::wrapping::u8_specs::wrapping_shl(b & 0x01, 1u32);
    let s3 = vstd::wrapping::u8_specs::wrapping_shl(c & 0x01, 2u32);
    let s4 = vstd::wrapping::u8_specs::wrapping_shl(d & 0x01, 3u32);
    let s5 = vstd::wrapping::u8_specs::wrapping_shl(e & 0x01, 4u32);
    assert(s1 == (a & 1) && s2 == ((b & 1) << 1) && s3 == ((c & 1) << 2) && s4 == ((d & 1) << 3) && s5 == (
    (e & 1) << 4)) by (bit_vector)
        requires
            s1 == (a & 0x01) << (0u32 % 8),
            s2 == (b & 0x01) << (1u32 % 8),
            s3 == (c & 0x01) << (2u32 % 8),
            s4 == (d & 0x01) << (3u32 % 8),
            s5 == (e & 0x01) << (4u32 % 8),
    ;
    assert(0u8 | s1 == s1) by (bit_vector);
}

/// One serial-port write to the register file.
pub fn mmc1_write_register(r: Mmc1Regs, addr: u16, value: u8) -> (out: Mmc1Regs)
    requires
        addr >= 0x8000,
    ensures
        out == mmc1_serial_write(r, addr, value),
{
    let mut r = r;
    if value & 0x80 != 0 {
        r.shift = 0;
        r.shift_count = 0;
        r.control = r.control | 0x0c;
        r.last_write_cycle = r.cycle_count;
        return r;
    }
    if r.cycle_count == r.last_write_cycle {
        return r;
    }
    r.shift = r.shift | (value & 0x01).wrapping_shl(r.shift_count as u32);
    r.shift_count = r.shift_count.wrapping_add(1);
    if r.shift_count == 5 {
        if addr <= 0x9fff {
            r.control = r.shift;
        } else if addr <= 0xbfff {
            r.chr_bank0 = r.shift;
            r.last_chr_reg = addr;
        } else if addr <= 0xdfff {
            r.chr_bank1 = r.shift;
            r.last_chr_reg = addr;
        } else {
            r.prg_bank = r.shift;
            r.wram_disable = r.shift & 0x10 != 0;
        }
        r.shift = 0;
        r.shift_count = 0;
    }
    r.last_write_cycle = r.cycle_count;
    r
}

} // verus!
