use vstd::prelude::*;
use crate::cartridge::{CartridgeImage, Mirroring};
use crate::common::error::{NesleError, Result};
use crate::cpu::InterruptLines;
use crate::mapper::banking::{lemma_bank_sizes_pow2, mem_read, prg_read_spec, spec_bank_count, ChrMemory, PrgMemory};
use crate::mapper::traits::Mapper;
use crate::mapper::{in_prg_ram_window, prg_ram_accepts, prg_ram_index, prg_ram_snapshot, restore_prg_ram, snapshot_prg_ram};

verus! {

/// MMC2 (board 9) or MMC4 (board 10).
#[derive(Debug, Clone, Copy, PartialEq, Eq)]
pub enum Mmc2Variant {
    Mmc2,
    Mmc4,
}

/// Boards 9 and 10: CHR banks switched by latches that PPU fetches of the
/// `$xFD8`/`$xFE8` tiles flip.
#[derive(Debug)]
pub struct Mmc2 {
    pub variant: Mmc2Variant,
    pub prg: PrgMemory,
    pub prg_ram: Vec<u8>,
    pub chr: ChrMemory,
    pub prg_bank: u8,
    pub chr_banks: [u8; 4],
    pub selected_chr_banks: [u8; 2],
    pub latch0: u8,
    pub latch1: u8,
    pub need_chr_update: bool,
    pub mirroring: Mirroring,
}

/// New value of the left latch when the PPU touches `a` (`a < $2000`),
/// if `a` is one of its trigger addresses: MMC2 uses exactly `$0FD8` and
/// `$0FE8`, MMC4 the ranges `$0FD8-$0FDF` and `$0FE8-$0FEF`.
pub open spec fn left_trigger(variant: Mmc2Variant, a: int) -> Option<u8> {
    match variant {
        Mmc2Variant::Mmc2 => if a == 0x0fd8 { Some(0u8) } else if a == 0x0fe8 { Some(1u8) } else { None },
        Mmc2Variant::Mmc4 => if 0x0fd8 <= a <= 0x0fdf {
            Some(0u8)
        } else if 0x0fe8 <= a <= 0x0fef {
            Some(1u8)
        } else {
            None
        },
    }
}

/// New value of the right latch when the PPU touches `a`.
pub open spec fn right_trigger(a: int) -> Option<u8> {
    if 0x1fd8 <= a <= 0x1fdf {
        Some(0u8)
    } else if 0x1fe8 <= a <= 0x1fef {
        Some(1u8)
    } else {
        None
    }
}

/// Snapshot byte of a mirroring mode.
pub open spec fn mirroring_tag(m: Mirroring) -> u8 {
    match m {
        Mirroring::Horizontal => 0,
        Mirroring::Vertical => 1,
        Mirroring::FourScreen => 2,
        Mirroring::SingleScreenLower => 3,
        Mirroring::SingleScreenUpper => 4,
    }
}

/// Mirroring mode of a snapshot byte (`None` above 4).
pub open spec fn mirroring_of_tag(v: u8) -> Option<Mirroring> {
    if v == 0 {
        Some(Mirroring::Horizontal)
    } else if v == 1 {
        Some(Mirroring::Vertical)
    } else if v == 2 {
        Some(Mirroring::FourScreen)
    } else if v == 3 {
        Some(Mirroring::SingleScreenLower)
    } else if v == 4 {
        Some(Mirroring::SingleScreenUpper)
    } else {
        None
    }
}

/// Snapshot byte of a mirroring mode.
pub fn mirroring_to_byte(m: Mirroring) -> (r: u8)
    ensures
        r == mirroring_tag(m),
{
    match m {
        Mirroring::Horizontal => 0,
        Mirroring::Vertical => 1,
        Mirroring::FourScreen => 2,
        Mirroring::SingleScreenLower => 3,
        Mirroring::SingleScreenUpper => 4,
    }
}

/// Mirroring mode of a snapshot byte.
pub fn mirroring_from_byte(v: u8) -> (r: Option<Mirroring>)
    ensures
        r == mirroring_of_tag(v),
{
    if v == 0 {
        Some(Mirroring::Horizontal)
    } else if v == 1 {
        Some(Mirroring::Vertical)
    } else if v == 2 {
        Some(Mirroring::FourScreen)
    } else if v == 3 {
        Some(Mirroring::SingleScreenLower)
    } else if v == 4 {
        Some(Mirroring::SingleScreenUpper)
    } else {
        None
    }
}

impl Mmc2 {
    /// 8 KiB PRG bank mapped at `addr >= $8000`: MMC2 switches `$8000`
    /// and fixes the last three banks; MMC4 switches a 16 KiB pair at
    /// `$8000` and fixes the last two.
    pub open spec fn prg_bank_spec(&self, addr: u16) -> int {
        let count = spec_bank_count(self.prg.spec_rom().len() as int, 0x2000);
        let sat = |k: int| if count >= k { count - k } else { 0 };
        let bank = (self.prg_bank & 0x0f) as int;
        match self.variant {
            Mmc2Variant::Mmc2 => if addr <= 0x9fff {
                bank
            } else if addr <= 0xbfff {
                sat(3)
            } else if addr <= 0xdfff {
                sat(2)
            } else {
                sat(1)
            },
            Mmc2Variant::Mmc4 => if addr <= 0x9fff {
                bank * 2
            } else if addr <= 0xbfff {
                bank * 2 + 1
            } else if addr <= 0xdfff {
                sat(2)
            } else {
                sat(1)
            },
        }
    }

    pub open spec fn prg_byte(&self, addr: u16) -> u8 {
        prg_read_spec(self.prg.spec_rom(), 0x2000, self.prg_bank_spec(addr), addr as int)
    }

    /// CPU bus value at `addr`.
    pub open spec fn cpu_value(&self, addr: u16, open_bus: u8) -> u8 {
        if in_prg_ram_window(addr, self.prg_ram@) {
            self.prg_ram@[prg_ram_index(addr, self.prg_ram@)]
        } else if addr < 0x8000 {
            open_bus
        } else {
            self.prg_byte(addr)
        }
    }

    /// CHR offset of `addr` through the selected 4 KiB bank of its half.
    pub open spec fn chr_offset_spec(&self, addr: u16) -> int {
        let bank = if addr < 0x1000 { self.selected_chr_banks@[0] } else { self.selected_chr_banks@[1] };
        (bank as int % self.chr.chr_bank_count(0x1000)) * 0x1000 + (addr & 0x0fff) as int
    }

    /// Latch state after the PPU touches `addr`: a pending bank update is
    /// applied first, then a trigger address flips its latch and schedules
    /// the next update. Returns (selected banks, latch0, latch1, pending).
    pub open spec fn latched(&self, addr: u16) -> (Seq<u8>, u8, u8, bool) {
        let a = (addr & 0x1fff) as int;
        let sel = if self.need_chr_update {
            seq![self.chr_banks@[(self.latch0 & 1) as int], self.chr_banks@[2 + (self.latch1 & 1) as int]]
        } else {
            self.selected_chr_banks@
        };
        match left_trigger(self.variant, a) {
            Some(l) => (sel, l, self.latch1, true),
            None => match right_trigger(a) {
                Some(l) => (sel, self.latch0, l, true),
                None => (sel, self.latch0, self.latch1, false),
            },
        }
    }

    /// Snapshot: PRG bank, four CHR banks, two selected banks, the two
    /// latches, the pending flag, mirroring, PRG RAM, then CHR state.
    pub open spec fn snapshot_spec(&self) -> Seq<u8> {
        seq![self.prg_bank] + self.chr_banks@ + self.selected_chr_banks@ + seq![
            self.latch0,
            self.latch1,
            if self.need_chr_update { 1u8 } else { 0u8 },
            mirroring_tag(self.mirroring),
        ] + prg_ram_snapshot(self.prg_ram@) + self.chr.snapshot_spec()
    }

    pub open spec fn fresh(&self, cartridge: CartridgeImage, variant: Mmc2Variant) -> bool {
        &&& self.inv()
        &&& self.variant == variant
        &&& self.prg.spec_rom() == cartridge.prg_rom@
        &&& cartridge.is_initialized_prg_ram(self.prg_ram@, if cartridge.battery { 0x2000 } else { 0 })
        &&& self.chr.is_fresh(cartridge, 0x2000)
        &&& self.prg_bank == 0
        &&& self.chr_banks@ == seq![0u8, 0u8, 0u8, 0u8]
        &&& self.selected_chr_banks@ == seq![0u8, 0u8]
        &&& self.latch0 == 1
        &&& self.latch1 == 1
        &&& !self.need_chr_update
        &&& self.mirroring == cartridge.mirroring
    }

    /// MMC2 board.
    pub fn new(cartridge: &CartridgeImage) -> (r: Self)
        requires
            cartridge.fits_in_memory(),
        ensures
            r.fresh(*cartridge, Mmc2Variant::Mmc2),
    {
        Self::with_variant(cartridge, Mmc2Variant::Mmc2)
    }

    /// MMC4 board.
    pub fn new_mmc4(cartridge: &CartridgeImage) -> (r: Self)
        requires
            cartridge.fits_in_memory(),
        ensures
            r.fresh(*cartridge, Mmc2Variant::Mmc4),
    {
        Self::with_variant(cartridge, Mmc2Variant::Mmc4)
    }

    fn with_variant(cartridge: &CartridgeImage, variant: Mmc2Variant) -> (r: Self)
        requires
            cartridge.fits_in_memory(),
        ensures
            r.fresh(*cartridge, variant),
    {
        proof {
            lemma_bank_sizes_pow2();
        }
        let r = Mmc2 {
            variant,
            prg: PrgMemory::new(cartridge.prg_rom.clone(), 0x2000),
            prg_ram: cartridge.initialized_prg_ram(if cartridge.battery { 0x2000 } else { 0 }),
            chr: ChrMemory::new(cartridge, 0x2000),
            prg_bank: 0,
            chr_banks: [0u8, 0u8, 0u8, 0u8],
            selected_chr_banks: [0u8, 0u8],
            latch0: 1,
            latch1: 1,
            need_chr_update: false,
            mirroring: cartridge.mirroring,
        };
        assert(r.chr_banks@ =~= seq![0u8, 0u8, 0u8, 0u8]);
        assert(r.selected_chr_banks@ =~= seq![0u8, 0u8]);
        r
    }

    fn prg_bank_for(&self, addr: u16) -> (r: usize)
        requires
            self.inv(),
        ensures
            r == self.prg_bank_spec(addr),
    {
        let count = self.prg.bank_count();
        let bank = (self.prg_bank & 0x0f) as usize;
        match self.variant {
            Mmc2Variant::Mmc2 => if addr <= 0x9fff {
                bank
            } else if addr <= 0xbfff {
                count.saturating_sub(3)
            } else if addr <= 0xdfff {
                count.saturating_sub(2)
            } else {
                count.saturating_sub(1)
            },
            Mmc2Variant::Mmc4 => if addr <= 0x9fff {
                bank * 2
            } else if addr <= 0xbfff {
                bank * 2 + 1
            } else if addr <= 0xdfff {
                count.saturating_sub(2)
            } else {
                count.saturating_sub(1)
            },
        }
    }

    fn chr_offset(&self, addr: u16) -> (r: usize)
        requires
            self.chr.wf(),
        ensures
            r == self.chr_offset_spec(addr),
    {
        let b = if addr < 0x1000 { self.selected_chr_banks[0] } else { self.selected_chr_banks[1] };
        let count = self.chr.bank_count(0x1000);
        let bank = (b as usize) % count;
        assert((addr & 0x0fff) < 0x1000) by (bit_vector);
        proof {
            assert(bank * 0x1000 + 0x1000 <= count * 0x1000) by (nonlinear_arith)
                requires
                    bank < count,
            ;
        }
        bank * 0x1000 + (addr & 0x0fff) as usize
    }

    fn apply_vram_latch(&mut self, addr: u16)
        ensures
            (final(self).selected_chr_banks@, final(self).latch0, final(self).latch1, final(self).need_chr_update)
                == old(self).latched(addr),
            final(self).chr_banks == old(self).chr_banks,
            final(self).variant == old(self).variant,
            final(self).prg == old(self).prg,
            final(self).prg_ram == old(self).prg_ram,
            final(self).chr == old(self).chr,
            final(self).prg_bank == old(self).prg_bank,
            final(self).mirroring == old(self).mirroring,
    {
        let l0 = self.latch0;
        let l1 = self.latch1;
        assert(l0 & 1 <= 1 && l1 & 1 <= 1) by (bit_vector);
        if self.need_chr_update {
            self.selected_chr_banks[0] = self.chr_banks[(self.latch0 & 1) as usize];
            self.selected_chr_banks[1] = self.chr_banks[2 + (self.latch1 & 1) as usize];
            self.need_chr_update = false;
            assert(self.selected_chr_banks@ =~= seq![
                old(self).chr_banks@[(old(self).latch0 & 1) as int],
                old(self).chr_banks@[2 + (old(self).latch1 & 1) as int],
            ]);
        }
        let a = addr & 0x1fff;
        let mmc2 = match self.variant {
            Mmc2Variant::Mmc2 => true,
            Mmc2Variant::Mmc4 => false,
        };
        if mmc2 && a == 0x0fd8 {
            self.latch0 = 0;
            self.need_chr_update = true;
        } else if mmc2 && a == 0x0fe8 {
            self.latch0 = 1;
            self.need_chr_update = true;
        } else if !mmc2 && 0x0fd8 <= a && a <= 0x0fdf {
            self.latch0 = 0;
            self.need_chr_update = true;
        } else if !mmc2 && 0x0fe8 <= a && a <= 0x0fef {
            self.latch0 = 1;
            self.need_chr_update = true;
        } else if 0x1fd8 <= a && a <= 0x1fdf {
            self.latch1 = 0;
            self.need_chr_update = true;
        } else if 0x1fe8 <= a && a <= 0x1fef {
            self.latch1 = 1;
            self.need_chr_update = true;
        }
    }
}

impl Mapper for Mmc2 {
    open spec fn inv(&self) -> bool {
        &&& self.prg.wf()
        &&& self.prg.spec_bank_size() == 0x2000
        &&& self.chr.wf()
    }

    fn mapper_id(&self) -> (r: u16)
        ensures
            r == match self.variant {
                Mmc2Variant::Mmc2 => 9u16,
                Mmc2Variant::Mmc4 => 10u16,
            },
    {
        match self.variant {
            Mmc2Variant::Mmc2 => 9,
            Mmc2Variant::Mmc4 => 10,
        }
    }

    fn name(&self) -> (r: &'static str)
        ensures
            r@ == match self.variant {
                Mmc2Variant::Mmc2 => "MMC2"@,
                Mmc2Variant::Mmc4 => "MMC4"@,
            },
    {
        match self.variant {
            Mmc2Variant::Mmc2 => "MMC2",
            Mmc2Variant::Mmc4 => "MMC4",
        }
    }

    open spec fn cpu_read_value(&self, addr: u16, next: Self, r: u8) -> bool {
        &&& r == self.cpu_value(addr, 0)
        &&& next == *self
    }

    fn cpu_read(&mut self, addr: u16) -> (r: u8) {
        if 0x6000 <= addr && addr <= 0x7fff && self.prg_ram.len() > 0 {
            return self.prg_ram[((addr - 0x6000) as usize) % self.prg_ram.len()];
        }
        if addr < 0x8000 {
            return 0;
        }
        self.prg.read(self.prg_bank_for(addr), addr)
    }

    fn cpu_code_read(&self, addr: u16) -> (r: Option<u8>)
        ensures
            r == if addr < 0x8000 { None } else { Some(self.prg_byte(addr)) },
    {
        if addr < 0x8000 {
            return None;
        }
        Some(self.prg.read(self.prg_bank_for(addr), addr))
    }

    open spec fn cpu_read_result(&self, addr: u16, open_bus: u8, interrupt: InterruptLines, next: Self, next_interrupt: InterruptLines, r: u8) -> bool {
        &&& r == self.cpu_value(addr, open_bus)
        &&& next == *self
        &&& next_interrupt == interrupt
    }

    fn cpu_read_open_bus(&mut self, addr: u16, open_bus: u8, interrupt: &mut InterruptLines) -> (r: u8) {
        if 0x6000 <= addr && addr <= 0x7fff && self.prg_ram.len() > 0 {
            return self.prg_ram[((addr - 0x6000) as usize) % self.prg_ram.len()];
        }
        if addr < 0x8000 {
            return open_bus;
        }
        self.prg.read(self.prg_bank_for(addr), addr)
    }

    open spec fn cpu_written(&self, addr: u16, value: u8, interrupt: InterruptLines, next: Self, next_interrupt: InterruptLines) -> bool {
        &&& next.variant == self.variant
        &&& next.prg == self.prg
        &&& next.chr == self.chr
        &&& next.latch0 == self.latch0
        &&& next.latch1 == self.latch1
        &&& next.need_chr_update == self.need_chr_update
        &&& next_interrupt == interrupt
        &&& (in_prg_ram_window(addr, self.prg_ram@) ==> {
            &&& next.prg_ram@ == self.prg_ram@.update(prg_ram_index(addr, self.prg_ram@), value)
            &&& next.prg_bank == self.prg_bank
            &&& next.chr_banks == self.chr_banks
            &&& next.selected_chr_banks == self.selected_chr_banks
            &&& next.mirroring == self.mirroring
        })
        &&& (!in_prg_ram_window(addr, self.prg_ram@) ==> {
            let reg = addr & 0xf000;
            let banks = if 0xb000 <= reg <= 0xe000 {
                self.chr_banks@.update(((reg - 0xb000) / 0x1000) as int, value & 0x1f)
            } else {
                self.chr_banks@
            };
            &&& next.prg_ram == self.prg_ram
            &&& next.prg_bank == if reg == 0xa000 { value & 0x0f } else { self.prg_bank }
            &&& next.chr_banks@ == banks
            &&& next.selected_chr_banks@ == if reg == 0xb000 || reg == 0xc000 {
                self.selected_chr_banks@.update(0, banks[(self.latch0 & 1) as int])
            } else if reg == 0xd000 || reg == 0xe000 {
                self.selected_chr_banks@.update(1, banks[2 + (self.latch1 & 1) as int])
            } else {
                self.selected_chr_banks@
            }
            &&& next.mirroring == if reg == 0xf000 {
                if value & 1 == 0 { Mirroring::Vertical } else { Mirroring::Horizontal }
            } else {
                self.mirroring
            }
        })
    }

    /// PRG RAM write in its window; registers by `addr & $F000`: `$A000`
    /// PRG bank, `$B000-$E000` CHR banks (refreshing the selected bank of
    /// that half from its latch), `$F000` mirroring.
    fn cpu_write(&mut self, addr: u16, value: u8, interrupt: &mut InterruptLines) {
        if 0x6000 <= addr && addr <= 0x7fff && self.prg_ram.len() > 0 {
            let len = self.prg_ram.len();
            self.prg_ram.set(((addr - 0x6000) as usize) % len, value);
            return;
        }
        let reg = addr & 0xf000;
        let l0 = self.latch0;
        let l1 = self.latch1;
        assert(l0 & 1 <= 1 && l1 & 1 <= 1) by (bit_vector);
        if reg == 0xa000 {
            self.prg_bank = value & 0x0f;
        } else if reg == 0xb000 {
            self.chr_banks[0] = value & 0x1f;
            self.selected_chr_banks[0] = self.chr_banks[(self.latch0 & 1) as usize];
        } else if reg == 0xc000 {
            self.chr_banks[1] = value & 0x1f;
            self.selected_chr_banks[0] = self.chr_banks[(self.latch0 & 1) as usize];
        } else if reg == 0xd000 {
            self.chr_banks[2] = value & 0x1f;
            self.selected_chr_banks[1] = self.chr_banks[2 + (self.latch1 & 1) as usize];
        } else if reg == 0xe000 {
            self.chr_banks[3] = value & 0x1f;
            self.selected_chr_banks[1] = self.chr_banks[2 + (self.latch1 & 1) as usize];
        } else if reg == 0xf000 {
            self.mirroring = if value & 1 == 0 { Mirroring::Vertical } else { Mirroring::Horizontal };
        }
        proof {
            assert(reg == 0xb000 ==> (reg - 0xb000) / 0x1000 == 0);
            assert(reg == 0xc000 ==> (reg - 0xb000) / 0x1000 == 1);
            assert(reg == 0xd000 ==> (reg - 0xb000) / 0x1000 == 2);
            assert(reg == 0xe000 ==> (reg - 0xb000) / 0x1000 == 3);
            assert(0xb000 <= reg <= 0xe000 ==> reg == 0xb000 || reg == 0xc000 || reg == 0xd000 || reg == 0xe000)
                by (bit_vector)
                requires
                    reg == addr & 0xf000,
            ;
        }
    }

    open spec fn ppu_read_result(&self, addr: u16, next: Self, r: u8) -> bool {
        &&& ((next.selected_chr_banks@, next.latch0, next.latch1, next.need_chr_update)
            == self.latched(addr))
        &&& next.chr_banks == self.chr_banks
        &&& next.variant == self.variant
        &&& next.prg == self.prg
        &&& next.prg_ram == self.prg_ram
        &&& next.chr == self.chr
        &&& next.prg_bank == self.prg_bank
        &&& next.mirroring == self.mirroring
        &&& r == mem_read(next.chr.spec_rom(), next.chr.spec_ram(), next.chr_offset_spec(addr))
    }

    /// Applies the latch step for `addr`, then reads through the selected
    /// bank.
    fn ppu_read(&mut self, addr: u16) -> (r: u8) {
        self.apply_vram_latch(addr);
        let offset = self.chr_offset(addr);
        self.chr.read(offset)
    }

    /// Read through the selected bank without touching the latches.
    fn debug_ppu_read(&self, addr: u16) -> (r: u8)
        ensures
            r == mem_read(self.chr.spec_rom(), self.chr.spec_ram(), self.chr_offset_spec(addr)),
    {
        self.chr.read(self.chr_offset(addr))
    }

    open spec fn ppu_written(&self, addr: u16, value: u8, next: Self) -> bool {
        &&& ((next.selected_chr_banks@, next.latch0, next.latch1, next.need_chr_update)
            == self.latched(addr))
        &&& next.chr_banks == self.chr_banks
        &&& next.variant == self.variant
        &&& next.prg == self.prg
        &&& next.prg_ram == self.prg_ram
        &&& next.prg_bank == self.prg_bank
        &&& next.mirroring == self.mirroring
        &&& next.chr.spec_rom() == self.chr.spec_rom()
        &&& next.chr.spec_pages() == self.chr.spec_pages()
        &&& next.chr.spec_ram() == self.chr.written(next.chr_offset_spec(addr), value)
    }

    fn ppu_write(&mut self, addr: u16, value: u8) {
        self.apply_vram_latch(addr);
        let offset = self.chr_offset(addr);
        self.chr.write(offset, value);
    }

    /// Nametables live in console RAM: the board serves no nametable
    /// access.
    open spec fn nametable_read_result(
        &self,
        addr: u16,
        ciram: Seq<u8>,
        interrupt: InterruptLines,
        next: Self,
        next_interrupt: InterruptLines,
        r: Option<u8>,
    ) -> bool {
        r is None && next == *self && next_interrupt == interrupt
    }

    open spec fn nametable_written(
        &self,
        addr: u16,
        value: u8,
        ciram: Seq<u8>,
        next: Self,
        next_ciram: Seq<u8>,
        r: bool,
    ) -> bool {
        !r && next == *self && next_ciram == ciram
    }

    fn ppu_read_nametable(&mut self, addr: u16, ciram: &[u8; 0x1000], interrupt: &mut InterruptLines) -> (r: Option<u8>) {
        None
    }

    fn ppu_write_nametable(&mut self, addr: u16, value: u8, ciram: &mut [u8; 0x1000]) -> (r: bool) {
        false
    }

    open spec fn mirrors(&self, m: Mirroring) -> bool {
        m == self.mirroring
    }

    /// Writes reach the board unchanged: no bus conflicts.
    open spec fn conflicts_are(&self, r: bool) -> bool {
        !r
    }

    fn has_bus_conflicts(&self) -> (r: bool) {
        false
    }

    fn nametable_mirroring(&self) -> (r: Mirroring) {
        self.mirroring
    }

    open spec fn watches_vram_addr(&self) -> bool {
        true
    }

    /// The latch step runs on every PPU address change.
    open spec fn vram_addr_notified(
        &self,
        addr: u16,
        cpu_cycle_count: u64,
        interrupt: InterruptLines,
        next: Self,
        next_interrupt: InterruptLines,
    ) -> bool {
        &&& (next.selected_chr_banks@, next.latch0, next.latch1, next.need_chr_update) == self.latched(addr)
        &&& next.chr_banks == self.chr_banks
        &&& next.variant == self.variant
        &&& next.prg == self.prg
        &&& next.prg_ram == self.prg_ram
        &&& next.chr == self.chr
        &&& next.prg_bank == self.prg_bank
        &&& next.mirroring == self.mirroring
        &&& next_interrupt == interrupt
    }

    fn has_vram_addr_hook(&self) -> (r: bool) {
        true
    }

    /// Clears the bank registers and latches and schedules a bank update.
    fn soft_reset(&mut self)
        ensures
            final(self).prg_bank == 0,
            final(self).chr_banks@ == seq![0u8, 0u8, 0u8, 0u8],
            final(self).selected_chr_banks@ == seq![0u8, 0u8],
            final(self).latch0 == 0,
            final(self).latch1 == 0,
            final(self).need_chr_update,
            final(self).variant == old(self).variant,
            final(self).prg == old(self).prg,
            final(self).prg_ram == old(self).prg_ram,
            final(self).chr == old(self).chr,
            final(self).mirroring == old(self).mirroring,
    {
        self.prg_bank = 0;
        self.chr_banks[0] = 0;
        self.chr_banks[1] = 0;
        self.chr_banks[2] = 0;
        self.chr_banks[3] = 0;
        self.selected_chr_banks[0] = 0;
        self.selected_chr_banks[1] = 0;
        self.latch0 = 0;
        self.latch1 = 0;
        self.need_chr_update = true;
        assert(self.chr_banks@ =~= seq![0u8, 0u8, 0u8, 0u8]);
        assert(self.selected_chr_banks@ =~= seq![0u8, 0u8]);
    }

    fn notify_vram_addr(&mut self, addr: u16, cpu_cycle_count: u64, interrupt: &mut InterruptLines) {
        self.apply_vram_latch(addr);
    }

    fn snapshot_bytes(&self) -> (r: Vec<u8>)
        ensures
            r@ == self.snapshot_spec(),
    {
        let mut bytes: Vec<u8> = Vec::new();
        bytes.push(self.prg_bank);
        bytes.push(self.chr_banks[0]);
        bytes.push(self.chr_banks[1]);
        bytes.push(self.chr_banks[2]);
        bytes.push(self.chr_banks[3]);
        bytes.push(self.selected_chr_banks[0]);
        bytes.push(self.selected_chr_banks[1]);
        bytes.push(self.latch0);
        bytes.push(self.latch1);
        bytes.push(if self.need_chr_update { 1u8 } else { 0u8 });
        bytes.push(mirroring_to_byte(self.mirroring));
        snapshot_prg_ram(&mut bytes, self.prg_ram.as_slice());
        self.chr.snapshot_bytes(&mut bytes);
        assert(bytes@ =~= self.snapshot_spec());
        bytes
    }

    fn restore_snapshot(&mut self, bytes: &[u8]) -> (r: Result<()>)
        ensures
            final(self).variant == old(self).variant,
            final(self).prg == old(self).prg,
            final(self).prg_ram@.len() == old(self).prg_ram@.len(),
            final(self).chr.spec_rom() == old(self).chr.spec_rom(),
            ({
                let b = bytes@;
                let n = old(self).prg_ram@.len() as int;
                &&& r is Ok <==> (b.len() >= 15 && mirroring_of_tag(b[10]) is Some && prg_ram_accepts(b, 11, n)
                    && old(self).chr.restore_accepts(b, 15 + n))
                &&& r is Ok ==> {
                    &&& final(self).prg_bank == b[0] & 0x0f
                    &&& final(self).chr_banks@ == seq![b[1] & 0x1f, b[2] & 0x1f, b[3] & 0x1f, b[4] & 0x1f]
                    &&& final(self).selected_chr_banks@ == seq![b[5] & 0x1f, b[6] & 0x1f]
                    &&& final(self).latch0 == b[7] & 1
                    &&& final(self).latch1 == b[8] & 1
                    &&& final(self).need_chr_update == (b[9] != 0)
                    &&& Some(final(self).mirroring) == mirroring_of_tag(b[10])
                    &&& final(self).prg_ram@ == b.subrange(15, 15 + n)
                    &&& ChrMemory::restored(old(self).chr, final(self).chr, b, 15 + n)
                }
                &&& r is Err ==> r matches Err(NesleError::InvalidState(_))
            }),
    {
        if bytes.len() < 15 {
            return Err(NesleError::invalid_state("MMC2 snapshot is missing register bytes"));
        }
        self.prg_bank = bytes[0] & 0x0f;
        self.chr_banks[0] = bytes[1] & 0x1f;
        self.chr_banks[1] = bytes[2] & 0x1f;
        self.chr_banks[2] = bytes[3] & 0x1f;
        self.chr_banks[3] = bytes[4] & 0x1f;
        self.selected_chr_banks[0] = bytes[5] & 0x1f;
        self.selected_chr_banks[1] = bytes[6] & 0x1f;
        self.latch0 = bytes[7] & 1;
        self.latch1 = bytes[8] & 1;
        self.need_chr_update = bytes[9] != 0;
        self.mirroring = match mirroring_from_byte(bytes[10]) {
            Some(m) => m,
            None => return Err(NesleError::invalid_state("MMC2 snapshot has invalid mirroring byte")),
        };
        assert(self.chr_banks@ =~= seq![bytes@[1] & 0x1f, bytes@[2] & 0x1f, bytes@[3] & 0x1f, bytes@[4] & 0x1f]);
        assert(self.selected_chr_banks@ =~= seq![bytes@[5] & 0x1f, bytes@[6] & 0x1f]);
        let mut offset = match restore_prg_ram(bytes, 11, &mut self.prg_ram, "MMC2") {
            Ok(o) => o,
            Err(e) => return Err(e),
        };
        self.chr.restore_snapshot(bytes, &mut offset, "MMC2")
    }
}

} // verus!
