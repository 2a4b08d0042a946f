use vstd::prelude::*;
use crate::cartridge::{CartridgeImage, Mirroring};
use crate::common::error::{NesleError, Result};
use crate::cpu::InterruptLines;
use crate::mapper::banking::{lemma_bank_sizes_pow2, mem_read, prg_read_spec, ChrMemory, PrgMemory};
use crate::mapper::traits::Mapper;
use crate::mapper::{in_prg_ram_window, prg_ram_accepts, prg_ram_index, prg_ram_snapshot, restore_prg_ram, snapshot_prg_ram};

verus! {

/// Board 0: 16 KiB PRG ROM mirrored (or 32 KiB), fixed 8 KiB CHR, optional
/// PRG RAM at `$6000`.
#[derive(Debug)]
pub struct Nrom {
    pub prg: PrgMemory,
    pub prg_ram: Vec<u8>,
    pub chr: ChrMemory,
    pub mirroring: Mirroring,
}

/// PRG ROM byte at `addr >= $8000`: 16 KiB bank 0 below `$C000`, bank 1
/// above (bank 1 wraps to bank 0 on a 16 KiB ROM).
pub open spec fn nrom_prg_byte(prg: PrgMemory, addr: u16) -> u8 {
    prg_read_spec(prg.spec_rom(), 0x4000, if addr < 0xc000 { 0 } else { 1 }, addr as int)
}

impl Nrom {
    /// CPU bus value at `addr`: PRG RAM in its window, `open_bus` below
    /// `$8000` elsewhere, PRG ROM above.
    pub open spec fn cpu_value(&self, addr: u16, open_bus: u8) -> u8 {
        if in_prg_ram_window(addr, self.prg_ram@) {
            self.prg_ram@[prg_ram_index(addr, self.prg_ram@)]
        } else if addr < 0x8000 {
            open_bus
        } else {
            nrom_prg_byte(self.prg, addr)
        }
    }

    /// Snapshot: PRG RAM, then CHR state.
    pub open spec fn snapshot_spec(&self) -> Seq<u8> {
        prg_ram_snapshot(self.prg_ram@) + self.chr.snapshot_spec()
    }

    pub fn new(cartridge: &CartridgeImage) -> (r: Self)
        requires
            cartridge.fits_in_memory(),
        ensures
            r.inv(),
            r.prg.spec_rom() == cartridge.prg_rom@,
            cartridge.is_initialized_prg_ram(r.prg_ram@, 0),
            r.chr.is_fresh(*cartridge, 0x2000),
            r.mirroring == cartridge.mirroring,
    {
        proof {
            lemma_bank_sizes_pow2();
        }
        Nrom {
            prg: PrgMemory::new(cartridge.prg_rom.clone(), 0x4000),
            prg_ram: cartridge.initialized_prg_ram(0),
            chr: ChrMemory::new(cartridge, 0x2000),
            mirroring: cartridge.mirroring,
        }
    }
}

impl Mapper for Nrom {
    open spec fn inv(&self) -> bool {
        self.prg.wf() && self.prg.spec_bank_size() == 0x4000
    }

    fn mapper_id(&self) -> (r: u16)
        ensures
            r == 0,
    {
        0
    }

    fn name(&self) -> (r: &'static str)
        ensures
            r@ == "NROM"@,
    {
        "NROM"
    }

    open spec fn cpu_read_value(&self, addr: u16, next: Self, r: u8) -> bool {
        &&& r == self.cpu_value(addr, 0)
        &&& next == *self
    }

    fn cpu_read(&mut self, addr: u16) -> (r: u8) {
        if 0x6000 <= addr && addr <= 0x7fff && self.prg_ram.len() > 0 {
            return self.prg_ram[((addr - 0x6000) as usize) % self.prg_ram.len()];
        }
        if addr < 0x8000 {
            return 0;
        }
        let bank: usize = if addr < 0xc000 { 0 } else { 1 };
        self.prg.read(bank, addr)
    }

    fn cpu_code_read(&self, addr: u16) -> (r: Option<u8>)
        ensures
            r == if addr < 0x8000 { None } else { Some(nrom_prg_byte(self.prg, addr)) },
    {
        if addr < 0x8000 {
            return None;
        }
        let bank: usize = if addr < 0xc000 { 0 } else { 1 };
        Some(self.prg.read(bank, addr))
    }

    open spec fn cpu_read_result(&self, addr: u16, open_bus: u8, interrupt: InterruptLines, next: Self, next_interrupt: InterruptLines, r: u8) -> bool {
        &&& r == self.cpu_value(addr, open_bus)
        &&& next == *self
        &&& next_interrupt == interrupt
    }

    fn cpu_read_open_bus(&mut self, addr: u16, open_bus: u8, interrupt: &mut InterruptLines) -> (r: u8) {
        if 0x6000 <= addr && addr <= 0x7fff && self.prg_ram.len() > 0 {
            return self.prg_ram[((addr - 0x6000) as usize) % self.prg_ram.len()];
        }
        if addr < 0x8000 {
            return open_bus;
        }
        let bank: usize = if addr < 0xc000 { 0 } else { 1 };
        self.prg.read(bank, addr)
    }

    open spec fn cpu_written(&self, addr: u16, value: u8, interrupt: InterruptLines, next: Self, next_interrupt: InterruptLines) -> bool {
        &&& next.prg == self.prg
        &&& next.chr == self.chr
        &&& next.mirroring == self.mirroring
        &&& (next.prg_ram@ == if in_prg_ram_window(addr, self.prg_ram@) {
            self.prg_ram@.update(prg_ram_index(addr, self.prg_ram@), value)
        } else {
            self.prg_ram@
        })
        &&& next_interrupt == interrupt
    }

    fn cpu_write(&mut self, addr: u16, value: u8, interrupt: &mut InterruptLines) {
        if 0x6000 <= addr && addr <= 0x7fff && self.prg_ram.len() > 0 {
            let len = self.prg_ram.len();
            self.prg_ram.set(((addr - 0x6000) as usize) % len, value);
        }
    }

    open spec fn ppu_read_result(&self, addr: u16, next: Self, r: u8) -> bool {
        &&& r == mem_read(self.chr.spec_rom(), self.chr.spec_ram(), (addr & 0x1fff) as int)
        &&& next == *self
    }

    fn ppu_read(&mut self, addr: u16) -> (r: u8) {
        self.chr.read((addr & 0x1fff) as usize)
    }

    fn debug_ppu_read(&self, addr: u16) -> (r: u8)
        ensures
            r == mem_read(self.chr.spec_rom(), self.chr.spec_ram(), (addr & 0x1fff) as int),
    {
        self.chr.read((addr & 0x1fff) as usize)
    }

    open spec fn ppu_written(&self, addr: u16, value: u8, next: Self) -> bool {
        &&& next.prg == self.prg
        &&& next.prg_ram == self.prg_ram
        &&& next.mirroring == self.mirroring
        &&& next.chr.spec_rom() == self.chr.spec_rom()
        &&& next.chr.spec_pages() == self.chr.spec_pages()
        &&& next.chr.spec_ram() == self.chr.written((addr & 0x1fff) as int, value)
    }

    fn ppu_write(&mut self, addr: u16, value: u8) {
        self.chr.write((addr & 0x1fff) as usize, value);
    }

    /// The board does not watch the PPU address bus.
    fn has_vram_addr_hook(&self) -> (r: bool) {
        false
    }

    fn notify_vram_addr(&mut self, addr: u16, cpu_cycle_count: u64, interrupt: &mut InterruptLines) {
    }

    /// Nametables live in console RAM: the board serves no nametable
    /// access.
    open spec fn nametable_read_result(
        &self,
        addr: u16,
        ciram: Seq<u8>,
        interrupt: InterruptLines,
        next: Self,
        next_interrupt: InterruptLines,
        r: Option<u8>,
    ) -> bool {
        r is None && next == *self && next_interrupt == interrupt
    }

    open spec fn nametable_written(
        &self,
        addr: u16,
        value: u8,
        ciram: Seq<u8>,
        next: Self,
        next_ciram: Seq<u8>,
        r: bool,
    ) -> bool {
        !r && next == *self && next_ciram == ciram
    }

    fn ppu_read_nametable(&mut self, addr: u16, ciram: &[u8; 0x1000], interrupt: &mut InterruptLines) -> (r: Option<u8>) {
        None
    }

    fn ppu_write_nametable(&mut self, addr: u16, value: u8, ciram: &mut [u8; 0x1000]) -> (r: bool) {
        false
    }

    open spec fn mirrors(&self, m: Mirroring) -> bool {
        m == self.mirroring
    }

    /// Writes reach the board unchanged: no bus conflicts.
    open spec fn conflicts_are(&self, r: bool) -> bool {
        !r
    }

    fn has_bus_conflicts(&self) -> (r: bool) {
        false
    }

    fn nametable_mirroring(&self) -> (r: Mirroring) {
        self.mirroring
    }

    fn snapshot_bytes(&self) -> (r: Vec<u8>)
        ensures
            r@ == self.snapshot_spec(),
    {
        let mut bytes: Vec<u8> = Vec::new();
        snapshot_prg_ram(&mut bytes, self.prg_ram.as_slice());
        self.chr.snapshot_bytes(&mut bytes);
        assert(bytes@ =~= self.snapshot_spec());
        bytes
    }

    fn restore_snapshot(&mut self, bytes: &[u8]) -> (r: Result<()>)
        ensures
            final(self).prg == old(self).prg,
            final(self).mirroring == old(self).mirroring,
            final(self).prg_ram@.len() == old(self).prg_ram@.len(),
            final(self).chr.spec_rom() == old(self).chr.spec_rom(),
            r is Ok <==> (prg_ram_accepts(bytes@, 0, old(self).prg_ram@.len() as int) && old(self).chr.restore_accepts(bytes@, 4 + old(self).prg_ram@.len() as int)),
            r is Ok ==> final(self).prg_ram@ == bytes@.subrange(4, 4 + old(self).prg_ram@.len() as int),
            r is Ok ==> ChrMemory::restored(old(self).chr, final(self).chr, bytes@, 4 + old(self).prg_ram@.len() as int),
            r is Err ==> r matches Err(NesleError::InvalidState(_)),
    {
        let mut offset = match restore_prg_ram(bytes, 0, &mut self.prg_ram, "NROM") {
            Ok(o) => o,
            Err(e) => return Err(e),
        };
        assert(offset == 4 + old(self).prg_ram@.len());
        self.chr.restore_snapshot(bytes, &mut offset, "NROM")
    }
}

} // verus!
