use vstd::prelude::*;
use crate::cartridge::{CartridgeImage, Mirroring};
use crate::common::error::{NesleError, Result};
use crate::cpu::InterruptLines;
use crate::mapper::banking::{banked_offset, lemma_bank_sizes_pow2, mem_read, prg_read_spec, ChrMemory, PrgMemory};
use crate::mapper::traits::Mapper;
use crate::mapper::{in_prg_ram_window, prg_ram_accepts, prg_ram_index, prg_ram_snapshot, restore_prg_ram, snapshot_prg_ram};

verus! {

/// Board 3: fixed PRG ROM, switchable 8 KiB CHR bank.
#[derive(Debug)]
pub struct Cnrom {
    pub prg: PrgMemory,
    pub prg_ram: Vec<u8>,
    pub chr: ChrMemory,
    pub chr_bank: u8,
    pub mirroring: Mirroring,
    pub has_bus_conflicts: bool,
}

impl Cnrom {
    pub open spec fn prg_byte(&self, addr: u16) -> u8 {
        prg_read_spec(self.prg.spec_rom(), 0x4000, if addr < 0xc000 { 0 } else { 1 }, addr as int)
    }

    /// CPU bus value at `addr`: PRG RAM in its window, `open_bus` below
    /// `$8000` elsewhere, PRG ROM above.
    pub open spec fn cpu_value(&self, addr: u16, open_bus: u8) -> u8 {
        if in_prg_ram_window(addr, self.prg_ram@) {
            self.prg_ram@[prg_ram_index(addr, self.prg_ram@)]
        } else if addr < 0x8000 {
            open_bus
        } else {
            self.prg_byte(addr)
        }
    }

    /// CHR offset of PPU address `addr` through the selected 8 KiB bank.
    pub open spec fn chr_offset_spec(&self, addr: u16) -> int {
        (self.chr_bank as int % self.chr.chr_bank_count(0x2000)) * 0x2000 + (addr & 0x1fff) as int
    }

    /// Snapshot: CHR bank register, PRG RAM, then CHR state.
    pub open spec fn snapshot_spec(&self) -> Seq<u8> {
        seq![self.chr_bank] + prg_ram_snapshot(self.prg_ram@) + self.chr.snapshot_spec()
    }

    pub fn new(cartridge: &CartridgeImage) -> (r: Self)
        requires
            cartridge.fits_in_memory(),
        ensures
            r.inv(),
            r.prg.spec_rom() == cartridge.prg_rom@,
            cartridge.is_initialized_prg_ram(r.prg_ram@, 0),
            r.chr.is_fresh(*cartridge, 0x2000),
            r.chr_bank == 0,
            r.mirroring == cartridge.mirroring,
            r.has_bus_conflicts == (cartridge.submapper == 2),
    {
        proof {
            lemma_bank_sizes_pow2();
        }
        Cnrom {
            prg: PrgMemory::new(cartridge.prg_rom.clone(), 0x4000),
            prg_ram: cartridge.initialized_prg_ram(0),
            chr: ChrMemory::new(cartridge, 0x2000),
            chr_bank: 0,
            mirroring: cartridge.mirroring,
            has_bus_conflicts: cartridge.submapper == 2,
        }
    }

    fn chr_offset(&self, addr: u16) -> (r: usize)
        ensures
            r == self.chr_offset_spec(addr),
    {
        let bank_count = self.chr.bank_count(0x2000);
        assert((addr & 0x1fff) < 0x2000) by (bit_vector);
        banked_offset(self.chr_bank as usize, bank_count, 0x2000, (addr & 0x1fff) as usize)
    }

    fn read_prg(&self, addr: u16) -> (r: u8)
        requires
            self.inv(),
        ensures
            r == self.prg_byte(addr),
    {
        let bank: usize = if addr < 0xc000 { 0 } else { 1 };
        self.prg.read(bank, addr)
    }
}

impl Mapper for Cnrom {
    open spec fn inv(&self) -> bool {
        self.prg.wf() && self.prg.spec_bank_size() == 0x4000
    }

    fn mapper_id(&self) -> (r: u16)
        ensures
            r == 3,
    {
        3
    }

    fn name(&self) -> (r: &'static str)
        ensures
            r@ == "CNROM"@,
    {
        "CNROM"
    }

    open spec fn cpu_read_value(&self, addr: u16, next: Self, r: u8) -> bool {
        &&& r == self.cpu_value(addr, 0)
        &&& next == *self
    }

    fn cpu_read(&mut self, addr: u16) -> (r: u8) {
        if 0x6000 <= addr && addr <= 0x7fff && self.prg_ram.len() > 0 {
            return self.prg_ram[((addr - 0x6000) as usize) % self.prg_ram.len()];
        }
        if addr < 0x8000 {
            return 0;
        }
        self.read_prg(addr)
    }

    fn cpu_code_read(&self, addr: u16) -> (r: Option<u8>)
        ensures
            r == if addr < 0x8000 { None } else { Some(self.prg_byte(addr)) },
    {
        if addr < 0x8000 {
            return None;
        }
        Some(self.read_prg(addr))
    }

    open spec fn cpu_read_result(&self, addr: u16, open_bus: u8, interrupt: InterruptLines, next: Self, next_interrupt: InterruptLines, r: u8) -> bool {
        &&& r == self.cpu_value(addr, open_bus)
        &&& next == *self
        &&& next_interrupt == interrupt
    }

    fn cpu_read_open_bus(&mut self, addr: u16, open_bus: u8, interrupt: &mut InterruptLines) -> (r: u8) {
        if 0x6000 <= addr && addr <= 0x7fff && self.prg_ram.len() > 0 {
            return self.prg_ram[((addr - 0x6000) as usize) % self.prg_ram.len()];
        }
        if addr < 0x8000 {
            return open_bus;
        }
        self.read_prg(addr)
    }

    open spec fn cpu_written(&self, addr: u16, value: u8, interrupt: InterruptLines, next: Self, next_interrupt: InterruptLines) -> bool {
        &&& next.prg == self.prg
        &&& next.chr == self.chr
        &&& next.mirroring == self.mirroring
        &&& next.has_bus_conflicts == self.has_bus_conflicts
        &&& (next.prg_ram@ == if in_prg_ram_window(addr, self.prg_ram@) {
            self.prg_ram@.update(prg_ram_index(addr, self.prg_ram@), value)
        } else {
            self.prg_ram@
        })
        &&& (next.chr_bank == if !in_prg_ram_window(addr, self.prg_ram@) && addr >= 0x8000 {
            value
        } else {
            self.chr_bank
        })
        &&& next_interrupt == interrupt
    }

    /// PRG RAM write in its window; any write at `$8000+` selects the CHR
    /// bank.
    fn cpu_write(&mut self, addr: u16, value: u8, interrupt: &mut InterruptLines) {
        if 0x6000 <= addr && addr <= 0x7fff && self.prg_ram.len() > 0 {
            let len = self.prg_ram.len();
            self.prg_ram.set(((addr - 0x6000) as usize) % len, value);
            return;
        }
        if addr >= 0x8000 {
            self.chr_bank = value;
        }
    }

    open spec fn ppu_read_result(&self, addr: u16, next: Self, r: u8) -> bool {
        &&& r == mem_read(self.chr.spec_rom(), self.chr.spec_ram(), self.chr_offset_spec(addr))
        &&& next == *self
    }

    fn ppu_read(&mut self, addr: u16) -> (r: u8) {
        let offset = self.chr_offset(addr);
        self.chr.read(offset)
    }

    fn debug_ppu_read(&self, addr: u16) -> (r: u8)
        ensures
            r == mem_read(self.chr.spec_rom(), self.chr.spec_ram(), self.chr_offset_spec(addr)),
    {
        self.chr.read(self.chr_offset(addr))
    }

    open spec fn ppu_written(&self, addr: u16, value: u8, next: Self) -> bool {
        &&& next.prg == self.prg
        &&& next.prg_ram == self.prg_ram
        &&& next.chr_bank == self.chr_bank
        &&& next.mirroring == self.mirroring
        &&& next.has_bus_conflicts == self.has_bus_conflicts
        &&& next.chr.spec_rom() == self.chr.spec_rom()
        &&& next.chr.spec_pages() == self.chr.spec_pages()
        &&& next.chr.spec_ram() == self.chr.written(self.chr_offset_spec(addr), value)
    }

    fn ppu_write(&mut self, addr: u16, value: u8) {
        let offset = self.chr_offset(addr);
        self.chr.write(offset, value);
    }

    /// The board does not watch the PPU address bus.
    fn has_vram_addr_hook(&self) -> (r: bool) {
        false
    }

    fn notify_vram_addr(&mut self, addr: u16, cpu_cycle_count: u64, interrupt: &mut InterruptLines) {
    }

    /// Nametables live in console RAM: the board serves no nametable
    /// access.
    open spec fn nametable_read_result(
        &self,
        addr: u16,
        ciram: Seq<u8>,
        interrupt: InterruptLines,
        next: Self,
        next_interrupt: InterruptLines,
        r: Option<u8>,
    ) -> bool {
        r is None && next == *self && next_interrupt == interrupt
    }

    open spec fn nametable_written(
        &self,
        addr: u16,
        value: u8,
        ciram: Seq<u8>,
        next: Self,
        next_ciram: Seq<u8>,
        r: bool,
    ) -> bool {
        !r && next == *self && next_ciram == ciram
    }

    fn ppu_read_nametable(&mut self, addr: u16, ciram: &[u8; 0x1000], interrupt: &mut InterruptLines) -> (r: Option<u8>) {
        None
    }

    fn ppu_write_nametable(&mut self, addr: u16, value: u8, ciram: &mut [u8; 0x1000]) -> (r: bool) {
        false
    }

    open spec fn mirrors(&self, m: Mirroring) -> bool {
        m == self.mirroring
    }

    fn nametable_mirroring(&self) -> (r: Mirroring) {
        self.mirroring
    }

    open spec fn conflicts_are(&self, r: bool) -> bool {
        r == self.has_bus_conflicts
    }

    fn has_bus_conflicts(&self) -> (r: bool) {
        self.has_bus_conflicts
    }

    fn snapshot_bytes(&self) -> (r: Vec<u8>)
        ensures
            r@ == self.snapshot_spec(),
    {
        let mut bytes: Vec<u8> = Vec::new();
        bytes.push(self.chr_bank);
        snapshot_prg_ram(&mut bytes, self.prg_ram.as_slice());
        self.chr.snapshot_bytes(&mut bytes);
        assert(bytes@ =~= self.snapshot_spec());
        bytes
    }

    fn restore_snapshot(&mut self, bytes: &[u8]) -> (r: Result<()>)
        ensures
            final(self).prg == old(self).prg,
            final(self).mirroring == old(self).mirroring,
            final(self).has_bus_conflicts == old(self).has_bus_conflicts,
            final(self).prg_ram@.len() == old(self).prg_ram@.len(),
            final(self).chr.spec_rom() == old(self).chr.spec_rom(),
            bytes@.len() > 0 ==> final(self).chr_bank == bytes@[0],
            r is Ok <==> (bytes@.len() > 0 && prg_ram_accepts(bytes@, 1, old(self).prg_ram@.len() as int)
                && old(self).chr.restore_accepts(bytes@, 5 + old(self).prg_ram@.len() as int)),
            r is Ok ==> final(self).prg_ram@ == bytes@.subrange(5, 5 + old(self).prg_ram@.len() as int),
            r is Ok ==> ChrMemory::restored(old(self).chr, final(self).chr, bytes@, 5 + old(self).prg_ram@.len() as int),
            r is Err ==> r matches Err(NesleError::InvalidState(_)),
    {
        if bytes.len() == 0 {
            return Err(NesleError::invalid_state("CNROM snapshot is missing bank byte"));
        }
        self.chr_bank = bytes[0];
        let mut offset = match restore_prg_ram(bytes, 1, &mut self.prg_ram, "CNROM") {
            Ok(o) => o,
            Err(e) => return Err(e),
        };
        self.chr.restore_snapshot(bytes, &mut offset, "CNROM")
    }
}

} // verus!
