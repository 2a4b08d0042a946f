use vstd::prelude::*;
use crate::cartridge::{CartridgeImage, Mirroring};
use crate::common::error::{NesleError, Result};
use crate::cpu::InterruptLines;
use crate::mapper::banking::{lemma_bank_sizes_pow2, mem_read, prg_read_spec, ChrMemory, PrgMemory};
use crate::mapper::traits::Mapper;

verus! {

/// Board 7: switchable 32 KiB PRG bank and one-screen mirroring select.
#[derive(Debug)]
pub struct Axrom {
    pub prg: PrgMemory,
    pub chr: ChrMemory,
    pub bank_select: u8,
    pub single_screen_high: bool,
    pub has_bus_conflicts: bool,
}

impl Axrom {
    pub open spec fn prg_byte(&self, addr: u16) -> u8 {
        prg_read_spec(self.prg.spec_rom(), 0x8000, self.bank_select as int, addr as int)
    }

    /// CPU bus value: `open_bus` below `$8000`, PRG ROM above.
    pub open spec fn cpu_value(&self, addr: u16, open_bus: u8) -> u8 {
        if addr < 0x8000 {
            open_bus
        } else {
            self.prg_byte(addr)
        }
    }

    /// Snapshot: bank register, one-screen select, then CHR state.
    pub open spec fn snapshot_spec(&self) -> Seq<u8> {
        seq![self.bank_select, if self.single_screen_high { 1u8 } else { 0u8 }] + self.chr.snapshot_spec()
    }

    pub fn new(cartridge: &CartridgeImage) -> (r: Self)
        requires
            cartridge.fits_in_memory(),
        ensures
            r.inv(),
            r.prg.spec_rom() == cartridge.prg_rom@,
            r.chr.is_fresh(*cartridge, 0x2000),
            r.bank_select == 0,
            !r.single_screen_high,
            r.has_bus_conflicts == (cartridge.submapper == 2),
    {
        proof {
            lemma_bank_sizes_pow2();
        }
        Axrom {
            prg: PrgMemory::new(cartridge.prg_rom.clone(), 0x8000),
            chr: ChrMemory::new(cartridge, 0x2000),
            bank_select: 0,
            single_screen_high: false,
            has_bus_conflicts: cartridge.submapper == 2,
        }
    }
}

impl Mapper for Axrom {
    open spec fn inv(&self) -> bool {
        self.prg.wf() && self.prg.spec_bank_size() == 0x8000
    }

    fn mapper_id(&self) -> (r: u16)
        ensures
            r == 7,
    {
        7
    }

    fn name(&self) -> (r: &'static str)
        ensures
            r@ == "AxROM"@,
    {
        "AxROM"
    }

    open spec fn cpu_read_value(&self, addr: u16, next: Self, r: u8) -> bool {
        &&& r == self.cpu_value(addr, 0)
        &&& next == *self
    }

    fn cpu_read(&mut self, addr: u16) -> (r: u8) {
        if addr < 0x8000 {
            return 0;
        }
        self.prg.read(self.bank_select as usize, addr)
    }

    fn cpu_code_read(&self, addr: u16) -> (r: Option<u8>)
        ensures
            r == if addr < 0x8000 { None } else { Some(self.prg_byte(addr)) },
    {
        if addr < 0x8000 {
            return None;
        }
        Some(self.prg.read(self.bank_select as usize, addr))
    }

    open spec fn cpu_read_result(&self, addr: u16, open_bus: u8, interrupt: InterruptLines, next: Self, next_interrupt: InterruptLines, r: u8) -> bool {
        &&& r == self.cpu_value(addr, open_bus)
        &&& next == *self
        &&& next_interrupt == interrupt
    }

    fn cpu_read_open_bus(&mut self, addr: u16, open_bus: u8, interrupt: &mut InterruptLines) -> (r: u8) {
        if addr < 0x8000 {
            return open_bus;
        }
        self.prg.read(self.bank_select as usize, addr)
    }

    open spec fn cpu_written(&self, addr: u16, value: u8, interrupt: InterruptLines, next: Self, next_interrupt: InterruptLines) -> bool {
        &&& next.prg == self.prg
        &&& next.chr == self.chr
        &&& next.has_bus_conflicts == self.has_bus_conflicts
        &&& next.bank_select == if addr >= 0x8000 { value & 0x0f } else { self.bank_select }
        &&& (next.single_screen_high == if addr >= 0x8000 {
            value & 0x10 != 0
        } else {
            self.single_screen_high
        })
        &&& next_interrupt == interrupt
    }

    /// A write at `$8000+` selects the PRG bank (bits 0-3) and the
    /// one-screen page (bit 4).
    fn cpu_write(&mut self, addr: u16, value: u8, interrupt: &mut InterruptLines) {
        if addr >= 0x8000 {
            self.bank_select = value & 0x0f;
            self.single_screen_high = value & 0x10 != 0;
        }
    }

    open spec fn ppu_read_result(&self, addr: u16, next: Self, r: u8) -> bool {
        &&& r == mem_read(self.chr.spec_rom(), self.chr.spec_ram(), (addr & 0x1fff) as int)
        &&& next == *self
    }

    fn ppu_read(&mut self, addr: u16) -> (r: u8) {
        self.chr.read((addr & 0x1fff) as usize)
    }

    fn debug_ppu_read(&self, addr: u16) -> (r: u8)
        ensures
            r == mem_read(self.chr.spec_rom(), self.chr.spec_ram(), (addr & 0x1fff) as int),
    {
        self.chr.read((addr & 0x1fff) as usize)
    }

    open spec fn ppu_written(&self, addr: u16, value: u8, next: Self) -> bool {
        &&& next.prg == self.prg
        &&& next.bank_select == self.bank_select
        &&& next.single_screen_high == self.single_screen_high
        &&& next.has_bus_conflicts == self.has_bus_conflicts
        &&& next.chr.spec_rom() == self.chr.spec_rom()
        &&& next.chr.spec_pages() == self.chr.spec_pages()
        &&& next.chr.spec_ram() == self.chr.written((addr & 0x1fff) as int, value)
    }

    fn ppu_write(&mut self, addr: u16, value: u8) {
        self.chr.write((addr & 0x1fff) as usize, value);
    }

    /// The board does not watch the PPU address bus.
    fn has_vram_addr_hook(&self) -> (r: bool) {
        false
    }

    fn notify_vram_addr(&mut self, addr: u16, cpu_cycle_count: u64, interrupt: &mut InterruptLines) {
    }

    /// Nametables live in console RAM: the board serves no nametable
    /// access.
    open spec fn nametable_read_result(
        &self,
        addr: u16,
        ciram: Seq<u8>,
        interrupt: InterruptLines,
        next: Self,
        next_interrupt: InterruptLines,
        r: Option<u8>,
    ) -> bool {
        r is None && next == *self && next_interrupt == interrupt
    }

    open spec fn nametable_written(
        &self,
        addr: u16,
        value: u8,
        ciram: Seq<u8>,
        next: Self,
        next_ciram: Seq<u8>,
        r: bool,
    ) -> bool {
        !r && next == *self && next_ciram == ciram
    }

    fn ppu_read_nametable(&mut self, addr: u16, ciram: &[u8; 0x1000], interrupt: &mut InterruptLines) -> (r: Option<u8>) {
        None
    }

    fn ppu_write_nametable(&mut self, addr: u16, value: u8, ciram: &mut [u8; 0x1000]) -> (r: bool) {
        false
    }

    open spec fn mirrors(&self, m: Mirroring) -> bool {
        m == if self.single_screen_high { Mirroring::SingleScreenUpper } else { Mirroring::SingleScreenLower }
    }

    fn nametable_mirroring(&self) -> (r: Mirroring) {
        if self.single_screen_high {
            Mirroring::SingleScreenUpper
        } else {
            Mirroring::SingleScreenLower
        }
    }

    open spec fn conflicts_are(&self, r: bool) -> bool {
        r == self.has_bus_conflicts
    }

    fn has_bus_conflicts(&self) -> (r: bool) {
        self.has_bus_conflicts
    }

    fn snapshot_bytes(&self) -> (r: Vec<u8>)
        ensures
            r@ == self.snapshot_spec(),
    {
        let mut bytes: Vec<u8> = Vec::new();
        bytes.push(self.bank_select);
        bytes.push(if self.single_screen_high { 1u8 } else { 0u8 });
        self.chr.snapshot_bytes(&mut bytes);
        assert(bytes@ =~= self.snapshot_spec());
        bytes
    }

    fn restore_snapshot(&mut self, bytes: &[u8]) -> (r: Result<()>)
        ensures
            final(self).prg == old(self).prg,
            final(self).has_bus_conflicts == old(self).has_bus_conflicts,
            final(self).chr.spec_rom() == old(self).chr.spec_rom(),
            bytes@.len() >= 2 ==> final(self).bank_select == bytes@[0] & 0x0f,
            bytes@.len() >= 2 ==> final(self).single_screen_high == (bytes@[1] != 0),
            r is Ok <==> (bytes@.len() >= 2 && old(self).chr.restore_accepts(bytes@, 2)),
            r is Ok ==> ChrMemory::restored(old(self).chr, final(self).chr, bytes@, 2),
            r is Err ==> r matches Err(NesleError::InvalidState(_)),
    {
        if bytes.len() < 2 {
            return Err(NesleError::invalid_state("AxROM snapshot is missing bank bytes"));
        }
        self.bank_select = bytes[0] & 0x0f;
        self.single_screen_high = bytes[1] != 0;
        let mut offset: usize = 2;
        self.chr.restore_snapshot(bytes, &mut offset, "AxROM")
    }
}

} // verus!
