use vstd::prelude::*;
use crate::bytes::{push_u32, read_u32, u32_at, u32_bytes};
use crate::cartridge::{CartridgeImage, Mirroring};
use crate::common::error::{NesleError, Result};
use crate::cpu::{irq_bit, InterruptLines, IrqSource};
use crate::mapper::banking::{lemma_bank_sizes_pow2, mem_read, prg_read_spec, spec_bank_count, ChrMemory, PrgMemory};
use crate::mapper::mmc2::{mirroring_from_byte, mirroring_of_tag, mirroring_tag, mirroring_to_byte};
use crate::mapper::traits::Mapper;
use crate::mapper::{prg_ram_accepts, prg_ram_snapshot, restore_prg_ram, snapshot_prg_ram};

verus! {

/// Board 69 (Sunsoft FME-7 / 5B): command/parameter register pair, four
/// PRG and eight CHR bank registers, and a 16-bit down-counting cycle IRQ.
#[derive(Debug)]
pub struct Sunsoft5 {
    pub prg: PrgMemory,
    pub prg_ram: Vec<u8>,
    pub chr: ChrMemory,
    pub command: u8,
    pub prg_banks: [u8; 4],
    pub chr_banks: [u8; 8],
    pub mirroring: Mirroring,
    pub irq_control: u8,
    pub irq_counter: i32,
}

/// IRQ counter after one CPU cycle with the counter enabled: decrements
/// modulo `$10000`; it underflows when the result is `$FFFF`.
pub open spec fn fme7_count_down(counter: i32) -> i64 {
    ((counter as int - 1) as i64) & 0xffff
}

impl Sunsoft5 {
    /// PRG RAM index of `addr` in the `$6000` window: 8 KiB bank from
    /// register 8 bits 0-5, wrapped by the RAM size.
    pub open spec fn prg_ram_offset_spec(&self, addr: u16) -> int {
        let len = if self.prg_ram@.len() > 0 { self.prg_ram@.len() as int } else { 1 };
        ((self.prg_banks@[3] & 0x3f) as int * 0x2000 + (addr & 0x1fff) as int) % len
    }

    /// 8 KiB PRG bank at `addr`: registers 9-11 at `$8000/$A000/$C000`,
    /// the last bank at `$E000`, register 8 at `$6000`.
    pub open spec fn prg_bank_spec(&self, addr: u16) -> int {
        if addr < 0x8000 {
            (self.prg_banks@[3] & 0x3f) as int
        } else if addr <= 0x9fff {
            self.prg_banks@[0] as int
        } else if addr <= 0xbfff {
            self.prg_banks@[1] as int
        } else if addr <= 0xdfff {
            self.prg_banks@[2] as int
        } else {
            spec_bank_count(self.prg.spec_rom().len() as int, 0x2000) - 1
        }
    }

    pub open spec fn prg_byte(&self, addr: u16) -> u8 {
        prg_read_spec(self.prg.spec_rom(), 0x2000, self.prg_bank_spec(addr), addr as int)
    }

    /// Whether the `$6000` window maps PRG RAM (register 8 bits 6-7 set).
    pub open spec fn ram_selected(&self) -> bool {
        self.prg_banks@[3] & 0xc0 == 0xc0 && self.prg_ram@.len() > 0
    }

    /// CPU bus value at `addr`: `$6000` reads open bus when register 8
    /// selects disabled RAM, RAM when it selects enabled RAM, else ROM.
    pub open spec fn cpu_value(&self, addr: u16, open_bus: u8) -> u8 {
        if 0x6000 <= addr <= 0x7fff {
            if self.prg_banks@[3] & 0xc0 == 0x40 {
                open_bus
            } else if self.ram_selected() {
                self.prg_ram@[self.prg_ram_offset_spec(addr)]
            } else {
                self.prg_byte(addr)
            }
        } else if addr >= 0x8000 {
            self.prg_byte(addr)
        } else {
            0
        }
    }

    pub open spec fn chr_offset_spec(&self, addr: u16) -> int {
        let slot = if addr / 0x400 < 7 { (addr / 0x400) as int } else { 7 };
        (self.chr_banks@[slot] as int % self.chr.chr_bank_count(0x400)) * 0x400 + (addr & 0x03ff) as int
    }

    /// Snapshot: command, four PRG banks, eight CHR banks, mirroring, IRQ
    /// control, IRQ counter (i32 little-endian), PRG RAM, then CHR state.
    pub open spec fn snapshot_spec(&self) -> Seq<u8> {
        seq![self.command] + self.prg_banks@ + self.chr_banks@ + seq![mirroring_tag(self.mirroring), self.irq_control]
            + u32_bytes(self.irq_counter as u32) + prg_ram_snapshot(self.prg_ram@) + self.chr.snapshot_spec()
    }

    pub fn new(cartridge: &CartridgeImage) -> (r: Self)
        requires
            cartridge.fits_in_memory(),
        ensures
            r.inv(),
            r.prg.spec_rom() == cartridge.prg_rom@,
            cartridge.is_initialized_prg_ram(r.prg_ram@, 0x8000),
            r.chr.is_fresh(*cartridge, 0x2000),
            r.command == 0,
            r.prg_banks@ == seq![0u8, 0, 0, 0],
            r.chr_banks@ == seq![0u8, 0, 0, 0, 0, 0, 0, 0],
            r.mirroring == cartridge.mirroring,
            r.irq_control == 0,
            r.irq_counter == 0xffff,
    {
        proof {
            lemma_bank_sizes_pow2();
        }
        let r = Sunsoft5 {
            prg: PrgMemory::new(cartridge.prg_rom.clone(), 0x2000),
            prg_ram: cartridge.initialized_prg_ram(0x8000),
            chr: ChrMemory::new(cartridge, 0x2000),
            command: 0,
            prg_banks: [0u8, 0, 0, 0],
            chr_banks: [0u8, 0, 0, 0, 0, 0, 0, 0],
            mirroring: cartridge.mirroring,
            irq_control: 0,
            irq_counter: 0xffff,
        };
        assert(r.prg_banks@ =~= seq![0u8, 0, 0, 0]);
        assert(r.chr_banks@ =~= seq![0u8, 0, 0, 0, 0, 0, 0, 0]);
        r
    }

    fn prg_ram_offset(&self, addr: u16) -> (r: usize)
        ensures
            r == self.prg_ram_offset_spec(addr),
            self.prg_ram@.len() > 0 ==> r < self.prg_ram@.len(),
    {
        let bank = (self.prg_banks[3] & 0x3f) as usize;
        let pb = self.prg_banks[3];
        proof { crate::bits::lemma_u8_bits(); }
        assert(pb & 0x3f <= 0x3f);
        proof { crate::bits::lemma_u16_bits(); }
        assert((addr & 0x1fff) <= 0x1fff);
        let len = if self.prg_ram.len() > 0 { self.prg_ram.len() } else { 1 };
        (bank * 0x2000 + (addr & 0x1fff) as usize) % len
    }

    fn prg_bank_for(&self, addr: u16) -> (r: usize)
        requires
            self.inv(),
        ensures
            r == self.prg_bank_spec(addr),
    {
        if addr < 0x8000 {
            (self.prg_banks[3] & 0x3f) as usize
        } else if addr <= 0x9fff {
            self.prg_banks[0] as usize
        } else if addr <= 0xbfff {
            self.prg_banks[1] as usize
        } else if addr <= 0xdfff {
            self.prg_banks[2] as usize
        } else {
            self.prg.bank_count() - 1
        }
    }

    fn chr_offset(&self, addr: u16) -> (r: usize)
        requires
            self.chr.wf(),
        ensures
            r == self.chr_offset_spec(addr),
    {
        let count = self.chr.bank_count(0x400);
        let slot: usize = if addr / 0x400 < 7 { (addr / 0x400) as usize } else { 7 };
        let bank = (self.chr_banks[slot] as usize) % count;
        proof { crate::bits::lemma_u16_bits(); }
        assert((addr & 0x03ff) < 0x400);
        proof {
            assert(bank * 0x400 + 0x400 <= count * 0x400) by (nonlinear_arith)
                requires
                    bank < count,
            ;
        }
        bank * 0x400 + (addr & 0x03ff) as usize
    }

    /// `$A000` parameter write to the register the command selects.
    fn write_selected_register(&mut self, value: u8, interrupt: &mut InterruptLines)
        ensures
            ({
                let o = *old(self);
                let f = *final(self);
                let c = o.command & 0x0f;
                &&& f.prg == o.prg
                &&& f.prg_ram == o.prg_ram
                &&& f.chr == o.chr
                &&& f.command == o.command
                &&& f.chr_banks@ == if c <= 7 { o.chr_banks@.update((o.command & 0x07) as int, value) } else { o.chr_banks@ }
                &&& f.prg_banks@ == if c == 8 {
                    o.prg_banks@.update(3, value)
                } else if 9 <= c <= 0xb {
                    o.prg_banks@.update(c - 9, value)
                } else {
                    o.prg_banks@
                }
                &&& f.mirroring == if c == 0xc {
                    let m = value & 0x03;
                    if m == 0 {
                        Mirroring::Vertical
                    } else if m == 1 {
                        Mirroring::Horizontal
                    } else if m == 2 {
                        Mirroring::SingleScreenLower
                    } else {
                        Mirroring::SingleScreenUpper
                    }
                } else {
                    o.mirroring
                }
                &&& f.irq_control == if c == 0xd { value } else { o.irq_control }
                &&& f.irq_counter == if c == 0xe {
                    (o.irq_counter & 0xff00) | (value as i32)
                } else if c == 0xf {
                    (o.irq_counter & 0x00ff) | ((value as i32) << 8)
                } else {
                    o.irq_counter
                }
                &&& *final(interrupt) == if c == 0xd {
                    InterruptLines { irq_flag: old(interrupt).irq_flag & !irq_bit(IrqSource::External), ..*old(interrupt) }
                } else {
                    *old(interrupt)
                }
            }),
    {
        let c = self.command & 0x0f;
        let cmd = self.command;
        proof { crate::bits::lemma_u8_bits(); }
        assert(cmd & 0x07 < 8);
        if c <= 7 {
            self.chr_banks[(self.command & 0x07) as usize] = value;
        } else if c == 8 {
            self.prg_banks[3] = value;
        } else if c == 9 {
            self.prg_banks[0] = value;
        } else if c == 0xa {
            self.prg_banks[1] = value;
        } else if c == 0xb {
            self.prg_banks[2] = value;
        } else if c == 0xc {
            let m = value & 0x03;
            self.mirroring = if m == 0 {
                Mirroring::Vertical
            } else if m == 1 {
                Mirroring::Horizontal
            } else if m == 2 {
                Mirroring::SingleScreenLower
            } else {
                Mirroring::SingleScreenUpper
            };
        } else if c == 0xd {
            self.irq_control = value;
            interrupt.clear_irq_source(IrqSource::External);
        } else if c == 0xe {
            self.irq_counter = (self.irq_counter & 0xff00) | (value as i32);
        } else {
            assert(c == 0xf) by (bit_vector)
                requires
                    c == cmd & 0x0f,
                    c > 0xe,
            ;
            self.irq_counter = (self.irq_counter & 0x00ff) | ((value as i32) << 8);
        }
    }
}

impl Mapper for Sunsoft5 {
    open spec fn inv(&self) -> bool {
        &&& self.prg.wf()
        &&& self.prg.spec_bank_size() == 0x2000
        &&& self.chr.wf()
    }

    fn mapper_id(&self) -> (r: u16)
        ensures
            r == 69,
    {
        69
    }

    fn name(&self) -> (r: &'static str)
        ensures
            r@ == "Sunsoft-5/FME-7"@,
    {
        "Sunsoft-5/FME-7"
    }

    open spec fn cpu_read_value(&self, addr: u16, next: Self, r: u8) -> bool {
        &&& r == self.cpu_value(addr, 0)
        &&& next == *self
    }

    fn cpu_read(&mut self, addr: u16) -> (r: u8) {
        if 0x6000 <= addr && addr <= 0x7fff {
            if self.prg_banks[3] & 0xc0 == 0x40 {
                return 0;
            } else if self.prg_banks[3] & 0xc0 == 0xc0 && self.prg_ram.len() > 0 {
                return self.prg_ram[self.prg_ram_offset(addr)];
            } else {
                return self.prg.read(self.prg_bank_for(addr), addr);
            }
        }
        if addr >= 0x8000 {
            return self.prg.read(self.prg_bank_for(addr), addr);
        }
        0
    }

    fn cpu_code_read(&self, addr: u16) -> (r: Option<u8>)
        ensures
            r == if addr < 0x8000 { None } else { Some(self.prg_byte(addr)) },
    {
        if addr < 0x8000 {
            return None;
        }
        Some(self.prg.read(self.prg_bank_for(addr), addr))
    }

    open spec fn cpu_read_result(&self, addr: u16, open_bus: u8, interrupt: InterruptLines, next: Self, next_interrupt: InterruptLines, r: u8) -> bool {
        &&& r == self.cpu_value(addr, open_bus)
        &&& next == *self
        &&& next_interrupt == interrupt
    }

    fn cpu_read_open_bus(&mut self, addr: u16, open_bus: u8, interrupt: &mut InterruptLines) -> (r: u8) {
        if 0x6000 <= addr && addr <= 0x7fff {
            if self.prg_banks[3] & 0xc0 == 0x40 {
                return open_bus;
            } else if self.prg_banks[3] & 0xc0 == 0xc0 && self.prg_ram.len() > 0 {
                return self.prg_ram[self.prg_ram_offset(addr)];
            } else {
                return self.prg.read(self.prg_bank_for(addr), addr);
            }
        }
        if addr >= 0x8000 {
            return self.prg.read(self.prg_bank_for(addr), addr);
        }
        0
    }

    open spec fn cpu_written(&self, addr: u16, value: u8, interrupt: InterruptLines, next: Self, next_interrupt: InterruptLines) -> bool {
        &&& next.prg == self.prg
        &&& next.chr == self.chr
        &&& ((0x6000 <= addr <= 0x7fff) ==> {
            &&& next.prg_ram@ == if self.ram_selected() {
                self.prg_ram@.update(self.prg_ram_offset_spec(addr), value)
            } else {
                self.prg_ram@
            }
            &&& next.command == self.command
            &&& next.prg_banks == self.prg_banks
            &&& next.chr_banks == self.chr_banks
            &&& next.mirroring == self.mirroring
            &&& next.irq_control == self.irq_control
            &&& next.irq_counter == self.irq_counter
            &&& next_interrupt == interrupt
        })
        &&& ((0x8000 <= addr <= 0x9fff) ==> next == (Sunsoft5 { command: value & 0x0f, ..*self })
            && next_interrupt == interrupt)
        &&& ((addr < 0x6000 || addr >= 0xc000) ==> next == *self && next_interrupt == interrupt)
    }

    /// PRG RAM write when register 8 selects enabled RAM; `$8000` command,
    /// `$A000` parameter.
    fn cpu_write(&mut self, addr: u16, value: u8, interrupt: &mut InterruptLines) {
        if 0x6000 <= addr && addr <= 0x7fff {
            if self.prg_banks[3] & 0xc0 == 0xc0 && self.prg_ram.len() > 0 {
                let offset = self.prg_ram_offset(addr);
                self.prg_ram.set(offset, value);
            }
        } else if 0x8000 <= addr && addr <= 0x9fff {
            self.command = value & 0x0f;
        } else if 0xa000 <= addr && addr <= 0xbfff {
            self.write_selected_register(value, interrupt);
        }
    }

    open spec fn ppu_read_result(&self, addr: u16, next: Self, r: u8) -> bool {
        &&& r == mem_read(self.chr.spec_rom(), self.chr.spec_ram(), self.chr_offset_spec(addr))
        &&& next == *self
    }

    fn ppu_read(&mut self, addr: u16) -> (r: u8) {
        let offset = self.chr_offset(addr);
        self.chr.read(offset)
    }

    fn debug_ppu_read(&self, addr: u16) -> (r: u8)
        ensures
            r == mem_read(self.chr.spec_rom(), self.chr.spec_ram(), self.chr_offset_spec(addr)),
    {
        self.chr.read(self.chr_offset(addr))
    }

    open spec fn ppu_written(&self, addr: u16, value: u8, next: Self) -> bool {
        &&& next.prg == self.prg
        &&& next.prg_ram == self.prg_ram
        &&& next.command == self.command
        &&& next.prg_banks == self.prg_banks
        &&& next.chr_banks == self.chr_banks
        &&& next.mirroring == self.mirroring
        &&& next.irq_control == self.irq_control
        &&& next.irq_counter == self.irq_counter
        &&& next.chr.spec_rom() == self.chr.spec_rom()
        &&& next.chr.spec_pages() == self.chr.spec_pages()
        &&& next.chr.spec_ram() == self.chr.written(self.chr_offset_spec(addr), value)
    }

    fn ppu_write(&mut self, addr: u16, value: u8) {
        let offset = self.chr_offset(addr);
        self.chr.write(offset, value);
    }

    /// The board does not watch the PPU address bus.
    fn has_vram_addr_hook(&self) -> (r: bool) {
        false
    }

    fn notify_vram_addr(&mut self, addr: u16, cpu_cycle_count: u64, interrupt: &mut InterruptLines) {
    }

    /// Nametables live in console RAM: the board serves no nametable
    /// access.
    open spec fn nametable_read_result(
        &self,
        addr: u16,
        ciram: Seq<u8>,
        interrupt: InterruptLines,
        next: Self,
        next_interrupt: InterruptLines,
        r: Option<u8>,
    ) -> bool {
        r is None && next == *self && next_interrupt == interrupt
    }

    open spec fn nametable_written(
        &self,
        addr: u16,
        value: u8,
        ciram: Seq<u8>,
        next: Self,
        next_ciram: Seq<u8>,
        r: bool,
    ) -> bool {
        !r && next == *self && next_ciram == ciram
    }

    fn ppu_read_nametable(&mut self, addr: u16, ciram: &[u8; 0x1000], interrupt: &mut InterruptLines) -> (r: Option<u8>) {
        None
    }

    fn ppu_write_nametable(&mut self, addr: u16, value: u8, ciram: &mut [u8; 0x1000]) -> (r: bool) {
        false
    }

    open spec fn mirrors(&self, m: Mirroring) -> bool {
        m == self.mirroring
    }

    /// Writes reach the board unchanged: no bus conflicts.
    open spec fn conflicts_are(&self, r: bool) -> bool {
        !r
    }

    fn has_bus_conflicts(&self) -> (r: bool) {
        false
    }

    fn nametable_mirroring(&self) -> (r: Mirroring) {
        self.mirroring
    }

    fn has_cpu_clock_hook(&self) -> (r: bool)
        ensures
            r,
    {
        true
    }

    /// Clears the command and IRQ control and reloads the counter.
    fn soft_reset(&mut self)
        ensures
            *final(self) == (Sunsoft5 { command: 0, irq_control: 0, irq_counter: 0xffff, ..*old(self) }),
    {
        self.command = 0;
        self.irq_control = 0;
        self.irq_counter = 0xffff;
    }

    /// With control bit 7 set the counter counts down modulo `$10000`; an
    /// underflow to `$FFFF` raises the external IRQ when control bit 0 is
    /// set.
    fn process_cpu_clock(&mut self, interrupt: &mut InterruptLines)
        ensures
            ({
                let o = *old(self);
                let counting = o.irq_control & 0x80 != 0;
                let next = fme7_count_down(o.irq_counter);
                &&& *final(self) == if counting { Sunsoft5 { irq_counter: next as i32, ..o } } else { o }
                &&& *final(interrupt) == if counting && next == 0xffff && o.irq_control & 0x01 != 0 {
                    InterruptLines { irq_flag: old(interrupt).irq_flag | irq_bit(IrqSource::External), ..*old(interrupt) }
                } else {
                    *old(interrupt)
                }
            }),
    {
        let counter_enabled = self.irq_control & 0x80 != 0;
        let irq_enabled = self.irq_control & 0x01 != 0;
        if !counter_enabled {
            return;
        }
        let c = self.irq_counter;
        let d: i64 = c as i64 - 1;
        let new_counter: i64 = d & 0xffff;
        assert(0 <= d & 0xffff <= 0xffff) by (bit_vector);
        let underflow = new_counter == 0xffff;
        self.irq_counter = new_counter as i32;
        if underflow && irq_enabled {
            interrupt.set_irq_source(IrqSource::External);
        }
    }

    fn snapshot_bytes(&self) -> (r: Vec<u8>)
        ensures
            r@ == self.snapshot_spec(),
    {
        let mut bytes: Vec<u8> = Vec::new();
        bytes.push(self.command);
        bytes.push(self.prg_banks[0]);
        bytes.push(self.prg_banks[1]);
        bytes.push(self.prg_banks[2]);
        bytes.push(self.prg_banks[3]);
        let mut i: usize = 0;
        while i < 8
            invariant
                i <= 8,
                bytes@ == seq![self.command] + self.prg_banks@ + self.chr_banks@.subrange(0, i as int),
            decreases 8 - i,
        {
            assert(bytes@ =~= seq![self.command] + self.prg_banks@ + self.chr_banks@.subrange(0, i as int));
            bytes.push(self.chr_banks[i]);
            i = i + 1;
            assert(bytes@ =~= seq![self.command] + self.prg_banks@ + self.chr_banks@.subrange(0, i as int));
        }
        assert(self.chr_banks@.subrange(0, 8) =~= self.chr_banks@);
        bytes.push(mirroring_to_byte(self.mirroring));
        bytes.push(self.irq_control);
        push_u32(&mut bytes, self.irq_counter as u32);
        snapshot_prg_ram(&mut bytes, self.prg_ram.as_slice());
        self.chr.snapshot_bytes(&mut bytes);
        assert(bytes@ =~= self.snapshot_spec());
        bytes
    }

    fn restore_snapshot(&mut self, bytes: &[u8]) -> (r: Result<()>)
        ensures
            final(self).prg == old(self).prg,
            final(self).prg_ram@.len() == old(self).prg_ram@.len(),
            final(self).chr.spec_rom() == old(self).chr.spec_rom(),
            ({
                let b = bytes@;
                let n = old(self).prg_ram@.len() as int;
                &&& r is Ok <==> (b.len() >= 24 && mirroring_of_tag(b[13]) is Some && prg_ram_accepts(b, 19, n)
                    && old(self).chr.restore_accepts(b, 23 + n))
                &&& r is Ok ==> {
                    &&& final(self).command == b[0] & 0x0f
                    &&& final(self).prg_banks@ == b.subrange(1, 5)
                    &&& final(self).chr_banks@ == b.subrange(5, 13)
                    &&& Some(final(self).mirroring) == mirroring_of_tag(b[13])
                    &&& final(self).irq_control == b[14]
                    &&& final(self).irq_counter == u32_at(b, 15) as i32
                    &&& final(self).prg_ram@ == b.subrange(23, 23 + n)
                    &&& ChrMemory::restored(old(self).chr, final(self).chr, b, 23 + n)
                }
                &&& r is Err ==> r matches Err(NesleError::InvalidState(_))
            }),
    {
        if bytes.len() < 24 {
            return Err(NesleError::invalid_state("Sunsoft-5 snapshot is missing register bytes"));
        }
        self.command = bytes[0] & 0x0f;
        self.prg_banks[0] = bytes[1];
        self.prg_banks[1] = bytes[2];
        self.prg_banks[2] = bytes[3];
        self.prg_banks[3] = bytes[4];
        assert(self.prg_banks@ =~= seq![bytes@[1], bytes@[2], bytes@[3], bytes@[4]]);
        let mut i: usize = 0;
        while i < 8
            invariant
                i <= 8,
                24 <= bytes@.len(),
                forall|j: int| 0 <= j < i ==> #[trigger] self.chr_banks@[j] == bytes@[5 + j],
                self.prg == old(self).prg,
                self.chr == old(self).chr,
                self.prg_ram == old(self).prg_ram,
                self.command == bytes@[0] & 0x0f,
                self.prg_banks@ == seq![bytes@[1], bytes@[2], bytes@[3], bytes@[4]],
            decreases 8 - i,
        {
            self.chr_banks[i] = bytes[5 + i];
            i = i + 1;
        }
        assert(self.chr_banks@ =~= bytes@.subrange(5, 13));
        assert(self.prg_banks@ =~= bytes@.subrange(1, 5));
        self.mirroring = match mirroring_from_byte(bytes[13]) {
            Some(m) => m,
            None => return Err(NesleError::invalid_state("Sunsoft-5 snapshot has invalid mirroring byte")),
        };
        self.irq_control = bytes[14];
        self.irq_counter = read_u32(bytes, 15) as i32;
        let mut offset = match restore_prg_ram(bytes, 19, &mut self.prg_ram, "Sunsoft-5") {
            Ok(o) => o,
            Err(e) => return Err(e),
        };
        self.chr.restore_snapshot(bytes, &mut offset, "Sunsoft-5")
    }
}

} // verus!
