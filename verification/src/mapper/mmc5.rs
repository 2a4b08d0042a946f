use vstd::prelude::*;
use crate::bytes::{push_u16, read_u16, u16_at, u16_bytes};
use crate::cartridge::{CartridgeImage, Mirroring};
use crate::common::error::{NesleError, Result};
use crate::cpu::{irq_bit, InterruptLines, IrqSource};
use crate::input::b2u;
use crate::mapper::banking::{mem_read, spec_bank_count, ChrMemory};
use crate::mapper::traits::Mapper;
use crate::mapper::{prg_ram_accepts, prg_ram_snapshot, restore_prg_ram, snapshot_prg_ram};

verus! {

/// MMC5 expansion-audio registers (the register file only; no synthesis).
#[derive(Debug)]
pub struct Mmc5Audio {
    pub regs: [u8; 0x16],
    pub pulse_enabled: u8,
    pub pcm_output: u8,
}

/// Whether `addr` is one of the audio registers the board latches.
pub open spec fn is_audio_reg(addr: u16) -> bool {
    (0x5000 <= addr <= 0x5007) || addr == 0x5010 || addr == 0x5011 || addr == 0x5015
}

impl Mmc5Audio {
    pub fn new() -> (r: Self)
        ensures
            forall|i: int| 0 <= i < 0x16 ==> #[trigger] r.regs@[i] == 0,
            r.pulse_enabled == 0,
            r.pcm_output == 0,
    {
        let r = Mmc5Audio { regs: [0u8; 0x16], pulse_enabled: 0, pcm_output: 0 };
        proof {
            assert forall|i: int| 0 <= i < 0x16 implies #[trigger] r.regs@[i] == 0 by {}
        }
        r
    }

    /// `$5010` reads 0, `$5015` the two pulse enables, anything else open
    /// bus.
    pub fn read(&self, addr: u16, open_bus: u8) -> (r: u8)
        ensures
            r == if addr == 0x5010 { 0 } else if addr == 0x5015 { self.pulse_enabled & 0x03 } else { open_bus },
    {
        if addr == 0x5010 {
            0
        } else if addr == 0x5015 {
            self.pulse_enabled & 0x03
        } else {
            open_bus
        }
    }

    pub fn write(&mut self, addr: u16, value: u8)
        ensures
            is_audio_reg(addr) ==> final(self).regs@ == old(self).regs@.update(addr - 0x5000, value),
            !is_audio_reg(addr) ==> final(self).regs == old(self).regs,
            final(self).pcm_output == if addr == 0x5011 { value & 0x7f } else { old(self).pcm_output },
            final(self).pulse_enabled == if addr == 0x5015 { value & 0x03 } else { old(self).pulse_enabled },
    {
        if (0x5000 <= addr && addr <= 0x5007) || addr == 0x5010 || addr == 0x5011 || addr == 0x5015 {
            self.regs[(addr - 0x5000) as usize] = value;
            if addr == 0x5011 {
                self.pcm_output = value & 0x7f;
            } else if addr == 0x5015 {
                self.pulse_enabled = value & 0x03;
            }
        }
    }

    pub open spec fn snapshot_spec(&self) -> Seq<u8> {
        self.regs@ + seq![self.pulse_enabled, self.pcm_output]
    }

    pub fn snapshot_bytes(&self, bytes: &mut Vec<u8>)
        ensures
            final(bytes)@ == old(bytes)@ + self.snapshot_spec(),
    {
        let mut i: usize = 0;
        while i < 0x16
            invariant
                i <= 0x16,
                bytes@ == old(bytes)@ + self.regs@.subrange(0, i as int),
            decreases 0x16 - i,
        {
            bytes.push(self.regs[i]);
            i = i + 1;
            assert(bytes@ =~= old(bytes)@ + self.regs@.subrange(0, i as int));
        }
        assert(self.regs@.subrange(0, 0x16) =~= self.regs@);
        bytes.push(self.pulse_enabled);
        bytes.push(self.pcm_output);
        assert(bytes@ =~= old(bytes)@ + self.snapshot_spec());
    }

    pub fn restore_snapshot(&mut self, bytes: &[u8], offset: &mut usize) -> (r: Result<()>)
        ensures
            ({
                let o = *old(offset) as int;
                &&& r is Ok <==> o + 0x18 <= bytes@.len()
                &&& r is Ok ==> {
                    &&& final(self).regs@ == bytes@.subrange(o, o + 0x16)
                    &&& final(self).pulse_enabled == bytes@[o + 0x16] & 0x03
                    &&& final(self).pcm_output == bytes@[o + 0x17] & 0x7f
                    &&& *final(offset) == o + 0x18
                }
                &&& r is Err ==> r matches Err(NesleError::InvalidState(_))
            }),
    {
        let o = *offset;
        if bytes.len() < 0x18 || bytes.len() - 0x18 < o {
            return Err(NesleError::invalid_state("MMC5 audio snapshot is missing bytes"));
        }
        let mut i: usize = 0;
        while i < 0x16
            invariant
                i <= 0x16,
                o + 0x18 <= bytes@.len(),
                o + 0x18 <= usize::MAX,
                forall|j: int| 0 <= j < i ==> #[trigger] self.regs@[j] == bytes@[o + j],
            decreases 0x16 - i,
        {
            self.regs[i] = bytes[o + i];
            i = i + 1;
        }
        assert(self.regs@ =~= bytes@.subrange(o as int, o + 0x16));
        self.pulse_enabled = bytes[o + 0x16] & 0x03;
        self.pcm_output = bytes[o + 0x17] & 0x7f;
        *offset = o + 0x18;
        Ok(())
    }
}

/// Board 5 (MMC5/ExROM): flexible PRG/WRAM banking, two CHR register sets,
/// 1 KiB ExRAM with extended attributes, fill-mode nametables, the
/// vertical split and a scanline IRQ.
#[derive(Debug)]
pub struct Mmc5 {
    pub prg_rom: Vec<u8>,
    pub prg_ram: Vec<u8>,
    pub chr: ChrMemory,
    pub exram: [u8; 0x400],
    pub ppu_regs: [u8; 8],
    pub audio: Mmc5Audio,
    pub prg_mode: u8,
    pub chr_mode: u8,
    pub prg_banks: [u8; 4],
    pub chr_banks_a: [u16; 8],
    pub chr_banks_b: [u16; 4],
    pub chr_high_bits: u16,
    pub extended_ram_mode: u8,
    pub nametable_mapping: u8,
    pub fill_mode_tile: u8,
    pub fill_mode_color: u8,
    pub split_enabled: bool,
    pub split_right_side: bool,
    pub split_delimiter_tile: u8,
    pub split_scroll: u8,
    pub split_bank: u16,
    /// Nametable-fetch counter giving the vertical-split tile column.
    pub split_tile_number: u8,
    /// Whether current PPU fetches are inside the split region.
    pub split_in_split_region: bool,
    /// Split-region tile address shared by one tile's fetches.
    pub split_tile: u16,
    pub extended_attribute_chr_bank: Option<u16>,
    pub extended_attribute_palette: u8,
    /// Fetches left before the ExRAM mode-1 CHR override expires.
    pub extended_attribute_fetch_counter: u8,
    /// Low 10 bits of the last ExRAM mode-1 nametable fetch.
    pub ex_attr_last_nt_fetch: u16,
    pub ppu_in_frame: bool,
    pub need_in_frame: bool,
    pub ppu_idle_counter: u8,
    pub last_ppu_read_addr: u16,
    pub nt_read_counter: u8,
    pub scanline_counter: u8,
    /// Last CHR bank register written (selects set A or B outside frame).
    pub last_chr_reg: u16,
    pub wram_page: u8,
    pub wram_mask_enable: [u8; 2],
    pub multiplier: [u8; 2],
    pub irq_scanline: u8,
    pub irq_enabled: bool,
    pub irq_status: u8,
    pub mirroring: Mirroring,
}

/// Offset of `addr` in the `bank_size` PRG bank `bank` (bank numbers wrap
/// modulo the bank count); 0 for an empty ROM.
pub open spec fn prg_banked(len: int, bank: int, bank_size: int, addr: u16) -> int {
    if len == 0 {
        0
    } else {
        (bank % spec_bank_count(len, bank_size)) * bank_size + (addr as int % bank_size)
    }
}

/// Four copies of a two-bit attribute value, one per quadrant.
pub open spec fn attr_fill(c: u8) -> u8 {
    c | (c << 2) | (c << 4) | (c << 6)
}

impl Mmc5 {
    /// PRG ROM offset for `addr >= $8000` by PRG mode: one 32 KiB bank, two
    /// 16 KiB banks, 16+8+8 KiB, or four 8 KiB banks.
    pub open spec fn prg_rom_offset_spec(&self, addr: u16) -> int {
        let len = self.prg_rom@.len() as int;
        let pb = self.prg_banks@;
        let b8 = |b: u8| prg_banked(len, (b & 0x7f) as int, 0x2000, addr);
        let b16 = |b: u8| prg_banked(len, ((b & 0x7f) >> 1) as int, 0x4000, addr);
        let mode = self.prg_mode & 0x03;
        if mode == 0 {
            prg_banked(len, ((pb[1] & 0x7f) >> 2) as int, 0x8000, addr)
        } else if mode == 1 {
            if addr < 0xc000 { b16(pb[1]) } else { b16(pb[3]) }
        } else if mode == 2 {
            if addr < 0xc000 {
                b16(pb[1])
            } else if addr < 0xe000 {
                b8(pb[2])
            } else {
                b8(pb[3])
            }
        } else {
            b8(pb[((addr - 0x8000) / 0x2000) as int])
        }
    }

    pub open spec fn prg_rom_byte(&self, addr: u16) -> u8 {
        self.prg_rom@[self.prg_rom_offset_spec(addr) % self.prg_rom@.len() as int]
    }

    /// 8 KiB WRAM page a bank number selects, by RAM size (8, 16, 32 or
    /// 64 KiB); `None` where no RAM answers.
    pub open spec fn wram_index_spec(&self, bank: u8) -> Option<int> {
        let slot = (bank & 0x07) as int;
        let pages = self.prg_ram@.len() as int / 0x2000;
        if pages == 0 {
            None
        } else if pages == 1 {
            if slot <= 3 { Some(0) } else { None }
        } else if pages == 2 {
            Some(((bank & 0x07) & 4) as int / 4)
        } else if pages == 4 {
            if slot <= 3 { Some(((bank & 0x07) & 3) as int) } else { None }
        } else {
            Some(slot)
        }
    }

    pub open spec fn wram_offset_spec(&self, bank: u8, addr: u16) -> Option<int> {
        match self.wram_index_spec(bank) {
            Some(b) => Some((b * 0x2000 + (addr & 0x1fff) as int) % self.prg_ram@.len() as int),
            None => None,
        }
    }

    pub open spec fn wram_byte(&self, bank: u8, addr: u16) -> Option<u8> {
        match self.wram_offset_spec(bank, addr) {
            Some(o) => Some(self.prg_ram@[o]),
            None => None,
        }
    }

    /// (bank, is ROM) of 8 KiB CPU slot `slot` (`$8000 + slot * $2000`).
    pub open spec fn slot_bank(&self, slot: int) -> (u8, bool) {
        let pb = self.prg_banks@;
        let mode = self.prg_mode & 0x03;
        if mode == 0 {
            (pb[1] & 0xfc, true)
        } else if mode == 1 {
            if slot <= 1 { (((pb[1] & 0xfe) + slot) as u8, pb[1] & 0x80 != 0) } else { (((pb[3] & 0xfe) + (slot - 2)) as u8, true) }
        } else if mode == 2 {
            if slot <= 1 {
                (((pb[1] & 0xfe) + slot) as u8, pb[1] & 0x80 != 0)
            } else if slot == 2 {
                (pb[2], pb[2] & 0x80 != 0)
            } else {
                (pb[3], true)
            }
        } else {
            if slot < 3 { (pb[slot], pb[slot] & 0x80 != 0) } else { (pb[3], true) }
        }
    }

    /// Byte at `addr >= $8000` from ROM or from the WRAM page mapped there.
    pub open spec fn prg_or_wram(&self, addr: u16) -> Option<u8> {
        let (bank, rom) = self.slot_bank(((addr - 0x8000) / 0x2000) as int);
        if rom { Some(self.prg_rom_byte(addr)) } else { self.wram_byte(bank, addr) }
    }

    pub open spec fn write_protect_open_spec(&self) -> bool {
        ((self.wram_mask_enable@[0] & 0x03) | ((self.wram_mask_enable@[1] & 0x03) << 2)) == 6
    }

    /// PRG RAM index a CPU write to `addr >= $6000` lands on, if any.
    pub open spec fn wram_write_target(&self, addr: u16) -> Option<int> {
        if !self.write_protect_open_spec() {
            None
        } else if addr < 0x8000 {
            self.wram_offset_spec(self.wram_page, addr)
        } else {
            let (bank, rom) = self.slot_bank(((addr - 0x8000) / 0x2000) as int);
            if rom { None } else { self.wram_offset_spec(bank, addr) }
        }
    }

    /// 1 KiB CHR page for `addr` by CHR mode, from set A or set B.
    pub open spec fn chr_bank_spec(&self, addr: u16, chr_a: bool) -> u16 {
        let a = self.chr_banks_a@;
        let b = self.chr_banks_b@;
        let mode = self.chr_mode & 0x03;
        if mode == 0 {
            ((if chr_a { a[7] } else { b[3] }) << 3) | ((addr >> 10) & 0x07)
        } else if mode == 1 {
            let base = if addr < 0x1000 {
                if chr_a { a[3] } else { b[3] }
            } else if chr_a {
                a[7]
            } else {
                b[3]
            };
            (base << 2) | ((addr >> 10) & 0x03)
        } else if mode == 2 {
            let slot = (addr >> 11) & 0x03;
            let base = if chr_a {
                a[(2 * slot + 1) as int]
            } else if slot & 0x01 == 0 {
                b[1]
            } else {
                b[3]
            };
            (base << 1) | ((addr >> 10) & 0x01)
        } else {
            let slot = if addr / 0x400 < 7 { (addr / 0x400) as int } else { 7 };
            if chr_a { a[slot] } else { b[slot % 4] }
        }
    }

    /// Whether set A serves pattern fetches now: 8x8 sprites, the sprite
    /// fetch columns, or a set-A register written last outside the frame.
    pub open spec fn chr_a_selected(&self) -> bool {
        ||| self.ppu_regs@[0] & 0x20 == 0
        ||| (32 <= self.split_tile_number < 40)
        ||| (!self.ppu_in_frame && self.last_chr_reg <= 0x5127)
    }

    pub open spec fn chr_offset_spec(&self, addr: u16) -> int {
        match self.extended_attribute_chr_bank {
            Some(bank) => (bank as int % self.chr.chr_bank_count(0x1000)) * 0x1000 + (addr & 0x0fff) as int,
            None => (self.chr_bank_spec(addr, self.chr_a_selected()) as int % self.chr.chr_bank_count(0x400)) * 0x400
                + (addr & 0x03ff) as int,
        }
    }

    /// Whether a pattern fetch at `addr` goes through the vertical split.
    pub open spec fn split_fetch(&self, addr: u16) -> bool {
        self.extended_ram_mode <= 1 && self.ppu_in_frame && self.split_enabled && self.split_in_split_region
            && addr < 0x2000
    }

    /// Split scanline scrolled by the split scroll register (mod 240).
    pub open spec fn vsplit_scroll(&self) -> u8 {
        let scanline = if self.split_tile_number >= 41 {
            vstd::wrapping::u8_specs::wrapping_add(self.scanline_counter, 1)
        } else {
            self.scanline_counter
        };
        (vstd::wrapping::u8_specs::wrapping_add(scanline, self.split_scroll) % 240) as u8
    }

    /// CHR offset of a split-region pattern fetch.
    pub open spec fn split_chr_addr(&self, addr: u16) -> int {
        (self.split_bank as usize * 0x1000) as int + ((((addr as usize) & 0xfff8usize) | ((self.vsplit_scroll() as usize)
            & 7usize)) & 0xfffusize) as int
    }

    pub open spec fn pattern_byte(&self, addr: u16) -> u8 {
        if self.split_fetch(addr) {
            mem_read(self.chr.spec_rom(), self.chr.spec_ram(), self.split_chr_addr(addr))
        } else {
            mem_read(self.chr.spec_rom(), self.chr.spec_ram(), self.chr_offset_spec(addr))
        }
    }

    pub open spec fn fill_value(&self, addr: u16) -> u8 {
        if (addr & 0x03ff) < 0x03c0 { self.fill_mode_tile } else { attr_fill(self.fill_mode_color & 0x03) }
    }

    /// Nametable source of `addr`'s quadrant: 0/1 console RAM pages, 2
    /// ExRAM, 3 fill mode.
    pub open spec fn nametable_source_spec(&self, addr: u16) -> u8 {
        (self.nametable_mapping >> (((addr & 0x0c00) >> 10) * 2)) & 0x03
    }

    /// Console RAM index of `addr` in page `page`.
    pub open spec fn ciram_index(page: u8, addr: u16) -> int {
        ((((page & 1) as usize * 0x400) as usize | (addr & 0x03ff) as usize) & 0x07ff) as int
    }

    /// `$5204` status byte: bit 6 in-frame, bit 7 IRQ pending.
    pub open spec fn irq_status_byte(&self) -> u8 {
        (if self.ppu_in_frame { 0x40u8 } else { 0u8 }) | (self.irq_status & 0x80)
    }

    /// CPU bus value at `addr` (side effects of `$5204` and `$FFFA-B` reads
    /// are stated where they happen).
    pub open spec fn cpu_value(&self, addr: u16, open_bus: u8) -> u8 {
        if 0x5c00 <= addr <= 0x5fff {
            if self.extended_ram_mode <= 1 { open_bus } else { self.exram@[addr - 0x5c00] }
        } else if addr == 0x5010 {
            0
        } else if addr == 0x5015 {
            self.audio.pulse_enabled & 0x03
        } else if addr == 0x5204 {
            self.irq_status_byte()
        } else if addr == 0x5205 {
            vstd::wrapping::u8_specs::wrapping_mul(self.multiplier@[0], self.multiplier@[1])
        } else if addr == 0x5206 {
            ((self.multiplier@[0] as int * self.multiplier@[1] as int) / 0x100) as u8
        } else if 0x6000 <= addr <= 0x7fff {
            match self.wram_byte(self.wram_page, addr) {
                Some(v) => v,
                None => open_bus,
            }
        } else if addr >= 0x8000 {
            match self.prg_or_wram(addr) {
                Some(v) => v,
                None => open_bus,
            }
        } else {
            0
        }
    }

    pub fn new(cartridge: &CartridgeImage) -> (r: Self)
        requires
            cartridge.fits_in_memory(),
            cartridge.prg_rom@.len() > 0,
        ensures
            r.inv(),
            r.prg_rom@ == cartridge.prg_rom@,
            cartridge.is_initialized_prg_ram(r.prg_ram@, 0x10000),
            r.chr.is_fresh(*cartridge, 0x2000),
            forall|i: int| 0 <= i < 0x400 ==> #[trigger] r.exram@[i] == 0xff,
            r.prg_mode == 3,
            r.chr_mode == 3,
            r.prg_banks@ == seq![0xffu8, 0xff, 0xff, 0xff],
            forall|i: int| 0 <= i < 8 ==> #[trigger] r.chr_banks_a@[i] == 0xff,
            forall|i: int| 0 <= i < 4 ==> #[trigger] r.chr_banks_b@[i] == 0xff,
            r.extended_attribute_chr_bank is None,
            !r.ppu_in_frame,
            !r.irq_enabled,
            r.irq_status == 0,
            r.wram_mask_enable@ == seq![0xffu8, 0xff],
            r.mirroring == cartridge.mirroring,
    {
        let mut exram = [0u8; 0x400];
        let mut i: usize = 0;
        while i < 0x400
            invariant
                i <= 0x400,
                forall|j: int| 0 <= j < i ==> #[trigger] exram@[j] == 0xff,
            decreases 0x400 - i,
        {
            exram[i] = 0xff;
            i = i + 1;
        }
        let r = Mmc5 {
            prg_rom: cartridge.prg_rom.clone(),
            prg_ram: cartridge.initialized_prg_ram(0x10000),
            chr: ChrMemory::new(cartridge, 0x2000),
            exram,
            ppu_regs: [0u8; 8],
            audio: Mmc5Audio::new(),
            prg_mode: 3,
            chr_mode: 3,
            prg_banks: [0xffu8, 0xff, 0xff, 0xff],
            chr_banks_a: [0xffu16, 0xff, 0xff, 0xff, 0xff, 0xff, 0xff, 0xff],
            chr_banks_b: [0xffu16, 0xff, 0xff, 0xff],
            chr_high_bits: 0,
            extended_ram_mode: 0,
            nametable_mapping: 0,
            fill_mode_tile: 0,
            fill_mode_color: 0,
            split_enabled: false,
            split_right_side: false,
            split_delimiter_tile: 0,
            split_scroll: 0,
            split_bank: 0,
            split_tile_number: 0,
            split_in_split_region: false,
            split_tile: 0,
            extended_attribute_chr_bank: None,
            extended_attribute_palette: 0,
            extended_attribute_fetch_counter: 0,
            ex_attr_last_nt_fetch: 0,
            ppu_in_frame: false,
            need_in_frame: false,
            ppu_idle_counter: 0,
            last_ppu_read_addr: 0,
            nt_read_counter: 0,
            scanline_counter: 0,
            last_chr_reg: 0,
            wram_page: 0,
            wram_mask_enable: [0xffu8, 0xff],
            multiplier: [0u8, 0],
            irq_scanline: 0,
            irq_enabled: false,
            irq_status: 0,
            mirroring: cartridge.mirroring,
        };
        assert(r.prg_banks@ =~= seq![0xffu8, 0xff, 0xff, 0xff]);
        assert(r.wram_mask_enable@ =~= seq![0xffu8, 0xff]);
        r
    }

    fn prg_banked_offset(&self, bank: usize, bank_size: usize, addr: u16) -> (r: usize)
        requires
            self.prg_rom@.len() + 0x8000 <= usize::MAX,
            bank_size == 0x2000 || bank_size == 0x4000 || bank_size == 0x8000,
        ensures
            r == prg_banked(self.prg_rom@.len() as int, bank as int, bank_size as int, addr),
    {
        let len = self.prg_rom.len();
        if len == 0 {
            return 0;
        }
        let n = len / bank_size;
        let banks = if n == 0 { 1 } else { n };
        let b = bank % banks;
        proof {
            assert(n * bank_size <= len) by (nonlinear_arith)
                requires
                    n == len as int / bank_size as int,
                    bank_size > 0,
            {
                vstd::arithmetic::div_mod::lemma_fundamental_div_mod(len as int, bank_size as int);
            }
            assert(b * bank_size + bank_size <= banks * bank_size) by (nonlinear_arith)
                requires
                    b < banks,
                    bank_size > 0,
            ;
        }
        b * bank_size + (addr as usize) % bank_size
    }

    fn prg_rom_offset(&self, addr: u16) -> (r: usize)
        requires
            self.inv(),
            addr >= 0x8000,
        ensures
            r == self.prg_rom_offset_spec(addr),
    {
        let mode = self.prg_mode & 0x03;
        let pb = self.prg_banks;
        if mode == 0 {
            self.prg_banked_offset(((pb[1] & 0x7f) >> 2) as usize, 0x8000, addr)
        } else if mode == 1 {
            let b = if addr < 0xc000 { pb[1] } else { pb[3] };
            self.prg_banked_offset(((b & 0x7f) >> 1) as usize, 0x4000, addr)
        } else if mode == 2 {
            if addr < 0xc000 {
                self.prg_banked_offset(((pb[1] & 0x7f) >> 1) as usize, 0x4000, addr)
            } else if addr < 0xe000 {
                self.prg_banked_offset((pb[2] & 0x7f) as usize, 0x2000, addr)
            } else {
                self.prg_banked_offset((pb[3] & 0x7f) as usize, 0x2000, addr)
            }
        } else {
            let slot = ((addr - 0x8000) / 0x2000) as usize;
            self.prg_banked_offset((pb[slot] & 0x7f) as usize, 0x2000, addr)
        }
    }

    fn read_prg_rom(&self, addr: u16) -> (r: u8)
        requires
            self.inv(),
            addr >= 0x8000,
        ensures
            r == self.prg_rom_byte(addr),
    {
        let offset = self.prg_rom_offset(addr);
        self.prg_rom[offset % self.prg_rom.len()]
    }

    fn wram_index(&self, bank: u8) -> (r: Option<usize>)
        ensures
            r matches Some(i) ==> Some(i as int) == self.wram_index_spec(bank) && i <= 7,
            r is None <==> self.wram_index_spec(bank) is None,
    {
        let slot = bank & 0x07;
        assert(slot <= 7 && slot & 3 <= 3 && (slot & 4) / 4 <= 1) by (bit_vector)
            requires
                slot == bank & 0x07,
        ;
        let pages = self.prg_ram.len() / 0x2000;
        if pages == 0 {
            None
        } else if pages == 1 {
            if slot <= 3 { Some(0) } else { None }
        } else if pages == 2 {
            Some(((slot & 4) / 4) as usize)
        } else if pages == 4 {
            if slot <= 3 { Some((slot & 3) as usize) } else { None }
        } else {
            Some(slot as usize)
        }
    }

    fn wram_offset(&self, bank: u8, addr: u16) -> (r: Option<usize>)
        ensures
            r matches Some(o) ==> Some(o as int) == self.wram_offset_spec(bank, addr) && o < self.prg_ram@.len(),
            r is None <==> self.wram_offset_spec(bank, addr) is None,
    {
        match self.wram_index(bank) {
            Some(b) => {
                proof { crate::bits::lemma_u16_bits(); }
                assert((addr & 0x1fff) <= 0x1fff);
                Some((b * 0x2000 + (addr & 0x1fff) as usize) % self.prg_ram.len())
            },
            None => None,
        }
    }

    fn read_wram_bank(&self, bank: u8, addr: u16) -> (r: Option<u8>)
        ensures
            r == self.wram_byte(bank, addr),
    {
        match self.wram_offset(bank, addr) {
            Some(o) => Some(self.prg_ram[o]),
            None => None,
        }
    }

    fn prg_bank_for_8k_slot(&self, slot: usize) -> (r: (u8, bool))
        requires
            slot < 4,
        ensures
            r == self.slot_bank(slot as int),
    {
        let pb = self.prg_banks;
        let mode = self.prg_mode & 0x03;
        let p1 = pb[1];
        let p3 = pb[3];
        proof { crate::bits::lemma_u8_bits(); }
        assert((p1 & 0xfe) + 1 <= 0xff && (p3 & 0xfe) + 1 <= 0xff);
        if mode == 0 {
            (pb[1] & 0xfc, true)
        } else if mode == 1 {
            if slot <= 1 {
                ((pb[1] & 0xfe) + slot as u8, pb[1] & 0x80 != 0)
            } else {
                ((pb[3] & 0xfe) + (slot as u8 - 2), true)
            }
        } else if mode == 2 {
            if slot <= 1 {
                ((pb[1] & 0xfe) + slot as u8, pb[1] & 0x80 != 0)
            } else if slot == 2 {
                (pb[2], pb[2] & 0x80 != 0)
            } else {
                (pb[3], true)
            }
        } else {
            if slot < 3 {
                (pb[slot], pb[slot] & 0x80 != 0)
            } else {
                (pb[3], true)
            }
        }
    }

    fn read_prg_or_wram(&self, addr: u16) -> (r: Option<u8>)
        requires
            self.inv(),
            addr >= 0x8000,
        ensures
            r == self.prg_or_wram(addr),
    {
        let slot = ((addr - 0x8000) / 0x2000) as usize;
        let (bank, rom) = self.prg_bank_for_8k_slot(slot);
        if rom {
            Some(self.read_prg_rom(addr))
        } else {
            self.read_wram_bank(bank, addr)
        }
    }

    fn write_protect_open(&self) -> (r: bool)
        ensures
            r == self.write_protect_open_spec(),
    {
        ((self.wram_mask_enable[0] & 0x03) | ((self.wram_mask_enable[1] & 0x03) << 2)) == 6
    }

    fn write_mapped_wram(&mut self, addr: u16, value: u8)
        requires
            addr >= 0x6000,
        ensures
            final(self).prg_ram@ == match old(self).wram_write_target(addr) {
                Some(o) => old(self).prg_ram@.update(o, value),
                None => old(self).prg_ram@,
            },
            *final(self) == (Mmc5 { prg_ram: final(self).prg_ram, ..*old(self) }),
    {
        if !self.write_protect_open() {
            return;
        }
        let bank = if addr < 0x8000 {
            Some(self.wram_page)
        } else {
            let slot = ((addr - 0x8000) / 0x2000) as usize;
            let (b, rom) = self.prg_bank_for_8k_slot(slot);
            if rom { None } else { Some(b) }
        };
        match bank {
            Some(b) => match self.wram_offset(b, addr) {
                Some(o) => {
                    self.prg_ram.set(o, value);
                },
                None => {},
            },
            None => {},
        }
    }

    fn select_chr_bank(&self, addr: u16, chr_a: bool) -> (r: u16)
        ensures
            r == self.chr_bank_spec(addr, chr_a),
    {
        let a = self.chr_banks_a;
        let b = self.chr_banks_b;
        let mode = self.chr_mode & 0x03;
        if mode == 0 {
            ((if chr_a { a[7] } else { b[3] }) << 3) | ((addr >> 10) & 0x07)
        } else if mode == 1 {
            let base = if addr < 0x1000 {
                if chr_a { a[3] } else { b[3] }
            } else if chr_a {
                a[7]
            } else {
                b[3]
            };
            (base << 2) | ((addr >> 10) & 0x03)
        } else if mode == 2 {
            let slot = (addr >> 11) & 0x03;
            assert(slot <= 3) by (bit_vector)
                requires
                    slot == (addr >> 11) & 0x03,
            ;
            let base = if chr_a {
                a[(2 * slot + 1) as usize]
            } else if slot & 0x01 == 0 {
                b[1]
            } else {
                b[3]
            };
            (base << 1) | ((addr >> 10) & 0x01)
        } else {
            let slot: usize = if addr / 0x400 < 7 { (addr / 0x400) as usize } else { 7 };
            if chr_a { a[slot] } else { b[slot % 4] }
        }
    }

    fn chr_offset(&self, addr: u16) -> (r: usize)
        requires
            self.chr.wf(),
        ensures
            r == self.chr_offset_spec(addr),
    {
        match self.extended_attribute_chr_bank {
            Some(bank) => {
                let count = self.chr.bank_count(0x1000);
                let b = (bank as usize) % count;
                proof { crate::bits::lemma_u16_bits(); }
                assert((addr & 0x0fff) < 0x1000);
                proof {
                    assert(b * 0x1000 + 0x1000 <= count * 0x1000) by (nonlinear_arith)
                        requires
                            b < count,
                    ;
                }
                b * 0x1000 + (addr & 0x0fff) as usize
            },
            None => {
                let chr_a = self.ppu_regs[0] & 0x20 == 0 || (32 <= self.split_tile_number && self.split_tile_number < 40)
                    || (!self.ppu_in_frame && self.last_chr_reg <= 0x5127);
                let bank = self.select_chr_bank(addr, chr_a);
                let count = self.chr.bank_count(0x400);
                let b = (bank as usize) % count;
                proof { crate::bits::lemma_u16_bits(); }
                assert((addr & 0x03ff) < 0x400);
                proof {
                    assert(b * 0x400 + 0x400 <= count * 0x400) by (nonlinear_arith)
                        requires
                            b < count,
                    ;
                }
                b * 0x400 + (addr & 0x03ff) as usize
            },
        }
    }

    fn split_pattern_addr(&self, addr: u16) -> (r: usize)
        ensures
            r == self.split_chr_addr(addr),
    {
        let scanline = if self.split_tile_number >= 41 {
            self.scanline_counter.wrapping_add(1)
        } else {
            self.scanline_counter
        };
        let vsplit_scroll = scanline.wrapping_add(self.split_scroll) % 240;
        let sb = self.split_bank;
        assert(sb as usize * 0x1000 + 0xfff <= 0x1000_0000) by (nonlinear_arith)
            requires
                sb <= 0xffff,
        ;
        let low = (((addr as usize) & 0xfff8usize) | ((vsplit_scroll as usize) & 7usize)) & 0xfffusize;
        assert(low <= 0xfff) by (bit_vector)
            requires
                low == (((addr as usize) & 0xfff8usize) | ((vsplit_scroll as usize) & 7usize)) & 0xfffusize,
        ;
        (sb as usize) * 0x1000 + low
    }

    fn fill_nametable_value(&self, addr: u16) -> (r: u8)
        ensures
            r == self.fill_value(addr),
    {
        if (addr & 0x03ff) < 0x03c0 {
            self.fill_mode_tile
        } else {
            let c = self.fill_mode_color & 0x03;
            c | (c << 2) | (c << 4) | (c << 6)
        }
    }

    fn ciram_offset(page: u8, addr: u16) -> (r: usize)
        ensures
            r == Mmc5::ciram_index(page, addr),
            r < 0x800,
    {
        let o = (((page & 1) as usize) * 0x400) | ((addr & 0x03ff) as usize);
        proof { crate::bits::lemma_usize_bits(); }
        assert(o & 0x07ff < 0x800);
        o & 0x07ff
    }

    fn nametable_source(&self, addr: u16) -> (r: u8)
        ensures
            r == self.nametable_source_spec(addr),
            r <= 3,
    {
        let q = (addr & 0x0c00) >> 10;
        assert(q <= 3) by (bit_vector)
            requires
                q == (addr & 0x0c00) >> 10,
        ;
        let shift = q * 2;
        let m = self.nametable_mapping;
        assert((m >> shift) & 0x03 <= 3) by (bit_vector);
        (self.nametable_mapping >> shift) & 0x03
    }

    /// Ex-attribute override countdown: it expires after three fetches.
    fn tick_ex_attr(&mut self)
        ensures
            *final(self) == if old(self).extended_attribute_fetch_counter > 0 {
                Mmc5 {
                    extended_attribute_fetch_counter: (old(self).extended_attribute_fetch_counter - 1) as u8,
                    extended_attribute_chr_bank: if old(self).extended_attribute_fetch_counter == 1 {
                        None
                    } else {
                        old(self).extended_attribute_chr_bank
                    },
                    ..*old(self)
                }
            } else {
                *old(self)
            },
    {
        if self.extended_attribute_fetch_counter > 0 {
            self.extended_attribute_fetch_counter = self.extended_attribute_fetch_counter - 1;
            if self.extended_attribute_fetch_counter == 0 {
                self.extended_attribute_chr_bank = None;
            }
        }
    }

    /// Scanline detection from nametable fetches: the third identical
    /// nametable read marks a scanline start; the first starts the frame,
    /// later ones count scanlines and raise the IRQ at the compare value.
    fn detect_scanline_start(&mut self, addr: u16, interrupt: &mut InterruptLines)
        ensures
            ({
                let o = *old(self);
                let f = *final(self);
                let at_start = o.nt_read_counter >= 2;
                let starts_frame = at_start && !o.ppu_in_frame && !o.need_in_frame;
                let counted = at_start && !starts_frame;
                let next_line = vstd::wrapping::u8_specs::wrapping_add(o.scanline_counter, 1);
                let hit = counted && next_line == o.irq_scanline;
                let repeat = !at_start && 0x2000 <= addr <= 0x2fff && o.last_ppu_read_addr == addr;
                let bumped = if o.nt_read_counter < 255 { (o.nt_read_counter + 1) as u8 } else { 255u8 };
                &&& f.need_in_frame == (o.need_in_frame || starts_frame)
                &&& f.scanline_counter == if starts_frame { 0 } else if counted { next_line } else { o.scanline_counter }
                &&& f.irq_status == if hit { o.irq_status | 0x80 } else { o.irq_status }
                &&& *final(interrupt) == if hit && o.irq_enabled {
                    InterruptLines { irq_flag: old(interrupt).irq_flag | irq_bit(IrqSource::External), ..*old(interrupt) }
                } else {
                    *old(interrupt)
                }
                &&& f.nt_read_counter == if o.last_ppu_read_addr != addr {
                    0
                } else if repeat {
                    bumped
                } else {
                    o.nt_read_counter
                }
                &&& f.split_tile_number == if repeat && bumped >= 2 { 0 } else { o.split_tile_number }
                &&& f.last_ppu_read_addr == addr
                &&& f.extended_attribute_fetch_counter == if o.extended_attribute_fetch_counter > 0 {
                    (o.extended_attribute_fetch_counter - 1) as u8
                } else {
                    0
                }
                &&& f.extended_attribute_chr_bank == if o.extended_attribute_fetch_counter == 1 {
                    None
                } else {
                    o.extended_attribute_chr_bank
                }
                &&& f == (Mmc5 {
                    need_in_frame: f.need_in_frame,
                    scanline_counter: f.scanline_counter,
                    irq_status: f.irq_status,
                    nt_read_counter: f.nt_read_counter,
                    split_tile_number: f.split_tile_number,
                    last_ppu_read_addr: f.last_ppu_read_addr,
                    extended_attribute_fetch_counter: f.extended_attribute_fetch_counter,
                    extended_attribute_chr_bank: f.extended_attribute_chr_bank,
                    ..o
                })
            }),
    {
        if self.nt_read_counter >= 2 {
            if !self.ppu_in_frame && !self.need_in_frame {
                self.need_in_frame = true;
                self.scanline_counter = 0;
            } else {
                self.scanline_counter = self.scanline_counter.wrapping_add(1);
                if self.scanline_counter == self.irq_scanline {
                    self.irq_status = self.irq_status | 0x80;
                    if self.irq_enabled {
                        interrupt.set_irq_source(IrqSource::External);
                    }
                }
            }
        } else if 0x2000 <= addr && addr <= 0x2fff {
            if self.last_ppu_read_addr == addr {
                self.nt_read_counter = self.nt_read_counter.saturating_add(1);
                if self.nt_read_counter >= 2 {
                    self.split_tile_number = 0;
                }
            }
        }
        if self.last_ppu_read_addr != addr {
            self.nt_read_counter = 0;
        }
        self.last_ppu_read_addr = addr;
        self.tick_ex_attr();
    }
}

/// Little-endian bytes of a sequence of u16 values.
pub open spec fn u16_seq_bytes(s: Seq<u16>) -> Seq<u8>
    decreases s.len(),
{
    if s.len() == 0 {
        Seq::empty()
    } else {
        u16_seq_bytes(s.drop_last()) + u16_bytes(s.last())
    }
}

impl Mmc5 {
    /// The 101 register bytes that open a snapshot (everything before PRG
    /// RAM).
    pub open spec fn register_bytes(&self) -> Seq<u8> {
        self.bank_register_bytes() + self.mode_register_bytes() + self.runtime_register_bytes()
    }

    /// Snapshot bytes 0-31: modes and bank registers.
    pub open spec fn bank_register_bytes(&self) -> Seq<u8> {
        seq![self.prg_mode, self.chr_mode] + self.prg_banks@ + u16_seq_bytes(self.chr_banks_a@) + u16_seq_bytes(
            self.chr_banks_b@,
        ) + u16_bytes(self.chr_high_bits)
    }

    /// Snapshot bytes 32-76: nametable, fill, split and audio registers.
    pub open spec fn mode_register_bytes(&self) -> Seq<u8> {
        seq![
            self.extended_ram_mode,
            self.nametable_mapping,
            self.fill_mode_tile,
            self.fill_mode_color,
            b2u(self.split_enabled),
            b2u(self.split_right_side),
            self.split_delimiter_tile,
            self.split_scroll,
            b2u(self.ppu_in_frame),
            b2u(self.need_in_frame),
            self.ppu_idle_counter,
        ] + u16_bytes(self.split_bank) + self.ppu_regs@ + self.audio.snapshot_spec()
    }

    /// Snapshot bytes 77-100: ex-attribute, split runtime, scanline
    /// detection, WRAM and IRQ state.
    pub open spec fn runtime_register_bytes(&self) -> Seq<u8> {
        u16_bytes(
            match self.extended_attribute_chr_bank {
                Some(b) => b,
                None => 0xffffu16,
            },
        ) + seq![self.extended_attribute_palette, self.extended_attribute_fetch_counter] + u16_bytes(
            self.ex_attr_last_nt_fetch,
        ) + seq![self.split_tile_number, b2u(self.split_in_split_region)] + u16_bytes(self.split_tile) + u16_bytes(
            self.last_ppu_read_addr,
        ) + seq![self.nt_read_counter, self.scanline_counter] + u16_bytes(self.last_chr_reg) + seq![self.wram_page]
            + self.wram_mask_enable@ + self.multiplier@ + seq![
            self.irq_scanline,
            b2u(self.irq_enabled),
            self.irq_status,
        ]
    }

    /// Snapshot: registers, PRG RAM, ExRAM, then CHR state.
    pub open spec fn snapshot_spec(&self) -> Seq<u8> {
        self.register_bytes() + prg_ram_snapshot(self.prg_ram@) + self.exram@ + self.chr.snapshot_spec()
    }

    fn push_bank_registers(&self, bytes: &mut Vec<u8>)
        ensures
            final(bytes)@ == old(bytes)@ + self.bank_register_bytes(),
    {
        bytes.push(self.prg_mode);
        bytes.push(self.chr_mode);
        push_bytes(bytes, &self.prg_banks);
        push_u16s(bytes, &self.chr_banks_a);
        push_u16s(bytes, &self.chr_banks_b);
        push_u16(bytes, self.chr_high_bits);
        assert(final(bytes)@ =~= old(bytes)@ + self.bank_register_bytes());
    }

    fn push_mode_registers(&self, bytes: &mut Vec<u8>)
        ensures
            final(bytes)@ == old(bytes)@ + self.mode_register_bytes(),
    {
        bytes.push(self.extended_ram_mode);
        bytes.push(self.nametable_mapping);
        bytes.push(self.fill_mode_tile);
        bytes.push(self.fill_mode_color);
        bytes.push(if self.split_enabled { 1u8 } else { 0u8 });
        bytes.push(if self.split_right_side { 1u8 } else { 0u8 });
        bytes.push(self.split_delimiter_tile);
        bytes.push(self.split_scroll);
        bytes.push(if self.ppu_in_frame { 1u8 } else { 0u8 });
        bytes.push(if self.need_in_frame { 1u8 } else { 0u8 });
        bytes.push(self.ppu_idle_counter);
        push_u16(bytes, self.split_bank);
        push_bytes(bytes, &self.ppu_regs);
        self.audio.snapshot_bytes(bytes);
        assert(final(bytes)@ =~= old(bytes)@ + self.mode_register_bytes());
    }

    fn push_runtime_registers(&self, bytes: &mut Vec<u8>)
        ensures
            final(bytes)@ == old(bytes)@ + self.runtime_register_bytes(),
    {
        push_u16(bytes, match self.extended_attribute_chr_bank {
            Some(b) => b,
            None => 0xffff,
        });
        bytes.push(self.extended_attribute_palette);
        bytes.push(self.extended_attribute_fetch_counter);
        push_u16(bytes, self.ex_attr_last_nt_fetch);
        bytes.push(self.split_tile_number);
        bytes.push(if self.split_in_split_region { 1u8 } else { 0u8 });
        push_u16(bytes, self.split_tile);
        push_u16(bytes, self.last_ppu_read_addr);
        bytes.push(self.nt_read_counter);
        bytes.push(self.scanline_counter);
        push_u16(bytes, self.last_chr_reg);
        bytes.push(self.wram_page);
        push_bytes(bytes, &self.wram_mask_enable);
        push_bytes(bytes, &self.multiplier);
        bytes.push(self.irq_scanline);
        bytes.push(if self.irq_enabled { 1u8 } else { 0u8 });
        bytes.push(self.irq_status);
        assert(final(bytes)@ =~= old(bytes)@ + self.runtime_register_bytes());
    }

    /// Every register restored from the 101 snapshot bytes `b[0..101]`.
    pub open spec fn registers_from(&self, b: Seq<u8>) -> bool {
        &&& self.prg_mode == b[0] & 0x03
        &&& self.chr_mode == b[1] & 0x03
        &&& self.prg_banks@ == b.subrange(2, 6)
        &&& forall|i: int| 0 <= i < 8 ==> #[trigger] self.chr_banks_a@[i] == u16_at(b, 6 + 2 * i)
        &&& forall|i: int| 0 <= i < 4 ==> #[trigger] self.chr_banks_b@[i] == u16_at(b, 22 + 2 * i)
        &&& self.chr_high_bits == u16_at(b, 30)
        &&& self.extended_ram_mode == b[32] & 0x03
        &&& self.nametable_mapping == b[33]
        &&& self.fill_mode_tile == b[34]
        &&& self.fill_mode_color == b[35] & 0x03
        &&& self.split_enabled == (b[36] != 0)
        &&& self.split_right_side == (b[37] != 0)
        &&& self.split_delimiter_tile == b[38] & 0x1f
        &&& self.split_scroll == b[39]
        &&& self.ppu_in_frame == (b[40] != 0)
        &&& self.need_in_frame == (b[41] != 0)
        &&& self.ppu_idle_counter == b[42]
        &&& self.split_bank == u16_at(b, 43)
        &&& self.ppu_regs@ == b.subrange(45, 53)
        &&& self.audio.regs@ == b.subrange(53, 75)
        &&& self.audio.pulse_enabled == b[75] & 0x03
        &&& self.audio.pcm_output == b[76] & 0x7f
        &&& self.extended_attribute_chr_bank == if u16_at(b, 77) == 0xffff { None } else { Some(u16_at(b, 77)) }
        &&& self.extended_attribute_palette == b[79] & 0x03
        &&& self.extended_attribute_fetch_counter == b[80]
        &&& self.ex_attr_last_nt_fetch == u16_at(b, 81)
        &&& self.split_tile_number == b[83]
        &&& self.split_in_split_region == (b[84] != 0)
        &&& self.split_tile == u16_at(b, 85)
        &&& self.last_ppu_read_addr == u16_at(b, 87)
        &&& self.nt_read_counter == b[89]
        &&& self.scanline_counter == b[90]
        &&& self.last_chr_reg == u16_at(b, 91)
        &&& self.wram_page == b[93]
        &&& self.wram_mask_enable@ == b.subrange(94, 96)
        &&& self.multiplier@ == b.subrange(96, 98)
        &&& self.irq_scanline == b[98]
        &&& self.irq_enabled == (b[99] != 0)
        &&& self.irq_status == b[100]
    }
}

/// Append every byte of an array.
fn push_bytes<const N: usize>(bytes: &mut Vec<u8>, a: &[u8; N])
    ensures
        final(bytes)@ == old(bytes)@ + a@,
{
    let mut i: usize = 0;
    while i < N
        invariant
            i <= N,
            a@.len() == N,
            bytes@ == old(bytes)@ + a@.subrange(0, i as int),
        decreases N - i,
    {
        bytes.push(a[i]);
        i = i + 1;
        assert(bytes@ =~= old(bytes)@ + a@.subrange(0, i as int));
    }
    assert(a@.subrange(0, N as int) =~= a@);
}

/// Append every value of a u16 array, little-endian.
fn push_u16s<const N: usize>(bytes: &mut Vec<u8>, a: &[u16; N])
    ensures
        final(bytes)@ == old(bytes)@ + u16_seq_bytes(a@),
{
    let mut i: usize = 0;
    while i < N
        invariant
            i <= N,
            a@.len() == N,
            bytes@ == old(bytes)@ + u16_seq_bytes(a@.subrange(0, i as int)),
        decreases N - i,
    {
        push_u16(bytes, a[i]);
        assert(a@.subrange(0, i + 1).drop_last() =~= a@.subrange(0, i as int));
        i = i + 1;
        assert(bytes@ =~= old(bytes)@ + u16_seq_bytes(a@.subrange(0, i as int)));
    }
    assert(a@.subrange(0, N as int) =~= a@);
}

fn read_array4(b: &[u8], o: usize) -> (r: [u8; 4])
    requires
        o + 4 <= b@.len(),
    ensures
        r@ == b@.subrange(o as int, o + 4),
{
    let r = [b[o], b[o + 1], b[o + 2], b[o + 3]];
    assert(r@ =~= b@.subrange(o as int, o + 4));
    r
}

fn read_array8(b: &[u8], o: usize) -> (r: [u8; 8])
    requires
        o + 8 <= b@.len(),
    ensures
        r@ == b@.subrange(o as int, o + 8),
{
    let r = [b[o], b[o + 1], b[o + 2], b[o + 3], b[o + 4], b[o + 5], b[o + 6], b[o + 7]];
    assert(r@ =~= b@.subrange(o as int, o + 8));
    r
}

fn read_u16_array4(b: &[u8], o: usize) -> (r: [u16; 4])
    requires
        o + 8 <= b@.len(),
    ensures
        forall|i: int| 0 <= i < 4 ==> #[trigger] r@[i] == u16_at(b@, o + 2 * i),
{
    let len = b.len();
    assert(o + 8 <= len);
    [read_u16(b, o), read_u16(b, o + 2), read_u16(b, o + 4), read_u16(b, o + 6)]
}

fn read_u16_array8(b: &[u8], o: usize) -> (r: [u16; 8])
    requires
        o + 16 <= b@.len(),
    ensures
        forall|i: int| 0 <= i < 8 ==> #[trigger] r@[i] == u16_at(b@, o + 2 * i),
{
    let len = b.len();
    assert(o + 16 <= len);
    [
        read_u16(b, o),
        read_u16(b, o + 2),
        read_u16(b, o + 4),
        read_u16(b, o + 6),
        read_u16(b, o + 8),
        read_u16(b, o + 10),
        read_u16(b, o + 12),
        read_u16(b, o + 14),
    ]
}

impl Mapper for Mmc5 {
    open spec fn inv(&self) -> bool {
        &&& self.prg_rom@.len() > 0
        &&& self.prg_rom@.len() + 0x8000 <= usize::MAX
        &&& self.chr.wf()
    }

    fn mapper_id(&self) -> (r: u16)
        ensures
            r == 5,
    {
        5
    }

    fn name(&self) -> (r: &'static str)
        ensures
            r@ == "MMC5"@,
    {
        "MMC5"
    }

    open spec fn cpu_read_value(&self, addr: u16, next: Self, r: u8) -> bool {
        &&& (r == if 0x6000 <= addr <= 0x7fff {
            match self.wram_byte(self.wram_page, addr) {
                Some(v) => v,
                None => 0,
            }
        } else if addr >= 0x8000 {
            self.prg_rom_byte(addr)
        } else {
            0
        })
        &&& next == *self
    }

    /// Side-effect-free read: the WRAM page at `$6000`, PRG ROM at `$8000+`.
    fn cpu_read(&mut self, addr: u16) -> (r: u8) {
        if 0x6000 <= addr && addr <= 0x7fff {
            return match self.read_wram_bank(self.wram_page, addr) {
                Some(v) => v,
                None => 0,
            };
        }
        if addr >= 0x8000 {
            return self.read_prg_rom(addr);
        }
        0
    }

    open spec fn cpu_read_result(&self, addr: u16, open_bus: u8, interrupt: InterruptLines, next: Self, next_interrupt: InterruptLines, r: u8) -> bool {
        &&& r == self.cpu_value(addr, open_bus)
        &&& (addr == 0x5204 ==> {
            &&& next == (Mmc5 { irq_status: self.irq_status & 0x7f, ..*self })
            &&& next_interrupt == (InterruptLines {
                irq_flag: interrupt.irq_flag & !irq_bit(IrqSource::External),
                ..interrupt
            })
        })
        &&& ((addr == 0xfffa || addr == 0xfffb) ==> {
            &&& next == (Mmc5 {
                ppu_in_frame: false,
                last_ppu_read_addr: 0,
                scanline_counter: 0,
                irq_status: self.irq_status & 0x7f,
                ..*self
            })
            &&& next_interrupt == (InterruptLines {
                irq_flag: interrupt.irq_flag & !irq_bit(IrqSource::External),
                ..interrupt
            })
        })
        &&& ((addr != 0x5204 && addr != 0xfffa && addr != 0xfffb) ==> next == *self && next_interrupt
            == interrupt)
    }

    /// Register and memory reads; `$5204` acknowledges the IRQ, and the NMI
    /// vector fetch (`$FFFA-B`) ends the frame.
    fn cpu_read_open_bus(&mut self, addr: u16, open_bus: u8, interrupt: &mut InterruptLines) -> (r: u8) {
        if 0x5c00 <= addr && addr <= 0x5fff {
            if self.extended_ram_mode <= 1 {
                return open_bus;
            }
            return self.exram[(addr - 0x5c00) as usize];
        }
        if addr == 0x5010 || addr == 0x5015 {
            return self.audio.read(addr, open_bus);
        }
        if addr == 0x5204 {
            let value = (if self.ppu_in_frame { 0x40u8 } else { 0u8 }) | (self.irq_status & 0x80);
            self.irq_status = self.irq_status & 0x7f;
            interrupt.clear_irq_source(IrqSource::External);
            return value;
        }
        if addr == 0x5205 {
            return self.multiplier[0].wrapping_mul(self.multiplier[1]);
        }
        if addr == 0x5206 {
            let m0 = self.multiplier[0];
            let m1 = self.multiplier[1];
            assert(m0 as int * m1 as int <= 0xfe01) by (nonlinear_arith)
                requires
                    m0 <= 0xff,
                    m1 <= 0xff,
            ;
            let product = (m0 as u16) * (m1 as u16);
            return (product / 0x100) as u8;
        }
        if 0x6000 <= addr && addr <= 0x7fff {
            return match self.read_wram_bank(self.wram_page, addr) {
                Some(v) => v,
                None => open_bus,
            };
        }
        if addr == 0xfffa || addr == 0xfffb {
            self.ppu_in_frame = false;
            self.last_ppu_read_addr = 0;
            self.scanline_counter = 0;
            self.irq_status = self.irq_status & 0x7f;
            interrupt.clear_irq_source(IrqSource::External);
            return match self.read_prg_or_wram(addr) {
                Some(v) => v,
                None => open_bus,
            };
        }
        if addr >= 0x8000 {
            return match self.read_prg_or_wram(addr) {
                Some(v) => v,
                None => open_bus,
            };
        }
        0
    }

    open spec fn cpu_written(&self, addr: u16, value: u8, interrupt: InterruptLines, next: Self, next_interrupt: InterruptLines) -> bool {
        &&& (({
            let o = *self;
            let f = next;
            &&& f.prg_rom == o.prg_rom
            &&& f.chr == o.chr
            &&& f.ppu_regs == o.ppu_regs
            &&& f.mirroring == o.mirroring
            &&& f.ppu_in_frame == o.ppu_in_frame
            &&& f.split_tile_number == o.split_tile_number
            &&& f.irq_status == o.irq_status
            &&& f.audio.regs@ == if is_audio_reg(addr) { o.audio.regs@.update(addr - 0x5000, value) } else { o.audio.regs@ }
            &&& f.audio.pcm_output == if addr == 0x5011 { value & 0x7f } else { o.audio.pcm_output }
            &&& f.audio.pulse_enabled == if addr == 0x5015 { value & 0x03 } else { o.audio.pulse_enabled }
            &&& f.prg_mode == if addr == 0x5100 { value & 0x03 } else { o.prg_mode }
            &&& f.chr_mode == if addr == 0x5101 { value & 0x03 } else { o.chr_mode }
            &&& f.wram_mask_enable@ == if addr == 0x5102 {
                o.wram_mask_enable@.update(0, value)
            } else if addr == 0x5103 {
                o.wram_mask_enable@.update(1, value)
            } else {
                o.wram_mask_enable@
            }
            &&& f.extended_ram_mode == if addr == 0x5104 { value & 0x03 } else { o.extended_ram_mode }
            &&& f.nametable_mapping == if addr == 0x5105 { value } else { o.nametable_mapping }
            &&& f.fill_mode_tile == if addr == 0x5106 { value } else { o.fill_mode_tile }
            &&& f.fill_mode_color == if addr == 0x5107 { value & 0x03 } else { o.fill_mode_color }
            &&& f.wram_page == if addr == 0x5113 { value } else { o.wram_page }
            &&& f.prg_banks@ == if 0x5114 <= addr <= 0x5117 { o.prg_banks@.update(addr - 0x5114, value) } else { o.prg_banks@ }
            &&& f.chr_banks_a@ == if 0x5120 <= addr <= 0x5127 {
                o.chr_banks_a@.update(addr - 0x5120, (value as u16) | (o.chr_high_bits << 8))
            } else {
                o.chr_banks_a@
            }
            &&& f.chr_banks_b@ == if 0x5128 <= addr <= 0x512b {
                o.chr_banks_b@.update(addr - 0x5128, (value as u16) | (o.chr_high_bits << 8))
            } else {
                o.chr_banks_b@
            }
            &&& f.last_chr_reg == if 0x5120 <= addr <= 0x512b { addr } else { o.last_chr_reg }
            &&& f.chr_high_bits == if addr == 0x5130 { (value & 0x03) as u16 } else { o.chr_high_bits }
            &&& f.split_enabled == if addr == 0x5200 { value & 0x80 != 0 } else { o.split_enabled }
            &&& f.split_right_side == if addr == 0x5200 { value & 0x40 != 0 } else { o.split_right_side }
            &&& f.split_delimiter_tile == if addr == 0x5200 { value & 0x1f } else { o.split_delimiter_tile }
            &&& f.split_scroll == if addr == 0x5201 { value } else { o.split_scroll }
            &&& f.split_bank == if addr == 0x5202 { (value as u16) | (o.chr_high_bits << 8) } else { o.split_bank }
            &&& f.irq_scanline == if addr == 0x5203 { value } else { o.irq_scanline }
            &&& f.irq_enabled == if addr == 0x5204 { value & 0x80 != 0 } else { o.irq_enabled }
            &&& f.multiplier@ == if addr == 0x5205 {
                o.multiplier@.update(0, value)
            } else if addr == 0x5206 {
                o.multiplier@.update(1, value)
            } else {
                o.multiplier@
            }
            &&& f.exram@ == if 0x5c00 <= addr <= 0x5fff {
                o.exram@.update(addr - 0x5c00, if o.extended_ram_mode <= 1 && !o.ppu_in_frame { 0 } else { value })
            } else {
                o.exram@
            }
            &&& f.prg_ram@ == if addr >= 0x6000 {
                match o.wram_write_target(addr) {
                    Some(i) => o.prg_ram@.update(i, value),
                    None => o.prg_ram@,
                }
            } else {
                o.prg_ram@
            }
            &&& next_interrupt == if addr == 0x5204 {
                if value & 0x80 == 0 {
                    InterruptLines { irq_flag: interrupt.irq_flag & !irq_bit(IrqSource::External), ..interrupt }
                } else if o.irq_status & 0x80 != 0 {
                    InterruptLines { irq_flag: interrupt.irq_flag | irq_bit(IrqSource::External), ..interrupt }
                } else {
                    interrupt
                }
            } else {
                interrupt
            }
        }))
    }

    fn cpu_write(&mut self, addr: u16, value: u8, interrupt: &mut InterruptLines) {
        if (0x5000 <= addr && addr <= 0x5007) || addr == 0x5010 || addr == 0x5011 || addr == 0x5015 {
            self.audio.write(addr, value);
        } else if addr == 0x5100 {
            self.prg_mode = value & 0x03;
        } else if addr == 0x5101 {
            self.chr_mode = value & 0x03;
        } else if addr == 0x5102 {
            self.wram_mask_enable[0] = value;
        } else if addr == 0x5103 {
            self.wram_mask_enable[1] = value;
        } else if addr == 0x5104 {
            self.extended_ram_mode = value & 0x03;
        } else if addr == 0x5105 {
            self.nametable_mapping = value;
        } else if addr == 0x5106 {
            self.fill_mode_tile = value;
        } else if addr == 0x5107 {
            self.fill_mode_color = value & 0x03;
        } else if addr == 0x5113 {
            self.wram_page = value;
        } else if 0x5114 <= addr && addr <= 0x5117 {
            self.prg_banks[(addr - 0x5114) as usize] = value;
        } else if 0x5120 <= addr && addr <= 0x5127 {
            self.chr_banks_a[(addr - 0x5120) as usize] = (value as u16) | (self.chr_high_bits << 8);
            self.last_chr_reg = addr;
        } else if 0x5128 <= addr && addr <= 0x512b {
            self.chr_banks_b[(addr - 0x5128) as usize] = (value as u16) | (self.chr_high_bits << 8);
            self.last_chr_reg = addr;
        } else if addr == 0x5130 {
            self.chr_high_bits = (value & 0x03) as u16;
        } else if addr == 0x5200 {
            self.split_enabled = value & 0x80 != 0;
            self.split_right_side = value & 0x40 != 0;
            self.split_delimiter_tile = value & 0x1f;
        } else if addr == 0x5201 {
            self.split_scroll = value;
        } else if addr == 0x5202 {
            self.split_bank = (value as u16) | (self.chr_high_bits << 8);
        } else if addr == 0x5203 {
            self.irq_scanline = value;
        } else if addr == 0x5204 {
            self.irq_enabled = value & 0x80 != 0;
            if !self.irq_enabled {
                interrupt.clear_irq_source(IrqSource::External);
            } else if self.irq_status & 0x80 != 0 {
                interrupt.set_irq_source(IrqSource::External);
            }
        } else if addr == 0x5205 {
            self.multiplier[0] = value;
        } else if addr == 0x5206 {
            self.multiplier[1] = value;
        } else if 0x5c00 <= addr && addr <= 0x5fff {
            let v = if self.extended_ram_mode <= 1 && !self.ppu_in_frame { 0 } else { value };
            self.exram[(addr - 0x5c00) as usize] = v;
        } else if addr >= 0x6000 {
            self.write_mapped_wram(addr, value);
        }
    }

    open spec fn ppu_read_result(&self, addr: u16, next: Self, r: u8) -> bool {
        &&& r == (Mmc5 { ppu_idle_counter: 0, ..*self }).pattern_byte(addr)
        &&& next.ppu_idle_counter == 0
        &&& next.last_ppu_read_addr == addr & 0x3fff
        &&& next.nt_read_counter == if addr & 0x3fff != self.last_ppu_read_addr {
            0
        } else {
            self.nt_read_counter
        }
        &&& next.extended_attribute_fetch_counter == if self.extended_attribute_fetch_counter > 0 {
            (self.extended_attribute_fetch_counter - 1) as u8
        } else {
            0
        }
        &&& next.extended_attribute_chr_bank == if self.extended_attribute_fetch_counter == 1 {
            None
        } else {
            self.extended_attribute_chr_bank
        }
        &&& next == (Mmc5 {
            ppu_idle_counter: 0,
            last_ppu_read_addr: next.last_ppu_read_addr,
            nt_read_counter: next.nt_read_counter,
            extended_attribute_fetch_counter: next.extended_attribute_fetch_counter,
            extended_attribute_chr_bank: next.extended_attribute_chr_bank,
            ..*self
        })
    }

    /// Pattern fetch: resets the idle counter and the repeated-read
    /// detector, reads through the split bank or the CHR banks, and ticks
    /// the ex-attribute override.
    fn ppu_read(&mut self, addr: u16) -> (r: u8) {
        self.ppu_idle_counter = 0;
        let masked = addr & 0x3fff;
        if masked != self.last_ppu_read_addr {
            self.nt_read_counter = 0;
        }
        self.last_ppu_read_addr = masked;
        let split = self.extended_ram_mode <= 1 && self.ppu_in_frame && self.split_enabled && self.split_in_split_region
            && addr < 0x2000;
        let result = if split {
            let a = self.split_pattern_addr(addr);
            self.chr.read(a)
        } else {
            let o = self.chr_offset(addr);
            self.chr.read(o)
        };
        self.tick_ex_attr();
        result
    }

    fn debug_ppu_read(&self, addr: u16) -> (r: u8)
        ensures
            r == self.pattern_byte(addr),
    {
        if self.extended_ram_mode <= 1 && self.ppu_in_frame && self.split_enabled && self.split_in_split_region
            && addr < 0x2000 {
            self.chr.read(self.split_pattern_addr(addr))
        } else {
            self.chr.read(self.chr_offset(addr))
        }
    }

    open spec fn ppu_written(&self, addr: u16, value: u8, next: Self) -> bool {
        &&& next.chr.spec_rom() == self.chr.spec_rom()
        &&& next.chr.spec_pages() == self.chr.spec_pages()
        &&& next.chr.spec_ram() == self.chr.written(self.chr_offset_spec(addr), value)
        &&& next == (Mmc5 { ppu_idle_counter: 0, chr: next.chr, ..*self })
    }

    fn ppu_write(&mut self, addr: u16, value: u8) {
        self.ppu_idle_counter = 0;
        let offset = self.chr_offset(addr);
        self.chr.write(offset, value);
    }

    open spec fn nametable_read_result(
        &self,
        addr: u16,
        ciram: Seq<u8>,
        interrupt: InterruptLines,
        next: Self,
        next_interrupt: InterruptLines,
        r: Option<u8>,
    ) -> bool {
        &&& r is Some
        &&& next.ppu_idle_counter == 0
        &&& next.nametable_mapping == self.nametable_mapping
        &&& next.extended_ram_mode == self.extended_ram_mode
        &&& next.exram == self.exram
        &&& next.chr == self.chr
        &&& next.prg_rom == self.prg_rom
        &&& next.prg_ram == self.prg_ram
        &&& (addr & 0x03ff) < 0x03c0 && !self.ppu_in_frame && self.need_in_frame ==> next.ppu_in_frame
        &&& (self.extended_ram_mode >= 2 || !self.split_enabled) ==> r == Some(
            if self.extended_ram_mode == 1 && (addr & 0x03ff) >= 0x03c0 {
                attr_fill(self.extended_attribute_palette & 0x03)
            } else {
                let src = self.nametable_source_spec(addr);
                if src <= 1 {
                    ciram[Mmc5::ciram_index(src, addr)]
                } else if src == 2 {
                    if self.extended_ram_mode <= 1 { self.exram@[(addr & 0x03ff) as int] } else { 0 }
                } else {
                    self.fill_value(addr)
                }
            },
        )
    }

    /// Nametable fetch served by the board: console RAM page, ExRAM, or
    /// fill mode per quadrant, ExRAM attributes in mode 1, the split
    /// region's ExRAM tiles; also drives frame and scanline detection.
    fn ppu_read_nametable(&mut self, addr: u16, ciram: &[u8; 0x1000], interrupt: &mut InterruptLines) -> (r: Option<u8>) {
        let is_nt_byte_fetch = (addr & 0x03ff) < 0x03c0;
        if is_nt_byte_fetch {
            self.split_tile_number = self.split_tile_number.saturating_add(1);
            if !self.ppu_in_frame && self.need_in_frame {
                self.need_in_frame = false;
                self.ppu_in_frame = true;
            }
        }
        self.detect_scanline_start(addr & 0x3fff, interrupt);
        self.ppu_idle_counter = 0;
        let nt_offset = (addr & 0x03ff) as usize;
        if self.extended_ram_mode <= 1 && self.ppu_in_frame && self.split_enabled {
            let scanline = if self.split_tile_number >= 41 {
                self.scanline_counter.wrapping_add(1)
            } else {
                self.scanline_counter
            };
            let vsplit_scroll = scanline.wrapping_add(self.split_scroll) % 240;
            let column = (self.split_tile_number as u16).wrapping_add(2) % 42;
            if is_nt_byte_fetch {
                if column == 0 {
                    self.split_in_split_region = !self.split_right_side;
                }
                if column == self.split_delimiter_tile as u16 && self.split_tile_number < 42 {
                    self.split_in_split_region = !self.split_in_split_region;
                } else if column > 32 {
                    self.split_in_split_region = false;
                }
                if self.split_in_split_region {
                    let t = (((vsplit_scroll as u16) & 0xf8) << 2) | column;
                    self.split_tile = t;
                    proof { crate::bits::lemma_u16_bits(); }
                    assert(t & 0x3ff < 0x400);
                    return Some(self.exram[(t & 0x3ff) as usize]);
                }
            } else if self.split_in_split_region {
                let t = self.split_tile;
                let shift = ((t >> 4) & 0x04) | (t & 0x02);
                let at_addr = 0x3c0 | ((t & 0x0380) >> 4) | ((t & 0x001f) >> 2);
                assert(shift <= 6 && (at_addr & 0x3ff) < 0x400) by (bit_vector)
                    requires
                        shift == ((t >> 4) & 0x04) | (t & 0x02),
                        at_addr == 0x3c0 | ((t & 0x0380) >> 4) | ((t & 0x001f) >> 2),
                ;
                let palette = (self.exram[(at_addr & 0x3ff) as usize] >> shift) & 0x03;
                return Some(palette | (palette << 2) | (palette << 4) | (palette << 6));
            }
        }
        if self.extended_ram_mode == 1 && nt_offset < 0x03c0 {
            let ext = self.exram[nt_offset];
            proof { crate::bits::lemma_u8_bits(); }
            assert(ext & 0x3f <= 0x3f);
            self.extended_attribute_chr_bank = Some(((ext & 0x3f) as u16) | (self.chr_high_bits << 6));
            self.extended_attribute_palette = ext >> 6;
            self.extended_attribute_fetch_counter = 3;
            self.ex_attr_last_nt_fetch = addr & 0x03ff;
        } else if self.extended_ram_mode == 1 && nt_offset >= 0x03c0 {
            let c = self.extended_attribute_palette & 0x03;
            return Some(c | (c << 2) | (c << 4) | (c << 6));
        }
        let source = self.nametable_source(addr);
        proof { crate::bits::lemma_u16_bits(); }
        assert((addr & 0x03ff) < 0x400);
        if source <= 1 {
            Some(ciram[Self::ciram_offset(source, addr)])
        } else if source == 2 {
            if self.extended_ram_mode <= 1 {
                Some(self.exram[(addr & 0x03ff) as usize])
            } else {
                Some(0)
            }
        } else {
            Some(self.fill_nametable_value(addr))
        }
    }

    open spec fn nametable_written(
        &self,
        addr: u16,
        value: u8,
        ciram: Seq<u8>,
        next: Self,
        next_ciram: Seq<u8>,
        r: bool,
    ) -> bool {
        let src = self.nametable_source_spec(addr);
        &&& r
        &&& next_ciram == if src <= 1 { ciram.update(Mmc5::ciram_index(src, addr), value) } else { ciram }
        &&& next.exram@ == if src == 2 && self.extended_ram_mode <= 1 {
            self.exram@.update((addr & 0x03ff) as int, value)
        } else {
            self.exram@
        }
        &&& next == (Mmc5 { exram: next.exram, ..*self })
    }

    /// Nametable write: console RAM pages and ExRAM (modes 0-1) store it;
    /// the write is always claimed.
    fn ppu_write_nametable(&mut self, addr: u16, value: u8, ciram: &mut [u8; 0x1000]) -> (r: bool) {
        let source = self.nametable_source(addr);
        if source <= 1 {
            let o = Self::ciram_offset(source, addr);
            ciram[o] = value;
        } else if source == 2 && self.extended_ram_mode <= 1 {
            let a = (addr & 0x03ff) as usize;
            proof { crate::bits::lemma_u16_bits(); }
            assert((addr & 0x03ff) < 0x400);
            self.exram[a] = value;
        }
        true
    }

    open spec fn mirrors(&self, m: Mirroring) -> bool {
        m == self.mirroring
    }

    /// Writes reach the board unchanged: no bus conflicts.
    open spec fn conflicts_are(&self, r: bool) -> bool {
        !r
    }

    fn has_bus_conflicts(&self) -> (r: bool) {
        false
    }

    fn nametable_mirroring(&self) -> (r: Mirroring) {
        self.mirroring
    }

    fn has_cpu_clock_hook(&self) -> (r: bool)
        ensures
            r,
    {
        true
    }

    /// The board asks to hear of PPU address changes but keeps its state.
    open spec fn watches_vram_addr(&self) -> bool {
        true
    }

    fn has_vram_addr_hook(&self) -> (r: bool) {
        true
    }

    fn notify_vram_addr(&mut self, addr: u16, cpu_cycle_count: u64, interrupt: &mut InterruptLines) {
    }

    /// Snoops `$2000-$2007` writes; clearing 8x16 sprites selects CHR set A.
    fn ppu_register_write(&mut self, original_addr: u16, canonical_addr: u16, value: u8)
        ensures
            (0x2000 <= original_addr <= 0x2007) ==> {
                &&& final(self).ppu_regs@ == old(self).ppu_regs@.update((canonical_addr & 0x0007) as int, value)
                &&& final(self).last_chr_reg == if canonical_addr & 0x0007 == 0 && value & 0x20 == 0 {
                    0
                } else {
                    old(self).last_chr_reg
                }
                &&& *final(self) == (Mmc5 { ppu_regs: final(self).ppu_regs, last_chr_reg: final(self).last_chr_reg, ..*old(self) })
            },
            !(0x2000 <= original_addr <= 0x2007) ==> *final(self) == *old(self),
    {
        if 0x2000 <= original_addr && original_addr <= 0x2007 {
            let i = canonical_addr & 0x0007;
            assert(i < 8) by (bit_vector)
                requires
                    i == canonical_addr & 0x0007,
            ;
            self.ppu_regs[i as usize] = value;
            if i == 0 && value & 0x20 == 0 {
                self.last_chr_reg = 0;
            }
        }
    }

    fn snapshot_bytes(&self) -> (r: Vec<u8>)
        ensures
            r@ == self.snapshot_spec(),
    {
        let mut bytes: Vec<u8> = Vec::new();
        self.push_bank_registers(&mut bytes);
        self.push_mode_registers(&mut bytes);
        self.push_runtime_registers(&mut bytes);
        assert(bytes@ =~= self.register_bytes());
        snapshot_prg_ram(&mut bytes, self.prg_ram.as_slice());
        push_bytes(&mut bytes, &self.exram);
        self.chr.snapshot_bytes(&mut bytes);
        assert(bytes@ =~= self.snapshot_spec());
        bytes
    }

    #[verifier::rlimit(40)]
    fn restore_snapshot(&mut self, bytes: &[u8]) -> (r: Result<()>)
        ensures
            final(self).prg_rom == old(self).prg_rom,
            final(self).mirroring == old(self).mirroring,
            final(self).prg_ram@.len() == old(self).prg_ram@.len(),
            final(self).chr.spec_rom() == old(self).chr.spec_rom(),
            ({
                let b = bytes@;
                let n = old(self).prg_ram@.len() as int;
                &&& r is Ok <==> (b.len() >= 101 && prg_ram_accepts(b, 101, n) && 105 + n + 0x400 <= b.len()
                    && old(self).chr.restore_accepts(b, 105 + n + 0x400))
                &&& r is Ok ==> {
                    &&& final(self).registers_from(b)
                    &&& final(self).prg_ram@ == b.subrange(105, 105 + n)
                    &&& final(self).exram@ == b.subrange(105 + n, 105 + n + 0x400)
                    &&& ChrMemory::restored(old(self).chr, final(self).chr, b, 105 + n + 0x400)
                }
                &&& r is Err ==> r matches Err(NesleError::InvalidState(_))
            }),
    {
        if bytes.len() < 101 {
            return Err(NesleError::invalid_state("MMC5 snapshot is missing register bytes"));
        }
        self.prg_mode = bytes[0] & 0x03;
        self.chr_mode = bytes[1] & 0x03;
        self.prg_banks = read_array4(bytes, 2);
        self.chr_banks_a = read_u16_array8(bytes, 6);
        self.chr_banks_b = read_u16_array4(bytes, 22);
        self.chr_high_bits = read_u16(bytes, 30);
        self.extended_ram_mode = bytes[32] & 0x03;
        self.nametable_mapping = bytes[33];
        self.fill_mode_tile = bytes[34];
        self.fill_mode_color = bytes[35] & 0x03;
        self.split_enabled = bytes[36] != 0;
        self.split_right_side = bytes[37] != 0;
        self.split_delimiter_tile = bytes[38] & 0x1f;
        self.split_scroll = bytes[39];
        self.ppu_in_frame = bytes[40] != 0;
        self.need_in_frame = bytes[41] != 0;
        self.ppu_idle_counter = bytes[42];
        self.split_bank = read_u16(bytes, 43);
        self.ppu_regs = read_array8(bytes, 45);
        let mut audio_at: usize = 53;
        match self.audio.restore_snapshot(bytes, &mut audio_at) {
            Ok(()) => {},
            Err(e) => return Err(e),
        }
        let ext_bank = read_u16(bytes, 77);
        self.extended_attribute_chr_bank = if ext_bank != 0xffff { Some(ext_bank) } else { None };
        self.extended_attribute_palette = bytes[79] & 0x03;
        self.extended_attribute_fetch_counter = bytes[80];
        self.ex_attr_last_nt_fetch = read_u16(bytes, 81);
        self.split_tile_number = bytes[83];
        self.split_in_split_region = bytes[84] != 0;
        self.split_tile = read_u16(bytes, 85);
        self.last_ppu_read_addr = read_u16(bytes, 87);
        self.nt_read_counter = bytes[89];
        self.scanline_counter = bytes[90];
        self.last_chr_reg = read_u16(bytes, 91);
        self.wram_page = bytes[93];
        self.wram_mask_enable = [bytes[94], bytes[95]];
        self.multiplier = [bytes[96], bytes[97]];
        self.irq_scanline = bytes[98];
        self.irq_enabled = bytes[99] != 0;
        self.irq_status = bytes[100];
        assert(self.wram_mask_enable@ =~= bytes@.subrange(94, 96));
        assert(self.multiplier@ =~= bytes@.subrange(96, 98));
        assert(self.registers_from(bytes@));
        let offset = match restore_prg_ram(bytes, 101, &mut self.prg_ram, "MMC5") {
            Ok(o) => o,
            Err(e) => return Err(e),
        };
        if bytes.len() < 0x400 || bytes.len() - 0x400 < offset {
            return Err(NesleError::invalid_state("MMC5 snapshot is missing EXRAM"));
        }
        let mut i: usize = 0;
        while i < 0x400
            invariant
                i <= 0x400,
                offset + 0x400 <= bytes@.len(),
                offset + 0x400 <= usize::MAX,
                forall|j: int| 0 <= j < i ==> #[trigger] self.exram@[j] == bytes@[offset + j],
                self.registers_from(bytes@),
                self.prg_rom == old(self).prg_rom,
                self.mirroring == old(self).mirroring,
                self.prg_ram@ == bytes@.subrange(105, 105 + old(self).prg_ram@.len() as int),
                offset == 105 + old(self).prg_ram@.len(),
                self.chr == old(self).chr,
            decreases 0x400 - i,
        {
            self.exram[i] = bytes[offset + i];
            i = i + 1;
        }
        assert(self.exram@ =~= bytes@.subrange(offset as int, offset + 0x400));
        let mut chr_at = offset + 0x400;
        self.chr.restore_snapshot(bytes, &mut chr_at, "MMC5")
    }

    /// Three CPU cycles without a PPU read end the in-frame state.
    fn process_cpu_clock(&mut self, interrupt: &mut InterruptLines)
        ensures
            *final(self) == if old(self).ppu_idle_counter < 3 {
                Mmc5 {
                    ppu_idle_counter: (old(self).ppu_idle_counter + 1) as u8,
                    ppu_in_frame: if old(self).ppu_idle_counter == 2 { false } else { old(self).ppu_in_frame },
                    ..*old(self)
                }
            } else {
                *old(self)
            },
            *final(interrupt) == *old(interrupt),
    {
        if self.ppu_idle_counter < 3 {
            self.ppu_idle_counter = self.ppu_idle_counter + 1;
            if self.ppu_idle_counter == 3 {
                self.ppu_in_frame = false;
            }
        }
    }
}

} // verus!
