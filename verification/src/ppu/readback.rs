//! CPU reads of the PPU registers and the per-dot settling of deferred
//! register effects.
use vstd::prelude::*;
use crate::cpu::InterruptLines;
use crate::mapper::Mapper;
use super::memory::{palette_value, scroll_x_step, scroll_y_step, next_scroll_x, next_scroll_y};
use super::registers::{bus_fetch, drive_bus, fresh_mask};
use super::Ppu;

verus! {

/// Open-bus level once every undriven bit has had its chance to decay.
pub open spec fn decayed_bus(p: Ppu) -> u8 {
    p.ppu_open_bus & fresh_mask(p.ppu_open_bus_decay_stamp@, p.frame_count)
}

/// `$2007` palette read as the CPU sees it: grayscale applies, and the top
/// two bits come from the open bus.
pub open spec fn palette_data_read(p: Ppu, addr: u16) -> u8 {
    let v = palette_value(p.palette@, addr);
    let shown = if p.mask & 0x01 != 0 { v & 0x30 } else { v };
    shown | (p.ppu_open_bus & 0xc0)
}

/// `v` after the deferred `$2006` copy and `$2007` increment of one dot.
pub open spec fn vram_after_update(p: Ppu, rendering: bool) -> u16 {
    let base = if p.update_vram_addr_delay == 1 { p.update_vram_addr } else { p.vram_addr };
    if !p.need_video_ram_increment {
        base
    } else if p.scanline >= 240 || !rendering {
        (((base + (if p.ctrl & 0x04 != 0 { 32u16 } else { 1u16 })) % 0x10000) as u16 & 0x7fff) as u16
    } else {
        scroll_y_step(scroll_x_step(base))
    }
}

/// The `$2007` address step: outside rendering, an access moves `v` on by
/// 32 when bit 2 of PPUCTRL is set and by 1 otherwise, within 15 bits;
/// without a pending access `v` stays (after any due `$2006` copy).
pub proof fn law_vram_increment(p: Ppu, rendering: bool)
    ensures
        ({
            let base = if p.update_vram_addr_delay == 1 { p.update_vram_addr } else { p.vram_addr };
            let step: int = if (p.ctrl / 4) % 2 == 1 { 32 } else { 1 };
            &&& !p.need_video_ram_increment ==> vram_after_update(p, rendering) == base
            &&& p.need_video_ram_increment && (p.scanline >= 240 || !rendering) ==> vram_after_update(p, rendering)
                == (base + step) % 0x8000
        }),
{
    crate::bits::lemma_u8_bits();
    crate::bits::lemma_u16_bits();
    let base = if p.update_vram_addr_delay == 1 { p.update_vram_addr } else { p.vram_addr };
    let inc: u16 = if p.ctrl & 0x04 != 0 { 32u16 } else { 1u16 };
    let w = ((base + inc) % 0x10000) as u16;
    assert(w & 0x7fff == w % 0x8000);
    assert(((base + inc) % 0x10000) % 0x8000 == (base + inc) % 0x8000);
}

impl Ppu {
    /// `$2007` read at `addr`. Outside the 6-dot lockout after a read, a
    /// non-palette read returns the buffered byte and refills the buffer; a
    /// palette read returns the palette entry directly (grayscale applied,
    /// top bits from the open bus) and refills the buffer from the bus
    /// address. The address increment follows one dot later.
    #[verifier::spinoff_prover]
    #[verifier::rlimit(100)]
    pub fn cpu_read_data_register_at<M: Mapper>(
        &mut self,
        addr: u16,
        mapper: &mut M,
        interrupt: &mut InterruptLines,
    ) -> (r: u8)
        requires
            old(mapper).inv(),
        ensures
            final(mapper).inv(),
            final(self).memories_eq(old(self)),
            final(self).timing_eq(old(self)),
            final(self).background_eq(old(self)),
            final(self).sprites_eq(old(self)),
            final(self).output_eq(old(self)),
            final(self).regs_eq(old(self)),
            final(self).vram_addr == old(self).vram_addr,
            final(self).temp_addr == old(self).temp_addr,
            final(self).ppu_bus_address == old(self).ppu_bus_address,
            final(self).update_vram_addr == old(self).update_vram_addr,
            final(self).update_vram_addr_delay == old(self).update_vram_addr_delay,
            final(self).io_latch == final(self).ppu_open_bus,
            old(self).ignore_vram_read > 0 ==> r == decayed_bus(*old(self)) && final(self).ppu_open_bus == r
                && final(self).data_buffer == old(self).data_buffer
                && final(self).ignore_vram_read == old(self).ignore_vram_read
                && final(self).need_video_ram_increment == old(self).need_video_ram_increment
                && final(self).need_state_update == old(self).need_state_update,
            old(self).ignore_vram_read == 0 ==> final(self).ignore_vram_read == 6
                && final(self).need_video_ram_increment && final(self).need_state_update,
            old(self).ignore_vram_read == 0 && addr & 0x3fff < 0x3f00 ==> r == old(self).data_buffer
                && final(self).ppu_open_bus == old(self).data_buffer,
            old(self).ignore_vram_read == 0 && addr & 0x3fff >= 0x3f00
                ==> r == palette_data_read(*old(self), (addr & 0x3fff) as u16),
            old(self).ignore_vram_read == 0 ==> bus_fetch(
                old(self).nametable@,
                old(self).palette@,
                if addr & 0x3fff < 0x3f00 { (addr & 0x3fff) as u16 } else { (old(self).ppu_bus_address & 0x3fff) as u16 },
                *old(mapper),
                *old(interrupt),
                *final(mapper),
                *final(interrupt),
                final(self).data_buffer,
            ),
    {
        if self.ignore_vram_read > 0 {
            let (bus, stamps) = drive_bus(self.ppu_open_bus, self.ppu_open_bus_decay_stamp, self.frame_count, 0, 0);
            proof {
                crate::bits::lemma_bus_bits();
            }
            assert(stamps@ =~= self.ppu_open_bus_decay_stamp@);
            self.ppu_open_bus = bus;
            self.io_latch = bus;
            return bus;
        }
        let a = bus_addr_of(addr);
        proof {
            crate::bits::lemma_bus_bits();
        }
        let value = self.ppu_read(a, mapper, interrupt);
        let result;
        let bus_mask: u8;
        let driven: u8;
        if a < 0x3f00 {
            let buffered = self.data_buffer;
            self.data_buffer = value;
            bus_mask = 0xff;
            driven = buffered;
            result = buffered;
        } else {
            let merged = palette_shown(value, self.mask, self.ppu_open_bus);
            let refill = self.ppu_read(bus_addr_of(self.ppu_bus_address), mapper, interrupt);
            self.data_buffer = refill;
            bus_mask = 0x3f;
            driven = merged;
            result = merged;
        }
        let (bus, stamps) = drive_bus(self.ppu_open_bus, self.ppu_open_bus_decay_stamp, self.frame_count, bus_mask, driven);
        self.ppu_open_bus = bus;
        self.ppu_open_bus_decay_stamp = stamps;
        self.io_latch = bus;
        self.ignore_vram_read = 6;
        self.need_video_ram_increment = true;
        self.need_state_update = true;
        result
    }
}

impl Ppu {
    /// CPU read of a PPU register (`addr & 0x2007` selects it). `$2002`
    /// returns the status flags over the open bus and clears VBlank and the
    /// write latch; `$2004` returns OAM (or the sprite-fetch copy buffer
    /// while rendering); `$2007` is the data port; the write-only registers
    /// read back the decayed open bus.
    #[verifier::spinoff_prover]
    #[verifier::rlimit(100)]
    pub fn cpu_read_register<M: Mapper>(&mut self, addr: u16, mapper: &mut M, interrupt: &mut InterruptLines) -> (r: u8)
        requires
            old(mapper).inv(),
        ensures
            final(mapper).inv(),
            final(self).vram_addr == old(self).vram_addr,
            final(self).temp_addr == old(self).temp_addr,
            final(self).scanline == old(self).scanline,
            final(self).cycle == old(self).cycle,
            final(self).oam == old(self).oam,
            final(self).palette == old(self).palette,
            final(self).nametable == old(self).nametable,
            final(self).output_buffer == old(self).output_buffer,
            final(self).io_latch == final(self).ppu_open_bus,
            addr & 0x2007 == 0x2002 ==> r == (old(self).status & 0xe0) | (decayed_bus(*old(self)) & 0x1f)
                && final(self).status == old(self).status & 0x7f
                && !final(self).write_latch
                && final(self).prevent_vbl_flag == (old(self).prevent_vbl_flag
                    || (old(self).scanline == old(self).nmi_scanline as i16 && old(self).cycle == 0))
                && *final(interrupt) == (InterruptLines { nmi_flag: false, ..*old(interrupt) }),
            addr & 0x2007 == 0x2004 ==> r == (if old(self).scanline <= 239 && old(self).rendering_enabled {
                if 257 <= old(self).cycle <= 320 {
                    old(self).secondary_sprite_ram@[(((old(self).cycle - 257) / 8) * 4
                        + (if (old(self).cycle - 257) % 8 < 3 { (old(self).cycle - 257) % 8 } else { 3 })) as int]
                } else {
                    old(self).oam_copy_buffer
                }
            } else {
                old(self).oam@[old(self).oam_addr as int]
            }) && final(self).ppu_open_bus == r,
            addr & 0x2007 != 0x2002 && addr & 0x2007 != 0x2004 && addr & 0x2007 != 0x2007
                ==> r == decayed_bus(*old(self)) && final(self).ppu_open_bus == r,
            addr & 0x2007 == 0x2007 && old(self).ignore_vram_read > 0 ==> r == decayed_bus(*old(self)),
            addr & 0x2007 == 0x2007 && old(self).ignore_vram_read == 0 && old(self).vram_addr & 0x3fff < 0x3f00
                ==> r == old(self).data_buffer,
            addr & 0x2007 == 0x2007 && old(self).ignore_vram_read == 0 && old(self).vram_addr & 0x3fff >= 0x3f00
                ==> r == palette_data_read(*old(self), (old(self).vram_addr & 0x3fff) as u16),
    {
        let a = super::registers::register_of(addr);
        if a == 0x2002 {
            let st = self.status;
            let status = st & 0xe0;
            proof {
                crate::bits::lemma_u8_bits();
                crate::bits::lemma_bus_bits();
            }
            self.status = st & 0x7f;
            self.write_latch = false;
            if self.scanline == self.nmi_scanline as i16 && self.cycle == 0 {
                self.prevent_vbl_flag = true;
            }
            interrupt.clear_nmi_flag();
            let (bus, stamps) = drive_bus(self.ppu_open_bus, self.ppu_open_bus_decay_stamp, self.frame_count, 0xe0, status);
            self.ppu_open_bus = bus;
            self.ppu_open_bus_decay_stamp = stamps;
            self.io_latch = bus;
            let ghost k = fresh_mask(old(self).ppu_open_bus_decay_stamp@, old(self).frame_count);
            let ghost ob = old(self).ppu_open_bus;
            assert(status | (((status & 0xe0u8) | (ob & !0xe0u8 & k)) & 0x1fu8) == status | ((ob & k) & 0x1f));
            status | (bus & 0x1f)
        } else if a == 0x2004 {
            let value = if self.scanline <= 239 && self.rendering_enabled {
                if 257 <= self.cycle && self.cycle <= 320 {
                    let d = self.cycle - 257;
                    let step = if d % 8 < 3 { d % 8 } else { 3 };
                    self.secondary_oam_addr = ((d / 8) * 4 + step) as u8;
                    self.oam_copy_buffer = self.secondary_sprite_ram[self.secondary_oam_addr as usize];
                }
                self.oam_copy_buffer
            } else {
                self.oam[self.oam_addr as usize]
            };
            let (bus, stamps) = drive_bus(self.ppu_open_bus, self.ppu_open_bus_decay_stamp, self.frame_count, 0xff, value);
            self.ppu_open_bus = bus;
            self.ppu_open_bus_decay_stamp = stamps;
            self.io_latch = bus;
            let ghost k = fresh_mask(old(self).ppu_open_bus_decay_stamp@, old(self).frame_count);
            let ghost ob = old(self).ppu_open_bus;
            proof {
                crate::bits::lemma_bus_bits();
            }
            assert((value & 0xffu8) | (ob & !0xffu8 & k) == value);
            assert(value | (value & 0u8) == value);
            value
        } else if a == 0x2007 {
            let latched = self.vram_addr;
            self.cpu_read_data_register_at(latched, mapper, interrupt)
        } else {
            let (bus, stamps) = drive_bus(self.ppu_open_bus, self.ppu_open_bus_decay_stamp, self.frame_count, 0, 0);
            let ghost k = fresh_mask(old(self).ppu_open_bus_decay_stamp@, old(self).frame_count);
            let ghost ob = old(self).ppu_open_bus;
            proof {
                crate::bits::lemma_bus_bits();
            }
            assert((0u8 & 0u8) | (ob & !0u8 & k) == ob & k);
            self.ppu_open_bus = bus;
            self.ppu_open_bus_decay_stamp = stamps;
            self.io_latch = bus;
            assert(bus | (bus & 0xffu8) == bus);
            bus
        }
    }
}

impl Ppu {
    /// Settle the deferred register effects at the end of a dot: the
    /// rendering enable follows `$2001` with one dot of delay (a disable
    /// mid-line puts `v` on the bus and, during sprite evaluation, bumps
    /// OAMADDR), the `$2006` copy lands when its delay runs out, the `$2007`
    /// lockout counts down and the `$2007` increment is applied (by 1 or 32
    /// outside rendering, as a scroll step during rendering).
    #[verifier::spinoff_prover]
    #[verifier::rlimit(100)]
    pub fn update_state<const VRAM_HOOK: bool, M: Mapper>(&mut self, mapper: &mut M, interrupt: &mut InterruptLines)
        requires
            old(mapper).inv(),
        ensures
            final(mapper).inv(),
            final(self).memories_eq(old(self)),
            final(self).timing_eq(old(self)),
            final(self).background_eq(old(self)),
            final(self).sprites_eq(old(self)),
            final(self).output_eq(old(self)),
            final(self).ctrl == old(self).ctrl && final(self).mask == old(self).mask,
            final(self).status == old(self).status && final(self).write_latch == old(self).write_latch,
            final(self).data_buffer == old(self).data_buffer && final(self).ppu_open_bus == old(self).ppu_open_bus,
            final(self).update_vram_addr == old(self).update_vram_addr,
            final(self).prevent_vbl_flag == old(self).prevent_vbl_flag,
            final(self).prev_rendering_enabled == old(self).rendering_enabled,
            final(self).rendering_enabled == (old(self).mask & 0x18 != 0),
            final(self).update_vram_addr_delay == (if old(self).update_vram_addr_delay > 0 {
                old(self).update_vram_addr_delay - 1
            } else {
                0
            }),
            final(self).ignore_vram_read == (if old(self).ignore_vram_read > 0 { old(self).ignore_vram_read - 1 } else { 0 }),
            !final(self).need_video_ram_increment,
            final(self).need_state_update == (old(self).rendering_enabled != (old(self).mask & 0x18 != 0)
                || old(self).update_vram_addr_delay > 1 || old(self).ignore_vram_read > 1),
            final(self).vram_addr == vram_after_update(*old(self), final(self).rendering_enabled),
            final(self).temp_addr == (if old(self).update_vram_addr_delay == 1 {
                old(self).update_vram_addr
            } else {
                old(self).temp_addr
            }),
            ({
                let bump = old(self).prev_rendering_enabled != old(self).rendering_enabled
                    && old(self).scanline < 240 && !old(self).rendering_enabled
                    && 65 <= old(self).cycle <= 256;
                &&& bump ==> final(self).oam_addr == (old(self).oam_addr + 1) % 256
                    && final(self).sprite_addr_h == (final(self).oam_addr >> 2) & 0x3f
                    && final(self).sprite_addr_l == final(self).oam_addr & 0x03
                &&& !bump ==> final(self).oam_addr == old(self).oam_addr
                    && final(self).sprite_addr_h == old(self).sprite_addr_h
                    && final(self).sprite_addr_l == old(self).sprite_addr_l
            }),
    {
        self.need_state_update = false;
        self.latch_rendering_enable::<VRAM_HOOK, M>(mapper, interrupt);
        self.land_vram_copy::<VRAM_HOOK, M>(mapper, interrupt);
        let ignore = self.ignore_vram_read;
        self.ignore_vram_read = count_down_u32(ignore);
        self.need_state_update = self.need_state_update || ignore > 1;
        self.apply_vram_increment::<VRAM_HOOK, M>(mapper, interrupt);
    }

    /// First stage of `update_state`: the delayed rendering enable.
    #[verifier::spinoff_prover]
    #[verifier::rlimit(100)]
    pub fn latch_rendering_enable<const VRAM_HOOK: bool, M: Mapper>(&mut self, mapper: &mut M, interrupt: &mut InterruptLines)
        requires
            old(mapper).inv(),
        ensures
            final(mapper).inv(),
            final(self).memories_eq(old(self)),
            final(self).timing_eq(old(self)),
            final(self).background_eq(old(self)),
            final(self).sprites_eq(old(self)),
            final(self).output_eq(old(self)),
            final(self).ctrl == old(self).ctrl && final(self).mask == old(self).mask,
            final(self).status == old(self).status && final(self).write_latch == old(self).write_latch,
            final(self).data_buffer == old(self).data_buffer && final(self).ppu_open_bus == old(self).ppu_open_bus,
            final(self).update_vram_addr == old(self).update_vram_addr,
            final(self).update_vram_addr_delay == old(self).update_vram_addr_delay,
            final(self).ignore_vram_read == old(self).ignore_vram_read,
            final(self).need_video_ram_increment == old(self).need_video_ram_increment,
            final(self).vram_addr == old(self).vram_addr && final(self).temp_addr == old(self).temp_addr,
            final(self).prevent_vbl_flag == old(self).prevent_vbl_flag,
            final(self).prev_rendering_enabled == old(self).rendering_enabled,
            final(self).rendering_enabled == (old(self).mask & 0x18 != 0),
            final(self).need_state_update == (old(self).need_state_update
                || old(self).rendering_enabled != (old(self).mask & 0x18 != 0)),
            ({
                let bump = old(self).prev_rendering_enabled != old(self).rendering_enabled
                    && old(self).scanline < 240 && !old(self).rendering_enabled
                    && 65 <= old(self).cycle <= 256;
                &&& bump ==> final(self).oam_addr == (old(self).oam_addr + 1) % 256
                    && final(self).sprite_addr_h == (final(self).oam_addr >> 2) & 0x3f
                    && final(self).sprite_addr_l == final(self).oam_addr & 0x03
                &&& !bump ==> final(self).oam_addr == old(self).oam_addr
                    && final(self).sprite_addr_h == old(self).sprite_addr_h
                    && final(self).sprite_addr_l == old(self).sprite_addr_l
            }),
    {
        let changed = self.prev_rendering_enabled != self.rendering_enabled;
        let drive = changed && self.scanline < 240 && !self.rendering_enabled;
        let bump = drive && 65 <= self.cycle && self.cycle <= 256;
        let o = if bump { self.oam_addr.wrapping_add(1) } else { self.oam_addr };
        let raw = shows_anything(self.mask);
        let need = self.need_state_update || self.rendering_enabled != raw;
        let (h0, l0) = split_oam_addr(o);
        let h = if bump { h0 } else { self.sprite_addr_h };
        let l = if bump { l0 } else { self.sprite_addr_l };
        self.prev_rendering_enabled = self.rendering_enabled;
        self.oam_addr = o;
        self.sprite_addr_h = h;
        self.sprite_addr_l = l;
        self.rendering_enabled = raw;
        self.need_state_update = need;
        let a = bus_addr_of(self.vram_addr);
        self.ppu_bus_address = if drive { a } else { self.ppu_bus_address };
        if drive {
            notify_bus::<VRAM_HOOK, M>(mapper, a, self.mapper_cpu_cycle_count, interrupt);
        }
    }

    /// Second stage of `update_state`: the delayed `$2006` copy into `v`.
    #[verifier::spinoff_prover]
    #[verifier::rlimit(100)]
    pub fn land_vram_copy<const VRAM_HOOK: bool, M: Mapper>(&mut self, mapper: &mut M, interrupt: &mut InterruptLines)
        requires
            old(mapper).inv(),
        ensures
            final(mapper).inv(),
            final(self).memories_eq(old(self)),
            final(self).timing_eq(old(self)),
            final(self).background_eq(old(self)),
            final(self).sprites_eq(old(self)),
            final(self).output_eq(old(self)),
            final(self).regs_eq(old(self)),
            final(self).data_buffer == old(self).data_buffer && final(self).ppu_open_bus == old(self).ppu_open_bus,
            final(self).update_vram_addr == old(self).update_vram_addr,
            final(self).ignore_vram_read == old(self).ignore_vram_read,
            final(self).need_video_ram_increment == old(self).need_video_ram_increment,
            final(self).prevent_vbl_flag == old(self).prevent_vbl_flag,
            final(self).update_vram_addr_delay == (if old(self).update_vram_addr_delay > 0 {
                old(self).update_vram_addr_delay - 1
            } else {
                0
            }),
            final(self).need_state_update == (old(self).need_state_update || old(self).update_vram_addr_delay > 1),
            old(self).update_vram_addr_delay == 1 ==> final(self).vram_addr == old(self).update_vram_addr
                && final(self).temp_addr == old(self).update_vram_addr,
            old(self).update_vram_addr_delay != 1 ==> final(self).vram_addr == old(self).vram_addr
                && final(self).temp_addr == old(self).temp_addr,
    {
        let delay = self.update_vram_addr_delay;
        let lands = delay == 1;
        let v = if lands { self.update_vram_addr } else { self.vram_addr };
        let t = if lands { self.update_vram_addr } else { self.temp_addr };
        let drive = lands && (self.scanline >= 240 || !self.rendering_enabled);
        self.update_vram_addr_delay = count_down(delay);
        self.need_state_update = self.need_state_update || delay > 1;
        self.vram_addr = v;
        self.temp_addr = t;
        let a = bus_addr_of(v);
        self.ppu_bus_address = if drive { a } else { self.ppu_bus_address };
        if drive {
            notify_bus::<VRAM_HOOK, M>(mapper, a, self.mapper_cpu_cycle_count, interrupt);
        }
    }

    /// Last stage of `update_state`: the `$2007` address increment.
    #[verifier::spinoff_prover]
    #[verifier::rlimit(100)]
    pub fn apply_vram_increment<const VRAM_HOOK: bool, M: Mapper>(&mut self, mapper: &mut M, interrupt: &mut InterruptLines)
        requires
            old(mapper).inv(),
        ensures
            final(mapper).inv(),
            final(self).memories_eq(old(self)),
            final(self).timing_eq(old(self)),
            final(self).background_eq(old(self)),
            final(self).sprites_eq(old(self)),
            final(self).output_eq(old(self)),
            final(self).regs_eq(old(self)),
            final(self).data_buffer == old(self).data_buffer && final(self).ppu_open_bus == old(self).ppu_open_bus,
            final(self).update_vram_addr == old(self).update_vram_addr,
            final(self).update_vram_addr_delay == old(self).update_vram_addr_delay,
            final(self).ignore_vram_read == old(self).ignore_vram_read,
            final(self).need_state_update == old(self).need_state_update,
            final(self).temp_addr == old(self).temp_addr,
            final(self).prevent_vbl_flag == old(self).prevent_vbl_flag,
            !final(self).need_video_ram_increment,
            final(self).vram_addr == (if !old(self).need_video_ram_increment {
                old(self).vram_addr
            } else if old(self).scanline >= 240 || !old(self).rendering_enabled {
                (((old(self).vram_addr + (if old(self).ctrl & 0x04 != 0 { 32u16 } else { 1u16 })) % 0x10000) as u16 & 0x7fff) as u16
            } else {
                scroll_y_step(scroll_x_step(old(self).vram_addr))
            }),
    {
        if self.need_video_ram_increment {
            self.need_video_ram_increment = false;
            if self.scanline >= 240 || !self.rendering_enabled {
                let v = vram_stepped(self.vram_addr, self.ctrl);
                self.vram_addr = v;
                let a = bus_addr_of(v);
                self.ppu_bus_address = a;
                notify_bus::<VRAM_HOOK, M>(mapper, a, self.mapper_cpu_cycle_count, interrupt);
            } else {
                self.vram_addr = next_scroll_y(next_scroll_x(self.vram_addr));
            }
        }
    }
}

/// The 14-bit PPU bus address of `v`.
pub fn bus_addr_of(v: u16) -> (r: u16)
    ensures
        r == v & 0x3fff,
        r & 0x3fff == r,
{
    proof {
        crate::bits::lemma_u16_bits();
    }
    v & 0x3fff
}

/// A palette byte as a `$2007` read shows it: grayscale applied per
/// `mask`, the top two bits from the open bus `bus`.
pub fn palette_shown(value: u8, mask: u8, bus: u8) -> (r: u8)
    ensures
        r == (if mask & 0x01 != 0 { value & 0x30 } else { value }) | (bus & 0xc0),
{
    let shown = if mask & 0x01 != 0 { value & 0x30 } else { value };
    shown | (bus & 0xc0)
}

/// One step of a countdown that stops at zero.
pub fn count_down(d: u8) -> (r: u8)
    ensures
        r == if d > 0 { d - 1 } else { 0 },
{
    if d > 0 { d - 1 } else { 0 }
}

/// One step of a 32-bit countdown that stops at zero.
pub fn count_down_u32(d: u32) -> (r: u32)
    ensures
        r == if d > 0 { d - 1 } else { 0 },
{
    if d > 0 { d - 1 } else { 0 }
}

/// OAMADDR split into sprite number and byte.
pub fn split_oam_addr(o: u8) -> (r: (u8, u8))
    ensures
        r.0 == (o >> 2u8) & 0x3f,
        r.1 == o & 0x03,
{
    ((o >> 2) & 0x3f, o & 0x03)
}

/// Whether `$2001` value `mask` shows background or sprites.
pub fn shows_anything(mask: u8) -> (r: bool)
    ensures
        r == (mask & 0x18 != 0),
{
    mask & 0x18 != 0
}

/// `v` after a `$2007` access outside rendering: plus 1, or 32 when
/// `$2000` bit 2 is set, within 15 bits.
pub fn vram_stepped(v: u16, ctrl: u8) -> (r: u16)
    ensures
        r == (((v + (if ctrl & 0x04 != 0 { 32u16 } else { 1u16 })) % 0x10000) as u16 & 0x7fff) as u16,
{
    let inc: u16 = if ctrl & 0x04 != 0 { 32 } else { 1 };
    v.wrapping_add(inc) & 0x7fff
}

/// Tell a board that watches the PPU bus about a new bus address.
pub fn notify_bus<const VRAM_HOOK: bool, M: Mapper>(mapper: &mut M, addr: u16, cpu_cycle: u64, interrupt: &mut InterruptLines)
    requires
        old(mapper).inv(),
    ensures
        final(mapper).inv(),
        !VRAM_HOOK ==> *final(mapper) == *old(mapper) && *final(interrupt) == *old(interrupt),
{
    if VRAM_HOOK {
        mapper.notify_vram_addr(addr, cpu_cycle, interrupt);
    }
}

} // verus!
