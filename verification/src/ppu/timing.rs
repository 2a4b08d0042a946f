//! The dot clock: per-dot scanline work, scanline and frame wrap, VBlank
//! and NMI, and running the PPU up to a master-clock target.
use vstd::prelude::*;
use crate::cartridge::Region;
use crate::cpu::InterruptLines;
use crate::mapper::Mapper;
use super::memory::{next_scroll_x, next_scroll_y};
use super::Ppu;

verus! {

/// Whether the NTSC odd-frame dot skip applies at the current dot.
pub open spec fn odd_frame_skip(p: Ppu) -> bool {
    &&& p.rendering_enabled
    &&& p.scanline == -1
    &&& p.cycle == 339
    &&& p.frame_count % 2 == 1
    &&& p.region == Region::Ntsc
}

impl Ppu {
    /// Everything `wf_core` bounds, with the sprite-fetch timing of the
    /// previous dot (the dot counter has just advanced).
    pub open spec fn ready_for_dot(&self) -> bool {
        &&& self.wf_core()
        &&& 1 <= self.cycle
        &&& (self.scanline < 240 && 258 <= self.cycle <= 320 ==> self.sprite_index * 8 + 253 < self.cycle)
    }

    /// Dots 1..256 of a rendered line: background fetches and scroll
    /// increments, then on visible lines pixel output, register shift and
    /// sprite evaluation; on the pre-render line dot 1 clears VBlank,
    /// sprite-0 hit and overflow state and dots 1..8 copy OAM row
    /// `OAMADDR & $F8` over row 0 (the OAMADDR corruption).
    pub fn visible_dot<const VRAM_HOOK: bool, M: Mapper>(&mut self, mapper: &mut M, interrupt: &mut InterruptLines)
        requires
            old(mapper).inv(),
            old(self).wf_core(),
            old(self).scanline < 240,
            1 <= old(self).cycle <= 256,
        ensures
            final(mapper).inv(),
            final(self).wf_core(),
            final(self).timing_eq(old(self)),
            final(self).sprite_index == old(self).sprite_index,
            final(self).rendering_enabled == old(self).rendering_enabled,
    {
        self.load_tile_info::<VRAM_HOOK, M>(mapper, interrupt);
        let cycle = self.cycle;
        if self.prev_rendering_enabled && (cycle & 0x07) == 0 {
            let v = next_scroll_x(self.vram_addr);
            self.vram_addr = if cycle == 256 { next_scroll_y(v) } else { v };
        }
        if self.scanline >= 0 {
            self.draw_pixel();
            self.shift_tile_registers();
            self.process_sprite_evaluation();
        } else if cycle < 9 {
            if cycle == 1 {
                self.status = self.status & 0x1f;
                interrupt.clear_nmi_flag();
            }
            if self.oam_addr >= 0x08 && self.rendering_enabled {
                let src = ((self.oam_addr & 0xf8) as usize).wrapping_add((cycle - 1) as usize);
                let dst = (cycle - 1) as usize;
                let mut oam = self.oam;
                let d = dst & 0xff;
                let sidx = src & 0xff;
                proof {
                    crate::bits::lemma_usize_bits();
                }
                oam[d] = self.oam[sidx];
                self.oam = oam;
            }
        }
    }

    /// Dots 257..320: sprite pattern fetches for the next line (with the
    /// unused nametable/attribute fetches in between), horizontal `v` reload
    /// at 257, vertical reload over 280..304 of the pre-render line, and the
    /// no-flicker extra sprites at 320. OAMADDR stays 0 while rendering.
    pub fn sprite_fetch_dot<const VRAM_HOOK: bool, M: Mapper>(&mut self, mapper: &mut M, interrupt: &mut InterruptLines)
        requires
            old(mapper).inv(),
            old(self).wf_core(),
            old(self).scanline < 240,
            257 <= old(self).cycle <= 320,
            258 <= old(self).cycle ==> old(self).sprite_index * 8 + 253 < old(self).cycle,
        ensures
            final(mapper).inv(),
            final(self).wf_core(),
            final(self).timing_eq(old(self)),
            final(self).rendering_enabled == old(self).rendering_enabled,
            final(self).cycle <= 319 ==> final(self).sprite_index * 8 + 253 <= final(self).cycle,
    {
        let cycle = self.cycle;
        if cycle == 257 {
            self.sprite_index = 0;
            self.has_sprite = [false; 257];
            if self.prev_rendering_enabled {
                self.vram_addr = (self.vram_addr & !0x041f) | (self.temp_addr & 0x041f);
            }
        }
        if self.rendering_enabled {
            self.oam_addr = 0;
            let phase = (cycle - 257) % 8;
            if phase == 0 {
                let addr = self.get_nametable_addr();
                self.read_vram::<VRAM_HOOK, M>(addr, mapper, interrupt);
            } else if phase == 2 {
                let addr = self.get_attribute_addr();
                self.read_vram::<VRAM_HOOK, M>(addr, mapper, interrupt);
            } else if phase == 4 {
                assert(self.sprite_index * 8 + 253 < cycle);
                self.load_sprite_tile_info::<VRAM_HOOK, M>(mapper, interrupt);
            }
            if self.scanline == -1 && 280 <= cycle && cycle <= 304 {
                self.vram_addr = (self.vram_addr & !0x7be0) | (self.temp_addr & 0x7be0);
            }
            if cycle == 320 {
                self.load_extra_sprites::<VRAM_HOOK, M>(mapper, interrupt);
            }
        }
    }

    /// Dots 321..336: background prefetch of the next line's first two
    /// tiles; the secondary OAM read latch at 321.
    pub fn prefetch_dot<const VRAM_HOOK: bool, M: Mapper>(&mut self, mapper: &mut M, interrupt: &mut InterruptLines)
        requires
            old(mapper).inv(),
            old(self).wf_core(),
            321 <= old(self).cycle <= 336,
        ensures
            final(mapper).inv(),
            final(self).wf_core(),
            final(self).timing_eq(old(self)),
            final(self).sprite_index == old(self).sprite_index,
            final(self).rendering_enabled == old(self).rendering_enabled,
    {
        self.load_tile_info::<VRAM_HOOK, M>(mapper, interrupt);
        let cycle = self.cycle;
        if cycle == 321 {
            if self.rendering_enabled {
                self.oam_copy_buffer = self.secondary_sprite_ram[0];
            }
        } else if self.prev_rendering_enabled && (cycle == 328 || cycle == 336) {
            self.low_bit_shift = self.low_bit_shift << 8;
            self.high_bit_shift = self.high_bit_shift << 8;
            self.vram_addr = next_scroll_x(self.vram_addr);
        }
    }

    /// Dots 337 and 339: the two unused nametable fetches (seen by board IRQ
    /// counters); on NTSC the pre-render line of odd frames skips dot 340.
    pub fn late_fetch_dot<const VRAM_HOOK: bool, M: Mapper>(&mut self, mapper: &mut M, interrupt: &mut InterruptLines)
        requires
            old(mapper).inv(),
            old(self).wf_core(),
            old(self).cycle == 337 || old(self).cycle == 339,
            old(self).rendering_enabled,
        ensures
            final(mapper).inv(),
            final(self).wf_core(),
            final(self).master_clock == old(self).master_clock,
            final(self).master_clock_divider == old(self).master_clock_divider,
            final(self).mapper_cpu_cycle_count == old(self).mapper_cpu_cycle_count,
            final(self).scanline == old(self).scanline,
            final(self).frame_count == old(self).frame_count,
            final(self).nmi_scanline == old(self).nmi_scanline,
            final(self).vblank_end == old(self).vblank_end,
            final(self).region == old(self).region,
            final(self).cycle == (if odd_frame_skip(*old(self)) { 340 } else { old(self).cycle }),
            final(self).sprite_index == old(self).sprite_index,
            final(self).rendering_enabled == old(self).rendering_enabled,
    {
        let nt_addr = self.get_nametable_addr();
        let v = self.read_vram::<VRAM_HOOK, M>(nt_addr, mapper, interrupt);
        self.tile.tile_addr = v as u16;
        let skip = self.scanline == -1 && self.cycle == 339 && (self.frame_count & 0x01) != 0
            && match self.region {
                Region::Ntsc => true,
                _ => false,
            };
        let fc = self.frame_count;
        proof {
            crate::bits::lemma_bus_bits();
        }
        self.cycle = if skip { 340 } else { self.cycle };
    }

    /// Per-dot work of pre-render and visible lines at the current dot.
    pub fn process_scanline_tick<const VRAM_HOOK: bool, M: Mapper>(&mut self, mapper: &mut M, interrupt: &mut InterruptLines)
        requires
            old(mapper).inv(),
            old(self).ready_for_dot(),
            old(self).scanline < 240,
        ensures
            final(mapper).inv(),
            final(self).wf(),
            final(self).master_clock == old(self).master_clock,
            final(self).master_clock_divider == old(self).master_clock_divider,
            final(self).mapper_cpu_cycle_count == old(self).mapper_cpu_cycle_count,
            final(self).scanline == old(self).scanline,
            final(self).frame_count == old(self).frame_count,
            final(self).nmi_scanline == old(self).nmi_scanline,
            final(self).vblank_end == old(self).vblank_end,
            final(self).region == old(self).region,
            final(self).cycle == (if odd_frame_skip(*old(self)) { 340 } else { old(self).cycle }),
    {
        let cycle = self.cycle;
        if cycle <= 256 {
            self.visible_dot::<VRAM_HOOK, M>(mapper, interrupt);
        } else if cycle <= 320 {
            self.sprite_fetch_dot::<VRAM_HOOK, M>(mapper, interrupt);
        } else if cycle <= 336 {
            self.prefetch_dot::<VRAM_HOOK, M>(mapper, interrupt);
        } else if (cycle == 337 || cycle == 339) && self.rendering_enabled {
            self.late_fetch_dot::<VRAM_HOOK, M>(mapper, interrupt);
        }
    }

    /// Dot 340 to dot 0: advance the scanline (wrapping past the last VBlank
    /// line to the pre-render line), raise the input-commit trigger at the
    /// NMI line, clear the per-frame sprite flags at pre-render, drive the
    /// bus for the unused fetch of visible lines, and at line 240 flush the
    /// frame's grayscale/emphasis and count the frame.
    pub fn process_scanline_first_cycle<const VRAM_HOOK: bool, M: Mapper>(&mut self, mapper: &mut M, interrupt: &mut InterruptLines)
        requires
            old(mapper).inv(),
            old(self).wf(),
        ensures
            final(mapper).inv(),
            final(self).wf(),
            final(self).cycle == 0,
            final(self).scanline == (if old(self).scanline + 1 > old(self).vblank_end { -1 } else { old(self).scanline + 1 }),
            final(self).frame_count == (if final(self).scanline == 240 {
                ((old(self).frame_count + 1) % 0x1_0000_0000) as u32
            } else {
                old(self).frame_count
            }),
            final(self).master_clock == old(self).master_clock,
            final(self).master_clock_divider == old(self).master_clock_divider,
            final(self).mapper_cpu_cycle_count == old(self).mapper_cpu_cycle_count,
            final(self).nmi_scanline == old(self).nmi_scanline,
            final(self).vblank_end == old(self).vblank_end,
            final(self).region == old(self).region,
    {
        let next = self.scanline + 1;
        let wrap = next > self.vblank_end as i16;
        let line: i16 = if wrap { -1 } else { next };
        self.cycle = 0;
        self.scanline = line;
        self.sprite_count = if wrap { 0 } else { self.sprite_count };
        self.pending_input_commit = if line == self.nmi_scanline as i16 { true } else { self.pending_input_commit };
        if line == -1 {
            self.status = self.status & !0x60;
            self.sprite0_hit_first_set_clock = 0;
            self.sprite0_hit_debug = super::Sprite0HitDebugSnapshot::default();
            self.capture_valid = 0;
            self.last_updated_pixel = -1;
        }
        let fc = self.frame_count;
        proof {
            crate::bits::lemma_bus_bits();
        }
        let skipped = line == 0 && (fc & 0x01) != 0;
        if 0 <= line && line < 240 && self.prev_rendering_enabled && !skipped {
            let ta = self.tile.tile_addr;
            let bus = (ta << 4) | (self.vram_addr >> 12) | self.bg_pattern_addr();
            let a = bus & 0x3fff;
            self.ppu_bus_address = a;
            super::readback::notify_bus::<VRAM_HOOK, M>(mapper, a, self.mapper_cpu_cycle_count, interrupt);
        } else if line == 240 {
            let a = self.vram_addr & 0x3fff;
            self.ppu_bus_address = a;
            super::readback::notify_bus::<VRAM_HOOK, M>(mapper, a, self.mapper_cpu_cycle_count, interrupt);
            self.flush_frame_end();
            self.frame_count = self.frame_count.wrapping_add(1);
        }
    }

    /// End-of-frame grayscale/emphasis flush (line 240).
    pub fn flush_frame_end(&mut self)
        requires
            old(self).wf_core(),
            old(self).scanline == 240,
        ensures
            final(self).wf_core(),
            final(self).timing_eq(old(self)),
            final(self).sprites_eq(old(self)),
            final(self).rendering_enabled == old(self).rendering_enabled,
    {
        self.update_grayscale_bits();
        assert(super::registers::beam_pixel(240, self.cycle) == 61439);
    }

    /// Record the mid-frame capture when the target dot is reached.
    pub fn capture_dot(&mut self)
        ensures
            old(self).wf() ==> final(self).wf(),
            final(self).sprite_tiles == old(self).sprite_tiles,
            final(self).output_buffer == old(self).output_buffer,
            final(self).timing_eq(old(self)),
            final(self).rendering_enabled == old(self).rendering_enabled,
            final(self).status == old(self).status,
    {
        if self.scanline as i32 == self.capture_target_scanline && self.cycle as u32 == self.capture_target_cycle {
            self.capture_valid = 1;
            self.captured_low_shift = self.low_bit_shift;
            self.captured_high_shift = self.high_bit_shift;
            self.captured_mask = self.mask;
            self.captured_prev_rendering = if self.prev_rendering_enabled { 1 } else { 0 };
            self.captured_rendering = if self.rendering_enabled { 1 } else { 0 };
            self.captured_vram_addr = self.vram_addr;
            self.captured_sprite_count = self.sprite_count;
            self.captured_tile_addr = self.tile.tile_addr;
            self.captured_tile_low_byte = self.tile.low_byte;
            self.captured_tile_high_byte = self.tile.high_byte;
            self.captured_tile_palette_offset = self.tile.palette_offset;
            self.captured_oam_addr = self.oam_addr;
            self.captured_pri_oam0 = [self.oam[0], self.oam[1], self.oam[2], self.oam[3]];
            self.captured_st0_x = self.sprite_tiles[0].sprite_x;
            self.captured_st0_low = self.sprite_tiles[0].low_byte;
            self.captured_st0_high = self.sprite_tiles[0].high_byte;
            self.captured_sprite0_visible = if self.sprite0_visible { 1 } else { 0 };
            let c = self.cycle as usize;
            self.captured_has_sprite_dot = if c < 257 && self.has_sprite[c] { 1 } else { 0 };
            self.captured_sec_oam0 = [
                self.secondary_sprite_ram[0],
                self.secondary_sprite_ram[1],
                self.secondary_sprite_ram[2],
                self.secondary_sprite_ram[3],
            ];
        }
    }
}

/// Dot counter after one tick from `(scanline, cycle)`: the next dot of the
/// line, or dot 0 of the next line after dot 340.
pub open spec fn next_dot(p: Ppu) -> (i16, u16) {
    if p.cycle < 340 {
        if p.scanline < 240 && odd_frame_skip(Ppu { cycle: (p.cycle + 1) as u16, ..p }) {
            (p.scanline, 340u16)
        } else {
            (p.scanline, (p.cycle + 1) as u16)
        }
    } else if p.scanline + 1 > p.vblank_end {
        (-1i16, 0u16)
    } else {
        ((p.scanline + 1) as i16, 0u16)
    }
}

impl Ppu {
    /// One PPU dot: advance the dot counter and do its work (line work on
    /// pre-render and visible lines, VBlank flag and NMI at dot 1 of the NMI
    /// line unless a `$2002` read just suppressed it, line wrap after dot
    /// 340), settle deferred register effects, and take the capture.
    pub fn tick<const VRAM_HOOK: bool, M: Mapper>(&mut self, mapper: &mut M, interrupt: &mut InterruptLines)
        requires
            old(mapper).inv(),
            old(self).wf(),
        ensures
            final(mapper).inv(),
            final(self).wf(),
            (final(self).scanline, final(self).cycle) == next_dot(*old(self)),
            final(self).master_clock == old(self).master_clock,
            final(self).master_clock_divider == old(self).master_clock_divider,
            final(self).mapper_cpu_cycle_count == old(self).mapper_cpu_cycle_count,
            final(self).nmi_scanline == old(self).nmi_scanline,
            final(self).vblank_end == old(self).vblank_end,
            old(self).cycle == 0 && old(self).scanline == old(self).nmi_scanline && !old(self).prevent_vbl_flag
                ==> final(self).status & 0x80 != 0,
    {
        self.advance_dot::<VRAM_HOOK, M>(mapper, interrupt);
        if self.need_state_update {
            self.update_state::<VRAM_HOOK, M>(mapper, interrupt);
            proof {
                crate::bits::lemma_u8_bits();
            }
        }
        self.capture_dot();
    }

    /// The dot-counter step and line work of `tick`.
    pub fn advance_dot<const VRAM_HOOK: bool, M: Mapper>(&mut self, mapper: &mut M, interrupt: &mut InterruptLines)
        requires
            old(mapper).inv(),
            old(self).wf(),
        ensures
            final(mapper).inv(),
            final(self).wf(),
            (final(self).scanline, final(self).cycle) == next_dot(*old(self)),
            final(self).master_clock == old(self).master_clock,
            final(self).master_clock_divider == old(self).master_clock_divider,
            final(self).mapper_cpu_cycle_count == old(self).mapper_cpu_cycle_count,
            final(self).nmi_scanline == old(self).nmi_scanline,
            final(self).vblank_end == old(self).vblank_end,
            old(self).cycle == 0 && old(self).scanline == old(self).nmi_scanline && !old(self).prevent_vbl_flag
                ==> final(self).status & 0x80 != 0,
    {
        if self.cycle < 340 {
            self.cycle = self.cycle + 1;
            if self.scanline < 240 {
                self.process_scanline_tick::<VRAM_HOOK, M>(mapper, interrupt);
            } else if self.cycle == 1 && self.scanline == self.nmi_scanline as i16 {
                self.enter_vblank(interrupt);
            }
        } else {
            self.process_scanline_first_cycle::<VRAM_HOOK, M>(mapper, interrupt);
        }
    }

    /// VBlank entry: set the VBlank flag and raise NMI when enabled, unless a
    /// `$2002` read on the edge suppressed it; the suppression is consumed.
    pub fn enter_vblank(&mut self, interrupt: &mut InterruptLines)
        ensures
            *final(self) == (Ppu {
                status: if old(self).prevent_vbl_flag { old(self).status } else { old(self).status | 0x80 },
                prevent_vbl_flag: false,
                ..*old(self)
            }),
            !old(self).prevent_vbl_flag ==> final(self).status & 0x80 != 0,
            final(interrupt).nmi_flag == (if !old(self).prevent_vbl_flag && old(self).ctrl & 0x80 != 0 {
                true
            } else {
                old(interrupt).nmi_flag
            }),
    {
        let st = self.status;
        proof {
            crate::bits::lemma_u8_bits();
        }
        if !self.prevent_vbl_flag {
            if self.ctrl & 0x80 != 0 {
                interrupt.set_nmi_flag();
            }
        }
        self.status = if self.prevent_vbl_flag { st } else { st | 0x80 };
        self.prevent_vbl_flag = false;
    }

    /// Tick dots until the next dot would pass `target_master_clock`.
    pub fn run_with_cpu_cycle_inner<const VRAM_HOOK: bool, M: Mapper>(
        &mut self,
        target_master_clock: u64,
        mapper: &mut M,
        interrupt: &mut InterruptLines,
    )
        requires
            old(mapper).inv(),
            old(self).wf(),
            target_master_clock <= u64::MAX - 256,
            old(self).master_clock <= u64::MAX - 256,
        ensures
            final(mapper).inv(),
            final(self).wf(),
            final(self).master_clock_divider == old(self).master_clock_divider,
            final(self).mapper_cpu_cycle_count == old(self).mapper_cpu_cycle_count,
            final(self).master_clock >= old(self).master_clock,
            old(self).master_clock + old(self).master_clock_divider <= target_master_clock
                ==> final(self).master_clock <= target_master_clock < final(self).master_clock + final(self).master_clock_divider,
            old(self).master_clock + old(self).master_clock_divider > target_master_clock
                ==> final(self).master_clock == old(self).master_clock,
            old(self).master_clock <= target_master_clock ==> final(self).master_clock == old(self).master_clock
                + old(self).master_clock_divider * ((target_master_clock - old(self).master_clock)
                / (old(self).master_clock_divider as int)),
    {
        let divider = self.master_clock_divider as u64;
        let ghost start = self.master_clock;
        let ghost mut k: int = 0;
        while self.master_clock + divider <= target_master_clock
            invariant
                k >= 0,
                self.master_clock == start + k * divider,
                mapper.inv(),
                self.wf(),
                self.master_clock_divider as u64 == divider,
                divider > 0,
                target_master_clock <= u64::MAX - 256,
                start <= u64::MAX - 256,
                self.master_clock >= start,
                self.master_clock == start || self.master_clock <= target_master_clock,
            self.master_clock != start ==> start + divider <= target_master_clock,
            self.mapper_cpu_cycle_count == old(self).mapper_cpu_cycle_count,
                self.master_clock <= u64::MAX - 256,
            decreases target_master_clock - self.master_clock,
        {
            self.tick::<VRAM_HOOK, M>(mapper, interrupt);
            self.master_clock = self.master_clock + divider;
            proof {
                assert(start + (k + 1) * divider == start + k * divider + divider) by (nonlinear_arith);
                k = k + 1;
            }
        }
        proof {
            if start <= target_master_clock {
                let t = target_master_clock - start;
                assert(k == t / (divider as int)) by (nonlinear_arith)
                    requires
                        0 <= k * divider <= t,
                        t < k * divider + divider,
                        divider > 0,
                        k >= 0,
                ;
                assert(k * divider == divider * (t / (divider as int))) by (nonlinear_arith)
                    requires
                        k == t / (divider as int),
                ;
                assert(self.master_clock_divider as u64 == divider);
            }
        }
    }

    /// Run to `target_master_clock`, with mapper bus notifications stamped
    /// with `cpu_cycle_count`.
    pub fn run_with_cpu_cycle<M: Mapper>(
        &mut self,
        target_master_clock: u64,
        mapper: &mut M,
        interrupt: &mut InterruptLines,
        cpu_cycle_count: u64,
        mapper_has_vram_addr_hook: bool,
    )
        requires
            old(mapper).inv(),
            old(self).wf(),
            target_master_clock <= u64::MAX - 256,
            old(self).master_clock <= u64::MAX - 256,
        ensures
            final(mapper).inv(),
            final(self).wf(),
            final(self).mapper_cpu_cycle_count == cpu_cycle_count,
            final(self).master_clock_divider == old(self).master_clock_divider,
            old(self).master_clock + old(self).master_clock_divider <= target_master_clock
                ==> final(self).master_clock <= target_master_clock < final(self).master_clock + final(self).master_clock_divider,
            old(self).master_clock + old(self).master_clock_divider > target_master_clock
                ==> final(self).master_clock == old(self).master_clock,
            old(self).master_clock <= target_master_clock ==> final(self).master_clock == old(self).master_clock
                + old(self).master_clock_divider * ((target_master_clock - old(self).master_clock)
                / (old(self).master_clock_divider as int)),
    {
        self.mapper_cpu_cycle_count = cpu_cycle_count;
        if mapper_has_vram_addr_hook {
            self.run_with_cpu_cycle_inner::<true, M>(target_master_clock, mapper, interrupt);
        } else {
            self.run_with_cpu_cycle_inner::<false, M>(target_master_clock, mapper, interrupt);
        }
    }

    /// Advance the PPU to `target_master_clock`: every dot whose end fits
    /// runs, so the clock ends within one divider below the target.
    pub fn run<M: Mapper>(&mut self, target_master_clock: u64, mapper: &mut M, interrupt: &mut InterruptLines)
        requires
            old(mapper).inv(),
            old(self).wf(),
            target_master_clock <= u64::MAX - 256,
            old(self).master_clock <= u64::MAX - 256,
        ensures
            final(mapper).inv(),
            final(self).wf(),
            final(self).master_clock_divider == old(self).master_clock_divider,
            final(self).mapper_cpu_cycle_count == old(self).mapper_cpu_cycle_count,
            old(self).master_clock + old(self).master_clock_divider <= target_master_clock
                ==> final(self).master_clock <= target_master_clock < final(self).master_clock + final(self).master_clock_divider,
            old(self).master_clock + old(self).master_clock_divider > target_master_clock
                ==> final(self).master_clock == old(self).master_clock,
            old(self).master_clock <= target_master_clock ==> final(self).master_clock == old(self).master_clock
                + old(self).master_clock_divider * ((target_master_clock - old(self).master_clock)
                / (old(self).master_clock_divider as int)),
    {
        let hook = mapper.has_vram_addr_hook();
        let c = self.mapper_cpu_cycle_count;
        self.run_with_cpu_cycle(target_master_clock, mapper, interrupt, c, hook);
    }
}

} // verus!
