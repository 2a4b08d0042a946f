//! Per-dot background and sprite pipelines: tile fetches, sprite
//! evaluation and pattern fetches, and pixel composition.
use vstd::prelude::*;
use crate::cpu::InterruptLines;
use crate::mapper::Mapper;
use super::memory::{attribute_addr_of, nametable_addr_of};
use super::{NesSpriteInfo, Ppu, SpriteLoad, Sprite0HitDebugSnapshot};

verus! {

/// Pattern address of background tile `nt` at the fine Y of `v`, in the
/// pattern table that `$2000` bit 4 selects.
pub open spec fn bg_tile_addr(nt: u8, v: u16, ctrl: u8) -> u16 {
    ((nt as u16) << 4u16) | (v >> 12u16) | (if ctrl & 0x10 != 0 { 0x1000u16 } else { 0u16 })
}

/// Palette offset of the 16x16 quadrant of `v` in attribute byte `at`.
pub open spec fn attribute_palette(at: u8, v: u16) -> u8 {
    ((at >> ((((v >> 4u16) & 0x04) | (v & 0x02)) as u8)) & 0x03) << 2u8
}

/// Pattern-fetch address arithmetic: background tile rows, 8x8 and 8x16
/// sprite rows and the dummy sprite fetch stay inside the pattern tables.
pub proof fn lemma_fetch_bits(nt: u16, v: u16, base: u16, st: u16)
    by (bit_vector)
    ensures
        nt <= 255 && (base == 0 || base == 0x1000) ==> ((nt << 4u16) | (v >> 12u16) | base) <= 0x1fff,
        st <= 255 && (base == 0 || base == 0x1000) ==> (base | ((st & !0x01u16) << 4u16)) <= 0x1fe0,
        st <= 255 && (base == 0 || base == 0x1000) ==> ((st << 4u16) | base) <= 0x1ff0,
        (base == 0 || base == 0x1000) ==> (0x1000u16 | (0xffu16 << 4u16)) == 0x1ff0 && (base | (0xffu16 << 4u16)) <= 0x1ff0,
        nt <= 255 && v < 0x8000 && (base == 0 || base == 0x1000) ==> ((nt << 4u16) | (v >> 12u16) | base)
            == base + 16 * nt + v / 0x1000,
        (((v >> 4u16) & 0x04) | (v & 0x02)) == 4 * ((((v >> 5u16) & 0x1f) / 2) % 2) + 2 * (((v & 0x1f) / 2) % 2),
{
}

/// Two-bit pixel values from pattern bytes and shift registers.
pub proof fn lemma_pixel_bits(lo: u8, hi: u8, s: u8, low: u16, high: u16, off: u8)
    by (bit_vector)
    ensures
        ((lo >> s) & 0x01) | (((hi >> s) & 0x01) << 1u8) <= 3,
        (((lo << s) & 0x80) >> 7u8) | (((hi << s) & 0x80) >> 6u8) <= 3,
        off < 8 ==> ((((low << off) & 0x8000) >> 15u16) | (((high << off) & 0x8000) >> 14u16)) <= 3,
        off < 8 ==> ((((low << off) & 0x8000) >> 15u16) | (((high << off) & 0x8000) >> 14u16))
            == ((low >> (15u16 - (off as u16)) as u16) & 1) + 2 * ((high >> (15u16 - (off as u16)) as u16) & 1),
{
}

/// Background pattern rows: tile `nt` at fine Y `y` has its row at
/// `16 * nt + y`, in the pattern table at `$1000` when PPUCTRL bit 4 is
/// set and at `$0000` otherwise.
pub proof fn law_bg_tile_addr(nt: u8, v: u16, ctrl: u8)
    requires
        v < 0x8000,
    ensures
        bg_tile_addr(nt, v, ctrl) == (if (ctrl / 16) % 2 == 1 { 0x1000int } else { 0 }) + 16 * nt + v / 0x1000,
{
    crate::bits::lemma_u8_bits();
    let base: u16 = if ctrl & 0x10 != 0 { 0x1000u16 } else { 0u16 };
    lemma_fetch_bits(nt as u16, v, base, 0);
}

/// Attribute quadrants: of the four 2-bit palette numbers in an attribute
/// byte (lowest bits first), the tile takes the one that bit 1 of its
/// coarse X and bit 1 of its coarse Y select, as a palette offset of four
/// entries per palette.
pub proof fn law_attribute_palette(at: u8, v: u16)
    ensures
        ({
            let q = 2 * ((crate::ppu::memory::coarse_y(v) / 2) % 2) + (crate::ppu::memory::coarse_x(v) / 2) % 2;
            attribute_palette(at, v) == 4 * ((at >> (2 * q) as u8) % 4)
        }),
{
    let sh: u16 = ((v >> 4u16) & 0x04) | (v & 0x02);
    assert(sh == 4 * ((((v >> 5u16) & 0x1f) / 2) % 2) + 2 * (((v & 0x1f) / 2) % 2)) by {
        lemma_fetch_bits(0, v, 0, 0);
    }
    let a = at >> (sh as u8);
    assert(((a & 0x03) << 2u8) == 4 * (a % 4)) by {
        crate::bits::lemma_u8_bits();
    }
}

/// Background pixels: at fine X `off` the pixel takes bit `15 - off` of the
/// low and high pattern shift registers as its color bits 0 and 1.
pub proof fn law_bg_pixel_bits(low: u16, high: u16, off: u8)
    requires
        off < 8,
    ensures
        bg_pixel_bits(low, high, off) == ((low >> (15 - off) as u16) & 1) + 2 * ((high >> (15 - off) as u16) & 1),
{
    lemma_pixel_bits(0, 0, 0, low, high, off);
}

impl Ppu {
    /// Shift the background pattern registers by one pixel.
    pub fn shift_tile_registers(&mut self)
        ensures
            *final(self) == (Ppu {
                low_bit_shift: (old(self).low_bit_shift << 1u16) as u16,
                high_bit_shift: (old(self).high_bit_shift << 1u16) as u16,
                ..*old(self)
            }),
    {
        self.low_bit_shift = self.low_bit_shift << 1;
        self.high_bit_shift = self.high_bit_shift << 1;
    }

    /// Start sprite evaluation at dot 65: clear the per-line evaluation state
    /// and split OAMADDR into sprite number and byte.
    pub fn process_sprite_evaluation_start(&mut self)
        ensures
            *final(self) == (Ppu {
                sprite0_added: false,
                sprite_in_range: false,
                secondary_oam_addr: 0,
                overflow_bug_counter: 0,
                oam_copy_done: false,
                sprite_addr_h: (old(self).oam_addr >> 2) & 0x3f,
                sprite_addr_l: old(self).oam_addr & 0x03,
                first_visible_sprite_addr: (((old(self).oam_addr >> 2) & 0x3f) * 4) as u8,
                last_visible_sprite_addr: (((old(self).oam_addr >> 2) & 0x3f) * 4) as u8,
                ..*old(self)
            }),
    {
        self.sprite0_added = false;
        self.sprite_in_range = false;
        self.secondary_oam_addr = 0;
        self.overflow_bug_counter = 0;
        self.oam_copy_done = false;
        let oa = self.oam_addr;
        let h = (oa >> 2) & 0x3f;
        proof {
            crate::bits::lemma_u8_bits();
        }
        self.sprite_addr_h = h;
        self.sprite_addr_l = self.oam_addr & 0x03;
        self.first_visible_sprite_addr = h * 4;
        self.last_visible_sprite_addr = h * 4;
    }

    /// Finish sprite evaluation at dot 256: the sprite count of the next line
    /// is the number of secondary OAM entries filled.
    pub fn process_sprite_evaluation_end(&mut self)
        requires
            old(self).secondary_oam_addr <= 0x20,
        ensures
            *final(self) == (Ppu {
                sprite0_visible: old(self).sprite0_added,
                sprite_count: ((old(self).secondary_oam_addr + 3) / 4) as u8,
                ..*old(self)
            }),
    {
        self.sprite0_visible = self.sprite0_added;
        let n = self.secondary_oam_addr + 3;
        proof {
            crate::bits::lemma_u8_bits();
        }
        self.sprite_count = n >> 2;
    }

    /// Background fetch state machine: nametable byte at dot 8n+1 (also
    /// reloading the shift registers), attribute at 8n+3, pattern low byte at
    /// 8n+5 and high byte at 8n+7. Nothing happens while rendering is off.
    #[verifier::spinoff_prover]
    #[verifier::rlimit(100)]
    pub fn load_tile_info<const VRAM_HOOK: bool, M: Mapper>(&mut self, mapper: &mut M, interrupt: &mut InterruptLines)
        requires
            old(mapper).inv(),
            old(self).wf(),
        ensures
            final(mapper).inv(),
            final(self).wf(),
            final(self).memories_eq(old(self)),
            final(self).timing_eq(old(self)),
            final(self).sprites_eq(old(self)),
            final(self).output_eq(old(self)),
            final(self).regs_eq(old(self)),
            final(self).vram_addr == old(self).vram_addr,
            final(self).temp_addr == old(self).temp_addr,
            final(self).fine_x == old(self).fine_x,
            !old(self).rendering_enabled ==> final(self).tile == old(self).tile
                && final(self).low_bit_shift == old(self).low_bit_shift
                && final(self).high_bit_shift == old(self).high_bit_shift,
            old(self).rendering_enabled && old(self).cycle % 8 == 1 ==> (exists|nt: u8|
                #[trigger] bg_tile_addr(nt, old(self).vram_addr, old(self).ctrl) == final(self).tile.tile_addr)
                && final(self).ppu_bus_address == nametable_addr_of(old(self).vram_addr),
            old(self).rendering_enabled && old(self).cycle % 8 == 3 ==> (exists|at: u8|
                #[trigger] attribute_palette(at, old(self).vram_addr) == final(self).tile.palette_offset)
                && final(self).ppu_bus_address == attribute_addr_of(old(self).vram_addr),
    {
        if !self.rendering_enabled {
            return;
        }
        let cyc = self.cycle;
        let phase = cyc & 0x07;
        proof {
            crate::bits::lemma_u16_bits();
            crate::bits::lemma_u8_bits();
        }
        if phase == 1 {
            self.previous_tile_palette = self.current_tile_palette;
            self.current_tile_palette = self.tile.palette_offset;
            self.low_bit_shift = self.low_bit_shift | self.tile.low_byte as u16;
            self.high_bit_shift = self.high_bit_shift | self.tile.high_byte as u16;
            let nt_addr = self.get_nametable_addr();
            let tile_index = self.read_vram::<VRAM_HOOK, M>(nt_addr, mapper, interrupt);
            let base = self.bg_pattern_addr();
            let v = self.vram_addr;
            let ta = ((tile_index as u16) << 4) | (v >> 12) | base;
            proof {
                lemma_fetch_bits(tile_index as u16, v, base, 0);
            }
            self.tile.tile_addr = ta;
            assert(bg_tile_addr(tile_index, v, self.ctrl) == ta);
        } else if phase == 3 {
            let at_addr = self.get_attribute_addr();
            let at_byte = self.read_vram::<VRAM_HOOK, M>(at_addr, mapper, interrupt);
            let v = self.vram_addr;
            let shift = ((v >> 4) & 0x04) | (v & 0x02);
            let sh = shift as u8;

            let po = ((at_byte >> sh) & 0x03) << 2;

            self.tile.palette_offset = po;
            assert(attribute_palette(at_byte, v) == po);
        } else if phase == 5 {
            let a = self.tile.tile_addr;
            let b = self.read_vram::<VRAM_HOOK, M>(a, mapper, interrupt);
            self.tile.low_byte = b;
        } else if phase == 7 {
            let a = self.tile.tile_addr + 8;
            let b = self.read_vram::<VRAM_HOOK, M>(a, mapper, interrupt);
            self.tile.high_byte = b;
        }
    }
}

/// The registers sprite evaluation works on.
#[derive(Clone, Copy)]
pub struct SpriteEval {
    pub oam_copy_buffer: u8,
    pub secondary: [u8; 32],
    pub secondary_oam_addr: u8,
    pub sprite_addr_h: u8,
    pub sprite_addr_l: u8,
    pub sprite_in_range: bool,
    pub sprite0_added: bool,
    pub sprite0_visible: bool,
    pub sprite_count: u8,
    pub overflow_bug_counter: u8,
    pub oam_copy_done: bool,
    pub last_visible_sprite_addr: u8,
    pub first_visible_sprite_addr: u8,
    pub oam_addr: u8,
    pub status: u8,
}

impl SpriteEval {
    pub open spec fn bounded(&self) -> bool {
        &&& self.secondary_oam_addr <= 0x20
        &&& self.sprite_addr_l <= 3
        &&& self.sprite_addr_h <= 0x3f
        &&& self.sprite_count <= 72
    }
}

/// The next sprite number, wrapping at 64.
pub open spec fn next_sprite(h: u8) -> u8 {
    ((h + 1) as u8) & 0x3f
}

/// OAMADDR as sprite number `h` and byte `l`.
pub open spec fn eval_oam_addr(h: u8, l: u8) -> u8 {
    (l & 0x03) | (h << 2u8)
}

/// Whether a sprite whose top is `y` covers `scanline`.
pub open spec fn sprite_on_line(y: u8, scanline: i16, large: bool) -> bool {
    y <= scanline < y + (if large { 16int } else { 8int })
}

/// Dot 65: clear the per-line state and split OAMADDR.
pub open spec fn eval_restart(e: SpriteEval) -> SpriteEval {
    let h = (e.oam_addr >> 2u8) & 0x3f;
    SpriteEval {
        sprite0_added: false,
        sprite_in_range: false,
        secondary_oam_addr: 0,
        overflow_bug_counter: 0,
        oam_copy_done: false,
        sprite_addr_h: h,
        sprite_addr_l: e.oam_addr & 0x03,
        first_visible_sprite_addr: (h * 4) as u8,
        last_visible_sprite_addr: (h * 4) as u8,
        ..e
    }
}

/// An even dot with room in secondary OAM: copy the byte read on the odd
/// dot; a sprite in range copies all four bytes, one that is not moves on
/// to the next sprite.
pub open spec fn eval_copy(s: SpriteEval, cycle: u16, scanline: i16, large: bool, sec: Seq<u8>) -> (SpriteEval, Seq<u8>) {
    let sec2 = sec.update(s.secondary_oam_addr as int, s.oam_copy_buffer);
    if s.sprite_in_range {
        let l1 = (s.sprite_addr_l + 1) as u8;
        let soa = (s.secondary_oam_addr + 1) as u8;
        let wrap = l1 >= 4;
        let h2 = if wrap { next_sprite(s.sprite_addr_h) } else { s.sprite_addr_h };
        let l2: u8 = if wrap { 0 } else { l1 };
        let t = SpriteEval {
            sprite0_added: if cycle == 66 { true } else { s.sprite0_added },
            sprite_addr_l: l2,
            secondary_oam_addr: soa,
            sprite_addr_h: h2,
            oam_copy_done: if wrap && h2 == 0 { true } else { s.oam_copy_done },
            ..s
        };
        if soa & 0x03 == 0 {
            let last = vstd::wrapping::u8_specs::wrapping_mul(vstd::wrapping::u8_specs::wrapping_sub(h2, 1), 4);
            let l3: u8 = if l2 != 0 && !sprite_on_line(s.oam_copy_buffer, scanline, large) { 0 } else { l2 };
            (SpriteEval { sprite_in_range: false, last_visible_sprite_addr: last, sprite_addr_l: l3, ..t }, sec2)
        } else {
            (t, sec2)
        }
    } else {
        let h = next_sprite(s.sprite_addr_h);
        (SpriteEval { sprite_addr_h: h, sprite_addr_l: 0, oam_copy_done: if h == 0 { true } else { s.oam_copy_done }, ..s }, sec2)
    }
}

/// An even dot with secondary OAM full: read it back, and search on for
/// an overflowing sprite with the hardware's diagonal byte stepping.
pub open spec fn eval_overflow(s: SpriteEval, sec: Seq<u8>) -> SpriteEval {
    let buf = sec[(s.secondary_oam_addr & 0x1f) as int];
    if s.sprite_in_range {
        let l1 = (s.sprite_addr_l + 1) as u8;
        let wrap = l1 == 4;
        let h: u8 = if wrap { next_sprite(s.sprite_addr_h) } else { s.sprite_addr_h };
        let l: u8 = if wrap { 0 } else { l1 };
        let c: u8 = if s.overflow_bug_counter == 0 { 3 } else { (s.overflow_bug_counter - 1) as u8 };
        let stop = s.overflow_bug_counter != 0 && c == 0;
        SpriteEval {
            oam_copy_buffer: buf,
            status: s.status | 0x20,
            sprite_addr_h: h,
            sprite_addr_l: if stop { 0 } else { l },
            overflow_bug_counter: c,
            oam_copy_done: if stop { true } else { s.oam_copy_done },
            ..s
        }
    } else {
        let h = next_sprite(s.sprite_addr_h);
        SpriteEval {
            oam_copy_buffer: buf,
            sprite_addr_h: h,
            sprite_addr_l: ((s.sprite_addr_l + 1) as u8) & 0x03,
            oam_copy_done: if h == 0 { true } else { s.oam_copy_done },
            ..s
        }
    }
}

/// One dot of sprite evaluation: the registers after it (secondary OAM as
/// it was) and the new secondary OAM. Dots 1..64 clear secondary OAM; odd
/// dots from 65 read OAM at OAMADDR (dot 65 restarting the search); even
/// dots copy in-range sprites, then look for overflow; dot 256 latches the
/// sprite count and sprite 0's presence for the next line.
pub open spec fn eval_dot_spec(e: SpriteEval, cycle: u16, scanline: i16, large: bool, oam: Seq<u8>) -> (SpriteEval, Seq<u8>) {
    let sec = e.secondary@;
    if cycle < 65 {
        (SpriteEval { oam_copy_buffer: 0xff, ..e }, sec.update((cycle - 1) / 2, 0xff))
    } else if cycle % 2 == 1 {
        let s = if cycle == 65 { eval_restart(e) } else { e };
        (SpriteEval { oam_copy_buffer: oam[s.oam_addr as int], ..s }, sec)
    } else {
        let s = if cycle == 256 {
            SpriteEval { sprite0_visible: e.sprite0_added, sprite_count: ((e.secondary_oam_addr + 3) as u8) >> 2u8, ..e }
        } else {
            e
        };
        if s.oam_copy_done {
            let h = next_sprite(s.sprite_addr_h);
            let buf = if s.secondary_oam_addr >= 0x20 { sec[(s.secondary_oam_addr & 0x1f) as int] } else { s.oam_copy_buffer };
            (SpriteEval { sprite_addr_h: h, oam_copy_buffer: buf, oam_addr: eval_oam_addr(h, s.sprite_addr_l), ..s }, sec)
        } else {
            let s1 = SpriteEval {
                sprite_in_range: s.sprite_in_range || sprite_on_line(s.oam_copy_buffer, scanline, large),
                ..s
            };
            let (s2, sec2) = if s1.secondary_oam_addr < 0x20 {
                eval_copy(s1, cycle, scanline, large, sec)
            } else {
                (eval_overflow(s1, sec), sec)
            };
            (SpriteEval { oam_addr: eval_oam_addr(s2.sprite_addr_h, s2.sprite_addr_l), ..s2 }, sec2)
        }
    }
}

/// The copy half of an even evaluation dot (see `eval_copy`).
#[verifier::spinoff_prover]
fn eval_copy_step(e: &mut SpriteEval, cycle: u16, scanline: i16, large: bool)
    requires
        old(e).bounded(),
        old(e).secondary_oam_addr < 0x20,
        -1 <= scanline <= 400,
    ensures
        final(e).bounded(),
        ({
            let out = eval_copy(*old(e), cycle, scanline, large, old(e).secondary@);
            &&& final(e).secondary@ == out.1
            &&& *final(e) == (SpriteEval { secondary: final(e).secondary, ..out.0 })
        }),
{
    proof {
        crate::bits::lemma_u8_bits();
    }
    let height: i16 = if large { 16 } else { 8 };
    let k = e.secondary_oam_addr as usize;
    e.secondary[k] = e.oam_copy_buffer;
    if e.sprite_in_range {
        if cycle == 66 {
            e.sprite0_added = true;
        }
        e.sprite_addr_l = e.sprite_addr_l + 1;
        e.secondary_oam_addr = e.secondary_oam_addr + 1;
        if e.sprite_addr_l >= 4 {
            e.sprite_addr_h = (e.sprite_addr_h + 1) & 0x3f;
            e.sprite_addr_l = 0;
            if e.sprite_addr_h == 0 {
                e.oam_copy_done = true;
            }
        }
        if (e.secondary_oam_addr & 0x03) == 0 {
            e.sprite_in_range = false;
            e.last_visible_sprite_addr = e.sprite_addr_h.wrapping_sub(1).wrapping_mul(4);
            if e.sprite_addr_l != 0 {
                let y2 = e.oam_copy_buffer as i16;
                let in_range = scanline >= y2 && scanline < y2 + height;
                if !in_range {
                    e.sprite_addr_l = 0;
                }
            }
        }
    } else {
        e.sprite_addr_h = (e.sprite_addr_h + 1) & 0x3f;
        e.sprite_addr_l = 0;
        if e.sprite_addr_h == 0 {
            e.oam_copy_done = true;
        }
    }
}

/// The overflow half of an even evaluation dot (see `eval_overflow`).
#[verifier::spinoff_prover]
fn eval_overflow_step(e: &mut SpriteEval)
    requires
        old(e).bounded(),
    ensures
        final(e).bounded(),
        final(e).secondary == old(e).secondary,
        *final(e) == eval_overflow(*old(e), old(e).secondary@),
        final(e).status & 0xdf == old(e).status & 0xdf,
{
    proof {
        crate::bits::lemma_u8_bits();
    }
    let j = (e.secondary_oam_addr & 0x1f) as usize;
    e.oam_copy_buffer = e.secondary[j];
    if e.sprite_in_range {
        let st = e.status;
        assert((st | 0x20) & 0xdf == st & 0xdf);
        e.status = st | 0x20;
        e.sprite_addr_l = e.sprite_addr_l + 1;
        if e.sprite_addr_l == 4 {
            e.sprite_addr_h = (e.sprite_addr_h + 1) & 0x3f;
            e.sprite_addr_l = 0;
        }
        if e.overflow_bug_counter == 0 {
            e.overflow_bug_counter = 3;
        } else {
            e.overflow_bug_counter = e.overflow_bug_counter - 1;
            if e.overflow_bug_counter == 0 {
                e.oam_copy_done = true;
                e.sprite_addr_l = 0;
            }
        }
    } else {
        e.sprite_addr_h = (e.sprite_addr_h + 1) & 0x3f;
        e.sprite_addr_l = (e.sprite_addr_l + 1) & 0x03;
        if e.sprite_addr_h == 0 {
            e.oam_copy_done = true;
        }
    }
}

/// One dot of sprite evaluation (rendering on, dot `cycle` in 1..256).
#[verifier::spinoff_prover]
#[verifier::rlimit(50)]
pub fn sprite_eval_dot(e: &mut SpriteEval, cycle: u16, scanline: i16, large: bool, oam: &[u8; 256])
    requires
        old(e).bounded(),
        1 <= cycle <= 256,
        -1 <= scanline <= 400,
    ensures
        final(e).bounded(),
        final(e).status & 0xdf == old(e).status & 0xdf,
        cycle < 65 ==> final(e).secondary@ == old(e).secondary@.update(((cycle - 1) / 2) as int, 0xff)
            && final(e).oam_copy_buffer == 0xff,
        cycle >= 65 && cycle % 2 == 1 ==> final(e).oam_copy_buffer == oam@[final(e).oam_addr as int],
        cycle == 256 ==> final(e).sprite_count == (old(e).secondary_oam_addr + 3) / 4,
        cycle != 256 ==> final(e).sprite_count == old(e).sprite_count,
        ({
            let out = eval_dot_spec(*old(e), cycle, scanline, large, oam@);
            &&& final(e).secondary@ == out.1
            &&& *final(e) == (SpriteEval { secondary: final(e).secondary, ..out.0 })
        }),
{
    proof {
        crate::bits::lemma_u8_bits();
        crate::bits::lemma_u16_bits();
    }
    if cycle < 65 {
        e.oam_copy_buffer = 0xff;
        let i = ((cycle - 1) >> 1) as usize;

        e.secondary[i] = 0xff;
        return;
    }
    if cycle & 0x01 != 0 {
        if cycle == 65 {
            let oa = e.oam_addr;
            let h = (oa >> 2) & 0x3f;
            e.sprite0_added = false;
            e.sprite_in_range = false;
            e.secondary_oam_addr = 0;
            e.overflow_bug_counter = 0;
            e.oam_copy_done = false;
            e.sprite_addr_h = h;
            e.sprite_addr_l = oa & 0x03;
            e.first_visible_sprite_addr = h * 4;
            e.last_visible_sprite_addr = h * 4;
        }
        e.oam_copy_buffer = oam[e.oam_addr as usize];
        return;
    }
    if cycle == 256 {
        e.sprite0_visible = e.sprite0_added;
        let n = e.secondary_oam_addr + 3;
        e.sprite_count = n >> 2;
    }
    if e.oam_copy_done {
        let h = (e.sprite_addr_h + 1) & 0x3f;
        e.sprite_addr_h = h;
        if e.secondary_oam_addr >= 0x20 {
            let j = (e.secondary_oam_addr & 0x1f) as usize;
            e.oam_copy_buffer = e.secondary[j];
        }
        e.oam_addr = (e.sprite_addr_l & 0x03) | (h << 2);
        return;
    }
    let height: i16 = if large { 16 } else { 8 };
    let y = e.oam_copy_buffer as i16;
    if !e.sprite_in_range && scanline >= y && scanline < y + height {
        e.sprite_in_range = true;
    }
    if e.secondary_oam_addr < 0x20 {
        eval_copy_step(e, cycle, scanline, large);
    } else {
        eval_overflow_step(e);
    }
    e.oam_addr = (e.sprite_addr_l & 0x03) | (e.sprite_addr_h << 2);
}

impl Ppu {
    /// The sprite-evaluation registers of this PPU.
    pub open spec fn eval_state(&self) -> SpriteEval {
        SpriteEval {
            oam_copy_buffer: self.oam_copy_buffer,
            secondary: self.secondary_sprite_ram,
            secondary_oam_addr: self.secondary_oam_addr,
            sprite_addr_h: self.sprite_addr_h,
            sprite_addr_l: self.sprite_addr_l,
            sprite_in_range: self.sprite_in_range,
            sprite0_added: self.sprite0_added,
            sprite0_visible: self.sprite0_visible,
            sprite_count: self.sprite_count,
            overflow_bug_counter: self.overflow_bug_counter,
            oam_copy_done: self.oam_copy_done,
            last_visible_sprite_addr: self.last_visible_sprite_addr,
            first_visible_sprite_addr: self.first_visible_sprite_addr,
            oam_addr: self.oam_addr,
            status: self.status,
        }
    }

    /// Sprite evaluation for visible dots 1..256 (see `sprite_eval_dot`);
    /// nothing happens while rendering is off.
    pub fn process_sprite_evaluation(&mut self)
        requires
            old(self).wf(),
            1 <= old(self).cycle <= 256,
        ensures
            final(self).wf(),
            final(self).timing_eq(old(self)),
            final(self).background_eq(old(self)),
            final(self).output_eq(old(self)),
            final(self).oam == old(self).oam,
            final(self).nametable == old(self).nametable,
            final(self).palette == old(self).palette,
            final(self).ctrl == old(self).ctrl && final(self).mask == old(self).mask,
            final(self).status & 0xdf == old(self).status & 0xdf,
            final(self).write_latch == old(self).write_latch,
            final(self).rendering_enabled == old(self).rendering_enabled,
            final(self).prev_rendering_enabled == old(self).prev_rendering_enabled,
            final(self).vram_addr == old(self).vram_addr,
            final(self).temp_addr == old(self).temp_addr,
            final(self).sprite_tiles == old(self).sprite_tiles,
            final(self).has_sprite == old(self).has_sprite,
            final(self).sprite_index == old(self).sprite_index,
            final(self).ppu_bus_address == old(self).ppu_bus_address,
            !old(self).rendering_enabled ==> final(self).eval_state() == old(self).eval_state(),
            old(self).rendering_enabled ==> ({
                let out = eval_dot_spec(
                    old(self).eval_state(),
                    old(self).cycle,
                    old(self).scanline,
                    old(self).ctrl & 0x20 != 0,
                    old(self).oam@,
                );
                &&& final(self).secondary_sprite_ram@ == out.1
                &&& final(self).eval_state() == (SpriteEval { secondary: final(self).secondary_sprite_ram, ..out.0 })
            }),
    {
        if !self.rendering_enabled {
            return;
        }
        let mut e = SpriteEval {
            oam_copy_buffer: self.oam_copy_buffer,
            secondary: self.secondary_sprite_ram,
            secondary_oam_addr: self.secondary_oam_addr,
            sprite_addr_h: self.sprite_addr_h,
            sprite_addr_l: self.sprite_addr_l,
            sprite_in_range: self.sprite_in_range,
            sprite0_added: self.sprite0_added,
            sprite0_visible: self.sprite0_visible,
            sprite_count: self.sprite_count,
            overflow_bug_counter: self.overflow_bug_counter,
            oam_copy_done: self.oam_copy_done,
            last_visible_sprite_addr: self.last_visible_sprite_addr,
            first_visible_sprite_addr: self.first_visible_sprite_addr,
            oam_addr: self.oam_addr,
            status: self.status,
        };
        let large = self.large_sprites();
        sprite_eval_dot(&mut e, self.cycle, self.scanline, large, &self.oam);
        self.oam_copy_buffer = e.oam_copy_buffer;
        self.secondary_sprite_ram = e.secondary;
        self.secondary_oam_addr = e.secondary_oam_addr;
        self.sprite_addr_h = e.sprite_addr_h;
        self.sprite_addr_l = e.sprite_addr_l;
        self.sprite_in_range = e.sprite_in_range;
        self.sprite0_added = e.sprite0_added;
        self.sprite0_visible = e.sprite0_visible;
        self.sprite_count = e.sprite_count;
        self.overflow_bug_counter = e.overflow_bug_counter;
        self.oam_copy_done = e.oam_copy_done;
        self.last_visible_sprite_addr = e.last_visible_sprite_addr;
        self.first_visible_sprite_addr = e.first_visible_sprite_addr;
        self.oam_addr = e.oam_addr;
        self.status = e.status;
    }
}

/// One sprite's 2-bit color at dot `cycle` (0: transparent or not here).
pub open spec fn sprite_color_at(info: NesSpriteInfo, cycle: u16) -> u8 {
    let shift = cycle - info.sprite_x - 1;
    if 0 <= shift < 8 {
        let s = shift as u8;
        if info.horizontal_mirror {
            ((info.low_byte >> s) & 0x01) | (((info.high_byte >> s) & 0x01) << 1u8)
        } else {
            (((info.low_byte << s) & 0x80) >> 7u8) | (((info.high_byte << s) & 0x80) >> 6u8)
        }
    } else {
        0
    }
}

/// A sprite covers the eight dots from `sprite_x + 1`: at its `i`-th dot an
/// unflipped sprite shows bit `7 - i` of its pattern bytes (leftmost pixel
/// from bit 7) and a horizontally flipped one bit `i`, the low byte giving
/// color bit 0 and the high byte color bit 1; elsewhere it is transparent.
pub proof fn law_sprite_pixel_bits(info: NesSpriteInfo, cycle: u16)
    ensures
        ({
            let i: int = cycle - info.sprite_x - 1;
            &&& !(0 <= i < 8) ==> sprite_color_at(info, cycle) == 0
            &&& 0 <= i < 8 ==> {
                let k: u8 = if info.horizontal_mirror { i as u8 } else { (7 - i) as u8 };
                sprite_color_at(info, cycle) == ((info.low_byte >> k) & 1) + 2 * ((info.high_byte >> k) & 1)
            }
        }),
{
    crate::bits::lemma_law_bits();
    let i: int = cycle - info.sprite_x - 1;
    if 0 <= i < 8 {
        let s = i as u8;
        let lo = info.low_byte;
        let hi = info.high_byte;
        assert((7u8 - s) as u8 == (7 - i) as u8);
        if info.horizontal_mirror {
            assert((((lo >> s) & 0x01) | (((hi >> s) & 0x01) << 1u8)) == ((lo >> s) & 1) + 2 * ((hi >> s) & 1));
        } else {
            assert((((lo << s) & 0x80) >> 7u8) | (((hi << s) & 0x80) >> 6u8) == ((lo >> ((7u8 - s) as u8)) & 1) + 2
                * ((hi >> ((7u8 - s) as u8)) & 1));
        }
    }
}

/// Two-bit color of sprite `info` at dot `cycle`.
pub fn sprite_color(info: NesSpriteInfo, cycle: u16) -> (r: u8)
    ensures
        r == sprite_color_at(info, cycle),
        r <= 3,
{
    let shift: i32 = cycle as i32 - info.sprite_x as i32 - 1;
    if 0 <= shift && shift < 8 {
        let s = shift as u8;
        let lo = info.low_byte;
        let hi = info.high_byte;
        proof {
            lemma_pixel_bits(lo, hi, s, 0, 0, 0);
        }
        if info.horizontal_mirror {
            ((lo >> s) & 0x01) | (((hi >> s) & 0x01) << 1)
        } else {
            (((lo << s) & 0x80) >> 7) | (((hi << s) & 0x80) >> 6)
        }
    } else {
        0
    }
}

/// The first sprite from index `i` below `n` that is opaque at dot
/// `cycle`, with its color.
pub open spec fn first_opaque_from(tiles: Seq<NesSpriteInfo>, i: nat, n: nat, cycle: u16) -> Option<(nat, u8)>
    decreases n - i,
{
    if i >= n {
        None
    } else if sprite_color_at(tiles[i as int], cycle) != 0 {
        Some((i, sprite_color_at(tiles[i as int], cycle)))
    } else {
        first_opaque_from(tiles, i + 1, n, cycle)
    }
}

/// The sprite in front at dot `cycle` as (found, index, color): the first
/// opaque one among the `n` loaded when `look` is set.
pub open spec fn front_sprite_at(tiles: Seq<NesSpriteInfo>, n: nat, cycle: u16, look: bool) -> (bool, usize, u8) {
    if !look {
        (false, 0, 0)
    } else {
        match first_opaque_from(tiles, 0, n, cycle) {
            Some((i, c)) => (true, i as usize, c),
            None => (false, 0, 0),
        }
    }
}

/// The first of the `n` loaded sprites that is opaque at dot `cycle`, with
/// its color.
pub fn first_opaque_sprite(tiles: &[NesSpriteInfo; 64], n: usize, cycle: u16) -> (r: Option<(usize, u8)>)
    requires
        n <= 64,
    ensures
        match r {
            Some((i, c)) => i < n && c == sprite_color_at(tiles@[i as int], cycle) && c != 0 && c <= 3
                && forall|j: int| 0 <= j < i ==> sprite_color_at(#[trigger] tiles@[j], cycle) == 0,
            None => forall|j: int| 0 <= j < n ==> sprite_color_at(#[trigger] tiles@[j], cycle) == 0,
        },
        r == (match first_opaque_from(tiles@, 0, n as nat, cycle) {
            Some((i, c)) => Some((i as usize, c)),
            None => None,
        }),
{
    let mut i: usize = 0;
    while i < n
        invariant
            i <= n <= 64,
            forall|j: int| 0 <= j < i ==> sprite_color_at(#[trigger] tiles@[j], cycle) == 0,
            first_opaque_from(tiles@, 0, n as nat, cycle) == first_opaque_from(tiles@, i as nat, n as nat, cycle),
        decreases n - i,
    {
        let c = sprite_color(tiles[i], cycle);
        if c != 0 {
            return Some((i, c));
        }
        i += 1;
    }
    None
}

/// The first opaque sprite at `cycle` when `look` is set, as (found,
/// index, color); (false, 0, 0) otherwise.
pub fn front_sprite(tiles: &[NesSpriteInfo; 64], n: usize, cycle: u16, look: bool) -> (r: (bool, usize, u8))
    requires
        n <= 64,
    ensures
        r.1 < 64,
        r.2 <= 3,
        !r.0 ==> r.1 == 0 && r.2 == 0,
        r == front_sprite_at(tiles@, n as nat, cycle, look),
{
    if !look {
        return (false, 0, 0);
    }
    match first_opaque_sprite(tiles, n, cycle) {
        Some((i, c)) => (true, i, c),
        None => (false, 0, 0),
    }
}

/// Fetch a PPU-bus byte for the pipeline: drive the bus (telling a board
/// that watches it), then read.
pub fn fetch_vram<const VRAM_HOOK: bool, M: Mapper>(
    nametable: &[u8; 0x1000],
    palette: &[u8; 32],
    addr: u16,
    cpu_cycle: u64,
    mapper: &mut M,
    interrupt: &mut InterruptLines,
) -> (r: u8)
    requires
        old(mapper).inv(),
    ensures
        final(mapper).inv(),
{
    super::readback::notify_bus::<VRAM_HOOK, M>(mapper, addr, cpu_cycle, interrupt);
    super::registers::bus_read(nametable, palette, addr, mapper, interrupt)
}

impl Ppu {
    /// Fetch one sprite's pattern bytes for the next line and mark the
    /// dots it covers. Sprites past the loaded count (or below the screen)
    /// get dummy `$FF` fetches to keep board A12 timing; extra sprites of the
    /// no-flicker path use side-effect-free reads.
    pub fn load_sprite<const VRAM_HOOK: bool, M: Mapper>(
        &mut self,
        sprite: SpriteLoad,
        mapper: &mut M,
        interrupt: &mut InterruptLines,
    )
        requires
            old(mapper).inv(),
            old(self).wf_core(),
            old(self).sprite_index < 64,
        ensures
            final(mapper).inv(),
            final(self).wf_core(),
            final(self).memories_eq(old(self)),
            final(self).timing_eq(old(self)),
            final(self).background_eq(old(self)),
            final(self).output_eq(old(self)),
            final(self).regs_eq(old(self)),
            final(self).vram_addr == old(self).vram_addr,
            final(self).temp_addr == old(self).temp_addr,
            final(self).sprite_count == old(self).sprite_count,
            final(self).secondary_oam_addr == old(self).secondary_oam_addr,
            final(self).sprite0_visible == old(self).sprite0_visible,
            final(self).first_visible_sprite_addr == old(self).first_visible_sprite_addr,
            final(self).last_visible_sprite_addr == old(self).last_visible_sprite_addr,
            final(self).sprite_index == old(self).sprite_index + 1,
            ({
                let visible = (old(self).sprite_index < old(self).sprite_count || sprite.extra) && sprite.y < 240;
                let i = old(self).sprite_index as int;
                &&& visible ==> final(self).sprite_tiles@[i].sprite_x == sprite.x
                    && final(self).sprite_tiles@[i].palette_offset == ((sprite.attr & 0x03) << 2u8) | 0x10
                    && final(self).sprite_tiles@[i].horizontal_mirror == (sprite.attr & 0x40 != 0)
                    && final(self).sprite_tiles@[i].background_priority == (sprite.attr & 0x20 != 0)
                    && (old(self).scanline >= 0 ==> forall|d: int| sprite.x + 1 <= d <= sprite.x + 8 && d < 257
                        ==> #[trigger] final(self).has_sprite@[d])
                &&& forall|j: int| 0 <= j < 64 && j != i ==> final(self).sprite_tiles@[j] == old(self).sprite_tiles@[j]
                &&& !visible ==> final(self).sprite_tiles == old(self).sprite_tiles
                    && final(self).has_sprite == old(self).has_sprite
            }),
    {
        proof {
            crate::bits::lemma_u8_bits();
        }
        let background_priority = sprite.attr & 0x20 != 0;
        let horizontal_mirror = sprite.attr & 0x40 != 0;
        let vertical_mirror = sprite.attr & 0x80 != 0;
        let large = self.large_sprites();
        let max_offset: i16 = if large { 15 } else { 7 };
        let raw: i16 = if vertical_mirror {
            max_offset - (self.scanline - sprite.y as i16)
        } else {
            self.scanline - sprite.y as i16
        };
        let line_offset = (raw as u8) as u16;
        let tile_addr: u16 = if large {
            let st = sprite.tile as u16;
            let base: u16 = if sprite.tile & 0x01 != 0 { 0x1000 } else { 0 };
            let tile_no = (st & !0x01) << 4;
            let line = if line_offset >= 8 { line_offset + 8 } else { line_offset };
            proof {
                lemma_fetch_bits(0, 0, base, st);
            }
            (base | tile_no) + line
        } else {
            let pat = self.sprite_pattern_addr();
            let t = sprite.tile as u16;
            proof {
                lemma_fetch_bits(0, 0, pat, t);
            }
            ((t << 4) | pat) + line_offset
        };
        let idx = self.sprite_index as usize;
        let visible = (self.sprite_index < self.sprite_count as u32 || sprite.extra) && sprite.y < 240;
        let low_byte: u8;
        let high_byte: u8;
        let bus: u16;
        if visible {
            if sprite.extra {
                low_byte = mapper.debug_ppu_read(tile_addr);
                high_byte = mapper.debug_ppu_read(tile_addr + 8);
                bus = self.ppu_bus_address;
            } else {
                low_byte = fetch_vram::<VRAM_HOOK, M>(&self.nametable, &self.palette, tile_addr, self.mapper_cpu_cycle_count, mapper, interrupt);
                high_byte = fetch_vram::<VRAM_HOOK, M>(&self.nametable, &self.palette, tile_addr + 8, self.mapper_cpu_cycle_count, mapper, interrupt);
                bus = tile_addr + 8;
            }
        } else {
            let pat = self.sprite_pattern_addr();
            let dummy: u16 = if large { 0x1000 | (0xff << 4) } else { pat | (0xff << 4) };
            proof {
                lemma_fetch_bits(0, 0, pat, 0);
            }
            fetch_vram::<VRAM_HOOK, M>(&self.nametable, &self.palette, dummy, self.mapper_cpu_cycle_count, mapper, interrupt);
            fetch_vram::<VRAM_HOOK, M>(&self.nametable, &self.palette, dummy + 8, self.mapper_cpu_cycle_count, mapper, interrupt);
            low_byte = 0;
            high_byte = 0;
            bus = dummy + 8;
        }
        let a = sprite.attr;
        let po = ((a & 0x03) << 2) | 0x10;
        assert(po <= 0x1c);
        let info = NesSpriteInfo {
            sprite_x: sprite.x,
            low_byte,
            high_byte,
            palette_offset: po,
            horizontal_mirror,
            background_priority,
        };
        let mut tiles = self.sprite_tiles;
        let mut covered = self.has_sprite;
        if visible {
            tiles[idx] = info;
            if self.scanline >= 0 {
                let x = sprite.x as usize;
                let mut i: usize = 0;
                while i < 8
                    invariant
                        i <= 8,
                        x == sprite.x,
                        forall|d: int| x + 1 <= d <= x + i && d < 257 ==> #[trigger] covered@[d],
                    decreases 8 - i,
                {
                    let target = x + i + 1;
                    if target < 257 {
                        covered[target] = true;
                    }
                    i += 1;
                }
            }
        }
        self.ppu_bus_address = bus;
        self.sprite_tiles = tiles;
        self.has_sprite = covered;
        self.sprite_index = self.sprite_index + 1;
    }

    /// Pattern fetch for the secondary-OAM sprite at `sprite_index`.
    pub fn load_sprite_tile_info<const VRAM_HOOK: bool, M: Mapper>(&mut self, mapper: &mut M, interrupt: &mut InterruptLines)
        requires
            old(mapper).inv(),
            old(self).wf_core(),
            old(self).sprite_index < 8,
        ensures
            final(mapper).inv(),
            final(self).wf_core(),
            final(self).memories_eq(old(self)),
            final(self).timing_eq(old(self)),
            final(self).background_eq(old(self)),
            final(self).output_eq(old(self)),
            final(self).regs_eq(old(self)),
            final(self).vram_addr == old(self).vram_addr,
            final(self).temp_addr == old(self).temp_addr,
            final(self).sprite_count == old(self).sprite_count,
            final(self).secondary_oam_addr == old(self).secondary_oam_addr,
            final(self).sprite_index == old(self).sprite_index + 1,
    {
        let base = (self.sprite_index * 4) as usize;
        let y = self.secondary_sprite_ram[base];
        let tile = self.secondary_sprite_ram[base + 1];
        let attr = self.secondary_sprite_ram[base + 2];
        let x = self.secondary_sprite_ram[base + 3];
        self.load_sprite::<VRAM_HOOK, M>(SpriteLoad { y, tile, attr, x, extra: false }, mapper, interrupt);
    }
}

impl Ppu {
    /// No-flicker pass at dot 320: when the hardware found its eight
    /// sprites, scan the rest of OAM (wrapping, from after the last visible
    /// sprite back to where evaluation began) and load every further sprite
    /// on this line, without board side effects.
    #[verifier::spinoff_prover]
    #[verifier::rlimit(60)]
    pub fn load_extra_sprites<const VRAM_HOOK: bool, M: Mapper>(&mut self, mapper: &mut M, interrupt: &mut InterruptLines)
        requires
            old(mapper).inv(),
            old(self).wf_core(),
        ensures
            final(mapper).inv(),
            final(self).wf_core(),
            final(self).memories_eq(old(self)),
            final(self).timing_eq(old(self)),
            final(self).background_eq(old(self)),
            final(self).output_eq(old(self)),
            final(self).regs_eq(old(self)),
            final(self).vram_addr == old(self).vram_addr,
            final(self).temp_addr == old(self).temp_addr,
            final(self).sprite_count - old(self).sprite_count == final(self).sprite_index - old(self).sprite_index,
            final(self).sprite_index >= old(self).sprite_index,
            old(self).sprite_count != 8 || !old(self).remove_sprite_limit ==> final(self).sprite_count == old(self).sprite_count
                && final(self).sprite_tiles == old(self).sprite_tiles
                && final(self).sprite_index == old(self).sprite_index,
    {
        if self.sprite_count != 8 || !self.remove_sprite_limit {
            return;
        }
        proof {
            crate::bits::lemma_u8_bits();
        }
        let height: i16 = if self.large_sprites() { 16 } else { 8 };
        let first = (self.first_visible_sprite_addr & 0xfc) as usize;
        let mut i = (self.last_visible_sprite_addr as usize + 4) & 0xfc;
        proof {
            crate::bits::lemma_usize_bits();
        }
        let ghost count0 = self.sprite_count;
        let ghost index0 = self.sprite_index;
        while i != first
            invariant
                old(mapper).inv() ==> mapper.inv(),
                mapper.inv(),
                self.wf_core(),
                self.memories_eq(old(self)),
                self.timing_eq(old(self)),
                self.background_eq(old(self)),
                self.output_eq(old(self)),
                self.regs_eq(old(self)),
                self.vram_addr == old(self).vram_addr,
                self.temp_addr == old(self).temp_addr,
                self.first_visible_sprite_addr == old(self).first_visible_sprite_addr,
                self.sprite_count == count0 + (self.sprite_index - index0),
                self.sprite_index >= index0,
                count0 == 8,
                count0 == old(self).sprite_count,
                index0 == old(self).sprite_index,
                i <= 252 && i % 4 == 0,
                first <= 252 && first % 4 == 0,
                height == 8 || height == 16,
            decreases (first + 256 - i) % 256,
        {
            if self.sprite_index >= 64 {
                break;
            }
            let sprite_y = self.oam[i];
            let y = sprite_y as i16;
            if self.scanline >= y && self.scanline < y + height {
                let tile = self.oam[i + 1];
                let attr = self.oam[i + 2];
                let x = self.oam[i + 3];
                self.load_sprite::<VRAM_HOOK, M>(SpriteLoad { y: sprite_y, tile, attr, x, extra: true }, mapper, interrupt);
                self.sprite_count = self.sprite_count + 1;
            }
            let i4 = i + 4;
            let next = i4 & 0xfc;
            proof {
                crate::bits::lemma_usize_bits();
            }
            assert(next == i4 % 256 && next % 4 == 0 && next <= 252);
            i = next;
        }
    }
}

/// Two background pixel bits from the pattern shift registers at fine X.
pub open spec fn bg_pixel_bits(low: u16, high: u16, off: u8) -> u8 {
    ((((low << off) & 0x8000) >> 15u16) | (((high << off) & 0x8000) >> 14u16)) as u8
}

/// The pixel at the current dot of `p` as (palette offset, status, first
/// sprite-0 hit clock, first-hit record). Background bits count from the
/// first background dot and show when `$2001` bit 3 is set; the front
/// sprite wins when sprites show and it is not behind an opaque background
/// pixel; sprite 0 over an opaque background pixel (not at dot 256, after
/// the clipping window, both layers shown) sets status bit 6 and, the first
/// time in the frame, records the hit.
#[verifier::opaque]
pub open spec fn pixel_out(p: Ppu, look: bool) -> (u8, u8, u64, Sprite0HitDebugSnapshot) {
    let cycle = p.cycle;
    let raw: u8 = if cycle > p.minimum_draw_bg_cycle { bg_pixel_bits(p.low_bit_shift, p.high_bit_shift, p.fine_x) } else { 0 };
    let background: u8 = if cycle > p.minimum_draw_bg_cycle && p.mask & 0x08 != 0 { raw } else { 0 };
    let n: nat = if p.sprite_count < 64 { p.sprite_count as nat } else { 64 };
    let (found, si, sprite_color) = front_sprite_at(p.sprite_tiles@, n, cycle, look);
    let info = p.sprite_tiles@[si as int];
    let hit = found && si == 0 && raw != 0 && p.sprite0_visible && cycle != 256 && p.mask & 0x08 != 0
        && p.status & 0x40 == 0 && cycle > p.minimum_draw_sprite_standard_cycle;
    let first_hit = hit && p.sprite0_hit_first_set_clock == 0;
    let record = Sprite0HitDebugSnapshot {
        valid: true,
        cpu_cycle: p.mapper_cpu_cycle_count,
        scanline: p.scanline,
        ppu_cycle: cycle,
        mask: p.mask,
        sprite_count: p.sprite_count,
        sprite0_visible: p.sprite0_visible,
        sprite_bg_color: raw,
        sprite_color,
        minimum_draw_sprite_standard_cycle: p.minimum_draw_sprite_standard_cycle,
        sprite0_x: info.sprite_x,
        sprite0_low: info.low_byte,
        sprite0_high: info.high_byte,
        sprite0_hm: info.horizontal_mirror,
        sprite0_bg_pri: info.background_priority,
        sprite0_pal: info.palette_offset,
        low_bit_shift: p.low_bit_shift,
        high_bit_shift: p.high_bit_shift,
        fine_x: p.fine_x,
    };
    let sprite_wins = found && p.mask & 0x10 != 0 && (background == 0 || !info.background_priority);
    let color = if sprite_wins {
        (info.palette_offset + sprite_color) as u8
    } else if p.fine_x + (((cycle - 1) as u16) & 0x07) < 8 {
        (p.previous_tile_palette + background) as u8
    } else {
        (p.current_tile_palette + background) as u8
    };
    (
        color,
        if hit { p.status | 0x40 } else { p.status },
        if first_hit { p.mapper_cpu_cycle_count } else { p.sprite0_hit_first_set_clock },
        if first_hit { record } else { p.sprite0_hit_debug },
    )
}

/// Pixel composition at the current dot of `p`: the palette offset, and
/// the status, first-hit clock and first-hit record after sprite-0 hit
/// detection. `look` says whether any sprite covers this dot.
pub fn compose_pixel(p: &Ppu, look: bool) -> (r: (u8, u8, u64, Sprite0HitDebugSnapshot))
    requires
        p.fine_x < 8,
        1 <= p.cycle <= 256,
        p.current_tile_palette <= 12,
        p.previous_tile_palette <= 12,
        forall|i: int| 0 <= i < 64 ==> #[trigger] p.sprite_tiles@[i].palette_offset <= 0x1c,
    ensures
        r.0 <= 0x1f,
        r.1 & 0xbf == p.status & 0xbf,
        r == pixel_out(*p, look),
{
    proof {
        reveal(pixel_out);
    }
    let offset = p.fine_x;
    let cycle = p.cycle;
    let low = p.low_bit_shift;
    let high = p.high_bit_shift;
    let mut background_color: u8 = 0;
    let mut sprite_bg_color: u8 = 0;
    if cycle > p.minimum_draw_bg_cycle {
        proof {
            lemma_pixel_bits(0, 0, 0, low, high, offset);
        }
        sprite_bg_color = ((((low << offset) & 0x8000) >> 15) | (((high << offset) & 0x8000) >> 14)) as u8;
        if p.mask & 0x08 != 0 {
            background_color = sprite_bg_color;
        }
    }
    let n: usize = if (p.sprite_count as usize) < 64 { p.sprite_count as usize } else { 64 };
    let (is_found, si, sprite_color) = front_sprite(&p.sprite_tiles, n, cycle, look);
    let info = p.sprite_tiles[si];
    assert(p.sprite_tiles@[si as int].palette_offset <= 0x1c);
    let hit = is_found && si == 0 && sprite_bg_color != 0 && p.sprite0_visible && cycle != 256
        && p.mask & 0x08 != 0 && p.status & 0x40 == 0
        && cycle > p.minimum_draw_sprite_standard_cycle;
    let first_hit = hit && p.sprite0_hit_first_set_clock == 0;
    let st = p.status;
    proof {
        crate::bits::lemma_u8_bits();
        crate::bits::lemma_u16_bits();
    }
    let new_status = if hit { st | 0x40 } else { st };
    let new_clock = if first_hit { p.mapper_cpu_cycle_count } else { p.sprite0_hit_first_set_clock };
    let new_debug = if first_hit {
        Sprite0HitDebugSnapshot {
            valid: true,
            cpu_cycle: p.mapper_cpu_cycle_count,
            scanline: p.scanline,
            ppu_cycle: cycle,
            mask: p.mask,
            sprite_count: p.sprite_count,
            sprite0_visible: p.sprite0_visible,
            sprite_bg_color,
            sprite_color,
            minimum_draw_sprite_standard_cycle: p.minimum_draw_sprite_standard_cycle,
            sprite0_x: info.sprite_x,
            sprite0_low: info.low_byte,
            sprite0_high: info.high_byte,
            sprite0_hm: info.horizontal_mirror,
            sprite0_bg_pri: info.background_priority,
            sprite0_pal: info.palette_offset,
            low_bit_shift: low,
            high_bit_shift: high,
            fine_x: offset,
        }
    } else {
        p.sprite0_hit_debug
    };
    let sprite_wins = is_found && p.mask & 0x10 != 0 && (background_color == 0 || !info.background_priority);
    let color = if sprite_wins {
        info.palette_offset + sprite_color
    } else {
        let palette = if (offset as u16 + ((cycle - 1) & 0x07)) < 8 {
            p.previous_tile_palette
        } else {
            p.current_tile_palette
        };
        palette + background_color
    };
    (color, new_status, new_clock, new_debug)
}

impl Ppu {
    /// Palette offset of the pixel at the current dot: background bits from
    /// the shift registers at fine X (clipped and masked per `$2001`), the
    /// first opaque sprite in front unless it is behind a visible
    /// background pixel. Sets the sprite-0 hit flag (and records the first
    /// hit of the frame) when sprite 0 overlaps an opaque background pixel.
    pub fn get_pixel_color(&mut self) -> (r: u8)
        requires
            old(self).wf(),
            1 <= old(self).cycle <= 256,
        ensures
            final(self).wf(),
            final(self).memories_eq(old(self)),
            final(self).timing_eq(old(self)),
            final(self).background_eq(old(self)),
            final(self).sprites_eq(old(self)),
            final(self).output_eq(old(self)),
            final(self).ctrl == old(self).ctrl && final(self).mask == old(self).mask,
            final(self).status & 0xbf == old(self).status & 0xbf,
            final(self).oam_addr == old(self).oam_addr && final(self).write_latch == old(self).write_latch,
            final(self).rendering_enabled == old(self).rendering_enabled,
            final(self).prev_rendering_enabled == old(self).prev_rendering_enabled,
            final(self).sprite_addr_h == old(self).sprite_addr_h && final(self).sprite_addr_l == old(self).sprite_addr_l,
            final(self).vram_addr == old(self).vram_addr && final(self).ppu_bus_address == old(self).ppu_bus_address,
            r <= 0x1f,
            ({
                let look = old(self).has_sprite@[old(self).cycle as int] && old(self).cycle > old(self).minimum_draw_sprite_cycle;
                let out = pixel_out(*old(self), look);
                &&& r == out.0
                &&& final(self).status == out.1
                &&& final(self).sprite0_hit_first_set_clock == out.2
                &&& final(self).sprite0_hit_debug == out.3
            }),
    {
        let look = self.has_sprite[self.cycle as usize] && self.cycle > self.minimum_draw_sprite_cycle;
        let out = compose_pixel(self, look);
        self.status = out.1;
        self.sprite0_hit_first_set_clock = out.2;
        self.sprite0_hit_debug = out.3;
        out.0
    }

    /// Resolve and store the pixel of the current dot (visible lines, dots
    /// 1..256): with rendering forced off and `v` in palette space the pixel
    /// shows that palette entry; transparent pixels show the backdrop.
    #[verifier::spinoff_prover]
    #[verifier::rlimit(100)]
    pub fn draw_pixel(&mut self)
        requires
            old(self).wf(),
            1 <= old(self).cycle <= 256,
            0 <= old(self).scanline < 240,
        ensures
            final(self).wf(),
            final(self).memories_eq(old(self)),
            final(self).timing_eq(old(self)),
            final(self).background_eq(old(self)),
            final(self).sprites_eq(old(self)),
            final(self).ctrl == old(self).ctrl && final(self).mask == old(self).mask,
            final(self).oam_addr == old(self).oam_addr && final(self).write_latch == old(self).write_latch,
            final(self).rendering_enabled == old(self).rendering_enabled,
            final(self).prev_rendering_enabled == old(self).prev_rendering_enabled,
            final(self).sprite_addr_h == old(self).sprite_addr_h && final(self).sprite_addr_l == old(self).sprite_addr_l,
            final(self).vram_addr == old(self).vram_addr && final(self).ppu_bus_address == old(self).ppu_bus_address,
            final(self).last_updated_pixel == old(self).last_updated_pixel,
            final(self).render_enabled == old(self).render_enabled,
            final(self).remove_sprite_limit == old(self).remove_sprite_limit,
            final(self).palette_ram_mask == old(self).palette_ram_mask,
            final(self).intensify_color_bits == old(self).intensify_color_bits,
            final(self).minimum_draw_bg_cycle == old(self).minimum_draw_bg_cycle,
            final(self).minimum_draw_sprite_cycle == old(self).minimum_draw_sprite_cycle,
            final(self).minimum_draw_sprite_standard_cycle == old(self).minimum_draw_sprite_standard_cycle,
            final(self).status & 0xbf == old(self).status & 0xbf,
    {
        if !self.render_enabled && (self.status & 0x40) != 0 {
            return;
        }
        proof {
            crate::bits::lemma_u16_bits();
        }
        let v = self.vram_addr;
        let forced = !self.rendering_enabled && (v & 0x3f00) == 0x3f00;
        let palette_offset = if forced {
            (v & 0x001f) as u8
        } else {
            self.get_pixel_color()
        };
        if !self.render_enabled {
            return;
        }
        let lookup: u16 = if forced || palette_offset & 0x03 != 0 { (palette_offset & 0x1f) as u16 } else { 0 };

        let color = self.palette_read(0x3f00 | lookup) & 0x3f;
        let buf_idx = (self.scanline as usize) * 256 + (self.cycle as usize - 1);
        let mut buf: Vec<u16> = Vec::new();
        core::mem::swap(&mut buf, &mut self.output_buffer);
        if buf_idx < buf.len() {
            buf.set(buf_idx, color as u16);
        }
        self.output_buffer = buf;
    }
}

} // verus!
