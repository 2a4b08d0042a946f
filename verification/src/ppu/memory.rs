//! PPU memories and address arithmetic: palette RAM, nametable mirroring,
//! the loopy `v` scroll increments and the decaying I/O open bus.
use vstd::prelude::*;
use crate::cartridge::{Mirroring, Region};
use super::{boot_palette, empty_hit_debug, empty_sprite, filled, palette_ram_boot_values, NesSpriteInfo, Ppu, Sprite0HitDebugSnapshot, TileInfo, FRAME_PIXELS};

verus! {

/// Palette RAM slot read at `addr` (`$3F00-$3FFF`): the low five bits, with
/// the sprite-palette backdrop entries `$3F10/$14/$18/$1C` aliasing their
/// background counterparts.
pub open spec fn palette_slot(addr: u16) -> int {
    let i = (addr % 32) as int;
    if i >= 16 && i % 4 == 0 { i - 16 } else { i }
}

/// Console RAM index of nametable address `addr` under `mirroring`.
pub open spec fn nametable_slot(addr: u16, mirroring: Mirroring) -> int {
    let offset = (addr % 0x1000) as int;
    let table = offset / 0x400;
    let inner = offset % 0x400;
    match mirroring {
        Mirroring::Horizontal => if table < 2 { inner } else { 0x400 + inner },
        Mirroring::Vertical => if table % 2 == 0 { inner } else { 0x400 + inner },
        Mirroring::SingleScreenLower => inner,
        Mirroring::SingleScreenUpper => 0x400 + inner,
        Mirroring::FourScreen => offset,
    }
}

/// Coarse X (bits 0-4) of a loopy scroll address.
pub open spec fn coarse_x(v: u16) -> u16 {
    v & 0x1f
}

/// Coarse Y (bits 5-9) of a loopy scroll address.
pub open spec fn coarse_y(v: u16) -> u16 {
    (v >> 5) & 0x1f
}

/// Fine Y (bits 12-14) of a loopy scroll address.
pub open spec fn fine_y(v: u16) -> u16 {
    (v >> 12) & 0x07
}

/// Nametable-select X (bit 10) of a loopy scroll address.
pub open spec fn nt_x(v: u16) -> u16 {
    (v >> 10) & 1
}

/// Nametable-select Y (bit 11) of a loopy scroll address.
pub open spec fn nt_y(v: u16) -> u16 {
    (v >> 11) & 1
}

/// Nametable byte address for scroll address `v`.
pub open spec fn nametable_addr_of(v: u16) -> u16 {
    0x2000 | (v & 0x0fff)
}

/// Attribute byte address for scroll address `v`: the 8x8 attribute grid
/// cell of the current coarse X/Y in the current nametable.
pub open spec fn attribute_addr_of(v: u16) -> u16 {
    (0x23c0 + (v & 0x0c00) + (coarse_y(v) / 4) * 8 + coarse_x(v) / 4) as u16
}

/// Palette RAM read at `addr`.
pub open spec fn palette_value(palette: Seq<u8>, addr: u16) -> u8 {
    palette[palette_slot(addr)]
}

/// Palette RAM after writing `value` at `addr`: six bits are stored, and the
/// backdrop entries (slots divisible by 4) are mirrored between the
/// background and sprite halves.
pub open spec fn palette_written(palette: Seq<u8>, addr: u16, value: u8) -> Seq<u8> {
    let i = (addr % 32) as int;
    let v = value & 0x3f;
    if i % 4 == 0 {
        palette.update(i, v).update((i + 16) % 32, v)
    } else {
        palette.update(i, v)
    }
}

/// Index of the console nametable RAM byte that `addr` selects.
pub fn nametable_index(addr: u16, mirroring: Mirroring) -> (r: usize)
    requires
        addr >= 0x2000,
    ensures
        r == nametable_slot(addr, mirroring),
        r < 0x1000,
{
    proof {
        crate::bits::lemma_u16_bits();
        crate::bits::lemma_usize_bits();
    }
    let offset = ((addr - 0x2000) & 0x0fff) as usize;
    let table = offset / 0x400;
    let inner = offset & 0x03ff;
    match mirroring {
        Mirroring::Horizontal => if table < 2 { inner } else { 0x400 + inner },
        Mirroring::Vertical => if table % 2 == 0 { inner } else { 0x400 + inner },
        Mirroring::SingleScreenLower => inner,
        Mirroring::SingleScreenUpper => 0x400 + inner,
        Mirroring::FourScreen => offset,
    }
}

/// Blank every pixel of a frame buffer.
pub fn clear_frame(buf: &mut Vec<u16>)
    requires
        old(buf)@.len() == FRAME_PIXELS,
    ensures
        final(buf)@ == filled(FRAME_PIXELS as nat, 0u16),
{
    let mut i: usize = 0;
    while i < FRAME_PIXELS
        invariant
            buf@.len() == FRAME_PIXELS,
            i <= FRAME_PIXELS,
            forall|j: int| 0 <= j < i ==> buf@[j] == 0u16,
        decreases FRAME_PIXELS - i,
    {
        buf.set(i, 0);
        i += 1;
    }
    assert(buf@ =~= filled(FRAME_PIXELS as nat, 0u16));
}

/// Master-clock divider, NMI scanline and last VBlank scanline of a region.
pub open spec fn region_timing(region: Region) -> (u8, u16, u16) {
    match region {
        Region::Ntsc => (4, 241, 260),
        Region::Pal => (5, 241, 310),
        Region::Dendy => (5, 291, 310),
    }
}

/// The loopy `v` after a coarse-X increment.
pub open spec fn scroll_x_step(v: u16) -> u16 {
    if v & 0x1f == 31 {
        (v & !0x001fu16) ^ 0x0400u16
    } else {
        (v + 1) as u16
    }
}

/// The loopy `v` after a fine-Y increment with coarse-Y carry.
pub open spec fn scroll_y_step(v: u16) -> u16 {
    if v & 0x7000 != 0x7000 {
        (v + 0x1000) as u16
    } else {
        let a = v & !0x7000u16;
        let y = coarse_y(v);
        if y == 29 {
            ((a ^ 0x0800u16) & !0x03e0u16)
        } else if y == 31 {
            (a & !0x03e0u16)
        } else {
            (a & !0x03e0u16) | (((y + 1) as u16) << 5u16)
        }
    }
}

/// Coarse-X increment: coarse X counts up and, past 31, wraps to 0 and
/// switches to the horizontally adjacent nametable; coarse Y, fine Y and
/// the vertical nametable select do not change.
pub proof fn law_coarse_x_increment(v: u16)
    ensures
        ({
            let w = scroll_x_step(v);
            &&& coarse_x(v) < 31 ==> coarse_x(w) == coarse_x(v) + 1 && nt_x(w) == nt_x(v)
            &&& coarse_x(v) == 31 ==> coarse_x(w) == 0 && nt_x(w) != nt_x(v)
            &&& coarse_y(w) == coarse_y(v) && fine_y(w) == fine_y(v) && nt_y(w) == nt_y(v)
        }),
{
    crate::bits::lemma_law_bits();
    let w = scroll_x_step(v);
    assert((w & 0x1f) == (v & 0x1f) || true);
}

/// Fine-Y increment: fine Y counts up; past 7 it wraps to 0 and coarse Y
/// counts up, where row 29 wraps to 0 and switches to the vertically
/// adjacent nametable and row 31 wraps to 0 without switching; coarse X
/// and the horizontal nametable select do not change.
pub proof fn law_fine_y_increment(v: u16)
    ensures
        ({
            let w = scroll_y_step(v);
            &&& coarse_x(w) == coarse_x(v) && nt_x(w) == nt_x(v)
            &&& fine_y(v) < 7 ==> fine_y(w) == fine_y(v) + 1 && coarse_y(w) == coarse_y(v) && nt_y(w) == nt_y(v)
            &&& fine_y(v) == 7 ==> fine_y(w) == 0
            &&& fine_y(v) == 7 && coarse_y(v) == 29 ==> coarse_y(w) == 0 && nt_y(w) != nt_y(v)
            &&& fine_y(v) == 7 && coarse_y(v) == 31 ==> coarse_y(w) == 0 && nt_y(w) == nt_y(v)
            &&& fine_y(v) == 7 && coarse_y(v) != 29 && coarse_y(v) != 31 ==> coarse_y(w) == coarse_y(v) + 1
                && nt_y(w) == nt_y(v)
        }),
{
    crate::bits::lemma_law_bits();
    let w = scroll_y_step(v);
    assert(coarse_x(w) == coarse_x(w));
}

/// Nametable mirroring, from the top-left nametable address `addr`: under
/// horizontal mirroring the two tables of each row share memory and the
/// bottom row uses the second kilobyte; under vertical mirroring the two
/// tables of each column share memory and the right column uses the second
/// kilobyte; single-screen mirroring maps all four onto one kilobyte and
/// four-screen keeps them apart.
pub proof fn law_nametable_mirroring(addr: u16)
    requires
        addr % 0x1000 < 0x400,
        addr + 0xc00 <= 0xffff,
    ensures
        ({
            let a = addr;
            let b = (addr + 0x400) as u16;
            let c = (addr + 0x800) as u16;
            let d = (addr + 0xc00) as u16;
            let inner = (addr % 0x400) as int;
            &&& nametable_slot(a, Mirroring::Horizontal) == inner && nametable_slot(b, Mirroring::Horizontal) == inner
            &&& nametable_slot(c, Mirroring::Horizontal) == 0x400 + inner
                && nametable_slot(d, Mirroring::Horizontal) == 0x400 + inner
            &&& nametable_slot(a, Mirroring::Vertical) == inner && nametable_slot(c, Mirroring::Vertical) == inner
            &&& nametable_slot(b, Mirroring::Vertical) == 0x400 + inner && nametable_slot(d, Mirroring::Vertical) == 0x400 + inner
            &&& nametable_slot(a, Mirroring::SingleScreenLower) == inner && nametable_slot(b, Mirroring::SingleScreenLower) == inner
            &&& nametable_slot(c, Mirroring::SingleScreenLower) == inner && nametable_slot(d, Mirroring::SingleScreenLower) == inner
            &&& nametable_slot(a, Mirroring::SingleScreenUpper) == 0x400 + inner
                && nametable_slot(d, Mirroring::SingleScreenUpper) == 0x400 + inner
            &&& nametable_slot(a, Mirroring::FourScreen) == inner && nametable_slot(b, Mirroring::FourScreen) == 0x400 + inner
            &&& nametable_slot(c, Mirroring::FourScreen) == 0x800 + inner && nametable_slot(d, Mirroring::FourScreen) == 0xc00 + inner
        }),
{
}

/// Palette RAM: a read gives back the last write to the same entry (six
/// bits of it), where the backdrop entries `$3F10/$14/$18/$1C` and
/// `$3F00/$04/$08/$0C` are one entry; a write leaves every other entry
/// alone.
pub proof fn law_palette_read_after_write(palette: Seq<u8>, addr: u16, value: u8, other: u16)
    requires
        palette.len() == 32,
    ensures
        palette_value(palette_written(palette, addr, value), addr) == value & 0x3f,
        addr % 4 == 0 ==> palette_value(
            palette_written(palette, addr, value),
            (0x3f00 + (addr % 32 + 16) % 32) as u16,
        ) == value & 0x3f,
        palette_slot(other) != palette_slot(addr) ==> palette_value(palette_written(palette, addr, value), other)
            == palette_value(palette, other),
        0 <= palette_slot(addr) < 32,
{
}

/// Coarse X advances modulo 32; wrapping from 31 switches the horizontal
/// nametable; no other bit changes.
pub proof fn lemma_scroll_x_step(v: u16)
    by (bit_vector)
    ensures
        coarse_x(scroll_x_step(v)) == (coarse_x(v) + 1) % 32,
        nt_x(scroll_x_step(v)) == (if coarse_x(v) == 31 { 1 - nt_x(v) } else { nt_x(v) as int }),
        scroll_x_step(v) & !0x041fu16 == v & !0x041fu16,
{
}

/// Fine Y counts 0..7; on its wrap coarse Y advances, wrapping from 29 to 0
/// with a vertical nametable switch and from 31 (the attribute rows) to 0
/// without one. Coarse X, the horizontal nametable bit and bit 15 never
/// change.
pub proof fn lemma_scroll_y_step(v: u16)
    by (bit_vector)
    ensures
        scroll_y_step(v) & 0x841f == v & 0x841f,
        fine_y(v) < 7 ==> fine_y(scroll_y_step(v)) == fine_y(v) + 1 && coarse_y(scroll_y_step(v)) == coarse_y(v)
            && nt_y(scroll_y_step(v)) == nt_y(v),
        fine_y(v) == 7 ==> fine_y(scroll_y_step(v)) == 0,
        fine_y(v) == 7 && coarse_y(v) == 29 ==> coarse_y(scroll_y_step(v)) == 0 && nt_y(scroll_y_step(v)) == 1 - nt_y(v),
        fine_y(v) == 7 && coarse_y(v) == 31 ==> coarse_y(scroll_y_step(v)) == 0 && nt_y(scroll_y_step(v)) == nt_y(v),
        fine_y(v) == 7 && coarse_y(v) != 29 && coarse_y(v) != 31 ==> coarse_y(scroll_y_step(v)) == coarse_y(v) + 1
            && nt_y(scroll_y_step(v)) == nt_y(v),
{
}

/// Attribute-address and nametable-quadrant arithmetic of a PPU address.
pub proof fn lemma_word_layout(v: u16)
    by (bit_vector)
    ensures
        0x23c0u16 | (v & 0x0c00) | ((v >> 4u16) & 0x38) | ((v >> 2u16) & 0x07)
            == (0x23c0 + (v & 0x0c00) + (((v >> 5u16) & 0x1f) / 4) * 8 + (v & 0x1f) / 4) as u16,
        ((v ^ 0x400) as u16) % 0x1000 / 0x400 == (v % 0x1000 / 0x400) ^ 1,
        ((v ^ 0x400) as u16) % 0x400 == v % 0x400,
        ((v ^ 0x800) as u16) % 0x1000 / 0x400 == (v % 0x1000 / 0x400) ^ 2,
        ((v ^ 0x800) as u16) % 0x400 == v % 0x400,
        (v % 0x1000 / 0x400 < 2) == ((v % 0x1000 / 0x400) ^ 1 < 2),
        ((v % 0x1000 / 0x400) % 2 == 0) == (((v % 0x1000 / 0x400) ^ 2) % 2 == 0),
{
}

pub fn next_scroll_x(v: u16) -> (r: u16)
    ensures
        r == scroll_x_step(v),
{
    if (v & 0x001f) == 31 {
        (v & !0x001f) ^ 0x0400
    } else {
        proof {
            crate::bits::lemma_u16_bits();
        }
        v + 1
    }
}

pub fn next_scroll_y(v: u16) -> (r: u16)
    ensures
        r == scroll_y_step(v),
{
    proof {
        crate::bits::lemma_u16_bits();
    }
    if (v & 0x7000) != 0x7000 {
        v + 0x1000
    } else {
        let addr = v & !0x7000;
        let mut y = (addr & 0x03e0) >> 5;
        if y == 29 {
            ((addr ^ 0x0800) & !0x03e0)
        } else if y == 31 {
            (addr & !0x03e0)
        } else {
            y += 1;
            (addr & !0x03e0) | (y << 5)
        }
    }
}

impl Ppu {
    /// Reset to power-on state, keeping region timing, diagnostics targets
    /// and the rendering options.
    pub fn reset(&mut self)
        requires
            old(self).output_buffer@.len() == FRAME_PIXELS,
        ensures
            final(self).power_on_core(),
            final(self).same_settings(old(self)),
    {
        self.ctrl = 0;
        self.mask = 0;
        self.status = 0;
        self.oam_addr = 0;
        self.ppu_spl = 0;
        self.oam = [0xff; 256];
        self.vram_addr = 0;
        self.temp_addr = 0;
        self.fine_x = 0;
        self.write_latch = false;
        self.data_buffer = 0;
        self.io_latch = 0;
        self.ppu_open_bus = 0;
        self.ppu_open_bus_decay_stamp = [0; 8];
        self.nametable = [0xff; 0x1000];
        self.palette = palette_ram_boot_values();
        self.upper_palette_aliases = [0; 3];
        self.odd_frame_toggle = 0;
        self.master_clock = 0;
        self.scanline = -1;
        self.cycle = 340;
        self.frame_count = 1;
        self.tile = TileInfo::default();
        self.sprite_tiles = [NesSpriteInfo::default(); 64];
        self.sprite_count = 0;
        self.has_sprite = [false; 257];
        self.sprite0_visible = false;
        self.sprite0_added = false;
        self.sprite0_hit_first_set_clock = 0;
        self.sprite0_hit_debug = Sprite0HitDebugSnapshot::default();
        self.low_bit_shift = 0;
        self.high_bit_shift = 0;
        self.ppu_bus_address = 0;
        self.prevent_vbl_flag = false;
        self.rendering_enabled = false;
        self.prev_rendering_enabled = false;
        self.need_state_update = false;
        self.secondary_sprite_ram = [0xff; 32];
        self.secondary_oam_addr = 0;
        self.oam_copy_buffer = 0;
        self.sprite_in_range = false;
        self.sprite_addr_h = 0;
        self.sprite_addr_l = 0;
        self.overflow_bug_counter = 0;
        self.oam_copy_done = false;
        self.sprite_index = 0;
        self.current_tile_palette = 0;
        self.previous_tile_palette = 0;
        self.minimum_draw_bg_cycle = 0;
        self.minimum_draw_sprite_cycle = 0;
        self.minimum_draw_sprite_standard_cycle = 0;
        clear_frame(&mut self.output_buffer);
        self.last_updated_pixel = -1;
        self.palette_ram_mask = 0x3f;
        self.intensify_color_bits = 0;
        self.update_vram_addr_delay = 0;
        self.update_vram_addr = 0;
        self.need_video_ram_increment = false;
        self.ignore_vram_read = 0;
        assert(self.oam@ =~= filled(256, 0xffu8));
        assert(self.ppu_open_bus_decay_stamp@ =~= filled(8, 0u32));
        assert(self.nametable@ =~= filled(0x1000, 0xffu8));
        assert(self.upper_palette_aliases@ =~= filled(3, 0u8));
        assert(self.sprite_tiles@ =~= filled(64, empty_sprite()));
        assert(self.has_sprite@ =~= filled(257, false));
        assert(self.secondary_sprite_ram@ =~= filled(32, 0xffu8));
        assert(self.output_buffer@ =~= filled(FRAME_PIXELS as nat, 0u16));
    }

    /// Raw `$2002` status byte (sprite overflow, sprite-0 hit, VBlank in the
    /// top three bits).
    pub fn status_byte(&self) -> (r: u8)
        ensures
            r == self.status,
    {
        self.status
    }

    /// Raw `$2001` mask byte.
    pub fn mask_byte(&self) -> (r: u8)
        ensures
            r == self.mask,
    {
        self.mask
    }

    /// Console nametable RAM.
    pub fn nametable_view(&self) -> (r: &[u8])
        ensures
            r@ == self.nametable@,
    {
        self.nametable.as_slice()
    }

    /// Primary sprite OAM.
    pub fn oam_view(&self) -> (r: &[u8; 256])
        ensures
            *r == self.oam,
    {
        &self.oam
    }

    /// Palette RAM.
    pub fn palette_view(&self) -> (r: &[u8; 32])
        ensures
            *r == self.palette,
    {
        &self.palette
    }

    /// Sprite tiles fetched for the current scanline; the first eight are the
    /// hardware-visible ones.
    pub fn sprite_tiles(&self) -> (r: &[NesSpriteInfo; 64])
        ensures
            *r == self.sprite_tiles,
    {
        &self.sprite_tiles
    }

    /// BG shift registers, fine X and sprite count.
    pub fn shift_registers(&self) -> (r: (u16, u16, u8, u8))
        ensures
            r == (self.low_bit_shift, self.high_bit_shift, self.fine_x, self.sprite_count),
    {
        (self.low_bit_shift, self.high_bit_shift, self.fine_x, self.sprite_count)
    }

    /// CPU cycle when sprite-0 hit first went from 0 to 1 this frame (0: not
    /// yet).
    pub fn sprite0_hit_first_set_clock(&self) -> (r: u64)
        ensures
            r == self.sprite0_hit_first_set_clock,
    {
        self.sprite0_hit_first_set_clock
    }

    /// State recorded at the first sprite-0 hit this frame.
    pub fn sprite0_hit_debug(&self) -> (r: Sprite0HitDebugSnapshot)
        ensures
            r == self.sprite0_hit_debug,
    {
        self.sprite0_hit_debug
    }

    /// Arm the mid-frame capture at (`scanline`, `cycle`).
    pub fn set_ppu_capture_target(&mut self, scanline: i32, cycle: u32)
        ensures
            *final(self) == (Ppu {
                capture_target_scanline: scanline,
                capture_target_cycle: cycle,
                capture_valid: 0,
                ..*old(self)
            }),
    {
        self.capture_target_scanline = scanline;
        self.capture_target_cycle = cycle;
        self.capture_valid = 0;
    }

    /// Captured (valid, low shift, high shift, mask, previous rendering,
    /// rendering, vram address, sprite count).
    pub fn ppu_capture_snapshot(&self) -> (r: (u8, u16, u16, u8, u8, u8, u16, u8))
        ensures
            r == (
                self.capture_valid,
                self.captured_low_shift,
                self.captured_high_shift,
                self.captured_mask,
                self.captured_prev_rendering,
                self.captured_rendering,
                self.captured_vram_addr,
                self.captured_sprite_count,
            ),
    {
        (
            self.capture_valid,
            self.captured_low_shift,
            self.captured_high_shift,
            self.captured_mask,
            self.captured_prev_rendering,
            self.captured_rendering,
            self.captured_vram_addr,
            self.captured_sprite_count,
        )
    }

    /// Captured tile fetch (tile address, low byte, high byte, palette offset).
    pub fn ppu_capture_tile_fetch(&self) -> (r: (u16, u8, u8, u8))
        ensures
            r == (
                self.captured_tile_addr,
                self.captured_tile_low_byte,
                self.captured_tile_high_byte,
                self.captured_tile_palette_offset,
            ),
    {
        (
            self.captured_tile_addr,
            self.captured_tile_low_byte,
            self.captured_tile_high_byte,
            self.captured_tile_palette_offset,
        )
    }

    /// Sprite-0 state captured at the capture dot.
    pub fn ppu_capture_sprite0(&self) -> (r: super::Sprite0Capture)
        ensures
            r.primary.oam_addr == self.captured_oam_addr,
            r.primary.y == self.captured_pri_oam0@[0],
            r.primary.tile == self.captured_pri_oam0@[1],
            r.primary.attr == self.captured_pri_oam0@[2],
            r.primary.x == self.captured_pri_oam0@[3],
            r.pipeline.x == self.captured_st0_x,
            r.pipeline.low == self.captured_st0_low,
            r.pipeline.high == self.captured_st0_high,
            r.pipeline.visible == self.captured_sprite0_visible,
            r.pipeline.has_sprite_at_dot == self.captured_has_sprite_dot,
            r.pipeline.sec_oam_y == self.captured_sec_oam0@[0],
            r.pipeline.sec_oam_tile == self.captured_sec_oam0@[1],
            r.pipeline.sec_oam_attr == self.captured_sec_oam0@[2],
            r.pipeline.sec_oam_x == self.captured_sec_oam0@[3],
    {
        super::Sprite0Capture {
            primary: super::Sprite0PrimaryCapture {
                oam_addr: self.captured_oam_addr,
                y: self.captured_pri_oam0[0],
                tile: self.captured_pri_oam0[1],
                attr: self.captured_pri_oam0[2],
                x: self.captured_pri_oam0[3],
            },
            pipeline: super::Sprite0PipelineCapture {
                x: self.captured_st0_x,
                low: self.captured_st0_low,
                high: self.captured_st0_high,
                visible: self.captured_sprite0_visible,
                has_sprite_at_dot: self.captured_has_sprite_dot,
                sec_oam_y: self.captured_sec_oam0[0],
                sec_oam_tile: self.captured_sec_oam0[1],
                sec_oam_attr: self.captured_sec_oam0[2],
                sec_oam_x: self.captured_sec_oam0[3],
            },
        }
    }

    /// Enable the no-flicker render path.
    pub fn set_remove_sprite_limit(&mut self, on: bool)
        ensures
            *final(self) == (Ppu { remove_sprite_limit: on, ..*old(self) }),
    {
        self.remove_sprite_limit = on;
    }

    /// Enable framebuffer output; PPU timing runs either way.
    pub fn set_render_enabled(&mut self, on: bool)
        ensures
            *final(self) == (Ppu { render_enabled: on, ..*old(self) }),
    {
        self.render_enabled = on;
    }

    /// Configure the master-clock divider and the default VBlank timing for
    /// it (NTSC with 4, 50 Hz otherwise).
    pub fn set_master_clock_divider(&mut self, divider: u8)
        ensures
            *final(self) == (Ppu {
                master_clock_divider: divider,
                nmi_scanline: 241,
                vblank_end: if divider == 4 { 260u16 } else { 310u16 },
                ..*old(self)
            }),
    {
        self.master_clock_divider = divider;
        if divider == 4 {
            self.nmi_scanline = 241;
            self.vblank_end = 260;
        } else {
            self.nmi_scanline = 241;
            self.vblank_end = 310;
        }
    }

    /// Apply region timing: NTSC divides by 4 with VBlank 241..260; PAL by
    /// 5 with 241..310; Dendy by 5 with NMI at 291 and VBlank end 310.
    pub fn set_region(&mut self, region: Region)
        ensures
            *final(self) == (Ppu {
                region,
                master_clock_divider: region_timing(region).0,
                nmi_scanline: region_timing(region).1,
                vblank_end: region_timing(region).2,
                ..*old(self)
            }),
    {
        let (divider, nmi, end): (u8, u16, u16) = match region {
            Region::Ntsc => (4, 241, 260),
            Region::Pal => (5, 241, 310),
            Region::Dendy => (5, 291, 310),
        };
        self.region = region;
        self.master_clock_divider = divider;
        self.nmi_scanline = nmi;
        self.vblank_end = end;
    }

    /// Coarse-X scroll increment at each 8-pixel BG tile boundary (see
    /// `lemma_scroll_x_step`).
    pub fn inc_horizontal_scrolling(&mut self)
        ensures
            *final(self) == (Ppu { vram_addr: scroll_x_step(old(self).vram_addr), ..*old(self) }),
    {
        self.vram_addr = next_scroll_x(self.vram_addr);
    }

    /// Fine-Y / coarse-Y scroll increment at cycle 256 (see
    /// `lemma_scroll_y_step`).
    pub fn inc_vertical_scrolling(&mut self)
        ensures
            *final(self) == (Ppu { vram_addr: scroll_y_step(old(self).vram_addr), ..*old(self) }),
    {
        self.vram_addr = next_scroll_y(self.vram_addr);
    }

    /// Nametable byte fetch address for the current scroll position.
    pub fn get_nametable_addr(&self) -> (r: u16)
        ensures
            r == nametable_addr_of(self.vram_addr),
    {
        0x2000 | (self.vram_addr & 0x0fff)
    }

    /// Attribute byte fetch address for the current scroll position.
    pub fn get_attribute_addr(&self) -> (r: u16)
        ensures
            r == attribute_addr_of(self.vram_addr),
    {
        let v = self.vram_addr;
        let r = 0x23c0 | (v & 0x0c00) | ((v >> 4) & 0x38) | ((v >> 2) & 0x07);
        proof {
            lemma_word_layout(v);
        }
        r
    }

    /// Delayed rendering-enabled state.
    pub fn is_rendering_enabled(&self) -> (r: bool)
        ensures
            r == self.rendering_enabled,
    {
        self.rendering_enabled
    }

    /// Background pattern table base selected by `$2000` bit 4.
    pub fn bg_pattern_addr(&self) -> (r: u16)
        ensures
            r == (if self.ctrl & 0x10 != 0 { 0x1000u16 } else { 0u16 }),
    {
        if self.ctrl & 0x10 != 0 {
            0x1000
        } else {
            0x0000
        }
    }

    /// 8x16 sprites (`$2000` bit 5).
    pub fn large_sprites(&self) -> (r: bool)
        ensures
            r == (self.ctrl & 0x20 != 0),
    {
        self.ctrl & 0x20 != 0
    }

    /// 8x8 sprite pattern table base selected by `$2000` bit 3.
    pub fn sprite_pattern_addr(&self) -> (r: u16)
        ensures
            r == (if self.ctrl & 0x08 != 0 { 0x1000u16 } else { 0u16 }),
    {
        if self.ctrl & 0x08 != 0 {
            0x1000
        } else {
            0x0000
        }
    }

    /// Palette RAM read.
    pub fn palette_read(&self, addr: u16) -> (r: u8)
        requires
            addr >= 0x3f00,
        ensures
            r == palette_value(self.palette@, addr),
    {
        proof {
            crate::bits::lemma_u16_bits();
            crate::bits::lemma_usize_bits();
        }
        let mut index = ((addr - 0x3f00) & 0x001f) as usize;
        if index >= 0x10 && index & 0x03 == 0 {
            index -= 0x10;
        }
        self.palette[index]
    }

    /// Palette RAM write; see `palette_written`.
    pub fn palette_write(&mut self, addr: u16, value: u8)
        requires
            addr >= 0x3f00,
        ensures
            *final(self) == (Ppu { palette: final(self).palette, ..*old(self) }),
            final(self).palette@ == palette_written(old(self).palette@, addr, value),
    {
        write_palette(&mut self.palette, addr, value);
    }
}

/// Palette RAM write: six bits stored, backdrop entries mirrored.
pub fn write_palette(palette: &mut [u8; 32], addr: u16, value: u8)
    requires
        addr >= 0x3f00,
    ensures
        final(palette)@ == palette_written(old(palette)@, addr, value),
{
    proof {
        crate::bits::lemma_u16_bits();
        crate::bits::lemma_usize_bits();
    }
    let v6 = value & 0x3f;
    let index = ((addr - 0x3f00) & 0x001f) as usize;
    assert(index == addr % 32);
    palette[index] = v6;
    if index & 0x03 == 0 {
        palette[index ^ 0x10] = v6;
    }
    assert(palette@ =~= palette_written(old(palette)@, addr, value));
}

/// Reading a palette address gives back the six bits last written there.
pub proof fn lemma_palette_read_after_write(palette: Seq<u8>, addr: u16, value: u8)
    requires
        palette.len() == 32,
    ensures
        palette_value(palette_written(palette, addr, value), addr) == value & 0x3f,
{
}

/// The sprite backdrop entries alias the background ones: writing
/// `$3F10/$14/$18/$1C` is seen at `$3F00/$04/$08/$0C` and the other way round.
pub proof fn lemma_palette_backdrop_mirror(palette: Seq<u8>, addr: u16, value: u8)
    requires
        palette.len() == 32,
        addr % 4 == 0,
    ensures
        palette_written(palette, addr, value)[(addr % 16) as int] == value & 0x3f,
        palette_written(palette, addr, value)[(addr % 16) as int + 16] == value & 0x3f,
{
}

/// Every mirroring mode maps nametable addresses into console RAM; the two
/// standard modes pair the four logical tables onto two physical ones.
pub proof fn lemma_nametable_mirroring(addr: u16)
    ensures
        forall|m: Mirroring| 0 <= #[trigger] nametable_slot(addr, m) < 0x1000,
        nametable_slot(addr, Mirroring::Horizontal) == nametable_slot((addr ^ 0x400) as u16, Mirroring::Horizontal),
        nametable_slot(addr, Mirroring::Vertical) == nametable_slot((addr ^ 0x800) as u16, Mirroring::Vertical),
{
    lemma_word_layout(addr);
    assert(addr % 0x1000 / 0x400 < 4);
}

} // verus!
