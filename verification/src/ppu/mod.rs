//! Picture processing unit: register file, VRAM/OAM/palette memories and the
//! dot-by-dot rendering state machine.
use vstd::prelude::*;
use crate::cartridge::{Mirroring, Region};

pub mod memory;
pub mod readback;
pub mod registers;
pub mod render;
pub mod snapshot;
pub mod timing;

verus! {

/// Palette RAM contents at power-on.
pub open spec fn boot_palette() -> Seq<u8> {
    seq![
        0x09u8, 0x01, 0x00, 0x01, 0x00, 0x02, 0x02, 0x0D, 0x08, 0x10, 0x08, 0x24, 0x00, 0x00, 0x04, 0x2C,
        0x09, 0x01, 0x34, 0x03, 0x00, 0x04, 0x00, 0x14, 0x08, 0x3A, 0x00, 0x02, 0x00, 0x20, 0x2C, 0x08,
    ]
}

/// Power-on palette RAM.
pub fn palette_ram_boot_values() -> (r: [u8; 0x20])
    ensures
        r@ == boot_palette(),
{
    let r: [u8; 0x20] = [
        0x09, 0x01, 0x00, 0x01, 0x00, 0x02, 0x02, 0x0D, 0x08, 0x10, 0x08, 0x24, 0x00, 0x00, 0x04, 0x2C,
        0x09, 0x01, 0x34, 0x03, 0x00, 0x04, 0x00, 0x14, 0x08, 0x3A, 0x00, 0x02, 0x00, 0x20, 0x2C, 0x08,
    ];
    assert(r@ =~= boot_palette());
    r
}

/// Number of pixels in the output frame (256 x 240).
pub const FRAME_PIXELS: usize = 61440;

/// BG tile fetch latch for the tile entering the shift registers.
#[derive(Debug, Clone, Copy)]
pub struct TileInfo {
    /// Low pattern byte (fetched at cycle % 8 == 5).
    pub low_byte: u8,
    /// High pattern byte (fetched at cycle % 8 == 7).
    pub high_byte: u8,
    /// Palette offset for this tile (computed from AT byte at cycle % 8 == 3).
    pub palette_offset: u8,
    /// PPU pattern address computed from NT byte, fine Y, and BG table base.
    pub tile_addr: u16,
}

impl Default for TileInfo {
    fn default() -> (r: Self)
        ensures
            r == (TileInfo { low_byte: 0, high_byte: 0, palette_offset: 0, tile_addr: 0 }),
    {
        TileInfo { low_byte: 0, high_byte: 0, palette_offset: 0, tile_addr: 0 }
    }
}

/// Sprite tile data prefetched for next-scanline pixel composition.
#[derive(Debug, Clone, Copy)]
pub struct NesSpriteInfo {
    /// Screen X coordinate (sprite's leftmost pixel).
    pub sprite_x: u8,
    /// Low pattern byte (fetched during sprite tile fetch).
    pub low_byte: u8,
    /// High pattern byte (fetched during sprite tile fetch).
    pub high_byte: u8,
    /// Combined sprite palette offset: `((attr & 0x03) << 2) | 0x10`.
    pub palette_offset: u8,
    /// Sprite is horizontally mirrored (attr bit 6).
    pub horizontal_mirror: bool,
    /// Sprite is behind background (attr bit 5).
    pub background_priority: bool,
}

pub open spec fn empty_sprite() -> NesSpriteInfo {
    NesSpriteInfo {
        sprite_x: 0,
        low_byte: 0,
        high_byte: 0,
        palette_offset: 0,
        horizontal_mirror: false,
        background_priority: false,
    }
}

impl Default for NesSpriteInfo {
    fn default() -> (r: Self)
        ensures
            r == empty_sprite(),
    {
        NesSpriteInfo {
            sprite_x: 0,
            low_byte: 0,
            high_byte: 0,
            palette_offset: 0,
            horizontal_mirror: false,
            background_priority: false,
        }
    }
}

/// First sprite-0-hit diagnostic snapshot.
#[derive(Debug, Clone, Copy)]
pub struct Sprite0HitDebugSnapshot {
    pub valid: bool,
    pub cpu_cycle: u64,
    pub scanline: i16,
    pub ppu_cycle: u16,
    pub mask: u8,
    pub sprite_count: u8,
    pub sprite0_visible: bool,
    pub sprite_bg_color: u8,
    pub sprite_color: u8,
    pub minimum_draw_sprite_standard_cycle: u16,
    pub sprite0_x: u8,
    pub sprite0_low: u8,
    pub sprite0_high: u8,
    pub sprite0_hm: bool,
    pub sprite0_bg_pri: bool,
    pub sprite0_pal: u8,
    /// Shift register state at hit moment.
    pub low_bit_shift: u16,
    pub high_bit_shift: u16,
    pub fine_x: u8,
}

pub open spec fn empty_hit_debug() -> Sprite0HitDebugSnapshot {
    Sprite0HitDebugSnapshot {
        valid: false,
        cpu_cycle: 0,
        scanline: 0,
        ppu_cycle: 0,
        mask: 0,
        sprite_count: 0,
        sprite0_visible: false,
        sprite_bg_color: 0,
        sprite_color: 0,
        minimum_draw_sprite_standard_cycle: 0,
        sprite0_x: 0,
        sprite0_low: 0,
        sprite0_high: 0,
        sprite0_hm: false,
        sprite0_bg_pri: false,
        sprite0_pal: 0,
        low_bit_shift: 0,
        high_bit_shift: 0,
        fine_x: 0,
    }
}

impl Default for Sprite0HitDebugSnapshot {
    fn default() -> (r: Self)
        ensures
            r == empty_hit_debug(),
    {
        Sprite0HitDebugSnapshot {
            valid: false,
            cpu_cycle: 0,
            scanline: 0,
            ppu_cycle: 0,
            mask: 0,
            sprite_count: 0,
            sprite0_visible: false,
            sprite_bg_color: 0,
            sprite_color: 0,
            minimum_draw_sprite_standard_cycle: 0,
            sprite0_x: 0,
            sprite0_low: 0,
            sprite0_high: 0,
            sprite0_hm: false,
            sprite0_bg_pri: false,
            sprite0_pal: 0,
            low_bit_shift: 0,
            high_bit_shift: 0,
            fine_x: 0,
        }
    }
}

#[derive(Debug, Default, Clone, Copy, PartialEq, Eq)]
pub struct Sprite0PrimaryCapture {
    pub oam_addr: u8,
    pub y: u8,
    pub tile: u8,
    pub attr: u8,
    pub x: u8,
}

#[derive(Debug, Default, Clone, Copy, PartialEq, Eq)]
pub struct Sprite0PipelineCapture {
    pub x: u8,
    pub low: u8,
    pub high: u8,
    pub visible: u8,
    pub has_sprite_at_dot: u8,
    pub sec_oam_y: u8,
    pub sec_oam_tile: u8,
    pub sec_oam_attr: u8,
    pub sec_oam_x: u8,
}

#[derive(Debug, Default, Clone, Copy, PartialEq, Eq)]
pub struct Sprite0Capture {
    pub primary: Sprite0PrimaryCapture,
    pub pipeline: Sprite0PipelineCapture,
}

/// One OAM entry handed to the sprite pattern fetch.
#[derive(Debug, Clone, Copy)]
pub struct SpriteLoad {
    pub y: u8,
    pub tile: u8,
    pub attr: u8,
    pub x: u8,
    /// Beyond the eight hardware sprites (no-flicker rendering only).
    pub extra: bool,
}

#[derive(Debug, Clone)]
pub struct Ppu {
    pub ctrl: u8,
    pub mask: u8,
    pub status: u8,
    pub oam_addr: u8,
    /// Secondary OAM pointer for the `$2004` write path. Reset to 0 on
    /// VBlank entry and to `oam_addr & 0x07` on `$2003` write.
    pub ppu_spl: u8,
    pub oam: [u8; 256],
    pub vram_addr: u16,
    pub temp_addr: u16,
    pub fine_x: u8,
    pub write_latch: bool,
    pub data_buffer: u8,
    pub io_latch: u8,
    pub ppu_open_bus: u8,
    pub ppu_open_bus_decay_stamp: [u32; 8],
    pub nametable: [u8; 0x1000],
    pub palette: [u8; 32],
    pub upper_palette_aliases: [u8; 3],
    pub odd_frame_toggle: u8,
    /// Absolute PPU master clock.
    pub master_clock: u64,
    /// Master clocks consumed per PPU dot. NTSC = 4, PAL = 5, Dendy = 5.
    pub master_clock_divider: u8,
    /// CPU cycle count visible to mapper PPU-address notifications.
    pub mapper_cpu_cycle_count: u64,
    /// Signed scanline: -1 pre-render, 0..239 visible, 240 post, then VBlank.
    pub scanline: i16,
    /// PPU dot within scanline; cycle 0 is the idle/transition tick.
    pub cycle: u16,
    /// Frame counter incremented when VBlank wraps to pre-render.
    pub frame_count: u32,
    /// NMI scanline; Dendy differs from NTSC/PAL.
    pub nmi_scanline: u16,
    /// Last VBlank scanline before wrapping to pre-render.
    pub vblank_end: u16,
    /// Console region; serialized as the authoritative timing carrier.
    pub region: Region,
    /// BG tile fetch state currently being assembled.
    pub tile: TileInfo,
    /// Prefetched sprite tile data for the current scanline.
    pub sprite_tiles: [NesSpriteInfo; 64],
    /// Number of loaded sprite tiles.
    pub sprite_count: u8,
    /// Per-X sprite-pixel presence flag populated during sprite fetch.
    pub has_sprite: [bool; 257],
    /// Sprite 0 survived sprite evaluation for the current scanline.
    pub sprite0_visible: bool,
    /// Sprite 0 was copied into secondary OAM during evaluation.
    pub sprite0_added: bool,
    /// CPU cycle when sprite-0 hit first transitions 0->1 this frame.
    pub sprite0_hit_first_set_clock: u64,
    /// Full state snapshot at first sprite-0 hit of frame.
    pub sprite0_hit_debug: Sprite0HitDebugSnapshot,
    /// Mid-frame diagnostic capture target and result.
    pub capture_target_scanline: i32,
    pub capture_target_cycle: u32,
    pub capture_valid: u8,
    pub captured_low_shift: u16,
    pub captured_high_shift: u16,
    pub captured_mask: u8,
    pub captured_prev_rendering: u8,
    pub captured_rendering: u8,
    pub captured_vram_addr: u16,
    pub captured_sprite_count: u8,
    pub captured_tile_addr: u16,
    pub captured_tile_low_byte: u8,
    pub captured_tile_high_byte: u8,
    pub captured_tile_palette_offset: u8,
    pub captured_oam_addr: u8,
    /// Primary OAM sprite 0 (Y, tile, attr, X).
    pub captured_pri_oam0: [u8; 4],
    pub captured_st0_x: u8,
    pub captured_st0_low: u8,
    pub captured_st0_high: u8,
    pub captured_sprite0_visible: u8,
    pub captured_has_sprite_dot: u8,
    /// Secondary OAM slot 0 (Y, tile, attr, X).
    pub captured_sec_oam0: [u8; 4],
    /// BG pattern shift register, low byte.
    pub low_bit_shift: u16,
    /// BG pattern shift register, high byte.
    pub high_bit_shift: u16,
    /// Last address driven onto the PPU bus and reported to mappers.
    pub ppu_bus_address: u16,
    /// `$2002` read-on-VBlank-edge suppression flag.
    pub prevent_vbl_flag: bool,
    /// One-shot per-frame input-commit trigger at the input scanline.
    pub pending_input_commit: bool,
    /// Delayed rendering-enabled state (background OR sprites).
    pub rendering_enabled: bool,
    /// Previous-cycle delayed rendering-enabled state.
    pub prev_rendering_enabled: bool,
    /// Deferred `$2001/$2006/$2007` state update pending.
    pub need_state_update: bool,
    /// Secondary OAM populated during sprite evaluation.
    pub secondary_sprite_ram: [u8; 32],
    /// Secondary OAM write pointer during sprite evaluation.
    pub secondary_oam_addr: u8,
    /// Latched OAM byte being copied during sprite evaluation.
    pub oam_copy_buffer: u8,
    /// Current sprite overlaps the current scanline.
    pub sprite_in_range: bool,
    /// Sprite-eval OAM address high part (sprite index).
    pub sprite_addr_h: u8,
    /// Sprite-eval OAM address low part (byte within sprite).
    pub sprite_addr_l: u8,
    /// Physical OAM address of the most recently in-range sprite.
    pub last_visible_sprite_addr: u8,
    /// Scanline eval start address; brackets the no-flicker extra scan.
    pub first_visible_sprite_addr: u8,
    /// No-flicker render option; CPU-visible state remains unchanged.
    pub remove_sprite_limit: bool,
    /// Render-output toggle; PPU timing and CPU-visible effects still run.
    pub render_enabled: bool,
    /// Counter for the sprite-overflow hardware bug.
    pub overflow_bug_counter: u8,
    /// Sprite evaluation has copied all visible sprites for this scanline.
    pub oam_copy_done: bool,
    /// Index of the next sprite tile to load.
    pub sprite_index: u32,
    /// Palette latched for the current 8-pixel BG tile.
    pub current_tile_palette: u8,
    /// Palette latched for the previous tile when fine-X spans a boundary.
    pub previous_tile_palette: u8,
    /// Minimum cycle where BG pixels are visible.
    pub minimum_draw_bg_cycle: u16,
    /// Minimum cycle where sprite pixels are visible.
    pub minimum_draw_sprite_cycle: u16,
    /// Minimum cycle where sprite-0 hit can fire.
    pub minimum_draw_sprite_standard_cycle: u16,
    /// Visible pixel buffer (256 x 240): 6-bit color index plus emphasis bits.
    pub output_buffer: Vec<u16>,
    /// Last pixel that grayscale/emphasis has been applied to.
    pub last_updated_pixel: i32,
    pub palette_ram_mask: u8,
    pub intensify_color_bits: u16,
    /// `$2006` second-write delay before `vram_addr` is applied.
    pub update_vram_addr_delay: u8,
    /// Pending `$2006` second-write address.
    pub update_vram_addr: u16,
    /// Pending `$2007` post-access VRAM increment.
    pub need_video_ram_increment: bool,
    /// `$2007` read ignore window counter.
    pub ignore_vram_read: u32,
}

/// `n` copies of `v`.
pub open spec fn filled<T>(n: nat, v: T) -> Seq<T> {
    Seq::new(n, |i: int| v)
}

impl Ppu {
    /// Well-formedness: the bounds that the per-dot pipeline relies on. Every
    /// state that the pipeline itself produces keeps them.
    pub open spec fn wf(&self) -> bool {
        self.wf_core() && self.sprite_fetch_on_time()
    }

    /// The value bounds of `wf`.
    pub open spec fn wf_core(&self) -> bool {
        &&& self.output_buffer@.len() == FRAME_PIXELS
        &&& self.fine_x < 8
        &&& self.cycle <= 340
        &&& -1 <= self.scanline <= self.vblank_end
        &&& 241 <= self.nmi_scanline <= self.vblank_end <= 400
        &&& self.master_clock_divider > 0
        &&& self.sprite_count <= 72
        &&& self.sprite_index <= 64
        &&& self.secondary_oam_addr <= 0x20
        &&& self.sprite_addr_l <= 3
        &&& self.sprite_addr_h <= 0x3f
        &&& self.current_tile_palette <= 12
        &&& self.previous_tile_palette <= 12
        &&& self.tile.palette_offset <= 12
        &&& self.tile.tile_addr <= 0x1fff
        &&& (forall|i: int| 0 <= i < 64 ==> #[trigger] self.sprite_tiles@[i].palette_offset <= 0x1c)
        &&& -1 <= self.last_updated_pixel < FRAME_PIXELS
    }

    /// During the sprite pattern fetches (dots 257..319 of a rendered line)
    /// at most one fetch has happened per eight dots, so the next fetch
    /// still finds its secondary OAM slot.
    pub open spec fn sprite_fetch_on_time(&self) -> bool {
        self.scanline < 240 && 257 <= self.cycle <= 319 ==> self.sprite_index * 8 + 253 <= self.cycle
    }

    /// Same OAM, secondary OAM, nametable RAM and palette RAM.
    pub open spec fn memories_eq(&self, o: &Ppu) -> bool {
        &&& self.oam == o.oam && self.secondary_sprite_ram == o.secondary_sprite_ram
        &&& self.nametable == o.nametable && self.palette == o.palette
    }

    /// Same beam position, clocks and region timing.
    pub open spec fn timing_eq(&self, o: &Ppu) -> bool {
        &&& self.master_clock == o.master_clock && self.master_clock_divider == o.master_clock_divider
        &&& self.mapper_cpu_cycle_count == o.mapper_cpu_cycle_count
        &&& self.scanline == o.scanline && self.cycle == o.cycle && self.frame_count == o.frame_count
        &&& self.nmi_scanline == o.nmi_scanline && self.vblank_end == o.vblank_end && self.region == o.region
    }

    /// Same background fetch latch, shift registers and tile palettes.
    pub open spec fn background_eq(&self, o: &Ppu) -> bool {
        &&& self.tile == o.tile && self.fine_x == o.fine_x
        &&& self.low_bit_shift == o.low_bit_shift && self.high_bit_shift == o.high_bit_shift
        &&& self.current_tile_palette == o.current_tile_palette && self.previous_tile_palette == o.previous_tile_palette
    }

    /// Same sprite evaluation and sprite fetch state, OAMADDR excepted.
    pub open spec fn sprites_eq(&self, o: &Ppu) -> bool {
        &&& self.sprite_tiles == o.sprite_tiles && self.sprite_count == o.sprite_count
        &&& self.has_sprite == o.has_sprite && self.sprite0_visible == o.sprite0_visible
        &&& self.sprite0_added == o.sprite0_added && self.secondary_oam_addr == o.secondary_oam_addr
        &&& self.oam_copy_buffer == o.oam_copy_buffer && self.sprite_in_range == o.sprite_in_range
        &&& self.overflow_bug_counter == o.overflow_bug_counter && self.oam_copy_done == o.oam_copy_done
        &&& self.sprite_index == o.sprite_index
        &&& self.first_visible_sprite_addr == o.first_visible_sprite_addr
        &&& self.last_visible_sprite_addr == o.last_visible_sprite_addr
    }

    /// Same frame buffer and output settings.
    pub open spec fn output_eq(&self, o: &Ppu) -> bool {
        &&& self.output_buffer == o.output_buffer && self.last_updated_pixel == o.last_updated_pixel
        &&& self.palette_ram_mask == o.palette_ram_mask && self.intensify_color_bits == o.intensify_color_bits
        &&& self.minimum_draw_bg_cycle == o.minimum_draw_bg_cycle
        &&& self.minimum_draw_sprite_cycle == o.minimum_draw_sprite_cycle
        &&& self.minimum_draw_sprite_standard_cycle == o.minimum_draw_sprite_standard_cycle
        &&& self.render_enabled == o.render_enabled && self.remove_sprite_limit == o.remove_sprite_limit
    }

    /// Same control, mask and status registers, OAMADDR with its evaluation
    /// split, write latch and rendering-enable latches.
    pub open spec fn regs_eq(&self, o: &Ppu) -> bool {
        &&& self.ctrl == o.ctrl && self.mask == o.mask && self.status == o.status
        &&& self.oam_addr == o.oam_addr && self.write_latch == o.write_latch
        &&& self.sprite_addr_h == o.sprite_addr_h && self.sprite_addr_l == o.sprite_addr_l
        &&& self.rendering_enabled == o.rendering_enabled && self.prev_rendering_enabled == o.prev_rendering_enabled
    }

    /// State that power-on and `reset` both establish.
    pub open spec fn power_on_core(&self) -> bool {
        &&& self.ctrl == 0 && self.mask == 0 && self.status == 0
        &&& self.oam_addr == 0 && self.ppu_spl == 0
        &&& self.oam@ == filled(256, 0xffu8)
        &&& self.vram_addr == 0 && self.temp_addr == 0 && self.fine_x == 0
        &&& !self.write_latch && self.data_buffer == 0 && self.io_latch == 0
        &&& self.ppu_open_bus == 0
        &&& self.ppu_open_bus_decay_stamp@ == filled(8, 0u32)
        &&& self.nametable@ == filled(0x1000, 0xffu8)
        &&& self.palette@ == boot_palette()
        &&& self.upper_palette_aliases@ == filled(3, 0u8)
        &&& self.odd_frame_toggle == 0
        &&& self.master_clock == 0
        &&& self.scanline == -1 && self.cycle == 340 && self.frame_count == 1
        &&& self.tile == (TileInfo { low_byte: 0, high_byte: 0, palette_offset: 0, tile_addr: 0 })
        &&& self.sprite_tiles@ == filled(64, empty_sprite())
        &&& self.sprite_count == 0
        &&& self.has_sprite@ == filled(257, false)
        &&& !self.sprite0_visible && !self.sprite0_added
        &&& self.sprite0_hit_first_set_clock == 0
        &&& self.sprite0_hit_debug == empty_hit_debug()
        &&& self.low_bit_shift == 0 && self.high_bit_shift == 0
        &&& self.ppu_bus_address == 0
        &&& !self.prevent_vbl_flag && !self.rendering_enabled && !self.prev_rendering_enabled
        &&& !self.need_state_update
        &&& self.secondary_sprite_ram@ == filled(32, 0xffu8)
        &&& self.secondary_oam_addr == 0 && self.oam_copy_buffer == 0
        &&& !self.sprite_in_range && self.sprite_addr_h == 0 && self.sprite_addr_l == 0
        &&& self.overflow_bug_counter == 0 && !self.oam_copy_done
        &&& self.sprite_index == 0
        &&& self.current_tile_palette == 0 && self.previous_tile_palette == 0
        &&& self.minimum_draw_bg_cycle == 0 && self.minimum_draw_sprite_cycle == 0
        &&& self.minimum_draw_sprite_standard_cycle == 0
        &&& self.output_buffer@ == filled(FRAME_PIXELS as nat, 0u16)
        &&& self.last_updated_pixel == -1
        &&& self.palette_ram_mask == 0x3f && self.intensify_color_bits == 0
        &&& self.update_vram_addr_delay == 0 && self.update_vram_addr == 0
        &&& !self.need_video_ram_increment && self.ignore_vram_read == 0
    }

    /// The settings and diagnostics that `reset` leaves alone.
    pub open spec fn same_settings(&self, other: &Ppu) -> bool {
        &&& self.master_clock_divider == other.master_clock_divider
        &&& self.mapper_cpu_cycle_count == other.mapper_cpu_cycle_count
        &&& self.nmi_scanline == other.nmi_scanline
        &&& self.vblank_end == other.vblank_end
        &&& self.region == other.region
        &&& self.capture_target_scanline == other.capture_target_scanline
        &&& self.capture_target_cycle == other.capture_target_cycle
        &&& self.capture_valid == other.capture_valid
        &&& self.captured_low_shift == other.captured_low_shift
        &&& self.captured_high_shift == other.captured_high_shift
        &&& self.captured_mask == other.captured_mask
        &&& self.captured_prev_rendering == other.captured_prev_rendering
        &&& self.captured_rendering == other.captured_rendering
        &&& self.captured_vram_addr == other.captured_vram_addr
        &&& self.captured_sprite_count == other.captured_sprite_count
        &&& self.captured_tile_addr == other.captured_tile_addr
        &&& self.captured_tile_low_byte == other.captured_tile_low_byte
        &&& self.captured_tile_high_byte == other.captured_tile_high_byte
        &&& self.captured_tile_palette_offset == other.captured_tile_palette_offset
        &&& self.captured_oam_addr == other.captured_oam_addr
        &&& self.captured_pri_oam0 == other.captured_pri_oam0
        &&& self.captured_st0_x == other.captured_st0_x
        &&& self.captured_st0_low == other.captured_st0_low
        &&& self.captured_st0_high == other.captured_st0_high
        &&& self.captured_sprite0_visible == other.captured_sprite0_visible
        &&& self.captured_has_sprite_dot == other.captured_has_sprite_dot
        &&& self.captured_sec_oam0 == other.captured_sec_oam0
        &&& self.pending_input_commit == other.pending_input_commit
        &&& self.last_visible_sprite_addr == other.last_visible_sprite_addr
        &&& self.first_visible_sprite_addr == other.first_visible_sprite_addr
        &&& self.remove_sprite_limit == other.remove_sprite_limit
        &&& self.render_enabled == other.render_enabled
    }
}

impl Default for Ppu {
    /// A powered-on NTSC PPU whose first dot lands on scanline 0, cycle 0.
    fn default() -> (r: Self)
        ensures
            r.power_on_core(),
            r.wf(),
            r.master_clock_divider == 4,
            r.mapper_cpu_cycle_count == 0,
            r.nmi_scanline == 241,
            r.vblank_end == 260,
            r.region == Region::Ntsc,
            r.capture_target_scanline == -2,
            r.capture_target_cycle == 0,
            r.capture_valid == 0,
            !r.pending_input_commit,
            r.last_visible_sprite_addr == 0,
            r.first_visible_sprite_addr == 0,
            !r.remove_sprite_limit,
            r.render_enabled,
    {
        let r = Ppu {
            ctrl: 0,
            mask: 0,
            status: 0,
            oam_addr: 0,
            ppu_spl: 0,
            oam: [0xff; 256],
            vram_addr: 0,
            temp_addr: 0,
            fine_x: 0,
            write_latch: false,
            data_buffer: 0,
            io_latch: 0,
            ppu_open_bus: 0,
            ppu_open_bus_decay_stamp: [0; 8],
            nametable: [0xff; 0x1000],
            palette: palette_ram_boot_values(),
            upper_palette_aliases: [0; 3],
            odd_frame_toggle: 0,
            pending_input_commit: false,
            master_clock: 0,
            master_clock_divider: 4,
            mapper_cpu_cycle_count: 0,
            scanline: -1,
            cycle: 340,
            frame_count: 1,
            nmi_scanline: 241,
            vblank_end: 260,
            region: Region::Ntsc,
            tile: TileInfo::default(),
            sprite_tiles: [NesSpriteInfo::default(); 64],
            sprite_count: 0,
            has_sprite: [false; 257],
            sprite0_visible: false,
            sprite0_added: false,
            sprite0_hit_first_set_clock: 0,
            sprite0_hit_debug: Sprite0HitDebugSnapshot::default(),
            capture_target_scanline: -2,
            capture_target_cycle: 0,
            capture_valid: 0,
            captured_low_shift: 0,
            captured_high_shift: 0,
            captured_mask: 0,
            captured_prev_rendering: 0,
            captured_rendering: 0,
            captured_vram_addr: 0,
            captured_sprite_count: 0,
            captured_tile_addr: 0,
            captured_tile_low_byte: 0,
            captured_tile_high_byte: 0,
            captured_tile_palette_offset: 0,
            captured_oam_addr: 0,
            captured_pri_oam0: [0; 4],
            captured_st0_x: 0,
            captured_st0_low: 0,
            captured_st0_high: 0,
            captured_sprite0_visible: 0,
            captured_has_sprite_dot: 0,
            captured_sec_oam0: [0; 4],
            low_bit_shift: 0,
            high_bit_shift: 0,
            ppu_bus_address: 0,
            prevent_vbl_flag: false,
            rendering_enabled: false,
            prev_rendering_enabled: false,
            need_state_update: false,
            secondary_sprite_ram: [0xff; 32],
            secondary_oam_addr: 0,
            oam_copy_buffer: 0,
            sprite_in_range: false,
            sprite_addr_h: 0,
            sprite_addr_l: 0,
            last_visible_sprite_addr: 0,
            first_visible_sprite_addr: 0,
            remove_sprite_limit: false,
            render_enabled: true,
            overflow_bug_counter: 0,
            oam_copy_done: false,
            sprite_index: 0,
            current_tile_palette: 0,
            previous_tile_palette: 0,
            minimum_draw_bg_cycle: 0,
            minimum_draw_sprite_cycle: 0,
            minimum_draw_sprite_standard_cycle: 0,
            output_buffer: vec![0u16; FRAME_PIXELS],
            last_updated_pixel: -1,
            palette_ram_mask: 0x3f,
            intensify_color_bits: 0,
            update_vram_addr_delay: 0,
            update_vram_addr: 0,
            need_video_ram_increment: false,
            ignore_vram_read: 0,
        };
        assert(r.oam@ =~= filled(256, 0xffu8));
        assert(r.ppu_open_bus_decay_stamp@ =~= filled(8, 0u32));
        assert(r.nametable@ =~= filled(0x1000, 0xffu8));
        assert(r.upper_palette_aliases@ =~= filled(3, 0u8));
        assert(r.sprite_tiles@ =~= filled(64, empty_sprite()));
        assert(r.has_sprite@ =~= filled(257, false));
        assert(r.secondary_sprite_ram@ =~= filled(32, 0xffu8));
        assert(r.output_buffer@ =~= filled(FRAME_PIXELS as nat, 0u16));
        r
    }
}

} // verus!
