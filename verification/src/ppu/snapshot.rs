//! PPU save state: a fixed-layout little-endian byte image of the
//! registers, memories and pipeline state.
use vstd::prelude::*;
use crate::bytes::{fill_from, lemma_part_range, lemma_u16_at_bytes, lemma_u32_at_bytes, lemma_u64_at_bytes, push_array, push_u16, push_u32, push_u64, read_u16, read_u32, read_u64, u16_at, u16_bytes, u32_at, u32_bytes, u64_at, u64_bytes};
use crate::cartridge::Region;
use crate::common::error::{state_error_with, usize_to_decimal, NesleError, Result};
use crate::input::b2u;
use super::registers::color_masks;
use super::{filled, NesSpriteInfo, Ppu, TileInfo};

verus! {

/// Length of a PPU snapshot in bytes.
pub const PPU_SNAPSHOT_LEN: usize = 5183;

/// Snapshot byte of a region: 0 NTSC, 1 PAL, 2 Dendy.
pub open spec fn region_tag(r: Region) -> u8 {
    match r {
        Region::Ntsc => 0,
        Region::Pal => 1,
        Region::Dendy => 2,
    }
}

/// Region of a snapshot byte; unknown bytes read as NTSC.
pub open spec fn region_of_tag(t: u8) -> Region {
    if t == 1 {
        Region::Pal
    } else if t == 2 {
        Region::Dendy
    } else {
        Region::Ntsc
    }
}

/// The six snapshot bytes of one fetched sprite.
pub open spec fn sprite_bytes(s: NesSpriteInfo) -> Seq<u8> {
    seq![s.sprite_x, s.low_byte, s.high_byte, s.palette_offset, b2u(s.horizontal_mirror), b2u(s.background_priority)]
}

/// The snapshot bytes of the 64 fetched sprites.
pub open spec fn sprites_bytes(t: Seq<NesSpriteInfo>) -> Seq<u8> {
    Seq::new(384, |i: int| sprite_bytes(t[i / 6])[i % 6])
}

/// One byte per sprite-coverage flag.
pub open spec fn flags_bytes(f: Seq<bool>) -> Seq<u8> {
    Seq::new(f.len(), |i: int| b2u(f[i]))
}

/// The open-bus decay stamps, four bytes each.
pub open spec fn stamps_bytes(s: Seq<u32>) -> Seq<u8> {
    Seq::new(32, |i: int| u32_bytes(s[i / 4])[i % 4])
}

impl Ppu {
    /// Registers, OAM and scroll state (268 bytes).
    pub open spec fn snap_head(&self) -> Seq<u8> {
        seq![self.ctrl, self.mask, self.status, self.oam_addr] + self.oam@ + u16_bytes(self.vram_addr)
            + u16_bytes(self.temp_addr) + seq![self.fine_x, b2u(self.write_latch), self.data_buffer, self.io_latch]
    }

    /// Palette, clocks, beam position, region and the BG fetch latch (72 bytes).
    pub open spec fn snap_timing(&self) -> Seq<u8> {
        self.palette@ + self.upper_palette_aliases@ + seq![self.odd_frame_toggle, self.ppu_spl]
            + u64_bytes(self.master_clock) + seq![self.master_clock_divider] + u64_bytes(self.mapper_cpu_cycle_count)
            + u16_bytes(self.scanline as u16) + u16_bytes(self.cycle) + u32_bytes(self.frame_count)
            + u16_bytes(self.nmi_scanline) + u16_bytes(self.vblank_end) + seq![region_tag(self.region)]
            + seq![self.tile.low_byte, self.tile.high_byte, self.tile.palette_offset] + u16_bytes(self.tile.tile_addr)
    }

    /// Sprite count, coverage flags and sprite-0 flags (260 bytes).
    pub open spec fn snap_coverage(&self) -> Seq<u8> {
        seq![self.sprite_count] + flags_bytes(self.has_sprite@) + seq![b2u(self.sprite0_visible), b2u(self.sprite0_added)]
    }

    /// Shift registers, bus, latches and sprite-evaluation state (50 bytes).
    pub open spec fn snap_eval(&self) -> Seq<u8> {
        u16_bytes(self.low_bit_shift) + u16_bytes(self.high_bit_shift) + u16_bytes(self.ppu_bus_address)
            + seq![
            b2u(self.prevent_vbl_flag),
            b2u(self.rendering_enabled),
            b2u(self.prev_rendering_enabled),
            b2u(self.need_state_update),
        ] + self.secondary_sprite_ram@ + seq![
            self.secondary_oam_addr,
            self.oam_copy_buffer,
            b2u(self.sprite_in_range),
            self.sprite_addr_h,
            self.sprite_addr_l,
            self.overflow_bug_counter,
            b2u(self.oam_copy_done),
            self.last_visible_sprite_addr,
        ]
    }

    /// Sprite index, tile palettes, draw thresholds, the deferred register
    /// effects and the open bus (53 bytes).
    pub open spec fn snap_deferred(&self) -> Seq<u8> {
        u32_bytes(self.sprite_index) + seq![self.current_tile_palette, self.previous_tile_palette]
            + u16_bytes(self.minimum_draw_bg_cycle) + u16_bytes(self.minimum_draw_sprite_cycle)
            + u16_bytes(self.minimum_draw_sprite_standard_cycle) + seq![self.update_vram_addr_delay]
            + u16_bytes(self.update_vram_addr) + seq![b2u(self.need_video_ram_increment)]
            + u32_bytes(self.ignore_vram_read) + seq![self.ppu_open_bus]
            + stamps_bytes(self.ppu_open_bus_decay_stamp@)
    }

    /// Everything after the sprite-coverage flags (103 bytes).
    pub open spec fn snap_tail(&self) -> Seq<u8> {
        self.snap_eval() + self.snap_deferred()
    }

    /// The whole snapshot image.
    pub open spec fn snapshot_spec(&self) -> Seq<u8> {
        self.snap_head() + self.nametable@ + self.snap_timing() + sprites_bytes(self.sprite_tiles@)
            + self.snap_coverage() + self.snap_tail()
    }
}

/// Append the 64 fetched sprites.
pub fn push_sprites(bytes: &mut Vec<u8>, tiles: &[NesSpriteInfo; 64])
    ensures
        final(bytes)@ == old(bytes)@ + sprites_bytes(tiles@),
{
    let ghost start = bytes@;
    let mut i: usize = 0;
    while i < 64
        invariant
            i <= 64,
            bytes@.len() == start.len() + i * 6,
            forall|k: int| 0 <= k < start.len() ==> bytes@[k] == start[k],
            forall|k: int| 0 <= k < i * 6 ==> bytes@[start.len() + k] == sprites_bytes(tiles@)[k],
        decreases 64 - i,
    {
        let s = tiles[i];
        bytes.push(s.sprite_x);
        bytes.push(s.low_byte);
        bytes.push(s.high_byte);
        bytes.push(s.palette_offset);
        bytes.push(if s.horizontal_mirror { 1u8 } else { 0u8 });
        bytes.push(if s.background_priority { 1u8 } else { 0u8 });
        assert forall|k: int| i * 6 <= k < (i + 1) * 6 implies bytes@[start.len() + k] == sprites_bytes(tiles@)[k] by {
            assert(k / 6 == i as int);
            assert(k % 6 == k - i * 6);
        }
        i += 1;
    }
    assert(bytes@ =~= start + sprites_bytes(tiles@));
}

/// Append one byte per flag.
pub fn push_flags(bytes: &mut Vec<u8>, flags: &[bool; 257])
    ensures
        final(bytes)@ == old(bytes)@ + flags_bytes(flags@),
{
    let ghost start = bytes@;
    let mut i: usize = 0;
    while i < 257
        invariant
            i <= 257,
            bytes@ == start + flags_bytes(flags@).subrange(0, i as int),
        decreases 257 - i,
    {
        bytes.push(if flags[i] { 1u8 } else { 0u8 });
        i += 1;
        assert(bytes@ =~= start + flags_bytes(flags@).subrange(0, i as int));
    }
    assert(flags_bytes(flags@).subrange(0, 257) =~= flags_bytes(flags@));
}

/// Append the eight decay stamps.
pub fn push_stamps(bytes: &mut Vec<u8>, stamps: &[u32; 8])
    ensures
        final(bytes)@ == old(bytes)@ + stamps_bytes(stamps@),
{
    let ghost start = bytes@;
    let mut i: usize = 0;
    while i < 8
        invariant
            i <= 8,
            bytes@ == start + stamps_bytes(stamps@).subrange(0, i * 4),
        decreases 8 - i,
    {
        let ghost before = bytes@;
        push_u32(bytes, stamps[i]);
        assert forall|k: int| i * 4 <= k < (i + 1) * 4 implies stamps_bytes(stamps@)[k] == u32_bytes(stamps@[i as int])[k - i * 4] by {
            assert(k / 4 == i as int);
            assert(k % 4 == k - i * 4);
        }
        i += 1;
        assert(bytes@ =~= start + stamps_bytes(stamps@).subrange(0, i * 4));
    }
    assert(stamps_bytes(stamps@).subrange(0, 32) =~= stamps_bytes(stamps@));
}

impl Ppu {
    /// Serialize the PPU state (everything but the frame buffer, the capture
    /// diagnostics and the derived output masks).
    pub fn snapshot_bytes(&self) -> (r: Vec<u8>)
        ensures
            r@ == self.snapshot_spec(),
            r@.len() == PPU_SNAPSHOT_LEN,
    {
        let mut bytes: Vec<u8> = Vec::with_capacity(PPU_SNAPSHOT_LEN);
        self.push_head(&mut bytes);
        push_array(&mut bytes, &self.nametable);
        self.push_timing(&mut bytes);
        push_sprites(&mut bytes, &self.sprite_tiles);
        bytes.push(self.sprite_count);
        push_flags(&mut bytes, &self.has_sprite);
        bytes.push(if self.sprite0_visible { 1u8 } else { 0u8 });
        bytes.push(if self.sprite0_added { 1u8 } else { 0u8 });
        self.push_tail(&mut bytes);
        assert(bytes@ =~= self.snapshot_spec());
        bytes
    }

    fn push_head(&self, bytes: &mut Vec<u8>)
        ensures
            final(bytes)@ == old(bytes)@ + self.snap_head(),
    {
        let ghost start = bytes@;
        bytes.push(self.ctrl);
        bytes.push(self.mask);
        bytes.push(self.status);
        bytes.push(self.oam_addr);
        push_array(bytes, &self.oam);
        push_u16(bytes, self.vram_addr);
        push_u16(bytes, self.temp_addr);
        bytes.push(self.fine_x);
        bytes.push(if self.write_latch { 1u8 } else { 0u8 });
        bytes.push(self.data_buffer);
        bytes.push(self.io_latch);
        assert(bytes@ =~= start + self.snap_head());
    }

    fn push_timing(&self, bytes: &mut Vec<u8>)
        ensures
            final(bytes)@ == old(bytes)@ + self.snap_timing(),
    {
        let ghost start = bytes@;
        push_array(bytes, &self.palette);
        push_array(bytes, &self.upper_palette_aliases);
        bytes.push(self.odd_frame_toggle);
        bytes.push(self.ppu_spl);
        push_u64(bytes, self.master_clock);
        bytes.push(self.master_clock_divider);
        push_u64(bytes, self.mapper_cpu_cycle_count);
        push_u16(bytes, self.scanline as u16);
        push_u16(bytes, self.cycle);
        push_u32(bytes, self.frame_count);
        push_u16(bytes, self.nmi_scanline);
        push_u16(bytes, self.vblank_end);
        bytes.push(match self.region {
            Region::Ntsc => 0u8,
            Region::Pal => 1u8,
            Region::Dendy => 2u8,
        });
        bytes.push(self.tile.low_byte);
        bytes.push(self.tile.high_byte);
        bytes.push(self.tile.palette_offset);
        push_u16(bytes, self.tile.tile_addr);
        assert(bytes@ =~= start + self.snap_timing());
    }

    fn push_tail(&self, bytes: &mut Vec<u8>)
        ensures
            final(bytes)@ == old(bytes)@ + self.snap_tail(),
    {
        let ghost start = bytes@;
        self.push_eval(bytes);
        self.push_deferred(bytes);
        assert(bytes@ =~= start + self.snap_tail());
    }

    #[verifier::spinoff_prover]
    #[verifier::rlimit(100)]
    fn push_eval(&self, bytes: &mut Vec<u8>)
        ensures
            final(bytes)@ == old(bytes)@ + self.snap_eval(),
    {
        let ghost start = bytes@;
        push_u16(bytes, self.low_bit_shift);
        push_u16(bytes, self.high_bit_shift);
        push_u16(bytes, self.ppu_bus_address);
        bytes.push(if self.prevent_vbl_flag { 1u8 } else { 0u8 });
        bytes.push(if self.rendering_enabled { 1u8 } else { 0u8 });
        bytes.push(if self.prev_rendering_enabled { 1u8 } else { 0u8 });
        bytes.push(if self.need_state_update { 1u8 } else { 0u8 });
        push_array(bytes, &self.secondary_sprite_ram);
        bytes.push(self.secondary_oam_addr);
        bytes.push(self.oam_copy_buffer);
        bytes.push(if self.sprite_in_range { 1u8 } else { 0u8 });
        bytes.push(self.sprite_addr_h);
        bytes.push(self.sprite_addr_l);
        bytes.push(self.overflow_bug_counter);
        bytes.push(if self.oam_copy_done { 1u8 } else { 0u8 });
        bytes.push(self.last_visible_sprite_addr);
        assert(bytes@ =~= start + self.snap_eval());
    }

    #[verifier::spinoff_prover]
    #[verifier::rlimit(100)]
    fn push_deferred(&self, bytes: &mut Vec<u8>)
        ensures
            final(bytes)@ == old(bytes)@ + self.snap_deferred(),
    {
        let ghost start = bytes@;
        push_u32(bytes, self.sprite_index);
        bytes.push(self.current_tile_palette);
        bytes.push(self.previous_tile_palette);
        push_u16(bytes, self.minimum_draw_bg_cycle);
        push_u16(bytes, self.minimum_draw_sprite_cycle);
        push_u16(bytes, self.minimum_draw_sprite_standard_cycle);
        bytes.push(self.update_vram_addr_delay);
        push_u16(bytes, self.update_vram_addr);
        bytes.push(if self.need_video_ram_increment { 1u8 } else { 0u8 });
        push_u32(bytes, self.ignore_vram_read);
        bytes.push(self.ppu_open_bus);
        push_stamps(bytes, &self.ppu_open_bus_decay_stamp);
        assert(bytes@ =~= start + self.snap_deferred());
    }
}

/// The sprite stored at `b[o..o + 6]`.
pub open spec fn sprite_at(b: Seq<u8>, o: int) -> NesSpriteInfo {
    NesSpriteInfo {
        sprite_x: b[o],
        low_byte: b[o + 1],
        high_byte: b[o + 2],
        palette_offset: b[o + 3],
        horizontal_mirror: b[o + 4] != 0,
        background_priority: b[o + 5] != 0,
    }
}

/// Read the 64 fetched sprites stored from `off` on.
fn read_sprites(b: &[u8], off: usize) -> (r: [NesSpriteInfo; 64])
    requires
        off + 384 <= b.len(),
    ensures
        forall|i: int| 0 <= i < 64 ==> #[trigger] r@[i] == sprite_at(b@, off + 6 * i),
{
    let mut t = [NesSpriteInfo {
        sprite_x: 0,
        low_byte: 0,
        high_byte: 0,
        palette_offset: 0,
        horizontal_mirror: false,
        background_priority: false,
    }; 64];
    let mut i: usize = 0;
    while i < 64
        invariant
            i <= 64,
            off + 384 <= b.len(),
            t@.len() == 64,
            forall|k: int| 0 <= k < i ==> #[trigger] t@[k] == sprite_at(b@, off + 6 * k),
        decreases 64 - i,
    {
        let o = off + 6 * i;
        t[i] = NesSpriteInfo {
            sprite_x: b[o],
            low_byte: b[o + 1],
            high_byte: b[o + 2],
            palette_offset: b[o + 3],
            horizontal_mirror: b[o + 4] != 0,
            background_priority: b[o + 5] != 0,
        };
        i += 1;
    }
    t
}

/// Read the 257 sprite-coverage flags stored from `off` on.
fn read_flags(b: &[u8], off: usize) -> (r: [bool; 257])
    requires
        off + 257 <= b.len(),
    ensures
        forall|i: int| 0 <= i < 257 ==> #[trigger] r@[i] == (b@[off + i] != 0),
{
    let mut f = [false; 257];
    let mut i: usize = 0;
    while i < 257
        invariant
            i <= 257,
            off + 257 <= b.len(),
            f@.len() == 257,
            forall|k: int| 0 <= k < i ==> #[trigger] f@[k] == (b@[off + k] != 0),
        decreases 257 - i,
    {
        f[i] = b[off + i] != 0;
        i += 1;
    }
    f
}

/// Read the eight decay stamps stored from `off` on.
fn read_stamps(b: &[u8], off: usize) -> (r: [u32; 8])
    requires
        off + 32 <= b.len(),
    ensures
        forall|i: int| 0 <= i < 8 ==> #[trigger] r@[i] == u32_at(b@, off + 4 * i),
{
    let mut s = [0u32; 8];
    let mut i: usize = 0;
    while i < 8
        invariant
            i <= 8,
            off + 32 <= b.len(),
            s@.len() == 8,
            forall|k: int| 0 <= k < i ==> #[trigger] s@[k] == u32_at(b@, off + 4 * k),
        decreases 8 - i,
    {
        s[i] = read_u32(b, off + 4 * i);
        i += 1;
    }
    s
}

impl Ppu {
    /// Registers, OAM, scroll state and nametable RAM as a snapshot image
    /// holds them.
    pub open spec fn decoded_head(&self, b: Seq<u8>) -> bool {
        &&& self.ctrl == b[0] && self.mask == b[1] && self.status == b[2] && self.oam_addr == b[3]
        &&& self.oam@ == b.subrange(4, 260)
        &&& self.vram_addr == u16_at(b, 260) && self.temp_addr == u16_at(b, 262)
        &&& self.fine_x == b[264] && self.write_latch == (b[265] != 0)
        &&& self.data_buffer == b[266] && self.io_latch == b[267]
        &&& self.nametable@ == b.subrange(268, 4364)
    }

    /// Palette, clocks, beam position, region and BG fetch latch as a
    /// snapshot image holds them.
    pub open spec fn decoded_timing(&self, b: Seq<u8>) -> bool {
        &&& self.palette@ == b.subrange(4364, 4396)
        &&& self.upper_palette_aliases@ == b.subrange(4396, 4399)
        &&& self.odd_frame_toggle == b[4399] && self.ppu_spl == b[4400]
        &&& self.master_clock == u64_at(b, 4401) && self.master_clock_divider == b[4409]
        &&& self.mapper_cpu_cycle_count == u64_at(b, 4410)
        &&& self.scanline == u16_at(b, 4418) as i16 && self.cycle == u16_at(b, 4420)
        &&& self.frame_count == u32_at(b, 4422)
        &&& self.nmi_scanline == u16_at(b, 4426) && self.vblank_end == u16_at(b, 4428)
        &&& self.region == region_of_tag(b[4430])
        &&& self.tile == (TileInfo {
            low_byte: b[4431],
            high_byte: b[4432],
            palette_offset: b[4433],
            tile_addr: u16_at(b, 4434),
        })
    }

    /// Fetched sprites, their count and the sprite-0 flags as a snapshot
    /// image holds them.
    pub open spec fn decoded_sprites(&self, b: Seq<u8>) -> bool {
        &&& forall|i: int| 0 <= i < 64 ==> #[trigger] self.sprite_tiles@[i] == sprite_at(b, 4436 + 6 * i)
        &&& self.sprite_count == b[4820]
        &&& self.sprite0_visible == (b[5078] != 0) && self.sprite0_added == (b[5079] != 0)
    }

    /// The sprite-coverage flags as a snapshot image holds them.
    pub open spec fn decoded_coverage(&self, b: Seq<u8>) -> bool {
        forall|i: int| 0 <= i < 257 ==> #[trigger] self.has_sprite@[i] == (b[4821 + i] != 0)
    }

    /// Shift registers, evaluation state, deferred effects and open bus as
    /// a snapshot image holds them.
    pub open spec fn decoded_tail(&self, b: Seq<u8>) -> bool {
        &&& self.low_bit_shift == u16_at(b, 5080) && self.high_bit_shift == u16_at(b, 5082)
        &&& self.ppu_bus_address == u16_at(b, 5084)
        &&& self.prevent_vbl_flag == (b[5086] != 0) && self.rendering_enabled == (b[5087] != 0)
        &&& self.prev_rendering_enabled == (b[5088] != 0) && self.need_state_update == (b[5089] != 0)
        &&& self.secondary_sprite_ram@ == b.subrange(5090, 5122)
        &&& self.secondary_oam_addr == b[5122] && self.oam_copy_buffer == b[5123]
        &&& self.sprite_in_range == (b[5124] != 0) && self.sprite_addr_h == b[5125]
        &&& self.sprite_addr_l == b[5126] && self.overflow_bug_counter == b[5127]
        &&& self.oam_copy_done == (b[5128] != 0) && self.last_visible_sprite_addr == b[5129]
        &&& self.sprite_index == u32_at(b, 5130)
        &&& self.current_tile_palette == b[5134] && self.previous_tile_palette == b[5135]
        &&& self.minimum_draw_bg_cycle == u16_at(b, 5136) && self.minimum_draw_sprite_cycle == u16_at(b, 5138)
        &&& self.minimum_draw_sprite_standard_cycle == u16_at(b, 5140)
        &&& self.update_vram_addr_delay == b[5142] && self.update_vram_addr == u16_at(b, 5143)
        &&& self.need_video_ram_increment == (b[5145] != 0) && self.ignore_vram_read == u32_at(b, 5146)
        &&& self.ppu_open_bus == b[5150]
        &&& forall|i: int| 0 <= i < 8 ==> #[trigger] self.ppu_open_bus_decay_stamp@[i] == u32_at(b, 5151 + 4 * i)
    }

    /// The state a snapshot does not carry: diagnostics, output options,
    /// the frame buffer and the input-commit trigger.
    pub open spec fn unsnapshotted_eq(&self, o: &Ppu) -> bool {
        &&& self.output_buffer == o.output_buffer && self.render_enabled == o.render_enabled
        &&& self.remove_sprite_limit == o.remove_sprite_limit
        &&& self.first_visible_sprite_addr == o.first_visible_sprite_addr
        &&& self.pending_input_commit == o.pending_input_commit
        &&& self.sprite0_hit_first_set_clock == o.sprite0_hit_first_set_clock
        &&& self.sprite0_hit_debug == o.sprite0_hit_debug
        &&& self.capture_target_scanline == o.capture_target_scanline
        &&& self.capture_target_cycle == o.capture_target_cycle
        &&& self.capture_valid == o.capture_valid
        &&& self.captured_low_shift == o.captured_low_shift
        &&& self.captured_high_shift == o.captured_high_shift
        &&& self.captured_mask == o.captured_mask
        &&& self.captured_prev_rendering == o.captured_prev_rendering
        &&& self.captured_rendering == o.captured_rendering
        &&& self.captured_vram_addr == o.captured_vram_addr
        &&& self.captured_sprite_count == o.captured_sprite_count
        &&& self.captured_tile_addr == o.captured_tile_addr
        &&& self.captured_tile_low_byte == o.captured_tile_low_byte
        &&& self.captured_tile_high_byte == o.captured_tile_high_byte
        &&& self.captured_tile_palette_offset == o.captured_tile_palette_offset
        &&& self.captured_oam_addr == o.captured_oam_addr
        &&& self.captured_pri_oam0 == o.captured_pri_oam0
        &&& self.captured_st0_x == o.captured_st0_x
        &&& self.captured_st0_low == o.captured_st0_low
        &&& self.captured_st0_high == o.captured_st0_high
        &&& self.captured_sprite0_visible == o.captured_sprite0_visible
        &&& self.captured_has_sprite_dot == o.captured_has_sprite_dot
        &&& self.captured_sec_oam0 == o.captured_sec_oam0
    }

    /// Load a snapshot image. Every field the image carries is read back
    /// (booleans as "byte is non-zero", unknown region bytes as NTSC), the
    /// output masks are recomputed from the restored `$2001` and region, and
    /// the colour-emphasis catch-up starts over. An image longer than
    /// `PPU_SNAPSHOT_LEN` is refused after those reads, leaving the coverage
    /// flags as read; an accepted one marks every sprite column as covered
    /// until the next evaluation.
    #[verifier::spinoff_prover]
    #[verifier::rlimit(100)]
    pub fn restore_snapshot(&mut self, bytes: &[u8]) -> (r: Result<()>)
        requires
            bytes@.len() >= PPU_SNAPSHOT_LEN,
        ensures
            final(self).decoded_head(bytes@),
            final(self).decoded_timing(bytes@),
            final(self).decoded_sprites(bytes@),
            final(self).decoded_tail(bytes@),
            final(self).unsnapshotted_eq(old(self)),
            final(self).last_updated_pixel == -1,
            (final(self).palette_ram_mask, final(self).intensify_color_bits) == color_masks(
                final(self).mask,
                final(self).region,
            ),
            r is Ok <==> bytes@.len() == PPU_SNAPSHOT_LEN,
            r is Ok ==> final(self).has_sprite@ == filled(257, true),
            r is Err ==> final(self).decoded_coverage(bytes@) && r matches Err(NesleError::InvalidState(_)),
    {
        self.restore_head(bytes);
        self.restore_timing(bytes);
        self.restore_sprites(bytes);
        self.restore_tail(bytes);
        self.last_updated_pixel = -1;
        self.update_color_bit_masks();
        if bytes.len() != PPU_SNAPSHOT_LEN {
            return Err(
                state_error_with(
                    "PPU snapshot trailing length mismatch: parsed 5183 bytes, got ",
                    usize_to_decimal(bytes.len()).as_str(),
                ),
            );
        }
        self.has_sprite = [true; 257];
        proof {
            assert(self.has_sprite@ =~= filled(257, true));
        }
        Ok(())
    }

    #[verifier::spinoff_prover]
    #[verifier::rlimit(100)]
    fn restore_head(&mut self, b: &[u8])
        requires
            b@.len() >= PPU_SNAPSHOT_LEN,
        ensures
            final(self).decoded_head(b@),
            *final(self) == (Ppu {
                ctrl: final(self).ctrl,
                mask: final(self).mask,
                status: final(self).status,
                oam_addr: final(self).oam_addr,
                oam: final(self).oam,
                vram_addr: final(self).vram_addr,
                temp_addr: final(self).temp_addr,
                fine_x: final(self).fine_x,
                write_latch: final(self).write_latch,
                data_buffer: final(self).data_buffer,
                io_latch: final(self).io_latch,
                nametable: final(self).nametable,
                ..*old(self)
            }),
    {
        let mut oam = [0u8; 256];
        fill_from(&mut oam, b, 4);
        let mut nametable = [0u8; 0x1000];
        fill_from(&mut nametable, b, 268);
        self.ctrl = b[0];
        self.mask = b[1];
        self.status = b[2];
        self.oam_addr = b[3];
        self.oam = oam;
        self.vram_addr = read_u16(b, 260);
        self.temp_addr = read_u16(b, 262);
        self.fine_x = b[264];
        self.write_latch = b[265] != 0;
        self.data_buffer = b[266];
        self.io_latch = b[267];
        self.nametable = nametable;
    }

    #[verifier::spinoff_prover]
    #[verifier::rlimit(100)]
    fn restore_timing(&mut self, b: &[u8])
        requires
            b@.len() >= PPU_SNAPSHOT_LEN,
        ensures
            final(self).decoded_timing(b@),
            *final(self) == (Ppu {
                palette: final(self).palette,
                upper_palette_aliases: final(self).upper_palette_aliases,
                odd_frame_toggle: final(self).odd_frame_toggle,
                ppu_spl: final(self).ppu_spl,
                master_clock: final(self).master_clock,
                master_clock_divider: final(self).master_clock_divider,
                mapper_cpu_cycle_count: final(self).mapper_cpu_cycle_count,
                scanline: final(self).scanline,
                cycle: final(self).cycle,
                frame_count: final(self).frame_count,
                nmi_scanline: final(self).nmi_scanline,
                vblank_end: final(self).vblank_end,
                region: final(self).region,
                tile: final(self).tile,
                ..*old(self)
            }),
    {
        let mut palette = [0u8; 32];
        fill_from(&mut palette, b, 4364);
        let mut aliases = [0u8; 3];
        fill_from(&mut aliases, b, 4396);
        self.palette = palette;
        self.upper_palette_aliases = aliases;
        self.odd_frame_toggle = b[4399];
        self.ppu_spl = b[4400];
        self.master_clock = read_u64(b, 4401);
        self.master_clock_divider = b[4409];
        self.mapper_cpu_cycle_count = read_u64(b, 4410);
        self.scanline = read_u16(b, 4418) as i16;
        self.cycle = read_u16(b, 4420);
        self.frame_count = read_u32(b, 4422);
        self.nmi_scanline = read_u16(b, 4426);
        self.vblank_end = read_u16(b, 4428);
        let tag = b[4430];
        self.region = if tag == 1 {
            Region::Pal
        } else if tag == 2 {
            Region::Dendy
        } else {
            Region::Ntsc
        };
        self.tile = TileInfo {
            low_byte: b[4431],
            high_byte: b[4432],
            palette_offset: b[4433],
            tile_addr: read_u16(b, 4434),
        };
    }

    #[verifier::spinoff_prover]
    #[verifier::rlimit(100)]
    fn restore_sprites(&mut self, b: &[u8])
        requires
            b@.len() >= PPU_SNAPSHOT_LEN,
        ensures
            final(self).decoded_sprites(b@),
            final(self).decoded_coverage(b@),
            *final(self) == (Ppu {
                sprite_tiles: final(self).sprite_tiles,
                sprite_count: final(self).sprite_count,
                has_sprite: final(self).has_sprite,
                sprite0_visible: final(self).sprite0_visible,
                sprite0_added: final(self).sprite0_added,
                ..*old(self)
            }),
    {
        self.sprite_tiles = read_sprites(b, 4436);
        self.sprite_count = b[4820];
        self.has_sprite = read_flags(b, 4821);
        self.sprite0_visible = b[5078] != 0;
        self.sprite0_added = b[5079] != 0;
    }

    #[verifier::spinoff_prover]
    #[verifier::rlimit(100)]
    fn restore_tail(&mut self, b: &[u8])
        requires
            b@.len() >= PPU_SNAPSHOT_LEN,
        ensures
            final(self).decoded_tail(b@),
            *final(self) == (Ppu {
                low_bit_shift: final(self).low_bit_shift,
                high_bit_shift: final(self).high_bit_shift,
                ppu_bus_address: final(self).ppu_bus_address,
                prevent_vbl_flag: final(self).prevent_vbl_flag,
                rendering_enabled: final(self).rendering_enabled,
                prev_rendering_enabled: final(self).prev_rendering_enabled,
                need_state_update: final(self).need_state_update,
                secondary_sprite_ram: final(self).secondary_sprite_ram,
                secondary_oam_addr: final(self).secondary_oam_addr,
                oam_copy_buffer: final(self).oam_copy_buffer,
                sprite_in_range: final(self).sprite_in_range,
                sprite_addr_h: final(self).sprite_addr_h,
                sprite_addr_l: final(self).sprite_addr_l,
                overflow_bug_counter: final(self).overflow_bug_counter,
                oam_copy_done: final(self).oam_copy_done,
                last_visible_sprite_addr: final(self).last_visible_sprite_addr,
                sprite_index: final(self).sprite_index,
                current_tile_palette: final(self).current_tile_palette,
                previous_tile_palette: final(self).previous_tile_palette,
                minimum_draw_bg_cycle: final(self).minimum_draw_bg_cycle,
                minimum_draw_sprite_cycle: final(self).minimum_draw_sprite_cycle,
                minimum_draw_sprite_standard_cycle: final(self).minimum_draw_sprite_standard_cycle,
                update_vram_addr_delay: final(self).update_vram_addr_delay,
                update_vram_addr: final(self).update_vram_addr,
                need_video_ram_increment: final(self).need_video_ram_increment,
                ignore_vram_read: final(self).ignore_vram_read,
                ppu_open_bus: final(self).ppu_open_bus,
                ppu_open_bus_decay_stamp: final(self).ppu_open_bus_decay_stamp,
                ..*old(self)
            }),
    {
        let mut secondary = [0u8; 32];
        fill_from(&mut secondary, b, 5090);
        self.low_bit_shift = read_u16(b, 5080);
        self.high_bit_shift = read_u16(b, 5082);
        self.ppu_bus_address = read_u16(b, 5084);
        self.prevent_vbl_flag = b[5086] != 0;
        self.rendering_enabled = b[5087] != 0;
        self.prev_rendering_enabled = b[5088] != 0;
        self.need_state_update = b[5089] != 0;
        self.secondary_sprite_ram = secondary;
        self.secondary_oam_addr = b[5122];
        self.oam_copy_buffer = b[5123];
        self.sprite_in_range = b[5124] != 0;
        self.sprite_addr_h = b[5125];
        self.sprite_addr_l = b[5126];
        self.overflow_bug_counter = b[5127];
        self.oam_copy_done = b[5128] != 0;
        self.last_visible_sprite_addr = b[5129];
        self.sprite_index = read_u32(b, 5130);
        self.current_tile_palette = b[5134];
        self.previous_tile_palette = b[5135];
        self.minimum_draw_bg_cycle = read_u16(b, 5136);
        self.minimum_draw_sprite_cycle = read_u16(b, 5138);
        self.minimum_draw_sprite_standard_cycle = read_u16(b, 5140);
        self.update_vram_addr_delay = b[5142];
        self.update_vram_addr = read_u16(b, 5143);
        self.need_video_ram_increment = b[5145] != 0;
        self.ignore_vram_read = read_u32(b, 5146);
        self.ppu_open_bus = b[5150];
        self.ppu_open_bus_decay_stamp = read_stamps(b, 5151);
    }
}

impl Ppu {
    /// Every field a snapshot carries agrees, the sprite-coverage flags
    /// aside.
    pub open spec fn snapshot_fields_eq(&self, o: &Ppu) -> bool {
        &&& self.ctrl == o.ctrl && self.mask == o.mask && self.status == o.status && self.oam_addr == o.oam_addr
        &&& self.oam@ == o.oam@ && self.vram_addr == o.vram_addr && self.temp_addr == o.temp_addr
        &&& self.fine_x == o.fine_x && self.write_latch == o.write_latch
        &&& self.data_buffer == o.data_buffer && self.io_latch == o.io_latch
        &&& self.nametable@ == o.nametable@
        &&& self.palette@ == o.palette@ && self.upper_palette_aliases@ == o.upper_palette_aliases@
        &&& self.odd_frame_toggle == o.odd_frame_toggle && self.ppu_spl == o.ppu_spl
        &&& self.timing_eq(o) && self.tile == o.tile
        &&& self.sprite_tiles@ == o.sprite_tiles@ && self.sprite_count == o.sprite_count
        &&& self.sprite0_visible == o.sprite0_visible && self.sprite0_added == o.sprite0_added
        &&& self.low_bit_shift == o.low_bit_shift && self.high_bit_shift == o.high_bit_shift
        &&& self.ppu_bus_address == o.ppu_bus_address && self.prevent_vbl_flag == o.prevent_vbl_flag
        &&& self.rendering_enabled == o.rendering_enabled
        &&& self.prev_rendering_enabled == o.prev_rendering_enabled
        &&& self.need_state_update == o.need_state_update
        &&& self.secondary_sprite_ram@ == o.secondary_sprite_ram@
        &&& self.secondary_oam_addr == o.secondary_oam_addr && self.oam_copy_buffer == o.oam_copy_buffer
        &&& self.sprite_in_range == o.sprite_in_range && self.sprite_addr_h == o.sprite_addr_h
        &&& self.sprite_addr_l == o.sprite_addr_l && self.overflow_bug_counter == o.overflow_bug_counter
        &&& self.oam_copy_done == o.oam_copy_done
        &&& self.last_visible_sprite_addr == o.last_visible_sprite_addr
        &&& self.sprite_index == o.sprite_index
        &&& self.current_tile_palette == o.current_tile_palette
        &&& self.previous_tile_palette == o.previous_tile_palette
        &&& self.minimum_draw_bg_cycle == o.minimum_draw_bg_cycle
        &&& self.minimum_draw_sprite_cycle == o.minimum_draw_sprite_cycle
        &&& self.minimum_draw_sprite_standard_cycle == o.minimum_draw_sprite_standard_cycle
        &&& self.update_vram_addr_delay == o.update_vram_addr_delay
        &&& self.update_vram_addr == o.update_vram_addr
        &&& self.need_video_ram_increment == o.need_video_ram_increment
        &&& self.ignore_vram_read == o.ignore_vram_read && self.ppu_open_bus == o.ppu_open_bus
        &&& self.ppu_open_bus_decay_stamp@ == o.ppu_open_bus_decay_stamp@
    }
}

/// Where each part of a snapshot image sits.
proof fn lemma_snapshot_layout(p: Ppu)
    ensures
        p.snapshot_spec().len() == PPU_SNAPSHOT_LEN,
        p.snapshot_spec().subrange(0, 268) == p.snap_head(),
        p.snapshot_spec().subrange(268, 4364) == p.nametable@,
        p.snapshot_spec().subrange(4364, 4436) == p.snap_timing(),
        p.snapshot_spec().subrange(4436, 4820) == sprites_bytes(p.sprite_tiles@),
        p.snapshot_spec().subrange(4820, 5080) == p.snap_coverage(),
        p.snapshot_spec().subrange(5080, 5130) == p.snap_eval(),
        p.snapshot_spec().subrange(5130, 5183) == p.snap_deferred(),
{
    let s = p.snapshot_spec();
    let h = p.snap_head();
    let t = p.snap_timing();
    let c = p.snap_coverage();
    let e = p.snap_eval();
    let d = p.snap_deferred();
    assert(h.len() == 268);
    assert(t.len() == 72);
    assert(c.len() == 260);
    assert(e.len() == 50);
    assert(d.len() == 53);
    assert(p.snap_tail() == e + d);
    assert(s.subrange(0, 268) =~= h);
    assert(s.subrange(268, 4364) =~= p.nametable@);
    assert(s.subrange(4364, 4436) =~= t);
    assert(s.subrange(4436, 4820) =~= sprites_bytes(p.sprite_tiles@));
    assert(s.subrange(4820, 5080) =~= c);
    assert(s.subrange(5080, 5130) =~= e);
    assert(s.subrange(5130, 5183) =~= d);
}

proof fn lemma_head_roundtrip(p: Ppu, q: Ppu)
    requires
        q.decoded_head(p.snapshot_spec()),
    ensures
        q.ctrl == p.ctrl && q.mask == p.mask && q.status == p.status && q.oam_addr == p.oam_addr,
        q.oam@ == p.oam@ && q.vram_addr == p.vram_addr && q.temp_addr == p.temp_addr,
        q.fine_x == p.fine_x && q.write_latch == p.write_latch,
        q.data_buffer == p.data_buffer && q.io_latch == p.io_latch,
        q.nametable@ == p.nametable@,
{
    let s = p.snapshot_spec();
    let h = p.snap_head();
    lemma_snapshot_layout(p);
    lemma_part_range(s, 0, h, 4, 256);
    assert(h.subrange(4, 260) =~= p.oam@);
    lemma_part_range(s, 0, h, 260, 2);
    assert(h.subrange(260, 262) =~= u16_bytes(p.vram_addr));
    lemma_u16_at_bytes(s, 260, p.vram_addr);
    lemma_part_range(s, 0, h, 262, 2);
    assert(h.subrange(262, 264) =~= u16_bytes(p.temp_addr));
    lemma_u16_at_bytes(s, 262, p.temp_addr);
    assert(h[0] == p.ctrl && h[1] == p.mask && h[2] == p.status && h[3] == p.oam_addr);
    assert(h[264] == p.fine_x && h[265] == b2u(p.write_latch) && h[266] == p.data_buffer && h[267] == p.io_latch);
}

proof fn lemma_timing_roundtrip(p: Ppu, q: Ppu)
    requires
        q.decoded_timing(p.snapshot_spec()),
    ensures
        q.palette@ == p.palette@ && q.upper_palette_aliases@ == p.upper_palette_aliases@,
        q.odd_frame_toggle == p.odd_frame_toggle && q.ppu_spl == p.ppu_spl,
        q.timing_eq(&p) && q.tile == p.tile,
{
    let s = p.snapshot_spec();
    let t = p.snap_timing();
    let b = 4364;
    lemma_snapshot_layout(p);
    lemma_part_range(s, b, t, 0, 32);
    assert(t.subrange(0, 32) =~= p.palette@);
    lemma_part_range(s, b, t, 32, 3);
    assert(t.subrange(32, 35) =~= p.upper_palette_aliases@);
    assert(t[35] == p.odd_frame_toggle && t[36] == p.ppu_spl && t[45] == p.master_clock_divider);
    lemma_part_range(s, b, t, 37, 8);
    assert(t.subrange(37, 45) =~= u64_bytes(p.master_clock));
    lemma_u64_at_bytes(s, 4401, p.master_clock);
    lemma_part_range(s, b, t, 46, 8);
    assert(t.subrange(46, 54) =~= u64_bytes(p.mapper_cpu_cycle_count));
    lemma_u64_at_bytes(s, 4410, p.mapper_cpu_cycle_count);
    lemma_part_range(s, b, t, 54, 2);
    assert(t.subrange(54, 56) =~= u16_bytes(p.scanline as u16));
    lemma_u16_at_bytes(s, 4418, p.scanline as u16);
    crate::bits::lemma_u16_bits();
    assert(((p.scanline as u16) as i16) == p.scanline);
    lemma_part_range(s, b, t, 56, 2);
    assert(t.subrange(56, 58) =~= u16_bytes(p.cycle));
    lemma_u16_at_bytes(s, 4420, p.cycle);
    lemma_part_range(s, b, t, 58, 4);
    assert(t.subrange(58, 62) =~= u32_bytes(p.frame_count));
    lemma_u32_at_bytes(s, 4422, p.frame_count);
    lemma_part_range(s, b, t, 62, 2);
    assert(t.subrange(62, 64) =~= u16_bytes(p.nmi_scanline));
    lemma_u16_at_bytes(s, 4426, p.nmi_scanline);
    lemma_part_range(s, b, t, 64, 2);
    assert(t.subrange(64, 66) =~= u16_bytes(p.vblank_end));
    lemma_u16_at_bytes(s, 4428, p.vblank_end);
    assert(t[66] == region_tag(p.region));
    assert(region_of_tag(region_tag(p.region)) == p.region);
    assert(t[67] == p.tile.low_byte && t[68] == p.tile.high_byte && t[69] == p.tile.palette_offset);
    lemma_part_range(s, b, t, 70, 2);
    assert(t.subrange(70, 72) =~= u16_bytes(p.tile.tile_addr));
    lemma_u16_at_bytes(s, 4434, p.tile.tile_addr);
}

proof fn lemma_sprites_roundtrip(p: Ppu, q: Ppu)
    requires
        q.decoded_sprites(p.snapshot_spec()),
    ensures
        q.sprite_tiles@ == p.sprite_tiles@ && q.sprite_count == p.sprite_count,
        q.sprite0_visible == p.sprite0_visible && q.sprite0_added == p.sprite0_added,
{
    let s = p.snapshot_spec();
    let sb = sprites_bytes(p.sprite_tiles@);
    let c = p.snap_coverage();
    lemma_snapshot_layout(p);
    lemma_part_range(s, 4436, sb, 0, 0);
    lemma_part_range(s, 4820, c, 0, 0);
    assert forall|i: int| 0 <= i < 64 implies q.sprite_tiles@[i] == p.sprite_tiles@[i] by {
        let o = 4436 + 6 * i;
        assert forall|j: int| 0 <= j < 6 implies #[trigger] s[o + j] == sprite_bytes(p.sprite_tiles@[i])[j] by {
            assert((6 * i + j) / 6 == i);
            assert((6 * i + j) % 6 == j);
            assert(s[4436 + (6 * i + j)] == sb[6 * i + j]);
        }
        assert(s[o] == sprite_bytes(p.sprite_tiles@[i])[0]);
        assert(s[o + 1] == sprite_bytes(p.sprite_tiles@[i])[1]);
        assert(s[o + 2] == sprite_bytes(p.sprite_tiles@[i])[2]);
        assert(s[o + 3] == sprite_bytes(p.sprite_tiles@[i])[3]);
        assert(s[o + 4] == sprite_bytes(p.sprite_tiles@[i])[4]);
        assert(s[o + 5] == sprite_bytes(p.sprite_tiles@[i])[5]);
    }
    assert(q.sprite_tiles@ =~= p.sprite_tiles@);
    assert(c[0] == p.sprite_count && c[258] == b2u(p.sprite0_visible) && c[259] == b2u(p.sprite0_added));
}

proof fn lemma_eval_roundtrip(p: Ppu, q: Ppu)
    requires
        q.decoded_tail(p.snapshot_spec()),
    ensures
        q.low_bit_shift == p.low_bit_shift && q.high_bit_shift == p.high_bit_shift,
        q.ppu_bus_address == p.ppu_bus_address && q.prevent_vbl_flag == p.prevent_vbl_flag,
        q.rendering_enabled == p.rendering_enabled,
        q.prev_rendering_enabled == p.prev_rendering_enabled,
        q.need_state_update == p.need_state_update,
        q.secondary_sprite_ram@ == p.secondary_sprite_ram@,
        q.secondary_oam_addr == p.secondary_oam_addr && q.oam_copy_buffer == p.oam_copy_buffer,
        q.sprite_in_range == p.sprite_in_range && q.sprite_addr_h == p.sprite_addr_h,
        q.sprite_addr_l == p.sprite_addr_l && q.overflow_bug_counter == p.overflow_bug_counter,
        q.oam_copy_done == p.oam_copy_done,
        q.last_visible_sprite_addr == p.last_visible_sprite_addr,
{
    let s = p.snapshot_spec();
    let e = p.snap_eval();
    let b = 5080;
    lemma_snapshot_layout(p);
    lemma_part_range(s, b, e, 0, 2);
    assert(e.subrange(0, 2) =~= u16_bytes(p.low_bit_shift));
    lemma_u16_at_bytes(s, 5080, p.low_bit_shift);
    lemma_part_range(s, b, e, 2, 2);
    assert(e.subrange(2, 4) =~= u16_bytes(p.high_bit_shift));
    lemma_u16_at_bytes(s, 5082, p.high_bit_shift);
    lemma_part_range(s, b, e, 4, 2);
    assert(e.subrange(4, 6) =~= u16_bytes(p.ppu_bus_address));
    lemma_u16_at_bytes(s, 5084, p.ppu_bus_address);
    assert(e[6] == b2u(p.prevent_vbl_flag) && e[7] == b2u(p.rendering_enabled));
    assert(e[8] == b2u(p.prev_rendering_enabled) && e[9] == b2u(p.need_state_update));
    lemma_part_range(s, b, e, 10, 32);
    assert(e.subrange(10, 42) =~= p.secondary_sprite_ram@);
    assert(e[42] == p.secondary_oam_addr && e[43] == p.oam_copy_buffer && e[44] == b2u(p.sprite_in_range));
    assert(e[45] == p.sprite_addr_h && e[46] == p.sprite_addr_l && e[47] == p.overflow_bug_counter);
    assert(e[48] == b2u(p.oam_copy_done) && e[49] == p.last_visible_sprite_addr);
}

proof fn lemma_deferred_roundtrip(p: Ppu, q: Ppu)
    requires
        q.decoded_tail(p.snapshot_spec()),
    ensures
        q.sprite_index == p.sprite_index,
        q.current_tile_palette == p.current_tile_palette,
        q.previous_tile_palette == p.previous_tile_palette,
        q.minimum_draw_bg_cycle == p.minimum_draw_bg_cycle,
        q.minimum_draw_sprite_cycle == p.minimum_draw_sprite_cycle,
        q.minimum_draw_sprite_standard_cycle == p.minimum_draw_sprite_standard_cycle,
        q.update_vram_addr_delay == p.update_vram_addr_delay,
        q.update_vram_addr == p.update_vram_addr,
        q.need_video_ram_increment == p.need_video_ram_increment,
        q.ignore_vram_read == p.ignore_vram_read && q.ppu_open_bus == p.ppu_open_bus,
        q.ppu_open_bus_decay_stamp@ == p.ppu_open_bus_decay_stamp@,
{
    let s = p.snapshot_spec();
    let d = p.snap_deferred();
    let b = 5130;
    lemma_snapshot_layout(p);
    lemma_part_range(s, b, d, 0, 4);
    assert(d.subrange(0, 4) =~= u32_bytes(p.sprite_index));
    lemma_u32_at_bytes(s, 5130, p.sprite_index);
    assert(d[4] == p.current_tile_palette && d[5] == p.previous_tile_palette && d[12] == p.update_vram_addr_delay);
    lemma_part_range(s, b, d, 6, 2);
    assert(d.subrange(6, 8) =~= u16_bytes(p.minimum_draw_bg_cycle));
    lemma_u16_at_bytes(s, 5136, p.minimum_draw_bg_cycle);
    lemma_part_range(s, b, d, 8, 2);
    assert(d.subrange(8, 10) =~= u16_bytes(p.minimum_draw_sprite_cycle));
    lemma_u16_at_bytes(s, 5138, p.minimum_draw_sprite_cycle);
    lemma_part_range(s, b, d, 10, 2);
    assert(d.subrange(10, 12) =~= u16_bytes(p.minimum_draw_sprite_standard_cycle));
    lemma_u16_at_bytes(s, 5140, p.minimum_draw_sprite_standard_cycle);
    lemma_part_range(s, b, d, 13, 2);
    assert(d.subrange(13, 15) =~= u16_bytes(p.update_vram_addr));
    lemma_u16_at_bytes(s, 5143, p.update_vram_addr);
    assert(d[15] == b2u(p.need_video_ram_increment) && d[20] == p.ppu_open_bus);
    lemma_part_range(s, b, d, 16, 4);
    assert(d.subrange(16, 20) =~= u32_bytes(p.ignore_vram_read));
    lemma_u32_at_bytes(s, 5146, p.ignore_vram_read);
    let st = stamps_bytes(p.ppu_open_bus_decay_stamp@);
    lemma_part_range(s, b, d, 21, 32);
    assert(d.subrange(21, 53) =~= st);
    assert forall|i: int| 0 <= i < 8 implies q.ppu_open_bus_decay_stamp@[i] == p.ppu_open_bus_decay_stamp@[i] by {
        assert forall|j: int| 0 <= j < 4 implies #[trigger] st[4 * i + j] == u32_bytes(p.ppu_open_bus_decay_stamp@[i])[j] by {
            assert((4 * i + j) / 4 == i);
            assert((4 * i + j) % 4 == j);
        }
        assert(s.subrange(5151 + 4 * i, 5155 + 4 * i) =~= u32_bytes(p.ppu_open_bus_decay_stamp@[i])) by {
            assert forall|j: int| 0 <= j < 4 implies s[5151 + 4 * i + j] == #[trigger] st[4 * i + j] by {
                assert(s.subrange(5151, 5183)[4 * i + j] == s[5151 + 4 * i + j]);
            }
        }
        lemma_u32_at_bytes(s, 5151 + 4 * i, p.ppu_open_bus_decay_stamp@[i]);
    }
    assert(q.ppu_open_bus_decay_stamp@ =~= p.ppu_open_bus_decay_stamp@);
}

/// Save-state round trip: a PPU that restores the snapshot of another gets
/// back every field the snapshot carries (the sprite-coverage flags, which
/// restore resets, aside).
pub proof fn lemma_ppu_snapshot_roundtrip(p: Ppu, q: Ppu)
    requires
        q.decoded_head(p.snapshot_spec()),
        q.decoded_timing(p.snapshot_spec()),
        q.decoded_sprites(p.snapshot_spec()),
        q.decoded_tail(p.snapshot_spec()),
    ensures
        q.snapshot_fields_eq(&p),
{
    lemma_head_roundtrip(p, q);
    lemma_timing_roundtrip(p, q);
    lemma_sprites_roundtrip(p, q);
    lemma_eval_roundtrip(p, q);
    lemma_deferred_roundtrip(p, q);
}

} // verus!
