use nesle::ppu::render::sprite_eval_dot;
use nesle::cartridge::{Mirroring, Region};
use nesle::ppu::memory::nametable_index;
use nesle::cpu::InterruptLines;
use nesle::mapper::Mapper;
use nesle::ppu::Ppu;

#[derive(Debug)]
struct TestMapper {
    chr: [u8; 0x2000],
}

impl Mapper for TestMapper {
    fn mapper_id(&self) -> u16 {
        0
    }

    fn name(&self) -> &'static str {
        "TEST"
    }

    fn cpu_read(&mut self, _addr: u16) -> u8 {
        0
    }

    fn cpu_write(&mut self, _addr: u16, _value: u8, _interrupt: &mut InterruptLines) {}

    fn ppu_read(&mut self, addr: u16) -> u8 {
        self.chr[usize::from(addr & 0x1fff)]
    }

    fn debug_ppu_read(&self, addr: u16) -> u8 {
        self.chr[usize::from(addr & 0x1fff)]
    }

    fn ppu_write(&mut self, addr: u16, value: u8) {
        self.chr[usize::from(addr & 0x1fff)] = value;
    }

    fn nametable_mirroring(&self) -> Mirroring {
        Mirroring::Horizontal
    }
    fn has_vram_addr_hook(&self) -> bool {
        false
    }
    fn notify_vram_addr(&mut self, _addr: u16, _cpu_cycle_count: u64, _interrupt: &mut InterruptLines) {}
    fn ppu_read_nametable(&mut self, _addr: u16, _ciram: &[u8; 0x1000], _interrupt: &mut InterruptLines) -> Option<u8> {
        None
    }
    fn ppu_write_nametable(&mut self, _addr: u16, _value: u8, _ciram: &mut [u8; 0x1000]) -> bool {
        false
    }
    fn cpu_read_open_bus(&mut self, addr: u16, _open_bus: u8, _interrupt: &mut InterruptLines) -> u8 {
        self.cpu_read(addr)
    }
    fn has_bus_conflicts(&self) -> bool {
        false
    }
}

fn run_ppu_dots<M: Mapper>(ppu: &mut Ppu, mapper: &mut M, interrupt: &mut InterruptLines, dots: u64) {
    let target = ppu.master_clock.wrapping_add(dots * u64::from(ppu.master_clock_divider));
    ppu.run(target, mapper, interrupt);
}

fn setup_sprites(remove_limit: bool) -> Ppu {
    let mut ppu = Ppu::default();
    for s in 0..16usize {
        ppu.oam[s * 4] = 50;
        ppu.oam[s * 4 + 1] = 1;
        ppu.oam[s * 4 + 2] = 0;
        ppu.oam[s * 4 + 3] = (s as u8).wrapping_mul(8);
    }
    ppu.scanline = 50;
    ppu.sprite_count = 8;
    ppu.sprite_index = 8;
    ppu.first_visible_sprite_addr = 0;
    ppu.last_visible_sprite_addr = 7 * 4;
    ppu.remove_sprite_limit = remove_limit;
    ppu
}

#[test]
fn remove_sprite_limit_renders_extra_sprites_per_scanline() {
    let mut mapper = TestMapper { chr: [0; 0x2000] };
    let mut lines = InterruptLines::default();

    let mut ppu = setup_sprites(false);
    ppu.load_extra_sprites::<false, _>(&mut mapper, &mut lines);
    assert_eq!(ppu.sprite_count, 8, "no extra sprites without remove_sprite_limit");

    let mut ppu = setup_sprites(true);
    ppu.load_extra_sprites::<false, _>(&mut mapper, &mut lines);
    assert_eq!(ppu.sprite_count, 16, "remove_sprite_limit must render all 16 same-scanline sprites");
}

#[test]
fn writes_and_reads_vram_through_ppudata() {
    let mut ppu = Ppu::default();
    let mut mapper = TestMapper { chr: [0; 0x2000] };
    let mut lines = InterruptLines::default();
    ppu.cpu_write_register(0x2006, 0x20, 0, &mut mapper, &mut lines);
    ppu.cpu_write_register(0x2006, 0x00, 0, &mut mapper, &mut lines);
    run_ppu_dots(&mut ppu, &mut mapper, &mut lines, 3);
    ppu.cpu_write_register(0x2007, 0x55, 0, &mut mapper, &mut lines);
    run_ppu_dots(&mut ppu, &mut mapper, &mut lines, 6);

    ppu.cpu_write_register(0x2006, 0x20, 0, &mut mapper, &mut lines);
    ppu.cpu_write_register(0x2006, 0x00, 0, &mut mapper, &mut lines);
    run_ppu_dots(&mut ppu, &mut mapper, &mut lines, 3);
    assert_eq!(ppu.cpu_read_register(0x2007, &mut mapper, &mut lines), 0);
    run_ppu_dots(&mut ppu, &mut mapper, &mut lines, 6);
    assert_eq!(ppu.cpu_read_register(0x2007, &mut mapper, &mut lines), 0x55);
}

#[test]
fn palette_reads_are_not_buffered() {
    let mut ppu = Ppu::default();
    let mut mapper = TestMapper { chr: [0; 0x2000] };
    let mut lines = InterruptLines::default();
    ppu.cpu_write_register(0x2006, 0x3f, 0, &mut mapper, &mut lines);
    ppu.cpu_write_register(0x2006, 0x10, 0, &mut mapper, &mut lines);
    run_ppu_dots(&mut ppu, &mut mapper, &mut lines, 3);
    ppu.cpu_write_register(0x2007, 0xaa, 0, &mut mapper, &mut lines);
    run_ppu_dots(&mut ppu, &mut mapper, &mut lines, 6);

    ppu.cpu_write_register(0x2006, 0x3f, 0, &mut mapper, &mut lines);
    ppu.cpu_write_register(0x2006, 0x00, 0, &mut mapper, &mut lines);
    run_ppu_dots(&mut ppu, &mut mapper, &mut lines, 3);
    assert_eq!(ppu.cpu_read_register(0x2007, &mut mapper, &mut lines), 0x2a);
}

#[test]
fn palette_read_applies_grayscale_mask_when_ppumask_bit0_set() {
    let mut ppu = Ppu::default();
    let mut mapper = TestMapper { chr: [0; 0x2000] };
    let mut lines = InterruptLines::default();
    ppu.cpu_write_register(0x2006, 0x3f, 0, &mut mapper, &mut lines);
    ppu.cpu_write_register(0x2006, 0x10, 0, &mut mapper, &mut lines);
    run_ppu_dots(&mut ppu, &mut mapper, &mut lines, 3);
    ppu.cpu_write_register(0x2007, 0xaa, 0, &mut mapper, &mut lines);
    run_ppu_dots(&mut ppu, &mut mapper, &mut lines, 6);

    ppu.mask = 0x00;
    ppu.cpu_write_register(0x2006, 0x3f, 0, &mut mapper, &mut lines);
    ppu.cpu_write_register(0x2006, 0x10, 0, &mut mapper, &mut lines);
    run_ppu_dots(&mut ppu, &mut mapper, &mut lines, 3);
    assert_eq!(ppu.cpu_read_register(0x2007, &mut mapper, &mut lines), 0x2a);
    run_ppu_dots(&mut ppu, &mut mapper, &mut lines, 6);

    ppu.mask = 0x01;
    ppu.cpu_write_register(0x2006, 0x3f, 0, &mut mapper, &mut lines);
    ppu.cpu_write_register(0x2006, 0x10, 0, &mut mapper, &mut lines);
    run_ppu_dots(&mut ppu, &mut mapper, &mut lines, 3);
    assert_eq!(ppu.cpu_read_register(0x2007, &mut mapper, &mut lines), 0x20);
    run_ppu_dots(&mut ppu, &mut mapper, &mut lines, 6);

    ppu.cpu_write_register(0x2006, 0x3f, 0, &mut mapper, &mut lines);
    ppu.cpu_write_register(0x2006, 0x11, 0, &mut mapper, &mut lines);
    run_ppu_dots(&mut ppu, &mut mapper, &mut lines, 3);
    ppu.cpu_write_register(0x2007, 0x12, 0, &mut mapper, &mut lines);
    run_ppu_dots(&mut ppu, &mut mapper, &mut lines, 6);
    ppu.cpu_write_register(0x2006, 0x3f, 0, &mut mapper, &mut lines);
    ppu.cpu_write_register(0x2006, 0x11, 0, &mut mapper, &mut lines);
    run_ppu_dots(&mut ppu, &mut mapper, &mut lines, 3);
    assert_eq!(ppu.cpu_read_register(0x2007, &mut mapper, &mut lines), 0x10);
}

#[test]
fn oamdata_write_outside_rendering_masks_attr_and_increments() {
    let mut ppu = Ppu::default();
    let mut mapper = TestMapper { chr: [0; 0x2000] };
    let mut lines = InterruptLines::default();
    ppu.cpu_write_register(0x2003, 0x02, 0, &mut mapper, &mut lines);
    ppu.cpu_write_register(0x2004, 0xff, 0, &mut mapper, &mut lines);

    assert_eq!(ppu.oam[0x02], 0xe3);
    assert_eq!(ppu.oam_addr, 0x03);
}

#[test]
fn oamdata_write_during_rendering_only_bumps_oamaddr_high_bits() {
    let mut ppu = Ppu::default();
    let mut mapper = TestMapper { chr: [0; 0x2000] };
    let mut lines = InterruptLines::default();
    ppu.mask = 0x18;
    ppu.rendering_enabled = true;
    ppu.prev_rendering_enabled = true;
    ppu.scanline = 12;
    ppu.oam_addr = 0x21;
    ppu.oam[0x21] = 0x44;

    ppu.cpu_write_register(0x2004, 0x99, 0, &mut mapper, &mut lines);

    assert_eq!(ppu.oam[0x21], 0x44);
    assert_eq!(ppu.oam_addr, 0x25);
}

#[test]
fn oamdata_read_during_sprite_fetch_returns_secondary_oam_copy_buffer() {
    let mut ppu = Ppu::default();
    let mut mapper = TestMapper { chr: [0; 0x2000] };
    let mut lines = InterruptLines::default();
    ppu.mask = 0x18;
    ppu.rendering_enabled = true;
    ppu.prev_rendering_enabled = true;
    ppu.scanline = 7;
    ppu.cycle = 257 + 8 + 5;
    ppu.secondary_sprite_ram[7] = 0x6a;

    assert_eq!(ppu.cpu_read_register(0x2004, &mut mapper, &mut lines), 0x6a);
    assert_eq!(ppu.secondary_oam_addr, 7);
}

#[test]
fn status_read_clears_vblank_and_write_latch() {
    let mut ppu = Ppu::default();
    let mut mapper = TestMapper { chr: [0; 0x2000] };
    let mut lines = InterruptLines::default();
    ppu.status = 0x80;
    ppu.cpu_write_register(0x2006, 0x21, 0, &mut mapper, &mut lines);
    assert!(ppu.write_latch);
    assert_eq!(ppu.cpu_read_register(0x2002, &mut mapper, &mut lines), 0x81);
    assert_eq!(ppu.status & 0x80, 0);
    assert!(!ppu.write_latch);
}

#[test]
fn inc_horizontal_scrolling_wraps_and_toggles_nt() {
    let mut ppu = Ppu { vram_addr: 0x001E, ..Ppu::default() };
    ppu.inc_horizontal_scrolling();
    assert_eq!(ppu.vram_addr & 0x001F, 31, "coarse X advances to 31");
    ppu.inc_horizontal_scrolling();
    assert_eq!(ppu.vram_addr & 0x001F, 0, "coarse X wraps to 0");
    assert_eq!(ppu.vram_addr & 0x0400, 0x0400, "NT bit 10 toggled");
}

#[test]
fn inc_vertical_scrolling_fine_y_then_coarse_y() {
    let mut ppu = Ppu { vram_addr: (5 << 5) | (6 << 12), ..Ppu::default() };
    ppu.inc_vertical_scrolling();
    assert_eq!((ppu.vram_addr >> 12) & 0x07, 7, "fine Y advances to 7");
    assert_eq!((ppu.vram_addr >> 5) & 0x1F, 5, "coarse Y unchanged");
    ppu.inc_vertical_scrolling();
    assert_eq!((ppu.vram_addr >> 12) & 0x07, 0, "fine Y wraps to 0");
    assert_eq!((ppu.vram_addr >> 5) & 0x1F, 6, "coarse Y advances to 6");
}

#[test]
fn inc_vertical_scrolling_at_y29_wraps_and_toggles_nt() {
    let mut ppu = Ppu { vram_addr: (29 << 5) | (7 << 12), ..Ppu::default() };
    ppu.inc_vertical_scrolling();
    assert_eq!((ppu.vram_addr >> 12) & 0x07, 0, "fine Y wraps to 0");
    assert_eq!((ppu.vram_addr >> 5) & 0x1F, 0, "coarse Y wraps from 29 to 0");
    assert_eq!(ppu.vram_addr & 0x0800, 0x0800, "vertical NT bit 11 toggled");
}

#[test]
fn inc_vertical_scrolling_at_y31_wraps_without_nt_toggle() {
    let mut ppu = Ppu { vram_addr: (31 << 5) | (7 << 12), ..Ppu::default() };
    ppu.inc_vertical_scrolling();
    assert_eq!((ppu.vram_addr >> 5) & 0x1F, 0, "coarse Y wraps from 31 to 0");
    assert_eq!(ppu.vram_addr & 0x0800, 0, "NT bit 11 NOT toggled (Y=31)");
}

#[test]
fn get_nametable_addr_uses_v_low_12_bits() {
    let ppu = Ppu { vram_addr: 0x2ABC, ..Ppu::default() };
    assert_eq!(ppu.get_nametable_addr(), 0x2000 | 0x0ABC);
}

#[test]
fn get_attribute_addr_matches_mesen2_formula() {
    let v = (0b10u16 << 10) | (26u16 << 5) | 19u16;
    let ppu = Ppu { vram_addr: v, ..Ppu::default() };
    let expected = 0x23C0 | 0x0800 | 0x30 | 0x04;
    assert_eq!(ppu.get_attribute_addr(), expected);
}

#[test]
fn load_tile_info_4cycle_sequence_populates_tile() {
    let mut ppu = Ppu {
        mask: 0x08,
        rendering_enabled: true,
        prev_rendering_enabled: true,
        ctrl: 0x10,
        vram_addr: (2u16 << 5) | 2,
        ..Ppu::default()
    };
    let mut mapper = TestMapper { chr: [0; 0x2000] };
    let mut lines = InterruptLines::default();
    ppu.nametable[0x042] = 0x55;
    ppu.nametable[0x3C0] = 0xE4;

    ppu.cycle = 1;
    ppu.load_tile_info::<false, _>(&mut mapper, &mut lines);
    assert_eq!(ppu.tile.tile_addr, 0x1550);

    ppu.cycle = 3;
    ppu.load_tile_info::<false, _>(&mut mapper, &mut lines);
    assert_eq!(ppu.tile.palette_offset, 0x0C);
}

#[test]
fn process_sprite_evaluation_start_initializes_state() {
    let mut ppu = Ppu { oam_addr: 0b1100_0011, ..Ppu::default() };
    ppu.process_sprite_evaluation_start();
    assert!(!ppu.sprite0_added);
    assert!(!ppu.sprite_in_range);
    assert_eq!(ppu.secondary_oam_addr, 0);
    assert_eq!(ppu.overflow_bug_counter, 0);
    assert!(!ppu.oam_copy_done);
    assert_eq!(ppu.sprite_addr_h, 0x30);
    assert_eq!(ppu.sprite_addr_l, 3);
}

#[derive(Debug)]
struct RecordingMapper {
    last_addr: u16,
    last_cpu_cycle_count: u64,
    call_count: u32,
}

impl Mapper for RecordingMapper {
    fn mapper_id(&self) -> u16 {
        0
    }
    fn name(&self) -> &'static str {
        "REC"
    }
    fn cpu_read(&mut self, _addr: u16) -> u8 {
        0
    }
    fn cpu_write(&mut self, _addr: u16, _value: u8, _interrupt: &mut InterruptLines) {}
    fn ppu_read(&mut self, _addr: u16) -> u8 {
        0
    }
    fn debug_ppu_read(&self, _addr: u16) -> u8 {
        0
    }
    fn ppu_write(&mut self, _addr: u16, _value: u8) {}
    fn nametable_mirroring(&self) -> Mirroring {
        Mirroring::Horizontal
    }
    fn has_vram_addr_hook(&self) -> bool {
        true
    }
    fn notify_vram_addr(&mut self, addr: u16, ppu_master_clock: u64, _interrupt: &mut InterruptLines) {
        self.last_addr = addr;
        self.last_cpu_cycle_count = ppu_master_clock;
        self.call_count += 1;
    }
    fn ppu_read_nametable(&mut self, _addr: u16, _ciram: &[u8; 0x1000], _interrupt: &mut InterruptLines) -> Option<u8> {
        None
    }
    fn ppu_write_nametable(&mut self, _addr: u16, _value: u8, _ciram: &mut [u8; 0x1000]) -> bool {
        false
    }
    fn cpu_read_open_bus(&mut self, addr: u16, _open_bus: u8, _interrupt: &mut InterruptLines) -> u8 {
        self.cpu_read(addr)
    }
    fn has_bus_conflicts(&self) -> bool {
        false
    }
}

#[test]
fn set_bus_address_notifies_mapper() {
    let mut ppu = Ppu { mapper_cpu_cycle_count: 1234, ..Ppu::default() };
    let mut mapper = RecordingMapper { last_addr: 0, last_cpu_cycle_count: 0, call_count: 0 };
    let mut lines = InterruptLines::default();
    ppu.set_bus_address(0x1ABC, &mut mapper, &mut lines);
    assert_eq!(ppu.ppu_bus_address, 0x1ABC);
    assert_eq!(mapper.last_addr, 0x1ABC);
    assert_eq!(mapper.last_cpu_cycle_count, 1234);
    assert_eq!(mapper.call_count, 1);
}

#[test]
fn run_advances_master_clock_through_tick() {
    let mut ppu = Ppu::default();
    let mut mapper = TestMapper { chr: [0; 0x2000] };
    let mut lines = InterruptLines::default();
    let frame_master_clocks = 262 * 341 * 4;
    let start_frame = ppu.frame_count;
    ppu.run(frame_master_clocks + 100, &mut mapper, &mut lines);
    assert!(
        ppu.frame_count >= start_frame.wrapping_add(1),
        "frame_count should advance at least one full frame; before={start_frame}, after={}",
        ppu.frame_count
    );
    assert!(ppu.master_clock <= frame_master_clocks + 100, "master_clock should not overshoot target");
    assert!(
        ppu.master_clock + u64::from(ppu.master_clock_divider) > frame_master_clocks + 100,
        "master_clock should be within one divider of target"
    );
}

#[test]
fn palette_backdrop_entries_alias_between_halves() {
    let mut ppu = Ppu::default();
    ppu.palette_write(0x3f10, 0xff);
    assert_eq!(ppu.palette_read(0x3f00), 0x3f);
    assert_eq!(ppu.palette_read(0x3f10), 0x3f);
    ppu.palette_write(0x3f04, 0x21);
    assert_eq!(ppu.palette_read(0x3f14), 0x21);
    ppu.palette_write(0x3f11, 0x05);
    assert_eq!(ppu.palette_read(0x3f01), ppu.palette[1]);
    assert_eq!(ppu.palette_read(0x3f11), 0x05);
}

#[test]
fn nametable_index_follows_mirroring() {
    assert_eq!(nametable_index(0x2005, Mirroring::Horizontal), 0x005);
    assert_eq!(nametable_index(0x2405, Mirroring::Horizontal), 0x005);
    assert_eq!(nametable_index(0x2805, Mirroring::Horizontal), 0x405);
    assert_eq!(nametable_index(0x2405, Mirroring::Vertical), 0x405);
    assert_eq!(nametable_index(0x2805, Mirroring::Vertical), 0x005);
    assert_eq!(nametable_index(0x2c05, Mirroring::SingleScreenLower), 0x005);
    assert_eq!(nametable_index(0x2005, Mirroring::SingleScreenUpper), 0x405);
    assert_eq!(nametable_index(0x2c05, Mirroring::FourScreen), 0xc05);
    assert_eq!(nametable_index(0x3005, Mirroring::Horizontal), 0x005);
}

#[test]
fn open_bus_bits_decay_after_three_frames() {
    let mut ppu = Ppu::default();
    ppu.set_ppu_open_bus(0xff, 0xa5);
    assert_eq!(ppu.ppu_open_bus, 0xa5);
    ppu.frame_count += 3;
    ppu.set_ppu_open_bus(0x0f, 0x03);
    assert_eq!(ppu.ppu_open_bus, 0xa3);
    ppu.frame_count += 1;
    ppu.set_ppu_open_bus(0x00, 0x00);
    assert_eq!(ppu.ppu_open_bus, 0x03);
}

#[test]
fn vblank_sets_status_and_nmi_at_dot_one_of_nmi_line() {
    let mut ppu = Ppu::default();
    let mut mapper = TestMapper { chr: [0; 0x2000] };
    let mut lines = InterruptLines::default();
    ppu.ctrl = 0x80;
    let target = 241 * 341 * 4 + 2 * 4;
    ppu.run(target, &mut mapper, &mut lines);
    assert_eq!(ppu.scanline, 241);
    assert_eq!(ppu.status & 0x80, 0x80);
    assert!(lines.nmi_flag);
}

#[test]
fn region_timing_sets_divider_and_vblank_lines() {
    let mut ppu = Ppu::default();
    ppu.set_region(Region::Dendy);
    assert_eq!((ppu.master_clock_divider, ppu.nmi_scanline, ppu.vblank_end), (5, 291, 310));
    ppu.set_region(Region::Pal);
    assert_eq!((ppu.master_clock_divider, ppu.nmi_scanline, ppu.vblank_end), (5, 241, 310));
    ppu.set_region(Region::Ntsc);
    assert_eq!((ppu.master_clock_divider, ppu.nmi_scanline, ppu.vblank_end), (4, 241, 260));
}

#[test]
fn snapshot_round_trip_restores_registers_and_resets_coverage() {
    let mut ppu = Ppu::default();
    ppu.ctrl = 0x88;
    ppu.mask = 0x1e;
    ppu.oam[7] = 0x42;
    ppu.vram_addr = 0x2345;
    ppu.nametable[0x123] = 0x99;
    ppu.palette[3] = 0x2a;
    ppu.master_clock = 0x0123_4567_89ab_cdef;
    ppu.scanline = -1;
    ppu.cycle = 300;
    ppu.frame_count = 77;
    ppu.region = Region::Pal;
    ppu.sprite_tiles[5].sprite_x = 33;
    ppu.sprite_tiles[5].horizontal_mirror = true;
    ppu.has_sprite[10] = true;
    ppu.ppu_open_bus_decay_stamp[6] = 0xdead_beef;
    ppu.ignore_vram_read = 3;
    let bytes = ppu.snapshot_bytes();
    assert_eq!(bytes.len(), nesle::ppu::snapshot::PPU_SNAPSHOT_LEN);

    let mut other = Ppu::default();
    assert!(other.restore_snapshot(&bytes).is_ok());
    assert_eq!(other.ctrl, 0x88);
    assert_eq!(other.mask, 0x1e);
    assert_eq!(other.oam[7], 0x42);
    assert_eq!(other.vram_addr, 0x2345);
    assert_eq!(other.nametable[0x123], 0x99);
    assert_eq!(other.palette[3], 0x2a);
    assert_eq!(other.master_clock, 0x0123_4567_89ab_cdef);
    assert_eq!(other.scanline, -1);
    assert_eq!(other.cycle, 300);
    assert_eq!(other.frame_count, 77);
    assert_eq!(other.region, Region::Pal);
    assert_eq!(other.sprite_tiles[5].sprite_x, 33);
    assert!(other.sprite_tiles[5].horizontal_mirror);
    assert_eq!(other.ppu_open_bus_decay_stamp[6], 0xdead_beef);
    assert_eq!(other.ignore_vram_read, 3);
    assert_eq!(other.last_updated_pixel, -1);
    assert!(other.has_sprite.iter().all(|&covered| covered));
    assert_eq!(other.snapshot_bytes()[..4821], bytes[..4821]);
}

#[test]
fn snapshot_with_trailing_bytes_is_refused() {
    let mut ppu = Ppu::default();
    ppu.has_sprite[3] = true;
    let mut bytes = ppu.snapshot_bytes();
    bytes.push(0);
    let mut other = Ppu::default();
    assert!(other.restore_snapshot(&bytes).is_err());
    assert!(other.has_sprite[3]);
    assert!(!other.has_sprite[4]);
}

#[test]
fn snapshot_unknown_region_byte_reads_as_ntsc() {
    let mut ppu = Ppu::default();
    ppu.region = Region::Dendy;
    let mut bytes = ppu.snapshot_bytes();
    bytes[4430] = 9;
    let mut other = Ppu::default();
    other.region = Region::Pal;
    assert!(other.restore_snapshot(&bytes).is_ok());
    assert_eq!(other.region, Region::Ntsc);
}

fn blank_eval() -> nesle::ppu::render::SpriteEval {
    nesle::ppu::render::SpriteEval {
        oam_copy_buffer: 0,
        secondary: [0; 32],
        secondary_oam_addr: 0,
        sprite_addr_h: 0,
        sprite_addr_l: 0,
        sprite_in_range: false,
        sprite0_added: false,
        sprite0_visible: false,
        sprite_count: 0,
        overflow_bug_counter: 0,
        oam_copy_done: false,
        last_visible_sprite_addr: 0,
        first_visible_sprite_addr: 0,
        oam_addr: 0,
        status: 0,
    }
}

#[test]
fn sprite_evaluation_dots_clear_read_and_copy() {
    let mut oam = [0xf0u8; 256];
    oam[0] = 5;
    oam[1] = 0x11;
    oam[2] = 0x22;
    oam[3] = 0x33;
    let mut e = blank_eval();
    sprite_eval_dot(&mut e, 1, 10, false, &oam);
    assert_eq!(e.secondary[0], 0xff);
    assert_eq!(e.oam_copy_buffer, 0xff);
    sprite_eval_dot(&mut e, 65, 10, false, &oam);
    assert_eq!(e.oam_copy_buffer, 5);
    sprite_eval_dot(&mut e, 66, 10, false, &oam);
    assert_eq!(e.secondary[0], 5);
    assert!(e.sprite0_added);
    assert_eq!(e.secondary_oam_addr, 1);
    assert_eq!(e.oam_addr, 1);
    for dot in 67..=72u16 {
        sprite_eval_dot(&mut e, dot, 10, false, &oam);
    }
    assert_eq!(&e.secondary[0..4], &[5, 0x11, 0x22, 0x33]);
    assert_eq!(e.sprite_addr_h, 1);
    assert!(!e.sprite_in_range);
}

#[test]
fn sprite_evaluation_counts_eight_and_flags_overflow() {
    let mut oam = [0xf0u8; 256];
    for i in 0..9 {
        oam[i * 4] = 5;
    }
    let mut e = blank_eval();
    for dot in 65..=256u16 {
        sprite_eval_dot(&mut e, dot, 10, false, &oam);
    }
    assert_eq!(e.sprite_count, 8);
    assert!(e.sprite0_visible);
    assert_ne!(e.status & 0x20, 0);
}
