//! The CPU-visible register file (`$2000-$2007`), the decaying I/O open bus
//! and PPU-bus accesses routed through the cartridge board.
use vstd::prelude::*;
use crate::cartridge::Region;
use crate::cpu::InterruptLines;
use crate::mapper::Mapper;
use super::memory::{nametable_index, nametable_slot, palette_value, palette_written};
use crate::cartridge::Mirroring;
use super::{Ppu, FRAME_PIXELS};

verus! {

/// The `$2000`/`$2005`/`$2006` write scroll glitch at dot 257 stays off.
pub const ENABLE_PPU_2000_SCROLL_GLITCH: bool = false;

/// Whether open-bus bit `b` was refreshed recently enough to still hold:
/// a bit decays once more than three frames have passed since its refresh.
pub open spec fn bit_fresh(stamps: Seq<u32>, frame: u32, b: int) -> bool {
    (if frame >= stamps[b] { frame - stamps[b] } else { 0 }) <= 3
}

pub open spec fn fresh_bit(stamps: Seq<u32>, frame: u32, b: int) -> u8 {
    if bit_fresh(stamps, frame, b) { (1u8 << (b as u8)) } else { 0u8 }
}

/// Open-bus bits that have not decayed at `frame`.
pub open spec fn fresh_mask(stamps: Seq<u32>, frame: u32) -> u8 {
    fresh_bit(stamps, frame, 0) | fresh_bit(stamps, frame, 1) | fresh_bit(stamps, frame, 2)
        | fresh_bit(stamps, frame, 3) | fresh_bit(stamps, frame, 4) | fresh_bit(stamps, frame, 5)
        | fresh_bit(stamps, frame, 6) | fresh_bit(stamps, frame, 7)
}

/// The open bus after driving the bits of `mask` with `value`: driven bits
/// take the new value, the others keep their level unless they decayed.
pub open spec fn bus_driven(p: Ppu, mask: u8, value: u8) -> u8 {
    (value & mask) | (p.ppu_open_bus & !mask & fresh_mask(p.ppu_open_bus_decay_stamp@, p.frame_count))
}

/// Decay stamps after driving the bits of `mask`.
pub open spec fn stamps_driven(p: Ppu, mask: u8) -> Seq<u32> {
    Seq::new(8, |b: int| if (mask >> (b as u8)) & 1 == 1 { p.frame_count } else { p.ppu_open_bus_decay_stamp@[b] })
}

/// The PPU after driving the open bus.
pub open spec fn open_bus_set(p: Ppu, q: Ppu, mask: u8, value: u8) -> bool {
    &&& q == (Ppu {
        ppu_open_bus: bus_driven(p, mask, value),
        io_latch: bus_driven(p, mask, value),
        ppu_open_bus_decay_stamp: q.ppu_open_bus_decay_stamp,
        ..p
    })
    &&& q.ppu_open_bus_decay_stamp@ == stamps_driven(p, mask)
}

/// Grayscale mask and emphasis bits that `$2001` selects for `region`
/// (PAL and Dendy swap the red and green emphasis bits).
pub open spec fn color_masks(mask: u8, region: Region) -> (u8, u16) {
    let red = match region {
        Region::Ntsc => mask & 0x20 != 0,
        _ => mask & 0x40 != 0,
    };
    let green = match region {
        Region::Ntsc => mask & 0x40 != 0,
        _ => mask & 0x20 != 0,
    };
    let blue = mask & 0x80 != 0;
    (
        if mask & 0x01 != 0 { 0x30u8 } else { 0x3fu8 },
        ((if red { 0x40u16 } else { 0 }) | (if green { 0x80u16 } else { 0 }) | (if blue { 0x100u16 } else { 0 })) as u16,
    )
}

/// First visible dot of background, sprites and sprite-0 hit under `$2001`:
/// 0 when the layer shows in the leftmost 8 pixels, 8 when it is clipped
/// there, 300 (never) when the layer is off.
pub open spec fn draw_start(enabled: bool, leftmost: bool) -> u16 {
    if enabled {
        if leftmost { 0 } else { 8 }
    } else {
        300
    }
}

/// Index of the last output pixel that the beam has passed at the current
/// dot (`-1` before the first pixel of a line).
pub open spec fn beam_pixel(scanline: i16, cycle: u16) -> int {
    if scanline >= 240 {
        61439
    } else if cycle < 3 {
        scanline * 256 - 1
    } else if cycle <= 258 {
        scanline * 256 + cycle - 3
    } else {
        scanline * 256 + 255
    }
}

/// The frame after applying grayscale `mask` and emphasis `emph` to the
/// pixels after `from` up to `to`.
#[verifier::opaque]
pub open spec fn frame_tinted(out: Seq<u16>, from: int, to: int, mask: u8, emph: u16) -> Seq<u16> {
    Seq::new(out.len(), |i: int| if from < i <= to { (out[i] & (mask as u16)) | emph } else { out[i] })
}

/// Last flushed pixel after a grayscale/emphasis flush.
pub open spec fn flushed_pixel(p: Ppu) -> int {
    let px = beam_pixel(p.scanline, p.cycle);
    if p.last_updated_pixel < px { px } else { p.last_updated_pixel as int }
}

/// Frame after a grayscale/emphasis flush: the pixels the beam drew since
/// the last flush take the masks in force while they were drawn.
pub open spec fn flushed_frame(p: Ppu) -> Seq<u16> {
    let px = beam_pixel(p.scanline, p.cycle);
    if p.last_updated_pixel < px {
        frame_tinted(p.output_buffer@, p.last_updated_pixel as int, px, p.palette_ram_mask, p.intensify_color_bits)
    } else {
        p.output_buffer@
    }
}

/// `$2000` write.
pub open spec fn ctrl_written(p: Ppu, value: u8) -> Ppu {
    Ppu { ctrl: value, temp_addr: ((p.temp_addr & 0xf3ff) | (((value as u16) & 0x03) << 10u16)) as u16, ..p }
}

/// `$2003` write.
pub open spec fn oam_addr_written(p: Ppu, value: u8) -> Ppu {
    Ppu { oam_addr: value, ppu_spl: value & 0x07, ..p }
}

/// OAM contents after a `$2004` write: outside rendering the byte goes to
/// OAM (attribute bytes lose their unused bits 2-4).
pub open spec fn oam_after_data_write(p: Ppu, value: u8) -> Seq<u8> {
    if p.scanline >= 240 || !p.rendering_enabled {
        p.oam@.update(p.oam_addr as int, if p.oam_addr & 0x03 == 0x02 { value & 0xe3 } else { value })
    } else {
        p.oam@
    }
}

/// `$2005` write: first write sets coarse X and fine X, second write sets
/// coarse and fine Y.
pub open spec fn scroll_written(p: Ppu, value: u8) -> Ppu {
    Ppu {
        fine_x: if p.write_latch { p.fine_x } else { value & 0x07 },
        temp_addr: scroll_temp(p.temp_addr, p.write_latch, value),
        write_latch: !p.write_latch,
        ..p
    }
}

/// `t` after a `$2005` write.
pub open spec fn scroll_temp(t: u16, second: bool, value: u8) -> u16 {
    let v = value as u16;
    if second {
        (((t & 0x8fff) | ((v & 0x07) << 12u16)) & 0xfc1f) | ((v & 0xf8) << 2u16)
    } else {
        (t & 0xffe0) | (v >> 3u16)
    }
}

/// `$2005` writes: the first puts the top five bits of the value in coarse
/// X (bits 0-4 of `t`), keeping the rest of `t`, and its low three bits in
/// fine X; the second puts the low three bits in fine Y (bits 12-14) and
/// the top five in coarse Y (bits 5-9), keeping coarse X, the nametable
/// select (bits 10-11) and bit 15.
pub proof fn law_scroll_writes(p: Ppu, value: u8)
    ensures
        ({
            let first = scroll_written(p, value);
            let t = p.temp_addr;
            let r = scroll_temp(t, true, value);
            &&& !p.write_latch ==> first.temp_addr % 0x20 == value / 8 && first.temp_addr / 0x20 == t / 0x20
                && first.fine_x == value % 8 && first.write_latch
            &&& (r / 0x1000) % 8 == value % 8
            &&& (r / 0x20) % 0x20 == value / 8
            &&& r % 0x20 == t % 0x20
            &&& r & 0x0c00 == t & 0x0c00
            &&& (r >= 0x8000) == (t >= 0x8000)
            &&& p.write_latch ==> scroll_written(p, value).temp_addr == r && scroll_written(p, value).fine_x == p.fine_x
        }),
{
    crate::bits::lemma_law_bits();
    crate::bits::lemma_u8_bits();
    let v = value as u16;
    let t = p.temp_addr;
    assert(v < 256);
    assert(scroll_temp(t, true, value) == (((t & 0x8fff) | ((v & 0x07) << 12u16)) & 0xfc1f) | ((v & 0xf8) << 2u16));
    assert(scroll_temp(t, false, value) == (t & 0xffe0) | (v >> 3u16));
    assert(value & 0x07 == value % 8);
}

/// `t` after a `$2006` write.
pub open spec fn addr_temp(t: u16, second: bool, value: u8) -> u16 {
    let v = value as u16;
    if second {
        (t & 0xff00) | v
    } else {
        (t & 0x00ff) | ((v & 0x3f) << 8u16)
    }
}

/// `$2006` writes: the first puts the low six bits of the value in the high
/// byte of `t` (bits 14 and 15 cleared) and keeps its low byte; the second
/// puts the value in the low byte and keeps the high byte. Two writes from
/// any `t` leave `t` equal to the address `(hi & 0x3f) * 256 + lo`.
pub proof fn law_addr_writes(t: u16, hi: u8, lo: u8)
    ensures
        addr_temp(t, false, hi) % 256 == t % 256,
        addr_temp(t, false, hi) / 256 == hi % 64,
        addr_temp(t, true, lo) % 256 == lo,
        addr_temp(t, true, lo) / 256 == t / 256,
        addr_temp(addr_temp(t, false, hi), true, lo) == (hi % 64) * 256 + lo,
{
    crate::bits::lemma_law_bits();
    let a = addr_temp(t, false, hi);
    let b = addr_temp(a, true, lo);
    assert(a == (t & 0x00ff) | (((hi as u16) & 0x3f) << 8u16));
    assert(addr_temp(t, true, lo) == (t & 0xff00) | (lo as u16));
    assert(b == (a & 0xff00) | (lo as u16));
    assert(b % 256 == lo && b / 256 == a / 256);
    assert(b == (b / 256) * 256 + b % 256);
}

/// `$2006` write: first write sets the high six address bits, second write
/// the low byte and schedules the copy into `v` three dots later.
pub open spec fn addr_written(p: Ppu, value: u8) -> Ppu {
    Ppu {
        temp_addr: addr_temp(p.temp_addr, p.write_latch, value),
        update_vram_addr: if p.write_latch { addr_temp(p.temp_addr, true, value) } else { p.update_vram_addr },
        update_vram_addr_delay: if p.write_latch { 3 } else { p.update_vram_addr_delay },
        need_state_update: p.need_state_update || p.write_latch,
        write_latch: !p.write_latch,
        ..p
    }
}

/// A nametable read at `addr` gave `r`: the board answered it itself, or
/// left it to console RAM `ciram` at the slot its mirroring selects; the
/// board and interrupt lines went from `m`, `irq` to `next`, `next_irq`.
#[verifier::opaque]
pub open spec fn nametable_read<M: Mapper>(
    m: M,
    addr: u16,
    ciram: Seq<u8>,
    irq: InterruptLines,
    next: M,
    next_irq: InterruptLines,
    r: u8,
) -> bool {
    exists|ans: Option<u8>|
        #[trigger] m.nametable_read_result(addr, ciram, irq, next, next_irq, ans) && match ans {
            Some(v) => r == v,
            None => exists|mode: Mirroring| #[trigger] next.mirrors(mode) && r == ciram[nametable_slot(addr, mode)],
        }
}

/// A nametable write of `value` at `addr`: the board took it itself, or
/// console RAM stored it at the slot the board's mirroring selects; the
/// board and console RAM went from `m`, `ciram` to `next`, `next_ciram`.
#[verifier::opaque]
pub open spec fn nametable_write<M: Mapper>(m: M, addr: u16, value: u8, ciram: Seq<u8>, next: M, next_ciram: Seq<u8>) -> bool {
    exists|served: bool, mid: Seq<u8>|
        #[trigger] m.nametable_written(addr, value, ciram, next, mid, served) && if served {
            next_ciram == mid
        } else {
            exists|mode: Mirroring| #[trigger] next.mirrors(mode) && next_ciram == mid.update(nametable_slot(addr, mode), value)
        }
}

/// A PPU-bus read at `addr` gave `r`: a pattern byte from the board, a
/// nametable byte (see `nametable_read`), or a palette entry; the board and
/// interrupt lines went from `m`, `irq` to `next`, `next_irq`.
#[verifier::opaque]
pub open spec fn bus_fetch<M: Mapper>(
    nametable: Seq<u8>,
    palette: Seq<u8>,
    addr: u16,
    m: M,
    irq: InterruptLines,
    next: M,
    next_irq: InterruptLines,
    r: u8,
) -> bool {
    if addr & 0x3fff < 0x2000 {
        m.ppu_read_result(addr, next, r) && next_irq == irq
    } else if addr & 0x3fff < 0x3f00 {
        nametable_read(m, addr, nametable, irq, next, next_irq, r)
    } else {
        r == palette_value(palette, addr) && next == m && next_irq == irq
    }
}

/// A PPU-bus write of `value` at `addr` (already within `$0000-$3FFF`):
/// pattern memory on the board, a nametable (see `nametable_write`), or
/// palette RAM; nametable RAM, palette RAM and the board went from
/// `nametable`, `palette`, `m` to `next_nametable`, `next_palette`, `next`.
#[verifier::opaque]
pub open spec fn bus_store<M: Mapper>(
    nametable: Seq<u8>,
    palette: Seq<u8>,
    addr: u16,
    value: u8,
    m: M,
    next_nametable: Seq<u8>,
    next_palette: Seq<u8>,
    next: M,
) -> bool {
    if addr < 0x2000 {
        next_nametable == nametable && next_palette == palette && m.ppu_written(addr, value, next)
    } else if addr < 0x3f00 {
        next_palette == palette && nametable_write(m, addr, value, nametable, next, next_nametable)
    } else {
        next_palette == palette_written(palette, addr, value) && next_nametable == nametable && next == m
    }
}

/// The byte a `$2007` write of `value` puts on the PPU bus: during
/// rendering a non-palette write stores the low byte of the bus address
/// instead.
pub open spec fn data_write_value(p: Ppu, value: u8) -> u8 {
    if p.ppu_bus_address & 0x3fff >= 0x3f00 || p.scanline >= 240 || !p.rendering_enabled {
        value
    } else {
        (p.ppu_bus_address & 0xff) as u8
    }
}

/// PPU-bus read: pattern tables from the board, nametables from the board
/// or console RAM under the board's mirroring, palette from palette RAM.
pub fn bus_read<M: Mapper>(
    nametable: &[u8; 0x1000],
    palette: &[u8; 32],
    addr: u16,
    mapper: &mut M,
    interrupt: &mut InterruptLines,
) -> (r: u8)
    requires
        old(mapper).inv(),
    ensures
        final(mapper).inv(),
        addr & 0x3fff >= 0x3f00 ==> r == palette_value(palette@, addr)
            && *final(mapper) == *old(mapper) && *final(interrupt) == *old(interrupt),
        addr & 0x3fff < 0x2000 ==> old(mapper).ppu_read_result(addr, *final(mapper), r)
            && *final(interrupt) == *old(interrupt),
        0x2000 <= addr & 0x3fff < 0x3f00 ==> nametable_read(
            *old(mapper),
            addr,
            nametable@,
            *old(interrupt),
            *final(mapper),
            *final(interrupt),
            r,
        ),
        bus_fetch(nametable@, palette@, addr, *old(mapper), *old(interrupt), *final(mapper), *final(interrupt), r),
{
    proof {
        crate::bits::lemma_u16_bits();
        crate::bits::lemma_usize_bits();
        reveal(bus_fetch);
    }
    let a = addr & 0x3fff;
    if a <= 0x1fff {
        mapper.ppu_read(addr)
    } else if a <= 0x3eff {
        let ghost m0 = *mapper;
        let ghost i0 = *interrupt;
        let ans = mapper.ppu_read_nametable(addr, nametable, interrupt);
        match ans {
            Some(v) => {
                proof {
                    reveal(nametable_read);
                }
                v
            },
            None => {
                let m = mapper.nametable_mirroring();
                let index = nametable_index(addr, m);
                assert(m0.nametable_read_result(addr, nametable@, i0, *mapper, *interrupt, ans));
                proof {
                    reveal(nametable_read);
                }
                nametable[index]
            },
        }
    } else {
        let mut index = ((addr - 0x3f00) & 0x001f) as usize;
        if index >= 0x10 && index & 0x03 == 0 {
            index -= 0x10;
        }
        palette[index]
    }
}

/// PPU-bus write: pattern tables to the board, nametables to the board or
/// console RAM under the board's mirroring, palette to palette RAM.
pub fn bus_write<M: Mapper>(nametable: &mut [u8; 0x1000], palette: &mut [u8; 32], addr: u16, value: u8, mapper: &mut M)
    requires
        old(mapper).inv(),
    ensures
        final(mapper).inv(),
        addr & 0x3fff >= 0x3f00 ==> final(palette)@ == palette_written(old(palette)@, (addr & 0x3fff) as u16, value)
            && *final(nametable) == *old(nametable) && *final(mapper) == *old(mapper),
        addr & 0x3fff < 0x3f00 ==> *final(palette) == *old(palette),
        addr & 0x3fff < 0x2000 ==> *final(nametable) == *old(nametable)
            && old(mapper).ppu_written(addr & 0x3fff, value, *final(mapper)),
        0x2000 <= addr & 0x3fff < 0x3f00 ==> nametable_write(
            *old(mapper),
            addr & 0x3fff,
            value,
            old(nametable)@,
            *final(mapper),
            final(nametable)@,
        ),
        bus_store(old(nametable)@, old(palette)@, addr & 0x3fff, value, *old(mapper), final(nametable)@, final(palette)@, *final(mapper)),
{
    proof {
        reveal(bus_store);
        crate::bits::lemma_u16_bits();
    }
    let addr = addr & 0x3fff;
    if addr <= 0x1fff {
        mapper.ppu_write(addr, value);
    } else if addr <= 0x3eff {
        let ghost m0 = *mapper;
        let ghost c0 = nametable@;
        let handled = mapper.ppu_write_nametable(addr, value, nametable);
        let ghost mid = nametable@;
        assert(m0.nametable_written(addr, value, c0, *mapper, mid, handled));
        if !handled {
            let m = mapper.nametable_mirroring();
            let index = nametable_index(addr, m);
            nametable[index] = value;
            assert(nametable@ =~= mid.update(nametable_slot(addr, m), value));
        }
        proof {
            reveal(nametable_write);
        }
    } else {
        super::memory::write_palette(palette, addr, value);
    }
}

/// The register a CPU address in `$2000-$3FFF` selects.
pub fn register_of(addr: u16) -> (r: u16)
    ensures
        r == addr & 0x2007,
{
    addr & 0x2007
}

/// The byte an OAMDATA write stores at OAMADDR `addr`: attribute bytes
/// (`addr % 4 == 2`) lose bits 2-4.
pub fn oam_data_value(addr: u8, value: u8) -> (r: u8)
    ensures
        r == if addr & 0x03 == 0x02 { value & 0xe3 } else { value },
{
    if addr & 0x03 == 0x02 { value & 0xe3 } else { value }
}

/// Grayscale mask and emphasis bits for `$2001` value `mask` in `region`.
pub fn color_masks_of(mask: u8, region: Region) -> (r: (u8, u16))
    ensures
        r == color_masks(mask, region),
{
    let gray = if mask & 0x01 != 0 { 0x30 } else { 0x3f };
    let (red, green) = match region {
        Region::Ntsc => (mask & 0x20 != 0, mask & 0x40 != 0),
        _ => (mask & 0x40 != 0, mask & 0x20 != 0),
    };
    let blue = mask & 0x80 != 0;
    let emph: u16 = (if red { 0x40 } else { 0 }) | (if green { 0x80 } else { 0 }) | (if blue { 0x100 } else { 0 });
    (gray, emph)
}

pub fn scroll_temp_of(t: u16, second: bool, value: u8) -> (r: u16)
    ensures
        r == scroll_temp(t, second, value),
{
    let v = value as u16;
    if second {
        (((t & 0x8fff) | ((v & 0x07) << 12)) & 0xfc1f) | ((v & 0xf8) << 2)
    } else {
        (t & 0xffe0) | (v >> 3)
    }
}

pub fn addr_temp_of(t: u16, second: bool, value: u8) -> (r: u16)
    ensures
        r == addr_temp(t, second, value),
{
    let v = value as u16;
    if second {
        (t & 0xff00) | v
    } else {
        (t & 0x00ff) | ((v & 0x3f) << 8)
    }
}

/// Output pixel the beam has just passed at (`scanline`, `cycle`).
pub fn beam_pixel_of(scanline: i16, cycle: u16) -> (r: i32)
    requires
        0 <= scanline <= 400,
    ensures
        r == beam_pixel(scanline, cycle),
        -1 <= r <= 61439,
{
    let scan = scanline as i32;
    if scan >= 240 {
        61439
    } else if cycle < 3 {
        scan * 256 - 1
    } else if cycle <= 258 {
        scan * 256 + cycle as i32 - 3
    } else {
        scan * 256 + 255
    }
}

/// Flush grayscale/emphasis up to pixel `px`; returns the new last flushed
/// pixel.
pub fn flush_frame(buf: &mut Vec<u16>, last: i32, px: i32, mask: u8, emph: u16) -> (r: i32)
    requires
        old(buf)@.len() == FRAME_PIXELS,
        -1 <= last,
        -1 <= px <= 61439,
    ensures
        final(buf)@ == (if last < px { frame_tinted(old(buf)@, last as int, px as int, mask, emph) } else { old(buf)@ }),
        r == (if last < px { px } else { last }),
        final(buf)@.len() == FRAME_PIXELS,
{
    reveal(frame_tinted);
    if last < px {
        tint_frame(buf, last, px, mask, emph);
        px
    } else {
        last
    }
}

/// Apply grayscale `mask` and emphasis `emph` to pixels `from + 1 ..= to`.
pub fn tint_frame(buf: &mut Vec<u16>, from: i32, to: i32, mask: u8, emph: u16)
    requires
        old(buf)@.len() == FRAME_PIXELS,
        -1 <= from <= to <= 61439,
    ensures
        final(buf)@ == frame_tinted(old(buf)@, from as int, to as int, mask, emph),
{
    let ghost out0 = buf@;
    let m = mask as u16;
    reveal(frame_tinted);
    let mut cur = from;
    while cur < to
        invariant
            buf@.len() == FRAME_PIXELS,
            -1 <= from <= cur <= to <= 61439,
            m == mask as u16,
            buf@ == frame_tinted(out0, from as int, cur as int, mask, emph),
        decreases to - cur,
    {
        reveal(frame_tinted);
        let idx = (cur + 1) as usize;
        let v = (buf[idx] & m) | emph;
        buf.set(idx, v);
        cur += 1;
        assert(buf@ =~= frame_tinted(out0, from as int, cur as int, mask, emph));
    }
}

/// The I/O open bus after driving the bits of `mask` with `value` at frame
/// `frame`, with the refreshed decay stamps.
pub fn drive_bus(bus: u8, stamps: [u32; 8], frame: u32, mask: u8, value: u8) -> (r: (u8, [u32; 8]))
    ensures
        r.0 == (value & mask) | (bus & !mask & fresh_mask(stamps@, frame)),
        forall|b: int| 0 <= b < 8 ==> r.1@[b] == (if (mask >> (b as u8)) & 1 == 1 { frame } else { stamps@[b] }),
{
    let f = frame;
    let s = stamps;
    let keep: u8 = (if f.saturating_sub(s[0]) <= 3 { 1u8 } else { 0u8 })
        | (if f.saturating_sub(s[1]) <= 3 { 2u8 } else { 0u8 })
        | (if f.saturating_sub(s[2]) <= 3 { 4u8 } else { 0u8 })
        | (if f.saturating_sub(s[3]) <= 3 { 8u8 } else { 0u8 })
        | (if f.saturating_sub(s[4]) <= 3 { 16u8 } else { 0u8 })
        | (if f.saturating_sub(s[5]) <= 3 { 32u8 } else { 0u8 })
        | (if f.saturating_sub(s[6]) <= 3 { 64u8 } else { 0u8 })
        | (if f.saturating_sub(s[7]) <= 3 { 128u8 } else { 0u8 });
    assert(keep == fresh_mask(s@, f)) by {
        crate::bits::lemma_bus_bits();
    }
    let next = (value & mask) | (bus & !mask & keep);
    let mut out = s;
    let mut bit: usize = 0;
    while bit < 8
        invariant
            bit <= 8,
            forall|b: int| 0 <= b < bit ==> out@[b] == (if (mask >> (b as u8)) & 1 == 1 { f } else { s@[b] }),
            forall|b: int| bit <= b < 8 ==> out@[b] == s@[b],
        decreases 8 - bit,
    {
        let b8 = bit as u8;
        if (mask >> b8) & 1 == 1 {
            out[bit] = f;
        }
        bit += 1;
    }
    (next, out)
}

impl Ppu {
    /// Drive the bits of `mask` on the I/O open bus with `value`, refreshing
    /// their decay stamps; undriven bits that decayed read as 0.
    pub fn set_ppu_open_bus(&mut self, mask: u8, value: u8)
        ensures
            open_bus_set(*old(self), *final(self), mask, value),
    {
        if mask == 0xff {
            self.drive_open_bus(value);
            proof {
                crate::bits::lemma_bus_bits();
            }
            assert forall|b: int| 0 <= b < 8 implies (#[trigger] (0xffu8 >> (b as u8))) & 1 == 1 by {
                let b8 = b as u8;
                assert((0xffu8 >> b8) & 1 == 1);
            }
            assert(self.ppu_open_bus_decay_stamp@ =~= stamps_driven(*old(self), mask));
            let ghost fm = fresh_mask(old(self).ppu_open_bus_decay_stamp@, old(self).frame_count);
            let ghost ob = old(self).ppu_open_bus;
            assert((value & 0xffu8) | (ob & !0xffu8 & fm) == value);
            return;
        }
        let (next, stamps) = drive_bus(self.ppu_open_bus, self.ppu_open_bus_decay_stamp, self.frame_count, mask, value);
        self.ppu_open_bus = next;
        self.ppu_open_bus_decay_stamp = stamps;
        self.io_latch = next;
        assert(stamps@ =~= stamps_driven(*old(self), mask));
    }

    /// Drive the whole open bus with `value` and refresh every decay stamp.
    pub fn drive_open_bus(&mut self, value: u8)
        ensures
            *final(self) == (Ppu {
                ppu_open_bus: value,
                io_latch: value,
                ppu_open_bus_decay_stamp: final(self).ppu_open_bus_decay_stamp,
                ..*old(self)
            }),
            final(self).ppu_open_bus_decay_stamp@ == super::filled(8, old(self).frame_count),
    {
        self.ppu_open_bus = value;
        self.ppu_open_bus_decay_stamp = [self.frame_count; 8];
        self.io_latch = value;
        assert(self.ppu_open_bus_decay_stamp@ =~= super::filled(8, old(self).frame_count));
    }

    /// Drive the bits outside `mask` with `value` and return `value` with the
    /// open-bus level filling the bits of `mask`.
    pub fn apply_ppu_open_bus(&mut self, mask: u8, value: u8) -> (r: u8)
        ensures
            open_bus_set(*old(self), *final(self), !mask, value),
            r == value | (final(self).ppu_open_bus & mask),
    {
        self.set_ppu_open_bus(!mask, value);
        value | (self.ppu_open_bus & mask)
    }

    /// Put `addr` on the PPU bus and, for boards that watch it, tell the
    /// mapper at the current CPU cycle.
    pub fn set_bus_address_cached<const VRAM_HOOK: bool, M: Mapper>(
        &mut self,
        addr: u16,
        mapper: &mut M,
        interrupt: &mut InterruptLines,
    )
        requires
            old(mapper).inv(),
        ensures
            *final(self) == (Ppu { ppu_bus_address: addr, ..*old(self) }),
            final(mapper).inv(),
            !VRAM_HOOK ==> *final(mapper) == *old(mapper) && *final(interrupt) == *old(interrupt),
            VRAM_HOOK ==> old(mapper).vram_addr_notified(
                addr,
                old(self).mapper_cpu_cycle_count,
                *old(interrupt),
                *final(mapper),
                *final(interrupt),
            ),
    {
        self.ppu_bus_address = addr;
        if VRAM_HOOK {
            mapper.notify_vram_addr(addr, self.mapper_cpu_cycle_count, interrupt);
        }
    }

    /// Set the PPU bus address, notifying the mapper (with the address and
    /// the CPU cycle count) when its board watches the bus.
    pub fn set_bus_address<M: Mapper>(&mut self, addr: u16, mapper: &mut M, interrupt: &mut InterruptLines)
        requires
            old(mapper).inv(),
        ensures
            *final(self) == (Ppu { ppu_bus_address: addr, ..*old(self) }),
            final(mapper).inv(),
            old(mapper).watches_vram_addr() ==> old(mapper).vram_addr_notified(
                addr,
                old(self).mapper_cpu_cycle_count,
                *old(interrupt),
                *final(mapper),
                *final(interrupt),
            ),
            !old(mapper).watches_vram_addr() ==> *final(mapper) == *old(mapper) && *final(interrupt) == *old(interrupt),
    {
        let hook = mapper.has_vram_addr_hook();
        self.ppu_bus_address = addr;
        if hook {
            mapper.notify_vram_addr(addr, self.mapper_cpu_cycle_count, interrupt);
        }
    }

    /// PPU-bus read without driving the bus: pattern tables from the board,
    /// nametables from the board or console RAM, palette from palette RAM.
    pub fn ppu_read<M: Mapper>(&self, addr: u16, mapper: &mut M, interrupt: &mut InterruptLines) -> (r: u8)
        requires
            old(mapper).inv(),
        ensures
            final(mapper).inv(),
            addr & 0x3fff >= 0x3f00 ==> r == palette_value(self.palette@, addr)
                && *final(mapper) == *old(mapper) && *final(interrupt) == *old(interrupt),
            addr & 0x3fff < 0x2000 ==> old(mapper).ppu_read_result(addr, *final(mapper), r)
                && *final(interrupt) == *old(interrupt),
            0x2000 <= addr & 0x3fff < 0x3f00 ==> nametable_read(
                *old(mapper),
                addr,
                self.nametable@,
                *old(interrupt),
                *final(mapper),
                *final(interrupt),
                r,
            ),
            bus_fetch(self.nametable@, self.palette@, addr, *old(mapper), *old(interrupt), *final(mapper), *final(interrupt), r),
    {
        bus_read(&self.nametable, &self.palette, addr, mapper, interrupt)
    }

    /// Pipeline VRAM fetch: drive the bus with `addr`, then read it.
    pub fn read_vram<const VRAM_HOOK: bool, M: Mapper>(
        &mut self,
        addr: u16,
        mapper: &mut M,
        interrupt: &mut InterruptLines,
    ) -> (r: u8)
        requires
            old(mapper).inv(),
        ensures
            *final(self) == (Ppu { ppu_bus_address: addr, ..*old(self) }),
            final(mapper).inv(),
            addr & 0x3fff >= 0x3f00 ==> r == palette_value(old(self).palette@, addr),
    {
        self.ppu_bus_address = addr;
        if VRAM_HOOK {
            mapper.notify_vram_addr(addr, self.mapper_cpu_cycle_count, interrupt);
        }
        self.ppu_read(addr, mapper, interrupt)
    }

    /// PPU-bus write: pattern tables to the board, nametables to the board
    /// or console RAM, palette to palette RAM.
    pub fn ppu_write<M: Mapper>(&mut self, addr: u16, value: u8, mapper: &mut M)
        requires
            old(mapper).inv(),
        ensures
            final(mapper).inv(),
            *final(self) == (Ppu { palette: final(self).palette, nametable: final(self).nametable, ..*old(self) }),
            addr & 0x3fff >= 0x3f00 ==> final(self).palette@ == palette_written(old(self).palette@, (addr & 0x3fff) as u16, value)
                && final(self).nametable == old(self).nametable && *final(mapper) == *old(mapper),
            addr & 0x3fff < 0x3f00 ==> final(self).palette == old(self).palette,
            addr & 0x3fff < 0x2000 ==> final(self).nametable == old(self).nametable
                && old(mapper).ppu_written(addr & 0x3fff, value, *final(mapper)),
            0x2000 <= addr & 0x3fff < 0x3f00 ==> nametable_write(
                *old(mapper),
                addr & 0x3fff,
                value,
                old(self).nametable@,
                *final(mapper),
                final(self).nametable@,
            ),
            bus_store(
                old(self).nametable@,
                old(self).palette@,
                addr & 0x3fff,
                value,
                *old(mapper),
                final(self).nametable@,
                final(self).palette@,
                *final(mapper),
            ),
    {
        bus_write(&mut self.nametable, &mut self.palette, addr, value, mapper);
    }

    /// Grayscale and emphasis masks from `$2001` and the region.
    pub fn update_color_bit_masks(&mut self)
        ensures
            *final(self) == (Ppu {
                palette_ram_mask: color_masks(old(self).mask, old(self).region).0,
                intensify_color_bits: color_masks(old(self).mask, old(self).region).1,
                ..*old(self)
            }),
    {
        let (m, e) = color_masks_of(self.mask, self.region);
        self.palette_ram_mask = m;
        self.intensify_color_bits = e;
    }

    /// First visible dots of background, sprites and sprite-0 hit from `$2001`.
    pub fn update_minimum_draw_cycles(&mut self)
        ensures
            *final(self) == (Ppu {
                minimum_draw_bg_cycle: draw_start(old(self).mask & 0x08 != 0, old(self).mask & 0x02 != 0),
                minimum_draw_sprite_cycle: draw_start(old(self).mask & 0x10 != 0, old(self).mask & 0x04 != 0),
                minimum_draw_sprite_standard_cycle: draw_start(old(self).mask & 0x10 != 0, old(self).mask & 0x04 != 0),
                ..*old(self)
            }),
    {
        let bg_enabled = self.mask & 0x08 != 0;
        let sprites_enabled = self.mask & 0x10 != 0;
        let bg_leftmost_shown = self.mask & 0x02 != 0;
        let sprite_leftmost_shown = self.mask & 0x04 != 0;
        self.minimum_draw_bg_cycle = if bg_enabled {
            if bg_leftmost_shown { 0 } else { 8 }
        } else {
            300
        };
        self.minimum_draw_sprite_cycle = if sprites_enabled {
            if sprite_leftmost_shown { 0 } else { 8 }
        } else {
            300
        };
        self.minimum_draw_sprite_standard_cycle = if sprites_enabled {
            if sprite_leftmost_shown { 0 } else { 8 }
        } else {
            300
        };
    }

    /// Apply the current grayscale/emphasis to the pixels the beam has drawn
    /// since the last flush, then adopt the masks of the current `$2001`.
    pub fn update_grayscale_bits(&mut self)
        requires
            old(self).output_buffer@.len() == FRAME_PIXELS,
            -1 <= old(self).last_updated_pixel,
            -1 <= old(self).scanline,
            old(self).nmi_scanline <= 400,
        ensures
            *final(self) == (Ppu {
                palette_ram_mask: color_masks(old(self).mask, old(self).region).0,
                intensify_color_bits: color_masks(old(self).mask, old(self).region).1,
                last_updated_pixel: final(self).last_updated_pixel,
                output_buffer: final(self).output_buffer,
                ..*old(self)
            }),
            !old(self).render_enabled || old(self).scanline < 0 || old(self).scanline > old(self).nmi_scanline
                ==> final(self).last_updated_pixel == old(self).last_updated_pixel
                && final(self).output_buffer == old(self).output_buffer,
            old(self).render_enabled && 0 <= old(self).scanline <= old(self).nmi_scanline
                && old(self).palette_ram_mask == 0x3f && old(self).intensify_color_bits == 0
                ==> final(self).last_updated_pixel == beam_pixel(old(self).scanline, old(self).cycle)
                && final(self).output_buffer == old(self).output_buffer,
            old(self).render_enabled && 0 <= old(self).scanline <= old(self).nmi_scanline
                && !(old(self).palette_ram_mask == 0x3f && old(self).intensify_color_bits == 0)
                ==> final(self).last_updated_pixel == flushed_pixel(*old(self))
                && final(self).output_buffer@ == flushed_frame(*old(self)),
            final(self).output_buffer@.len() == FRAME_PIXELS,
    {
        self.flush_grayscale();
        let (m, e) = color_masks_of(self.mask, self.region);
        self.palette_ram_mask = m;
        self.intensify_color_bits = e;
    }

    /// Grayscale/emphasis flush of the pixels drawn since the last one.
    #[verifier::spinoff_prover]
    #[verifier::rlimit(40)]
    pub fn flush_grayscale(&mut self)
        requires
            old(self).output_buffer@.len() == FRAME_PIXELS,
            -1 <= old(self).last_updated_pixel,
            -1 <= old(self).scanline,
            old(self).nmi_scanline <= 400,
        ensures
            *final(self) == (Ppu {
                last_updated_pixel: final(self).last_updated_pixel,
                output_buffer: final(self).output_buffer,
                ..*old(self)
            }),
            !old(self).render_enabled || old(self).scanline < 0 || old(self).scanline > old(self).nmi_scanline
                ==> final(self).last_updated_pixel == old(self).last_updated_pixel
                && final(self).output_buffer == old(self).output_buffer,
            old(self).render_enabled && 0 <= old(self).scanline <= old(self).nmi_scanline
                && old(self).palette_ram_mask == 0x3f && old(self).intensify_color_bits == 0
                ==> final(self).last_updated_pixel == beam_pixel(old(self).scanline, old(self).cycle)
                && final(self).output_buffer == old(self).output_buffer,
            old(self).render_enabled && 0 <= old(self).scanline <= old(self).nmi_scanline
                && !(old(self).palette_ram_mask == 0x3f && old(self).intensify_color_bits == 0)
                ==> final(self).last_updated_pixel == flushed_pixel(*old(self))
                && final(self).output_buffer@ == flushed_frame(*old(self)),
            final(self).output_buffer@.len() == FRAME_PIXELS,
    {
        let scan = self.scanline as i32;
        if self.render_enabled && 0 <= scan && scan <= self.nmi_scanline as i32 {
            let pixel_number = beam_pixel_of(self.scanline, self.cycle);
            if self.palette_ram_mask == 0x3f && self.intensify_color_bits == 0 {
                self.last_updated_pixel = pixel_number;
            } else {
                let mut buf: Vec<u16> = Vec::new();
                core::mem::swap(&mut buf, &mut self.output_buffer);
                let last = flush_frame(&mut buf, self.last_updated_pixel, pixel_number, self.palette_ram_mask, self.intensify_color_bits);
                self.output_buffer = buf;
                self.last_updated_pixel = last;
            }
        }
    }
}

impl Ppu {
    /// `$2000` PPUCTRL write. The NMI output follows the enable bit while
    /// VBlank is flagged.
    pub fn write_ctrl(&mut self, value: u8, interrupt: &mut InterruptLines)
        ensures
            *final(self) == ctrl_written(*old(self), value),
            *final(interrupt) == (InterruptLines {
                nmi_flag: if value & 0x80 == 0 {
                    false
                } else if old(self).status & 0x80 != 0 {
                    true
                } else {
                    old(interrupt).nmi_flag
                },
                ..*old(interrupt)
            }),
    {
        self.ctrl = value;
        self.temp_addr = (self.temp_addr & 0xf3ff) | ((value as u16 & 0x03) << 10);
        if value & 0x80 == 0 {
            interrupt.clear_nmi_flag();
        } else if self.status & 0x80 != 0 {
            interrupt.set_nmi_flag();
        }
    }

    /// `$2001` PPUMASK write: leftmost-clip cycles update at once, pixels
    /// already drawn are flushed with the old grayscale/emphasis, and a change
    /// of the rendering enable is queued for the next dot.
    pub fn write_mask(&mut self, value: u8)
        requires
            old(self).output_buffer@.len() == FRAME_PIXELS,
            -1 <= old(self).last_updated_pixel,
            -1 <= old(self).scanline,
            old(self).nmi_scanline <= 400,
        ensures
            final(self).mask == value,
            final(self).minimum_draw_bg_cycle == draw_start(value & 0x08 != 0, value & 0x02 != 0),
            final(self).minimum_draw_sprite_cycle == draw_start(value & 0x10 != 0, value & 0x04 != 0),
            final(self).minimum_draw_sprite_standard_cycle == draw_start(value & 0x10 != 0, value & 0x04 != 0),
            final(self).palette_ram_mask == color_masks(value, old(self).region).0,
            final(self).intensify_color_bits == color_masks(value, old(self).region).1,
            final(self).need_state_update == (old(self).need_state_update
                || old(self).rendering_enabled != (value & 0x18 != 0)),
            final(self).output_buffer@.len() == FRAME_PIXELS,
            -1 <= final(self).last_updated_pixel,
            final(self).vram_addr == old(self).vram_addr,
            final(self).temp_addr == old(self).temp_addr,
            final(self).oam == old(self).oam,
            final(self).palette == old(self).palette,
            final(self).nametable == old(self).nametable,
            final(self).scanline == old(self).scanline,
            final(self).cycle == old(self).cycle,
            final(self).status == old(self).status,
            final(self).rendering_enabled == old(self).rendering_enabled,
            final(self).ppu_open_bus_decay_stamp == old(self).ppu_open_bus_decay_stamp,
            final(self).frame_count == old(self).frame_count,
    {
        self.mask = value;
        self.update_minimum_draw_cycles();
        self.update_grayscale_bits();
        let raw = (value & 0x18) != 0;
        if self.rendering_enabled != raw {
            self.need_state_update = true;
        }
    }

    /// `$2003` OAMADDR write; also moves the secondary `$2004` pointer.
    pub fn write_oam_addr(&mut self, value: u8)
        ensures
            *final(self) == oam_addr_written(*old(self), value),
    {
        self.oam_addr = value;
        self.ppu_spl = value & 0x07;
    }

    /// `$2004` OAMDATA write: stored outside rendering (attribute bytes lose
    /// bits 2-4) with OAMADDR + 1; during rendering only OAMADDR + 4.
    #[verifier::spinoff_prover]
    #[verifier::rlimit(40)]
    pub fn write_oam_data(&mut self, value: u8)
        ensures
            *final(self) == (Ppu { oam: final(self).oam, oam_addr: final(self).oam_addr, ..*old(self) }),
            final(self).oam@ == oam_after_data_write(*old(self), value),
            final(self).oam_addr == (if old(self).scanline >= 240 || !old(self).rendering_enabled {
                (old(self).oam_addr + 1) % 256
            } else {
                (old(self).oam_addr + 4) % 256
            }),
    {
        if self.scanline >= 240 || !self.rendering_enabled {
            let v = oam_data_value(self.oam_addr, value);
            let a = self.oam_addr as usize;
            self.oam[a] = v;
            self.oam_addr = self.oam_addr.wrapping_add(1);
        } else {
            self.oam_addr = self.oam_addr.wrapping_add(4);
        }
    }

    /// `$2005` PPUSCROLL write.
    pub fn write_scroll(&mut self, value: u8)
        ensures
            *final(self) == scroll_written(*old(self), value),
    {
        let second = self.write_latch;
        let t = scroll_temp_of(self.temp_addr, second, value);
        if !second {
            self.fine_x = value & 0x07;
        }
        self.temp_addr = t;
        self.write_latch = !second;
    }

    /// `$2006` PPUADDR write.
    pub fn write_addr(&mut self, value: u8)
        ensures
            *final(self) == addr_written(*old(self), value),
    {
        let second = self.write_latch;
        let t = addr_temp_of(self.temp_addr, second, value);
        self.temp_addr = t;
        if second {
            self.update_vram_addr = t;
            self.update_vram_addr_delay = 3;
            self.need_state_update = true;
        }
        self.write_latch = !second;
    }

    /// `$2007` PPUDATA write to the latched bus address; during rendering a
    /// non-palette write stores the bus address low byte instead. The
    /// address increment follows one dot later.
    pub fn write_data<M: Mapper>(&mut self, value: u8, mapper: &mut M)
        requires
            old(mapper).inv(),
        ensures
            final(mapper).inv(),
            *final(self) == (Ppu {
                palette: final(self).palette,
                nametable: final(self).nametable,
                need_video_ram_increment: true,
                need_state_update: true,
                ..*old(self)
            }),
            bus_store(
                old(self).nametable@,
                old(self).palette@,
                old(self).ppu_bus_address & 0x3fff,
                data_write_value(*old(self), value),
                *old(mapper),
                final(self).nametable@,
                final(self).palette@,
                *final(mapper),
            ),
    {
        let addr = self.ppu_bus_address & 0x3fff;
        let write_value = if addr >= 0x3f00 || self.scanline >= 240 || !self.rendering_enabled {
            value
        } else {
            (self.ppu_bus_address & 0xff) as u8
        };
        let b = self.ppu_bus_address;
        proof {
            crate::bits::lemma_u16_bits();
        }
        bus_write(&mut self.nametable, &mut self.palette, addr, write_value, mapper);
        self.need_video_ram_increment = true;
        self.need_state_update = true;
    }
}

/// The PPU right after a CPU write has driven `value` onto the I/O bus.
pub open spec fn bus_driven_state(p: Ppu, value: u8, stamps: [u32; 8]) -> Ppu {
    Ppu { ppu_open_bus: value, io_latch: value, ppu_open_bus_decay_stamp: stamps, ..p }
}

impl Ppu {
    /// Mid-scanline `t` corruption on register writes at dot 257; disabled
    /// (see `ENABLE_PPU_2000_SCROLL_GLITCH`).
    pub fn process_tmp_addr_scroll_glitch(&mut self, mask: u16, value: u16)
        ensures
            *final(self) == *old(self),
    {
        if ENABLE_PPU_2000_SCROLL_GLITCH && self.scanline < 240 && self.cycle == 257 && self.rendering_enabled {
            self.vram_addr = (self.vram_addr & !mask) | (value & mask);
        }
    }

    /// CPU write to a PPU register (`addr & 0x2007` selects it); `open_bus`
    /// is the CPU open-bus value at the time of the write.
    #[verifier::spinoff_prover]
    #[verifier::rlimit(100)]
    pub fn cpu_write_register<M: Mapper>(
        &mut self,
        addr: u16,
        value: u8,
        open_bus: u8,
        mapper: &mut M,
        interrupt: &mut InterruptLines,
    )
        requires
            old(mapper).inv(),
            old(self).output_buffer@.len() == FRAME_PIXELS,
            -1 <= old(self).last_updated_pixel,
            -1 <= old(self).scanline,
            old(self).nmi_scanline <= 400,
        ensures
            final(mapper).inv(),
            final(self).ppu_open_bus_decay_stamp@ == super::filled(8, old(self).frame_count),
            ({
                let q = bus_driven_state(*old(self), value, final(self).ppu_open_bus_decay_stamp);
                let a = addr & 0x2007;
                &&& a == 0x2000 ==> *final(self) == ctrl_written(q, value)
                &&& a == 0x2003 ==> *final(self) == oam_addr_written(q, value)
                &&& a == 0x2004 ==> *final(self) == (Ppu { oam: final(self).oam, oam_addr: final(self).oam_addr, ..q })
                    && final(self).oam@ == oam_after_data_write(q, value)
                    && final(self).oam_addr == (if old(self).scanline >= 240 || !old(self).rendering_enabled {
                        (old(self).oam_addr + 1) % 256
                    } else {
                        (old(self).oam_addr + 4) % 256
                    })
                &&& a == 0x2005 ==> *final(self) == scroll_written(q, value)
                &&& a == 0x2006 ==> *final(self) == addr_written(q, value)
                &&& a == 0x2002 ==> *final(self) == q
                &&& a == 0x2001 ==> final(self).mask == value
                    && final(self).need_state_update == (old(self).need_state_update
                        || old(self).rendering_enabled != (value & 0x18 != 0))
                    && final(self).palette_ram_mask == color_masks(value, old(self).region).0
                    && final(self).intensify_color_bits == color_masks(value, old(self).region).1
                &&& a == 0x2007 ==> *final(self) == (Ppu {
                    palette: final(self).palette,
                    nametable: final(self).nametable,
                    need_video_ram_increment: true,
                    need_state_update: true,
                    ..q
                }) && bus_store(
                    old(self).nametable@,
                    old(self).palette@,
                    old(self).ppu_bus_address & 0x3fff,
                    data_write_value(*old(self), value),
                    *old(mapper),
                    final(self).nametable@,
                    final(self).palette@,
                    *final(mapper),
                )
            }),
            addr & 0x2007 != 0x2000 ==> *final(interrupt) == *old(interrupt) || addr & 0x2007 == 0x2007,
            addr & 0x2007 == 0x2000 ==> final(interrupt).nmi_flag == (if value & 0x80 == 0 {
                false
            } else if old(self).status & 0x80 != 0 {
                true
            } else {
                old(interrupt).nmi_flag
            }),
            final(self).output_buffer@.len() == FRAME_PIXELS,
            -1 <= final(self).last_updated_pixel,
    {
        self.drive_open_bus(value);
        let a = addr & 0x2007;
        if a == 0x2000 {
            self.write_ctrl(value, interrupt);
            self.process_tmp_addr_scroll_glitch(0x0400, (open_bus as u16) << 10);
        } else if a == 0x2001 {
            self.write_mask(value);
        } else if a == 0x2003 {
            self.write_oam_addr(value);
        } else if a == 0x2004 {
            self.write_oam_data(value);
        } else if a == 0x2005 {
            let latched = self.write_latch;
            self.write_scroll(value);
            if !latched {
                self.process_tmp_addr_scroll_glitch(0x001f, (open_bus >> 3) as u16);
            }
        } else if a == 0x2006 {
            let latched = self.write_latch;
            self.write_addr(value);
            if !latched {
                self.process_tmp_addr_scroll_glitch(0x0c00, (open_bus as u16) << 8);
            }
        } else if a == 0x2007 {
            self.write_data(value, mapper);
        }
    }
}

} // verus!
