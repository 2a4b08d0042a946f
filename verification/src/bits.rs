//! Bit-level facts about masks, shifts and flag updates, proved once by the
//! bit-vector solver and used by the register and memory logic.
use vstd::prelude::*;

verus! {

/// Byte masks, shifts and single-bit flag updates.
pub proof fn lemma_u8_bits()
    by (bit_vector)
    ensures
        forall|x: u8| #[trigger] (x & 0x01) <= 1,
        forall|x: u8| #[trigger] (x & 0x03) <= 3,
        forall|x: u8| #[trigger] (x & 0x04) <= 4,
        forall|x: u8| #[trigger] (x & 0x07) <= 7,
        forall|x: u8| #[trigger] (x & 0x0f) <= 0x0f,
        forall|x: u8| #[trigger] (x & 0x1f) <= 0x1f,
        forall|x: u8| #[trigger] (x & 0x3f) <= 0x3f,
        forall|x: u8| #[trigger] (x & 0xfc) <= 0xfc,
        forall|x: u8| #[trigger] (x & 0xfe) <= 0xfe,
        forall|x: u8| #[trigger] (x & 0x01) == x % 2,
        forall|x: u8| #[trigger] (x & 0x03) == x % 4,
        forall|x: u8| #[trigger] (x & 0x07) == x % 8,
        forall|x: u8| #[trigger] (x >> 1u8) == x / 2,
        forall|x: u8| #[trigger] (x >> 2u8) == x / 4,
        forall|x: u8| #[trigger] (x << 1u8) == ((x * 2) % 256) as u8,
        forall|x: u8| #[trigger] (0u8 | x) == x,
        forall|x: u8| #[trigger] ((x | 0x20) & 0xdf) == x & 0xdf,
        forall|x: u8| #[trigger] ((x | 0x40) & 0xbf) == x & 0xbf,
        forall|x: u8| #[trigger] ((x | 0x80) & 0x80) != 0,
        forall|x: u8| #[trigger] ((x & !0x02u8) & 0x02) == 0,
        forall|x: u8| #[trigger] ((x & !0x02u8) & 0x04) == x & 0x04,
        forall|x: u8| #[trigger] ((x & 0xe0) & 0xe0) == x & 0xe0,
        forall|x: u8| #[trigger] ((x & 0x03) << 2u8) <= 12,
        forall|x: u8| #[trigger] (((x & 0x03) << 2u8) | 0x10) <= 0x1c,
        forall|x: u8| #[trigger] ((x >> 4u8) & 0x07) <= 7,
        forall|x: u8| #[trigger] ((x >> 3u8) & 0x1f) < 32,
        forall|x: u8| #[trigger] ((x >> 2u8) & 0x03) <= 3,
        forall|x: u8| #[trigger] x.wrapping_add(1) == ((x + 1) % 256) as u8,
        forall|x: u8| #[trigger] x.wrapping_sub(1) == ((x + 255) % 256) as u8,
        forall|x: u8| #[trigger] (x.wrapping_sub(1) & 0x0f) == ((x + 15) % 16) as u8,
        forall|x: u8, s: u8| #![trigger ((x >> s) & 0x01)] s < 8 ==> ((x >> s) & 0x01) <= 1,
        forall|x: u8, s: u8| #[trigger] ((x >> s) & 0x03) <= 3,
        forall|mc: u8| #[trigger] ((mc >> 2u8) & 0x03) == (mc / 4) % 4,
        forall|pb: u8| #[trigger] (pb & 0x0f) == pb % 16,
        forall|aq: u8| #[trigger] ((aq & 0x03) << 2u8) == 4 * (aq % 4),
        forall|cf: u8| #![trigger (cf & 0x10)] ((cf & 0x10) != 0) == ((cf / 16) % 2 == 1),
        forall|cb: u8| #![trigger (cb & 0x04)] ((cb & 0x04) != 0) == ((cb / 4) % 2 == 1),
        forall|bs: u8| #![trigger ((bs ^ 0x40) & 0x40)] (((bs ^ 0x40) & 0x40) != 0) == ((bs & 0x40) == 0),
        forall|pe: u8| #[trigger] (pe & 0xfe) == (pe - pe % 2) as u8,
        forall|pf: u8| #[trigger] ((pf & 0xfe) | 1) == ((pf & 0xfe) + 1) as u8,
        forall|pq: u8, sl: u8| #![trigger (pq | sl)] pq < 16 && (sl == 0 || sl == 0x10) ==> (pq | sl) == (pq + sl) as u8,
        forall|ex: u8| #[trigger] (ex & 0x10) == 0 || (ex & 0x10) == 0x10,
{
}

/// Sixteen-bit masks, shifts and address arithmetic.
pub proof fn lemma_u16_bits()
    by (bit_vector)
    ensures
        forall|x: u16| #[trigger] (x & 0x07) <= 7,
        forall|x: u16| #[trigger] (x & 0x1f) <= 0x1f,
        forall|x: u16| #[trigger] (x & 0x03ff) < 0x400,
        forall|x: u16| #[trigger] (x & 0x0fff) < 0x1000,
        forall|x: u16| #[trigger] (x & 0x1fff) < 0x2000,
        forall|x: u16| #[trigger] (x & 0x3fff) <= x,
        forall|x: u16| #[trigger] ((x & 0x3fff) & 0x3fff) == x & 0x3fff,
        forall|x: u16| #[trigger] (x & 0x07) == x % 8,
        forall|x: u16| #[trigger] (x & 0x01) == x % 2,
        forall|x: u16| #[trigger] (x >> 1u16) == x / 2,
        forall|vm: u16| #[trigger] (vm & 0x7fff) == vm % 0x8000,
        forall|x: u16| #[trigger] ((x >> 11u16) & 0x03) <= 3,
        forall|x: u16| #[trigger] (((x & 0x0c00) >> 10u16)) <= 3,
        forall|x: u16| #[trigger] (0x3f00u16 | x) >= 0x3f00,
        forall|x: u16| #[trigger] (((x >> 4u16) & 0x04) | (x & 0x02)) < 8,
        forall|x: u16| #![trigger ((x - 0x2000) as u16 & 0x0fff)] x >= 0x2000 ==> ((x - 0x2000) as u16 & 0x0fff) == x % 0x1000,
        forall|x: u16| #![trigger ((x - 0x3f00) as u16 & 0x001f)] x >= 0x3f00 ==> ((x - 0x3f00) as u16 & 0x001f) == x % 32,
        forall|x: u16| #![trigger (x & 0x1f)] (x & 0x1f) != 31 ==> x < 0xffff,
        forall|x: u16| #![trigger (x & 0x7000)] (x & 0x7000) != 0x7000 ==> x <= 0xefff,
        forall|x: u16| #[trigger] (((x & !0x7000u16) & 0x03e0u16) >> 5u16) == (x >> 5u16) & 0x1f,
        forall|x: u16| #[trigger] ((x >> 5u16) & 0x1f) <= 31,
        forall|x: i16| #[trigger] ((x as u16) as i16) == x,
        forall|x: i32| #[trigger] ((x as u32) as i32) == x,
        forall|x: i8| #[trigger] ((x as u8) as i8) == x,
        forall|x: u16, y: u16| #![trigger ((x & 0x0700) | y)] y <= 0xff ==> ((x & 0x0700) | y) <= 0x7ff,
        forall|x: u16, y: u16| #![trigger ((x & 0x00ff) | (y << 8u16))] y <= 7 ==> ((x & 0x00ff) | (y << 8u16)) <= 0x7ff,
        forall|x: u16, s: u16| #[trigger] (x >> s) <= x,
        forall|a: u16, b: u16| #![trigger (a & 0xff00), (b & 0xff00)] ((a & 0xff00) != (b & 0xff00)) == (a / 256 != b / 256),
{
}

/// The I/O open bus: driving all, none or some of its bits, and the
/// single-bit masks.
pub proof fn lemma_bus_bits()
    by (bit_vector)
    ensures
        forall|x: u8, k: u8| #[trigger] ((0u8 & 0u8) | (x & !0u8 & k)) == x & k,
        forall|x: u8, y: u8, k: u8| #[trigger] ((x & 0xffu8) | (y & !0xffu8 & k)) == x,
        forall|x: u8| #[trigger] (x | (x & 0xffu8)) == x,
        forall|x: u8| #[trigger] (x | (x & 0u8)) == x,
        forall|s: u8, o: u8, k: u8| #![trigger (s | (((s & 0xe0u8) | (o & !0xe0u8 & k)) & 0x1fu8))]
            (s & 0xe0) == s ==> (s | (((s & 0xe0u8) | (o & !0xe0u8 & k)) & 0x1fu8)) == s | ((o & k) & 0x1f),
        forall|b: u8| #[trigger] ((0u8 >> b) & 1) == 0,
        forall|b: u8| #![trigger ((0xffu8 >> b) & 1)] b < 8 ==> ((0xffu8 >> b) & 1) == 1,
        (1u8 << 0u8) == 1 && (1u8 << 1u8) == 2 && (1u8 << 2u8) == 4 && (1u8 << 3u8) == 8,
        (1u8 << 4u8) == 16 && (1u8 << 5u8) == 32 && (1u8 << 6u8) == 64 && (1u8 << 7u8) == 128,
        forall|x: u32| #[trigger] (x & 0x01) == x % 2,
{
}

/// Word-size masks for buffer indices.
pub proof fn lemma_usize_bits()
    by (bit_vector)
    ensures
        forall|x: usize| #[trigger] (x & 0xff) < 256,
        forall|x: usize| #[trigger] (x & 0x03ff) == x % 0x400,
        forall|x: usize| #[trigger] (x & 0x03) == x % 4,
        forall|x: usize| #[trigger] (x & 0x07ff) < 0x800,
        forall|x: usize| #[trigger] (x & 0x0fff) <= 0xfff,
        forall|x: usize| #[trigger] (x & 0xfc) <= 0xfc && (x & 0xfc) % 4 == 0,
        forall|x: usize| #![trigger (x ^ 0x10)] x < 32 ==> (x ^ 0x10) == ((x + 16) % 32) as usize,
        forall|y: usize| #![trigger (y & 0xfc)] y <= 256 && y % 4 == 0 ==> (y & 0xfc) == (y % 256) as usize,
{
}

/// Facts behind the behaviour laws: single-bit flag updates, the ADC
/// overflow test, sprite pattern bit selection, the noise LFSR step and the
/// `$2005` scroll copy, each in bit form and in arithmetic form.
pub proof fn lemma_law_bits()
    by (bit_vector)
    ensures
        forall|t: u8, f: u8| #[trigger] ((t | f) & f) == f,
        forall|t: u8, f: u8| #[trigger] ((t & !f) & f) == 0,
        forall|t: u8, f: u8, g: u8| #![trigger ((t | f) & g)] f & g == 0 ==> ((t | f) & g) == t & g,
        forall|t: u8, f: u8, g: u8| #![trigger ((t & !f) & g)] f & g == 0 ==> ((t & !f) & g) == t & g,
        0x01u8 & 0x40u8 == 0 && 0x01u8 & 0x02u8 == 0 && 0x01u8 & 0x80u8 == 0 && 0x40u8 & 0x02u8 == 0,
        0x40u8 & 0x80u8 == 0 && 0x02u8 & 0x80u8 == 0,
        0x40u8 & 0x01u8 == 0 && 0x02u8 & 0x01u8 == 0 && 0x80u8 & 0x01u8 == 0 && 0x02u8 & 0x40u8 == 0,
        0x80u8 & 0x40u8 == 0 && 0x80u8 & 0x02u8 == 0,
        0x02u8 & 0x7du8 == 0 && 0x80u8 & 0x7du8 == 0,
        forall|t: u8, f: u8| #[trigger] ((t | f) & !f) == t & !f,
        forall|t: u8, f: u8| #[trigger] ((t & !f) & !f) == t & !f,
        forall|x: u8| #[trigger] !x == (255 - x) as u8,
        0x01u8 & 0x3cu8 == 0 && 0x40u8 & 0x3cu8 == 0 && 0x02u8 & 0x3cu8 == 0 && 0x80u8 & 0x3cu8 == 0,
        forall|x: u8| #[trigger] (x & 0x80) == (if x >= 0x80 { 0x80u8 } else { 0u8 }),
        forall|a: u8, b: u8, q: u8| #[trigger] (!(a ^ b) & (a ^ q) & 0x80)
            == (if (a & 0x80) == (b & 0x80) && (q & 0x80) != (a & 0x80) { 0x80u8 } else { 0u8 }),
        forall|lo: u8, hi: u8, s: u8| #![trigger ((((lo << s) & 0x80) >> 7u8) | (((hi << s) & 0x80) >> 6u8))]
            s < 8 ==> ((((lo << s) & 0x80) >> 7u8) | (((hi << s) & 0x80) >> 6u8))
                == ((lo >> ((7u8 - s) as u8)) & 1) + 2 * ((hi >> ((7u8 - s) as u8)) & 1),
        forall|lo: u8, hi: u8, s: u8| #![trigger (((lo >> s) & 0x01) | (((hi >> s) & 0x01) << 1u8))]
            s < 8 ==> (((lo >> s) & 0x01) | (((hi >> s) & 0x01) << 1u8)) == ((lo >> s) & 1) + 2 * ((hi >> s) & 1),
        forall|l: u16| #![trigger ((l >> 1u16) | (((l & 1) ^ ((l >> 1u16) & 1)) << 14u16))] {
            let rr = (l >> 1u16) | (((l & 1) ^ ((l >> 1u16) & 1)) << 14u16);
            &&& rr % 0x4000 == (l / 2) % 0x4000
            &&& l < 0x8000 ==> (rr / 0x4000) % 2 == (l % 2 + (l / 2) % 2) % 2
            &&& (l < 0x8000 ==> rr < 0x8000)
        },
        forall|l: u16| #![trigger ((l >> 1u16) | (((l & 1) ^ ((l >> 6u16) & 1)) << 14u16))] {
            let r6 = (l >> 1u16) | (((l & 1) ^ ((l >> 6u16) & 1)) << 14u16);
            &&& r6 % 0x4000 == (l / 2) % 0x4000
            &&& l < 0x8000 ==> (r6 / 0x4000) % 2 == (l % 2 + (l / 64) % 2) % 2
            &&& (l < 0x8000 ==> r6 < 0x8000)
        },
        forall|w: u16, y: u16| #![trigger ((((w & 0x8fff) | ((y & 0x07) << 12u16)) & 0xfc1f) | ((y & 0xf8) << 2u16))]
            y < 256 ==> {
                let sc = (((w & 0x8fff) | ((y & 0x07) << 12u16)) & 0xfc1f) | ((y & 0xf8) << 2u16);
                &&& (sc / 0x1000) % 8 == y % 8
                &&& (sc / 0x20) % 0x20 == y / 8
                &&& sc % 0x20 == w % 0x20
                &&& sc & 0x0c00 == w & 0x0c00
                &&& (sc >= 0x8000) == (w >= 0x8000)
            },
        forall|w: u16, y: u16| #![trigger ((w & 0xffe0) | (y >> 3u16))]
            y < 256 ==> ((w & 0xffe0) | (y >> 3u16)) % 0x20 == y / 8 && ((w & 0xffe0) | (y >> 3u16)) / 0x20 == w / 0x20,
        forall|wa: u16, ya: u16| #![trigger ((wa & 0x00ff) | ((ya & 0x3f) << 8u16))]
            ya < 256 ==> ((wa & 0x00ff) | ((ya & 0x3f) << 8u16)) % 256 == wa % 256
                && ((wa & 0x00ff) | ((ya & 0x3f) << 8u16)) / 256 == ya % 64,
        forall|wb: u16, yb: u16| #![trigger ((wb & 0xff00) | yb)]
            yb < 256 ==> ((wb & 0xff00) | yb) % 256 == yb && ((wb & 0xff00) | yb) / 256 == wb / 256,
        forall|sx: u16| #![trigger crate::ppu::memory::scroll_x_step(sx)] {
            let w = crate::ppu::memory::scroll_x_step(sx);
            &&& (sx & 0x1f) < 31 ==> (w & 0x1f) == (sx & 0x1f) + 1 && ((w >> 10u16) & 1) == ((sx >> 10u16) & 1)
            &&& (sx & 0x1f) == 31 ==> (w & 0x1f) == 0 && ((w >> 10u16) & 1) != ((sx >> 10u16) & 1)
            &&& ((w >> 5u16) & 0x1f) == ((sx >> 5u16) & 0x1f)
            &&& ((w >> 12u16) & 0x07) == ((sx >> 12u16) & 0x07)
            &&& ((w >> 11u16) & 1) == ((sx >> 11u16) & 1)
        },
        forall|sy: u16| #![trigger crate::ppu::memory::scroll_y_step(sy)] {
            let w = crate::ppu::memory::scroll_y_step(sy);
            let fy = (sy >> 12u16) & 0x07;
            let cy = (sy >> 5u16) & 0x1f;
            &&& (w & 0x1f) == (sy & 0x1f)
            &&& ((w >> 10u16) & 1) == ((sy >> 10u16) & 1)
            &&& fy < 7 ==> ((w >> 12u16) & 0x07) == fy + 1 && ((w >> 5u16) & 0x1f) == cy && ((w >> 11u16) & 1) == ((sy >> 11u16) & 1)
            &&& fy == 7 ==> ((w >> 12u16) & 0x07) == 0
            &&& fy == 7 && cy == 29 ==> ((w >> 5u16) & 0x1f) == 0 && ((w >> 11u16) & 1) != ((sy >> 11u16) & 1)
            &&& fy == 7 && cy == 31 ==> ((w >> 5u16) & 0x1f) == 0 && ((w >> 11u16) & 1) == ((sy >> 11u16) & 1)
            &&& fy == 7 && cy != 29 && cy != 31 ==> ((w >> 5u16) & 0x1f) == cy + 1 && ((w >> 11u16) & 1) == ((sy >> 11u16) & 1)
        },
{
}

} // verus!
