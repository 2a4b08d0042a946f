use vstd::prelude::*;
use crate::bytes::{copy_range, read_u32, u32_at};
use vstd::string::StringSliceAdditionalSpecFns;
use crate::common::error::{is_rom_error, push_char, NesleError, Result};
use super::image::{CartridgeFormat, CartridgeImage, Mirroring, Region};

verus! {

pub const UNIF_HEADER_LEN: usize = 32;

/// The first four bytes spell `UNIF`.
pub open spec fn has_unif_magic(b: Seq<u8>) -> bool {
    b.len() >= 4 && b[0] == 0x55 && b[1] == 0x4E && b[2] == 0x49 && b[3] == 0x46
}

/// Supported UNIF board names and the mapper each one uses.
pub open spec fn board_table() -> Seq<(&'static str, u16)> {
    seq![
        ("NROM", 0u16), ("NROM-128", 0), ("NROM-256", 0), ("RROM", 0), ("RROM-128", 0),
        ("SAROM", 1), ("SBROM", 1), ("SCROM", 1), ("SEROM", 1), ("SGROM", 1), ("SKROM", 1),
        ("SL1ROM", 1), ("SLROM", 1), ("SNROM", 1), ("SOROM", 1), ("SXROM", 1), ("SUROM", 1),
        ("UNROM", 2), ("UOROM", 2), ("UNROM-512", 2), ("CNROM", 3),
        ("HKROM", 4), ("TBROM", 4), ("TEROM", 4), ("TFROM", 4), ("TGROM", 4), ("TKROM", 4),
        ("TKSROM", 4), ("TLROM", 4), ("TLSROM", 4), ("TQROM", 4), ("TR1ROM", 4), ("TSROM", 4),
        ("TVROM", 4), ("EKROM", 5), ("ELROM", 5), ("ETROM", 5), ("EWROM", 5),
        ("ANROM", 7), ("AMROM", 7), ("AN1ROM", 7), ("AOROM", 7), ("PNROM", 9), ("PEEOROM", 9),
        ("FJROM", 10), ("FKROM", 10), ("JLROM", 69), ("JSROM", 69),
    ]
}

fn board_table_exec() -> (r: Vec<(&'static str, u16)>)
    ensures
        r@ == board_table(),
{
    vec![
        ("NROM", 0u16), ("NROM-128", 0), ("NROM-256", 0), ("RROM", 0), ("RROM-128", 0),
        ("SAROM", 1), ("SBROM", 1), ("SCROM", 1), ("SEROM", 1), ("SGROM", 1), ("SKROM", 1),
        ("SL1ROM", 1), ("SLROM", 1), ("SNROM", 1), ("SOROM", 1), ("SXROM", 1), ("SUROM", 1),
        ("UNROM", 2), ("UOROM", 2), ("UNROM-512", 2), ("CNROM", 3),
        ("HKROM", 4), ("TBROM", 4), ("TEROM", 4), ("TFROM", 4), ("TGROM", 4), ("TKROM", 4),
        ("TKSROM", 4), ("TLROM", 4), ("TLSROM", 4), ("TQROM", 4), ("TR1ROM", 4), ("TSROM", 4),
        ("TVROM", 4), ("EKROM", 5), ("ELROM", 5), ("ETROM", 5), ("EWROM", 5),
        ("ANROM", 7), ("AMROM", 7), ("AN1ROM", 7), ("AOROM", 7), ("PNROM", 9), ("PEEOROM", 9),
        ("FJROM", 10), ("FKROM", 10), ("JLROM", 69), ("JSROM", 69),
    ]
}

pub open spec fn ascii_lower(c: u8) -> u8 {
    if 0x41 <= c <= 0x5A { (c + 0x20) as u8 } else { c }
}

/// ASCII case-insensitive byte-string equality.
pub open spec fn ascii_ci_eq(a: Seq<u8>, b: Seq<u8>) -> bool {
    a.len() == b.len() && forall|i: int| 0 <= i < a.len() ==> ascii_lower(a[i]) == ascii_lower(b[i])
}

/// Mapper of the first table entry whose name matches `name` ignoring ASCII
/// case, searching from index `i`.
pub open spec fn resolve_from(t: Seq<(&'static str, u16)>, name: Seq<u8>, i: int) -> Option<u16>
    decreases t.len() - i,
{
    if i < 0 || i >= t.len() {
        None
    } else if ascii_ci_eq(t[i].0.spec_bytes(), name) {
        Some(t[i].1)
    } else {
        resolve_from(t, name, i + 1)
    }
}

pub open spec fn resolve_board(name: Seq<u8>) -> Option<u16> {
    resolve_from(board_table(), name, 0)
}

fn ascii_ci_eq_exec(a: &[u8], b: &[u8]) -> (r: bool)
    ensures
        r == ascii_ci_eq(a@, b@),
{
    if a.len() != b.len() {
        return false;
    }
    let mut i: usize = 0;
    while i < a.len()
        invariant
            a@.len() == b@.len(),
            i <= a@.len(),
            forall|j: int| 0 <= j < i ==> ascii_lower(a@[j]) == ascii_lower(b@[j]),
        decreases a@.len() - i,
    {
        let x = a[i];
        let y = b[i];
        let lx = if 0x41 <= x && x <= 0x5A { x + 0x20 } else { x };
        let ly = if 0x41 <= y && y <= 0x5A { y + 0x20 } else { y };
        if lx != ly {
            return false;
        }
        i = i + 1;
    }
    true
}

/// Mapper id of a supported board name (ASCII case-insensitive).
fn resolve_mapper(name: &[u8]) -> (r: Option<u16>)
    ensures
        r == resolve_board(name@),
{
    let table = board_table_exec();
    let mut i: usize = 0;
    while i < table.len()
        invariant
            table@ == board_table(),
            i <= table@.len(),
            resolve_from(board_table(), name@, 0) == resolve_from(board_table(), name@, i as int),
        decreases table@.len() - i,
    {
        let (k, v) = table[i];
        if ascii_ci_eq_exec(k.as_bytes(), name) {
            return Some(v);
        }
        i = i + 1;
    }
    None
}

/// Byte is kept in a board name (spaces and tabs are dropped).
pub open spec fn name_byte_kept(c: u8) -> bool {
    c != 0x20 && c != 0x09
}

/// The kept bytes of `p`, in order.
pub open spec fn keep_name_bytes(p: Seq<u8>) -> Seq<u8>
    decreases p.len(),
{
    if p.len() == 0 {
        Seq::empty()
    } else if name_byte_kept(p.last()) {
        keep_name_bytes(p.drop_last()).push(p.last())
    } else {
        keep_name_bytes(p.drop_last())
    }
}

/// `s` starts with one of the vendor prefixes `NES-`, `UNL-`, `HVC-`,
/// `BTL-`, `BMC-`.
pub open spec fn has_vendor_prefix(s: Seq<u8>) -> bool {
    s.len() >= 4 && s[3] == 0x2D && {
        ||| s[0] == 0x4E && s[1] == 0x45 && s[2] == 0x53
        ||| s[0] == 0x55 && s[1] == 0x4E && s[2] == 0x4C
        ||| s[0] == 0x48 && s[1] == 0x56 && s[2] == 0x43
        ||| s[0] == 0x42 && s[1] == 0x54 && s[2] == 0x4C
        ||| s[0] == 0x42 && s[1] == 0x4D && s[2] == 0x43
    }
}

pub open spec fn strip_vendor_prefix(s: Seq<u8>) -> Seq<u8> {
    if has_vendor_prefix(s) { s.skip(4) } else { s }
}

/// `k` is the length of the NUL-free prefix of `p`.
pub open spec fn is_nul_prefix_len(p: Seq<u8>, k: int) -> bool {
    &&& 0 <= k <= p.len()
    &&& forall|j: int| 0 <= j < k ==> p[j] != 0
    &&& (k == p.len() || p[k] == 0)
}

/// Normalized board name of a MAPR payload: the bytes before the first NUL,
/// without spaces/tabs, with one vendor prefix removed.
pub open spec fn board_name_of(p: Seq<u8>, name: Seq<u8>) -> bool {
    exists|k: int| is_nul_prefix_len(p, k) && name == strip_vendor_prefix(keep_name_bytes(p.take(k)))
}

fn parse_mapper_name(payload: &[u8]) -> (r: Vec<u8>)
    ensures
        board_name_of(payload@, r@),
{
    let mut kept: Vec<u8> = Vec::new();
    let mut i: usize = 0;
    while i < payload.len() && payload[i] != 0
        invariant
            i <= payload@.len(),
            forall|j: int| 0 <= j < i ==> payload@[j] != 0,
            kept@ == keep_name_bytes(payload@.take(i as int)),
        decreases payload@.len() - i,
    {
        let c = payload[i];
        assert(payload@.take(i + 1).drop_last() =~= payload@.take(i as int));
        if c != 0x20 && c != 0x09 {
            kept.push(c);
        }
        i = i + 1;
    }
    let n = kept.len();
    let stripped = if n >= 4 && kept[3] == 0x2D && ((kept[0] == 0x4E && kept[1] == 0x45 && kept[2]
        == 0x53) || (kept[0] == 0x55 && kept[1] == 0x4E && kept[2] == 0x4C) || (kept[0] == 0x48
        && kept[1] == 0x56 && kept[2] == 0x43) || (kept[0] == 0x42 && kept[1] == 0x54 && kept[2]
        == 0x4C) || (kept[0] == 0x42 && kept[1] == 0x4D && kept[2] == 0x43)) {
        copy_range(kept.as_slice(), 4, n - 4)
    } else {
        kept
    };
    assert(is_nul_prefix_len(payload@, i as int));
    proof {
        if has_vendor_prefix(keep_name_bytes(payload@.take(i as int))) {
            assert(stripped@ =~= keep_name_bytes(payload@.take(i as int)).skip(4));
        }
    }
    stripped
}

/// Value of a hexadecimal digit byte.
pub open spec fn hex_value(c: u8) -> Option<int> {
    if 0x30 <= c <= 0x39 {
        Some(c - 0x30)
    } else if 0x61 <= c <= 0x66 {
        Some(c - 0x61 + 10)
    } else if 0x41 <= c <= 0x46 {
        Some(c - 0x41 + 10)
    } else {
        None
    }
}

fn hex_value_exec(c: u8) -> (r: Option<usize>)
    ensures
        hex_value(c) matches Some(v) ==> r == Some(v as usize),
        hex_value(c) is None ==> r is None,
        r matches Some(v) ==> v < 16,
{
    if 0x30 <= c && c <= 0x39 {
        Some((c - 0x30) as usize)
    } else if 0x61 <= c && c <= 0x66 {
        Some((c - 0x61 + 10) as usize)
    } else if 0x41 <= c && c <= 0x46 {
        Some((c - 0x41 + 10) as usize)
    } else {
        None
    }
}

/// Chunk-walk state: board name and the PRG/CHR chunk slots plus the
/// mirroring, battery and TV-system chunks seen so far.
pub struct UnifState {
    pub name: Seq<u8>,
    pub prg: Seq<Seq<u8>>,
    pub chr: Seq<Seq<u8>>,
    pub mirroring: Mirroring,
    pub battery: bool,
    pub region: Region,
}

pub open spec fn unif_initial() -> UnifState {
    UnifState {
        name: Seq::empty(),
        prg: Seq::new(16, |i: int| Seq::<u8>::empty()),
        chr: Seq::new(16, |i: int| Seq::<u8>::empty()),
        mirroring: Mirroring::Horizontal,
        battery: false,
        region: Region::Ntsc,
    }
}

pub open spec fn mirr_of(v: u8) -> Mirroring {
    if v == 1 {
        Mirroring::Vertical
    } else if v == 2 {
        Mirroring::SingleScreenLower
    } else if v == 3 {
        Mirroring::SingleScreenUpper
    } else if v == 4 {
        Mirroring::FourScreen
    } else {
        Mirroring::Horizontal
    }
}

pub open spec fn id_is(id: Seq<u8>, a: u8, b: u8, c: u8, d: u8) -> bool {
    id[0] == a && id[1] == b && id[2] == c && id[3] == d
}

/// Effect of one chunk with four-byte id `id` and payload `p`; unknown
/// chunks are ignored.
pub open spec fn apply_chunk(st: UnifState, id: Seq<u8>, p: Seq<u8>) -> UnifState {
    if id_is(id, 0x4D, 0x41, 0x50, 0x52) {
        UnifState { name: choose|n: Seq<u8>| board_name_of(p, n), ..st }
    } else if id[0] == 0x50 && id[1] == 0x52 && id[2] == 0x47 && hex_value(id[3]) is Some {
        UnifState { prg: st.prg.update(hex_value(id[3])->0, p), ..st }
    } else if id[0] == 0x43 && id[1] == 0x48 && id[2] == 0x52 && hex_value(id[3]) is Some {
        UnifState { chr: st.chr.update(hex_value(id[3])->0, p), ..st }
    } else if id_is(id, 0x4D, 0x49, 0x52, 0x52) && p.len() > 0 {
        UnifState { mirroring: mirr_of(p[0]), ..st }
    } else if id_is(id, 0x42, 0x41, 0x54, 0x52) && p.len() > 0 {
        UnifState { battery: p[0] != 0, ..st }
    } else if id_is(id, 0x54, 0x56, 0x43, 0x49) && p.len() > 0 {
        UnifState { region: if p[0] == 1 { Region::Pal } else { Region::Ntsc }, ..st }
    } else {
        st
    }
}

#[derive(PartialEq, Eq)]
pub enum UnifFault {
    /// A chunk id is not valid UTF-8.
    ChunkIdNotText,
    /// A chunk's end does not fit the address width.
    LengthOverflow,
    /// A chunk's payload runs past the end of the file.
    PastEnd,
}

/// Walk the chunk list starting at `pos`: each chunk is a four-byte id, a
/// little-endian u32 length and the payload. Stops when fewer than 8 bytes
/// remain.
pub open spec fn unif_walk(b: Seq<u8>, pos: int, st: UnifState) -> core::result::Result<UnifState, UnifFault>
    decreases b.len() - pos,
{
    if pos < 0 || pos + 8 > b.len() {
        Ok(st)
    } else if !vstd::utf8::valid_utf8(b.subrange(pos, pos + 4)) {
        Err(UnifFault::ChunkIdNotText)
    } else {
        let end = pos + 8 + u32_at(b, pos + 4);
        if end > usize::MAX {
            Err(UnifFault::LengthOverflow)
        } else if end > b.len() {
            Err(UnifFault::PastEnd)
        } else {
            unif_walk(b, end, apply_chunk(st, b.subrange(pos, pos + 4), b.subrange(pos + 8, end)))
        }
    }
}

/// Contents of each chunk slot.
pub open spec fn slots_view(v: Seq<Vec<u8>>) -> Seq<Seq<u8>> {
    Seq::new(v.len(), |i: int| v[i]@)
}

/// Concatenation of the chunk slots in slot order.
pub open spec fn concat_chunks(s: Seq<Seq<u8>>) -> Seq<u8>
    decreases s.len(),
{
    if s.len() == 0 { Seq::empty() } else { concat_chunks(s.drop_last()) + s.last() }
}

/// Why a UNIF image with a readable header is refused.
pub enum UnifReject {
    Walk(UnifFault),
    MissingMapr,
    UnknownBoard,
    NoPrg,
}

/// Outcome of parsing a UNIF image with a valid header: the final walk state
/// or the reason for refusal.
pub open spec fn unif_outcome(b: Seq<u8>) -> core::result::Result<UnifState, UnifReject> {
    match unif_walk(b, UNIF_HEADER_LEN as int, unif_initial()) {
        Err(f) => Err(UnifReject::Walk(f)),
        Ok(st) => if st.name.len() == 0 {
            Err(UnifReject::MissingMapr)
        } else if resolve_board(st.name) is None {
            Err(UnifReject::UnknownBoard)
        } else if concat_chunks(st.prg).len() == 0 {
            Err(UnifReject::NoPrg)
        } else {
            Ok(st)
        },
    }
}

/// The image built from the final walk state `st`.
pub open spec fn unif_image(st: UnifState, img: CartridgeImage) -> bool {
    let chr = concat_chunks(st.chr);
    &&& img.format == CartridgeFormat::Unif
    &&& img.mapper_id == resolve_board(st.name)->0
    &&& img.submapper == 0
    &&& img.mirroring == st.mirroring
    &&& img.battery == st.battery
    &&& img.region == st.region
    &&& img.prg_rom@ == concat_chunks(st.prg)
    &&& img.chr_rom@ == chr
    &&& img.trainer_data@.len() == 0
    &&& img.work_ram_size == 0x2000
    &&& img.save_ram_size == (if st.battery { 0x2000int } else { 0 })
    &&& img.prg_ram_size == img.work_ram_size + img.save_ram_size
    &&& img.prg_ram_unspecified
    &&& img.save_chr_ram_size == 0
    &&& img.chr_ram_size == (if chr.len() == 0 { 0x2000int } else { 0 })
    &&& img.chr_ram_unspecified == (chr.len() == 0)
    &&& img.input_device == 0
}

/// UTF-8 validity of a byte string, decided by `core::str::from_utf8`.
/// Trusted: the result is claimed to be vstd's `valid_utf8` of the bytes,
/// which is how std documents `from_utf8` succeeding.
#[verifier::external_body]
fn is_utf8(b: &[u8]) -> (r: bool)
    ensures
        r == vstd::utf8::valid_utf8(b@),
{
    core::str::from_utf8(b).is_ok()
}

/// The error message naming an unsupported board, each name byte shown as
/// the character with that code.
fn unsupported_board_message(name: &[u8]) -> (r: String)
    ensures
        r@ == "UNIF cartridge: unsupported board name `"@ + name@.map_values(|c: u8| c as char)
            + "`"@,
{
    let mut s = String::from_str("UNIF cartridge: unsupported board name `");
    let ghost prefix = s@;
    let mut i: usize = 0;
    while i < name.len()
        invariant
            i <= name@.len(),
            s@ == prefix + name@.take(i as int).map_values(|c: u8| c as char),
        decreases name@.len() - i,
    {
        push_char(&mut s, name[i] as char);
        i = i + 1;
        assert(s@ =~= prefix + name@.take(i as int).map_values(|c: u8| c as char));
    }
    assert(name@.take(name@.len() as int) =~= name@);
    s.concat("`")
}

fn concat_slots(slots: &Vec<Vec<u8>>) -> (r: Vec<u8>)
    ensures
        r@ == concat_chunks(slots_view(slots@)),
{
    let mut out: Vec<u8> = Vec::new();
    let mut i: usize = 0;
    while i < slots.len()
        invariant
            i <= slots@.len(),
            out@ == concat_chunks(slots_view(slots@).take(i as int)),
        decreases slots@.len() - i,
    {
        crate::bytes::push_all(&mut out, slots[i].as_slice());
        assert(slots_view(slots@).take(i + 1).drop_last() =~= slots_view(slots@).take(i as int));
        i = i + 1;
    }
    assert(slots_view(slots@).take(slots@.len() as int) =~= slots_view(slots@));
    out
}

pub open spec fn fault_message(f: UnifFault) -> &'static str {
    match f {
        UnifFault::ChunkIdNotText => "UNIF chunk id is not ASCII",
        UnifFault::LengthOverflow => "UNIF chunk length overflows usize",
        UnifFault::PastEnd => "UNIF chunk payload extends past end-of-file",
    }
}

/// What `parse_unif` returns for `b`.
pub open spec fn unif_result(bytes: Seq<u8>, r: Result<CartridgeImage>) -> bool {
    if bytes.len() < UNIF_HEADER_LEN || !has_unif_magic(bytes) {
        is_rom_error(r, "UNIF cartridge: missing or truncated header"@)
    } else {
        match unif_outcome(bytes) {
            Ok(st) => r matches Ok(img) && unif_image(st, img),
            Err(UnifReject::Walk(f)) => is_rom_error(r, fault_message(f)@),
            Err(UnifReject::MissingMapr) => is_rom_error(
                r,
                "UNIF cartridge: missing MAPR (board name) chunk"@,
            ),
            Err(UnifReject::UnknownBoard) => is_rom_error(
                r,
                "UNIF cartridge: unsupported board name `"@ + unif_walk(
                    bytes,
                    UNIF_HEADER_LEN as int,
                    unif_initial(),
                )->Ok_0.name.map_values(|c: u8| c as char) + "`"@,
            ),
            Err(UnifReject::NoPrg) => is_rom_error(
                r,
                "UNIF cartridge: no PRG ROM chunks (PRG0..PRGF all empty)"@,
            ),
        }
    }
}

/// Parse the supported UNIF chunk subset into a cartridge image.
pub fn parse_unif(bytes: &[u8]) -> (r: Result<CartridgeImage>)
    ensures
        unif_result(bytes@, r),
{
    let n = bytes.len();
    if n < UNIF_HEADER_LEN || bytes[0] != 0x55 || bytes[1] != 0x4E || bytes[2] != 0x49 || bytes[3]
        != 0x46 {
        return Err(NesleError::invalid_rom("UNIF cartridge: missing or truncated header"));
    }
    assert(has_unif_magic(bytes@));
    let mut prg_chunks: Vec<Vec<u8>> = Vec::new();
    let mut chr_chunks: Vec<Vec<u8>> = Vec::new();
    let mut k: usize = 0;
    while k < 16
        invariant
            k <= 16,
            prg_chunks@.len() == k,
            chr_chunks@.len() == k,
            forall|i: int| 0 <= i < k ==> #[trigger] prg_chunks@[i]@ == Seq::<u8>::empty(),
            forall|i: int| 0 <= i < k ==> #[trigger] chr_chunks@[i]@ == Seq::<u8>::empty(),
        decreases 16 - k,
    {
        let e1: Vec<u8> = Vec::new();
        let e2: Vec<u8> = Vec::new();
        prg_chunks.push(e1);
        chr_chunks.push(e2);
        assert(prg_chunks@[k as int]@ == Seq::<u8>::empty());
        assert(chr_chunks@[k as int]@ == Seq::<u8>::empty());
        k = k + 1;
    }
    assert(slots_view(prg_chunks@) =~= unif_initial().prg);
    assert(slots_view(chr_chunks@) =~= unif_initial().chr);
    let mut mapper_name: Vec<u8> = Vec::new();
    let mut mirroring = Mirroring::Horizontal;
    let mut battery = false;
    let mut region = Region::Ntsc;
    let mut pos: usize = UNIF_HEADER_LEN;
    let ghost whole = unif_walk(bytes@, UNIF_HEADER_LEN as int, unif_initial());
    while n - pos >= 8
        invariant
            n == bytes@.len(),
            n >= UNIF_HEADER_LEN,
            has_unif_magic(bytes@),
            pos <= n,
            prg_chunks@.len() == 16,
            chr_chunks@.len() == 16,
            whole == unif_walk(bytes@, UNIF_HEADER_LEN as int, unif_initial()),
            whole == unif_walk(
                bytes@,
                pos as int,
                UnifState {
                    name: mapper_name@,
                    prg: slots_view(prg_chunks@),
                    chr: slots_view(chr_chunks@),
                    mirroring,
                    battery,
                    region,
                },
            ),
        decreases n - pos,
    {
        let ghost st = UnifState {
            name: mapper_name@,
            prg: slots_view(prg_chunks@),
            chr: slots_view(chr_chunks@),
            mirroring,
            battery,
            region,
        };
        let id = crate::bytes::copy_range(bytes, pos, 4);
        if !is_utf8(id.as_slice()) {
            return Err(NesleError::invalid_rom("UNIF chunk id is not ASCII"));
        }
        let length = read_u32(bytes, pos + 4) as usize;
        let start = pos + 8;
        if length > usize::MAX - start {
            return Err(NesleError::invalid_rom("UNIF chunk length overflows usize"));
        }
        let chunk_end = start + length;
        if chunk_end > n {
            return Err(NesleError::invalid_rom("UNIF chunk payload extends past end-of-file"));
        }
        let payload = copy_range(bytes, start, length);
        let ghost next = apply_chunk(st, id@, payload@);
        if id[0] == 0x4D && id[1] == 0x41 && id[2] == 0x50 && id[3] == 0x52 {
            mapper_name = parse_mapper_name(payload.as_slice());
        } else if id[0] == 0x50 && id[1] == 0x52 && id[2] == 0x47 && hex_value_exec(id[3]).is_some() {
            let idx = hex_value_exec(id[3]).unwrap();
            prg_chunks.set(idx, payload);
            assert(slots_view(prg_chunks@) =~= st.prg.update(idx as int, payload@));
        } else if id[0] == 0x43 && id[1] == 0x48 && id[2] == 0x52 && hex_value_exec(id[3]).is_some() {
            let idx = hex_value_exec(id[3]).unwrap();
            chr_chunks.set(idx, payload);
            assert(slots_view(chr_chunks@) =~= st.chr.update(idx as int, payload@));
        } else if id[0] == 0x4D && id[1] == 0x49 && id[2] == 0x52 && id[3] == 0x52 && payload.len()
            > 0 {
            let v = payload[0];
            mirroring = if v == 1 {
                Mirroring::Vertical
            } else if v == 2 {
                Mirroring::SingleScreenLower
            } else if v == 3 {
                Mirroring::SingleScreenUpper
            } else if v == 4 {
                Mirroring::FourScreen
            } else {
                Mirroring::Horizontal
            };
        } else if id[0] == 0x42 && id[1] == 0x41 && id[2] == 0x54 && id[3] == 0x52 && payload.len()
            > 0 {
            battery = payload[0] != 0;
        } else if id[0] == 0x54 && id[1] == 0x56 && id[2] == 0x43 && id[3] == 0x49 && payload.len()
            > 0 {
            region = if payload[0] == 1 { Region::Pal } else { Region::Ntsc };
        }
        proof {
            let cur = UnifState {
                name: mapper_name@,
                prg: slots_view(prg_chunks@),
                chr: slots_view(chr_chunks@),
                mirroring,
                battery,
                region,
            };
            if id[0] == 0x4D && id[1] == 0x41 && id[2] == 0x50 && id[3] == 0x52 {
                let n1 = choose|nm: Seq<u8>| board_name_of(payload@, nm);
                assert(board_name_of(payload@, n1));
                let k1 = choose|k: int| is_nul_prefix_len(payload@, k) && n1 == strip_vendor_prefix(
                    keep_name_bytes(payload@.take(k)));
                let k2 = choose|k: int| is_nul_prefix_len(payload@, k) && mapper_name@
                    == strip_vendor_prefix(keep_name_bytes(payload@.take(k)));
                if k1 < k2 {
                    assert(payload@[k1] == 0);
                } else if k2 < k1 {
                    assert(payload@[k2] == 0);
                }
            }
            assert(cur == next);
        }
        pos = chunk_end;
    }
    let ghost fin = UnifState {
        name: mapper_name@,
        prg: slots_view(prg_chunks@),
        chr: slots_view(chr_chunks@),
        mirroring,
        battery,
        region,
    };
    assert(whole == Ok::<UnifState, UnifFault>(fin));
    if mapper_name.len() == 0 {
        return Err(NesleError::invalid_rom("UNIF cartridge: missing MAPR (board name) chunk"));
    }
    let mapper_id = match resolve_mapper(mapper_name.as_slice()) {
        Some(id) => id,
        None => {
            let msg = unsupported_board_message(mapper_name.as_slice());
            return Err(NesleError::InvalidRom(msg));
        },
    };
    let prg_rom = concat_slots(&prg_chunks);
    let chr_rom = concat_slots(&chr_chunks);
    if prg_rom.len() == 0 {
        return Err(
            NesleError::invalid_rom("UNIF cartridge: no PRG ROM chunks (PRG0..PRGF all empty)"),
        );
    }
    let chr_ram_size: usize = if chr_rom.len() == 0 { 0x2000 } else { 0 };
    let work_ram_size: usize = 0x2000;
    let save_ram_size: usize = if battery { 0x2000 } else { 0 };
    Ok(CartridgeImage {
        format: CartridgeFormat::Unif,
        mapper_id,
        submapper: 0,
        mirroring,
        battery,
        region,
        prg_rom,
        chr_rom,
        trainer_data: Vec::new(),
        work_ram_size,
        save_ram_size,
        prg_ram_size: work_ram_size + save_ram_size,
        prg_ram_unspecified: true,
        save_chr_ram_size: 0,
        chr_ram_size,
        chr_ram_unspecified: chr_ram_size > 0,
        input_device: 0,
    })
}

} // verus!
