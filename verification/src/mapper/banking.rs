use vstd::prelude::*;
use crate::bytes::{push_all, push_u32, read_u32, u32_at, u32_bytes};
use crate::cartridge::CartridgeImage;
use crate::common::error::{state_error_with, NesleError, Result};

verus! {

/// A contiguous window of a backing memory.
#[derive(Debug, Clone, Copy, PartialEq, Eq)]
pub struct BankWindow {
    pub source_offset: usize,
    pub size: usize,
}

/// Backing store a 256-byte PPU page is mapped to.
#[derive(Debug, Clone, Copy, PartialEq, Eq)]
pub enum ChrSource {
    Default,
    Rom,
    Ram,
    NametableRam,
    MapperRam,
    Unmapped,
}

pub open spec fn chr_source_tag(s: ChrSource) -> u8 {
    match s {
        ChrSource::Default => 0,
        ChrSource::Rom => 1,
        ChrSource::Ram => 2,
        ChrSource::NametableRam => 3,
        ChrSource::MapperRam => 4,
        ChrSource::Unmapped => 5,
    }
}

impl ChrSource {
    /// Snapshot tag of this source (0..=5).
    pub fn to_byte(self) -> (r: u8)
        ensures
            r == chr_source_tag(self),
    {
        match self {
            ChrSource::Default => 0,
            ChrSource::Rom => 1,
            ChrSource::Ram => 2,
            ChrSource::NametableRam => 3,
            ChrSource::MapperRam => 4,
            ChrSource::Unmapped => 5,
        }
    }

    /// Source with the given snapshot tag; tags above 5 are refused.
    pub fn from_byte(value: u8) -> (r: Result<Self>)
        ensures
            value <= 5 <==> r is Ok,
            r matches Ok(s) ==> chr_source_tag(s) == value,
            value > 5 ==> r matches Err(NesleError::InvalidState(_)),
    {
        match value {
            0 => Ok(ChrSource::Default),
            1 => Ok(ChrSource::Rom),
            2 => Ok(ChrSource::Ram),
            3 => Ok(ChrSource::NametableRam),
            4 => Ok(ChrSource::MapperRam),
            5 => Ok(ChrSource::Unmapped),
            _ => Err(state_error_with("invalid CHR source byte ", crate::common::error::usize_to_decimal(value as usize).as_str())),
        }
    }
}

/// Read/write permission of a PPU page.
#[derive(Debug, Clone, Copy, PartialEq, Eq)]
pub struct PpuAccess {
    pub read: bool,
    pub write: bool,
}

pub open spec fn access_byte(a: PpuAccess) -> u8 {
    ((if a.read { 1u8 } else { 0u8 }) + (if a.write { 2u8 } else { 0u8 })) as u8
}

pub open spec fn access_of_byte(v: u8) -> PpuAccess {
    PpuAccess { read: v & 0x01 != 0, write: v & 0x02 != 0 }
}

impl PpuAccess {
    pub fn read_only() -> (r: Self)
        ensures
            r.read && !r.write,
    {
        Self { read: true, write: false }
    }

    pub fn read_write() -> (r: Self)
        ensures
            r.read && r.write,
    {
        Self { read: true, write: true }
    }

    pub fn none() -> (r: Self)
        ensures
            !r.read && !r.write,
    {
        Self { read: false, write: false }
    }

    /// Bit 0 = read, bit 1 = write.
    pub fn to_byte(self) -> (r: u8)
        ensures
            r == access_byte(self),
    {
        (if self.read { 1u8 } else { 0u8 }) + (if self.write { 2u8 } else { 0u8 })
    }

    pub fn from_byte(value: u8) -> (r: Self)
        ensures
            r == access_of_byte(value),
    {
        Self { read: value & 0x01 != 0, write: value & 0x02 != 0 }
    }
}

/// Decoding an encoded access gives it back.
pub proof fn lemma_access_roundtrip(a: PpuAccess)
    ensures
        access_of_byte(access_byte(a)) == a,
{
    let b = access_byte(a);
    assert(b == 0 || b == 1 || b == 2 || b == 3);
    assert(0u8 & 1 == 0 && 0u8 & 2 == 0 && 1u8 & 1 != 0 && 1u8 & 2 == 0 && 2u8 & 1 == 0 && 2u8 & 2
        != 0 && 3u8 & 1 != 0 && 3u8 & 2 != 0) by (bit_vector);
}

/// Mapping of one 256-byte PPU page.
#[derive(Debug, Clone, Copy, PartialEq, Eq)]
pub struct PpuPage {
    pub source: ChrSource,
    pub source_offset: usize,
    pub access: PpuAccess,
}

/// CHR ROM or CHR RAM behind 64 independently mapped 256-byte PPU pages.
#[derive(Debug, Clone, PartialEq, Eq)]
pub struct ChrMemory {
    rom: Vec<u8>,
    ram: Vec<u8>,
    pages: [PpuPage; 0x40],
}

/// Size of the CHR RAM that `ChrMemory::new` allocates.
pub open spec fn chr_ram_alloc_size(c: CartridgeImage, min_ram_size: usize) -> int {
    let explicit = c.chr_ram_size + c.save_chr_ram_size;
    if c.chr_rom@.len() == 0 && c.chr_ram_unspecified && explicit < min_ram_size {
        min_ram_size as int
    } else {
        explicit
    }
}

/// Byte at `offset` of ROM, or else RAM, modulo its length; 0 with neither.
pub open spec fn mem_read(rom: Seq<u8>, ram: Seq<u8>, offset: int) -> u8 {
    if rom.len() > 0 {
        rom[offset % rom.len() as int]
    } else if ram.len() > 0 {
        ram[offset % ram.len() as int]
    } else {
        0
    }
}

impl ChrMemory {
    pub closed spec fn spec_rom(&self) -> Seq<u8> {
        self.rom@
    }

    pub closed spec fn spec_ram(&self) -> Seq<u8> {
        self.ram@
    }

    pub closed spec fn spec_pages(&self) -> Seq<PpuPage> {
        self.pages@
    }

    /// Access rights of the default mapping: read-only ROM, read-write RAM, or
    /// nothing.
    pub open spec fn default_access_spec(&self) -> PpuAccess {
        if self.spec_rom().len() > 0 {
            PpuAccess { read: true, write: false }
        } else if self.spec_ram().len() > 0 {
            PpuAccess { read: true, write: true }
        } else {
            PpuAccess { read: false, write: false }
        }
    }

    /// Page `i` of the default mapping.
    pub open spec fn default_page(&self, i: int) -> PpuPage {
        PpuPage { source: ChrSource::Default, source_offset: (i * 0x100) as usize, access: self.default_access_spec() }
    }

    /// ROM and RAM leave room for 64 KiB of offset arithmetic.
    pub open spec fn wf(&self) -> bool {
        &&& self.spec_rom().len() + 0x10000 <= usize::MAX
        &&& self.spec_ram().len() + 0x10000 <= usize::MAX
    }

    /// The state `new(cartridge, min_ram_size)` produces.
    pub open spec fn is_fresh(&self, cartridge: CartridgeImage, min_ram_size: usize) -> bool {
        &&& self.spec_rom() == cartridge.chr_rom@
        &&& self.spec_ram().len() == chr_ram_alloc_size(cartridge, min_ram_size)
        &&& forall|i: int| 0 <= i < self.spec_ram().len() ==> #[trigger] self.spec_ram()[i] == 0xff
        &&& forall|i: int| 0 <= i < 0x40 ==> #[trigger] self.spec_pages()[i] == self.default_page(i)
    }

    /// CHR ROM copied from the cartridge and 0xFF-filled CHR RAM (at least
    /// `min_ram_size` bytes when the board has no CHR ROM and no declared
    /// RAM size), with the default identity mapping.
    pub fn new(cartridge: &CartridgeImage, min_ram_size: usize) -> (r: Self)
        requires
            cartridge.chr_ram_size + cartridge.save_chr_ram_size <= usize::MAX,
        ensures
            r.is_fresh(*cartridge, min_ram_size),
            cartridge.fits_in_memory() && min_ram_size <= 0x10000 ==> r.wf(),
    {
        let explicit_ram = cartridge.total_chr_ram_size();
        let ram_size = if cartridge.chr_rom.len() == 0 && cartridge.chr_ram_unspecified
            && explicit_ram < min_ram_size {
            min_ram_size
        } else {
            explicit_ram
        };
        let mut chr = Self {
            rom: cartridge.chr_rom.clone(),
            ram: vec![0xff; ram_size],
            pages: [PpuPage { source: ChrSource::Default, source_offset: 0, access: PpuAccess::read_only() }; 0x40],
        };
        proof {
            assert(chr.ram@.len() == ram_size);
            assert forall|i: int| 0 <= i < chr.ram@.len() implies #[trigger] chr.ram@[i] == 0xff by {
                assert(cloned::<u8>(0xff, chr.ram@[i]));
            }
        }
        chr.select_default_mapping();
        chr
    }

    fn default_access(&self) -> (r: PpuAccess)
        ensures
            r == self.default_access_spec(),
    {
        if self.rom.len() > 0 {
            PpuAccess::read_only()
        } else if self.ram.len() > 0 {
            PpuAccess::read_write()
        } else {
            PpuAccess::none()
        }
    }

    /// Map page `i` to offset `i * 0x100` of the default source.
    pub fn select_default_mapping(&mut self)
        ensures
            final(self).spec_rom() == old(self).spec_rom(),
            final(self).spec_ram() == old(self).spec_ram(),
            forall|i: int| 0 <= i < 0x40 ==> #[trigger] final(self).spec_pages()[i] == final(self).default_page(i),
    {
        let access = self.default_access();
        let mut page: usize = 0;
        while page < 0x40
            invariant
                page <= 0x40,
                self.rom@ == old(self).rom@,
                self.ram@ == old(self).ram@,
                access == self.default_access_spec(),
                forall|i: int| 0 <= i < page ==> #[trigger] self.pages@[i] == self.default_page(i),
            decreases 0x40 - page,
        {
            self.pages[page] = PpuPage { source: ChrSource::Default, source_offset: page * 0x100, access };
            page = page + 1;
        }
    }

    /// Map PPU pages `start >> 8 ..= end >> 8` (addresses taken mod 0x4000)
    /// to consecutive 256-byte pages of `source` from `source_offset`.
    pub fn set_ppu_mapping(
        &mut self,
        start: u16,
        end: u16,
        source: ChrSource,
        source_offset: usize,
        access: PpuAccess,
    )
        requires
            source_offset + 0x3f00 <= usize::MAX,
        ensures
            final(self).spec_rom() == old(self).spec_rom(),
            final(self).spec_ram() == old(self).spec_ram(),
            forall|i: int|
                0 <= i < 0x40 ==> #[trigger] final(self).spec_pages()[i] == if (start % 0x4000) / 0x100 <= i
                    <= (end % 0x4000) / 0x100 {
                    PpuPage {
                        source,
                        source_offset: (source_offset + (i - (start % 0x4000) / 0x100) * 0x100) as usize,
                        access,
                    }
                } else {
                    old(self).spec_pages()[i]
                },
    {
        let first_page = ((start % 0x4000) / 0x100) as usize;
        let last_page = ((end % 0x4000) / 0x100) as usize;
        let mut page = first_page;
        while page <= last_page
            invariant
                first_page <= page,
                page == first_page || page <= last_page + 1,
                last_page < 0x40,
                source_offset + 0x3f00 <= usize::MAX,
                self.rom@ == old(self).rom@,
                self.ram@ == old(self).ram@,
                forall|i: int| 0 <= i < 0x40 ==> #[trigger] self.pages@[i] == if first_page <= i < page {
                    PpuPage { source, source_offset: (source_offset + (i - first_page) * 0x100) as usize, access }
                } else {
                    old(self).pages@[i]
                },
            decreases last_page + 1 - page,
        {
            assert((page - first_page) * 0x100 <= 0x3f00) by (nonlinear_arith)
                requires
                    first_page <= page <= last_page,
                    last_page < 0x40,
            ;
            self.pages[page] = PpuPage { source, source_offset: source_offset + (page - first_page) * 0x100, access };
            page = page + 1;
        }
    }

    /// Byte at `offset` of the CHR ROM, or else CHR RAM, modulo its size.
    pub fn read(&self, offset: usize) -> (r: u8)
        ensures
            r == mem_read(self.spec_rom(), self.spec_ram(), offset as int),
    {
        if self.rom.len() > 0 {
            self.rom[offset % self.rom.len()]
        } else if self.ram.len() > 0 {
            self.ram[offset % self.ram.len()]
        } else {
            0
        }
    }

    /// CHR RAM after a `write(offset, value)`.
    pub open spec fn written(&self, offset: int, value: u8) -> Seq<u8> {
        if self.spec_ram().len() > 0 && self.spec_rom().len() == 0 {
            self.spec_ram().update(offset % self.spec_ram().len() as int, value)
        } else {
            self.spec_ram()
        }
    }

    /// Write CHR RAM at `offset` modulo its size; boards with CHR ROM ignore
    /// writes.
    pub fn write(&mut self, offset: usize, value: u8)
        ensures
            final(self).spec_rom() == old(self).spec_rom(),
            final(self).spec_pages() == old(self).spec_pages(),
            final(self).spec_ram() == old(self).written(offset as int, value),
    {
        if self.ram.len() > 0 && self.rom.len() == 0 {
            let index = offset % self.ram.len();
            self.ram.set(index, value);
        }
    }

    /// PPU read through the page table.
    pub open spec fn read_ppu_spec(&self, addr: u16) -> u8 {
        let a = (addr % 0x4000) as int;
        let page = self.spec_pages()[a / 0x100];
        let offset = page_offset(page, a);
        if !page.access.read {
            0
        } else {
            match page.source {
                ChrSource::Default => mem_read(self.spec_rom(), self.spec_ram(), offset),
                ChrSource::Rom => if self.spec_rom().len() > 0 {
                    self.spec_rom()[offset % self.spec_rom().len() as int]
                } else {
                    0
                },
                ChrSource::Ram => if self.spec_ram().len() > 0 {
                    self.spec_ram()[offset % self.spec_ram().len() as int]
                } else {
                    0
                },
                _ => 0,
            }
        }
    }

    pub fn read_ppu(&self, addr: u16) -> (r: u8)
        ensures
            r == self.read_ppu_spec(addr),
    {
        let a = (addr % 0x4000) as usize;
        let page = self.pages[a / 0x100];
        if !page.access.read {
            return 0;
        }
        let offset = page.source_offset.wrapping_add(a % 0x100);
        match page.source {
            ChrSource::Default => self.read(offset),
            ChrSource::Rom => if self.rom.len() > 0 {
                self.rom[offset % self.rom.len()]
            } else {
                0
            },
            ChrSource::Ram => if self.ram.len() > 0 {
                self.ram[offset % self.ram.len()]
            } else {
                0
            },
            _ => 0,
        }
    }

    /// PPU write through the page table: only writable Default/Ram pages
    /// with CHR RAM present store the byte.
    pub fn write_ppu(&mut self, addr: u16, value: u8)
        ensures
            final(self).spec_rom() == old(self).spec_rom(),
            final(self).spec_pages() == old(self).spec_pages(),
            ({
                let a = (addr % 0x4000) as int;
                let page = old(self).spec_pages()[a / 0x100];
                let offset = page_offset(page, a);
                final(self).spec_ram() == if page.access.write && old(self).spec_ram().len() > 0 && (
                page.source == ChrSource::Default || page.source == ChrSource::Ram) {
                    old(self).spec_ram().update(offset % old(self).spec_ram().len() as int, value)
                } else {
                    old(self).spec_ram()
                }
            }),
    {
        let a = (addr % 0x4000) as usize;
        let page = self.pages[a / 0x100];
        if !page.access.write || self.ram.len() == 0 {
            return;
        }
        let offset = page.source_offset.wrapping_add(a % 0x100);
        match page.source {
            ChrSource::Default | ChrSource::Ram => {
                let index = offset % self.ram.len();
                self.ram.set(index, value);
            },
            _ => {},
        }
    }

    /// Number of `bank_size` banks in the ROM (or RAM when there is no
    /// ROM), at least 1.
    pub fn bank_count(&self, bank_size: usize) -> (r: usize)
        requires
            bank_size > 0,
        ensures
            r >= 1,
            r == self.chr_bank_count(bank_size as int),
            r * bank_size <= usize::MAX,
            self.wf() && bank_size <= 0x10000 ==> r * bank_size + 0x10000 <= usize::MAX,
    {
        let len = if self.rom.len() > 0 { self.rom.len() } else { self.ram.len() };
        let n = len / bank_size;
        proof {
            assert(n * bank_size <= len) by (nonlinear_arith)
                requires
                    n == len as int / bank_size as int,
                    bank_size > 0,
            {
                vstd::arithmetic::div_mod::lemma_fundamental_div_mod(len as int, bank_size as int);
            }
        }
        if n == 0 { 1 } else { n }
    }

    /// Whole `bank_size` banks in the ROM (or RAM without ROM), at least 1.
    pub open spec fn chr_bank_count(&self, bank_size: int) -> int {
        spec_bank_count(
            if self.spec_rom().len() > 0 { self.spec_rom().len() as int } else { self.spec_ram().len() as int },
            bank_size,
        )
    }

    /// Snapshot encoding: RAM length, RAM bytes, then per page the source
    /// tag, the offset as u32 and the access byte.
    pub open spec fn snapshot_spec(&self) -> Seq<u8> {
        u32_bytes(self.spec_ram().len() as u32) + self.spec_ram() + pages_bytes(self.spec_pages(), 0x40)
    }

    pub fn snapshot_bytes(&self, bytes: &mut Vec<u8>)
        ensures
            final(bytes)@ == old(bytes)@ + self.snapshot_spec(),
    {
        push_u32(bytes, self.ram.len() as u32);
        push_all(bytes, self.ram.as_slice());
        let mut i: usize = 0;
        while i < 0x40
            invariant
                i <= 0x40,
                self.pages@.len() == 0x40,
                bytes@ == old(bytes)@ + u32_bytes(self.ram@.len() as u32) + self.ram@ + pages_bytes(self.pages@, i as int),
            decreases 0x40 - i,
        {
            let page = self.pages[i];
            bytes.push(page.source.to_byte());
            push_u32(bytes, page.source_offset as u32);
            bytes.push(page.access.to_byte());
            i = i + 1;
            assert(bytes@ =~= old(bytes)@ + u32_bytes(self.ram@.len() as u32) + self.ram@ + pages_bytes(self.pages@, i as int));
        }
    }

    /// Whether `restore_snapshot` accepts the snapshot at `o`: either it
    /// ends exactly there on a board without CHR RAM, or the RAM length
    /// matches and the 64 page records that follow carry known tags.
    pub open spec fn restore_accepts(&self, b: Seq<u8>, o: int) -> bool {
        let n = self.spec_ram().len() as int;
        ||| (b.len() == o && n == 0)
        ||| (o + 4 + n + 0x40 * 6 <= b.len() && u32_at(b, o) == n && page_tags_valid(b, o + 4 + n))
    }

    /// Offset just past an accepted snapshot at `o`.
    pub open spec fn restore_end(&self, b: Seq<u8>, o: int) -> int {
        let n = self.spec_ram().len() as int;
        if b.len() == o && n == 0 { o } else { o + 4 + n + 0x40 * 6 }
    }

    /// `new` is `old` restored from the accepted snapshot at `o`.
    pub open spec fn restored(old: ChrMemory, new: ChrMemory, b: Seq<u8>, o: int) -> bool {
        let n = old.spec_ram().len() as int;
        if b.len() == o && n == 0 {
            new == old
        } else {
            &&& new.spec_rom() == old.spec_rom()
            &&& new.spec_ram() == b.subrange(o + 4, o + 4 + n)
            &&& forall|i: int| 0 <= i < 0x40 ==> #[trigger] new.spec_pages()[i] == page_at(b, o + 4 + n + i * 6)
        }
    }

    /// Restore RAM and page table from `bytes` at `*offset`, advancing the
    /// offset past what was read. A snapshot that ends exactly at `*offset`
    /// is accepted for a board without CHR RAM. The RAM length must match.
    pub fn restore_snapshot(&mut self, bytes: &[u8], offset: &mut usize, name: &str) -> (r: Result<()>)
        ensures
            final(self).spec_rom() == old(self).spec_rom(),
            final(self).spec_ram().len() == old(self).spec_ram().len(),
            r is Ok <==> old(self).restore_accepts(bytes@, *old(offset) as int),
            r is Ok ==> ChrMemory::restored(*old(self), *final(self), bytes@, *old(offset) as int),
            r is Ok ==> *final(offset) == old(self).restore_end(bytes@, *old(offset) as int),
            r is Err ==> r matches Err(NesleError::InvalidState(_)),
    {
        let o = *offset;
        if bytes.len() == o && self.ram.len() == 0 {
            return Ok(());
        }
        if bytes.len() < 4 || bytes.len() - 4 < o {
            return Err(state_error_with(name, " CHR RAM snapshot is missing length"));
        }
        let len = read_u32(bytes, o) as usize;
        let start = o + 4;
        if len != self.ram.len() || bytes.len() - start < len {
            return Err(state_error_with(name, " CHR RAM snapshot length does not match"));
        }
        let mut i: usize = 0;
        while i < len
            invariant
                i <= len,
                len == self.ram@.len(),
                start + len <= bytes@.len(),
                self.rom@ == old(self).rom@,
                self.pages@ == old(self).pages@,
                self.ram@.len() == old(self).ram@.len(),
                start + len <= usize::MAX,
                forall|j: int| 0 <= j < i ==> #[trigger] self.ram@[j] == bytes@[start + j],
            decreases len - i,
        {
            self.ram.set(i, bytes[start + i]);
            i = i + 1;
        }
        assert(self.ram@ =~= bytes@.subrange(start as int, start + len));
        let mut pos = start + len;
        *offset = pos;
        if bytes.len() - pos < 0x40 * 6 {
            return Err(state_error_with(name, " CHR page-table snapshot truncated"));
        }
        let mut p: usize = 0;
        while p < 0x40
            invariant
                p <= 0x40,
                pos == start + len + p * 6,
                start + len + 0x40 * 6 <= bytes@.len(),
                self.rom@ == old(self).rom@,
                self.ram@ == bytes@.subrange(start as int, start + len),
                self.ram@.len() == old(self).ram@.len(),
                self.pages@.len() == 0x40,
                forall|i: int| 0 <= i < p ==> #[trigger] self.pages@[i] == page_at(bytes@, start + len + i * 6),
                forall|i: int| p <= i < 0x40 ==> #[trigger] self.pages@[i] == old(self).pages@[i],
                forall|i: int| 0 <= i < p ==> #[trigger] bytes@[start + len + i * 6] <= 5,
                start == *old(offset) + 4,
                len == old(self).ram@.len(),
            decreases 0x40 - p,
        {
            let source = match ChrSource::from_byte(bytes[pos]) {
                Ok(s) => s,
                Err(e) => {
                    assert(bytes@[start + len + p * 6] > 5);
                    assert(!page_tags_valid(bytes@, start + len));
                    *offset = pos + 1;
                    return Err(e);
                },
            };
            let so = read_u32(bytes, pos + 1) as usize;
            let access = PpuAccess::from_byte(bytes[pos + 5]);
            self.pages[p] = PpuPage { source, source_offset: so, access };
            pos = pos + 6;
            p = p + 1;
        }
        *offset = pos;
        Ok(())
    }
}

/// Byte `in_bank` of bank `bank`, with the bank number wrapped modulo
/// `bank_count`.
pub fn banked_offset(bank: usize, bank_count: usize, bank_size: usize, in_bank: usize) -> (r: usize)
    requires
        bank_count >= 1,
        in_bank < bank_size,
        bank_count * bank_size <= usize::MAX,
    ensures
        r == (bank % bank_count) * bank_size + in_bank,
{
    let b = bank % bank_count;
    proof {
        assert(b * bank_size + bank_size <= bank_count * bank_size) by (nonlinear_arith)
            requires
                b < bank_count,
                bank_size > 0,
        ;
    }
    b * bank_size + in_bank
}

/// Number of whole banks, at least one.
pub open spec fn spec_bank_count(len: int, bank_size: int) -> int {
    if len / bank_size == 0 { 1 } else { len / bank_size }
}

/// Backing-store offset of byte `a % 0x100` of `page` (wrapping at the
/// top of the address space).
pub open spec fn page_offset(page: PpuPage, a: int) -> int {
    vstd::wrapping::usize_specs::wrapping_add(page.source_offset, (a % 0x100) as usize) as int
}

/// Snapshot bytes of the first `n` pages.
pub open spec fn pages_bytes(pages: Seq<PpuPage>, n: int) -> Seq<u8>
    decreases n,
{
    if n <= 0 {
        Seq::empty()
    } else {
        pages_bytes(pages, n - 1) + seq![chr_source_tag(pages[n - 1].source)] + u32_bytes(
            pages[n - 1].source_offset as u32,
        ) + seq![access_byte(pages[n - 1].access)]
    }
}

/// Every one of the 64 page records from `o` on has a known source tag.
pub open spec fn page_tags_valid(b: Seq<u8>, o: int) -> bool {
    forall|i: int| 0 <= i < 0x40 ==> #[trigger] b[o + i * 6] <= 5
}

/// The page a six-byte snapshot record at `o` describes.
pub open spec fn page_at(b: Seq<u8>, o: int) -> PpuPage {
    PpuPage {
        source: choose|s: ChrSource| chr_source_tag(s) == b[o],
        source_offset: u32_at(b, o + 1) as usize,
        access: access_of_byte(b[o + 5]),
    }
}

/// Snapshot bytes of one page: source tag, offset as u32, access byte.
pub open spec fn page_record(p: PpuPage) -> Seq<u8> {
    seq![chr_source_tag(p.source)] + u32_bytes(p.source_offset as u32) + seq![access_byte(p.access)]
}

/// The first `n` page records lie back to back, six bytes each.
proof fn lemma_pages_bytes(pages: Seq<PpuPage>, n: int)
    requires
        0 <= n,
    ensures
        pages_bytes(pages, n).len() == 6 * n,
        forall|i: int| 0 <= i < n ==> #[trigger] pages_bytes(pages, n).subrange(6 * i, 6 * i + 6) == page_record(pages[i]),
    decreases n,
{
    if n > 0 {
        lemma_pages_bytes(pages, n - 1);
        let prev = pages_bytes(pages, n - 1);
        let rec = page_record(pages[n - 1]);
        assert(u32_bytes(pages[n - 1].source_offset as u32).len() == 4);
        assert(pages_bytes(pages, n) =~= prev + rec);
        assert forall|i: int| 0 <= i < n implies #[trigger] pages_bytes(pages, n).subrange(6 * i, 6 * i + 6)
            == page_record(pages[i]) by {
            if i < n - 1 {
                assert(prev.subrange(6 * i, 6 * i + 6) == page_record(pages[i]));
                assert(pages_bytes(pages, n).subrange(6 * i, 6 * i + 6) =~= prev.subrange(6 * i, 6 * i + 6));
            } else {
                assert(pages_bytes(pages, n).subrange(6 * i, 6 * i + 6) =~= rec);
            }
        }
    }
}

/// A page record at `o` reads back as the page, when its offset fits in
/// the record's 32 bits.
proof fn lemma_page_at_record(b: Seq<u8>, o: int, p: PpuPage)
    requires
        0 <= o,
        o + 6 <= b.len(),
        b.subrange(o, o + 6) == page_record(p),
        p.source_offset < 0x1_0000_0000,
    ensures
        page_at(b, o) == p,
        b[o] <= 5,
{
    assert(u32_bytes(p.source_offset as u32).len() == 4);
    assert(b[o] == chr_source_tag(p.source)) by {
        assert(b[o] == b.subrange(o, o + 6)[0]);
    }
    assert(b[o + 5] == access_byte(p.access)) by {
        assert(b[o + 5] == b.subrange(o, o + 6)[5]);
    }
    assert(b.subrange(o + 1, o + 5) =~= u32_bytes(p.source_offset as u32)) by {
        assert(b.subrange(o + 1, o + 5) =~= b.subrange(o, o + 6).subrange(1, 5));
    }
    crate::bytes::lemma_u32_at_bytes(b, o + 1, p.source_offset as u32);
    lemma_access_roundtrip(p.access);
    let s = choose|s: ChrSource| chr_source_tag(s) == b[o];
    assert(chr_source_tag(s) == chr_source_tag(p.source));
    assert(s == p.source);
}

/// Restoring CHR state from a snapshot, taken after any prefix, gives the
/// RAM and page table back and consumes the snapshot exactly, for a board
/// whose RAM size matches; a snapshot stores page offsets in 32 bits.
pub proof fn lemma_chr_snapshot_roundtrip(c: ChrMemory, target: ChrMemory, prefix: Seq<u8>, new: ChrMemory)
    requires
        c.spec_ram().len() < 0x1_0000_0000,
        forall|i: int| 0 <= i < 0x40 ==> (#[trigger] c.spec_pages()[i]).source_offset < 0x1_0000_0000,
        target.spec_ram().len() == c.spec_ram().len(),
    ensures
        ({
            let b = prefix + c.snapshot_spec();
            let o = prefix.len() as int;
            &&& target.restore_accepts(b, o)
            &&& target.restore_end(b, o) == b.len()
            &&& ChrMemory::restored(target, new, b, o) ==> new.spec_ram() == c.spec_ram()
                && new.spec_pages() == c.spec_pages() && new.spec_rom() == target.spec_rom()
        }),
{
    let b = prefix + c.snapshot_spec();
    let o = prefix.len() as int;
    let n = c.spec_ram().len() as int;
    let pb = pages_bytes(c.spec_pages(), 0x40);
    lemma_pages_bytes(c.spec_pages(), 0x40);
    let len_bytes = u32_bytes(n as u32);
    assert(len_bytes.len() == 4);
    assert(b =~= prefix + len_bytes + c.spec_ram() + pb);
    assert(b.len() == o + 4 + n + 0x40 * 6);
    assert(b.subrange(o, o + 4) =~= len_bytes);
    crate::bytes::lemma_u32_at_bytes(b, o, n as u32);
    let base = o + 4 + n;
    assert forall|i: int| 0 <= i < 0x40 implies #[trigger] b[base + i * 6] <= 5
        && page_at(b, base + i * 6) == c.spec_pages()[i] by {
        assert(pb.subrange(6 * i, 6 * i + 6) == page_record(c.spec_pages()[i]));
        assert(b.subrange(base + i * 6, base + i * 6 + 6) =~= pb.subrange(6 * i, 6 * i + 6));
        lemma_page_at_record(b, base + i * 6, c.spec_pages()[i]);
    }
    assert(page_tags_valid(b, base));
    assert(b.subrange(o + 4, o + 4 + n) =~= c.spec_ram());
    if ChrMemory::restored(target, new, b, o) {
        assert(new.spec_pages() =~= c.spec_pages());
    }
}

/// PRG ROM split into equal power-of-two banks; bank numbers wrap modulo
/// the bank count.
#[derive(Debug, Clone, PartialEq, Eq)]
pub struct PrgMemory {
    rom: Vec<u8>,
    bank_size: usize,
    bank_count: usize,
}

/// `n` is a power of two.
pub open spec fn is_pow2(n: int) -> bool {
    exists|k: nat| vstd::arithmetic::power2::pow2(k) == n
}

/// The bank sizes the mappers use are powers of two.
pub proof fn lemma_bank_sizes_pow2()
    ensures
        is_pow2(0x400),
        is_pow2(0x1000),
        is_pow2(0x2000),
        is_pow2(0x4000),
        is_pow2(0x8000),
        is_pow2(4),
{
    vstd::arithmetic::power2::lemma2_to64();
    assert(vstd::arithmetic::power2::pow2(10) == 0x400);
    assert(vstd::arithmetic::power2::pow2(12) == 0x1000);
    assert(vstd::arithmetic::power2::pow2(13) == 0x2000);
    assert(vstd::arithmetic::power2::pow2(14) == 0x4000);
    assert(vstd::arithmetic::power2::pow2(15) == 0x8000);
    assert(vstd::arithmetic::power2::pow2(2) == 4);
}

/// ROM byte read from `bank` at `addr_in_bank`: the bank wraps modulo the
/// bank count, the address modulo the bank size, and the index modulo the
/// ROM length (for a ROM that is not a whole number of banks).
pub open spec fn prg_read_spec(rom: Seq<u8>, bank_size: int, bank: int, addr: int) -> u8 {
    if rom.len() == 0 {
        0
    } else {
        let count = spec_bank_count(rom.len() as int, bank_size);
        rom[((bank % count) * bank_size + addr % bank_size) % rom.len() as int]
    }
}

impl PrgMemory {
    pub closed spec fn spec_rom(&self) -> Seq<u8> {
        self.rom@
    }

    pub closed spec fn spec_bank_size(&self) -> int {
        self.bank_size as int
    }

    pub closed spec fn wf(&self) -> bool {
        &&& self.bank_size > 0
        &&& self.bank_count == spec_bank_count(self.rom@.len() as int, self.bank_size as int)
        &&& self.bank_count * self.bank_size <= usize::MAX
    }

    pub fn new(rom: Vec<u8>, bank_size: usize) -> (r: Self)
        requires
            bank_size > 0,
            is_pow2(bank_size as int),
            rom@.len() + bank_size <= usize::MAX,
        ensures
            r.wf(),
            r.spec_rom() == rom@,
            r.spec_bank_size() == bank_size,
    {
        let n = rom.len() / bank_size;
        let bank_count = if n == 0 { 1 } else { n };
        proof {
            assert(bank_count * bank_size <= usize::MAX) by (nonlinear_arith)
                requires
                    n == rom@.len() as int / bank_size as int,
                    bank_size > 0,
                    bank_count == if n == 0 { 1 } else { n },
                    rom@.len() + bank_size <= usize::MAX,
            {
                vstd::arithmetic::div_mod::lemma_fundamental_div_mod(rom@.len() as int, bank_size as int);
            }
            vstd::arithmetic::div_mod::lemma_fundamental_div_mod(rom@.len() as int, bank_size as int);
            assert(n * bank_size <= rom@.len()) by (nonlinear_arith)
                requires
                    n == rom@.len() as int / bank_size as int,
                    bank_size > 0,
            ;
        }
        Self { rom, bank_size, bank_count }
    }

    /// Number of banks, at least 1.
    pub fn bank_count(&self) -> (r: usize)
        requires
            self.wf(),
        ensures
            r == spec_bank_count(self.spec_rom().len() as int, self.spec_bank_size()),
            r >= 1,
    {
        self.bank_count
    }

    pub fn read(&self, bank: usize, addr_in_bank: u16) -> (r: u8)
        requires
            self.wf(),
        ensures
            r == prg_read_spec(self.spec_rom(), self.spec_bank_size(), bank as int, addr_in_bank as int),
    {
        if self.rom.len() == 0 {
            return 0;
        }
        let b = bank % self.bank_count;
        proof {
            assert(b * self.bank_size < self.bank_count * self.bank_size) by (nonlinear_arith)
                requires
                    b < self.bank_count,
                    self.bank_size > 0,
            ;
            assert(b * self.bank_size + self.bank_size <= self.bank_count * self.bank_size) by (nonlinear_arith)
                requires
                    b < self.bank_count,
                    self.bank_size > 0,
            ;
        }
        let idx = b * self.bank_size + (addr_in_bank as usize) % self.bank_size;
        self.rom[idx % self.rom.len()]
    }
}

} // verus!
