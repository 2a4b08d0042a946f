use vstd::prelude::*;

verus! {

#[derive(Debug, Clone, Copy, PartialEq, Eq)]
pub enum CartridgeFormat {
    INes,
    Nes20,
    Unif,
    Fds,
}

#[derive(Debug, Clone, Copy, PartialEq, Eq)]
pub enum Mirroring {
    Horizontal,
    Vertical,
    FourScreen,
    SingleScreenLower,
    SingleScreenUpper,
}

/// Console region; drives CPU/PPU clock dividers, APU frame counter step
/// table and PPU scanline count.
#[derive(Debug, Clone, Copy, PartialEq, Eq)]
pub enum Region {
    Ntsc,
    Pal,
    Dendy,
}

impl Default for Region {
    fn default() -> (r: Self)
        ensures
            r == Region::Ntsc,
    {
        Region::Ntsc
    }
}

/// Parsed cartridge: ROM payloads plus the header-derived board metadata.
#[derive(Debug, Clone, PartialEq, Eq)]
pub struct CartridgeImage {
    pub format: CartridgeFormat,
    pub mapper_id: u16,
    pub submapper: u8,
    pub mirroring: Mirroring,
    pub battery: bool,
    pub region: Region,
    pub prg_rom: Vec<u8>,
    pub chr_rom: Vec<u8>,
    pub trainer_data: Vec<u8>,
    pub work_ram_size: usize,
    pub save_ram_size: usize,
    pub prg_ram_size: usize,
    pub prg_ram_unspecified: bool,
    pub save_chr_ram_size: usize,
    pub chr_ram_size: usize,
    pub chr_ram_unspecified: bool,
    /// NES 2.0 header byte 15 ("default expansion device"); 0 when unspecified.
    pub input_device: u8,
}

pub open spec fn max_int(a: int, b: int) -> int {
    if a >= b { a } else { b }
}

/// Offset at which the trainer payload sits inside PRG RAM ($7000).
pub const TRAINER_OFFSET: usize = 0x1000;

impl CartridgeImage {
    /// Size of the PRG RAM produced by `initialized_prg_ram(min_size)`: the
    /// largest of the header size, the mapper default (when the header does
    /// not specify one) and the space the trainer needs.
    pub open spec fn prg_ram_init_size(&self, min_size: usize) -> int {
        let header = max_int(self.prg_ram_size as int, self.work_ram_size + self.save_ram_size);
        let mapper_default = if self.prg_ram_unspecified { min_size as int } else { 0 };
        let trainer = if self.trainer_data@.len() == 0 {
            0
        } else {
            TRAINER_OFFSET + self.trainer_data@.len()
        };
        max_int(max_int(header, mapper_default), trainer)
    }

    /// Byte `i` of the initialized PRG RAM: the trainer inside its window,
    /// 0xFF elsewhere.
    pub open spec fn prg_ram_init_byte(&self, i: int) -> u8 {
        if TRAINER_OFFSET <= i < TRAINER_OFFSET + self.trainer_data@.len() {
            self.trainer_data@[i - TRAINER_OFFSET]
        } else {
            0xff
        }
    }

    /// Every size a mapper derives from this image fits in a `usize` with
    /// room for one 32 KiB bank of arithmetic.
    pub open spec fn fits_in_memory(&self) -> bool {
        &&& self.work_ram_size + self.save_ram_size <= usize::MAX
        &&& TRAINER_OFFSET + self.trainer_data@.len() <= usize::MAX
        &&& self.chr_ram_size + self.save_chr_ram_size <= usize::MAX
        &&& self.prg_rom@.len() + 0x8000 <= usize::MAX
        &&& self.chr_rom@.len() + 0x10000 <= usize::MAX
        &&& self.chr_ram_size + self.save_chr_ram_size + 0x10000 <= usize::MAX
    }

    /// `ram` is what `initialized_prg_ram(min_size)` returns.
    pub open spec fn is_initialized_prg_ram(&self, ram: Seq<u8>, min_size: usize) -> bool {
        &&& ram.len() == self.prg_ram_init_size(min_size)
        &&& forall|i: int| 0 <= i < ram.len() ==> #[trigger] ram[i] == self.prg_ram_init_byte(i)
    }

    /// True iff the cartridge was parsed from a NES 2.0 header.
    pub fn is_nes20(&self) -> (r: bool)
        ensures
            r == (self.format == CartridgeFormat::Nes20),
    {
        matches!(self.format, CartridgeFormat::Nes20)
    }

    /// True iff the cartridge has the optional trainer payload.
    pub fn has_trainer(&self) -> (r: bool)
        ensures
            r == (self.trainer_data@.len() > 0),
    {
        self.trainer_data.len() > 0
    }

    /// Power-on PRG RAM: 0xFF-filled, with the trainer copied to offset
    /// 0x1000 when present.
    pub fn initialized_prg_ram(&self, min_size: usize) -> (ram: Vec<u8>)
        requires
            self.work_ram_size + self.save_ram_size <= usize::MAX,
            TRAINER_OFFSET + self.trainer_data@.len() <= usize::MAX,
        ensures
            ram@.len() == self.prg_ram_init_size(min_size),
            forall|i: int| 0 <= i < ram@.len() ==> #[trigger] ram@[i] == self.prg_ram_init_byte(i),
    {
        let sum = self.work_ram_size + self.save_ram_size;
        let header_size = if self.prg_ram_size >= sum { self.prg_ram_size } else { sum };
        let mapper_default = if self.prg_ram_unspecified { min_size } else { 0 };
        let tlen = self.trainer_data.len();
        let trainer_size = if tlen == 0 { 0 } else { 0x1000 + tlen };
        let s1 = if header_size >= mapper_default { header_size } else { mapper_default };
        let size = if s1 >= trainer_size { s1 } else { trainer_size };
        let mut ram: Vec<u8> = Vec::with_capacity(size);
        let mut i: usize = 0;
        while i < size
            invariant
                i <= size,
                size == self.prg_ram_init_size(min_size),
                tlen == self.trainer_data@.len(),
                tlen > 0 ==> 0x1000 + tlen <= size,
                ram@.len() == i,
                forall|j: int| 0 <= j < i ==> #[trigger] ram@[j] == self.prg_ram_init_byte(j),
            decreases size - i,
        {
            let b = if 0x1000 <= i && i < 0x1000 + tlen {
                self.trainer_data[i - 0x1000]
            } else {
                0xff
            };
            ram.push(b);
            i = i + 1;
        }
        ram
    }

    /// Combined volatile and battery-backed CHR RAM size.
    pub fn total_chr_ram_size(&self) -> (r: usize)
        requires
            self.chr_ram_size + self.save_chr_ram_size <= usize::MAX,
        ensures
            r == self.chr_ram_size + self.save_chr_ram_size,
    {
        self.chr_ram_size + self.save_chr_ram_size
    }
}

} // verus!
