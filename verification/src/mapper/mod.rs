pub mod axrom;
pub mod banking;
pub mod cnrom;
pub mod mmc1;
pub mod mmc2;
pub mod mmc3;
pub mod mmc5;
pub mod nrom;
pub mod sunsoft5;
pub mod traits;
pub mod uxrom;

pub use traits::{Mapper, Mmc1State};

use vstd::prelude::*;
use crate::bytes::{push_all, push_u32, read_u32, u32_at, u32_bytes};
use crate::common::error::{state_error_with, NesleError, Result};

verus! {

/// `addr` falls in the `$6000-$7FFF` PRG RAM window and the board has PRG
/// RAM.
pub open spec fn in_prg_ram_window(addr: u16, ram: Seq<u8>) -> bool {
    0x6000 <= addr <= 0x7fff && ram.len() > 0
}

/// Index of `addr` inside PRG RAM (the window wraps over smaller RAM).
pub open spec fn prg_ram_index(addr: u16, ram: Seq<u8>) -> int {
    (addr - 0x6000) % (ram.len() as int)
}

/// PRG RAM snapshot: the length as u32 little-endian, then the bytes.
pub open spec fn prg_ram_snapshot(ram: Seq<u8>) -> Seq<u8> {
    u32_bytes(ram.len() as u32) + ram
}

/// Whether `restore_prg_ram` accepts a PRG RAM snapshot of `n` bytes at
/// `o`.
pub open spec fn prg_ram_accepts(b: Seq<u8>, o: int, n: int) -> bool {
    o + 4 <= b.len() && u32_at(b, o) == n && o + 4 + n <= b.len()
}

/// Append the PRG RAM snapshot of `prg_ram` to `bytes`.
pub fn snapshot_prg_ram(bytes: &mut Vec<u8>, prg_ram: &[u8])
    ensures
        final(bytes)@ == old(bytes)@ + prg_ram_snapshot(prg_ram@),
{
    push_u32(bytes, prg_ram.len() as u32);
    push_all(bytes, prg_ram);
    assert(final(bytes)@ =~= old(bytes)@ + prg_ram_snapshot(prg_ram@));
}

/// Restore PRG RAM from the snapshot at `offset`; the stored length must
/// equal the RAM's. Returns the offset just past the consumed bytes.
pub fn restore_prg_ram(bytes: &[u8], offset: usize, prg_ram: &mut Vec<u8>, mapper_name: &str) -> (r: Result<usize>)
    ensures
        final(prg_ram)@.len() == old(prg_ram)@.len(),
        ({
            let n = old(prg_ram)@.len();
            if offset + 4 > bytes@.len() || u32_at(bytes@, offset as int) != n || offset + 4 + n > bytes@.len() {
                &&& r matches Err(NesleError::InvalidState(_))
                &&& final(prg_ram)@ == old(prg_ram)@
            } else {
                &&& r matches Ok(end) && end == offset + 4 + n
                &&& final(prg_ram)@ == bytes@.subrange(offset + 4, offset + 4 + n)
            }
        }),
{
    if bytes.len() < 4 || bytes.len() - 4 < offset {
        return Err(state_error_with(mapper_name, " snapshot is missing PRG RAM length"));
    }
    let len = read_u32(bytes, offset) as usize;
    let start = offset + 4;
    if len != prg_ram.len() || bytes.len() - start < len {
        return Err(state_error_with(mapper_name, " PRG RAM snapshot length mismatch"));
    }
    let mut i: usize = 0;
    while i < len
        invariant
            i <= len,
            len == prg_ram@.len(),
            len == old(prg_ram)@.len(),
            start + len <= bytes@.len(),
            start + len <= usize::MAX,
            forall|j: int| 0 <= j < i ==> #[trigger] prg_ram@[j] == bytes@[start + j],
        decreases len - i,
    {
        prg_ram.set(i, bytes[start + i]);
        i = i + 1;
    }
    assert(prg_ram@ =~= bytes@.subrange(start as int, start + len));
    Ok(start + len)
}

} // verus!

use crate::cartridge::{CartridgeImage, Mirroring, Region};
use crate::cpu::InterruptLines;

verus! {

/// One concrete board, dispatched by `match`.
#[derive(Debug)]
pub enum MapperImpl {
    Nrom(nrom::Nrom),
    Mmc1(mmc1::Mmc1),
    Uxrom(uxrom::Uxrom),
    Cnrom(cnrom::Cnrom),
    Mmc3(mmc3::Mmc3),
    Mmc5(Box<mmc5::Mmc5>),
    Axrom(axrom::Axrom),
    Mmc2(mmc2::Mmc2),
    Sunsoft5(sunsoft5::Sunsoft5),
}

/// Board numbers `create_mapper` supports.
pub open spec fn supported_mapper(id: u16) -> bool {
    id == 0 || id == 1 || id == 2 || id == 3 || id == 4 || id == 5 || id == 7 || id == 9 || id == 10 || id == 69
}

impl MapperImpl {
    /// Board number of the contained mapper.
    pub open spec fn spec_id(&self) -> u16 {
        match self {
            MapperImpl::Nrom(_) => 0,
            MapperImpl::Mmc1(_) => 1,
            MapperImpl::Uxrom(_) => 2,
            MapperImpl::Cnrom(_) => 3,
            MapperImpl::Mmc3(_) => 4,
            MapperImpl::Mmc5(_) => 5,
            MapperImpl::Axrom(_) => 7,
            MapperImpl::Mmc2(m) => match m.variant {
                mmc2::Mmc2Variant::Mmc2 => 9,
                mmc2::Mmc2Variant::Mmc4 => 10,
            },
            MapperImpl::Sunsoft5(_) => 69,
        }
    }

    /// CPU bus value of the contained board at `addr`.
    pub open spec fn cpu_value(&self, addr: u16, open_bus: u8) -> u8 {
        match self {
            MapperImpl::Nrom(m) => m.cpu_value(addr, open_bus),
            MapperImpl::Mmc1(m) => m.cpu_value(addr, open_bus),
            MapperImpl::Uxrom(m) => m.cpu_value(addr, open_bus),
            MapperImpl::Cnrom(m) => m.cpu_value(addr, open_bus),
            MapperImpl::Mmc3(m) => m.cpu_value(addr, open_bus),
            MapperImpl::Mmc5(m) => m.cpu_value(addr, open_bus),
            MapperImpl::Axrom(m) => m.cpu_value(addr, open_bus),
            MapperImpl::Mmc2(m) => m.cpu_value(addr, open_bus),
            MapperImpl::Sunsoft5(m) => m.cpu_value(addr, open_bus),
        }
    }

    /// Both hold the same kind of board.
    pub open spec fn same_board(&self, other: &MapperImpl) -> bool {
        self.spec_id() == other.spec_id()
    }
}

/// Mapper for the cartridge's board number; unsupported boards are
/// refused.
pub fn create_mapper(cartridge: &CartridgeImage) -> (r: Result<MapperImpl>)
    requires
        cartridge.fits_in_memory(),
        cartridge.mapper_id == 5 ==> cartridge.prg_rom@.len() > 0,
    ensures
        r is Ok <==> supported_mapper(cartridge.mapper_id),
        r matches Ok(m) ==> m.inv() && m.spec_id() == cartridge.mapper_id,
        !supported_mapper(cartridge.mapper_id) ==> r == Err::<MapperImpl, NesleError>(
            NesleError::UnsupportedMapper(cartridge.mapper_id),
        ),
{
    let id = cartridge.mapper_id;
    if id == 0 {
        Ok(MapperImpl::Nrom(nrom::Nrom::new(cartridge)))
    } else if id == 1 {
        Ok(MapperImpl::Mmc1(mmc1::Mmc1::new(cartridge)))
    } else if id == 2 {
        Ok(MapperImpl::Uxrom(uxrom::Uxrom::new(cartridge)))
    } else if id == 3 {
        Ok(MapperImpl::Cnrom(cnrom::Cnrom::new(cartridge)))
    } else if id == 4 {
        Ok(MapperImpl::Mmc3(mmc3::Mmc3::new(cartridge)))
    } else if id == 5 {
        Ok(MapperImpl::Mmc5(Box::new(mmc5::Mmc5::new(cartridge))))
    } else if id == 7 {
        Ok(MapperImpl::Axrom(axrom::Axrom::new(cartridge)))
    } else if id == 9 {
        Ok(MapperImpl::Mmc2(mmc2::Mmc2::new(cartridge)))
    } else if id == 10 {
        Ok(MapperImpl::Mmc2(mmc2::Mmc2::new_mmc4(cartridge)))
    } else if id == 69 {
        Ok(MapperImpl::Sunsoft5(sunsoft5::Sunsoft5::new(cartridge)))
    } else {
        Err(NesleError::UnsupportedMapper(id))
    }
}

impl Mapper for MapperImpl {
    open spec fn inv(&self) -> bool {
        match self {
            MapperImpl::Nrom(m) => m.inv(),
            MapperImpl::Mmc1(m) => m.inv(),
            MapperImpl::Uxrom(m) => m.inv(),
            MapperImpl::Cnrom(m) => m.inv(),
            MapperImpl::Mmc3(m) => m.inv(),
            MapperImpl::Mmc5(m) => m.inv(),
            MapperImpl::Axrom(m) => m.inv(),
            MapperImpl::Mmc2(m) => m.inv(),
            MapperImpl::Sunsoft5(m) => m.inv(),
        }
    }

    fn mapper_id(&self) -> (r: u16)
        ensures
            r == self.spec_id(),
    {
        match self {
            MapperImpl::Nrom(m) => m.mapper_id(),
            MapperImpl::Mmc1(m) => m.mapper_id(),
            MapperImpl::Uxrom(m) => m.mapper_id(),
            MapperImpl::Cnrom(m) => m.mapper_id(),
            MapperImpl::Mmc3(m) => m.mapper_id(),
            MapperImpl::Mmc5(m) => m.mapper_id(),
            MapperImpl::Axrom(m) => m.mapper_id(),
            MapperImpl::Mmc2(m) => m.mapper_id(),
            MapperImpl::Sunsoft5(m) => m.mapper_id(),
        }
    }

    fn name(&self) -> (r: &'static str) {
        match self {
            MapperImpl::Nrom(m) => m.name(),
            MapperImpl::Mmc1(m) => m.name(),
            MapperImpl::Uxrom(m) => m.name(),
            MapperImpl::Cnrom(m) => m.name(),
            MapperImpl::Mmc3(m) => m.name(),
            MapperImpl::Mmc5(m) => m.name(),
            MapperImpl::Axrom(m) => m.name(),
            MapperImpl::Mmc2(m) => m.name(),
            MapperImpl::Sunsoft5(m) => m.name(),
        }
    }

    open spec fn cpu_read_value(&self, addr: u16, next: Self, r: u8) -> bool {
        match (self, next) {
            (MapperImpl::Nrom(a), MapperImpl::Nrom(b)) => a.cpu_read_value(addr, b, r),
            (MapperImpl::Mmc1(a), MapperImpl::Mmc1(b)) => a.cpu_read_value(addr, b, r),
            (MapperImpl::Uxrom(a), MapperImpl::Uxrom(b)) => a.cpu_read_value(addr, b, r),
            (MapperImpl::Cnrom(a), MapperImpl::Cnrom(b)) => a.cpu_read_value(addr, b, r),
            (MapperImpl::Mmc3(a), MapperImpl::Mmc3(b)) => a.cpu_read_value(addr, b, r),
            (MapperImpl::Mmc5(a), MapperImpl::Mmc5(b)) => (*a).cpu_read_value(addr, *b, r),
            (MapperImpl::Axrom(a), MapperImpl::Axrom(b)) => a.cpu_read_value(addr, b, r),
            (MapperImpl::Mmc2(a), MapperImpl::Mmc2(b)) => a.cpu_read_value(addr, b, r),
            (MapperImpl::Sunsoft5(a), MapperImpl::Sunsoft5(b)) => a.cpu_read_value(addr, b, r),
            _ => false,
        }
    }

    open spec fn cpu_read_result(
        &self,
        addr: u16,
        open_bus: u8,
        interrupt: InterruptLines,
        next: Self,
        next_interrupt: InterruptLines,
        r: u8,
    ) -> bool {
        match (self, next) {
            (MapperImpl::Nrom(a), MapperImpl::Nrom(b)) => a.cpu_read_result(addr, open_bus, interrupt, b, next_interrupt, r),
            (MapperImpl::Mmc1(a), MapperImpl::Mmc1(b)) => a.cpu_read_result(addr, open_bus, interrupt, b, next_interrupt, r),
            (MapperImpl::Uxrom(a), MapperImpl::Uxrom(b)) => a.cpu_read_result(addr, open_bus, interrupt, b, next_interrupt, r),
            (MapperImpl::Cnrom(a), MapperImpl::Cnrom(b)) => a.cpu_read_result(addr, open_bus, interrupt, b, next_interrupt, r),
            (MapperImpl::Mmc3(a), MapperImpl::Mmc3(b)) => a.cpu_read_result(addr, open_bus, interrupt, b, next_interrupt, r),
            (MapperImpl::Mmc5(a), MapperImpl::Mmc5(b)) => (*a).cpu_read_result(addr, open_bus, interrupt, *b, next_interrupt, r),
            (MapperImpl::Axrom(a), MapperImpl::Axrom(b)) => a.cpu_read_result(addr, open_bus, interrupt, b, next_interrupt, r),
            (MapperImpl::Mmc2(a), MapperImpl::Mmc2(b)) => a.cpu_read_result(addr, open_bus, interrupt, b, next_interrupt, r),
            (MapperImpl::Sunsoft5(a), MapperImpl::Sunsoft5(b)) => a.cpu_read_result(addr, open_bus, interrupt, b, next_interrupt, r),
            _ => false,
        }
    }

    open spec fn cpu_written(
        &self,
        addr: u16,
        value: u8,
        interrupt: InterruptLines,
        next: Self,
        next_interrupt: InterruptLines,
    ) -> bool {
        match (self, next) {
            (MapperImpl::Nrom(a), MapperImpl::Nrom(b)) => a.cpu_written(addr, value, interrupt, b, next_interrupt),
            (MapperImpl::Mmc1(a), MapperImpl::Mmc1(b)) => a.cpu_written(addr, value, interrupt, b, next_interrupt),
            (MapperImpl::Uxrom(a), MapperImpl::Uxrom(b)) => a.cpu_written(addr, value, interrupt, b, next_interrupt),
            (MapperImpl::Cnrom(a), MapperImpl::Cnrom(b)) => a.cpu_written(addr, value, interrupt, b, next_interrupt),
            (MapperImpl::Mmc3(a), MapperImpl::Mmc3(b)) => a.cpu_written(addr, value, interrupt, b, next_interrupt),
            (MapperImpl::Mmc5(a), MapperImpl::Mmc5(b)) => (*a).cpu_written(addr, value, interrupt, *b, next_interrupt),
            (MapperImpl::Axrom(a), MapperImpl::Axrom(b)) => a.cpu_written(addr, value, interrupt, b, next_interrupt),
            (MapperImpl::Mmc2(a), MapperImpl::Mmc2(b)) => a.cpu_written(addr, value, interrupt, b, next_interrupt),
            (MapperImpl::Sunsoft5(a), MapperImpl::Sunsoft5(b)) => a.cpu_written(addr, value, interrupt, b, next_interrupt),
            _ => false,
        }
    }

    open spec fn conflicts_are(&self, r: bool) -> bool {
        match self {
            MapperImpl::Nrom(a) => a.conflicts_are(r),
            MapperImpl::Mmc1(a) => a.conflicts_are(r),
            MapperImpl::Uxrom(a) => a.conflicts_are(r),
            MapperImpl::Cnrom(a) => a.conflicts_are(r),
            MapperImpl::Mmc3(a) => a.conflicts_are(r),
            MapperImpl::Mmc5(a) => a.conflicts_are(r),
            MapperImpl::Axrom(a) => a.conflicts_are(r),
            MapperImpl::Mmc2(a) => a.conflicts_are(r),
            MapperImpl::Sunsoft5(a) => a.conflicts_are(r),
        }
    }

    fn cpu_read(&mut self, addr: u16) -> (r: u8)
        ensures
            final(self).same_board(old(self)),
    {
        match self {
            MapperImpl::Nrom(m) => m.cpu_read(addr),
            MapperImpl::Mmc1(m) => m.cpu_read(addr),
            MapperImpl::Uxrom(m) => m.cpu_read(addr),
            MapperImpl::Cnrom(m) => m.cpu_read(addr),
            MapperImpl::Mmc3(m) => m.cpu_read(addr),
            MapperImpl::Mmc5(m) => m.cpu_read(addr),
            MapperImpl::Axrom(m) => m.cpu_read(addr),
            MapperImpl::Mmc2(m) => m.cpu_read(addr),
            MapperImpl::Sunsoft5(m) => m.cpu_read(addr),
        }
    }

    fn cpu_code_read(&self, addr: u16) -> (r: Option<u8>) {
        match self {
            MapperImpl::Nrom(m) => m.cpu_code_read(addr),
            MapperImpl::Mmc1(m) => m.cpu_code_read(addr),
            MapperImpl::Uxrom(m) => m.cpu_code_read(addr),
            MapperImpl::Cnrom(m) => m.cpu_code_read(addr),
            MapperImpl::Mmc3(m) => m.cpu_code_read(addr),
            MapperImpl::Mmc5(m) => m.cpu_code_read(addr),
            MapperImpl::Axrom(m) => m.cpu_code_read(addr),
            MapperImpl::Mmc2(m) => m.cpu_code_read(addr),
            MapperImpl::Sunsoft5(m) => m.cpu_code_read(addr),
        }
    }

    fn cpu_read_open_bus(&mut self, addr: u16, open_bus: u8, interrupt: &mut InterruptLines) -> (r: u8)
        ensures
            r == old(self).cpu_value(addr, open_bus),
            final(self).same_board(old(self)),
    {
        match self {
            MapperImpl::Nrom(m) => m.cpu_read_open_bus(addr, open_bus, interrupt),
            MapperImpl::Mmc1(m) => m.cpu_read_open_bus(addr, open_bus, interrupt),
            MapperImpl::Uxrom(m) => m.cpu_read_open_bus(addr, open_bus, interrupt),
            MapperImpl::Cnrom(m) => m.cpu_read_open_bus(addr, open_bus, interrupt),
            MapperImpl::Mmc3(m) => m.cpu_read_open_bus(addr, open_bus, interrupt),
            MapperImpl::Mmc5(m) => m.cpu_read_open_bus(addr, open_bus, interrupt),
            MapperImpl::Axrom(m) => m.cpu_read_open_bus(addr, open_bus, interrupt),
            MapperImpl::Mmc2(m) => m.cpu_read_open_bus(addr, open_bus, interrupt),
            MapperImpl::Sunsoft5(m) => m.cpu_read_open_bus(addr, open_bus, interrupt),
        }
    }

    fn cpu_write(&mut self, addr: u16, value: u8, interrupt: &mut InterruptLines)
        ensures
            final(self).same_board(old(self)),
    {
        match self {
            MapperImpl::Nrom(m) => m.cpu_write(addr, value, interrupt),
            MapperImpl::Mmc1(m) => m.cpu_write(addr, value, interrupt),
            MapperImpl::Uxrom(m) => m.cpu_write(addr, value, interrupt),
            MapperImpl::Cnrom(m) => m.cpu_write(addr, value, interrupt),
            MapperImpl::Mmc3(m) => m.cpu_write(addr, value, interrupt),
            MapperImpl::Mmc5(m) => m.cpu_write(addr, value, interrupt),
            MapperImpl::Axrom(m) => m.cpu_write(addr, value, interrupt),
            MapperImpl::Mmc2(m) => m.cpu_write(addr, value, interrupt),
            MapperImpl::Sunsoft5(m) => m.cpu_write(addr, value, interrupt),
        }
    }

    open spec fn ppu_read_result(&self, addr: u16, next: Self, r: u8) -> bool {
        match (self, next) {
            (MapperImpl::Nrom(a), MapperImpl::Nrom(b)) => a.ppu_read_result(addr, b, r),
            (MapperImpl::Mmc1(a), MapperImpl::Mmc1(b)) => a.ppu_read_result(addr, b, r),
            (MapperImpl::Uxrom(a), MapperImpl::Uxrom(b)) => a.ppu_read_result(addr, b, r),
            (MapperImpl::Cnrom(a), MapperImpl::Cnrom(b)) => a.ppu_read_result(addr, b, r),
            (MapperImpl::Mmc3(a), MapperImpl::Mmc3(b)) => a.ppu_read_result(addr, b, r),
            (MapperImpl::Mmc5(a), MapperImpl::Mmc5(b)) => (*a).ppu_read_result(addr, *b, r),
            (MapperImpl::Axrom(a), MapperImpl::Axrom(b)) => a.ppu_read_result(addr, b, r),
            (MapperImpl::Mmc2(a), MapperImpl::Mmc2(b)) => a.ppu_read_result(addr, b, r),
            (MapperImpl::Sunsoft5(a), MapperImpl::Sunsoft5(b)) => a.ppu_read_result(addr, b, r),
            _ => false,
        }
    }

    open spec fn ppu_written(&self, addr: u16, value: u8, next: Self) -> bool {
        match (self, next) {
            (MapperImpl::Nrom(a), MapperImpl::Nrom(b)) => a.ppu_written(addr, value, b),
            (MapperImpl::Mmc1(a), MapperImpl::Mmc1(b)) => a.ppu_written(addr, value, b),
            (MapperImpl::Uxrom(a), MapperImpl::Uxrom(b)) => a.ppu_written(addr, value, b),
            (MapperImpl::Cnrom(a), MapperImpl::Cnrom(b)) => a.ppu_written(addr, value, b),
            (MapperImpl::Mmc3(a), MapperImpl::Mmc3(b)) => a.ppu_written(addr, value, b),
            (MapperImpl::Mmc5(a), MapperImpl::Mmc5(b)) => (*a).ppu_written(addr, value, *b),
            (MapperImpl::Axrom(a), MapperImpl::Axrom(b)) => a.ppu_written(addr, value, b),
            (MapperImpl::Mmc2(a), MapperImpl::Mmc2(b)) => a.ppu_written(addr, value, b),
            (MapperImpl::Sunsoft5(a), MapperImpl::Sunsoft5(b)) => a.ppu_written(addr, value, b),
            _ => false,
        }
    }

    fn ppu_read(&mut self, addr: u16) -> (r: u8)
        ensures
            final(self).same_board(old(self)),
    {
        match self {
            MapperImpl::Nrom(m) => m.ppu_read(addr),
            MapperImpl::Mmc1(m) => m.ppu_read(addr),
            MapperImpl::Uxrom(m) => m.ppu_read(addr),
            MapperImpl::Cnrom(m) => m.ppu_read(addr),
            MapperImpl::Mmc3(m) => m.ppu_read(addr),
            MapperImpl::Mmc5(m) => m.ppu_read(addr),
            MapperImpl::Axrom(m) => m.ppu_read(addr),
            MapperImpl::Mmc2(m) => m.ppu_read(addr),
            MapperImpl::Sunsoft5(m) => m.ppu_read(addr),
        }
    }

    fn debug_ppu_read(&self, addr: u16) -> (r: u8) {
        match self {
            MapperImpl::Nrom(m) => m.debug_ppu_read(addr),
            MapperImpl::Mmc1(m) => m.debug_ppu_read(addr),
            MapperImpl::Uxrom(m) => m.debug_ppu_read(addr),
            MapperImpl::Cnrom(m) => m.debug_ppu_read(addr),
            MapperImpl::Mmc3(m) => m.debug_ppu_read(addr),
            MapperImpl::Mmc5(m) => m.debug_ppu_read(addr),
            MapperImpl::Axrom(m) => m.debug_ppu_read(addr),
            MapperImpl::Mmc2(m) => m.debug_ppu_read(addr),
            MapperImpl::Sunsoft5(m) => m.debug_ppu_read(addr),
        }
    }

    fn ppu_write(&mut self, addr: u16, value: u8)
        ensures
            final(self).same_board(old(self)),
    {
        match self {
            MapperImpl::Nrom(m) => m.ppu_write(addr, value),
            MapperImpl::Mmc1(m) => m.ppu_write(addr, value),
            MapperImpl::Uxrom(m) => m.ppu_write(addr, value),
            MapperImpl::Cnrom(m) => m.ppu_write(addr, value),
            MapperImpl::Mmc3(m) => m.ppu_write(addr, value),
            MapperImpl::Mmc5(m) => m.ppu_write(addr, value),
            MapperImpl::Axrom(m) => m.ppu_write(addr, value),
            MapperImpl::Mmc2(m) => m.ppu_write(addr, value),
            MapperImpl::Sunsoft5(m) => m.ppu_write(addr, value),
        }
    }

    open spec fn nametable_read_result(
        &self,
        addr: u16,
        ciram: Seq<u8>,
        interrupt: InterruptLines,
        next: Self,
        next_interrupt: InterruptLines,
        r: Option<u8>,
    ) -> bool {
        match (self, next) {
            (MapperImpl::Nrom(a), MapperImpl::Nrom(b)) => a.nametable_read_result(addr, ciram, interrupt, b, next_interrupt, r),
            (MapperImpl::Mmc1(a), MapperImpl::Mmc1(b)) => a.nametable_read_result(addr, ciram, interrupt, b, next_interrupt, r),
            (MapperImpl::Uxrom(a), MapperImpl::Uxrom(b)) => a.nametable_read_result(addr, ciram, interrupt, b, next_interrupt, r),
            (MapperImpl::Cnrom(a), MapperImpl::Cnrom(b)) => a.nametable_read_result(addr, ciram, interrupt, b, next_interrupt, r),
            (MapperImpl::Mmc3(a), MapperImpl::Mmc3(b)) => a.nametable_read_result(addr, ciram, interrupt, b, next_interrupt, r),
            (MapperImpl::Mmc5(a), MapperImpl::Mmc5(b)) => (*a).nametable_read_result(addr, ciram, interrupt, *b, next_interrupt, r),
            (MapperImpl::Axrom(a), MapperImpl::Axrom(b)) => a.nametable_read_result(addr, ciram, interrupt, b, next_interrupt, r),
            (MapperImpl::Mmc2(a), MapperImpl::Mmc2(b)) => a.nametable_read_result(addr, ciram, interrupt, b, next_interrupt, r),
            (MapperImpl::Sunsoft5(a), MapperImpl::Sunsoft5(b)) => a.nametable_read_result(addr, ciram, interrupt, b, next_interrupt, r),
            _ => false,
        }
    }

    open spec fn nametable_written(
        &self,
        addr: u16,
        value: u8,
        ciram: Seq<u8>,
        next: Self,
        next_ciram: Seq<u8>,
        r: bool,
    ) -> bool {
        match (self, next) {
            (MapperImpl::Nrom(a), MapperImpl::Nrom(b)) => a.nametable_written(addr, value, ciram, b, next_ciram, r),
            (MapperImpl::Mmc1(a), MapperImpl::Mmc1(b)) => a.nametable_written(addr, value, ciram, b, next_ciram, r),
            (MapperImpl::Uxrom(a), MapperImpl::Uxrom(b)) => a.nametable_written(addr, value, ciram, b, next_ciram, r),
            (MapperImpl::Cnrom(a), MapperImpl::Cnrom(b)) => a.nametable_written(addr, value, ciram, b, next_ciram, r),
            (MapperImpl::Mmc3(a), MapperImpl::Mmc3(b)) => a.nametable_written(addr, value, ciram, b, next_ciram, r),
            (MapperImpl::Mmc5(a), MapperImpl::Mmc5(b)) => (*a).nametable_written(addr, value, ciram, *b, next_ciram, r),
            (MapperImpl::Axrom(a), MapperImpl::Axrom(b)) => a.nametable_written(addr, value, ciram, b, next_ciram, r),
            (MapperImpl::Mmc2(a), MapperImpl::Mmc2(b)) => a.nametable_written(addr, value, ciram, b, next_ciram, r),
            (MapperImpl::Sunsoft5(a), MapperImpl::Sunsoft5(b)) => a.nametable_written(addr, value, ciram, b, next_ciram, r),
            _ => false,
        }
    }

    open spec fn mirrors(&self, m: Mirroring) -> bool {
        match self {
            MapperImpl::Nrom(a) => a.mirrors(m),
            MapperImpl::Mmc1(a) => a.mirrors(m),
            MapperImpl::Uxrom(a) => a.mirrors(m),
            MapperImpl::Cnrom(a) => a.mirrors(m),
            MapperImpl::Mmc3(a) => a.mirrors(m),
            MapperImpl::Mmc5(a) => a.mirrors(m),
            MapperImpl::Axrom(a) => a.mirrors(m),
            MapperImpl::Mmc2(a) => a.mirrors(m),
            MapperImpl::Sunsoft5(a) => a.mirrors(m),
        }
    }

    fn ppu_read_nametable(&mut self, addr: u16, ciram: &[u8; 0x1000], interrupt: &mut InterruptLines) -> (r: Option<u8>)
        ensures
            final(self).same_board(old(self)),
    {
        match self {
            MapperImpl::Nrom(m) => m.ppu_read_nametable(addr, ciram, interrupt),
            MapperImpl::Mmc1(m) => m.ppu_read_nametable(addr, ciram, interrupt),
            MapperImpl::Uxrom(m) => m.ppu_read_nametable(addr, ciram, interrupt),
            MapperImpl::Cnrom(m) => m.ppu_read_nametable(addr, ciram, interrupt),
            MapperImpl::Mmc3(m) => m.ppu_read_nametable(addr, ciram, interrupt),
            MapperImpl::Mmc5(m) => m.ppu_read_nametable(addr, ciram, interrupt),
            MapperImpl::Axrom(m) => m.ppu_read_nametable(addr, ciram, interrupt),
            MapperImpl::Mmc2(m) => m.ppu_read_nametable(addr, ciram, interrupt),
            MapperImpl::Sunsoft5(m) => m.ppu_read_nametable(addr, ciram, interrupt),
        }
    }

    fn ppu_write_nametable(&mut self, addr: u16, value: u8, ciram: &mut [u8; 0x1000]) -> (r: bool)
        ensures
            final(self).same_board(old(self)),
    {
        match self {
            MapperImpl::Nrom(m) => m.ppu_write_nametable(addr, value, ciram),
            MapperImpl::Mmc1(m) => m.ppu_write_nametable(addr, value, ciram),
            MapperImpl::Uxrom(m) => m.ppu_write_nametable(addr, value, ciram),
            MapperImpl::Cnrom(m) => m.ppu_write_nametable(addr, value, ciram),
            MapperImpl::Mmc3(m) => m.ppu_write_nametable(addr, value, ciram),
            MapperImpl::Mmc5(m) => m.ppu_write_nametable(addr, value, ciram),
            MapperImpl::Axrom(m) => m.ppu_write_nametable(addr, value, ciram),
            MapperImpl::Mmc2(m) => m.ppu_write_nametable(addr, value, ciram),
            MapperImpl::Sunsoft5(m) => m.ppu_write_nametable(addr, value, ciram),
        }
    }

    fn ppu_register_write(&mut self, original_addr: u16, canonical_addr: u16, value: u8)
        ensures
            final(self).same_board(old(self)),
    {
        match self {
            MapperImpl::Nrom(m) => m.ppu_register_write(original_addr, canonical_addr, value),
            MapperImpl::Mmc1(m) => m.ppu_register_write(original_addr, canonical_addr, value),
            MapperImpl::Uxrom(m) => m.ppu_register_write(original_addr, canonical_addr, value),
            MapperImpl::Cnrom(m) => m.ppu_register_write(original_addr, canonical_addr, value),
            MapperImpl::Mmc3(m) => m.ppu_register_write(original_addr, canonical_addr, value),
            MapperImpl::Mmc5(m) => m.ppu_register_write(original_addr, canonical_addr, value),
            MapperImpl::Axrom(m) => m.ppu_register_write(original_addr, canonical_addr, value),
            MapperImpl::Mmc2(m) => m.ppu_register_write(original_addr, canonical_addr, value),
            MapperImpl::Sunsoft5(m) => m.ppu_register_write(original_addr, canonical_addr, value),
        }
    }

    fn nametable_mirroring(&self) -> (r: Mirroring) {
        match self {
            MapperImpl::Nrom(m) => m.nametable_mirroring(),
            MapperImpl::Mmc1(m) => m.nametable_mirroring(),
            MapperImpl::Uxrom(m) => m.nametable_mirroring(),
            MapperImpl::Cnrom(m) => m.nametable_mirroring(),
            MapperImpl::Mmc3(m) => m.nametable_mirroring(),
            MapperImpl::Mmc5(m) => m.nametable_mirroring(),
            MapperImpl::Axrom(m) => m.nametable_mirroring(),
            MapperImpl::Mmc2(m) => m.nametable_mirroring(),
            MapperImpl::Sunsoft5(m) => m.nametable_mirroring(),
        }
    }

    fn process_cpu_clock(&mut self, interrupt: &mut InterruptLines)
        ensures
            final(self).same_board(old(self)),
    {
        match self {
            MapperImpl::Nrom(m) => m.process_cpu_clock(interrupt),
            MapperImpl::Mmc1(m) => m.process_cpu_clock(interrupt),
            MapperImpl::Uxrom(m) => m.process_cpu_clock(interrupt),
            MapperImpl::Cnrom(m) => m.process_cpu_clock(interrupt),
            MapperImpl::Mmc3(m) => m.process_cpu_clock(interrupt),
            MapperImpl::Mmc5(m) => m.process_cpu_clock(interrupt),
            MapperImpl::Axrom(m) => m.process_cpu_clock(interrupt),
            MapperImpl::Mmc2(m) => m.process_cpu_clock(interrupt),
            MapperImpl::Sunsoft5(m) => m.process_cpu_clock(interrupt),
        }
    }

    fn has_cpu_clock_hook(&self) -> (r: bool)
        ensures
            r == (self.spec_id() == 1 || self.spec_id() == 5 || self.spec_id() == 69),
    {
        match self {
            MapperImpl::Nrom(m) => m.has_cpu_clock_hook(),
            MapperImpl::Mmc1(m) => m.has_cpu_clock_hook(),
            MapperImpl::Uxrom(m) => m.has_cpu_clock_hook(),
            MapperImpl::Cnrom(m) => m.has_cpu_clock_hook(),
            MapperImpl::Mmc3(m) => m.has_cpu_clock_hook(),
            MapperImpl::Mmc5(m) => m.has_cpu_clock_hook(),
            MapperImpl::Axrom(m) => m.has_cpu_clock_hook(),
            MapperImpl::Mmc2(m) => m.has_cpu_clock_hook(),
            MapperImpl::Sunsoft5(m) => m.has_cpu_clock_hook(),
        }
    }

    open spec fn watches_vram_addr(&self) -> bool {
        match self {
            MapperImpl::Nrom(m) => m.watches_vram_addr(),
            MapperImpl::Mmc1(m) => m.watches_vram_addr(),
            MapperImpl::Uxrom(m) => m.watches_vram_addr(),
            MapperImpl::Cnrom(m) => m.watches_vram_addr(),
            MapperImpl::Mmc3(m) => m.watches_vram_addr(),
            MapperImpl::Mmc5(m) => m.watches_vram_addr(),
            MapperImpl::Axrom(m) => m.watches_vram_addr(),
            MapperImpl::Mmc2(m) => m.watches_vram_addr(),
            MapperImpl::Sunsoft5(m) => m.watches_vram_addr(),
        }
    }

    /// The same board, stepped as that board steps.
    open spec fn vram_addr_notified(
        &self,
        addr: u16,
        cpu_cycle_count: u64,
        interrupt: InterruptLines,
        next: Self,
        next_interrupt: InterruptLines,
    ) -> bool {
        match (self, next) {
            (MapperImpl::Nrom(a), MapperImpl::Nrom(b)) => a.vram_addr_notified(addr, cpu_cycle_count, interrupt, b, next_interrupt),
            (MapperImpl::Mmc1(a), MapperImpl::Mmc1(b)) => a.vram_addr_notified(addr, cpu_cycle_count, interrupt, b, next_interrupt),
            (MapperImpl::Uxrom(a), MapperImpl::Uxrom(b)) => a.vram_addr_notified(addr, cpu_cycle_count, interrupt, b, next_interrupt),
            (MapperImpl::Cnrom(a), MapperImpl::Cnrom(b)) => a.vram_addr_notified(addr, cpu_cycle_count, interrupt, b, next_interrupt),
            (MapperImpl::Mmc3(a), MapperImpl::Mmc3(b)) => a.vram_addr_notified(addr, cpu_cycle_count, interrupt, b, next_interrupt),
            (MapperImpl::Mmc5(a), MapperImpl::Mmc5(b)) => (*a).vram_addr_notified(addr, cpu_cycle_count, interrupt, *b, next_interrupt),
            (MapperImpl::Axrom(a), MapperImpl::Axrom(b)) => a.vram_addr_notified(addr, cpu_cycle_count, interrupt, b, next_interrupt),
            (MapperImpl::Mmc2(a), MapperImpl::Mmc2(b)) => a.vram_addr_notified(addr, cpu_cycle_count, interrupt, b, next_interrupt),
            (MapperImpl::Sunsoft5(a), MapperImpl::Sunsoft5(b)) => a.vram_addr_notified(addr, cpu_cycle_count, interrupt, b, next_interrupt),
            _ => false,
        }
    }

    fn notify_vram_addr(&mut self, addr: u16, cpu_cycle_count: u64, interrupt: &mut InterruptLines)
        ensures
            final(self).same_board(old(self)),
    {
        match self {
            MapperImpl::Nrom(m) => m.notify_vram_addr(addr, cpu_cycle_count, interrupt),
            MapperImpl::Mmc1(m) => m.notify_vram_addr(addr, cpu_cycle_count, interrupt),
            MapperImpl::Uxrom(m) => m.notify_vram_addr(addr, cpu_cycle_count, interrupt),
            MapperImpl::Cnrom(m) => m.notify_vram_addr(addr, cpu_cycle_count, interrupt),
            MapperImpl::Mmc3(m) => m.notify_vram_addr(addr, cpu_cycle_count, interrupt),
            MapperImpl::Mmc5(m) => m.notify_vram_addr(addr, cpu_cycle_count, interrupt),
            MapperImpl::Axrom(m) => m.notify_vram_addr(addr, cpu_cycle_count, interrupt),
            MapperImpl::Mmc2(m) => m.notify_vram_addr(addr, cpu_cycle_count, interrupt),
            MapperImpl::Sunsoft5(m) => m.notify_vram_addr(addr, cpu_cycle_count, interrupt),
        }
    }

    fn has_vram_addr_hook(&self) -> (r: bool)
        ensures
            r == (self.spec_id() == 4 || self.spec_id() == 5 || self.spec_id() == 9 || self.spec_id() == 10),
    {
        match self {
            MapperImpl::Nrom(m) => m.has_vram_addr_hook(),
            MapperImpl::Mmc1(m) => m.has_vram_addr_hook(),
            MapperImpl::Uxrom(m) => m.has_vram_addr_hook(),
            MapperImpl::Cnrom(m) => m.has_vram_addr_hook(),
            MapperImpl::Mmc3(m) => m.has_vram_addr_hook(),
            MapperImpl::Mmc5(m) => m.has_vram_addr_hook(),
            MapperImpl::Axrom(m) => m.has_vram_addr_hook(),
            MapperImpl::Mmc2(m) => m.has_vram_addr_hook(),
            MapperImpl::Sunsoft5(m) => m.has_vram_addr_hook(),
        }
    }

    fn has_bus_conflicts(&self) -> (r: bool) {
        match self {
            MapperImpl::Nrom(m) => m.has_bus_conflicts(),
            MapperImpl::Mmc1(m) => m.has_bus_conflicts(),
            MapperImpl::Uxrom(m) => m.has_bus_conflicts(),
            MapperImpl::Cnrom(m) => m.has_bus_conflicts(),
            MapperImpl::Mmc3(m) => m.has_bus_conflicts(),
            MapperImpl::Mmc5(m) => m.has_bus_conflicts(),
            MapperImpl::Axrom(m) => m.has_bus_conflicts(),
            MapperImpl::Mmc2(m) => m.has_bus_conflicts(),
            MapperImpl::Sunsoft5(m) => m.has_bus_conflicts(),
        }
    }

    fn soft_reset(&mut self)
        ensures
            final(self).same_board(old(self)),
    {
        match self {
            MapperImpl::Nrom(m) => m.soft_reset(),
            MapperImpl::Mmc1(m) => m.soft_reset(),
            MapperImpl::Uxrom(m) => m.soft_reset(),
            MapperImpl::Cnrom(m) => m.soft_reset(),
            MapperImpl::Mmc3(m) => m.soft_reset(),
            MapperImpl::Mmc5(m) => m.soft_reset(),
            MapperImpl::Axrom(m) => m.soft_reset(),
            MapperImpl::Mmc2(m) => m.soft_reset(),
            MapperImpl::Sunsoft5(m) => m.soft_reset(),
        }
    }

    fn set_region(&mut self, region: Region)
        ensures
            final(self).same_board(old(self)),
    {
        match self {
            MapperImpl::Nrom(m) => m.set_region(region),
            MapperImpl::Mmc1(m) => m.set_region(region),
            MapperImpl::Uxrom(m) => m.set_region(region),
            MapperImpl::Cnrom(m) => m.set_region(region),
            MapperImpl::Mmc3(m) => m.set_region(region),
            MapperImpl::Mmc5(m) => m.set_region(region),
            MapperImpl::Axrom(m) => m.set_region(region),
            MapperImpl::Mmc2(m) => m.set_region(region),
            MapperImpl::Sunsoft5(m) => m.set_region(region),
        }
    }

    fn snapshot_bytes(&self) -> (r: Vec<u8>) {
        match self {
            MapperImpl::Nrom(m) => m.snapshot_bytes(),
            MapperImpl::Mmc1(m) => m.snapshot_bytes(),
            MapperImpl::Uxrom(m) => m.snapshot_bytes(),
            MapperImpl::Cnrom(m) => m.snapshot_bytes(),
            MapperImpl::Mmc3(m) => m.snapshot_bytes(),
            MapperImpl::Mmc5(m) => m.snapshot_bytes(),
            MapperImpl::Axrom(m) => m.snapshot_bytes(),
            MapperImpl::Mmc2(m) => m.snapshot_bytes(),
            MapperImpl::Sunsoft5(m) => m.snapshot_bytes(),
        }
    }

    fn restore_snapshot(&mut self, bytes: &[u8]) -> (r: Result<()>)
        ensures
            final(self).same_board(old(self)),
    {
        match self {
            MapperImpl::Nrom(m) => m.restore_snapshot(bytes),
            MapperImpl::Mmc1(m) => m.restore_snapshot(bytes),
            MapperImpl::Uxrom(m) => m.restore_snapshot(bytes),
            MapperImpl::Cnrom(m) => m.restore_snapshot(bytes),
            MapperImpl::Mmc3(m) => m.restore_snapshot(bytes),
            MapperImpl::Mmc5(m) => m.restore_snapshot(bytes),
            MapperImpl::Axrom(m) => m.restore_snapshot(bytes),
            MapperImpl::Mmc2(m) => m.restore_snapshot(bytes),
            MapperImpl::Sunsoft5(m) => m.restore_snapshot(bytes),
        }
    }

    fn mmc1_state(&self) -> (r: Option<Mmc1State>)
        ensures
            r is Some <==> self.spec_id() == 1,
    {
        match self {
            MapperImpl::Nrom(m) => m.mmc1_state(),
            MapperImpl::Mmc1(m) => m.mmc1_state(),
            MapperImpl::Uxrom(m) => m.mmc1_state(),
            MapperImpl::Cnrom(m) => m.mmc1_state(),
            MapperImpl::Mmc3(m) => m.mmc1_state(),
            MapperImpl::Mmc5(m) => m.mmc1_state(),
            MapperImpl::Axrom(m) => m.mmc1_state(),
            MapperImpl::Mmc2(m) => m.mmc1_state(),
            MapperImpl::Sunsoft5(m) => m.mmc1_state(),
        }
    }
}

} // verus!
