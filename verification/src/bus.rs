//! CPU-side console memory and address decoding: the 2 KiB work RAM, the
//! CPU open-bus latch, a bounded log of work-RAM writes for diagnostics, and
//! the CPU bus read and write that route each address to its device.
use vstd::prelude::*;
use crate::apu::unit::status_bits;
use crate::apu::Apu;
use crate::cpu::InterruptLines;
use crate::input::{ControllerPorts, PortsModel};
use crate::mapper::Mapper;
use crate::ppu::readback::decayed_bus;
use crate::ppu::Ppu;

verus! {

/// Bus-side events that CPU execution consumes synchronously.
#[derive(Debug, Clone, Copy, PartialEq, Eq)]
pub enum BusEvent {
    OamDma(u8),
}

/// The write log stops recording once it holds this many entries.
pub const WRAM_WRITE_LOG_CAPACITY: usize = 4096;

#[derive(Debug, Clone, Copy, PartialEq, Eq)]
pub struct WramWriteLogEntry {
    pub cycle_count: u64,
    pub pc: u16,
    pub addr: u16,
    pub normalized_addr: u16,
    pub old_value: u8,
    pub new_value: u8,
    pub op_type: u8,
    pub a: u8,
    pub x: u8,
    pub y: u8,
    pub sp: u8,
    pub status: u8,
}

#[derive(Debug, Clone)]
pub struct Bus {
    pub wram: [u8; 0x800],
    pub cpu_open_bus: u8,
    pub wram_write_log: Vec<WramWriteLogEntry>,
}

/// Work RAM as it powers on: every byte `$FF`.
pub open spec fn power_on_wram() -> Seq<u8> {
    Seq::new(0x800, |i: int| 0xffu8)
}

impl Bus {
    /// The write log never grows past its capacity.
    pub open spec fn wf(&self) -> bool {
        self.wram_write_log@.len() <= WRAM_WRITE_LOG_CAPACITY
    }

    /// Bytes that `snapshot_bytes` produces.
    pub open spec fn snapshot_spec(&self) -> Seq<u8> {
        seq![self.cpu_open_bus]
    }

    /// The bus after restoring from `bytes`.
    pub open spec fn restored(self, bytes: Seq<u8>) -> Bus {
        Bus { cpu_open_bus: bytes[0], ..self }
    }
}

impl Default for Bus {
    /// Powered-on bus: work RAM all `$FF`, open bus 0, empty log.
    fn default() -> (r: Self)
        ensures
            r.wram@ == power_on_wram(),
            r.cpu_open_bus == 0,
            r.wram_write_log@.len() == 0,
            r.wf(),
    {
        let r = Bus {
            wram: [0xff; 0x800],
            cpu_open_bus: 0,
            wram_write_log: Vec::with_capacity(WRAM_WRITE_LOG_CAPACITY),
        };
        assert(r.wram@ =~= power_on_wram());
        r
    }
}

impl Bus {
    /// Power-cycle the bus: work RAM back to `$FF`, open bus 0, log cleared.
    pub fn reset(&mut self)
        ensures
            final(self).wram@ == power_on_wram(),
            final(self).cpu_open_bus == 0,
            final(self).wram_write_log@.len() == 0,
            final(self).wf(),
    {
        self.wram = [0xff; 0x800];
        self.cpu_open_bus = 0;
        self.clear_wram_write_log();
        assert(self.wram@ =~= power_on_wram());
    }

    pub fn set_wram(&mut self, wram: [u8; 0x800])
        ensures
            *final(self) == (Bus { wram, ..*old(self) }),
    {
        self.wram = wram;
    }

    pub fn wram(&self) -> (r: &[u8; 0x800])
        ensures
            *r == self.wram,
    {
        &self.wram
    }

    pub fn clear_wram_write_log(&mut self)
        ensures
            final(self).wram == old(self).wram,
            final(self).cpu_open_bus == old(self).cpu_open_bus,
            final(self).wram_write_log@.len() == 0,
    {
        self.wram_write_log.clear();
    }

    pub fn wram_write_log(&self) -> (r: &[WramWriteLogEntry])
        ensures
            r@ == self.wram_write_log@,
    {
        self.wram_write_log.as_slice()
    }

    /// Append an entry unless the log is full; a full log drops it.
    pub fn record_wram_write(&mut self, entry: WramWriteLogEntry)
        requires
            old(self).wf(),
        ensures
            final(self).wf(),
            final(self).wram == old(self).wram,
            final(self).cpu_open_bus == old(self).cpu_open_bus,
            final(self).wram_write_log@ == (if old(self).wram_write_log@.len() == WRAM_WRITE_LOG_CAPACITY {
                old(self).wram_write_log@
            } else {
                old(self).wram_write_log@.push(entry)
            }),
    {
        if self.wram_write_log.len() == WRAM_WRITE_LOG_CAPACITY {
            return;
        }
        self.wram_write_log.push(entry);
    }

    pub fn cpu_open_bus(&self) -> (r: u8)
        ensures
            r == self.cpu_open_bus,
    {
        self.cpu_open_bus
    }

    pub fn set_cpu_open_bus(&mut self, value: u8)
        ensures
            *final(self) == (Bus { cpu_open_bus: value, ..*old(self) }),
    {
        self.cpu_open_bus = value;
    }

    /// The only bus state carried in a save state is the open-bus latch.
    pub fn snapshot_bytes(&self) -> (r: [u8; 1])
        ensures
            r@ == self.snapshot_spec(),
    {
        let r = [self.cpu_open_bus];
        assert(r@ =~= self.snapshot_spec());
        r
    }

    pub fn restore_snapshot(&mut self, bytes: [u8; 1])
        ensures
            *final(self) == old(self).restored(bytes@),
    {
        self.cpu_open_bus = bytes[0];
    }
}

/// Restoring a bus from its own snapshot gives the same bus back.
pub proof fn lemma_bus_snapshot_roundtrip(bus: Bus)
    ensures
        bus.restored(bus.snapshot_spec()) == bus,
{
}

/// The CPU's view of the rest of the machine for one bus access.
pub struct CpuBusContext<'a, M: Mapper> {
    pub bus: &'a mut Bus,
    pub mapper: &'a mut M,
    /// The board watches CPU cycles.
    pub mapper_has_cpu_clock_hook: bool,
    /// The board watches PPU address changes.
    pub mapper_has_vram_addr_hook: bool,
    pub ppu: &'a mut Ppu,
    pub apu: &'a mut Apu,
    pub controllers: &'a mut ControllerPorts,
    pub interrupt: &'a mut InterruptLines,
    pub cpu_cycle_count: u64,
    /// CPU master clock used by the APU and PPU timing callers.
    pub master_clock: u64,
}

/// Whether `addr` reads through the audio unit.
pub open spec fn apu_read_addr(addr: u16) -> bool {
    (0x4000 <= addr <= 0x4013) || addr == 0x4015 || (0x4018 <= addr <= 0x401f)
}

/// Whether `addr` writes to the audio unit.
pub open spec fn apu_write_addr(addr: u16) -> bool {
    (0x4000 <= addr <= 0x4013) || addr == 0x4015 || addr == 0x4017
}

/// A CPU write of `value` to cartridge address `addr`: on a board with
/// bus conflicts a write to `$8000-$FFFF` stores `value` ANDed with the
/// byte the board drives there; the board and interrupt lines went from
/// `m`, `irq` to `next`, `next_irq`.
#[verifier::opaque]
pub open spec fn cartridge_write<M: Mapper>(
    m: M,
    addr: u16,
    value: u8,
    irq: InterruptLines,
    next: M,
    next_irq: InterruptLines,
) -> bool {
    exists|c: bool|
        #[trigger] m.conflicts_are(c) && if addr >= 0x8000 && c {
            exists|rom: u8, mid: M|
                #[trigger] m.cpu_read_value(addr, mid, rom) && mid.cpu_written(addr, value & rom, irq, next, next_irq)
        } else {
            m.cpu_written(addr, value, irq, next, next_irq)
        }
}

/// CPU bus read: work RAM mirrored every 2 KiB, PPU registers mirrored
/// every 8 bytes, the audio unit, the controller ports (top three bits from
/// the open bus) and the cartridge. Every read but `$4015` becomes the new
/// open-bus value.
pub fn bus_read<M: Mapper>(addr: u16, ctx: &mut CpuBusContext<'_, M>) -> (r: u8)
    requires
        old(ctx).mapper.inv(),
        apu_read_addr(addr) ==> old(ctx).apu.wf() && old(ctx).apu.cycles <= old(ctx).apu.previous_cycle + 0x7ffe_0000,
    ensures
        final(ctx).mapper.inv(),
        addr <= 0x1fff ==> r == old(ctx).bus.wram@[(addr % 0x800) as int],
        0x2000 <= addr <= 0x3fff && addr % 8 == 2 ==> r == (old(ctx).ppu.status & 0xe0) | (decayed_bus(
            *old(ctx).ppu,
        ) & 0x1f),
        addr == 0x4015 ==> r == status_bits(*final(ctx).apu, final(ctx).interrupt.irq_flag) | (old(ctx).bus.cpu_open_bus
            & 0x20),
        apu_read_addr(addr) && addr != 0x4015 ==> r == old(ctx).bus.cpu_open_bus,
        addr == 0x4016 || addr == 0x4017 ==> ({
            let (ports, bit) = old(ctx).controllers@.read_spec(addr - 0x4016);
            &&& r == bit | (old(ctx).bus.cpu_open_bus & 0xe0)
            &&& final(ctx).controllers@ == ports
        }),
        addr != 0x4015 ==> final(ctx).bus.cpu_open_bus == r,
        addr == 0x4015 ==> final(ctx).bus.cpu_open_bus == old(ctx).bus.cpu_open_bus,
        final(ctx).bus.wram == old(ctx).bus.wram,
        final(ctx).bus.wram_write_log == old(ctx).bus.wram_write_log,
        addr >= 0x4020 ==> old(ctx).mapper.cpu_read_result(
            addr,
            old(ctx).bus.cpu_open_bus,
            *old(ctx).interrupt,
            *final(ctx).mapper,
            *final(ctx).interrupt,
            r,
        ),
{
    proof {
        crate::bits::lemma_u16_bits();
    }
    let open_bus = ctx.bus.cpu_open_bus;
    let value = if addr <= 0x1fff {
        let i = (addr & 0x07ff) as usize;
        assert(addr & 0x07ff == addr % 0x800) by (bit_vector);
        ctx.bus.wram[i]
    } else if addr <= 0x3fff {
        let canonical = 0x2000 | (addr & 0x0007);
        assert(addr % 8 == 2 ==> (0x2000 | (addr & 0x0007)) & 0x2007 == 0x2002) by (bit_vector);
        ctx.ppu.cpu_read_register(canonical, ctx.mapper, ctx.interrupt)
    } else if (0x4000 <= addr && addr <= 0x4013) || addr == 0x4015 || (0x4018 <= addr && addr <= 0x401f) {
        ctx.apu.cpu_read_open_bus(addr, open_bus, ctx.interrupt)
    } else if addr == 0x4016 || addr == 0x4017 {
        let port: usize = if addr == 0x4016 { 0 } else { 1 };
        ctx.controllers.read(port) | (open_bus & 0xe0)
    } else if addr >= 0x4020 {
        ctx.mapper.cpu_read_open_bus(addr, open_bus, ctx.interrupt)
    } else {
        open_bus
    };
    if addr != 0x4015 {
        ctx.bus.cpu_open_bus = value;
    }
    value
}

/// CPU bus write: work RAM, PPU registers (the board sees the write too),
/// the audio unit, `$4014` OAM DMA (returned as an event), the controller
/// strobe (deferred by cycle parity) and the cartridge, where a board with
/// bus conflicts sees the value ANDed with the ROM byte. The value becomes
/// the open bus.
pub fn bus_write<M: Mapper>(addr: u16, value: u8, ctx: &mut CpuBusContext<'_, M>) -> (r: Option<BusEvent>)
    requires
        old(ctx).mapper.inv(),
        0x2000 <= addr <= 0x3fff ==> old(ctx).ppu.wf_core(),
        apu_write_addr(addr) ==> old(ctx).apu.wf() && old(ctx).apu.cycles <= old(ctx).apu.previous_cycle + 0x7ffe_0000,
    ensures
        final(ctx).mapper.inv(),
        r == (if addr == 0x4014 { Some(BusEvent::OamDma(value)) } else { None::<BusEvent> }),
        addr <= 0x1fff ==> final(ctx).bus.wram@ == old(ctx).bus.wram@.update((addr % 0x800) as int, value),
        addr > 0x1fff ==> final(ctx).bus.wram == old(ctx).bus.wram,
        final(ctx).bus.cpu_open_bus == value,
        final(ctx).bus.wram_write_log == old(ctx).bus.wram_write_log,
        addr == 0x4016 ==> final(ctx).controllers@ == (PortsModel {
            pending_value: value,
            pending_delay: if old(ctx).cpu_cycle_count % 2 == 1 { 1 } else { 2 },
            pending_write: true,
            ..old(ctx).controllers@
        }),
        apu_write_addr(addr) ==> final(ctx).apu.registers@ == (if addr == 0x4015 {
            old(ctx).apu.registers@.update(0x15, value & 0x1f)
        } else {
            old(ctx).apu.registers@.update(addr - 0x4000, value)
        }),
        addr >= 0x4020 ==> cartridge_write(
            *old(ctx).mapper,
            addr,
            value,
            *old(ctx).interrupt,
            *final(ctx).mapper,
            *final(ctx).interrupt,
        ),
{
    proof {
        crate::bits::lemma_u16_bits();
    }
    let event = if addr <= 0x1fff {
        let i = (addr & 0x07ff) as usize;
        assert(addr & 0x07ff == addr % 0x800) by (bit_vector);
        ctx.bus.wram[i] = value;
        None
    } else if addr <= 0x3fff {
        let canonical = 0x2000 | (addr & 0x0007);
        let open_bus = ctx.bus.cpu_open_bus;
        ctx.ppu.cpu_write_register(canonical, value, open_bus, ctx.mapper, ctx.interrupt);
        ctx.mapper.ppu_register_write(addr, canonical, value);
        None
    } else if (0x4000 <= addr && addr <= 0x4013) || addr == 0x4015 || addr == 0x4017 {
        let c = ctx.cpu_cycle_count;
        ctx.apu.cpu_write_with_cycle(addr, value, c, ctx.interrupt);
        None
    } else if addr == 0x4014 {
        Some(BusEvent::OamDma(value))
    } else if addr == 0x4016 {
        let c = ctx.cpu_cycle_count;
        ctx.controllers.queue_strobe_write(value, c);
        None
    } else if addr >= 0x4020 {
        let ghost m0 = *ctx.mapper;
        let ghost i0 = *ctx.interrupt;
        let conflicts = ctx.mapper.has_bus_conflicts();
        let final_value = if addr >= 0x8000 && conflicts {
            let rom = ctx.mapper.cpu_read(addr);
            let ghost mid = *ctx.mapper;
            assert(m0.cpu_read_value(addr, mid, rom));
            value & rom
        } else {
            value
        };
        ctx.mapper.cpu_write(addr, final_value, ctx.interrupt);
        proof {
            reveal(cartridge_write);
            assert(m0.conflicts_are(conflicts));
        }
        None
    } else {
        None
    };
    ctx.bus.cpu_open_bus = value;
    event
}

} // verus!
