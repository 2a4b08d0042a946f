use nesle::apu::Apu;
use nesle::bus::{bus_read, bus_write, Bus, BusEvent, CpuBusContext};
use nesle::cartridge::Mirroring;
use nesle::cpu::InterruptLines;
use nesle::input::ControllerPorts;
use nesle::mapper::Mapper;
use nesle::ppu::Ppu;

#[derive(Debug)]
struct TestMapper {
    last_write: Option<(u16, u8)>,
    conflicts: bool,
}

impl Mapper for TestMapper {
    fn mapper_id(&self) -> u16 {
        0
    }

    fn name(&self) -> &'static str {
        "TEST"
    }

    fn cpu_read(&mut self, addr: u16) -> u8 {
        (addr >> 8) as u8
    }

    fn cpu_write(&mut self, addr: u16, value: u8, _interrupt: &mut InterruptLines) {
        self.last_write = Some((addr, value));
    }

    fn ppu_read(&mut self, _addr: u16) -> u8 {
        0
    }

    fn debug_ppu_read(&self, _addr: u16) -> u8 {
        0
    }

    fn ppu_write(&mut self, _addr: u16, _value: u8) {}

    fn nametable_mirroring(&self) -> Mirroring {
        Mirroring::Horizontal
    }
    fn has_vram_addr_hook(&self) -> bool {
        false
    }
    fn notify_vram_addr(&mut self, _addr: u16, _cpu_cycle_count: u64, _interrupt: &mut InterruptLines) {}
    fn ppu_read_nametable(&mut self, _addr: u16, _ciram: &[u8; 0x1000], _interrupt: &mut InterruptLines) -> Option<u8> {
        None
    }
    fn ppu_write_nametable(&mut self, _addr: u16, _value: u8, _ciram: &mut [u8; 0x1000]) -> bool {
        false
    }
    fn cpu_read_open_bus(&mut self, addr: u16, _open_bus: u8, _interrupt: &mut InterruptLines) -> u8 {
        self.cpu_read(addr)
    }
    fn has_bus_conflicts(&self) -> bool {
        self.conflicts
    }
}

struct Fixture {
    bus: Bus,
    mapper: TestMapper,
    ppu: Ppu,
    apu: Apu,
    controllers: ControllerPorts,
    interrupt: InterruptLines,
}

impl Fixture {
    fn new() -> Self {
        Self {
            bus: Bus::default(),
            mapper: TestMapper { last_write: None, conflicts: false },
            ppu: Ppu::default(),
            apu: Apu::default(),
            controllers: ControllerPorts::default(),
            interrupt: InterruptLines::default(),
        }
    }

    fn ctx(&mut self) -> CpuBusContext<'_, TestMapper> {
        CpuBusContext {
            bus: &mut self.bus,
            mapper: &mut self.mapper,
            mapper_has_cpu_clock_hook: false,
            mapper_has_vram_addr_hook: false,
            ppu: &mut self.ppu,
            apu: &mut self.apu,
            controllers: &mut self.controllers,
            interrupt: &mut self.interrupt,
            cpu_cycle_count: 0,
            master_clock: 0,
        }
    }
}

#[test]
fn mirrors_internal_wram() {
    let mut fx = Fixture::new();
    let mut ctx = fx.ctx();
    bus_write(0x0002, 0xaa, &mut ctx);
    assert_eq!(bus_read(0x0802, &mut ctx), 0xaa);
    assert_eq!(bus_read(0x1802, &mut ctx), 0xaa);
}

#[test]
fn routes_cartridge_space_to_mapper() {
    let mut fx = Fixture::new();
    {
        let mut ctx = fx.ctx();
        assert_eq!(bus_read(0x8123, &mut ctx), 0x81);
        bus_write(0x8123, 0x44, &mut ctx);
    }
    assert_eq!(fx.mapper.last_write, Some((0x8123, 0x44)));
}

#[test]
fn routes_controller_strobe_and_reads() {
    let mut fx = Fixture::new();
    fx.controllers.set_mask(0, 0b0000_0011);
    fx.controllers.commit_pending_input();
    let mut ctx = fx.ctx();
    ctx.cpu_cycle_count = 1;
    ctx.master_clock = 1;
    bus_write(0x4016, 1, &mut ctx);
    ctx.controllers.process_pending_write();
    bus_write(0x4016, 0, &mut ctx);
    ctx.controllers.process_pending_write();
    assert_eq!(bus_read(0x4016, &mut ctx), 1);
    assert_eq!(bus_read(0x4016, &mut ctx), 1);
    assert_eq!(bus_read(0x4016, &mut ctx), 0);
}

#[test]
fn controller_reads_preserve_open_bus_high_bits() {
    let mut fx = Fixture::new();
    fx.controllers.set_mask(0, 0x01);
    fx.controllers.commit_pending_input();
    fx.controllers.write_strobe(1);
    fx.controllers.write_strobe(0);
    fx.bus.set_cpu_open_bus(0xc0);

    let mut ctx = fx.ctx();
    assert_eq!(bus_read(0x4016, &mut ctx), 0xc1);
    assert_eq!(ctx.bus.cpu_open_bus(), 0xc1);
}

#[test]
fn controller_strobe_high_reloads_each_read() {
    let mut fx = Fixture::new();
    fx.controllers.set_mask(0, 0x01);
    fx.controllers.commit_pending_input();
    fx.controllers.write_strobe(1);

    assert_eq!(fx.controllers.read(0), 1);
    assert_eq!(fx.controllers.read(0), 1);
    assert_eq!(fx.controllers.read(0), 1);
}

#[test]
fn writes_to_4014_return_oam_dma_event() {
    let mut fx = Fixture::new();
    let mut ctx = fx.ctx();
    let event = bus_write(0x4014, 0x03, &mut ctx);
    assert_eq!(event, Some(BusEvent::OamDma(0x03)));
}

#[test]
fn snapshot_keeps_open_bus() {
    let mut bus = Bus {
        cpu_open_bus: 0x9a,
        ..Bus::default()
    };
    let snapshot = bus.snapshot_bytes();
    bus.cpu_open_bus = 0;
    bus.restore_snapshot(snapshot);
    assert_eq!(bus.cpu_open_bus(), 0x9a);
}

#[test]
fn routes_apu_status_register() {
    let mut fx = Fixture::new();
    let mut ctx = fx.ctx();
    bus_write(0x4015, 0xff, &mut ctx);
    assert_eq!(bus_read(0x4015, &mut ctx), 0x30);
}

#[test]
fn apu_status_read_preserves_external_open_bus() {
    let mut fx = Fixture::new();
    fx.bus.set_cpu_open_bus(0xe5);
    let mut ctx = fx.ctx();

    assert_eq!(bus_read(0x4015, &mut ctx), 0x20);
    assert_eq!(ctx.bus.cpu_open_bus(), 0xe5);
    assert_eq!(bus_read(0x4016, &mut ctx), 0xe0);
}

#[test]
fn cpu_writes_update_open_bus() {
    let mut fx = Fixture::new();
    let mut ctx = fx.ctx();

    bus_write(0x0000, 0x5a, &mut ctx);
    assert_eq!(ctx.bus.cpu_open_bus(), 0x5a);
}

#[test]
fn ppu_registers_mirror_every_eight_bytes() {
    let mut fx = Fixture::new();
    fx.ppu.status = 0x80;
    let mut ctx = fx.ctx();
    let v = bus_read(0x3ffa, &mut ctx);
    assert_eq!(v & 0x80, 0x80);
    assert_eq!(ctx.ppu.status & 0x80, 0);
}

#[test]
fn cartridge_writes_see_bus_conflicts_only_in_rom_space() {
    let mut fx = Fixture::new();
    fx.mapper.conflicts = true;
    {
        let mut ctx = fx.ctx();
        assert_eq!(bus_read(0x5000, &mut ctx), 0x50);
        bus_write(0x8000, 0xff, &mut ctx);
    }
    assert_eq!(fx.mapper.last_write, Some((0x8000, 0x80)));
    {
        let mut ctx = fx.ctx();
        bus_write(0x6000, 0xff, &mut ctx);
    }
    assert_eq!(fx.mapper.last_write, Some((0x6000, 0xff)));
    fx.mapper.conflicts = false;
    {
        let mut ctx = fx.ctx();
        bus_write(0x9000, 0x3c, &mut ctx);
    }
    assert_eq!(fx.mapper.last_write, Some((0x9000, 0x3c)));
}
