use nesle::apu::Apu;
use nesle::bus::{Bus, CpuBusContext};
use nesle::cartridge::Mirroring;
use nesle::cpu::{Cpu, InterruptLines};
use nesle::input::ControllerPorts;
use nesle::mapper::Mapper;
use nesle::ppu::Ppu;

#[derive(Debug)]
struct OpenMapper;

impl Mapper for OpenMapper {
    fn mapper_id(&self) -> u16 {
        0
    }
    fn name(&self) -> &'static str {
        "TEST"
    }
    fn cpu_read(&mut self, _addr: u16) -> u8 {
        0
    }
    fn cpu_write(&mut self, _addr: u16, _value: u8, _interrupt: &mut InterruptLines) {}
    fn ppu_read(&mut self, _addr: u16) -> u8 {
        0
    }
    fn debug_ppu_read(&self, _addr: u16) -> u8 {
        0
    }
    fn ppu_write(&mut self, _addr: u16, _value: u8) {}
    fn nametable_mirroring(&self) -> Mirroring {
        Mirroring::Vertical
    }
    fn has_vram_addr_hook(&self) -> bool {
        false
    }
    fn notify_vram_addr(&mut self, _addr: u16, _cpu_cycle_count: u64, _interrupt: &mut InterruptLines) {}
    fn ppu_read_nametable(&mut self, _addr: u16, _ciram: &[u8; 0x1000], _interrupt: &mut InterruptLines) -> Option<u8> {
        None
    }
    fn ppu_write_nametable(&mut self, _addr: u16, _value: u8, _ciram: &mut [u8; 0x1000]) -> bool {
        false
    }
    fn cpu_read_open_bus(&mut self, addr: u16, _open_bus: u8, _interrupt: &mut InterruptLines) -> u8 {
        self.cpu_read(addr)
    }
    fn has_bus_conflicts(&self) -> bool {
        false
    }
}

#[test]
fn cpu_cycle_halves_advance_clocks_and_sample_irq() {
    let mut bus = Bus::default();
    let mut mapper = OpenMapper;
    let mut ppu = Ppu::default();
    let mut apu = Apu::default();
    let mut controllers = ControllerPorts::default();
    let mut interrupt = InterruptLines::default();
    let mut cpu = Cpu::default();
    let start = cpu.master_clock;
    let (s, e) = (u64::from(cpu.start_clock_count), u64::from(cpu.end_clock_count));
    let mut ctx = CpuBusContext {
        bus: &mut bus,
        mapper: &mut mapper,
        mapper_has_cpu_clock_hook: false,
        mapper_has_vram_addr_hook: false,
        ppu: &mut ppu,
        apu: &mut apu,
        controllers: &mut controllers,
        interrupt: &mut interrupt,
        cpu_cycle_count: 0,
        master_clock: 0,
    };
    cpu.start_cpu_cycle(true, &mut ctx);
    assert_eq!(cpu.cycles, 1);
    assert_eq!(cpu.master_clock, start + s - 1);
    assert_eq!(ctx.cpu_cycle_count, 1);
    assert_eq!(ctx.apu.cycles, 1);
    ctx.interrupt.irq_flag = 0x01;
    cpu.status = 0;
    cpu.end_cpu_cycle(true, &mut ctx);
    assert_eq!(cpu.master_clock, start + s - 1 + e + 1);
    assert!(cpu.run_irq);
    assert!(!cpu.prev_run_irq);
}
