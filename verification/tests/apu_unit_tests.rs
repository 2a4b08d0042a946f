use nesle::apu::unit::FRAME_STEP_CYCLES_NTSC;
use nesle::apu::Apu;
use nesle::cartridge::Mirroring;
use nesle::cpu::{InterruptLines, IrqSource};
use nesle::mapper::Mapper;

#[derive(Debug)]
struct TestMapper;

impl Mapper for TestMapper {
    fn mapper_id(&self) -> u16 {
        0
    }
    fn name(&self) -> &'static str {
        "TEST"
    }
    fn cpu_read(&mut self, _addr: u16) -> u8 {
        0xAA
    }
    fn cpu_write(&mut self, _addr: u16, _value: u8, _interrupt: &mut InterruptLines) {}
    fn ppu_read(&mut self, _addr: u16) -> u8 {
        0
    }
    fn debug_ppu_read(&self, _addr: u16) -> u8 {
        0
    }
    fn ppu_write(&mut self, _addr: u16, _value: u8) {}
    fn nametable_mirroring(&self) -> Mirroring {
        Mirroring::Horizontal
    }
    fn has_vram_addr_hook(&self) -> bool {
        false
    }
    fn notify_vram_addr(&mut self, _addr: u16, _cpu_cycle_count: u64, _interrupt: &mut InterruptLines) {}
    fn ppu_read_nametable(&mut self, _addr: u16, _ciram: &[u8; 0x1000], _interrupt: &mut InterruptLines) -> Option<u8> {
        None
    }
    fn ppu_write_nametable(&mut self, _addr: u16, _value: u8, _ciram: &mut [u8; 0x1000]) -> bool {
        false
    }
    fn cpu_read_open_bus(&mut self, addr: u16, _open_bus: u8, _interrupt: &mut InterruptLines) -> u8 {
        self.cpu_read(addr)
    }
    fn has_bus_conflicts(&self) -> bool {
        false
    }
}

fn simulate_dmc_dma_fetch<M: Mapper>(apu: &mut Apu, mapper: &mut M, lines: &mut InterruptLines) -> u32 {
    if !lines.dmc_dma_pending {
        return 0;
    }
    lines.dmc_dma_pending = false;
    let addr = apu.dmc_read_address();
    let value = mapper.cpu_read(addr);
    apu.set_dmc_read_buffer(value, lines);
    4
}

#[test]
fn status_register_is_readable_and_masked() {
    let mut apu = Apu::default();
    let mut lines = InterruptLines::default();
    apu.cpu_write_with_cycle(0x4015, 0xFF, 0, &mut lines);
    assert_eq!(apu.cpu_read_open_bus(0x4015, 0, &mut lines), 0x10);
    assert_eq!(apu.register(0x4015), 0x1F);
}

#[test]
fn snapshot_restores_registers() {
    let mut apu = Apu::default();
    let mut lines = InterruptLines::default();
    apu.cpu_write_with_cycle(0x4000, 0x44, 0, &mut lines);
    apu.cpu_write_with_cycle(0x4017, 0x80, 0, &mut lines);
    let snapshot = apu.snapshot_bytes();
    apu.cpu_write_with_cycle(0x4000, 0x11, 0, &mut lines);
    apu.cpu_write_with_cycle(0x4017, 0x00, 0, &mut lines);
    apu.restore_snapshot(&snapshot).unwrap();
    assert_eq!(apu.register(0x4000), 0x44);
    assert_eq!(apu.register(0x4017), 0x80);
}

#[test]
fn power_on_frame_counter_acts_like_delayed_4017_zero_write() {
    let mut apu = Apu::default();
    let mut lines = InterruptLines::default();
    assert_eq!(apu.frame_new_value, 0);
    assert_eq!(apu.frame_write_delay, 3);
    for _ in 0..3 {
        apu.process_cpu_clock(&mut lines);
    }
    let cycles = apu.cycles;
    apu.run(cycles, &mut lines);
    assert_eq!(apu.frame_new_value, -1);
    assert_eq!(apu.frame_step_mode, 0);
    assert!(!apu.frame_inhibit_irq);
}

#[test]
fn frame_irq_fires_when_enabled_in_mode_0() {
    let mut apu = Apu::default();
    let mut lines = InterruptLines::default();
    apu.cpu_write_with_cycle(0x4017, 0x00, 0, &mut lines);
    for _ in 0..29_831 {
        apu.process_cpu_clock(&mut lines);
    }
    let cycles = apu.cycles;
    apu.run(cycles, &mut lines);
    assert!(apu.frame_irq_flag);
    assert!(lines.has_irq_source(IrqSource::FrameCounter));
}

#[test]
fn status_read_clears_frame_irq_only() {
    let mut apu = Apu::default();
    let mut lines = InterruptLines::default();
    apu.frame_irq_flag = true;
    lines.set_irq_source(IrqSource::FrameCounter);
    lines.set_irq_source(IrqSource::Dmc);
    let status = apu.cpu_read_open_bus(0x4015, 0, &mut lines);
    assert_eq!(status & 0xC0, 0xC0);
    assert!(!lines.has_irq_source(IrqSource::FrameCounter));
    assert!(lines.has_irq_source(IrqSource::Dmc));
}

#[test]
fn dmc_stop_via_status_write_bit4_zero() {
    let mut apu = Apu::default();
    let mut lines = InterruptLines::default();
    apu.cpu_write_with_cycle(0x4012, 0x00, 0, &mut lines);
    apu.cpu_write_with_cycle(0x4013, 0x01, 0, &mut lines);
    apu.cpu_write_with_cycle(0x4015, 0x10, 0, &mut lines);
    assert_eq!(apu.dmc_bytes_remaining, 17);
    apu.cpu_write_with_cycle(0x4015, 0x00, 0, &mut lines);
    for _ in 0..2 {
        apu.process_cpu_clock(&mut lines);
    }
    assert_eq!(apu.dmc_bytes_remaining, 0);
}

#[test]
fn dmc_sample_fetch_costs_4_cpu_cycles() {
    let mut apu = Apu::default();
    let mut lines = InterruptLines::default();
    let mut mapper = TestMapper;
    apu.cpu_write_with_cycle(0x4010, 0x0F, 0, &mut lines);
    apu.cpu_write_with_cycle(0x4012, 0x00, 0, &mut lines);
    apu.cpu_write_with_cycle(0x4013, 0x00, 0, &mut lines);
    apu.cpu_write_with_cycle(0x4015, 0x10, 0, &mut lines);
    assert_eq!(apu.dmc_bytes_remaining, 1);
    for _ in 0..2 {
        apu.process_cpu_clock(&mut lines);
    }
    let stall = simulate_dmc_dma_fetch(&mut apu, &mut mapper, &mut lines);
    assert_eq!(stall, 4, "DMC fetch consumes 4 CPU cycles");
    assert_eq!(apu.dmc_bytes_remaining, 0);
    assert!(!apu.dmc_buffer_empty);
}

#[test]
fn dmc_irq_fires_at_sample_end_when_enabled() {
    let mut apu = Apu::default();
    let mut lines = InterruptLines::default();
    let mut mapper = TestMapper;
    apu.cpu_write_with_cycle(0x4010, 0x80, 0, &mut lines);
    apu.cpu_write_with_cycle(0x4013, 0x00, 0, &mut lines);
    apu.cpu_write_with_cycle(0x4015, 0x10, 0, &mut lines);
    for _ in 0..2 {
        apu.process_cpu_clock(&mut lines);
    }
    simulate_dmc_dma_fetch(&mut apu, &mut mapper, &mut lines);
    assert!(lines.has_irq_source(IrqSource::Dmc));
    assert!(lines.has_irq_source(IrqSource::FrameCounter) || lines.has_irq_source(IrqSource::Dmc));
}

#[test]
fn write_4010_bit7_clear_acknowledges_dmc_irq() {
    let mut apu = Apu::default();
    let mut lines = InterruptLines::default();
    lines.set_irq_source(IrqSource::Dmc);
    apu.cpu_write_with_cycle(0x4010, 0x00, 0, &mut lines);
    assert!(!lines.has_irq_source(IrqSource::Dmc));
}

#[test]
fn write_4011_sets_dmc_dac_directly() {
    let mut apu = Apu::default();
    let mut lines = InterruptLines::default();
    apu.cpu_write_with_cycle(0x4011, 0x7F, 0, &mut lines);
    assert_eq!(apu.dmc_dac, 0x7F);
    apu.cpu_write_with_cycle(0x4011, 0xFF, 0, &mut lines);
    assert_eq!(apu.dmc_dac, 0x7F);
}

#[test]
fn write_4017_irq_inhibit_clears_frame_irq() {
    let mut apu = Apu::default();
    let mut lines = InterruptLines::default();
    apu.frame_irq_flag = true;
    lines.set_irq_source(IrqSource::FrameCounter);
    apu.cpu_write_with_cycle(0x4017, 0x40, 0, &mut lines);
    assert!(!apu.frame_irq_flag);
    assert!(!lines.has_irq_source(IrqSource::FrameCounter));
}

#[test]
fn dmc_pcm_dac_increments_on_shift_bit_set() {
    let mut apu = Apu::default();
    let mut lines = InterruptLines::default();
    let mut mapper = TestMapper;
    apu.cpu_write_with_cycle(0x4011, 0x00, 0, &mut lines);
    apu.cpu_write_with_cycle(0x4010, 0x0F, 0, &mut lines);
    apu.cpu_write_with_cycle(0x4012, 0x00, 0, &mut lines);
    apu.cpu_write_with_cycle(0x4013, 0x01, 0, &mut lines);
    apu.cpu_write_with_cycle(0x4015, 0x10, 0, &mut lines);
    let mut stall = 0;
    for _ in 0..4 {
        apu.process_cpu_clock(&mut lines);
        stall = simulate_dmc_dma_fetch(&mut apu, &mut mapper, &mut lines);
        if stall != 0 {
            break;
        }
    }
    assert_eq!(stall, 4);
    assert_eq!(apu.dmc_read_buffer, 0xAA);
    for _ in 0..1000 {
        apu.process_cpu_clock(&mut lines);
        simulate_dmc_dma_fetch(&mut apu, &mut mapper, &mut lines);
    }
    assert!(apu.dmc_bytes_remaining < 17 || apu.dmc_dac > 0 || !apu.dmc_silence_flag);
}

#[test]
fn pulse_length_loads_on_high_timer_write_when_enabled() {
    let mut apu = Apu::default();
    let mut lines = InterruptLines::default();
    apu.cpu_write_with_cycle(0x4015, 0x01, 0, &mut lines);
    apu.cpu_write_with_cycle(0x4003, 0x08, 0, &mut lines);
    apu.process_cpu_clock(&mut lines);
    assert_eq!(apu.pulse1.length, 0xFE);
}

#[test]
fn disabled_pulse_does_not_load_length() {
    let mut apu = Apu::default();
    let mut lines = InterruptLines::default();
    apu.cpu_write_with_cycle(0x4003, 0x08, 0, &mut lines);
    apu.process_cpu_clock(&mut lines);
    assert_eq!(apu.pulse1.length, 0);
}

#[test]
fn status_write_disable_zeros_length() {
    let mut apu = Apu::default();
    let mut lines = InterruptLines::default();
    apu.cpu_write_with_cycle(0x4015, 0x0F, 0, &mut lines);
    apu.cpu_write_with_cycle(0x4003, 0x08, 0, &mut lines);
    apu.cpu_write_with_cycle(0x400B, 0x08, 0, &mut lines);
    apu.cpu_write_with_cycle(0x400F, 0x08, 0, &mut lines);
    apu.cpu_write_with_cycle(0x4007, 0x08, 0, &mut lines);
    apu.process_cpu_clock(&mut lines);
    assert!(apu.pulse1.length > 0);
    assert!(apu.pulse2.length > 0);
    assert!(apu.triangle.length > 0);
    assert!(apu.noise.length > 0);
    apu.cpu_write_with_cycle(0x4015, 0x00, 0, &mut lines);
    assert_eq!(apu.pulse1.length, 0);
    assert_eq!(apu.pulse2.length, 0);
    assert_eq!(apu.triangle.length, 0);
    assert_eq!(apu.noise.length, 0);
}

#[test]
fn len_reload_timing_race_discards_pending_when_half_frame_fires() {
    let mut apu = Apu::default();
    let mut lines = InterruptLines::default();
    apu.cpu_write_with_cycle(0x4015, 0x01, 0, &mut lines);
    apu.cpu_write_with_cycle(0x4000, 0x00, 0, &mut lines);
    apu.cpu_write_with_cycle(0x4003, 0x08, 0, &mut lines);
    apu.process_cpu_clock(&mut lines);
    let before = apu.pulse1.length;
    assert_eq!(before, 0xFE);
    apu.cpu_write_with_cycle(0x4003, 0x10, 0, &mut lines);
    assert!(apu.pulse1.length_reload_value != 0);
    assert_eq!(apu.pulse1.length_previous_value, 0xFE);
    apu.pulse1.clock_length();
    assert_eq!(apu.pulse1.length, 0xFE - 1);
    apu.pulse1.reload_length_counter();
    assert_eq!(apu.pulse1.length, 0xFE - 1);
    assert_eq!(apu.pulse1.length_reload_value, 0);
}

#[test]
fn snapshot_round_trip_preserves_frame_counter_dmc_and_channel_state() {
    let mut apu = Apu {
        frame_step_mode: 1,
        frame_current_step: 4,
        dmc_dac: 0x55,
        dmc_shift_reg: 0xAA,
        dmc_transfer_start_delay: 2,
        ..Apu::default()
    };
    apu.pulse1.timer_period = 0x456;
    apu.triangle.linear_counter = 7;
    apu.noise.lfsr = 0x2345;
    let snap = apu.snapshot_bytes();
    let mut restored = Apu::default();
    restored.restore_snapshot(&snap).unwrap();
    assert_eq!(restored.frame_step_mode, 1);
    assert_eq!(restored.frame_current_step, 4);
    assert_eq!(restored.dmc_dac, 0x55);
    assert_eq!(restored.dmc_shift_reg, 0xAA);
    assert_eq!(restored.dmc_transfer_start_delay, 2);
    assert_eq!(restored.pulse1.timer_period, 0x456);
    assert_eq!(restored.triangle.linear_counter, 7);
    assert_eq!(restored.noise.lfsr, 0x2345);
}

#[test]
fn frame_counter_uses_mesen2_step_table_for_5step_mode() {
    let mut apu = Apu::default();
    let mut lines = InterruptLines::default();
    apu.cpu_write_with_cycle(0x4017, 0x80, 0, &mut lines);
    for _ in 0..3 {
        apu.process_cpu_clock(&mut lines);
    }
    let cycles = apu.cycles;
    apu.run(cycles, &mut lines);
    assert_eq!(apu.frame_step_mode, 1);
    assert_eq!(FRAME_STEP_CYCLES_NTSC[1][3], 29829);
    assert_eq!(FRAME_STEP_CYCLES_NTSC[1][4], 37281);
}

#[test]
fn apu_snapshot_has_fixed_length_and_refuses_others() {
    let mut apu = Apu::default();
    let snap = apu.snapshot_bytes();
    assert_eq!(snap.len(), 202);
    let before = apu.dmc_period;
    assert!(apu.restore_snapshot(&snap[..201]).is_err());
    assert_eq!(apu.dmc_period, before);
}

#[test]
fn pal_region_switches_dividers_and_periods() {
    let mut apu = Apu::default();
    apu.set_region(nesle::cartridge::Region::Pal);
    assert_eq!(apu.master_clock_divider, 16);
    assert_eq!(apu.dmc_period, 397);
    assert_eq!(apu.dmc_timer, 397);
    assert_eq!(apu.noise.timer_period, 3);
}

#[test]
fn five_step_write_ticks_half_frame_immediately() {
    let mut apu = Apu::default();
    let mut lines = InterruptLines::default();
    apu.cpu_write_with_cycle(0x4015, 0x01, 0, &mut lines);
    apu.cpu_write_with_cycle(0x4003, 0x08, 0, &mut lines);
    apu.process_cpu_clock(&mut lines);
    assert_eq!(apu.pulse1.length, 0xFE);
    apu.cpu_write_with_cycle(0x4017, 0x80, 1, &mut lines);
    for _ in 0..4 {
        apu.process_cpu_clock(&mut lines);
    }
    let cycles = apu.cycles;
    apu.run(cycles, &mut lines);
    assert_eq!(apu.frame_step_mode, 1);
    assert_eq!(apu.pulse1.length, 0xFD);
}

#[test]
fn synth_tick_steps_timers_and_emits_at_the_resampling_wrap() {
    let mut apu = Apu::default();
    apu.triangle.timer = 3;
    apu.pulse1.timer = 5;
    apu.noise.timer = 2;
    // First cycle: phase becomes 1, only the triangle steps.
    assert!(!apu.synth_tick());
    assert_eq!(apu.triangle.timer, 2);
    assert_eq!(apu.pulse1.timer, 5);
    assert_eq!(apu.noise.timer, 2);
    assert_eq!(apu.apu_phase, 1);
    assert_eq!(apu.sample_phase, 44_100);
    // Second cycle: phase back to 0, pulses and noise step too.
    assert!(!apu.synth_tick());
    assert_eq!(apu.triangle.timer, 1);
    assert_eq!(apu.pulse1.timer, 4);
    assert_eq!(apu.noise.timer, 1);
    assert_eq!(apu.apu_phase, 0);
    // A sample is due once the phase reaches the CPU rate.
    apu.sample_phase = 1_789_773 - 44_100;
    assert!(apu.synth_tick());
    assert_eq!(apu.sample_phase, 0);
    apu.sample_phase = 1_789_773 - 44_099;
    assert!(apu.synth_tick());
    assert_eq!(apu.sample_phase, 1);
    // One sample every 1789773/44100 cycles: 44100 samples per 1789773 cycles.
    let mut apu = Apu::default();
    let mut emitted = 0u32;
    for _ in 0..1_789_773u32 {
        if apu.synth_tick() {
            emitted += 1;
        }
    }
    assert_eq!(emitted, 44_100);
    assert_eq!(apu.sample_phase, 0);
}

#[test]
fn synth_tick_does_nothing_with_audio_off() {
    let mut apu = Apu::default();
    apu.set_audio_enabled(false);
    apu.triangle.timer = 3;
    let before = apu.snapshot_bytes();
    assert!(!apu.synth_tick());
    assert_eq!(apu.snapshot_bytes(), before);
    assert_eq!(apu.triangle.timer, 3);
}
