use nesle::apu::{Envelope, Pulse};

#[test]
fn envelope_constant_volume_outputs_speed_field() {
    let mut env = Envelope::default();
    env.write_control(0x10 | 0x07);
    assert_eq!(env.output(), 7);
}

#[test]
fn envelope_decay_outputs_decvolume_when_not_constant() {
    let mut env = Envelope::default();
    env.write_control(0x07);
    env.schedule_restart();
    env.clock(false);
    assert_eq!(env.output(), 0xF);
    for _ in 0..8 {
        env.clock(false);
    }
    assert_eq!(env.output(), 0xE);
}

#[test]
fn envelope_loop_restarts_at_zero_when_length_halt_set() {
    let mut env = Envelope::default();
    env.write_control(0x00);
    env.schedule_restart();
    env.clock(true);
    for _ in 0..16 {
        env.clock(true);
    }
    assert_eq!(env.output(), 0xF);
}

#[test]
fn pulse_sweep_positive_increases_period() {
    let mut p = Pulse::new(0);
    p.enabled = true;
    p.timer_period = 0x100;
    p.write_sweep(0x80 | (1 << 4) | 1);
    p.sweep_divider = 1;
    p.clock_sweep();
    assert_eq!(p.timer_period, 0x180);
}

#[test]
fn pulse_sweep_negate_pulse1_subtracts_modulus_plus_1() {
    let mut p = Pulse::new(0);
    p.timer_period = 0x100;
    p.write_sweep(0x80 | (1 << 4) | 0x08 | 1);
    p.sweep_divider = 1;
    p.clock_sweep();
    assert_eq!(p.timer_period, 0x7F);
}

#[test]
fn pulse_sweep_negate_pulse2_subtracts_modulus_only() {
    let mut p = Pulse::new(1);
    p.timer_period = 0x100;
    p.write_sweep(0x80 | (1 << 4) | 0x08 | 1);
    p.sweep_divider = 1;
    p.clock_sweep();
    assert_eq!(p.timer_period, 0x80);
}

#[test]
fn pulse_sweep_divider_delays_first_apply() {
    let mut p = Pulse::new(0);
    p.enabled = true;
    p.timer_period = 0x100;
    p.write_sweep(0x80 | (2 << 4) | 1);
    p.clock_sweep();
    assert_eq!(p.timer_period, 0x100, "no apply on reload tick");
    p.clock_sweep();
    p.clock_sweep();
    assert_eq!(p.timer_period, 0x100, "no apply before divider reaches 0");
    p.clock_sweep();
    assert_eq!(p.timer_period, 0x180, "apply after P+1=3 clocks");
}

#[test]
fn length_halt_deferred_until_reload_length_counter() {
    let mut p = Pulse::new(0);
    p.enabled = true;
    p.length = 10;
    p.write_control(0x20);
    assert!(!p.length_halt);
    assert!(p.new_length_halt);
    p.clock_length();
    assert_eq!(p.length, 9);
    p.reload_length_counter();
    assert!(p.length_halt);
    p.clock_length();
    assert_eq!(p.length, 9);
}

#[test]
fn length_reload_discarded_after_intervening_half_frame() {
    let mut p = Pulse::new(0);
    p.enabled = true;
    p.length = 0xFE;
    p.write_timer_high(0x08);
    assert_eq!(p.length_reload_value, 0xFE);
    p.clock_length();
    assert_eq!(p.length, 0xFE - 1);
    p.reload_length_counter();
    assert_eq!(p.length, 0xFE - 1);
    assert_eq!(p.length_reload_value, 0);
}

#[test]
fn disabled_pulse_ignores_length_load() {
    let mut p = Pulse::new(1);
    p.write_timer_high(0x08);
    assert_eq!(p.length_reload_value, 0);
    p.reload_length_counter();
    assert_eq!(p.length, 0);
}

#[test]
fn pulse_snapshot_round_trip() {
    let mut p = Pulse::new(1);
    p.enabled = true;
    p.write_control(0xbf);
    p.write_timer_low(0x34);
    p.write_timer_high(0x0a);
    p.write_sweep(0x9b);
    let mut bytes = Vec::new();
    p.snapshot_bytes(&mut bytes);
    assert_eq!(bytes.len(), 24);
    let mut q = Pulse::new(0);
    let mut offset = 0;
    q.restore_snapshot(&bytes, &mut offset);
    assert_eq!(offset, 24);
    assert_eq!(q, p);
}

#[test]
fn pulse_output_silent_when_period_too_low() {
    let mut p = Pulse::new(0);
    p.enabled = true;
    p.length = 5;
    p.timer_period = 7;
    p.write_control(0x1f);
    assert_eq!(p.output(), 0);
}
