//! The audio unit's control side: the frame-counter sequencer, the DMC
//! sample reader and the register interface, caught up lazily against the
//! CPU cycle count.
use vstd::prelude::*;
use crate::bytes::{fill_from, lemma_part_range, lemma_u16_at_bytes, lemma_u32_at_bytes, lemma_u64_at_bytes, push_array, push_u16, push_u32, push_u64, read_u16, read_u32, read_u64, u16_at, u16_bytes, u32_at, u32_bytes, u64_at, u64_bytes};
use crate::cartridge::Region;
use crate::common::error::{state_error_with, usize_to_decimal, NesleError, Result};
use crate::input::b2u;
use crate::cpu::{irq_bit, InterruptLines, IrqSource};
use super::{length_table, noise_period_table, Envelope, FrameCounterDebugState, Noise, Pulse, Triangle};

verus! {

/// NTSC (and Dendy) frame-counter step cycles, 4-step then 5-step.
pub const FRAME_STEP_CYCLES_NTSC: [[i32; 6]; 2] = [
    [7457, 14913, 22371, 29828, 29829, 29830],
    [7457, 14913, 22371, 29829, 37281, 37282],
];

/// PAL frame-counter step cycles, 4-step then 5-step.
pub const FRAME_STEP_CYCLES_PAL: [[i32; 6]; 2] = [
    [8313, 16627, 24939, 33252, 33253, 33254],
    [8313, 16627, 24939, 33253, 41565, 41566],
];

/// NTSC CPU clock rate in Hz, against which the audio resampler counts.
pub const NTSC_CPU_HZ: u32 = 1_789_773;

/// Output audio sample rate in Hz.
pub const AUDIO_SAMPLE_RATE: u32 = 44_100;

/// The `$4015` enable bits for pulse 1, pulse 2, triangle and noise.
pub fn channel_enables(value: u8) -> (r: (bool, bool, bool, bool))
    ensures
        r == (value & 0x01 != 0, value & 0x02 != 0, value & 0x04 != 0, value & 0x08 != 0),
{
    (value & 0x01 != 0, value & 0x02 != 0, value & 0x04 != 0, value & 0x08 != 0)
}

/// What a frame-counter step clocks.
#[derive(Debug, Clone, Copy, PartialEq, Eq, Structural)]
pub enum FrameTick {
    /// No clock at this step.
    Idle,
    Quarter,
    Half,
}

/// CPU cycle of frame-counter step `step` in `mode` (PAL table when
/// `pal`); the two entries after the last tick model the 4-step IRQ
/// assertions and the 5-step wrap delay.
pub open spec fn frame_step_cycle(pal: bool, mode: int, step: int) -> i32 {
    let t: Seq<Seq<i32>> = if pal {
        seq![seq![8313i32, 16627, 24939, 33252, 33253, 33254], seq![8313i32, 16627, 24939, 33253, 41565, 41566]]
    } else {
        seq![seq![7457i32, 14913, 22371, 29828, 29829, 29830], seq![7457i32, 14913, 22371, 29829, 37281, 37282]]
    };
    t[mode][step]
}

/// What step `step` clocks; both modes share the pattern.
pub open spec fn frame_step_type(step: int) -> FrameTick {
    if step == 0 || step == 2 {
        FrameTick::Quarter
    } else if step == 1 || step == 4 {
        FrameTick::Half
    } else {
        FrameTick::Idle
    }
}

/// DMC rates in CPU cycles by `$4010` index (PAL table when `pal`).
pub open spec fn dmc_period_table(pal: bool) -> Seq<u32> {
    if pal {
        seq![398u32, 354, 316, 298, 276, 236, 210, 198, 176, 148, 132, 118, 98, 78, 66, 50]
    } else {
        seq![428u32, 380, 340, 320, 286, 254, 226, 214, 190, 160, 142, 128, 106, 84, 72, 54]
    }
}

/// DMC rate for index `i` of the region's table.
#[verifier::spinoff_prover]
fn dmc_period_value(region: Region, i: u8) -> (r: u32)
    requires
        i < 16,
    ensures
        r == dmc_period_table(region == Region::Pal)[i as int],
{
    match region {
        Region::Pal => {
            let t: [u32; 16] = [398, 354, 316, 298, 276, 236, 210, 198, 176, 148, 132, 118, 98, 78, 66, 50];
            assert(t@ =~= dmc_period_table(true));
            t[i as usize]
        },
        _ => {
            let t: [u32; 16] = [428, 380, 340, 320, 286, 254, 226, 214, 190, 160, 142, 128, 106, 84, 72, 54];
            assert(t@ =~= dmc_period_table(false));
            t[i as usize]
        },
    }
}

/// Audio unit state. Synthesized samples and the output filter live with
/// the host: the filter's state is carried here as its raw snapshot bytes.
#[derive(Debug, Clone)]
pub struct Apu {
    pub cycles: u64,
    /// CPU cycle up to which the lazy state has been caught up.
    pub previous_cycle: u64,
    /// Master clock, advanced by `master_clock_divider` per CPU cycle.
    pub master_clock: u64,
    /// Master clocks per CPU cycle: 12 NTSC/Dendy, 16 PAL.
    pub master_clock_divider: u64,
    pub region: Region,
    /// Last value written to each register `$4000..$4017`.
    pub registers: [u8; 0x18],
    pub frame_previous_cycle: i32,
    pub frame_current_step: u8,
    /// 0 = 4-step, 1 = 5-step.
    pub frame_step_mode: u8,
    pub frame_inhibit_irq: bool,
    /// Steps left during which a further tick is suppressed.
    pub frame_block_tick: u8,
    /// Pending `$4017` value, -1 when none.
    pub frame_new_value: i16,
    /// Runs left before the pending `$4017` value applies.
    pub frame_write_delay: i8,
    /// The unit's own frame IRQ flag, cleared with a delay by `$4015` reads.
    pub frame_irq_flag: bool,
    pub frame_irq_clear_clock: u64,
    pub dmc_format: u8,
    pub dmc_load_addr: u8,
    pub dmc_load_length: u8,
    pub dmc_sample_addr: u16,
    pub dmc_sample_length: u16,
    pub dmc_current_addr: u16,
    pub dmc_bytes_remaining: u16,
    pub dmc_period: u32,
    pub dmc_timer: u32,
    pub dmc_bits_remaining: u8,
    pub dmc_buffer_empty: bool,
    pub dmc_read_buffer: u8,
    pub dmc_silence_flag: bool,
    pub dmc_dac: u8,
    pub dmc_shift_reg: u8,
    pub dmc_transfer_start_delay: u8,
    pub dmc_disable_delay: u8,
    pub dmc_need_to_run: bool,
    pub pulse1: Pulse,
    pub pulse2: Pulse,
    pub triangle: Triangle,
    pub noise: Noise,
    pub apu_phase: u8,
    pub sample_phase: u32,
    /// Output filter state, as the snapshot stores it.
    pub filter_state: [u8; 12],
    /// Host audio toggle; emulation state does not depend on it.
    pub audio_enabled: bool,
}

impl Apu {
    /// The power-on state: NTSC timing, the frame counter as after a
    /// delayed `$4017 = 0` write, the DMC at its slowest rate with an empty
    /// buffer, silent channels (the host audio toggle aside).
    pub open spec fn is_power_on(&self) -> bool {
        &&& self.cycles == 0 && self.previous_cycle == 0 && self.master_clock == 0 && self.master_clock_divider == 12
        &&& self.region == Region::Ntsc && self.registers@ == Seq::new(0x18, |i: int| 0u8)
        &&& self.frame_previous_cycle == 0 && self.frame_current_step == 0 && self.frame_step_mode == 0
        &&& !self.frame_inhibit_irq && self.frame_block_tick == 0 && self.frame_new_value == 0
        &&& self.frame_write_delay == 3 && !self.frame_irq_flag && self.frame_irq_clear_clock == 0
        &&& self.dmc_format == 0 && self.dmc_load_addr == 0 && self.dmc_load_length == 0
        &&& self.dmc_sample_addr == 0xc000 && self.dmc_sample_length == 1 && self.dmc_current_addr == 0
        &&& self.dmc_bytes_remaining == 0 && self.dmc_period == 427 && self.dmc_timer == 427
        &&& self.dmc_bits_remaining == 8 && self.dmc_buffer_empty && self.dmc_read_buffer == 0
        &&& self.dmc_silence_flag && self.dmc_dac == 0 && self.dmc_shift_reg == 0
        &&& self.dmc_transfer_start_delay == 0 && self.dmc_disable_delay == 0 && !self.dmc_need_to_run
        &&& self.pulse1 == Pulse::silent(0) && self.pulse2 == Pulse::silent(1)
        &&& self.triangle == Triangle::silent() && self.noise == Noise::silent()
        &&& self.apu_phase == 0 && self.sample_phase == 0 && self.filter_state@ == Seq::new(12, |i: int| 0u8)
    }

    /// Bounds the sequencer and the DMC reader keep.
    pub open spec fn wf(&self) -> bool {
        &&& self.frame_step_mode <= 1 && self.frame_current_step <= 5
        &&& 0 <= self.frame_previous_cycle <= 0x10000
        &&& self.frame_new_value <= 0xff
        &&& (self.frame_new_value >= 0 ==> 1 <= self.frame_write_delay <= 4)
        &&& 1 <= self.dmc_bits_remaining <= 8
        &&& self.pulse1.wf() && self.pulse2.wf() && self.noise.envelope.speed < 255
    }

    /// The channels after a frame-counter tick: envelopes (looping on the
    /// applied length halt) and the triangle's linear counter every tick;
    /// length counters and sweeps on half-frame ticks.
    pub open spec fn ticked(self, ft: FrameTick) -> Apu {
        let half = ft == FrameTick::Half;
        Apu {
            pulse1: pulse_ticked(self.pulse1, half),
            pulse2: pulse_ticked(self.pulse2, half),
            triangle: triangle_ticked(self.triangle, half),
            noise: noise_ticked(self.noise, half),
            ..self
        }
    }
}

/// A pulse channel after a frame-counter tick (`half` for half frames).
pub open spec fn pulse_ticked(p: Pulse, half: bool) -> Pulse {
    let q = Pulse { envelope: p.envelope.clocked(p.length_halt), ..p };
    if half { q.length_clocked().sweep_clocked() } else { q }
}

/// The triangle channel after a frame-counter tick.
pub open spec fn triangle_ticked(t: Triangle, half: bool) -> Triangle {
    if half { t.linear_clocked().length_clocked() } else { t.linear_clocked() }
}

/// The noise channel after a frame-counter tick.
pub open spec fn noise_ticked(n: Noise, half: bool) -> Noise {
    let q = Noise { envelope: n.envelope.clocked(n.length_halt), ..n };
    if half { q.length_clocked() } else { q }
}

#[verifier::spinoff_prover]
fn tick_pulse(p: &mut Pulse, half: bool)
    requires
        old(p).wf(),
    ensures
        *final(p) == pulse_ticked(*old(p), half),
        final(p).wf(),
{
    let h = p.length_halt;
    p.envelope.clock(h);
    if half {
        p.clock_length();
        p.clock_sweep();
    }
}

#[verifier::spinoff_prover]
fn tick_triangle(t: &mut Triangle, half: bool)
    ensures
        *final(t) == triangle_ticked(*old(t), half),
{
    t.clock_linear();
    if half {
        t.clock_length();
    }
}

#[verifier::spinoff_prover]
fn tick_noise(n: &mut Noise, half: bool)
    requires
        old(n).envelope.speed < 255,
    ensures
        *final(n) == noise_ticked(*old(n), half),
        final(n).envelope.speed == old(n).envelope.speed,
{
    let h = n.length_halt;
    n.envelope.clock(h);
    if half {
        n.clock_length();
    }
}

impl Default for Apu {
    /// Power-on state: NTSC timing, the frame counter as after a delayed
    /// `$4017 = 0` write, DMC at its slowest rate with an empty buffer.
    #[verifier::spinoff_prover]
    fn default() -> (r: Self)
        ensures
            r.is_power_on(),
            r.audio_enabled,
            r.wf(),
    {
        let r = Apu {
            cycles: 0,
            previous_cycle: 0,
            master_clock: 0,
            master_clock_divider: 12,
            region: Region::Ntsc,
            registers: [0; 0x18],
            frame_previous_cycle: 0,
            frame_current_step: 0,
            frame_step_mode: 0,
            frame_inhibit_irq: false,
            frame_block_tick: 0,
            frame_new_value: 0,
            frame_write_delay: 3,
            frame_irq_flag: false,
            frame_irq_clear_clock: 0,
            dmc_format: 0,
            dmc_load_addr: 0,
            dmc_load_length: 0,
            dmc_sample_addr: 0xc000,
            dmc_sample_length: 1,
            dmc_current_addr: 0,
            dmc_bytes_remaining: 0,
            dmc_period: 427,
            dmc_timer: 427,
            dmc_bits_remaining: 8,
            dmc_buffer_empty: true,
            dmc_read_buffer: 0,
            dmc_silence_flag: true,
            dmc_dac: 0,
            dmc_shift_reg: 0,
            dmc_transfer_start_delay: 0,
            dmc_disable_delay: 0,
            dmc_need_to_run: false,
            pulse1: Pulse::new(0),
            pulse2: Pulse::new(1),
            triangle: Triangle::default(),
            noise: Noise::default(),
            apu_phase: 0,
            sample_phase: 0,
            filter_state: [0; 12],
            audio_enabled: true,
        };
        assert(r.registers@ =~= Seq::new(0x18, |i: int| 0u8));
        assert(r.filter_state@ =~= Seq::new(12, |i: int| 0u8));
        r
    }
}

impl Apu {
    /// Power-on state again, keeping the host audio toggle.
    #[verifier::spinoff_prover]
    pub fn reset(&mut self)
        ensures
            final(self).is_power_on(),
            final(self).audio_enabled == old(self).audio_enabled,
            final(self).wf(),
    {
        let audio_enabled = self.audio_enabled;
        let mut fresh = Apu::default();
        fresh.audio_enabled = audio_enabled;
        *self = fresh;
    }

    #[verifier::spinoff_prover]
    pub fn set_audio_enabled(&mut self, enabled: bool)
        ensures
            *final(self) == (Apu { audio_enabled: enabled, ..*old(self) }),
    {
        self.audio_enabled = enabled;
    }

    /// One CPU cycle of synthesis timing while audio is enabled: the
    /// triangle timer steps every cycle; the APU phase flips, and on its
    /// even half the pulse and noise timers step; the resampling phase
    /// advances by the sample rate and, when it reaches the CPU rate, wraps
    /// and a sample is due (`true`). With audio off nothing changes.
    pub fn synth_tick(&mut self) -> (emit: bool)
        requires
            old(self).audio_enabled ==> old(self).sample_phase + AUDIO_SAMPLE_RATE <= u32::MAX,
        ensures
            !old(self).audio_enabled ==> *final(self) == *old(self) && !emit,
            old(self).audio_enabled ==> {
                let phase = (old(self).apu_phase ^ 1u8) as u8;
                let advanced = old(self).sample_phase + AUDIO_SAMPLE_RATE;
                &&& emit == (advanced >= NTSC_CPU_HZ)
                &&& *final(self) == (Apu {
                    triangle: old(self).triangle.timer_ticked(),
                    apu_phase: phase,
                    pulse1: if phase == 0 { old(self).pulse1.timer_ticked() } else { old(self).pulse1 },
                    pulse2: if phase == 0 { old(self).pulse2.timer_ticked() } else { old(self).pulse2 },
                    noise: if phase == 0 { old(self).noise.timer_ticked() } else { old(self).noise },
                    sample_phase: (if emit { advanced - NTSC_CPU_HZ } else { advanced }) as u32,
                    ..*old(self)
                })
            },
            old(self).sample_phase < NTSC_CPU_HZ ==> final(self).sample_phase < NTSC_CPU_HZ,
    {
        if !self.audio_enabled {
            return false;
        }
        self.triangle.tick();
        self.apu_phase ^= 1;
        if self.apu_phase == 0 {
            self.pulse1.tick();
            self.pulse2.tick();
            self.noise.tick();
        }
        self.sample_phase += AUDIO_SAMPLE_RATE;
        if self.sample_phase >= NTSC_CPU_HZ {
            self.sample_phase -= NTSC_CPU_HZ;
            true
        } else {
            false
        }
    }

    #[verifier::spinoff_prover]
    pub fn audio_enabled(&self) -> (r: bool)
        ensures
            r == self.audio_enabled,
    {
        self.audio_enabled
    }

    /// Current DMC sample address.
    #[verifier::spinoff_prover]
    pub fn dmc_read_address(&self) -> (r: u16)
        ensures
            r == self.dmc_current_addr,
    {
        self.dmc_current_addr
    }

    /// Frame-counter diagnostics.
    #[verifier::spinoff_prover]
    pub fn frame_counter_state(&self) -> (r: FrameCounterDebugState)
        ensures
            r == (FrameCounterDebugState {
                previous_cycle: self.frame_previous_cycle,
                current_step: self.frame_current_step as u32,
                step_mode: self.frame_step_mode as u32,
                inhibit_irq: self.frame_inhibit_irq,
                block_frame_counter_tick: self.frame_block_tick,
                new_value: self.frame_new_value,
                write_delay_counter: self.frame_write_delay,
                irq_flag: self.frame_irq_flag,
                irq_flag_clear_clock: self.frame_irq_clear_clock,
            }),
    {
        FrameCounterDebugState {
            previous_cycle: self.frame_previous_cycle,
            current_step: self.frame_current_step as u32,
            step_mode: self.frame_step_mode as u32,
            inhibit_irq: self.frame_inhibit_irq,
            block_frame_counter_tick: self.frame_block_tick,
            new_value: self.frame_new_value,
            write_delay_counter: self.frame_write_delay,
            irq_flag: self.frame_irq_flag,
            irq_flag_clear_clock: self.frame_irq_clear_clock,
        }
    }

    /// Switch region: master clock divider, and the DMC and noise periods
    /// reset to the first entry of the region's tables.
    #[verifier::spinoff_prover]
    pub fn set_region(&mut self, region: Region)
        ensures
            *final(self) == (Apu {
                region,
                master_clock_divider: if region == Region::Pal { 16 } else { 12 },
                dmc_period: (dmc_period_table(region == Region::Pal)[0] - 1) as u32,
                dmc_timer: (dmc_period_table(region == Region::Pal)[0] - 1) as u32,
                noise: Noise {
                    timer_period: (super::noise_period_table(region == Region::Pal)[0] - 1) as u16,
                    ..old(self).noise
                },
                ..*old(self)
            }),
    {
        self.region = region;
        self.master_clock_divider = match region {
            Region::Pal => 16,
            _ => 12,
        };
        let d = dmc_period_value(region, 0);
        self.dmc_period = d - 1;
        self.dmc_timer = self.dmc_period;
        // Both noise tables start at 4.
        self.noise.timer_period = 3;
    }

    /// Last value written to register `addr` (`$4000..$4017`).
    #[verifier::spinoff_prover]
    pub fn register(&self, addr: u16) -> (r: u8)
        requires
            0x4000 <= addr < 0x4018,
        ensures
            r == self.registers@[addr - 0x4000],
    {
        self.registers[(addr - 0x4000) as usize]
    }

    /// The frame-counter step table of the current region.
    #[verifier::spinoff_prover]
    fn step_cycles_table(&self) -> (r: [[i32; 6]; 2])
        ensures
            forall|m: int, s: int|
                0 <= m < 2 && 0 <= s < 6 ==> #[trigger] r@[m]@[s] == frame_step_cycle(self.region == Region::Pal, m, s),
    {
        match self.region {
            Region::Pal => {
                let r = [[8313, 16627, 24939, 33252, 33253, 33254], [8313, 16627, 24939, 33253, 41565, 41566]];
                assert forall|m: int, s: int| 0 <= m < 2 && 0 <= s < 6 implies #[trigger] r@[m]@[s] == frame_step_cycle(
                    true,
                    m,
                    s,
                ) by {
                    if m == 0 {
                        assert(r@[0]@ =~= seq![8313i32, 16627, 24939, 33252, 33253, 33254]);
                    } else {
                        assert(r@[1]@ =~= seq![8313i32, 16627, 24939, 33253, 41565, 41566]);
                    }
                }
                r
            },
            _ => {
                let r = [[7457, 14913, 22371, 29828, 29829, 29830], [7457, 14913, 22371, 29829, 37281, 37282]];
                assert forall|m: int, s: int| 0 <= m < 2 && 0 <= s < 6 implies #[trigger] r@[m]@[s] == frame_step_cycle(
                    false,
                    m,
                    s,
                ) by {
                    if m == 0 {
                        assert(r@[0]@ =~= seq![7457i32, 14913, 22371, 29828, 29829, 29830]);
                    } else {
                        assert(r@[1]@ =~= seq![7457i32, 14913, 22371, 29829, 37281, 37282]);
                    }
                }
                r
            },
        }
    }

    /// Clock the channels for one frame-counter tick.
    #[verifier::spinoff_prover]
    fn frame_counter_tick(&mut self, frame_type: FrameTick)
        requires
            old(self).wf(),
        ensures
            *final(self) == old(self).ticked(frame_type),
            final(self).wf(),
    {
        let half = frame_type == FrameTick::Half;
        let mut p1 = self.pulse1;
        let mut p2 = self.pulse2;
        let mut t = self.triangle;
        let mut n = self.noise;
        tick_pulse(&mut p1, half);
        tick_pulse(&mut p2, half);
        tick_triangle(&mut t, half);
        tick_noise(&mut n, half);
        self.pulse1 = p1;
        self.pulse2 = p2;
        self.triangle = t;
        self.noise = n;
    }
}

/// Whether a run of `ctr` cycles reaches the next frame-counter step.
pub open spec fn fc_boundary(a: Apu, ctr: i32) -> bool {
    a.frame_previous_cycle + ctr >= frame_step_cycle(a.region == Region::Pal, a.frame_step_mode as int, a.frame_current_step as int)
}

/// Whether that run asserts the frame IRQ line: a 4-step sequence at one
/// of its last three steps with IRQs not inhibited.
pub open spec fn fc_raises_irq(a: Apu, ctr: i32) -> bool {
    fc_boundary(a, ctr) && a.frame_step_mode == 0 && a.frame_current_step >= 3 && !a.frame_inhibit_irq
}

/// Cycles a run of `ctr` cycles consumes: up to the step boundary when it
/// is reached (none when the boundary already lies behind), else all.
pub open spec fn fc_ran(a: Apu, ctr: i32) -> int {
    let sc = frame_step_cycle(a.region == Region::Pal, a.frame_step_mode as int, a.frame_current_step as int);
    if fc_boundary(a, ctr) {
        if sc < a.frame_previous_cycle { 0 } else { sc - a.frame_previous_cycle }
    } else {
        ctr as int
    }
}

/// The sequencer after the step part of a run: at a boundary the IRQ
/// flag of the last 4-step steps, the step's tick (unless blocked), and
/// the step advance (wrapping after six); otherwise only the cycle count.
pub open spec fn fc_stepped(a: Apu, ctr: i32) -> Apu {
    let step = a.frame_current_step as int;
    if fc_boundary(a, ctr) {
        let irq_steps = a.frame_step_mode == 0 && step >= 3;
        let b = Apu {
            frame_irq_flag: if irq_steps { !(a.frame_inhibit_irq && step == 5) } else { a.frame_irq_flag },
            frame_irq_clear_clock: if irq_steps { 0 } else { a.frame_irq_clear_clock },
            ..a
        };
        let ft = frame_step_type(step);
        let c = if ft != FrameTick::Idle && b.frame_block_tick == 0 {
            Apu { frame_block_tick: 2, ..b.ticked(ft) }
        } else {
            b
        };
        if step + 1 == 6 {
            Apu { frame_current_step: 0, frame_previous_cycle: 0, ..c }
        } else {
            Apu {
                frame_current_step: (step + 1) as u8,
                frame_previous_cycle: (a.frame_previous_cycle + fc_ran(a, ctr)) as i32,
                ..c
            }
        }
    } else {
        Apu { frame_previous_cycle: (a.frame_previous_cycle + ctr) as i32, ..a }
    }
}

/// A pending `$4017` write counts down once per run; when it lands it
/// selects the mode, restarts the sequence, and in 5-step mode ticks a
/// half frame at once (unless blocked).
pub open spec fn fc_written(a: Apu) -> Apu {
    if a.frame_new_value >= 0 {
        if a.frame_write_delay - 1 == 0 {
            let mode: u8 = if (a.frame_new_value as u8) & 0x80 != 0 { 1 } else { 0 };
            let b = Apu {
                frame_step_mode: mode,
                frame_current_step: 0,
                frame_previous_cycle: 0,
                frame_new_value: -1i16,
                frame_write_delay: -1i8,
                ..a
            };
            if mode != 0 && b.frame_block_tick == 0 {
                Apu { frame_block_tick: 2, ..b.ticked(FrameTick::Half) }
            } else {
                b
            }
        } else {
            Apu { frame_write_delay: (a.frame_write_delay - 1) as i8, ..a }
        }
    } else {
        a
    }
}

/// The tick block counts down once per run.
pub open spec fn fc_unblocked(a: Apu) -> Apu {
    if a.frame_block_tick > 0 { Apu { frame_block_tick: (a.frame_block_tick - 1) as u8, ..a } } else { a }
}

/// Measure that every run of a positive budget decreases.
pub open spec fn fc_measure(a: Apu, ctr: i32) -> int {
    ctr * 8 + (6 - a.frame_current_step) + (if a.frame_previous_cycle > 0 { 6int } else { 0 }) + (if a.frame_new_value
        >= 0 {
        20int
    } else {
        0
    })
}

/// Every run of a positive budget lowers the measure, so a catch-up loop
/// ends.
#[verifier::spinoff_prover]
proof fn lemma_fc_measure(a: Apu, ctr: i32)
    requires
        a.wf(),
        0 < ctr <= 0x7ffe_0000,
    ensures
        fc_measure(fc_unblocked(fc_written(fc_stepped(a, ctr))), (ctr - fc_ran(a, ctr)) as i32) < fc_measure(a, ctr),
        0 <= ctr - fc_ran(a, ctr),
{
    let s1 = fc_stepped(a, ctr);
    let s2 = fc_written(s1);
    let s3 = fc_unblocked(s2);
    let sc = frame_step_cycle(a.region == Region::Pal, a.frame_step_mode as int, a.frame_current_step as int);
    assert(0 < sc <= 41566);
    assert(s3.frame_current_step == s2.frame_current_step && s3.frame_previous_cycle == s2.frame_previous_cycle);
    assert(s3.frame_new_value == s2.frame_new_value);
}

impl Apu {
    /// The step part of a run: at a boundary the frame IRQ of the last
    /// 4-step steps, the step's tick and the step advance.
    #[verifier::spinoff_prover]
    #[verifier::rlimit(60)]
    fn frame_step_phase(&mut self, ctr: i32, interrupt: &mut InterruptLines) -> (r: u32)
        requires
            old(self).wf(),
            0 < ctr <= 0x7ffe_0000,
        ensures
            final(self).wf(),
            r == fc_ran(*old(self), ctr),
            *final(self) == fc_stepped(*old(self), ctr),
            final(interrupt).irq_flag == (if fc_raises_irq(*old(self), ctr) {
                old(interrupt).irq_flag | irq_bit(IrqSource::FrameCounter)
            } else {
                old(interrupt).irq_flag
            }),
            final(interrupt).nmi_flag == old(interrupt).nmi_flag,
            final(interrupt).dmc_dma_pending == old(interrupt).dmc_dma_pending,
            final(interrupt).dmc_dma_stop == old(interrupt).dmc_dma_stop,
    {
        let mode = self.frame_step_mode;
        let step = self.frame_current_step;
        let table = self.step_cycles_table();
        let step_cycle = table[mode as usize][step as usize];
        if self.frame_previous_cycle + ctr >= step_cycle {
            self.frame_irq_phase(interrupt);
            let frame_type = if step == 0 || step == 2 {
                FrameTick::Quarter
            } else if step == 1 || step == 4 {
                FrameTick::Half
            } else {
                FrameTick::Idle
            };
            if frame_type != FrameTick::Idle && self.frame_block_tick == 0 {
                self.frame_counter_tick(frame_type);
                self.frame_block_tick = 2;
            }
            let ran: u32 = if step_cycle < self.frame_previous_cycle {
                0
            } else {
                (step_cycle - self.frame_previous_cycle) as u32
            };
            if step + 1 == 6 {
                self.frame_current_step = 0;
                self.frame_previous_cycle = 0;
            } else {
                self.frame_current_step = step + 1;
                self.frame_previous_cycle = self.frame_previous_cycle + ran as i32;
            }
            ran
        } else {
            self.frame_previous_cycle = self.frame_previous_cycle + ctr;
            ctr as u32
        }
    }

    /// Frame IRQ at the last three steps of the 4-step sequence: the flag
    /// rises and the line is asserted unless inhibited; inhibited, the
    /// final step drops the flag again.
    #[verifier::spinoff_prover]
    fn frame_irq_phase(&mut self, interrupt: &mut InterruptLines)
        ensures
            ({
                let a = *old(self);
                let irq_steps = a.frame_step_mode == 0 && a.frame_current_step >= 3;
                *final(self) == (Apu {
                    frame_irq_flag: if irq_steps {
                        !(a.frame_inhibit_irq && a.frame_current_step == 5)
                    } else {
                        a.frame_irq_flag
                    },
                    frame_irq_clear_clock: if irq_steps { 0 } else { a.frame_irq_clear_clock },
                    ..a
                })
            }),
            final(interrupt).irq_flag == (if old(self).frame_step_mode == 0 && old(self).frame_current_step >= 3
                && !old(self).frame_inhibit_irq {
                old(interrupt).irq_flag | irq_bit(IrqSource::FrameCounter)
            } else {
                old(interrupt).irq_flag
            }),
            final(interrupt).nmi_flag == old(interrupt).nmi_flag,
            final(interrupt).dmc_dma_pending == old(interrupt).dmc_dma_pending,
            final(interrupt).dmc_dma_stop == old(interrupt).dmc_dma_stop,
    {
        if self.frame_step_mode == 0 && self.frame_current_step >= 3 {
            self.frame_irq_flag = true;
            self.frame_irq_clear_clock = 0;
            if !self.frame_inhibit_irq {
                interrupt.set_irq_source(IrqSource::FrameCounter);
            } else if self.frame_current_step == 5 {
                self.frame_irq_flag = false;
                self.frame_irq_clear_clock = 0;
            }
        }
    }

    /// The pending `$4017` write counts down and, when it lands, takes
    /// effect.
    #[verifier::spinoff_prover]
    fn frame_write_phase(&mut self)
        requires
            old(self).wf(),
        ensures
            *final(self) == fc_written(*old(self)),
            final(self).wf(),
    {
        if self.frame_new_value >= 0 {
            self.frame_write_delay = self.frame_write_delay - 1;
            if self.frame_write_delay == 0 {
                let value = self.frame_new_value as u8;
                self.frame_step_mode = if value & 0x80 != 0 { 1 } else { 0 };
                self.frame_current_step = 0;
                self.frame_previous_cycle = 0;
                self.frame_new_value = -1;
                self.frame_write_delay = -1;
                if self.frame_step_mode != 0 && self.frame_block_tick == 0 {
                    self.frame_counter_tick(FrameTick::Half);
                    self.frame_block_tick = 2;
                }
            }
        }
    }

    /// One frame-counter run over a budget of `*cycles_to_run` cycles: at
    /// most one step transition, then the pending `$4017` write and the
    /// tick block each count down once. Returns the cycles consumed.
    #[verifier::spinoff_prover]
    fn run_frame_counter_step(&mut self, cycles_to_run: &mut i32, interrupt: &mut InterruptLines) -> (r: u32)
        requires
            old(self).wf(),
            0 < *old(cycles_to_run) <= 0x7ffe_0000,
        ensures
            final(self).wf(),
            r == fc_ran(*old(self), *old(cycles_to_run)),
            *final(cycles_to_run) == *old(cycles_to_run) - r,
            0 <= *final(cycles_to_run),
            *final(self) == fc_unblocked(fc_written(fc_stepped(*old(self), *old(cycles_to_run)))),
            final(interrupt).irq_flag == (if fc_raises_irq(*old(self), *old(cycles_to_run)) {
                old(interrupt).irq_flag | irq_bit(IrqSource::FrameCounter)
            } else {
                old(interrupt).irq_flag
            }),
            final(interrupt).nmi_flag == old(interrupt).nmi_flag,
            final(interrupt).dmc_dma_pending == old(interrupt).dmc_dma_pending,
            final(interrupt).dmc_dma_stop == old(interrupt).dmc_dma_stop,
            fc_measure(*final(self), *final(cycles_to_run)) < fc_measure(*old(self), *old(cycles_to_run)),
    {
        proof {
            lemma_fc_measure(*old(self), *old(cycles_to_run));
        }
        let ctr = *cycles_to_run;
        let ran = self.frame_step_phase(ctr, interrupt);
        *cycles_to_run = ctr - ran as i32;
        self.frame_write_phase();
        if self.frame_block_tick > 0 {
            self.frame_block_tick = self.frame_block_tick - 1;
        }
        ran
    }
}

/// Pulse `$4000`/`$4004` write.
pub open spec fn pulse_control(p: Pulse, v: u8) -> Pulse {
    Pulse {
        duty: (v >> 6u8) & 3,
        envelope: Envelope { mode: (v & 0x30) >> 4u8, speed: v & 0x0f, ..p.envelope },
        new_length_halt: v & 0x20 != 0,
        ..p
    }
}

/// Pulse `$4001`/`$4005` write.
pub open spec fn pulse_sweep(p: Pulse, v: u8) -> Pulse {
    Pulse {
        sweep_enabled: v & 0x80 != 0,
        sweep_period: (((v >> 4u8) & 0x07) + 1) as u8,
        sweep_negate: v & 0x08 != 0,
        sweep_shift: v & 0x07,
        sweep_reload: true,
        ..p
    }
}

/// Pulse `$4002`/`$4006` write.
pub open spec fn pulse_timer_low(p: Pulse, v: u8) -> Pulse {
    Pulse { timer_period: (p.timer_period & 0x0700) | (v as u16), ..p }
}

/// Pulse `$4003`/`$4007` write.
pub open spec fn pulse_timer_high(p: Pulse, v: u8) -> Pulse {
    Pulse {
        timer_period: (p.timer_period & 0x00ff) | (((v & 0x07) as u16) << 8u16),
        length_reload_value: if p.enabled { length_table()[((v >> 3u8) & 0x1f) as int] } else { p.length_reload_value },
        length_previous_value: if p.enabled { p.length } else { p.length_previous_value },
        sequence_pos: 0,
        envelope: Envelope { reload_dec: true, ..p.envelope },
        ..p
    }
}

/// Triangle `$4008` write.
pub open spec fn triangle_control(t: Triangle, v: u8) -> Triangle {
    Triangle { linear_control_flag: v & 0x80 != 0, new_length_halt: v & 0x80 != 0, linear_reload: v & 0x7f, ..t }
}

/// Triangle `$400A` write.
pub open spec fn triangle_timer_low(t: Triangle, v: u8) -> Triangle {
    Triangle { timer_period: (t.timer_period & 0x0700) | (v as u16), ..t }
}

/// Triangle `$400B` write.
pub open spec fn triangle_timer_high(t: Triangle, v: u8) -> Triangle {
    Triangle {
        timer_period: (t.timer_period & 0x00ff) | (((v & 0x07) as u16) << 8u16),
        length_reload_value: if t.enabled { length_table()[((v >> 3u8) & 0x1f) as int] } else { t.length_reload_value },
        length_previous_value: if t.enabled { t.length } else { t.length_previous_value },
        linear_reload_flag: true,
        ..t
    }
}

/// Noise `$400C` write.
pub open spec fn noise_control(n: Noise, v: u8) -> Noise {
    Noise {
        envelope: Envelope { mode: (v & 0x30) >> 4u8, speed: v & 0x0f, ..n.envelope },
        new_length_halt: v & 0x20 != 0,
        ..n
    }
}

/// Noise `$400E` write.
pub open spec fn noise_period(n: Noise, v: u8, region: Region) -> Noise {
    Noise {
        mode: v & 0x80 != 0,
        timer_period: (noise_period_table(region == Region::Pal)[(v & 0x0f) as int] - 1) as u16,
        ..n
    }
}

/// Noise `$400F` write.
pub open spec fn noise_length_load(n: Noise, v: u8) -> Noise {
    Noise {
        length_reload_value: if n.enabled { length_table()[((v >> 3u8) & 0x1f) as int] } else { n.length_reload_value },
        length_previous_value: if n.enabled { n.length } else { n.length_previous_value },
        envelope: Envelope { reload_dec: true, ..n.envelope },
        ..n
    }
}

/// A pulse channel after a write of `v` to its register `r` (0..3).
pub open spec fn pulse_reg_written(p: Pulse, r: u16, v: u8) -> Pulse {
    if r == 0 {
        pulse_control(p, v)
    } else if r == 1 {
        pulse_sweep(p, v)
    } else if r == 2 {
        pulse_timer_low(p, v)
    } else {
        pulse_timer_high(p, v)
    }
}

/// The triangle after a write of `v` to `$4000 + reg` (`$4008`, `$400A`,
/// `$400B`).
pub open spec fn triangle_reg_written(t: Triangle, reg: u16, v: u8) -> Triangle {
    if reg == 0x08 {
        triangle_control(t, v)
    } else if reg == 0x0a {
        triangle_timer_low(t, v)
    } else {
        triangle_timer_high(t, v)
    }
}

/// The noise channel after a write of `v` to `$4000 + reg` (`$400C`,
/// `$400E`, `$400F`).
pub open spec fn noise_reg_written(n: Noise, reg: u16, v: u8, region: Region) -> Noise {
    if reg == 0x0c {
        noise_control(n, v)
    } else if reg == 0x0e {
        noise_period(n, v, region)
    } else {
        noise_length_load(n, v)
    }
}

/// The DMC after a write of `v` to `$4000 + reg` (`$4010..$4013`): rate
/// and flags, direct DAC level, sample address, sample length.
pub open spec fn dmc_reg_written(a: Apu, reg: u16, v: u8) -> Apu {
    if reg == 0x10 {
        Apu { dmc_period: (dmc_period_table(a.region == Region::Pal)[(v & 0x0f) as int] - 1) as u32, dmc_format: v, ..a }
    } else if reg == 0x11 {
        Apu { dmc_dac: v & 0x7f, ..a }
    } else if reg == 0x12 {
        Apu { dmc_load_addr: v, dmc_sample_addr: 0xc000u16 | ((v as u16) << 6u16), ..a }
    } else if reg == 0x13 {
        Apu { dmc_load_length: v, dmc_sample_length: ((v as u16) << 4u16) | 1u16, ..a }
    } else {
        a
    }
}

/// The unit after a write of `v` to channel register `$4000 + reg`;
/// `$4009`, `$400D` and registers past `$4013` change nothing.
pub open spec fn channel_written(a: Apu, reg: u16, v: u8) -> Apu {
    if reg <= 0x03 {
        Apu { pulse1: pulse_reg_written(a.pulse1, reg, v), ..a }
    } else if reg <= 0x07 {
        Apu { pulse2: pulse_reg_written(a.pulse2, (reg - 4) as u16, v), ..a }
    } else if reg == 0x08 || reg == 0x0a || reg == 0x0b {
        Apu { triangle: triangle_reg_written(a.triangle, reg, v), ..a }
    } else if reg == 0x0c || reg == 0x0e || reg == 0x0f {
        Apu { noise: noise_reg_written(a.noise, reg, v, a.region), ..a }
    } else {
        dmc_reg_written(a, reg, v)
    }
}

/// The IRQ lines after a write of `v` to channel register `$4000 + reg`:
/// `$4010` with bit 7 clear acknowledges the DMC IRQ.
pub open spec fn channel_write_irq(irq: u8, reg: u16, v: u8) -> u8 {
    if reg == 0x10 && v & 0x80 == 0 { irq & !irq_bit(IrqSource::Dmc) } else { irq }
}

#[verifier::spinoff_prover]
fn write_pulse_register(p: &mut Pulse, r: u16, value: u8)
    requires
        old(p).wf(),
    ensures
        *final(p) == pulse_reg_written(*old(p), r, value),
        final(p).wf(),
{
    proof {
        crate::bits::lemma_u8_bits();
    }
    if r == 0 {
        p.write_control(value);
    } else if r == 1 {
        p.write_sweep(value);
    } else if r == 2 {
        p.write_timer_low(value);
    } else {
        p.write_timer_high(value);
    }
}

#[verifier::spinoff_prover]
fn write_triangle_register(t: &mut Triangle, reg: u16, value: u8)
    ensures
        *final(t) == triangle_reg_written(*old(t), reg, value),
{
    if reg == 0x08 {
        t.write_control(value);
    } else if reg == 0x0a {
        t.write_timer_low(value);
    } else {
        t.write_timer_high(value);
    }
}

#[verifier::spinoff_prover]
fn write_noise_register(n: &mut Noise, reg: u16, value: u8, region: Region)
    ensures
        *final(n) == noise_reg_written(*old(n), reg, value, region),
        reg != 0x0c ==> final(n).envelope.speed == old(n).envelope.speed,
        reg == 0x0c ==> final(n).envelope.speed < 255,
{
    proof {
        crate::bits::lemma_u8_bits();
    }
    if reg == 0x0c {
        n.write_control(value);
    } else if reg == 0x0e {
        n.write_period(value, region);
    } else {
        n.write_length_load(value);
    }
}

impl Apu {
    #[verifier::spinoff_prover]
    fn write_dmc_register(&mut self, reg: u16, value: u8, interrupt: &mut InterruptLines)
        ensures
            *final(self) == dmc_reg_written(*old(self), reg, value),
            final(interrupt).irq_flag == channel_write_irq(old(interrupt).irq_flag, reg, value),
            final(interrupt).nmi_flag == old(interrupt).nmi_flag,
            final(interrupt).dmc_dma_pending == old(interrupt).dmc_dma_pending,
            final(interrupt).dmc_dma_stop == old(interrupt).dmc_dma_stop,
    {
        proof {
            crate::bits::lemma_u8_bits();
        }
        if reg == 0x10 {
            let d = dmc_period_value(self.region, value & 0x0f);
            self.dmc_period = d - 1;
            if value & 0x80 == 0 {
                interrupt.clear_irq_source(IrqSource::Dmc);
            }
            self.dmc_format = value;
        } else if reg == 0x11 {
            self.dmc_dac = value & 0x7f;
        } else if reg == 0x12 {
            self.dmc_load_addr = value;
            self.dmc_sample_addr = 0xc000 | ((value as u16) << 6);
        } else if reg == 0x13 {
            self.dmc_load_length = value;
            self.dmc_sample_length = ((value as u16) << 4) | 1;
        }
    }

    /// Dispatch a write to channel register `$4000 + reg`.
    #[verifier::spinoff_prover]
    fn write_channel(&mut self, reg: u16, value: u8, interrupt: &mut InterruptLines)
        requires
            old(self).wf(),
        ensures
            *final(self) == channel_written(*old(self), reg, value),
            final(self).wf(),
            final(interrupt).irq_flag == channel_write_irq(old(interrupt).irq_flag, reg, value),
            final(interrupt).nmi_flag == old(interrupt).nmi_flag,
            final(interrupt).dmc_dma_pending == old(interrupt).dmc_dma_pending,
            final(interrupt).dmc_dma_stop == old(interrupt).dmc_dma_stop,
    {
        if reg <= 0x03 {
            let mut p = self.pulse1;
            write_pulse_register(&mut p, reg, value);
            self.pulse1 = p;
        } else if reg <= 0x07 {
            let mut p = self.pulse2;
            write_pulse_register(&mut p, reg - 4, value);
            self.pulse2 = p;
        } else if reg == 0x08 || reg == 0x0a || reg == 0x0b {
            let mut t = self.triangle;
            write_triangle_register(&mut t, reg, value);
            self.triangle = t;
        } else if reg == 0x0c || reg == 0x0e || reg == 0x0f {
            let mut n = self.noise;
            write_noise_register(&mut n, reg, value, self.region);
            self.noise = n;
        } else {
            self.write_dmc_register(reg, value, interrupt);
        }
    }
}

impl Apu {
    /// `$4015` write: channel enables (a disabled channel's length drops
    /// to 0), DMC IRQ acknowledge, and a DMC start (when idle) or stop,
    /// each taking effect two or three cycles later by cycle parity.
    pub open spec fn status_written(self, value: u8, cpu_cycle_count: u64) -> Apu {
        let delay: u8 = if cpu_cycle_count % 2 == 0 { 2 } else { 3 };
        let a = self.channels_enabled(value);
        if value & 0x10 != 0 {
            if a.dmc_bytes_remaining == 0 {
                Apu {
                    dmc_current_addr: a.dmc_sample_addr,
                    dmc_bytes_remaining: a.dmc_sample_length,
                    dmc_transfer_start_delay: delay,
                    dmc_need_to_run: true,
                    ..a
                }
            } else {
                a
            }
        } else if a.dmc_disable_delay == 0 {
            Apu { dmc_disable_delay: delay, dmc_need_to_run: true, ..a }
        } else {
            a
        }
    }

    /// Channel enables from a `$4015` value; a disabled channel's length
    /// drops to 0.
    pub open spec fn channels_enabled(self, value: u8) -> Apu {
        let p1 = Pulse { enabled: value & 0x01 != 0, length: if value & 0x01 != 0 { self.pulse1.length } else { 0 }, ..self.pulse1 };
        let p2 = Pulse { enabled: value & 0x02 != 0, length: if value & 0x02 != 0 { self.pulse2.length } else { 0 }, ..self.pulse2 };
        let t = Triangle {
            enabled: value & 0x04 != 0,
            length: if value & 0x04 != 0 { self.triangle.length } else { 0 },
            ..self.triangle
        };
        let n = Noise { enabled: value & 0x08 != 0, length: if value & 0x08 != 0 { self.noise.length } else { 0 }, ..self.noise };
        Apu { pulse1: p1, pulse2: p2, triangle: t, noise: n, ..self }
    }

    #[verifier::spinoff_prover]
    #[verifier::rlimit(50)]
    fn enable_channels(&mut self, value: u8)
        requires
            old(self).wf(),
        ensures
            *final(self) == old(self).channels_enabled(value),
            final(self).wf(),
    {
        let (e1, e2, et, en) = channel_enables(value);
        let p1 = Pulse { enabled: e1, length: if e1 { self.pulse1.length } else { 0 }, ..self.pulse1 };
        let p2 = Pulse { enabled: e2, length: if e2 { self.pulse2.length } else { 0 }, ..self.pulse2 };
        let t = Triangle { enabled: et, length: if et { self.triangle.length } else { 0 }, ..self.triangle };
        let n = Noise { enabled: en, length: if en { self.noise.length } else { 0 }, ..self.noise };
        self.pulse1 = p1;
        self.pulse2 = p2;
        self.triangle = t;
        self.noise = n;
    }

    /// Point the DMC reader at the start of the sample.
    #[verifier::spinoff_prover]
    fn dmc_init_sample(&mut self)
        ensures
            *final(self) == (Apu {
                dmc_current_addr: old(self).dmc_sample_addr,
                dmc_bytes_remaining: old(self).dmc_sample_length,
                dmc_need_to_run: old(self).dmc_need_to_run || old(self).dmc_sample_length > 0,
                ..*old(self)
            }),
    {
        self.dmc_current_addr = self.dmc_sample_addr;
        self.dmc_bytes_remaining = self.dmc_sample_length;
        self.dmc_need_to_run = self.dmc_need_to_run || self.dmc_bytes_remaining > 0;
    }

    /// `$4015` write.
    #[verifier::spinoff_prover]
    fn write_status(&mut self, value: u8, cpu_cycle_count: u64, interrupt: &mut InterruptLines)
        requires
            old(self).wf(),
        ensures
            *final(self) == old(self).status_written(value, cpu_cycle_count),
            final(self).wf(),
            final(interrupt).irq_flag == old(interrupt).irq_flag & !irq_bit(IrqSource::Dmc),
            final(interrupt).nmi_flag == old(interrupt).nmi_flag,
            final(interrupt).dmc_dma_pending == old(interrupt).dmc_dma_pending,
            final(interrupt).dmc_dma_stop == old(interrupt).dmc_dma_stop,
    {
        proof {
            crate::bits::lemma_u8_bits();
        }
        let delay: u8 = if cpu_cycle_count & 0x01 == 0 { 2 } else { 3 };
        assert((cpu_cycle_count & 0x01 == 0) == (cpu_cycle_count % 2 == 0)) by (bit_vector);
        self.enable_channels(value);
        interrupt.clear_irq_source(IrqSource::Dmc);
        if value & 0x10 != 0 {
            if self.dmc_bytes_remaining == 0 {
                self.dmc_current_addr = self.dmc_sample_addr;
                self.dmc_bytes_remaining = self.dmc_sample_length;
                self.dmc_transfer_start_delay = delay;
                self.dmc_need_to_run = true;
            }
        } else if self.dmc_disable_delay == 0 {
            self.dmc_disable_delay = delay;
            self.dmc_need_to_run = true;
        }
    }

    /// `$4017` write: the new mode waits three or four runs by cycle
    /// parity; the IRQ-inhibit bit applies at once and, when set, clears
    /// the frame IRQ flag and line.
    #[verifier::spinoff_prover]
    fn write_frame_counter(&mut self, value: u8, cpu_cycle_count: u64, interrupt: &mut InterruptLines)
        requires
            old(self).wf(),
        ensures
            *final(self) == (Apu {
                frame_new_value: value as i16,
                frame_write_delay: if cpu_cycle_count % 2 != 0 { 4 } else { 3 },
                frame_inhibit_irq: value & 0x40 != 0,
                frame_irq_flag: if value & 0x40 != 0 { false } else { old(self).frame_irq_flag },
                frame_irq_clear_clock: if value & 0x40 != 0 { 0 } else { old(self).frame_irq_clear_clock },
                ..*old(self)
            }),
            final(self).wf(),
            final(interrupt).irq_flag == (if value & 0x40 != 0 {
                old(interrupt).irq_flag & !irq_bit(IrqSource::FrameCounter)
            } else {
                old(interrupt).irq_flag
            }),
            final(interrupt).nmi_flag == old(interrupt).nmi_flag,
            final(interrupt).dmc_dma_pending == old(interrupt).dmc_dma_pending,
            final(interrupt).dmc_dma_stop == old(interrupt).dmc_dma_stop,
    {
        assert((cpu_cycle_count & 0x01 != 0) == (cpu_cycle_count % 2 != 0)) by (bit_vector);
        self.frame_new_value = value as i16;
        self.frame_write_delay = if cpu_cycle_count & 0x01 != 0 { 4 } else { 3 };
        self.frame_inhibit_irq = value & 0x40 != 0;
        if self.frame_inhibit_irq {
            self.frame_irq_flag = false;
            self.frame_irq_clear_clock = 0;
            interrupt.clear_irq_source(IrqSource::FrameCounter);
        }
    }

    /// Request a DMC sample fetch when the buffer is empty, bytes remain and
    /// no fetch is already pending.
    #[verifier::spinoff_prover]
    fn dmc_start_transfer(&self, interrupt: &mut InterruptLines)
        ensures
            *final(interrupt) == (InterruptLines {
                dmc_dma_pending: old(interrupt).dmc_dma_pending || (self.dmc_buffer_empty && self.dmc_bytes_remaining > 0),
                ..*old(interrupt)
            }),
    {
        if self.dmc_buffer_empty && self.dmc_bytes_remaining > 0 && !interrupt.dmc_dma_pending {
            interrupt.request_dmc_dma();
        }
    }

    /// Per-CPU-cycle DMC delays: a pending stop ends the sample and cancels
    /// the fetch; a pending start requests the first fetch.
    #[verifier::spinoff_prover]
    fn dmc_process_clock(&mut self, interrupt: &mut InterruptLines)
        ensures
            ({
                let a = *old(self);
                let dd = if a.dmc_disable_delay > 0 { (a.dmc_disable_delay - 1) as u8 } else { 0u8 };
                let stop = a.dmc_disable_delay == 1;
                let sd = if a.dmc_transfer_start_delay > 0 { (a.dmc_transfer_start_delay - 1) as u8 } else { 0u8 };
                let start = a.dmc_transfer_start_delay == 1;
                let bytes = if stop { 0u16 } else { a.dmc_bytes_remaining };
                &&& *final(self) == (Apu {
                    dmc_disable_delay: dd,
                    dmc_transfer_start_delay: sd,
                    dmc_bytes_remaining: bytes,
                    dmc_need_to_run: dd != 0 || sd != 0 || bytes != 0,
                    ..a
                })
                &&& final(interrupt).dmc_dma_pending == (if stop {
                    start && a.dmc_buffer_empty && bytes > 0
                } else {
                    old(interrupt).dmc_dma_pending || (start && a.dmc_buffer_empty && bytes > 0)
                })
                &&& final(interrupt).dmc_dma_stop == (old(interrupt).dmc_dma_stop || stop)
                &&& final(interrupt).irq_flag == old(interrupt).irq_flag
                &&& final(interrupt).nmi_flag == old(interrupt).nmi_flag
            }),
    {
        if self.dmc_disable_delay > 0 {
            self.dmc_disable_delay = self.dmc_disable_delay - 1;
            if self.dmc_disable_delay == 0 {
                self.dmc_bytes_remaining = 0;
                interrupt.dmc_dma_pending = false;
                interrupt.request_dmc_dma_stop();
            }
        }
        if self.dmc_transfer_start_delay > 0 {
            self.dmc_transfer_start_delay = self.dmc_transfer_start_delay - 1;
            if self.dmc_transfer_start_delay == 0 {
                self.dmc_start_transfer(interrupt);
            }
        }
        self.dmc_need_to_run = self.dmc_disable_delay != 0 || self.dmc_transfer_start_delay != 0
            || self.dmc_bytes_remaining != 0;
    }

    /// The DMC output unit after one timer step.
    pub open spec fn dmc_timer_stepped(self) -> Apu {
        if self.dmc_timer > 0 {
            Apu { dmc_timer: (self.dmc_timer - 1) as u32, ..self }
        } else {
            let dac = if self.dmc_silence_flag {
                self.dmc_dac
            } else if self.dmc_shift_reg % 2 == 1 {
                if self.dmc_dac <= 125 { (self.dmc_dac + 2) as u8 } else { self.dmc_dac }
            } else if self.dmc_dac >= 2 {
                (self.dmc_dac - 2) as u8
            } else {
                self.dmc_dac
            };
            let shift = if self.dmc_silence_flag { self.dmc_shift_reg } else { self.dmc_shift_reg / 2 };
            let bits = (self.dmc_bits_remaining - 1) as u8;
            let a = Apu { dmc_timer: self.dmc_period, dmc_dac: dac, dmc_shift_reg: shift, dmc_bits_remaining: bits, ..self };
            if bits == 0 {
                if a.dmc_buffer_empty {
                    Apu { dmc_bits_remaining: 8, dmc_silence_flag: true, ..a }
                } else {
                    Apu {
                        dmc_bits_remaining: 8,
                        dmc_silence_flag: false,
                        dmc_shift_reg: a.dmc_read_buffer,
                        dmc_buffer_empty: true,
                        dmc_need_to_run: true,
                        ..a
                    }
                }
            } else {
                a
            }
        }
    }

    /// Whether that step requests the next sample fetch: the buffer moved
    /// into the shift register, bytes remain and no start delay runs.
    pub open spec fn dmc_timer_fetches(self) -> bool {
        self.dmc_timer == 0 && self.dmc_bits_remaining == 1 && !self.dmc_buffer_empty
            && self.dmc_transfer_start_delay == 0 && self.dmc_bytes_remaining > 0
    }

    /// One DMC timer step: on expiry the output level moves by 2 toward the
    /// shifted bit (within 0..127), and after eight bits the buffered byte
    /// becomes the next shift register, or the unit falls silent.
    #[verifier::spinoff_prover]
    fn run_dmc_timer_step(&mut self, interrupt: &mut InterruptLines)
        requires
            old(self).wf(),
        ensures
            *final(self) == old(self).dmc_timer_stepped(),
            final(self).wf(),
            *final(interrupt) == (InterruptLines {
                dmc_dma_pending: old(interrupt).dmc_dma_pending || old(self).dmc_timer_fetches(),
                ..*old(interrupt)
            }),
    {
        if self.dmc_timer > 0 {
            self.dmc_timer = self.dmc_timer - 1;
            return;
        }
        self.dmc_timer = self.dmc_period;
        if !self.dmc_silence_flag {
            let sr = self.dmc_shift_reg;
            proof {
                crate::bits::lemma_u8_bits();
            }
            if self.dmc_shift_reg & 1 != 0 {
                if self.dmc_dac <= 125 {
                    self.dmc_dac = self.dmc_dac + 2;
                }
            } else if self.dmc_dac >= 2 {
                self.dmc_dac = self.dmc_dac - 2;
            }
            self.dmc_shift_reg = self.dmc_shift_reg >> 1;
        }
        self.dmc_bits_remaining = self.dmc_bits_remaining - 1;
        if self.dmc_bits_remaining == 0 {
            self.dmc_bits_remaining = 8;
            if self.dmc_buffer_empty {
                self.dmc_silence_flag = true;
            } else {
                self.dmc_silence_flag = false;
                self.dmc_shift_reg = self.dmc_read_buffer;
                self.dmc_buffer_empty = true;
                self.dmc_need_to_run = true;
                if self.dmc_transfer_start_delay == 0 {
                    self.dmc_start_transfer(interrupt);
                }
            }
        }
    }

    /// A one-byte, non-looping sample delivered with one bit left and the
    /// timer about to expire restarts at once and schedules a stop three
    /// cycles later.
    #[verifier::spinoff_prover]
    fn apply_dmc_sample_duplication_timing(&mut self, interrupt: &mut InterruptLines)
        ensures
            *final(interrupt) == *old(interrupt),
            *final(self) == old(self).duplication_timed(),
    {
        if self.dmc_sample_length == 1 && self.dmc_format & 0x40 == 0 {
            if self.dmc_bits_remaining == 1 && self.dmc_timer < 2 {
                self.dmc_shift_reg = self.dmc_read_buffer;
                self.dmc_buffer_empty = false;
                self.dmc_init_sample();
                self.dmc_disable_delay = 3;
            }
        }
    }

    /// Deliver a fetched sample byte: it fills the buffer, the address
    /// advances (wrapping from `$FFFF` to `$8000`) and the count drops; at
    /// the sample's end a looping sample restarts, otherwise an enabled
    /// DMC IRQ is asserted. Without remaining bytes nothing happens.
    #[verifier::spinoff_prover]
    pub fn set_dmc_read_buffer(&mut self, value: u8, interrupt: &mut InterruptLines)
        requires
            old(self).wf(),
        ensures
            final(self).wf(),
            old(self).dmc_bytes_remaining == 0 ==> *final(self) == *old(self) && *final(interrupt) == *old(interrupt),
            old(self).dmc_bytes_remaining != 0 ==> *final(self) == old(self).delivered(value).duplication_timed(),
            final(interrupt).irq_flag == (if old(self).dmc_bytes_remaining == 1 && old(self).dmc_format & 0x40 == 0
                && old(self).dmc_format & 0x80 != 0 {
                old(interrupt).irq_flag | irq_bit(IrqSource::Dmc)
            } else {
                old(interrupt).irq_flag
            }),
            final(interrupt).nmi_flag == old(interrupt).nmi_flag,
            final(interrupt).dmc_dma_pending == old(interrupt).dmc_dma_pending,
            final(interrupt).dmc_dma_stop == old(interrupt).dmc_dma_stop,
    {
        if self.dmc_bytes_remaining == 0 {
            return;
        }
        self.dmc_deliver(value, interrupt);
        self.apply_dmc_sample_duplication_timing(interrupt);
    }

    /// The delivery part of `set_dmc_read_buffer`, with bytes remaining.
    #[verifier::spinoff_prover]
    fn dmc_deliver(&mut self, value: u8, interrupt: &mut InterruptLines)
        requires
            old(self).wf(),
            old(self).dmc_bytes_remaining != 0,
        ensures
            final(self).wf(),
            *final(self) == old(self).delivered(value),
            final(interrupt).irq_flag == (if old(self).dmc_bytes_remaining == 1 && old(self).dmc_format & 0x40 == 0
                && old(self).dmc_format & 0x80 != 0 {
                old(interrupt).irq_flag | irq_bit(IrqSource::Dmc)
            } else {
                old(interrupt).irq_flag
            }),
            final(interrupt).nmi_flag == old(interrupt).nmi_flag,
            final(interrupt).dmc_dma_pending == old(interrupt).dmc_dma_pending,
            final(interrupt).dmc_dma_stop == old(interrupt).dmc_dma_stop,
    {
        self.dmc_read_buffer = value;
        self.dmc_buffer_empty = false;
        self.dmc_current_addr = self.dmc_current_addr.wrapping_add(1);
        if self.dmc_current_addr == 0 {
            self.dmc_current_addr = 0x8000;
        }
        self.dmc_bytes_remaining = self.dmc_bytes_remaining - 1;
        if self.dmc_bytes_remaining == 0 {
            if self.dmc_format & 0x40 != 0 {
                self.dmc_init_sample();
            } else if self.dmc_format & 0x80 != 0 {
                interrupt.set_irq_source(IrqSource::Dmc);
            }
        }
    }

    /// The DMC after a fetched byte fills its buffer: the address advances
    /// (`$FFFF` wraps to `$8000`) and the count drops, a looping sample
    /// restarting at its end.
    pub open spec fn delivered(self, value: u8) -> Apu {
        let next = if self.dmc_current_addr == 0xffff { 0x8000u16 } else { (self.dmc_current_addr + 1) as u16 };
        let left = (self.dmc_bytes_remaining - 1) as u16;
        let looped = left == 0 && self.dmc_format & 0x40 != 0;
        Apu {
            dmc_read_buffer: value,
            dmc_buffer_empty: false,
            dmc_current_addr: if looped { self.dmc_sample_addr } else { next },
            dmc_bytes_remaining: if looped { self.dmc_sample_length } else { left },
            dmc_need_to_run: if looped { self.dmc_need_to_run || self.dmc_sample_length > 0 } else { self.dmc_need_to_run },
            ..self
        }
    }

    /// A one-byte, non-looping sample delivered with one bit left and the
    /// timer about to expire: the byte goes straight to the shift register,
    /// the sample restarts, and a stop is scheduled three cycles later.
    pub open spec fn duplication_timed(self) -> Apu {
        if self.dmc_sample_length == 1 && self.dmc_format & 0x40 == 0 && self.dmc_bits_remaining == 1 && self.dmc_timer < 2 {
            Apu {
                dmc_shift_reg: self.dmc_read_buffer,
                dmc_buffer_empty: false,
                dmc_current_addr: self.dmc_sample_addr,
                dmc_bytes_remaining: 1,
                dmc_need_to_run: true,
                dmc_disable_delay: 3,
                ..self
            }
        } else {
            self
        }
    }

    /// The frame IRQ flag a `$4015` read sees: a set flag schedules its
    /// clear one or two cycles later (by parity) and drops once that cycle
    /// is reached.
    #[verifier::spinoff_prover]
    fn read_frame_irq_status(&mut self) -> (r: bool)
        ensures
            ({
                let a = *old(self);
                let clear_at = if a.cycles % 2 != 0 { (a.cycles + 2) % 0x1_0000_0000_0000_0000 } else {
                    (a.cycles + 1) % 0x1_0000_0000_0000_0000
                };
                *final(self) == (if !a.frame_irq_flag {
                    a
                } else if a.frame_irq_clear_clock == 0 {
                    Apu { frame_irq_clear_clock: clear_at as u64, ..a }
                } else if a.cycles >= a.frame_irq_clear_clock {
                    Apu { frame_irq_clear_clock: 0, frame_irq_flag: false, ..a }
                } else {
                    a
                })
            }),
            r == final(self).frame_irq_flag,
    {
        if self.frame_irq_flag {
            if self.frame_irq_clear_clock == 0 {
                let c = self.cycles;
                assert((c & 0x01 != 0) == (c % 2 != 0)) by (bit_vector);
                self.frame_irq_clear_clock = self.cycles.wrapping_add(if self.cycles & 0x01 != 0 { 2 } else { 1 });
            } else if self.cycles >= self.frame_irq_clear_clock {
                self.frame_irq_clear_clock = 0;
                self.frame_irq_flag = false;
            }
        }
        self.frame_irq_flag
    }
}

/// What catching up leaves alone: the clocks, region, register file,
/// IRQ inhibit, DMC configuration, sample cursor and delays, and the host
/// side.
pub open spec fn run_keeps(a: Apu, b: Apu) -> bool {
    &&& b.cycles == a.cycles && b.master_clock == a.master_clock
    &&& b.master_clock_divider == a.master_clock_divider && b.region == a.region
    &&& b.registers == a.registers && b.frame_inhibit_irq == a.frame_inhibit_irq
    &&& b.dmc_format == a.dmc_format && b.dmc_load_addr == a.dmc_load_addr
    &&& b.dmc_load_length == a.dmc_load_length && b.dmc_sample_addr == a.dmc_sample_addr
    &&& b.dmc_sample_length == a.dmc_sample_length && b.dmc_current_addr == a.dmc_current_addr
    &&& b.dmc_bytes_remaining == a.dmc_bytes_remaining && b.dmc_period == a.dmc_period
    &&& b.dmc_transfer_start_delay == a.dmc_transfer_start_delay && b.dmc_disable_delay == a.dmc_disable_delay
    &&& b.apu_phase == a.apu_phase && b.sample_phase == a.sample_phase
    &&& b.filter_state == a.filter_state && b.audio_enabled == a.audio_enabled
}

/// `$4015` status bits: length counters running (bits 0..3), DMC bytes
/// left (bit 4), frame IRQ (bit 6), DMC IRQ (bit 7).
pub open spec fn status_bits(a: Apu, irq: u8) -> u8 {
    (if a.pulse1.length > 0 { 0x01u8 } else { 0u8 }) | (if a.pulse2.length > 0 { 0x02u8 } else { 0u8 }) | (if a.triangle.length
        > 0 {
        0x04u8
    } else {
        0u8
    }) | (if a.noise.length > 0 { 0x08u8 } else { 0u8 }) | (if a.dmc_bytes_remaining != 0 { 0x10u8 } else { 0u8 }) | (
    if a.frame_irq_flag {
        0x40u8
    } else {
        0u8
    }) | (if irq & irq_bit(IrqSource::Dmc) != 0 { 0x80u8 } else { 0u8 })
}

impl Apu {
    /// Whether a channel's length reload or halt change is still queued.
    #[verifier::spinoff_prover]
    fn has_pending_length_state(&self) -> (r: bool)
        ensures
            r == (self.pulse1.length_reload_value != 0 || self.pulse1.length_halt != self.pulse1.new_length_halt
                || self.pulse2.length_reload_value != 0 || self.pulse2.length_halt != self.pulse2.new_length_halt
                || self.triangle.length_reload_value != 0 || self.triangle.length_halt != self.triangle.new_length_halt
                || self.noise.length_reload_value != 0 || self.noise.length_halt != self.noise.new_length_halt),
    {
        self.pulse1.has_pending_reload() || self.pulse2.has_pending_reload() || self.triangle.has_pending_reload()
            || self.noise.has_pending_reload()
    }

    /// Whether the frame counter must run within `cycles_to_run` cycles: a
    /// pending `$4017` write, an open tick block, or the next step due.
    #[verifier::spinoff_prover]
    fn frame_counter_need_to_run(&self, cycles_to_run: i32) -> (r: bool)
        requires
            self.wf(),
            0 <= cycles_to_run <= 0x7ffe_0000,
        ensures
            r == (self.frame_new_value >= 0 || self.frame_block_tick > 0 || self.frame_previous_cycle + cycles_to_run
                >= frame_step_cycle(self.region == Region::Pal, self.frame_step_mode as int, self.frame_current_step as int)
                - 1),
    {
        if self.frame_new_value >= 0 || self.frame_block_tick > 0 {
            return true;
        }
        let table = self.step_cycles_table();
        let next = table[self.frame_step_mode as usize][self.frame_current_step as usize];
        self.frame_previous_cycle + cycles_to_run >= next - 1
    }

    /// Whether an enabled DMC IRQ would fire within `cycles_to_run` cycles.
    #[verifier::spinoff_prover]
    fn dmc_irq_pending(&self, cycles_to_run: i32) -> (r: bool)
        ensures
            r == (self.dmc_format & 0x80 != 0 && self.dmc_bytes_remaining != 0 && cycles_to_run >= (self.dmc_bits_remaining
                + (self.dmc_bytes_remaining - 1) * 8) * (self.dmc_period + 1)),
    {
        if (self.dmc_format & 0x80) == 0 || self.dmc_bytes_remaining == 0 {
            return false;
        }
        let bits = self.dmc_bits_remaining as i64;
        let bytes = self.dmc_bytes_remaining as i64;
        let period = self.dmc_period as i64 + 1;
        assert(0 <= bits + (bytes - 1) * 8 <= 600000);
        assert((bits + (bytes - 1) * 8) * period <= 600000 * 0x1_0000_0001) by (nonlinear_arith)
            requires
                0 <= bits + (bytes - 1) * 8 <= 600000,
                0 < period <= 0x1_0000_0000,
        ;
        let cycles_to_empty = (bits + (bytes - 1) * 8) * period;
        cycles_to_run as i64 >= cycles_to_empty
    }

    /// Whether anything is due by CPU cycle `target`.
    #[verifier::spinoff_prover]
    fn need_to_run(&self, target: u64) -> (r: bool)
        requires
            self.wf(),
            target <= self.previous_cycle + 0x7ffe_0000,
        ensures
            ({
                let c = if target > self.previous_cycle { (target - self.previous_cycle) as i32 } else { 0i32 };
                r == (self.dmc_need_to_run || self.pulse1.length_reload_value != 0
                    || self.pulse1.length_halt != self.pulse1.new_length_halt || self.pulse2.length_reload_value != 0
                    || self.pulse2.length_halt != self.pulse2.new_length_halt || self.triangle.length_reload_value != 0
                    || self.triangle.length_halt != self.triangle.new_length_halt || self.noise.length_reload_value != 0
                    || self.noise.length_halt != self.noise.new_length_halt || self.frame_new_value >= 0
                    || self.frame_block_tick > 0 || self.frame_previous_cycle + c >= frame_step_cycle(
                    self.region == Region::Pal,
                    self.frame_step_mode as int,
                    self.frame_current_step as int,
                ) - 1 || (self.dmc_format & 0x80 != 0 && self.dmc_bytes_remaining != 0 && c >= (self.dmc_bits_remaining
                    + (self.dmc_bytes_remaining - 1) * 8) * (self.dmc_period + 1)))
            }),
    {
        if self.dmc_need_to_run {
            return true;
        }
        if self.has_pending_length_state() {
            return true;
        }
        let delta: i32 = if target > self.previous_cycle { (target - self.previous_cycle) as i32 } else { 0 };
        if self.frame_counter_need_to_run(delta) {
            return true;
        }
        if self.dmc_irq_pending(delta) {
            return true;
        }
        false
    }

    #[verifier::spinoff_prover]
    fn reload_length_counters(&mut self)
        requires
            old(self).wf(),
        ensures
            *final(self) == (Apu {
                pulse1: old(self).pulse1.length_reloaded(),
                pulse2: old(self).pulse2.length_reloaded(),
                noise: old(self).noise.length_reloaded(),
                triangle: old(self).triangle.length_reloaded(),
                ..*old(self)
            }),
            final(self).wf(),
    {
        let mut p1 = self.pulse1;
        p1.reload_length_counter();
        let mut p2 = self.pulse2;
        p2.reload_length_counter();
        let mut n = self.noise;
        n.reload_length_counter();
        let mut t = self.triangle;
        t.reload_length_counter();
        self.pulse1 = p1;
        self.pulse2 = p2;
        self.noise = n;
        self.triangle = t;
    }

    /// Catch up to CPU cycle `target`: frame-counter steps, the length
    /// reloads after each, and one DMC timer step per cycle.
    #[verifier::spinoff_prover]
    #[verifier::rlimit(60)]
    pub fn run(&mut self, target: u64, interrupt: &mut InterruptLines)
        requires
            old(self).wf(),
            target <= old(self).previous_cycle + 0x7ffe_0000,
        ensures
            final(self).wf(),
            target <= old(self).previous_cycle ==> *final(self) == *old(self) && *final(interrupt) == *old(interrupt),
            target > old(self).previous_cycle ==> final(self).previous_cycle == target,
            run_keeps(*old(self), *final(self)),
            final(interrupt).nmi_flag == old(interrupt).nmi_flag,
            final(interrupt).dmc_dma_stop == old(interrupt).dmc_dma_stop,
    {
        if target <= self.previous_cycle {
            return;
        }
        let delta = target - self.previous_cycle;
        let mut cycles_to_run = delta as i32;
        let ghost a0 = *self;
        let ghost i0 = *interrupt;
        while cycles_to_run > 0
            invariant
                self.wf(),
                0 <= cycles_to_run <= delta <= 0x7ffe_0000,
                self.previous_cycle + cycles_to_run == target,
                run_keeps(a0, *self),
                interrupt.nmi_flag == i0.nmi_flag,
                interrupt.dmc_dma_stop == i0.dmc_dma_stop,
            decreases fc_measure(*self, cycles_to_run),
        {
            let ghost before = *self;
            let ghost c_before = cycles_to_run;
            let cycles_ran = self.run_frame_counter_step(&mut cycles_to_run, interrupt);
            let ghost stepped = *self;
            self.previous_cycle = self.previous_cycle + cycles_ran as u64;
            self.reload_length_counters();
            let mut k: u32 = 0;
            while k < cycles_ran
                invariant
                    self.wf(),
                    k <= cycles_ran,
                    self.previous_cycle + cycles_to_run == target,
                    run_keeps(a0, *self),
                    interrupt.nmi_flag == i0.nmi_flag,
                    interrupt.dmc_dma_stop == i0.dmc_dma_stop,
                    self.frame_current_step == stepped.frame_current_step,
                    self.frame_previous_cycle == stepped.frame_previous_cycle,
                    self.frame_new_value == stepped.frame_new_value,
                decreases cycles_ran - k,
            {
                self.run_dmc_timer_step(interrupt);
                k += 1;
            }
        }
    }

    /// Advance one CPU cycle: the cycle and master clocks tick, the DMC
    /// delays run, and the unit catches up when anything is due.
    #[verifier::spinoff_prover]
    pub fn process_cpu_clock(&mut self, interrupt: &mut InterruptLines)
        requires
            old(self).wf(),
            old(self).cycles < old(self).previous_cycle + 0x7ffe_0000,
        ensures
            final(self).wf(),
            final(self).cycles == (old(self).cycles + 1) % 0x1_0000_0000_0000_0000,
            final(self).master_clock == (old(self).master_clock + old(self).master_clock_divider) % 0x1_0000_0000_0000_0000,
            final(self).previous_cycle == old(self).previous_cycle || final(self).previous_cycle == final(self).cycles,
            final(self).region == old(self).region && final(self).registers == old(self).registers,
            final(interrupt).nmi_flag == old(interrupt).nmi_flag,
    {
        self.cycles = self.cycles.wrapping_add(1);
        self.master_clock = self.master_clock.wrapping_add(self.master_clock_divider);
        self.dmc_process_clock(interrupt);
        if self.need_to_run(self.cycles) {
            self.run(self.cycles, interrupt);
        }
    }

    /// Flush the lazy state and restart the per-frame cycle origin.
    #[verifier::spinoff_prover]
    pub fn end_frame(&mut self, interrupt: &mut InterruptLines)
        requires
            old(self).wf(),
            old(self).cycles <= old(self).previous_cycle + 0x7ffe_0000,
        ensures
            final(self).wf(),
            final(self).cycles == 0 && final(self).previous_cycle == 0,
            final(self).master_clock == 0 && final(self).frame_irq_clear_clock == 0,
            final(self).region == old(self).region && final(self).registers == old(self).registers,
            final(interrupt).nmi_flag == old(interrupt).nmi_flag,
    {
        self.run(self.cycles, interrupt);
        self.cycles = 0;
        self.previous_cycle = 0;
        self.master_clock = 0;
        self.frame_irq_clear_clock = 0;
    }

    /// CPU write to `$4000..$4017` after catching up: the register file
    /// records it and the channel, status or frame-counter write applies.
    #[verifier::spinoff_prover]
    pub fn cpu_write_with_cycle(&mut self, addr: u16, value: u8, cpu_cycle_count: u64, interrupt: &mut InterruptLines)
        requires
            old(self).wf(),
            old(self).cycles <= old(self).previous_cycle + 0x7ffe_0000,
        ensures
            final(self).wf(),
            final(self).cycles == old(self).cycles && final(self).region == old(self).region,
            0x4000 <= addr <= 0x4013 ==> final(self).registers@ == old(self).registers@.update(addr - 0x4000, value),
            addr == 0x4015 ==> final(self).registers@ == old(self).registers@.update(0x15, value & 0x1f),
            addr == 0x4017 ==> final(self).registers@ == old(self).registers@.update(0x17, value),
            !(0x4000 <= addr <= 0x4013 || addr == 0x4015 || addr == 0x4017) ==> final(self).registers == old(self).registers,
            addr == 0x4010 ==> final(self).dmc_format == value && final(self).dmc_period == (dmc_period_table(
                old(self).region == Region::Pal,
            )[(value & 0x0f) as int] - 1) as u32,
            addr == 0x4011 ==> final(self).dmc_dac == value & 0x7f,
            addr == 0x4012 ==> final(self).dmc_load_addr == value && final(self).dmc_sample_addr == 0xc000u16 | ((
            value as u16) << 6u16),
            addr == 0x4013 ==> final(self).dmc_load_length == value && final(self).dmc_sample_length == ((value as u16)
                << 4u16) | 1u16,
            addr == 0x4015 ==> final(self).pulse1.enabled == (value & 0x01 != 0) && final(self).pulse2.enabled == (value
                & 0x02 != 0) && final(self).triangle.enabled == (value & 0x04 != 0) && final(self).noise.enabled == (
            value & 0x08 != 0),
            addr == 0x4017 ==> final(self).frame_new_value == value as i16 && final(self).frame_write_delay == (if cpu_cycle_count
                % 2 != 0 {
                4i8
            } else {
                3i8
            }) && final(self).frame_inhibit_irq == (value & 0x40 != 0),
            addr == 0x4017 && value & 0x40 != 0 ==> !final(self).frame_irq_flag,
            final(interrupt).nmi_flag == old(interrupt).nmi_flag,
    {
        let c = self.cycles;
        self.run(c, interrupt);
        if 0x4000 <= addr && addr <= 0x4013 {
            self.registers[(addr - 0x4000) as usize] = value;
            proof {
                crate::bits::lemma_u16_bits();
            }
            self.write_channel(addr & 0x1f, value, interrupt);
            assert(addr & 0x1f == addr - 0x4000) by (bit_vector)
                requires
                    0x4000 <= addr <= 0x4013,
            ;
        } else if addr == 0x4015 {
            self.registers[0x15] = value & 0x1f;
            self.write_status(value, cpu_cycle_count, interrupt);
        } else if addr == 0x4017 {
            self.registers[0x17] = value;
            self.write_frame_counter(value, cpu_cycle_count, interrupt);
        }
    }

    /// CPU read after catching up: `$4015` reports the status bits (bit 5
    /// from the open bus), clears the frame IRQ line and may drop the frame
    /// IRQ flag; any other address reads the open bus.
    #[verifier::spinoff_prover]
    pub fn cpu_read_open_bus(&mut self, addr: u16, open_bus: u8, interrupt: &mut InterruptLines) -> (r: u8)
        requires
            old(self).wf(),
            old(self).cycles <= old(self).previous_cycle + 0x7ffe_0000,
        ensures
            final(self).wf(),
            addr != 0x4015 ==> r == open_bus,
            addr == 0x4015 ==> r == status_bits(*final(self), final(interrupt).irq_flag) | (open_bus & 0x20),
            addr == 0x4015 ==> final(interrupt).irq_flag & irq_bit(IrqSource::FrameCounter) == 0,
            final(self).cycles == old(self).cycles && final(self).registers == old(self).registers,
            final(interrupt).nmi_flag == old(interrupt).nmi_flag,
    {
        let c = self.cycles;
        self.run(c, interrupt);
        if addr == 0x4015 {
            let frame_irq = self.read_frame_irq_status();
            let dmc_irq = interrupt.has_irq_source(IrqSource::Dmc);
            interrupt.clear_irq_source(IrqSource::FrameCounter);
            let fi = interrupt.irq_flag;
            proof {
                crate::bits::lemma_u8_bits();
            }
            assert(((fi & 0x04) != 0) == dmc_irq);
            let ret: u8 = (if self.pulse1.length > 0 { 0x01u8 } else { 0u8 }) | (if self.pulse2.length > 0 { 0x02u8 } else { 0u8 })
                | (if self.triangle.length > 0 { 0x04u8 } else { 0u8 }) | (if self.noise.length > 0 { 0x08u8 } else { 0u8 })
                | (if self.dmc_bytes_remaining != 0 { 0x10u8 } else { 0u8 }) | (if frame_irq { 0x40u8 } else { 0u8 }) | (
            if dmc_irq {
                0x80u8
            } else {
                0u8
            });
            ret | (open_bus & 0x20)
        } else {
            open_bus
        }
    }
}

/// Length of an audio-unit snapshot in bytes.
pub const APU_SNAPSHOT_LEN: usize = 202;

impl Apu {
    /// Clocks, register file and frame counter (76 bytes).
    #[verifier::opaque]
    pub open spec fn snap_frame(self) -> Seq<u8> {
        u64_bytes(self.cycles) + u64_bytes(self.previous_cycle) + self.registers@ + u32_bytes(
            self.frame_previous_cycle as u32,
        ) + seq![self.frame_current_step, self.frame_step_mode, b2u(self.frame_inhibit_irq), self.frame_block_tick]
            + u16_bytes(self.frame_new_value as u16) + seq![self.frame_write_delay as u8, b2u(self.frame_irq_flag)]
            + u64_bytes(self.frame_irq_clear_clock) + u64_bytes(self.master_clock) + u64_bytes(self.master_clock_divider)
    }

    /// DMC state (28 bytes).
    #[verifier::opaque]
    pub open spec fn snap_dmc(self) -> Seq<u8> {
        seq![self.dmc_format, self.dmc_load_addr, self.dmc_load_length] + u16_bytes(self.dmc_sample_addr) + u16_bytes(
            self.dmc_sample_length,
        ) + u16_bytes(self.dmc_current_addr) + u16_bytes(self.dmc_bytes_remaining) + u32_bytes(self.dmc_period)
            + u32_bytes(self.dmc_timer) + seq![
            self.dmc_bits_remaining,
            b2u(self.dmc_buffer_empty),
            self.dmc_read_buffer,
            b2u(self.dmc_silence_flag),
            self.dmc_dac,
            self.dmc_shift_reg,
            self.dmc_transfer_start_delay,
            self.dmc_disable_delay,
            b2u(self.dmc_need_to_run),
        ]
    }

    /// The four channels (81 bytes).
    #[verifier::opaque]
    pub open spec fn snap_channels(self) -> Seq<u8> {
        self.pulse1.snapshot_spec() + self.pulse2.snapshot_spec() + self.triangle.snapshot_spec()
            + self.noise.snapshot_spec()
    }

    /// Mixer phase and output filter (17 bytes).
    #[verifier::opaque]
    pub open spec fn snap_output(self) -> Seq<u8> {
        seq![self.apu_phase] + u32_bytes(self.sample_phase) + self.filter_state@
    }

    /// The whole snapshot image.
    pub open spec fn snapshot_spec(self) -> Seq<u8> {
        self.snap_frame() + self.snap_dmc() + self.snap_channels() + self.snap_output()
    }

    /// Every field a snapshot image carries, read from `b`: the clocks,
    /// register file and frame counter, the DMC, the channels (the
    /// triangle's held output aside), the mixer phase and filter state.
    pub open spec fn decodes(self, b: Seq<u8>) -> bool {
        &&& self.cycles == u64_at(b, 0) && self.previous_cycle == u64_at(b, 8)
        &&& self.registers@ == b.subrange(16, 40)
        &&& self.frame_previous_cycle == u32_at(b, 40) as i32
        &&& self.frame_current_step == b[44] && self.frame_step_mode == b[45]
        &&& self.frame_inhibit_irq == (b[46] != 0) && self.frame_block_tick == b[47]
        &&& self.frame_new_value == u16_at(b, 48) as i16 && self.frame_write_delay == b[50] as i8
        &&& self.frame_irq_flag == (b[51] != 0) && self.frame_irq_clear_clock == u64_at(b, 52)
        &&& self.master_clock == u64_at(b, 60) && self.master_clock_divider == u64_at(b, 68)
        &&& self.dmc_format == b[76] && self.dmc_load_addr == b[77] && self.dmc_load_length == b[78]
        &&& self.dmc_sample_addr == u16_at(b, 79) && self.dmc_sample_length == u16_at(b, 81)
        &&& self.dmc_current_addr == u16_at(b, 83) && self.dmc_bytes_remaining == u16_at(b, 85)
        &&& self.dmc_period == u32_at(b, 87) && self.dmc_timer == u32_at(b, 91)
        &&& self.dmc_bits_remaining == b[95] && self.dmc_buffer_empty == (b[96] != 0)
        &&& self.dmc_read_buffer == b[97] && self.dmc_silence_flag == (b[98] != 0)
        &&& self.dmc_dac == b[99] && self.dmc_shift_reg == b[100]
        &&& self.dmc_transfer_start_delay == b[101] && self.dmc_disable_delay == b[102]
        &&& self.dmc_need_to_run == (b[103] != 0)
        &&& self.pulse1 == Pulse::decoded(b, 104) && self.pulse2 == Pulse::decoded(b, 128)
        &&& self.triangle == Triangle::decoded(b, 152, self.triangle.last_output)
        &&& self.noise == Noise::decoded(b, 167)
        &&& self.apu_phase == b[185] && self.sample_phase == u32_at(b, 186)
        &&& self.filter_state@ == b.subrange(190, 202)
    }

    /// Serialize the unit (everything but the host audio toggle and the
    /// triangle's held output).
    #[verifier::spinoff_prover]
    pub fn snapshot_bytes(&self) -> (r: Vec<u8>)
        ensures
            r@ == self.snapshot_spec(),
            r@.len() == APU_SNAPSHOT_LEN,
    {
        let mut bytes: Vec<u8> = Vec::with_capacity(APU_SNAPSHOT_LEN);
        self.push_frame(&mut bytes);
        self.push_dmc(&mut bytes);
        self.push_channels(&mut bytes);
        self.push_output(&mut bytes);
        assert(bytes@ =~= self.snapshot_spec());
        proof {
            lemma_apu_snapshot_len(*self);
        }
        bytes
    }

    #[verifier::spinoff_prover]
    fn push_channels(&self, bytes: &mut Vec<u8>)
        ensures
            final(bytes)@ == old(bytes)@ + self.snap_channels(),
    {
        reveal(Apu::snap_channels);
        let ghost start = bytes@;
        self.pulse1.snapshot_bytes(bytes);
        self.pulse2.snapshot_bytes(bytes);
        self.triangle.snapshot_bytes(bytes);
        self.noise.snapshot_bytes(bytes);
        assert(bytes@ =~= start + self.snap_channels());
    }

    #[verifier::spinoff_prover]
    fn push_output(&self, bytes: &mut Vec<u8>)
        ensures
            final(bytes)@ == old(bytes)@ + self.snap_output(),
    {
        reveal(Apu::snap_output);
        let ghost start = bytes@;
        bytes.push(self.apu_phase);
        push_u32(bytes, self.sample_phase);
        push_array(bytes, &self.filter_state);
        assert(bytes@ =~= start + self.snap_output());
    }

    #[verifier::spinoff_prover]
    fn push_frame(&self, bytes: &mut Vec<u8>)
        ensures
            final(bytes)@ == old(bytes)@ + self.snap_frame(),
    {
        reveal(Apu::snap_frame);
        let ghost start = bytes@;
        push_u64(bytes, self.cycles);
        push_u64(bytes, self.previous_cycle);
        push_array(bytes, &self.registers);
        push_u32(bytes, self.frame_previous_cycle as u32);
        bytes.push(self.frame_current_step);
        bytes.push(self.frame_step_mode);
        bytes.push(if self.frame_inhibit_irq { 1u8 } else { 0u8 });
        bytes.push(self.frame_block_tick);
        push_u16(bytes, self.frame_new_value as u16);
        bytes.push(self.frame_write_delay as u8);
        bytes.push(if self.frame_irq_flag { 1u8 } else { 0u8 });
        push_u64(bytes, self.frame_irq_clear_clock);
        push_u64(bytes, self.master_clock);
        push_u64(bytes, self.master_clock_divider);
        assert(bytes@ =~= start + self.snap_frame());
    }

    #[verifier::spinoff_prover]
    fn push_dmc(&self, bytes: &mut Vec<u8>)
        ensures
            final(bytes)@ == old(bytes)@ + self.snap_dmc(),
    {
        reveal(Apu::snap_dmc);
        let ghost start = bytes@;
        bytes.push(self.dmc_format);
        bytes.push(self.dmc_load_addr);
        bytes.push(self.dmc_load_length);
        push_u16(bytes, self.dmc_sample_addr);
        push_u16(bytes, self.dmc_sample_length);
        push_u16(bytes, self.dmc_current_addr);
        push_u16(bytes, self.dmc_bytes_remaining);
        push_u32(bytes, self.dmc_period);
        push_u32(bytes, self.dmc_timer);
        bytes.push(self.dmc_bits_remaining);
        bytes.push(if self.dmc_buffer_empty { 1u8 } else { 0u8 });
        bytes.push(self.dmc_read_buffer);
        bytes.push(if self.dmc_silence_flag { 1u8 } else { 0u8 });
        bytes.push(self.dmc_dac);
        bytes.push(self.dmc_shift_reg);
        bytes.push(self.dmc_transfer_start_delay);
        bytes.push(self.dmc_disable_delay);
        bytes.push(if self.dmc_need_to_run { 1u8 } else { 0u8 });
        assert(bytes@ =~= start + self.snap_dmc());
    }

    /// Load a snapshot image of exactly `APU_SNAPSHOT_LEN` bytes; any other
    /// length is refused and leaves the unit as it was. The region, the
    /// triangle's held output and the host audio toggle stay.
    #[verifier::spinoff_prover]
    pub fn restore_snapshot(&mut self, bytes: &[u8]) -> (r: Result<()>)
        ensures
            r is Ok <==> bytes@.len() == APU_SNAPSHOT_LEN,
            r is Ok ==> final(self).decodes(bytes@),
            r is Ok ==> final(self).region == old(self).region && final(self).audio_enabled == old(self).audio_enabled,
            r is Ok ==> final(self).triangle.last_output == old(self).triangle.last_output,
            r is Err ==> *final(self) == *old(self) && r matches Err(NesleError::InvalidState(_)),
    {
        if bytes.len() != APU_SNAPSHOT_LEN {
            return Err(state_error_with("APU snapshot length must be 202 bytes, got ", usize_to_decimal(bytes.len()).as_str()));
        }
        self.restore_frame(bytes);
        self.restore_dmc(bytes);
        let mut off: usize = 104;
        let mut p1 = self.pulse1;
        p1.restore_snapshot(bytes, &mut off);
        let mut p2 = self.pulse2;
        p2.restore_snapshot(bytes, &mut off);
        let mut t = self.triangle;
        t.restore_snapshot(bytes, &mut off);
        let mut n = self.noise;
        n.restore_snapshot(bytes, &mut off);
        self.pulse1 = p1;
        self.pulse2 = p2;
        self.triangle = t;
        self.noise = n;
        self.apu_phase = bytes[185];
        self.sample_phase = read_u32(bytes, 186);
        let mut filter = [0u8; 12];
        fill_from(&mut filter, bytes, 190);
        self.filter_state = filter;
        Ok(())
    }

    #[verifier::spinoff_prover]
    fn restore_frame(&mut self, b: &[u8])
        requires
            b@.len() == APU_SNAPSHOT_LEN,
        ensures
            *final(self) == (Apu {
                cycles: u64_at(b@, 0),
                previous_cycle: u64_at(b@, 8),
                registers: final(self).registers,
                frame_previous_cycle: u32_at(b@, 40) as i32,
                frame_current_step: b@[44],
                frame_step_mode: b@[45],
                frame_inhibit_irq: b@[46] != 0,
                frame_block_tick: b@[47],
                frame_new_value: u16_at(b@, 48) as i16,
                frame_write_delay: b@[50] as i8,
                frame_irq_flag: b@[51] != 0,
                frame_irq_clear_clock: u64_at(b@, 52),
                master_clock: u64_at(b@, 60),
                master_clock_divider: u64_at(b@, 68),
                ..*old(self)
            }),
            final(self).registers@ == b@.subrange(16, 40),
    {
        let mut regs = [0u8; 0x18];
        fill_from(&mut regs, b, 16);
        self.cycles = read_u64(b, 0);
        self.previous_cycle = read_u64(b, 8);
        self.registers = regs;
        self.frame_previous_cycle = read_u32(b, 40) as i32;
        self.frame_current_step = b[44];
        self.frame_step_mode = b[45];
        self.frame_inhibit_irq = b[46] != 0;
        self.frame_block_tick = b[47];
        self.frame_new_value = read_u16(b, 48) as i16;
        self.frame_write_delay = b[50] as i8;
        self.frame_irq_flag = b[51] != 0;
        self.frame_irq_clear_clock = read_u64(b, 52);
        self.master_clock = read_u64(b, 60);
        self.master_clock_divider = read_u64(b, 68);
    }

    #[verifier::spinoff_prover]
    fn restore_dmc(&mut self, b: &[u8])
        requires
            b@.len() == APU_SNAPSHOT_LEN,
        ensures
            *final(self) == (Apu {
                dmc_format: b@[76],
                dmc_load_addr: b@[77],
                dmc_load_length: b@[78],
                dmc_sample_addr: u16_at(b@, 79),
                dmc_sample_length: u16_at(b@, 81),
                dmc_current_addr: u16_at(b@, 83),
                dmc_bytes_remaining: u16_at(b@, 85),
                dmc_period: u32_at(b@, 87),
                dmc_timer: u32_at(b@, 91),
                dmc_bits_remaining: b@[95],
                dmc_buffer_empty: b@[96] != 0,
                dmc_read_buffer: b@[97],
                dmc_silence_flag: b@[98] != 0,
                dmc_dac: b@[99],
                dmc_shift_reg: b@[100],
                dmc_transfer_start_delay: b@[101],
                dmc_disable_delay: b@[102],
                dmc_need_to_run: b@[103] != 0,
                ..*old(self)
            }),
    {
        self.dmc_format = b[76];
        self.dmc_load_addr = b[77];
        self.dmc_load_length = b[78];
        self.dmc_sample_addr = read_u16(b, 79);
        self.dmc_sample_length = read_u16(b, 81);
        self.dmc_current_addr = read_u16(b, 83);
        self.dmc_bytes_remaining = read_u16(b, 85);
        self.dmc_period = read_u32(b, 87);
        self.dmc_timer = read_u32(b, 91);
        self.dmc_bits_remaining = b[95];
        self.dmc_buffer_empty = b[96] != 0;
        self.dmc_read_buffer = b[97];
        self.dmc_silence_flag = b[98] != 0;
        self.dmc_dac = b[99];
        self.dmc_shift_reg = b[100];
        self.dmc_transfer_start_delay = b[101];
        self.dmc_disable_delay = b[102];
        self.dmc_need_to_run = b[103] != 0;
    }
}

/// A snapshot image is `APU_SNAPSHOT_LEN` bytes.
#[verifier::spinoff_prover]
#[verifier::rlimit(50)]
proof fn lemma_apu_snapshot_len(a: Apu)
    ensures
        a.snap_frame().len() == 76,
        a.snap_dmc().len() == 28,
        a.snap_channels().len() == 81,
        a.snap_output().len() == 17,
        a.snapshot_spec().len() == APU_SNAPSHOT_LEN,
{
    reveal(Apu::snap_frame);
    reveal(Apu::snap_dmc);
    reveal(Apu::snap_channels);
    reveal(Apu::snap_output);
}

impl Apu {
    /// Every field a snapshot carries agrees: all but the region, the
    /// triangle's held output and the host audio toggle.
    pub open spec fn snapshot_fields_eq(self, o: Apu) -> bool {
        &&& self.cycles == o.cycles && self.previous_cycle == o.previous_cycle
        &&& self.master_clock == o.master_clock && self.master_clock_divider == o.master_clock_divider
        &&& self.registers@ == o.registers@
        &&& self.frame_previous_cycle == o.frame_previous_cycle && self.frame_current_step == o.frame_current_step
        &&& self.frame_step_mode == o.frame_step_mode && self.frame_inhibit_irq == o.frame_inhibit_irq
        &&& self.frame_block_tick == o.frame_block_tick && self.frame_new_value == o.frame_new_value
        &&& self.frame_write_delay == o.frame_write_delay && self.frame_irq_flag == o.frame_irq_flag
        &&& self.frame_irq_clear_clock == o.frame_irq_clear_clock
        &&& self.dmc_format == o.dmc_format && self.dmc_load_addr == o.dmc_load_addr
        &&& self.dmc_load_length == o.dmc_load_length && self.dmc_sample_addr == o.dmc_sample_addr
        &&& self.dmc_sample_length == o.dmc_sample_length && self.dmc_current_addr == o.dmc_current_addr
        &&& self.dmc_bytes_remaining == o.dmc_bytes_remaining && self.dmc_period == o.dmc_period
        &&& self.dmc_timer == o.dmc_timer && self.dmc_bits_remaining == o.dmc_bits_remaining
        &&& self.dmc_buffer_empty == o.dmc_buffer_empty && self.dmc_read_buffer == o.dmc_read_buffer
        &&& self.dmc_silence_flag == o.dmc_silence_flag && self.dmc_dac == o.dmc_dac
        &&& self.dmc_shift_reg == o.dmc_shift_reg && self.dmc_transfer_start_delay == o.dmc_transfer_start_delay
        &&& self.dmc_disable_delay == o.dmc_disable_delay && self.dmc_need_to_run == o.dmc_need_to_run
        &&& self.pulse1 == o.pulse1 && self.pulse2 == o.pulse2 && self.noise == o.noise
        &&& self.triangle == (Triangle { last_output: self.triangle.last_output, ..o.triangle })
        &&& self.apu_phase == o.apu_phase && self.sample_phase == o.sample_phase
        &&& self.filter_state@ == o.filter_state@
    }
}

#[verifier::spinoff_prover]
#[verifier::rlimit(50)]
proof fn lemma_apu_frame_roundtrip(a: Apu, q: Apu)
    requires
        q.decodes(a.snapshot_spec()),
    ensures
        q.cycles == a.cycles && q.previous_cycle == a.previous_cycle,
        q.master_clock == a.master_clock && q.master_clock_divider == a.master_clock_divider,
        q.registers@ == a.registers@,
        q.frame_previous_cycle == a.frame_previous_cycle && q.frame_current_step == a.frame_current_step,
        q.frame_step_mode == a.frame_step_mode && q.frame_inhibit_irq == a.frame_inhibit_irq,
        q.frame_block_tick == a.frame_block_tick && q.frame_new_value == a.frame_new_value,
        q.frame_write_delay == a.frame_write_delay && q.frame_irq_flag == a.frame_irq_flag,
        q.frame_irq_clear_clock == a.frame_irq_clear_clock,
{
    let s = a.snapshot_spec();
    let f = a.snap_frame();
    lemma_apu_snapshot_len(a);
    reveal(Apu::snap_frame);
    assert(s.subrange(0, 76) =~= f);
    lemma_part_range(s, 0, f, 0, 8);
    assert(f.subrange(0, 8) =~= u64_bytes(a.cycles));
    lemma_u64_at_bytes(s, 0, a.cycles);
    lemma_part_range(s, 0, f, 8, 8);
    assert(f.subrange(8, 16) =~= u64_bytes(a.previous_cycle));
    lemma_u64_at_bytes(s, 8, a.previous_cycle);
    lemma_part_range(s, 0, f, 16, 24);
    assert(f.subrange(16, 40) =~= a.registers@);
    lemma_part_range(s, 0, f, 40, 4);
    assert(f.subrange(40, 44) =~= u32_bytes(a.frame_previous_cycle as u32));
    lemma_u32_at_bytes(s, 40, a.frame_previous_cycle as u32);
    lemma_part_range(s, 0, f, 48, 2);
    assert(f.subrange(48, 50) =~= u16_bytes(a.frame_new_value as u16));
    lemma_u16_at_bytes(s, 48, a.frame_new_value as u16);
    crate::bits::lemma_u16_bits();
    assert(((a.frame_new_value as u16) as i16) == a.frame_new_value);
    assert(((a.frame_previous_cycle as u32) as i32) == a.frame_previous_cycle);
    assert(((a.frame_write_delay as u8) as i8) == a.frame_write_delay);
    assert(f[44] == a.frame_current_step && f[45] == a.frame_step_mode && f[46] == b2u(a.frame_inhibit_irq));
    assert(f[47] == a.frame_block_tick && f[50] == a.frame_write_delay as u8 && f[51] == b2u(a.frame_irq_flag));
    lemma_part_range(s, 0, f, 52, 8);
    assert(f.subrange(52, 60) =~= u64_bytes(a.frame_irq_clear_clock));
    lemma_u64_at_bytes(s, 52, a.frame_irq_clear_clock);
    lemma_part_range(s, 0, f, 60, 8);
    assert(f.subrange(60, 68) =~= u64_bytes(a.master_clock));
    lemma_u64_at_bytes(s, 60, a.master_clock);
    lemma_part_range(s, 0, f, 68, 8);
    assert(f.subrange(68, 76) =~= u64_bytes(a.master_clock_divider));
    lemma_u64_at_bytes(s, 68, a.master_clock_divider);
}

#[verifier::spinoff_prover]
#[verifier::rlimit(50)]
proof fn lemma_apu_dmc_roundtrip(a: Apu, q: Apu)
    requires
        q.decodes(a.snapshot_spec()),
    ensures
        q.dmc_format == a.dmc_format && q.dmc_load_addr == a.dmc_load_addr,
        q.dmc_load_length == a.dmc_load_length && q.dmc_sample_addr == a.dmc_sample_addr,
        q.dmc_sample_length == a.dmc_sample_length && q.dmc_current_addr == a.dmc_current_addr,
        q.dmc_bytes_remaining == a.dmc_bytes_remaining && q.dmc_period == a.dmc_period,
        q.dmc_timer == a.dmc_timer && q.dmc_bits_remaining == a.dmc_bits_remaining,
        q.dmc_buffer_empty == a.dmc_buffer_empty && q.dmc_read_buffer == a.dmc_read_buffer,
        q.dmc_silence_flag == a.dmc_silence_flag && q.dmc_dac == a.dmc_dac,
        q.dmc_shift_reg == a.dmc_shift_reg && q.dmc_transfer_start_delay == a.dmc_transfer_start_delay,
        q.dmc_disable_delay == a.dmc_disable_delay && q.dmc_need_to_run == a.dmc_need_to_run,
{
    let s = a.snapshot_spec();
    let d = a.snap_dmc();
    lemma_apu_snapshot_len(a);
    reveal(Apu::snap_dmc);
    assert(s.subrange(76, 104) =~= d);
    assert(d[0] == a.dmc_format && d[1] == a.dmc_load_addr && d[2] == a.dmc_load_length);
    lemma_part_range(s, 76, d, 3, 2);
    assert(d.subrange(3, 5) =~= u16_bytes(a.dmc_sample_addr));
    lemma_u16_at_bytes(s, 79, a.dmc_sample_addr);
    lemma_part_range(s, 76, d, 5, 2);
    assert(d.subrange(5, 7) =~= u16_bytes(a.dmc_sample_length));
    lemma_u16_at_bytes(s, 81, a.dmc_sample_length);
    lemma_part_range(s, 76, d, 7, 2);
    assert(d.subrange(7, 9) =~= u16_bytes(a.dmc_current_addr));
    lemma_u16_at_bytes(s, 83, a.dmc_current_addr);
    lemma_part_range(s, 76, d, 9, 2);
    assert(d.subrange(9, 11) =~= u16_bytes(a.dmc_bytes_remaining));
    lemma_u16_at_bytes(s, 85, a.dmc_bytes_remaining);
    lemma_part_range(s, 76, d, 11, 4);
    assert(d.subrange(11, 15) =~= u32_bytes(a.dmc_period));
    lemma_u32_at_bytes(s, 87, a.dmc_period);
    lemma_part_range(s, 76, d, 15, 4);
    assert(d.subrange(15, 19) =~= u32_bytes(a.dmc_timer));
    lemma_u32_at_bytes(s, 91, a.dmc_timer);
    assert(d[19] == a.dmc_bits_remaining && d[20] == b2u(a.dmc_buffer_empty) && d[21] == a.dmc_read_buffer);
    assert(d[22] == b2u(a.dmc_silence_flag) && d[23] == a.dmc_dac && d[24] == a.dmc_shift_reg);
    assert(d[25] == a.dmc_transfer_start_delay && d[26] == a.dmc_disable_delay && d[27] == b2u(a.dmc_need_to_run));
}

/// Where the channels and the output part sit in a snapshot image.
#[verifier::spinoff_prover]
#[verifier::rlimit(50)]
proof fn lemma_apu_channel_layout(a: Apu)
    ensures
        a.snapshot_spec().subrange(104, 128) == a.pulse1.snapshot_spec(),
        a.snapshot_spec().subrange(128, 152) == a.pulse2.snapshot_spec(),
        a.snapshot_spec().subrange(152, 167) == a.triangle.snapshot_spec(),
        a.snapshot_spec().subrange(167, 185) == a.noise.snapshot_spec(),
        a.snapshot_spec().subrange(185, 202) == a.snap_output(),
        a.snapshot_spec().len() == 202,
{
    let s = a.snapshot_spec();
    let c = a.snap_channels();
    lemma_apu_snapshot_len(a);
    reveal(Apu::snap_channels);
    assert(s.subrange(104, 185) =~= c);
    assert(s.subrange(185, 202) =~= a.snap_output());
    let p1 = a.pulse1.snapshot_spec();
    let p2 = a.pulse2.snapshot_spec();
    let t = a.triangle.snapshot_spec();
    let n = a.noise.snapshot_spec();
    assert(p1.len() == 24 && p2.len() == 24 && t.len() == 15 && n.len() == 18);
    lemma_part_range(s, 104, c, 0, 24);
    assert(c.subrange(0, 24) =~= p1);
    lemma_part_range(s, 104, c, 24, 24);
    assert(c.subrange(24, 48) =~= p2);
    lemma_part_range(s, 104, c, 48, 15);
    assert(c.subrange(48, 63) =~= t);
    lemma_part_range(s, 104, c, 63, 18);
    assert(c.subrange(63, 81) =~= n);
}

/// A piece held at `s[k..]` splits `s` around it.
#[verifier::spinoff_prover]
proof fn lemma_split_at(s: Seq<u8>, k: int, piece: Seq<u8>)
    requires
        0 <= k,
        k + piece.len() <= s.len(),
        s.subrange(k, k + piece.len()) == piece,
    ensures
        s == s.subrange(0, k) + piece + s.subrange(k + piece.len(), s.len() as int),
{
    assert(s =~= s.subrange(0, k) + piece + s.subrange(k + piece.len(), s.len() as int));
}

#[verifier::spinoff_prover]
#[verifier::rlimit(50)]
proof fn lemma_apu_channels_roundtrip(a: Apu, q: Apu)
    requires
        q.decodes(a.snapshot_spec()),
    ensures
        q.pulse1 == a.pulse1 && q.pulse2 == a.pulse2 && q.noise == a.noise,
        q.triangle == (Triangle { last_output: q.triangle.last_output, ..a.triangle }),
{
    let s = a.snapshot_spec();
    lemma_apu_channel_layout(a);
    assert(a.pulse1.snapshot_spec().len() == 24 && a.triangle.snapshot_spec().len() == 15);
    assert(a.noise.snapshot_spec().len() == 18);
    lemma_split_at(s, 104, a.pulse1.snapshot_spec());
    super::lemma_pulse_snapshot_roundtrip(a.pulse1, s.subrange(0, 104), s.subrange(128, 202));
    lemma_split_at(s, 128, a.pulse2.snapshot_spec());
    super::lemma_pulse_snapshot_roundtrip(a.pulse2, s.subrange(0, 128), s.subrange(152, 202));
    lemma_split_at(s, 152, a.triangle.snapshot_spec());
    super::lemma_triangle_snapshot_roundtrip(a.triangle, s.subrange(0, 152), s.subrange(167, 202));
    lemma_split_at(s, 167, a.noise.snapshot_spec());
    super::lemma_noise_snapshot_roundtrip(a.noise, s.subrange(0, 167), s.subrange(185, 202));
}

#[verifier::spinoff_prover]
#[verifier::rlimit(50)]
proof fn lemma_apu_output_roundtrip(a: Apu, q: Apu)
    requires
        q.decodes(a.snapshot_spec()),
    ensures
        q.apu_phase == a.apu_phase && q.sample_phase == a.sample_phase,
        q.filter_state@ == a.filter_state@,
{
    let s = a.snapshot_spec();
    let o = a.snap_output();
    lemma_apu_channel_layout(a);
    reveal(Apu::snap_output);
    lemma_part_range(s, 185, o, 1, 4);
    assert(o.subrange(1, 5) =~= u32_bytes(a.sample_phase));
    lemma_u32_at_bytes(s, 186, a.sample_phase);
    lemma_part_range(s, 185, o, 5, 12);
    assert(o.subrange(5, 17) =~= a.filter_state@);
    assert(o[0] == a.apu_phase);
}

/// Save-state round trip: a unit that restores the snapshot of another
/// gets back every field the snapshot carries.
#[verifier::spinoff_prover]
pub proof fn lemma_apu_snapshot_roundtrip(a: Apu, q: Apu)
    requires
        q.decodes(a.snapshot_spec()),
    ensures
        q.snapshot_fields_eq(a),
{
    lemma_apu_frame_roundtrip(a, q);
    lemma_apu_dmc_roundtrip(a, q);
    lemma_apu_channels_roundtrip(a, q);
    lemma_apu_output_roundtrip(a, q);
}

impl Apu {
    /// Channel output levels `[pulse1, pulse2, triangle, noise, dmc]`.
    #[verifier::spinoff_prover]
    pub fn channel_outputs(&self) -> (r: [u8; 5])
        requires
            self.pulse1.wf() && self.pulse2.wf(),
        ensures
            r@ == seq![
                self.pulse1.output_level(),
                self.pulse2.output_level(),
                self.triangle.last_output,
                if !self.noise.enabled || self.noise.length == 0 || self.noise.lfsr & 1 != 0 {
                    0u8
                } else {
                    self.noise.envelope.output_value()
                },
                self.dmc_dac,
            ],
    {
        let r = [self.pulse1.output(), self.pulse2.output(), self.triangle.output(), self.noise.output(), self.dmc_dac];
        assert(r@ =~= seq![
            self.pulse1.output_level(),
            self.pulse2.output_level(),
            self.triangle.last_output,
            if !self.noise.enabled || self.noise.length == 0 || self.noise.lfsr & 1 != 0 {
                0u8
            } else {
                self.noise.envelope.output_value()
            },
            self.dmc_dac,
        ]);
        r
    }

    /// Pulse channel `ch` (0 or 1): `[period, duty, duty step, sweep
    /// enabled, sweep negate, sweep period, sweep shift, enabled, output]`.
    #[verifier::spinoff_prover]
    pub fn pulse_state(&self, ch: usize) -> (r: [u16; 9])
        requires
            self.pulse1.wf() && self.pulse2.wf(),
        ensures
            ({
                let p = if ch == 0 { self.pulse1 } else { self.pulse2 };
                r@ == seq![
                    p.timer_period,
                    p.duty as u16,
                    p.sequence_pos as u16,
                    b2u(p.sweep_enabled) as u16,
                    b2u(p.sweep_negate) as u16,
                    p.sweep_period as u16,
                    p.sweep_shift as u16,
                    b2u(p.enabled) as u16,
                    p.output_level() as u16,
                ]
            }),
    {
        let p = if ch == 0 { self.pulse1 } else { self.pulse2 };
        let r = [
            p.timer_period,
            p.duty as u16,
            p.sequence_pos as u16,
            if p.sweep_enabled { 1u16 } else { 0u16 },
            if p.sweep_negate { 1u16 } else { 0u16 },
            p.sweep_period as u16,
            p.sweep_shift as u16,
            if p.enabled { 1u16 } else { 0u16 },
            p.output() as u16,
        ];
        assert(r@ =~= seq![
            p.timer_period,
            p.duty as u16,
            p.sequence_pos as u16,
            b2u(p.sweep_enabled) as u16,
            b2u(p.sweep_negate) as u16,
            p.sweep_period as u16,
            p.sweep_shift as u16,
            b2u(p.enabled) as u16,
            p.output_level() as u16,
        ]);
        r
    }

    /// Envelope channel `ch` (0 pulse 1, 1 pulse 2, otherwise noise):
    /// `[constant volume, volume, decay level, length, length halt,
    /// enabled]`.
    #[verifier::spinoff_prover]
    pub fn envelope_state(&self, ch: usize) -> (r: [u16; 6])
        ensures
            ({
                let (env, length, halt, enabled) = if ch == 0 {
                    (self.pulse1.envelope, self.pulse1.length, self.pulse1.length_halt, self.pulse1.enabled)
                } else if ch == 1 {
                    (self.pulse2.envelope, self.pulse2.length, self.pulse2.length_halt, self.pulse2.enabled)
                } else {
                    (self.noise.envelope, self.noise.length, self.noise.length_halt, self.noise.enabled)
                };
                r@ == seq![
                    (env.mode & 0x1) as u16,
                    env.speed as u16,
                    env.dec_volume as u16,
                    length as u16,
                    b2u(halt) as u16,
                    b2u(enabled) as u16,
                ]
            }),
    {
        let (env, length, halt, enabled) = if ch == 0 {
            (self.pulse1.envelope, self.pulse1.length, self.pulse1.length_halt, self.pulse1.enabled)
        } else if ch == 1 {
            (self.pulse2.envelope, self.pulse2.length, self.pulse2.length_halt, self.pulse2.enabled)
        } else {
            (self.noise.envelope, self.noise.length, self.noise.length_halt, self.noise.enabled)
        };
        let r = [
            (env.mode & 0x1) as u16,
            env.speed as u16,
            env.dec_volume as u16,
            length as u16,
            if halt { 1u16 } else { 0u16 },
            if enabled { 1u16 } else { 0u16 },
        ];
        assert(r@ =~= seq![
            (env.mode & 0x1) as u16,
            env.speed as u16,
            env.dec_volume as u16,
            length as u16,
            b2u(halt) as u16,
            b2u(enabled) as u16,
        ]);
        r
    }
}

} // verus!
