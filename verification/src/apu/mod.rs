//! Integer building blocks of the audio unit: the envelope generator, the
//! pulse, triangle and noise channels with their deferred length counters,
//! and the frame counter's diagnostic view.
use vstd::prelude::*;
use crate::bytes::{push_u16, read_u16, u16_at, u16_bytes};
use crate::cartridge::Region;
use crate::input::b2u;

pub mod unit;

pub use unit::{Apu, AUDIO_SAMPLE_RATE, NTSC_CPU_HZ};

verus! {

/// Frame counter state exposed for diagnostics.
#[derive(Debug, Clone, Copy, PartialEq, Eq)]
pub struct FrameCounterDebugState {
    pub previous_cycle: i32,
    pub current_step: u32,
    /// 0 = 4-step, 1 = 5-step.
    pub step_mode: u32,
    pub inhibit_irq: bool,
    pub block_frame_counter_tick: u8,
    /// Pending `$4017` write, -1 if none.
    pub new_value: i16,
    /// -1..4.
    pub write_delay_counter: i8,
    pub irq_flag: bool,
    pub irq_flag_clear_clock: u64,
}

/// Length-counter load values indexed by the top five bits of `$4003`.
pub open spec fn length_table() -> Seq<u8> {
    seq![
        0x0Au8, 0xFE, 0x14, 0x02, 0x28, 0x04, 0x50, 0x06, 0xA0, 0x08, 0x3C, 0x0A, 0x0E, 0x0C, 0x1A, 0x0E,
        0x0C, 0x10, 0x18, 0x12, 0x30, 0x14, 0x60, 0x16, 0xC0, 0x18, 0x48, 0x1A, 0x10, 0x1C, 0x20, 0x1E,
    ]
}

/// Length-counter load value for index `i`.
pub fn length_table_value(i: u8) -> (r: u8)
    requires
        i < 32,
    ensures
        r == length_table()[i as int],
{
    let t: [u8; 32] = [
        0x0A, 0xFE, 0x14, 0x02, 0x28, 0x04, 0x50, 0x06, 0xA0, 0x08, 0x3C, 0x0A, 0x0E, 0x0C, 0x1A, 0x0E,
        0x0C, 0x10, 0x18, 0x12, 0x30, 0x14, 0x60, 0x16, 0xC0, 0x18, 0x48, 0x1A, 0x10, 0x1C, 0x20, 0x1E,
    ];
    assert(t@ =~= length_table());
    t[i as usize]
}

/// Pulse duty sequences; bit 7 is step 0.
pub open spec fn duty_table() -> Seq<u8> {
    seq![0b0100_0000u8, 0b0110_0000, 0b0111_1000, 0b1001_1111]
}

/// Envelope generator shared by the pulse and noise channels.
#[derive(Debug, Clone, Copy, PartialEq, Eq)]
pub struct Envelope {
    pub speed: u8,
    pub mode: u8,
    pub dec_count_to_1: u8,
    pub dec_volume: u8,
    pub reload_dec: bool,
}

impl Default for Envelope {
    fn default() -> (r: Self)
        ensures
            r == (Envelope { speed: 0, mode: 0, dec_count_to_1: 0, dec_volume: 0, reload_dec: false }),
    {
        Envelope { speed: 0, mode: 0, dec_count_to_1: 0, dec_volume: 0, reload_dec: false }
    }
}

impl Envelope {
    /// The envelope after one quarter-frame clock; `halt` (the deferred
    /// length-halt flag) makes the decay loop from 0 back to 15.
    pub open spec fn clocked(self, halt: bool) -> Envelope {
        if self.reload_dec {
            Envelope { dec_volume: 15, dec_count_to_1: (self.speed + 1) as u8, reload_dec: false, ..self }
        } else {
            let d = if self.dec_count_to_1 > 0 { self.dec_count_to_1 - 1 } else { 0 };
            if d == 0 {
                Envelope {
                    dec_count_to_1: (self.speed + 1) as u8,
                    dec_volume: if self.dec_volume != 0 || halt {
                        ((self.dec_volume + 15) % 16) as u8
                    } else {
                        self.dec_volume
                    },
                    ..self
                }
            } else {
                Envelope { dec_count_to_1: d as u8, ..self }
            }
        }
    }

    /// Bytes the envelope contributes to a snapshot.
    pub open spec fn snapshot_spec(self) -> Seq<u8> {
        seq![self.speed, self.mode, self.dec_count_to_1, self.dec_volume, b2u(self.reload_dec)]
    }

    /// `$4000`-style control write: constant-volume flag and speed/volume.
    pub fn write_control(&mut self, value: u8)
        ensures
            *final(self) == (Envelope { mode: (value & 0x30) >> 4u8, speed: value & 0x0f, ..*old(self) }),
    {
        self.mode = (value & 0x30) >> 4;
        self.speed = value & 0x0f;
    }

    /// Restart the envelope on the next quarter frame.
    pub fn schedule_restart(&mut self)
        ensures
            *final(self) == (Envelope { reload_dec: true, ..*old(self) }),
    {
        self.reload_dec = true;
    }

    /// Quarter-frame clock: a pending restart reloads volume 15 and the
    /// divider; otherwise the divider counts down and, when it expires,
    /// reloads and steps the volume down (looping when `halt`).
    pub fn clock(&mut self, halt: bool)
        requires
            old(self).speed < 255,
        ensures
            *final(self) == old(self).clocked(halt),
    {
        if self.reload_dec {
            self.dec_volume = 0xf;
            self.dec_count_to_1 = self.speed + 1;
            self.reload_dec = false;
            return;
        }
        if self.dec_count_to_1 > 0 {
            self.dec_count_to_1 = self.dec_count_to_1 - 1;
        }
        if self.dec_count_to_1 == 0 {
            self.dec_count_to_1 = self.speed + 1;
            if self.dec_volume != 0 || halt {
                let v = self.dec_volume;
                let w = v.wrapping_sub(1);
                proof {
                    crate::bits::lemma_u8_bits();
                    assert(w == v.wrapping_sub(1));
                    assert((w & 0x0f) == ((v + 15) % 16) as u8);
                }
                self.dec_volume = w & 0xf;
            }
        }
    }

    /// Volume output: the speed field in constant-volume mode, else the
    /// decaying volume.
    pub fn output(&self) -> (r: u8)
        ensures
            r == (if self.mode & 0x1 != 0 { self.speed } else { self.dec_volume }),
    {
        if self.mode & 0x1 != 0 {
            self.speed
        } else {
            self.dec_volume
        }
    }

    /// Append the envelope's five snapshot bytes.
    pub fn snapshot_bytes(&self, bytes: &mut Vec<u8>)
        ensures
            final(bytes)@ == old(bytes)@ + self.snapshot_spec(),
    {
        bytes.push(self.speed);
        bytes.push(self.mode);
        bytes.push(self.dec_count_to_1);
        bytes.push(self.dec_volume);
        bytes.push(if self.reload_dec { 1u8 } else { 0u8 });
        assert(final(bytes)@ =~= old(bytes)@ + self.snapshot_spec());
    }

    /// Read the envelope back from `bytes` at `*offset`, advancing it.
    pub fn restore_snapshot(&mut self, bytes: &[u8], offset: &mut usize)
        requires
            *old(offset) + 5 <= bytes@.len(),
        ensures
            *final(offset) == *old(offset) + 5,
            *final(self) == (Envelope {
                speed: bytes@[*old(offset) as int],
                mode: bytes@[*old(offset) + 1],
                dec_count_to_1: bytes@[*old(offset) + 2],
                dec_volume: bytes@[*old(offset) + 3],
                reload_dec: bytes@[*old(offset) + 4] != 0,
            }),
    {
        let o = *offset;
        self.speed = bytes[o];
        self.mode = bytes[o + 1];
        self.dec_count_to_1 = bytes[o + 2];
        self.dec_volume = bytes[o + 3];
        self.reload_dec = bytes[o + 4] != 0;
        *offset = o + 5;
    }
}

/// Restoring an envelope from its own snapshot gives it back.
pub proof fn lemma_envelope_snapshot_roundtrip(e: Envelope, pre: Seq<u8>, post: Seq<u8>)
    ensures
        ({
            let s = pre + e.snapshot_spec() + post;
            let o = pre.len() as int;
            (Envelope {
                speed: s[o],
                mode: s[o + 1],
                dec_count_to_1: s[o + 2],
                dec_volume: s[o + 3],
                reload_dec: s[o + 4] != 0,
            }) == e
        }),
{
    let s = pre + e.snapshot_spec() + post;
    let o = pre.len() as int;
    assert(s[o] == e.speed && s[o + 1] == e.mode && s[o + 2] == e.dec_count_to_1 && s[o + 3] == e.dec_volume);
    assert(s[o + 4] == b2u(e.reload_dec));
}

/// Pulse channel: duty sequencer, envelope, sweep unit and a length
/// counter whose reload and halt take effect after the frame-counter step
/// of the same cycle.
#[derive(Debug, Clone, Copy, PartialEq, Eq)]
pub struct Pulse {
    /// 0 = pulse 1, 1 = pulse 2 (selects the sweep negate offset).
    pub channel: u8,
    pub enabled: bool,
    pub duty: u8,
    pub envelope: Envelope,
    pub timer_period: u16,
    pub timer: u16,
    pub sequence_pos: u8,
    pub length: u8,
    /// Live length-halt flag.
    pub length_halt: bool,
    /// Halt flag written by `$4000`, applied at the next reload.
    pub new_length_halt: bool,
    /// Pending reload from `$4003`; 0 when none.
    pub length_reload_value: u8,
    /// Counter value when the reload was requested.
    pub length_previous_value: u8,
    pub sweep_enabled: bool,
    /// Divider reload value (P + 1).
    pub sweep_period: u8,
    pub sweep_negate: bool,
    pub sweep_shift: u8,
    pub sweep_divider: u8,
    pub sweep_reload: bool,
}

/// Sweep target period: the period plus or minus itself shifted right, with
/// pulse 1 subtracting one more (ones-complement negate).
pub open spec fn sweep_target(period: u16, shift: u8, negate: bool, channel: u8) -> int {
    let delta = (period >> shift) as int;
    if negate {
        (period - delta - (if channel == 0 { 1int } else { 0 })) % 0x10000
    } else {
        period + delta
    }
}

/// Sweep targets: the change is the period divided by two to the shift; an
/// additive sweep adds it, a negating sweep on pulse 2 subtracts it, and on
/// pulse 1 (channel 0) subtracts one more, wrapping to 0xFFFF below zero.
pub proof fn law_sweep_target(period: u16, shift: u8, channel: u8)
    requires
        shift < 8,
    ensures
        ({
            let d: int = (period as nat / vstd::arithmetic::power2::pow2(shift as nat)) as int;
            &&& sweep_target(period, shift, false, channel) == period + d
            &&& channel != 0 ==> sweep_target(period, shift, true, channel) == period - d
            &&& channel == 0 ==> sweep_target(period, shift, true, channel) == if period > d {
                period - d - 1
            } else {
                0xffff
            }
            &&& 0 <= d <= period
        }),
{
    vstd::bits::lemma_u16_shr_is_div(period, shift as u16);
    assert((period >> shift) == (period >> (shift as u16)));
    vstd::arithmetic::power2::lemma_pow2_pos(shift as nat);
    let p2 = vstd::arithmetic::power2::pow2(shift as nat);
    vstd::arithmetic::div_mod::lemma_div_is_ordered_by_denominator(period as int, 1, p2 as int);
}

impl Pulse {
    /// Channel output: the envelope volume on high duty steps; silent when
    /// disabled, length-expired, period below 8, or when an additive sweep
    /// target would overflow 11 bits.
    pub open spec fn output_level(self) -> u8 {
        if !self.enabled || self.length == 0 || self.timer_period < 8 {
            0
        } else if !self.sweep_negate && self.timer_period + (self.timer_period >> self.sweep_shift) > 0x7ff {
            0
        } else if (duty_table()[(self.duty & 3) as int] >> ((7 - (self.sequence_pos & 7)) as u8)) & 1 == 0 {
            0
        } else {
            self.envelope.output_value()
        }
    }

    /// A silent, disabled channel with id `channel`.
    pub open spec fn silent(channel: u8) -> Pulse {
        Pulse {
            channel,
            enabled: false,
            duty: 0,
            envelope: Envelope { speed: 0, mode: 0, dec_count_to_1: 0, dec_volume: 0, reload_dec: false },
            timer_period: 0,
            timer: 0,
            sequence_pos: 0,
            length: 0,
            length_halt: false,
            new_length_halt: false,
            length_reload_value: 0,
            length_previous_value: 0,
            sweep_enabled: false,
            sweep_period: 0,
            sweep_negate: false,
            sweep_shift: 0,
            sweep_divider: 0,
            sweep_reload: false,
        }
    }

    /// The channel after a half-frame length clock.
    pub open spec fn length_clocked(self) -> Pulse {
        Pulse { length: if !self.length_halt && self.length > 0 { (self.length - 1) as u8 } else { self.length }, ..self }
    }

    /// The channel after its queued length load and halt take effect.
    pub open spec fn length_reloaded(self) -> Pulse {
        Pulse {
            length: if self.length_reload_value != 0 && self.length == self.length_previous_value {
                self.length_reload_value
            } else {
                self.length
            },
            length_reload_value: 0,
            length_halt: self.new_length_halt,
            ..self
        }
    }

    /// The channel after a half-frame sweep clock.
    pub open spec fn sweep_clocked(self) -> Pulse {
        let d = ((self.sweep_divider + 255) % 256) as u8;
        let t = sweep_target(self.timer_period, self.sweep_shift, self.sweep_negate, self.channel);
        let apply = d == 0 && self.sweep_shift != 0 && self.sweep_enabled && self.timer_period >= 8 && t <= 0x7ff;
        Pulse {
            timer_period: if apply { t as u16 } else { self.timer_period },
            sweep_divider: if d == 0 || self.sweep_reload { self.sweep_period } else { d },
            sweep_reload: false,
            ..self
        }
    }

    /// Bounds every pulse channel keeps: an 11-bit period and a shift below
    /// the register width.
    pub open spec fn wf(&self) -> bool {
        &&& self.timer_period <= 0x7ff
        &&& self.sweep_shift < 8
        &&& self.envelope.speed < 255
    }

    /// A silent, disabled channel with id `channel`.
    pub fn new(channel: u8) -> (r: Self)
        ensures
            r.channel == channel,
            !r.enabled && r.duty == 0 && r.timer_period == 0 && r.timer == 0 && r.sequence_pos == 0,
            r.length == 0 && !r.length_halt && !r.new_length_halt,
            r.length_reload_value == 0 && r.length_previous_value == 0,
            !r.sweep_enabled && r.sweep_period == 0 && !r.sweep_negate && r.sweep_shift == 0,
            r.sweep_divider == 0 && !r.sweep_reload,
            r.envelope == (Envelope { speed: 0, mode: 0, dec_count_to_1: 0, dec_volume: 0, reload_dec: false }),
            r == Pulse::silent(channel),
            r.wf(),
    {
        Pulse {
            channel,
            enabled: false,
            duty: 0,
            envelope: Envelope::default(),
            timer_period: 0,
            timer: 0,
            sequence_pos: 0,
            length: 0,
            length_halt: false,
            new_length_halt: false,
            length_reload_value: 0,
            length_previous_value: 0,
            sweep_enabled: false,
            sweep_period: 0,
            sweep_negate: false,
            sweep_shift: 0,
            sweep_divider: 0,
            sweep_reload: false,
        }
    }

    /// `$4000`/`$4004`: duty, envelope control, and the length halt, which
    /// is deferred to the next length reload.
    pub fn write_control(&mut self, value: u8)
        ensures
            *final(self) == (Pulse {
                duty: (value >> 6u8) & 3,
                envelope: Envelope { mode: (value & 0x30) >> 4u8, speed: value & 0x0f, ..old(self).envelope },
                new_length_halt: value & 0x20 != 0,
                ..*old(self)
            }),
    {
        self.duty = (value >> 6) & 3;
        self.envelope.write_control(value);
        self.new_length_halt = (value & 0x20) != 0;
    }

    /// `$4001`/`$4005`: sweep enable, divider period P (reloads as P + 1),
    /// negate and shift; the divider reloads at the next half frame.
    pub fn write_sweep(&mut self, value: u8)
        ensures
            *final(self) == (Pulse {
                sweep_enabled: value & 0x80 != 0,
                sweep_period: (((value >> 4u8) & 0x07) + 1) as u8,
                sweep_negate: value & 0x08 != 0,
                sweep_shift: value & 0x07,
                sweep_reload: true,
                ..*old(self)
            }),
            old(self).wf() ==> final(self).wf(),
    {
        self.sweep_enabled = value & 0x80 != 0;
        proof {
            crate::bits::lemma_u8_bits();
        }
        self.sweep_period = ((value >> 4) & 0x07) + 1;
        self.sweep_negate = value & 0x08 != 0;
        self.sweep_shift = value & 0x07;
        self.sweep_reload = true;
    }

    /// `$4002`/`$4006`: timer period low byte.
    pub fn write_timer_low(&mut self, value: u8)
        ensures
            *final(self) == (Pulse { timer_period: (old(self).timer_period & 0x0700) | (value as u16), ..*old(self) }),
            final(self).timer_period <= 0x7ff,
            old(self).wf() ==> final(self).wf(),
    {
        let t = self.timer_period;
        proof {
            crate::bits::lemma_u16_bits();
        }
        assert((t & 0x0700) | (value as u16) <= 0x7ff);
        self.timer_period = (self.timer_period & 0x0700) | value as u16;
    }

    /// `$4003`/`$4007`: timer period high bits; on an enabled channel the
    /// length load is queued for the reload after the frame-counter step;
    /// the sequencer and envelope restart.
    pub fn write_timer_high(&mut self, value: u8)
        ensures
            final(self).timer_period == (old(self).timer_period & 0x00ff) | (((value & 0x07) as u16) << 8u16),
            final(self).timer_period <= 0x7ff,
            final(self).length_reload_value == (if old(self).enabled {
                length_table()[((value >> 3u8) & 0x1f) as int]
            } else {
                old(self).length_reload_value
            }),
            final(self).length_previous_value == (if old(self).enabled { old(self).length } else { old(self).length_previous_value }),
            final(self).sequence_pos == 0,
            final(self).envelope == (Envelope { reload_dec: true, ..old(self).envelope }),
            final(self).length == old(self).length,
            final(self).enabled == old(self).enabled,
            final(self).sweep_shift == old(self).sweep_shift,
            old(self).wf() ==> final(self).wf(),
            *final(self) == (Pulse {
                timer_period: (old(self).timer_period & 0x00ff) | (((value & 0x07) as u16) << 8u16),
                length_reload_value: if old(self).enabled {
                    length_table()[((value >> 3u8) & 0x1f) as int]
                } else {
                    old(self).length_reload_value
                },
                length_previous_value: if old(self).enabled { old(self).length } else { old(self).length_previous_value },
                sequence_pos: 0,
                envelope: Envelope { reload_dec: true, ..old(self).envelope },
                ..*old(self)
            }),
    {
        let t = self.timer_period;
        proof {
            crate::bits::lemma_u16_bits();
            crate::bits::lemma_u8_bits();
        }
        assert(((value & 0x07) as u16) <= 7);
        assert((t & 0x00ff) | (((value & 0x07) as u16) << 8u16) <= 0x7ff);
        self.timer_period = (self.timer_period & 0x00ff) | (((value & 0x07) as u16) << 8);
        if self.enabled {
            self.length_reload_value = length_table_value((value >> 3) & 0x1f);
            self.length_previous_value = self.length;
        }
        self.sequence_pos = 0;
        self.envelope.schedule_restart();
    }

    /// The pulse after one timer step: on expiry the period is reloaded and
    /// the duty step advances (mod 8); otherwise the timer counts down.
    pub open spec fn timer_ticked(self) -> Pulse {
        if self.timer == 0 {
            Pulse { timer: self.timer_period, sequence_pos: ((self.sequence_pos + 1) % 256) as u8 & 7, ..self }
        } else {
            Pulse { timer: (self.timer - 1) as u16, ..self }
        }
    }

    /// Timer step: on expiry reload the period and advance the duty step.
    pub fn tick(&mut self)
        ensures
            *final(self) == old(self).timer_ticked(),
    {
        if self.timer == 0 {
            self.timer = self.timer_period;
            let s = self.sequence_pos;
            proof {
                crate::bits::lemma_u8_bits();
            }
            self.sequence_pos = self.sequence_pos.wrapping_add(1) & 7;
        } else {
            self.timer = self.timer - 1;
        }
    }

    /// Half-frame length clock: counts down unless halted (the live halt).
    pub fn clock_length(&mut self)
        ensures
            *final(self) == old(self).length_clocked(),
    {
        if !self.length_halt && self.length > 0 {
            self.length = self.length - 1;
        }
    }

    /// Apply a queued length load unless a half-frame clock changed the
    /// counter since it was queued; then the written halt flag takes effect.
    pub fn reload_length_counter(&mut self)
        ensures
            *final(self) == old(self).length_reloaded(),
    {
        if self.length_reload_value != 0 {
            if self.length == self.length_previous_value {
                self.length = self.length_reload_value;
            }
            self.length_reload_value = 0;
        }
        self.length_halt = self.new_length_halt;
    }

    /// Whether a length reload or halt change is still queued.
    pub fn has_pending_reload(&self) -> (r: bool)
        ensures
            r == (self.length_reload_value != 0 || self.length_halt != self.new_length_halt),
    {
        self.length_reload_value != 0 || self.length_halt != self.new_length_halt
    }

    /// Half-frame sweep clock: the divider counts down (from 0 it wraps to
    /// 255); when it reaches 0 an enabled sweep with a nonzero shift moves
    /// the period to its target if the period is at least 8 and the target
    /// fits in 11 bits, and the divider reloads. A pending reload reloads it
    /// too.
    pub fn clock_sweep(&mut self)
        requires
            old(self).wf(),
        ensures
            final(self).wf(),
            *final(self) == old(self).sweep_clocked(),
    {
        let dv = self.sweep_divider;
        proof {
            crate::bits::lemma_u8_bits();
            crate::bits::lemma_u16_bits();
        }
        self.sweep_divider = self.sweep_divider.wrapping_sub(1);
        if self.sweep_divider == 0 {
            let p = self.timer_period;
            let sh = self.sweep_shift;
            let shift_result = p >> sh;
            let target = if self.sweep_negate {
                let extra: u16 = if self.channel == 0 { 1 } else { 0 };
                let w = p.wrapping_sub(shift_result + extra);
                assert(w == ((p - (shift_result + extra)) % 0x10000) as u16);
                w
            } else {
                p + shift_result
            };
            if self.sweep_shift != 0 && self.sweep_enabled && self.timer_period >= 8 && target <= 0x7ff {
                self.timer_period = target;
            }
            self.sweep_divider = self.sweep_period;
        }
        if self.sweep_reload {
            self.sweep_divider = self.sweep_period;
            self.sweep_reload = false;
        }
    }

    /// Channel output: the envelope volume on high duty steps; silent when
    /// disabled, length-expired, period below 8, or when an additive sweep
    /// target would overflow 11 bits.
    pub fn output(&self) -> (r: u8)
        requires
            self.wf(),
        ensures
            r == self.output_level(),
            (!self.enabled || self.length == 0 || self.timer_period < 8) ==> r == 0,
            (!self.sweep_negate && self.timer_period + (self.timer_period >> self.sweep_shift) > 0x7ff) ==> r == 0,
            r != 0 ==> r == self.envelope.output_value(),
    {
        if !self.enabled || self.length == 0 || self.timer_period < 8 {
            return 0;
        }
        if !self.sweep_negate {
            let target = self.timer_period as u32 + (self.timer_period >> self.sweep_shift) as u32;
            if target > 0x7ff {
                return 0;
            }
        }
        let duty: [u8; 4] = [0b0100_0000, 0b0110_0000, 0b0111_1000, 0b1001_1111];
        assert(duty@ =~= duty_table());
        let du = self.duty;
        let sp = self.sequence_pos;
        proof {
            crate::bits::lemma_u8_bits();
        }
        let dsel = du & 3;
        let d = duty[dsel as usize];
        let pos = sp & 7;
        let bit = (d >> (7 - pos)) & 1;
        if bit == 0 {
            0
        } else {
            self.envelope.output()
        }
    }

    /// Bytes the channel contributes to a snapshot.
    pub open spec fn snapshot_spec(self) -> Seq<u8> {
        seq![self.channel, b2u(self.enabled), self.duty] + self.envelope.snapshot_spec()
            + u16_bytes(self.timer_period) + u16_bytes(self.timer) + seq![
            self.sequence_pos,
            self.length,
            b2u(self.length_halt),
            b2u(self.new_length_halt),
            self.length_reload_value,
            self.length_previous_value,
            b2u(self.sweep_enabled),
            self.sweep_period,
            b2u(self.sweep_negate),
            self.sweep_shift,
            self.sweep_divider,
            b2u(self.sweep_reload),
        ]
    }

    /// Append the channel's 24 snapshot bytes.
    pub fn snapshot_bytes(&self, bytes: &mut Vec<u8>)
        ensures
            final(bytes)@ == old(bytes)@ + self.snapshot_spec(),
    {
        let ghost start = bytes@;
        bytes.push(self.channel);
        bytes.push(if self.enabled { 1u8 } else { 0u8 });
        bytes.push(self.duty);
        assert(bytes@ =~= start + seq![self.channel, b2u(self.enabled), self.duty]);
        self.envelope.snapshot_bytes(bytes);
        push_u16(bytes, self.timer_period);
        push_u16(bytes, self.timer);
        let ghost mid = bytes@;
        assert(mid =~= start + seq![self.channel, b2u(self.enabled), self.duty] + self.envelope.snapshot_spec()
            + u16_bytes(self.timer_period) + u16_bytes(self.timer));
        self.push_sweep_bytes(bytes);
    }

    fn push_sweep_bytes(&self, bytes: &mut Vec<u8>)
        ensures
            final(bytes)@ == old(bytes)@ + seq![
                self.sequence_pos,
                self.length,
                b2u(self.length_halt),
                b2u(self.new_length_halt),
                self.length_reload_value,
                self.length_previous_value,
                b2u(self.sweep_enabled),
                self.sweep_period,
                b2u(self.sweep_negate),
                self.sweep_shift,
                self.sweep_divider,
                b2u(self.sweep_reload),
            ],
    {
        let ghost start = bytes@;
        bytes.push(self.sequence_pos);
        bytes.push(self.length);
        bytes.push(if self.length_halt { 1u8 } else { 0u8 });
        bytes.push(if self.new_length_halt { 1u8 } else { 0u8 });
        bytes.push(self.length_reload_value);
        bytes.push(self.length_previous_value);
        bytes.push(if self.sweep_enabled { 1u8 } else { 0u8 });
        bytes.push(self.sweep_period);
        bytes.push(if self.sweep_negate { 1u8 } else { 0u8 });
        bytes.push(self.sweep_shift);
        bytes.push(self.sweep_divider);
        bytes.push(if self.sweep_reload { 1u8 } else { 0u8 });
        assert(bytes@ =~= start + seq![
            self.sequence_pos,
            self.length,
            b2u(self.length_halt),
            b2u(self.new_length_halt),
            self.length_reload_value,
            self.length_previous_value,
            b2u(self.sweep_enabled),
            self.sweep_period,
            b2u(self.sweep_negate),
            self.sweep_shift,
            self.sweep_divider,
            b2u(self.sweep_reload),
        ]);
    }

    /// Read the channel back from `bytes` at `*offset`, advancing it by 24.
    pub fn restore_snapshot(&mut self, bytes: &[u8], offset: &mut usize)
        requires
            *old(offset) + 24 <= bytes@.len(),
        ensures
            *final(offset) == *old(offset) + 24,
            *final(self) == Pulse::decoded(bytes@, *old(offset) as int),
    {
        let o = *offset;
        self.channel = bytes[o];
        self.enabled = bytes[o + 1] != 0;
        self.duty = bytes[o + 2];
        *offset = o + 3;
        self.envelope.restore_snapshot(bytes, offset);
        let p = *offset;
        self.timer_period = read_u16(bytes, p);
        self.timer = read_u16(bytes, p + 2);
        let q = p + 4;
        self.sequence_pos = bytes[q];
        self.length = bytes[q + 1];
        self.length_halt = bytes[q + 2] != 0;
        self.new_length_halt = bytes[q + 3] != 0;
        self.length_reload_value = bytes[q + 4];
        self.length_previous_value = bytes[q + 5];
        self.sweep_enabled = bytes[q + 6] != 0;
        self.sweep_period = bytes[q + 7];
        self.sweep_negate = bytes[q + 8] != 0;
        self.sweep_shift = bytes[q + 9];
        self.sweep_divider = bytes[q + 10];
        self.sweep_reload = bytes[q + 11] != 0;
        *offset = q + 12;
    }

    /// The channel decoded from `s` at offset `o`.
    pub open spec fn decoded(s: Seq<u8>, o: int) -> Pulse {
        Pulse {
            channel: s[o],
            enabled: s[o + 1] != 0,
            duty: s[o + 2],
            envelope: Envelope {
                speed: s[o + 3],
                mode: s[o + 4],
                dec_count_to_1: s[o + 5],
                dec_volume: s[o + 6],
                reload_dec: s[o + 7] != 0,
            },
            timer_period: u16_at(s, o + 8),
            timer: u16_at(s, o + 10),
            sequence_pos: s[o + 12],
            length: s[o + 13],
            length_halt: s[o + 14] != 0,
            new_length_halt: s[o + 15] != 0,
            length_reload_value: s[o + 16],
            length_previous_value: s[o + 17],
            sweep_enabled: s[o + 18] != 0,
            sweep_period: s[o + 19],
            sweep_negate: s[o + 20] != 0,
            sweep_shift: s[o + 21],
            sweep_divider: s[o + 22],
            sweep_reload: s[o + 23] != 0,
        }
    }
}

impl Envelope {
    /// The volume `output` returns.
    pub open spec fn output_value(self) -> u8 {
        if self.mode & 0x1 != 0 { self.speed } else { self.dec_volume }
    }
}

/// Restoring a pulse channel from its own snapshot gives it back.
pub proof fn lemma_pulse_snapshot_roundtrip(p: Pulse, pre: Seq<u8>, post: Seq<u8>)
    ensures
        Pulse::decoded(pre + p.snapshot_spec() + post, pre.len() as int) == p,
{
    let s = pre + p.snapshot_spec() + post;
    let o = pre.len() as int;
    let sp = p.snapshot_spec();
    assert(sp.len() == 24);
    assert forall|k: int| 0 <= k < 24 implies s[o + k] == #[trigger] sp[k] by {}
    assert(sp.subrange(8, 10) =~= u16_bytes(p.timer_period));
    assert(sp.subrange(10, 12) =~= u16_bytes(p.timer));
    assert(s.subrange(o + 8, o + 10) =~= u16_bytes(p.timer_period));
    assert(s.subrange(o + 10, o + 12) =~= u16_bytes(p.timer));
    crate::bytes::lemma_u16_at_bytes(s, o + 8, p.timer_period);
    crate::bytes::lemma_u16_at_bytes(s, o + 10, p.timer);
}

/// Triangle channel: 32-step sequencer gated by a linear counter and a
/// length counter. Bit 7 of `$4008` sets the linear-control flag at once and
/// the length halt at the next reload.
#[derive(Debug, Clone, Copy, PartialEq, Eq)]
pub struct Triangle {
    pub enabled: bool,
    /// Live linear-control flag; while set the linear reload flag stays up.
    pub linear_control_flag: bool,
    pub linear_reload: u8,
    pub linear_counter: u8,
    pub linear_reload_flag: bool,
    pub timer_period: u16,
    pub timer: u16,
    pub sequence_pos: u8,
    /// Sequence value of the last step, held while the sequencer is frozen.
    pub last_output: u8,
    pub length: u8,
    pub length_halt: bool,
    pub new_length_halt: bool,
    pub length_reload_value: u8,
    pub length_previous_value: u8,
}

impl Default for Triangle {
    fn default() -> (r: Self)
        ensures
            r == Triangle::silent(),
    {
        Triangle {
            enabled: false,
            linear_control_flag: false,
            linear_reload: 0,
            linear_counter: 0,
            linear_reload_flag: false,
            timer_period: 0,
            timer: 0,
            sequence_pos: 0,
            last_output: 0,
            length: 0,
            length_halt: false,
            new_length_halt: false,
            length_reload_value: 0,
            length_previous_value: 0,
        }
    }
}

impl Triangle {
    /// The channel after a half-frame length clock.
    pub open spec fn length_clocked(self) -> Triangle {
        Triangle { length: if !self.length_halt && self.length > 0 { (self.length - 1) as u8 } else { self.length }, ..self }
    }

    /// The channel after its queued length load and halt take effect.
    pub open spec fn length_reloaded(self) -> Triangle {
        Triangle {
            length: if self.length_reload_value != 0 && self.length == self.length_previous_value {
                self.length_reload_value
            } else {
                self.length
            },
            length_reload_value: 0,
            length_halt: self.new_length_halt,
            ..self
        }
    }

    /// The channel after a quarter-frame linear clock.
    pub open spec fn linear_clocked(self) -> Triangle {
        Triangle {
            linear_counter: if self.linear_reload_flag {
                self.linear_reload
            } else if self.linear_counter > 0 {
                (self.linear_counter - 1) as u8
            } else {
                0
            },
            linear_reload_flag: self.linear_reload_flag && self.linear_control_flag,
            ..self
        }
    }

    /// The power-on channel: every field zero or false.
    pub open spec fn silent() -> Triangle {
        Triangle {
            enabled: false,
            linear_control_flag: false,
            linear_reload: 0,
            linear_counter: 0,
            linear_reload_flag: false,
            timer_period: 0,
            timer: 0,
            sequence_pos: 0,
            last_output: 0,
            length: 0,
            length_halt: false,
            new_length_halt: false,
            length_reload_value: 0,
            length_previous_value: 0,
        }
    }

    /// `$4008`: linear-control flag (live), queued length halt and the
    /// linear reload value.
    pub fn write_control(&mut self, value: u8)
        ensures
            *final(self) == (Triangle {
                linear_control_flag: value & 0x80 != 0,
                new_length_halt: value & 0x80 != 0,
                linear_reload: value & 0x7f,
                ..*old(self)
            }),
    {
        self.linear_control_flag = value & 0x80 != 0;
        self.new_length_halt = value & 0x80 != 0;
        self.linear_reload = value & 0x7f;
    }

    /// `$400A`: timer period low byte.
    pub fn write_timer_low(&mut self, value: u8)
        ensures
            *final(self) == (Triangle { timer_period: (old(self).timer_period & 0x0700) | (value as u16), ..*old(self) }),
    {
        self.timer_period = (self.timer_period & 0x0700) | value as u16;
    }

    /// `$400B`: timer period high bits; an enabled channel queues the
    /// length load; the linear counter is marked for reload.
    pub fn write_timer_high(&mut self, value: u8)
        ensures
            *final(self) == (Triangle {
                timer_period: (old(self).timer_period & 0x00ff) | (((value & 0x07) as u16) << 8u16),
                length_reload_value: if old(self).enabled {
                    length_table()[((value >> 3u8) & 0x1f) as int]
                } else {
                    old(self).length_reload_value
                },
                length_previous_value: if old(self).enabled { old(self).length } else { old(self).length_previous_value },
                linear_reload_flag: true,
                ..*old(self)
            }),
    {
        proof {
            crate::bits::lemma_u8_bits();
        }
        self.timer_period = (self.timer_period & 0x00ff) | (((value & 0x07) as u16) << 8);
        if self.enabled {
            self.length_reload_value = length_table_value((value >> 3) & 0x1f);
            self.length_previous_value = self.length;
        }
        self.linear_reload_flag = true;
    }

    /// The triangle after one timer step: the timer counts down; on expiry
    /// it reloads and, while both counters run, the 32-step sequencer
    /// advances and latches its level.
    pub open spec fn timer_ticked(self) -> Triangle {
        if self.timer != 0 {
            Triangle { timer: (self.timer - 1) as u16, ..self }
        } else if self.length > 0 && self.linear_counter > 0 {
            let next = (self.sequence_pos + 1) % 32;
            Triangle {
                timer: self.timer_period,
                sequence_pos: next as u8,
                last_output: if next < 16 { (15 - next) as u8 } else { (next - 16) as u8 },
                ..self
            }
        } else {
            Triangle { timer: self.timer_period, ..self }
        }
    }

    /// Timer step: on expiry reload the period and, while both counters
    /// are nonzero, advance the sequencer and latch its value (15..0 then
    /// 0..15).
    pub fn tick(&mut self)
        ensures
            *final(self) == old(self).timer_ticked(),
    {
        if self.timer == 0 {
            self.timer = self.timer_period;
            if self.length > 0 && self.linear_counter > 0 {
                let s = self.sequence_pos;
                proof {
                    crate::bits::lemma_u8_bits();
                }
                let next = (s % 32 + 1) % 32;
                assert(next == (s + 1) % 32);
                self.sequence_pos = next;
                self.last_output = if next < 16 { 15 - next } else { next - 16 };
            }
        } else {
            self.timer = self.timer - 1;
        }
    }

    /// Half-frame length clock: counts down unless halted.
    pub fn clock_length(&mut self)
        ensures
            *final(self) == old(self).length_clocked(),
    {
        if !self.length_halt && self.length > 0 {
            self.length = self.length - 1;
        }
    }

    /// Quarter-frame linear clock: reload when flagged, else count down;
    /// the reload flag clears unless the control flag holds it.
    pub fn clock_linear(&mut self)
        ensures
            *final(self) == old(self).linear_clocked(),
    {
        if self.linear_reload_flag {
            self.linear_counter = self.linear_reload;
        } else if self.linear_counter > 0 {
            self.linear_counter = self.linear_counter - 1;
        }
        if !self.linear_control_flag {
            self.linear_reload_flag = false;
        }
    }

    /// Apply a queued length load unless a half-frame clock changed the
    /// counter since it was queued; then the written halt flag takes effect.
    pub fn reload_length_counter(&mut self)
        ensures
            *final(self) == old(self).length_reloaded(),
    {
        if self.length_reload_value != 0 {
            if self.length == self.length_previous_value {
                self.length = self.length_reload_value;
            }
            self.length_reload_value = 0;
        }
        self.length_halt = self.new_length_halt;
    }

    /// Whether a length reload or halt change is still queued.
    pub fn has_pending_reload(&self) -> (r: bool)
        ensures
            r == (self.length_reload_value != 0 || self.length_halt != self.new_length_halt),
    {
        self.length_reload_value != 0 || self.length_halt != self.new_length_halt
    }

    /// The held sequence value; the triangle never mutes to 0.
    pub fn output(&self) -> (r: u8)
        ensures
            r == self.last_output,
    {
        self.last_output
    }

    /// The channel's 15 snapshot bytes (the held output is not saved).
    pub open spec fn snapshot_spec(self) -> Seq<u8> {
        seq![
            b2u(self.enabled),
            b2u(self.linear_control_flag),
            self.linear_reload,
            self.linear_counter,
            b2u(self.linear_reload_flag),
        ] + u16_bytes(self.timer_period) + u16_bytes(self.timer) + seq![
            self.sequence_pos,
            self.length,
            b2u(self.length_halt),
            b2u(self.new_length_halt),
            self.length_reload_value,
            self.length_previous_value,
        ]
    }

    /// Append the channel's snapshot bytes.
    pub fn snapshot_bytes(&self, bytes: &mut Vec<u8>)
        ensures
            final(bytes)@ == old(bytes)@ + self.snapshot_spec(),
    {
        let ghost start = bytes@;
        bytes.push(if self.enabled { 1u8 } else { 0u8 });
        bytes.push(if self.linear_control_flag { 1u8 } else { 0u8 });
        bytes.push(self.linear_reload);
        bytes.push(self.linear_counter);
        bytes.push(if self.linear_reload_flag { 1u8 } else { 0u8 });
        push_u16(bytes, self.timer_period);
        push_u16(bytes, self.timer);
        bytes.push(self.sequence_pos);
        bytes.push(self.length);
        bytes.push(if self.length_halt { 1u8 } else { 0u8 });
        bytes.push(if self.new_length_halt { 1u8 } else { 0u8 });
        bytes.push(self.length_reload_value);
        bytes.push(self.length_previous_value);
        assert(bytes@ =~= start + self.snapshot_spec());
    }

    /// The channel decoded from `s` at offset `o`, keeping `held` as the
    /// output it holds.
    pub open spec fn decoded(s: Seq<u8>, o: int, held: u8) -> Triangle {
        Triangle {
            enabled: s[o] != 0,
            linear_control_flag: s[o + 1] != 0,
            linear_reload: s[o + 2],
            linear_counter: s[o + 3],
            linear_reload_flag: s[o + 4] != 0,
            timer_period: u16_at(s, o + 5),
            timer: u16_at(s, o + 7),
            sequence_pos: s[o + 9],
            last_output: held,
            length: s[o + 10],
            length_halt: s[o + 11] != 0,
            new_length_halt: s[o + 12] != 0,
            length_reload_value: s[o + 13],
            length_previous_value: s[o + 14],
        }
    }

    /// Read the channel back from `bytes` at `*offset`, advancing it by 15.
    pub fn restore_snapshot(&mut self, bytes: &[u8], offset: &mut usize)
        requires
            *old(offset) + 15 <= bytes@.len(),
        ensures
            *final(offset) == *old(offset) + 15,
            *final(self) == Triangle::decoded(bytes@, *old(offset) as int, old(self).last_output),
    {
        let o = *offset;
        self.enabled = bytes[o] != 0;
        self.linear_control_flag = bytes[o + 1] != 0;
        self.linear_reload = bytes[o + 2];
        self.linear_counter = bytes[o + 3];
        self.linear_reload_flag = bytes[o + 4] != 0;
        self.timer_period = read_u16(bytes, o + 5);
        self.timer = read_u16(bytes, o + 7);
        self.sequence_pos = bytes[o + 9];
        self.length = bytes[o + 10];
        self.length_halt = bytes[o + 11] != 0;
        self.new_length_halt = bytes[o + 12] != 0;
        self.length_reload_value = bytes[o + 13];
        self.length_previous_value = bytes[o + 14];
        *offset = o + 15;
    }
}

/// Restoring a triangle channel from its own snapshot gives it back.
pub proof fn lemma_triangle_snapshot_roundtrip(t: Triangle, pre: Seq<u8>, post: Seq<u8>)
    ensures
        Triangle::decoded(pre + t.snapshot_spec() + post, pre.len() as int, t.last_output) == t,
{
    let s = pre + t.snapshot_spec() + post;
    let o = pre.len() as int;
    let sp = t.snapshot_spec();
    assert(sp.len() == 15);
    assert forall|k: int| 0 <= k < 15 implies s[o + k] == #[trigger] sp[k] by {}
    assert(s.subrange(o + 5, o + 7) =~= u16_bytes(t.timer_period));
    assert(s.subrange(o + 7, o + 9) =~= u16_bytes(t.timer));
    crate::bytes::lemma_u16_at_bytes(s, o + 5, t.timer_period);
    crate::bytes::lemma_u16_at_bytes(s, o + 7, t.timer);
}

/// Noise periods in CPU cycles for NTSC (PAL when `pal`), by `$400E` index.
pub open spec fn noise_period_table(pal: bool) -> Seq<u16> {
    if pal {
        seq![4u16, 8, 14, 30, 60, 88, 118, 148, 188, 236, 354, 472, 708, 944, 1890, 3778]
    } else {
        seq![
            0x004u16, 0x008, 0x010, 0x020, 0x040, 0x060, 0x080, 0x0A0, 0x0CA, 0x0FE, 0x17C, 0x1FC, 0x2FA, 0x3F8,
            0x7F2, 0xFE4,
        ]
    }
}

/// One LFSR shift: right by one, with bit 0 xor the tap (bit 6 in short
/// mode, else bit 1) fed into bit 14.
pub open spec fn lfsr_step(lfsr: u16, short_mode: bool) -> u16 {
    let tap: u16 = if short_mode { 6 } else { 1 };
    (lfsr >> 1u16) | (((lfsr & 1) ^ ((lfsr >> tap) & 1)) << 14u16)
}

/// One LFSR step on a 15-bit register: bits 0-13 of the result are bits
/// 1-14 of the old value, and the new bit 14 is the parity of bit 0 and
/// the tap, which is bit 1 in long mode and bit 6 in short mode; the
/// register stays within 15 bits.
pub proof fn law_lfsr_feedback(lfsr: u16, short_mode: bool)
    requires
        lfsr < 0x8000,
    ensures
        ({
            let r = lfsr_step(lfsr, short_mode);
            let tap_bit = if short_mode { (lfsr / 64) % 2 } else { (lfsr / 2) % 2 };
            &&& r % 0x4000 == (lfsr / 2) % 0x4000
            &&& (r / 0x4000) % 2 == (lfsr % 2 + tap_bit) % 2
            &&& r < 0x8000
        }),
{
    crate::bits::lemma_law_bits();
    let l = lfsr;
    if short_mode {
        assert(lfsr_step(l, true) == (l >> 1u16) | (((l & 1) ^ ((l >> 6u16) & 1)) << 14u16));
    } else {
        assert(lfsr_step(l, false) == (l >> 1u16) | (((l & 1) ^ ((l >> 1u16) & 1)) << 14u16));
    }
}

/// Noise channel: 15-bit LFSR whose feedback taps bit 6 in short mode and
/// bit 1 otherwise, an envelope and a deferred length counter.
#[derive(Debug, Clone, Copy, PartialEq, Eq)]
pub struct Noise {
    pub enabled: bool,
    pub envelope: Envelope,
    /// Short (93-step) mode.
    pub mode: bool,
    pub timer_period: u16,
    pub timer: u16,
    pub lfsr: u16,
    pub length: u8,
    pub length_halt: bool,
    pub new_length_halt: bool,
    pub length_reload_value: u8,
    pub length_previous_value: u8,
}

impl Default for Noise {
    fn default() -> (r: Self)
        ensures
            r == Noise::silent(),
    {
        Noise {
            enabled: false,
            envelope: Envelope::default(),
            mode: false,
            timer_period: 4,
            timer: 0,
            lfsr: 1,
            length: 0,
            length_halt: false,
            new_length_halt: false,
            length_reload_value: 0,
            length_previous_value: 0,
        }
    }
}

impl Noise {
    /// The power-on channel: LFSR seeded with 1, shortest NTSC period.
    pub open spec fn silent() -> Noise {
        Noise {
            enabled: false,
            envelope: Envelope { speed: 0, mode: 0, dec_count_to_1: 0, dec_volume: 0, reload_dec: false },
            mode: false,
            timer_period: 4,
            timer: 0,
            lfsr: 1,
            length: 0,
            length_halt: false,
            new_length_halt: false,
            length_reload_value: 0,
            length_previous_value: 0,
        }
    }

    /// The channel after a half-frame length clock.
    pub open spec fn length_clocked(self) -> Noise {
        Noise { length: if !self.length_halt && self.length > 0 { (self.length - 1) as u8 } else { self.length }, ..self }
    }

    /// The channel after its queued length load and halt take effect.
    pub open spec fn length_reloaded(self) -> Noise {
        Noise {
            length: if self.length_reload_value != 0 && self.length == self.length_previous_value {
                self.length_reload_value
            } else {
                self.length
            },
            length_reload_value: 0,
            length_halt: self.new_length_halt,
            ..self
        }
    }

    /// `$400C`: envelope control and the queued length halt (bit 5).
    pub fn write_control(&mut self, value: u8)
        ensures
            *final(self) == (Noise {
                envelope: Envelope { mode: (value & 0x30) >> 4u8, speed: value & 0x0f, ..old(self).envelope },
                new_length_halt: value & 0x20 != 0,
                ..*old(self)
            }),
    {
        self.envelope.write_control(value);
        self.new_length_halt = (value & 0x20) != 0;
    }

    /// `$400E`: short mode (bit 7) and the period from the region's table,
    /// less one since the timer reloads on reaching 0.
    pub fn write_period(&mut self, value: u8, region: Region)
        ensures
            *final(self) == (Noise {
                mode: value & 0x80 != 0,
                timer_period: (noise_period_table(region == Region::Pal)[(value & 0x0f) as int] - 1) as u16,
                ..*old(self)
            }),
    {
        proof {
            crate::bits::lemma_u8_bits();
        }
        self.mode = value & 0x80 != 0;
        let i = (value & 0x0f) as usize;
        let period: u16 = match region {
            Region::Pal => {
                let t: [u16; 16] = [4, 8, 14, 30, 60, 88, 118, 148, 188, 236, 354, 472, 708, 944, 1890, 3778];
                assert(t@ =~= noise_period_table(true));
                t[i]
            },
            _ => {
                let t: [u16; 16] = [
                    0x004, 0x008, 0x010, 0x020, 0x040, 0x060, 0x080, 0x0A0, 0x0CA, 0x0FE, 0x17C, 0x1FC, 0x2FA,
                    0x3F8, 0x7F2, 0xFE4,
                ];
                assert(t@ =~= noise_period_table(false));
                t[i]
            },
        };
        self.timer_period = period - 1;
    }

    /// `$400F`: an enabled channel queues the length load; the envelope
    /// restarts.
    pub fn write_length_load(&mut self, value: u8)
        ensures
            *final(self) == (Noise {
                length_reload_value: if old(self).enabled {
                    length_table()[((value >> 3u8) & 0x1f) as int]
                } else {
                    old(self).length_reload_value
                },
                length_previous_value: if old(self).enabled { old(self).length } else { old(self).length_previous_value },
                envelope: Envelope { reload_dec: true, ..old(self).envelope },
                ..*old(self)
            }),
    {
        proof {
            crate::bits::lemma_u8_bits();
        }
        if self.enabled {
            self.length_reload_value = length_table_value((value >> 3) & 0x1f);
            self.length_previous_value = self.length;
        }
        self.envelope.schedule_restart();
    }

    /// The noise channel after one timer step: on expiry the period is
    /// reloaded and the shift register steps; otherwise the timer counts down.
    pub open spec fn timer_ticked(self) -> Noise {
        if self.timer != 0 {
            Noise { timer: (self.timer - 1) as u16, ..self }
        } else {
            Noise { timer: self.timer_period, lfsr: lfsr_step(self.lfsr, self.mode), ..self }
        }
    }

    /// Timer step: on expiry reload the period and shift the LFSR right,
    /// feeding back bit 0 xor the tap into bit 14.
    pub fn tick(&mut self)
        ensures
            *final(self) == old(self).timer_ticked(),
    {
        if self.timer == 0 {
            self.timer = self.timer_period;
            let bit0 = self.lfsr & 1;
            let shift: u16 = if self.mode { 6 } else { 1 };
            let other_bit = (self.lfsr >> shift) & 1;
            let feedback = bit0 ^ other_bit;
            self.lfsr = (self.lfsr >> 1) | (feedback << 14);
        } else {
            self.timer = self.timer - 1;
        }
    }

    /// Envelope volume while enabled, the length counter is running and LFSR
    /// bit 0 is clear; 0 otherwise.
    pub fn output(&self) -> (r: u8)
        ensures
            r == (if !self.enabled || self.length == 0 || self.lfsr & 1 != 0 { 0 } else { self.envelope.output_value() }),
    {
        if !self.enabled || self.length == 0 || self.lfsr & 1 != 0 {
            return 0;
        }
        self.envelope.output()
    }

    /// Half-frame length clock: counts down unless halted.
    pub fn clock_length(&mut self)
        ensures
            *final(self) == old(self).length_clocked(),
    {
        if !self.length_halt && self.length > 0 {
            self.length = self.length - 1;
        }
    }

    /// Apply a queued length load unless a half-frame clock changed the
    /// counter since it was queued; then the written halt flag takes effect.
    pub fn reload_length_counter(&mut self)
        ensures
            *final(self) == old(self).length_reloaded(),
    {
        if self.length_reload_value != 0 {
            if self.length == self.length_previous_value {
                self.length = self.length_reload_value;
            }
            self.length_reload_value = 0;
        }
        self.length_halt = self.new_length_halt;
    }

    /// Whether a length reload or halt change is still queued.
    pub fn has_pending_reload(&self) -> (r: bool)
        ensures
            r == (self.length_reload_value != 0 || self.length_halt != self.new_length_halt),
    {
        self.length_reload_value != 0 || self.length_halt != self.new_length_halt
    }

    /// The channel's 18 snapshot bytes.
    pub open spec fn snapshot_spec(self) -> Seq<u8> {
        seq![b2u(self.enabled)] + self.envelope.snapshot_spec() + seq![b2u(self.mode)] + u16_bytes(self.timer_period)
            + u16_bytes(self.timer) + u16_bytes(self.lfsr) + seq![
            self.length,
            b2u(self.length_halt),
            b2u(self.new_length_halt),
            self.length_reload_value,
            self.length_previous_value,
        ]
    }

    /// Append the channel's snapshot bytes.
    pub fn snapshot_bytes(&self, bytes: &mut Vec<u8>)
        ensures
            final(bytes)@ == old(bytes)@ + self.snapshot_spec(),
    {
        let ghost start = bytes@;
        bytes.push(if self.enabled { 1u8 } else { 0u8 });
        self.envelope.snapshot_bytes(bytes);
        bytes.push(if self.mode { 1u8 } else { 0u8 });
        push_u16(bytes, self.timer_period);
        push_u16(bytes, self.timer);
        push_u16(bytes, self.lfsr);
        bytes.push(self.length);
        bytes.push(if self.length_halt { 1u8 } else { 0u8 });
        bytes.push(if self.new_length_halt { 1u8 } else { 0u8 });
        bytes.push(self.length_reload_value);
        bytes.push(self.length_previous_value);
        assert(bytes@ =~= start + self.snapshot_spec());
    }

    /// The channel decoded from `s` at offset `o`.
    pub open spec fn decoded(s: Seq<u8>, o: int) -> Noise {
        Noise {
            enabled: s[o] != 0,
            envelope: Envelope {
                speed: s[o + 1],
                mode: s[o + 2],
                dec_count_to_1: s[o + 3],
                dec_volume: s[o + 4],
                reload_dec: s[o + 5] != 0,
            },
            mode: s[o + 6] != 0,
            timer_period: u16_at(s, o + 7),
            timer: u16_at(s, o + 9),
            lfsr: u16_at(s, o + 11),
            length: s[o + 13],
            length_halt: s[o + 14] != 0,
            new_length_halt: s[o + 15] != 0,
            length_reload_value: s[o + 16],
            length_previous_value: s[o + 17],
        }
    }

    /// Read the channel back from `bytes` at `*offset`, advancing it by 18.
    pub fn restore_snapshot(&mut self, bytes: &[u8], offset: &mut usize)
        requires
            *old(offset) + 18 <= bytes@.len(),
        ensures
            *final(offset) == *old(offset) + 18,
            *final(self) == Noise::decoded(bytes@, *old(offset) as int),
    {
        let o = *offset;
        self.enabled = bytes[o] != 0;
        *offset = o + 1;
        self.envelope.restore_snapshot(bytes, offset);
        self.mode = bytes[o + 6] != 0;
        self.timer_period = read_u16(bytes, o + 7);
        self.timer = read_u16(bytes, o + 9);
        self.lfsr = read_u16(bytes, o + 11);
        self.length = bytes[o + 13];
        self.length_halt = bytes[o + 14] != 0;
        self.new_length_halt = bytes[o + 15] != 0;
        self.length_reload_value = bytes[o + 16];
        self.length_previous_value = bytes[o + 17];
        *offset = o + 18;
    }
}

/// Restoring a noise channel from its own snapshot gives it back.
pub proof fn lemma_noise_snapshot_roundtrip(n: Noise, pre: Seq<u8>, post: Seq<u8>)
    ensures
        Noise::decoded(pre + n.snapshot_spec() + post, pre.len() as int) == n,
{
    let s = pre + n.snapshot_spec() + post;
    let o = pre.len() as int;
    let sp = n.snapshot_spec();
    assert(sp.len() == 18);
    assert forall|k: int| 0 <= k < 18 implies s[o + k] == #[trigger] sp[k] by {}
    assert(s.subrange(o + 7, o + 9) =~= u16_bytes(n.timer_period));
    assert(s.subrange(o + 9, o + 11) =~= u16_bytes(n.timer));
    assert(s.subrange(o + 11, o + 13) =~= u16_bytes(n.lfsr));
    crate::bytes::lemma_u16_at_bytes(s, o + 7, n.timer_period);
    crate::bytes::lemma_u16_at_bytes(s, o + 9, n.timer);
    crate::bytes::lemma_u16_at_bytes(s, o + 11, n.lfsr);
    assert(s[o + 5] == b2u(n.envelope.reload_dec));
}

} // verus!
