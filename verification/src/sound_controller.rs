//! The four-channel sound controller.
//!
//! Channel 1 is a square wave with sweep and envelope, channel 2 a square
//! wave with envelope, channel 3 plays half-byte samples out of wave memory,
//! and channel 4's noise registers are stored but not synthesized. The frame
//! sequencer, driven off the system clock at 512 Hz, clocks the length
//! counters at 256 Hz, the sweep at 128 Hz and the envelopes at 64 Hz. The
//! unit is lazy: it catches up from `last_clock` to the bus clock inside
//! every read, write and sample drain.

use vstd::prelude::*;

use crate::bits::{freq11, lemma_freq11_bound, lemma_u16_shr_le, lemma_u8_and_bound,
    lemma_u8_bit01, lemma_u8_shr_le, lemma_volume_bounds, zero_vec};
use crate::consts::CLOCK_SPEED;

verus! {

/// Mathematical model of the sound controller.
#[verifier::ext_equal]
pub ghost struct SoundV {
    pub nr10: u8,
    pub nr11: u8,
    pub nr12: u8,
    pub nr13: u8,
    pub nr14: u8,
    pub nr21: u8,
    pub nr22: u8,
    pub nr23: u8,
    pub nr24: u8,
    pub nr30: u8,
    pub nr31: u8,
    pub nr32: u8,
    pub nr33: u8,
    pub nr34: u8,
    pub nr41: u8,
    pub nr42: u8,
    pub nr43: u8,
    pub nr44: u8,
    pub nr50: u8,
    pub nr51: u8,
    pub nr52: u8,
    pub wave: Seq<u8>,
    pub on: bool,
    pub ch1_channel_enable: bool,
    pub ch1_length_timer: u8,
    pub ch1_sweep_enabled: bool,
    pub ch1_shadow_freq: u16,
    pub ch1_sweep_timer: u8,
    pub ch1_frequency_timer: u16,
    pub ch1_wave_duty_position: u8,
    pub ch1_current_volume: u8,
    pub ch1_env_period_timer: u8,
    pub ch2_channel_enable: bool,
    pub ch2_length_timer: u8,
    pub ch2_frequency_timer: u16,
    pub ch2_wave_duty_position: u8,
    pub ch2_current_volume: u8,
    pub ch2_env_period_timer: u8,
    pub ch3_channel_enable: bool,
    pub ch3_length_timer: u16,
    pub ch3_frequency_timer: u16,
    pub ch3_wave_position: u8,
    pub output: Seq<u16>,
    pub last_clock: u64,
    pub sample_frequency: u64,
    pub sample_mod: u64,
}

pub struct SoundController {
    pub nr10: u8,
    pub nr11: u8,
    pub nr12: u8,
    pub nr13: u8,
    pub nr14: u8,
    pub nr21: u8,
    pub nr22: u8,
    pub nr23: u8,
    pub nr24: u8,
    pub nr30: u8,
    pub nr31: u8,
    pub nr32: u8,
    pub nr33: u8,
    pub nr34: u8,
    pub nr41: u8,
    pub nr42: u8,
    pub nr43: u8,
    pub nr44: u8,
    pub nr50: u8,
    pub nr51: u8,
    pub nr52: u8,
    pub ch3_wave_pattern: Vec<u8>,
    pub on: bool,
    pub ch1_channel_enable: bool,
    pub ch1_length_timer: u8,
    pub ch1_sweep_enabled: bool,
    pub ch1_shadow_freq: u16,
    pub ch1_sweep_timer: u8,
    pub ch1_frequency_timer: u16,
    pub ch1_wave_duty_position: u8,
    pub ch1_current_volume: u8,
    pub ch1_env_period_timer: u8,
    pub ch2_channel_enable: bool,
    pub ch2_length_timer: u8,
    pub ch2_frequency_timer: u16,
    pub ch2_wave_duty_position: u8,
    pub ch2_current_volume: u8,
    pub ch2_env_period_timer: u8,
    pub ch3_channel_enable: bool,
    pub ch3_length_timer: u16,
    pub ch3_frequency_timer: u16,
    pub ch3_wave_position: u8,
    pub output: Vec<u16>,
    pub last_clock: u64,
    /// Host-chosen output sample rate in Hertz.
    pub sample_frequency: u64,
    pub sample_mod: u64,
}

impl View for SoundController {
    type V = SoundV;

    open spec fn view(&self) -> SoundV {
        SoundV {
            nr10: self.nr10,
            nr11: self.nr11,
            nr12: self.nr12,
            nr13: self.nr13,
            nr14: self.nr14,
            nr21: self.nr21,
            nr22: self.nr22,
            nr23: self.nr23,
            nr24: self.nr24,
            nr30: self.nr30,
            nr31: self.nr31,
            nr32: self.nr32,
            nr33: self.nr33,
            nr34: self.nr34,
            nr41: self.nr41,
            nr42: self.nr42,
            nr43: self.nr43,
            nr44: self.nr44,
            nr50: self.nr50,
            nr51: self.nr51,
            nr52: self.nr52,
            wave: self.ch3_wave_pattern@,
            on: self.on,
            ch1_channel_enable: self.ch1_channel_enable,
            ch1_length_timer: self.ch1_length_timer,
            ch1_sweep_enabled: self.ch1_sweep_enabled,
            ch1_shadow_freq: self.ch1_shadow_freq,
            ch1_sweep_timer: self.ch1_sweep_timer,
            ch1_frequency_timer: self.ch1_frequency_timer,
            ch1_wave_duty_position: self.ch1_wave_duty_position,
            ch1_current_volume: self.ch1_current_volume,
            ch1_env_period_timer: self.ch1_env_period_timer,
            ch2_channel_enable: self.ch2_channel_enable,
            ch2_length_timer: self.ch2_length_timer,
            ch2_frequency_timer: self.ch2_frequency_timer,
            ch2_wave_duty_position: self.ch2_wave_duty_position,
            ch2_current_volume: self.ch2_current_volume,
            ch2_env_period_timer: self.ch2_env_period_timer,
            ch3_channel_enable: self.ch3_channel_enable,
            ch3_length_timer: self.ch3_length_timer,
            ch3_frequency_timer: self.ch3_frequency_timer,
            ch3_wave_position: self.ch3_wave_position,
            output: self.output@,
            last_clock: self.last_clock,
            sample_frequency: self.sample_frequency,
            sample_mod: self.sample_mod,
        }
    }
}

/// Ranges the internal counters stay in.
pub open spec fn snd_wf(s: SoundV) -> bool {
    &&& s.wave.len() == 16
    &&& s.ch1_wave_duty_position < 8
    &&& s.ch2_wave_duty_position < 8
    &&& s.ch3_wave_position < 32
    &&& s.ch1_current_volume < 16
    &&& s.ch2_current_volume < 16
    &&& s.ch1_shadow_freq < 2048
    &&& s.sample_frequency < CLOCK_SPEED
    &&& s.sample_mod < CLOCK_SPEED
}

/// The four duty patterns: 12.5%, 25%, 50% and 75% of the period high.
pub open spec fn spec_duty_wave(duty: u8) -> u8 {
    match duty {
        0 => 0b0000_0001,
        1 => 0b0000_0011,
        2 => 0b0000_1111,
        _ => 0b1111_1100,
    }
}

fn duty_wave(duty: u8) -> (r: u8)
    ensures
        r == spec_duty_wave(duty),
{
    match duty {
        0 => 0b0000_0001,
        1 => 0b0000_0011,
        2 => 0b0000_1111,
        _ => 0b1111_1100,
    }
}

/// One envelope tick: returns the new period timer and volume.
pub open spec fn spec_env(period: u8, timer: u8, vol: u8, up: bool) -> (u8, u8) {
    if period == 0 {
        (timer, vol)
    } else {
        let t1 = if timer > 0 {
            (timer - 1) as u8
        } else {
            timer
        };
        if t1 == 0 {
            let v2 = if vol < 0xF && up {
                (vol + 1) as u8
            } else if vol > 0 && !up {
                (vol - 1) as u8
            } else {
                vol
            };
            (period, v2)
        } else {
            (t1, vol)
        }
    }
}

fn env_step(period: u8, timer: u8, vol: u8, up: bool) -> (r: (u8, u8))
    ensures
        r == spec_env(period, timer, vol, up),
{
    if period == 0 {
        return (timer, vol);
    }
    let t1 = if timer > 0 {
        timer - 1
    } else {
        timer
    };
    if t1 == 0 {
        let v2 = if vol < 0xF && up {
            vol + 1
        } else if vol > 0 && !up {
            vol - 1
        } else {
            vol
        };
        (period, v2)
    } else {
        (t1, vol)
    }
}

/// The sweep unit's next frequency: the shadow frequency shifted down and
/// added or subtracted.
pub open spec fn spec_calc_freq(shadow: u16, shift: u8, down: bool) -> u16 {
    let d = shadow >> (shift as u16);
    if down {
        (shadow - d) as u16
    } else {
        (shadow + d) as u16
    }
}

/// The overflow check: a next frequency of 2048 or more disables channel 1
/// and its sweep unit.
pub open spec fn spec_apply_overflow(s: SoundV, nf: u16) -> SoundV {
    if nf >= 2048 {
        SoundV { ch1_sweep_enabled: false, ch1_channel_enable: false, ..s }
    } else {
        s
    }
}

/// One T-cycle of the three frequency timers; a timer that runs out
/// reloads from the channel frequency and advances the wave position.
pub open spec fn spec_freq_step(s: SoundV, f1: u16) -> SoundV {
    let f2 = freq11(s.nr24, s.nr23);
    let f3 = freq11(s.nr34, s.nr33);
    let s1 = if s.ch1_frequency_timer <= 1 {
        SoundV {
            ch1_frequency_timer: ((2048 - f1) * 4) as u16,
            ch1_wave_duty_position: ((s.ch1_wave_duty_position + 1) % 8) as u8,
            ..s
        }
    } else {
        SoundV { ch1_frequency_timer: (s.ch1_frequency_timer - 1) as u16, ..s }
    };
    let s2 = if s1.ch2_frequency_timer <= 1 {
        SoundV {
            ch2_frequency_timer: ((2048 - f2) * 4) as u16,
            ch2_wave_duty_position: ((s1.ch2_wave_duty_position + 1) % 8) as u8,
            ..s1
        }
    } else {
        SoundV { ch2_frequency_timer: (s1.ch2_frequency_timer - 1) as u16, ..s1 }
    };
    if s2.ch3_frequency_timer <= 1 {
        SoundV {
            ch3_frequency_timer: ((2048 - f3) * 2) as u16,
            ch3_wave_position: ((s2.ch3_wave_position + 1) % 32) as u8,
            ..s2
        }
    } else {
        SoundV { ch3_frequency_timer: (s2.ch3_frequency_timer - 1) as u16, ..s2 }
    }
}

/// One 256 Hz length tick: counters with their enable bit set count down,
/// and a counter that reaches zero silences its channel.
pub open spec fn spec_length_step(s: SoundV) -> SoundV {
    let s1 = if s.nr14 & 0x40 != 0 && s.ch1_length_timer != 0 {
        let t = (s.ch1_length_timer - 1) as u8;
        SoundV { ch1_length_timer: t, ch1_channel_enable: t != 0 && s.ch1_channel_enable, ..s }
    } else {
        s
    };
    let s2 = if s1.nr24 & 0x40 != 0 && s1.ch2_length_timer != 0 {
        let t = (s1.ch2_length_timer - 1) as u8;
        SoundV { ch2_length_timer: t, ch2_channel_enable: t != 0 && s1.ch2_channel_enable, ..s1 }
    } else {
        s1
    };
    if s2.nr34 & 0x40 != 0 && s2.ch3_length_timer != 0 {
        let t = (s2.ch3_length_timer - 1) as u16;
        SoundV { ch3_length_timer: t, ch3_channel_enable: t != 0 && s2.ch3_channel_enable, ..s2 }
    } else {
        s2
    }
}

/// One 64 Hz envelope tick for the two square channels.
pub open spec fn spec_env_step_all(s: SoundV) -> SoundV {
    let e1 = spec_env(
        s.nr12 & 0x7,
        s.ch1_env_period_timer,
        s.ch1_current_volume,
        s.nr12 & 0x08 != 0,
    );
    let e2 = spec_env(
        s.nr22 & 0x7,
        s.ch2_env_period_timer,
        s.ch2_current_volume,
        s.nr22 & 0x08 != 0,
    );
    SoundV {
        ch1_env_period_timer: e1.0,
        ch1_current_volume: e1.1,
        ch2_env_period_timer: e2.0,
        ch2_current_volume: e2.1,
        ..s
    }
}

/// One 128 Hz sweep tick; returns the unit and the possibly recomputed
/// channel-1 frequency.
pub open spec fn spec_sweep_step(s: SoundV, f1: u16) -> (SoundV, u16) {
    let period = (s.nr10 & 0x70) >> 4;
    let shift = s.nr10 & 0x7;
    let down = s.nr10 & 0x80 != 0;
    let s1 = if s.ch1_sweep_timer > 0 {
        SoundV { ch1_sweep_timer: (s.ch1_sweep_timer - 1) as u8, ..s }
    } else {
        s
    };
    if s1.ch1_sweep_timer == 0 {
        let s2 = SoundV {
            ch1_sweep_timer: if period == 0 {
                8u8
            } else {
                period
            },
            ..s1
        };
        if s2.ch1_sweep_enabled && period != 0 {
            let nf = spec_calc_freq(s2.ch1_shadow_freq, shift, down);
            let s3 = spec_apply_overflow(s2, nf);
            if nf < 2048 && shift > 0 {
                let s4 = SoundV {
                    nr14: (s3.nr14 & 0xF8) | (((nf >> 8) as u8) & 0x7),
                    nr13: nf as u8,
                    ch1_shadow_freq: nf,
                    ..s3
                };
                let nf2 = spec_calc_freq(nf, shift, down);
                (spec_apply_overflow(s4, nf2), nf)
            } else {
                (s3, f1)
            }
        } else {
            (s2, f1)
        }
    } else {
        (s1, f1)
    }
}

/// The sweep unit after `n` firings of the 128 Hz sweep clock.
pub open spec fn spec_sweep_iter(s: SoundV, f1: u16, n: nat) -> (SoundV, u16)
    decreases n,
{
    if n == 0 {
        (s, f1)
    } else {
        let r = spec_sweep_iter(s, f1, (n - 1) as nat);
        spec_sweep_step(r.0, r.1)
    }
}

/// Splitting a run of sweep-clock firings anywhere gives the same unit.
pub proof fn lemma_sweep_iter_add(s: SoundV, f1: u16, n: nat, m: nat)
    ensures
        spec_sweep_iter(s, f1, n + m) == spec_sweep_iter(
            spec_sweep_iter(s, f1, n).0,
            spec_sweep_iter(s, f1, n).1,
            m,
        ),
    decreases m,
{
    if m > 0 {
        lemma_sweep_iter_add(s, f1, n, (m - 1) as nat);
    }
}

/// Sweep-clock firings that only count the timer down change nothing else.
pub proof fn lemma_sweep_idle_span(s: SoundV, f1: u16, n: nat)
    requires
        n < s.ch1_sweep_timer,
    ensures
        spec_sweep_iter(s, f1, n) == (SoundV {
            ch1_sweep_timer: (s.ch1_sweep_timer - n) as u8,
            ..s
        }, f1),
    decreases n,
{
    if n == 0 {
        assert(spec_sweep_iter(s, f1, 0).0 =~= s);
    } else {
        lemma_sweep_idle_span(s, f1, (n - 1) as nat);
    }
}

/// A sweep-clock firing that reaches the timer and recomputes a frequency
/// of 2048 or more silences channel 1.
pub proof fn lemma_sweep_overflow_silences(s: SoundV, f1: u16)
    requires
        s.ch1_sweep_timer <= 1,
        (s.nr10 & 0x70) >> 4 != 0,
        s.ch1_sweep_enabled,
        spec_calc_freq(s.ch1_shadow_freq, s.nr10 & 0x7, s.nr10 & 0x80 != 0) >= 2048,
    ensures
        !spec_sweep_step(s, f1).0.ch1_channel_enable,
{
}

/// The sweep-overflow scenario: the channel-1 trigger with NR10 holding
/// sweep period 7 and shift 7 leaves the sweep timer at 7 and the shadow
/// frequency at the programmed 11-bit frequency; from 2000 the sweep
/// climbs by 15 per recomputation (2015, 2030, 2045), and on the third
/// recomputation the overflow check's second calculation passes 2047:
/// twenty-one firings of the 128 Hz sweep clock silence channel 1.
pub proof fn lemma_sweep_trigger_overflow(s: SoundV, f1: u16)
    requires
        s.nr10 == 0x77,
        s.ch1_sweep_timer == 7,
        s.ch1_shadow_freq == 2000,
        s.ch1_sweep_enabled,
    ensures
        !spec_sweep_iter(s, f1, 21).0.ch1_channel_enable,
{
    assert((0x77u8 & 0x70) >> 4 == 7 && 0x77u8 & 0x7 == 7 && 0x77u8 & 0x80 == 0) by (bit_vector);
    assert(2000u16 >> 7 == 15 && 2015u16 >> 7 == 15 && 2030u16 >> 7 == 15 && 2045u16 >> 7 == 15)
        by (bit_vector);
    lemma_sweep_idle_span(s, f1, 6);
    let r6 = spec_sweep_iter(s, f1, 6);
    lemma_sweep_iter_add(s, f1, 6, 1);
    let r7 = spec_sweep_iter(s, f1, 7);
    assert(r7 == spec_sweep_step(r6.0, r6.1));
    assert(r7.0.ch1_sweep_timer == 7 && r7.0.ch1_shadow_freq == 2015 && r7.0.ch1_sweep_enabled
        && r7.0.nr10 == 0x77);
    lemma_sweep_iter_add(s, f1, 7, 6);
    lemma_sweep_idle_span(r7.0, r7.1, 6);
    let r13 = spec_sweep_iter(s, f1, 13);
    lemma_sweep_iter_add(s, f1, 13, 1);
    let r14 = spec_sweep_iter(s, f1, 14);
    assert(r14 == spec_sweep_step(r13.0, r13.1));
    assert(r14.0.ch1_sweep_timer == 7 && r14.0.ch1_shadow_freq == 2030 && r14.0.ch1_sweep_enabled
        && r14.0.nr10 == 0x77);
    lemma_sweep_iter_add(s, f1, 14, 6);
    lemma_sweep_idle_span(r14.0, r14.1, 6);
    let r20 = spec_sweep_iter(s, f1, 20);
    lemma_sweep_iter_add(s, f1, 20, 1);
    assert(spec_sweep_iter(s, f1, 21) == spec_sweep_step(r20.0, r20.1));
    assert(spec_calc_freq(2045, 7, false) == 2060);
}

/// The frame sequencer at T-cycle `clock`: length at 256 Hz, envelope at
/// 64 Hz, sweep at 128 Hz on the half-phase.
pub open spec fn spec_frame_seq(s: SoundV, f1: u16, clock: u64) -> (SoundV, u16) {
    if clock % 8192 != 0 {
        (s, f1)
    } else {
        let s1 = if clock % 16384 == 0 {
            spec_length_step(s)
        } else {
            s
        };
        let s2 = if clock % 65536 == 0 {
            spec_env_step_all(s1)
        } else {
            s1
        };
        if clock % 32768 == 16384 {
            spec_sweep_step(s2, f1)
        } else {
            (s2, f1)
        }
    }
}

/// Amplitude of a square channel: the duty bit at the current position
/// times the envelope volume.
pub open spec fn spec_square_amp(duty_reg: u8, pos: u8, vol: u8) -> u8 {
    (((spec_duty_wave((duty_reg >> 6) & 0x3) >> pos) & 1) * vol) as u8
}

/// Channel 3's amplitude: the selected half-byte of wave memory shifted by
/// the output level (mute, 100%, 50%, 25%).
pub open spec fn spec_wave_amp(s: SoundV) -> u8 {
    let lvl: u8 = match (s.nr32 >> 5) & 0x3 {
        0 => 4,
        1 => 0,
        2 => 1,
        _ => 2,
    };
    let b = s.wave[s.ch3_wave_position as int / 2];
    let nib = if s.ch3_wave_position % 2 == 0 {
        (b >> 4) & 0xF
    } else {
        b & 0xF
    };
    nib >> lvl
}

/// The stereo sample pair mixed from the enabled channels through the
/// NR51 routing and the NR50 master volumes.
pub open spec fn spec_mix(s: SoundV) -> (u16, u16) {
    let a1 = spec_square_amp(s.nr11, s.ch1_wave_duty_position, s.ch1_current_volume);
    let a2 = spec_square_amp(s.nr21, s.ch2_wave_duty_position, s.ch2_current_volume);
    let a3 = spec_wave_amp(s);
    let left = ((if s.ch1_channel_enable && s.nr51 & 0x10 != 0 {
        a1 as int
    } else {
        0int
    }) + (if s.ch2_channel_enable && s.nr51 & 0x20 != 0 {
        a2 as int
    } else {
        0int
    }) + (if s.ch3_channel_enable && s.nr30 & 0x80 != 0 && s.nr51 & 0x40 != 0 {
        a3 as int
    } else {
        0int
    })) as u16;
    let right = ((if s.ch1_channel_enable && s.nr51 & 0x01 != 0 {
        a1 as int
    } else {
        0int
    }) + (if s.ch2_channel_enable && s.nr51 & 0x02 != 0 {
        a2 as int
    } else {
        0int
    }) + (if s.ch3_channel_enable && s.nr30 & 0x80 != 0 && s.nr51 & 0x04 != 0 {
        a3 as int
    } else {
        0int
    })) as u16;
    let vl = ((s.nr50 & 0x70) >> 4) as u16;
    let vr = (s.nr50 & 0x7) as u16;
    ((left * vl) as u16, (right * vr) as u16)
}

/// The sampling phase advances every T-cycle; when it wraps below the
/// sample rate, one stereo pair is appended to the output queue.
pub open spec fn spec_sample_emit(s: SoundV) -> SoundV {
    let m = ((s.sample_mod + s.sample_frequency) % (CLOCK_SPEED as int)) as u64;
    let s1 = SoundV { sample_mod: m, ..s };
    if m < s.sample_frequency {
        let pair = spec_mix(s1);
        SoundV { output: s1.output.push(pair.0).push(pair.1), ..s1 }
    } else {
        s1
    }
}

/// One T-cycle of the powered-on unit at clock `clock`.
pub open spec fn spec_apu_cycle(s: SoundV, f1: u16, clock: u64) -> (SoundV, u16) {
    let s1 = spec_freq_step(s, f1);
    let r = spec_frame_seq(s1, f1, clock);
    (spec_sample_emit(r.0), r.1)
}

/// Run the powered-on unit from T-cycle `c` (exclusive upper bound `end`).
pub open spec fn spec_apu_run(s: SoundV, f1: u16, c: u64, end: u64) -> (SoundV, u16)
    decreases end - c,
{
    if c >= end {
        (s, f1)
    } else {
        let r = spec_apu_cycle(s, f1, c);
        spec_apu_run(r.0, r.1, (c + 1) as u64, end)
    }
}

/// How many sample slots fall in the powered-off stretch: multiples of the
/// sample period between `last` and `clock`, counted from a whole-second
/// anchor below `last`.
pub open spec fn spec_off_count(last: u64, clock: u64, fs: u64) -> int {
    let l = (last % CLOCK_SPEED) as int;
    let r = clock - last + l;
    r * fs / (CLOCK_SPEED as int) - l * fs / (CLOCK_SPEED as int) + if (l * fs) % (
    CLOCK_SPEED as int) < fs {
        1int
    } else {
        0int
    }
}

/// Catch the unit up to `clock`. Powered off it emits the due number of
/// silent pairs and leaves the phase untouched; powered on it runs the
/// synthesis loop cycle by cycle.
pub open spec fn spec_apu_update(s: SoundV, clock: u64) -> SoundV {
    if !s.on {
        SoundV {
            output: s.output + Seq::new(
                (2 * spec_off_count(s.last_clock, clock, s.sample_frequency)) as nat,
                |i: int| 0u16,
            ),
            last_clock: clock,
            ..s
        }
    } else {
        let r = spec_apu_run(s, freq11(s.nr14, s.nr13), s.last_clock, clock);
        SoundV { last_clock: clock, ..r.0 }
    }
}

/// Power-off (NR52 bit 7 cleared): every register and channel state is
/// cleared and the unit silenced; the output queue, the sampling phase and
/// the clock bookkeeping stay.
pub open spec fn spec_power_off(s: SoundV) -> SoundV {
    SoundV {
        nr10: 0,
        nr11: 0,
        nr12: 0,
        nr13: 0,
        nr14: 0,
        nr21: 0,
        nr22: 0,
        nr23: 0,
        nr24: 0,
        nr30: 0,
        nr31: 0,
        nr32: 0,
        nr33: 0,
        nr34: 0,
        nr41: 0,
        nr42: 0,
        nr43: 0,
        nr44: 0,
        nr50: 0,
        nr51: 0,
        nr52: 0,
        wave: Seq::new(16, |i: int| 0u8),
        on: false,
        ch1_channel_enable: false,
        ch1_length_timer: 0,
        ch1_sweep_enabled: false,
        ch1_shadow_freq: 0,
        ch1_sweep_timer: 0,
        ch1_frequency_timer: 0,
        ch1_wave_duty_position: 0,
        ch1_current_volume: 0,
        ch1_env_period_timer: 0,
        ch2_channel_enable: false,
        ch2_length_timer: 0,
        ch2_frequency_timer: 0,
        ch2_wave_duty_position: 0,
        ch2_current_volume: 0,
        ch2_env_period_timer: 0,
        ch3_channel_enable: false,
        ch3_length_timer: 0,
        ch3_frequency_timer: 0,
        ch3_wave_position: 0,
        output: s.output,
        last_clock: s.last_clock,
        sample_frequency: s.sample_frequency,
        sample_mod: s.sample_mod,
    }
}

/// Channel 1 trigger (NR14 with bit 7): reload length, frequency timer,
/// envelope and sweep, freeze the shadow frequency, run the first overflow
/// check, and stay silent if the DAC is off.
pub open spec fn spec_ch1_trigger(s: SoundV, value: u8) -> SoundV {
    if value & 0x80 == 0 {
        SoundV { nr14: value, ..s }
    } else {
        let freq = freq11(value, s.nr13);
        let period = (s.nr10 & 0x70) >> 4;
        let shift = s.nr10 & 0x7;
        let down = s.nr10 & 0x80 != 0;
        let s1 = SoundV {
            nr14: value,
            ch1_channel_enable: true,
            ch1_length_timer: if s.ch1_length_timer == 0 {
                64u8
            } else {
                s.ch1_length_timer
            },
            ch1_frequency_timer: ((2048 - freq) * 4) as u16,
            ch1_wave_duty_position: 0,
            ch1_sweep_timer: if period == 0 {
                8u8
            } else {
                period
            },
            ch1_shadow_freq: freq,
            ch1_sweep_enabled: period != 0 || shift != 0,
            ch1_env_period_timer: s.nr12 & 0x07,
            ch1_current_volume: (s.nr12 & 0xF0) >> 4,
            ..s
        };
        let s2 = if period != 0 {
            spec_apply_overflow(s1, spec_calc_freq(s1.ch1_shadow_freq, shift, down))
        } else {
            s1
        };
        if s.nr12 & 0xF8 == 0 {
            SoundV { ch1_channel_enable: false, ..s2 }
        } else {
            s2
        }
    }
}

/// Channel 2 trigger (NR24 with bit 7).
pub open spec fn spec_ch2_trigger(s: SoundV, value: u8) -> SoundV {
    if value & 0x80 == 0 {
        SoundV { nr24: value, ..s }
    } else {
        let freq = freq11(value, s.nr23);
        SoundV {
            nr24: value,
            ch2_channel_enable: s.nr22 & 0xF8 != 0,
            ch2_length_timer: if s.ch2_length_timer == 0 {
                64u8
            } else {
                s.ch2_length_timer
            },
            ch2_env_period_timer: s.nr22 & 0x07,
            ch2_current_volume: (s.nr22 & 0xF0) >> 4,
            ch2_frequency_timer: ((2048 - freq) * 4) as u16,
            ch2_wave_duty_position: 0,
            ..s
        }
    }
}

/// Channel 3 trigger (NR34 with bit 7).
pub open spec fn spec_ch3_trigger(s: SoundV, value: u8) -> SoundV {
    if value & 0x80 == 0 {
        SoundV { nr34: value, ..s }
    } else {
        let freq = freq11(value, s.nr33);
        SoundV {
            nr34: value,
            ch3_channel_enable: s.nr30 & 0x80 != 0,
            ch3_length_timer: if s.ch3_length_timer == 0 {
                256u16
            } else {
                s.ch3_length_timer
            },
            ch3_frequency_timer: ((2048 - freq) * 2) as u16,
            ch3_wave_position: 0,
            ..s
        }
    }
}

/// Effect of a register write on a caught-up unit.
pub open spec fn spec_reg_write(s: SoundV, address: u8, value: u8) -> SoundV {
    match address {
        0x10 => SoundV { nr10: value, ..s },
        0x11 => SoundV { nr11: value, ch1_length_timer: (64 - (value & 0x3F)) as u8, ..s },
        0x12 => SoundV { nr12: value, ..s },
        0x13 => SoundV { nr13: value, ..s },
        0x14 => spec_ch1_trigger(s, value),
        0x16 => SoundV { nr21: value, ch2_length_timer: (64 - (value & 0x3F)) as u8, ..s },
        0x17 => SoundV { nr22: value, ..s },
        0x18 => SoundV { nr23: value, ..s },
        0x19 => spec_ch2_trigger(s, value),
        0x1A => SoundV {
            nr30: value,
            ch3_channel_enable: s.ch3_channel_enable && value & 0x80 != 0,
            ..s
        },
        0x1B => SoundV { nr31: value, ch3_length_timer: (256 - value) as u16, ..s },
        0x1C => SoundV { nr32: value, ..s },
        0x1D => SoundV { nr33: value, ..s },
        0x1E => spec_ch3_trigger(s, value),
        0x20 => SoundV { nr41: value, ..s },
        0x21 => SoundV { nr42: value, ..s },
        0x22 => SoundV { nr43: value, ..s },
        0x23 => SoundV { nr44: value, ..s },
        0x24 => SoundV { nr50: value, ..s },
        0x25 => SoundV { nr51: value, ..s },
        0x26 => if value & 0x80 == 0 {
            spec_power_off(s)
        } else {
            SoundV { on: true, ..s }
        },
        _ => if 0x30 <= address <= 0x3F {
            SoundV { wave: s.wave.update(address - 0x30, value), ..s }
        } else {
            s
        },
    }
}

/// A register write at bus clock `clock`: the unit first catches up, then
/// the register takes effect.
pub open spec fn spec_apu_write(s: SoundV, clock: u64, address: u8, value: u8) -> SoundV {
    spec_reg_write(spec_apu_update(s, clock), address, value)
}

/// The visible value of a sound register: the stored byte.
pub open spec fn spec_apu_read(s: SoundV, address: u8) -> u8 {
    match address {
        0x10 => s.nr10,
        0x11 => s.nr11,
        0x12 => s.nr12,
        0x13 => s.nr13,
        0x14 => s.nr14,
        0x16 => s.nr21,
        0x17 => s.nr22,
        0x18 => s.nr23,
        0x19 => s.nr24,
        0x1A => s.nr30,
        0x1B => s.nr31,
        0x1C => s.nr32,
        0x1D => s.nr33,
        0x1E => s.nr34,
        0x20 => s.nr41,
        0x21 => s.nr42,
        0x22 => s.nr43,
        0x23 => s.nr44,
        0x24 => s.nr50,
        0x25 => s.nr51,
        0x26 => s.nr52,
        _ => if 0x30 <= address <= 0x3F {
            s.wave[address - 0x30]
        } else {
            0xFF
        },
    }
}

/// Catching the unit up to a clock it has already reached changes no
/// visible register value: powered on, the run spans no T-cycle and is the
/// identity; powered off, only the output queue grows.
pub proof fn lemma_apu_update_read_stable(s: SoundV, clock: u64, address: u8)
    requires
        s.last_clock == clock,
    ensures
        spec_apu_read(spec_apu_update(s, clock), address) == spec_apu_read(s, address),
{
    if s.on {
        assert(spec_apu_run(s, freq11(s.nr14, s.nr13), s.last_clock, clock) == (
        s,
        freq11(s.nr14, s.nr13),
        ));
        assert(spec_apu_update(s, clock) =~= s);
    }
}

fn freq11_x(hi: u8, lo: u8) -> (r: u16)
    ensures
        r == freq11(hi, lo),
{
    (((hi as u16) << 8) | (lo as u16)) & 0x07FF
}

impl SoundController {
    /// The unit at power-on: silent, every register cleared, sampling at
    /// 48 kHz.
    pub open spec fn spec_default() -> SoundV {
        SoundV {
            nr10: 0,
            nr11: 0,
            nr12: 0,
            nr13: 0,
            nr14: 0,
            nr21: 0,
            nr22: 0,
            nr23: 0,
            nr24: 0,
            nr30: 0,
            nr31: 0,
            nr32: 0,
            nr33: 0,
            nr34: 0,
            nr41: 0,
            nr42: 0,
            nr43: 0,
            nr44: 0,
            nr50: 0,
            nr51: 0,
            nr52: 0,
            wave: Seq::new(16, |i: int| 0u8),
            on: false,
            ch1_channel_enable: false,
            ch1_length_timer: 0,
            ch1_sweep_enabled: false,
            ch1_shadow_freq: 0,
            ch1_sweep_timer: 0,
            ch1_frequency_timer: 0,
            ch1_wave_duty_position: 0,
            ch1_current_volume: 0,
            ch1_env_period_timer: 0,
            ch2_channel_enable: false,
            ch2_length_timer: 0,
            ch2_frequency_timer: 0,
            ch2_wave_duty_position: 0,
            ch2_current_volume: 0,
            ch2_env_period_timer: 0,
            ch3_channel_enable: false,
            ch3_length_timer: 0,
            ch3_frequency_timer: 0,
            ch3_wave_position: 0,
            output: Seq::empty(),
            last_clock: 0,
            sample_frequency: 48_000,
            sample_mod: 0,
        }
    }

    /// The unit of the post-boot fingerprint: powered on with the
    /// documented register values, all channels quiet again.
    pub open spec fn spec_after_boot(clock: u64) -> SoundV {
        SoundV {
            nr10: 0x80,
            nr11: 0xBF,
            nr12: 0xF3,
            nr13: 0xFF,
            nr14: 0xBF,
            nr21: 0x3F,
            nr22: 0x00,
            nr23: 0xFF,
            nr24: 0xBF,
            nr30: 0x7F,
            nr31: 0xFF,
            nr32: 0x9F,
            nr33: 0xFF,
            nr34: 0xBF,
            nr41: 0xFF,
            nr42: 0x00,
            nr43: 0x00,
            nr44: 0xBF,
            nr50: 0x77,
            nr51: 0xF3,
            nr52: 0xF1,
            last_clock: clock,
            on: true,
            ..SoundController::spec_default()
        }
    }

    pub fn after_boot(clock: u64) -> (r: SoundController)
        ensures
            r@ == SoundController::spec_after_boot(clock),
            snd_wf(r@),
    {
        let mut r = SoundController::default();
        r.nr10 = 0x80;
        r.nr11 = 0xBF;
        r.nr12 = 0xF3;
        r.nr13 = 0xFF;
        r.nr14 = 0xBF;
        r.nr21 = 0x3F;
        r.nr22 = 0x00;
        r.nr23 = 0xFF;
        r.nr24 = 0xBF;
        r.nr30 = 0x7F;
        r.nr31 = 0xFF;
        r.nr32 = 0x9F;
        r.nr33 = 0xFF;
        r.nr34 = 0xBF;
        r.nr41 = 0xFF;
        r.nr42 = 0x00;
        r.nr43 = 0x00;
        r.nr44 = 0xBF;
        r.nr50 = 0x77;
        r.nr51 = 0xF3;
        r.nr52 = 0xF1;
        r.last_clock = clock;
        r.on = true;
        assert(r@ =~= SoundController::spec_after_boot(clock));
        r
    }

    /// The sweep unit's next frequency; a result of 2048 or more is an
    /// overflow and silences channel 1.
    pub fn calculate_frequency(&mut self, ch1_sweep_shift: u8, is_downwards: bool) -> (new_freq:
        u16)
        requires
            ch1_sweep_shift < 8,
            old(self)@.ch1_shadow_freq < 2048,
        ensures
            new_freq == spec_calc_freq(old(self)@.ch1_shadow_freq, ch1_sweep_shift, is_downwards),
            final(self)@ == spec_apply_overflow(old(self)@, new_freq),
    {
        proof {
            lemma_u16_shr_le();
        }
        let d = self.ch1_shadow_freq >> (ch1_sweep_shift as u16);
        let new_freq = if is_downwards {
            self.ch1_shadow_freq - d
        } else {
            self.ch1_shadow_freq + d
        };
        if new_freq >= 2048 {
            self.ch1_sweep_enabled = false;
            self.ch1_channel_enable = false;
        }
        assert(self@ =~= spec_apply_overflow(old(self)@, new_freq));
        new_freq
    }

    fn freq_step(&mut self, f1: u16)
        requires
            snd_wf(old(self)@),
            f1 < 2048,
        ensures
            final(self)@ == spec_freq_step(old(self)@, f1),
            snd_wf(final(self)@),
    {
        proof {
            lemma_freq11_bound();
        }
        if self.ch1_frequency_timer <= 1 {
            self.ch1_frequency_timer = (2048 - f1) * 4;
            self.ch1_wave_duty_position = (self.ch1_wave_duty_position + 1) % 8;
        } else {
            self.ch1_frequency_timer = self.ch1_frequency_timer - 1;
        }
        let f2 = freq11_x(self.nr24, self.nr23);
        if self.ch2_frequency_timer <= 1 {
            self.ch2_frequency_timer = (2048 - f2) * 4;
            self.ch2_wave_duty_position = (self.ch2_wave_duty_position + 1) % 8;
        } else {
            self.ch2_frequency_timer = self.ch2_frequency_timer - 1;
        }
        let f3 = freq11_x(self.nr34, self.nr33);
        if self.ch3_frequency_timer <= 1 {
            self.ch3_frequency_timer = (2048 - f3) * 2;
            self.ch3_wave_position = (self.ch3_wave_position + 1) % 32;
        } else {
            self.ch3_frequency_timer = self.ch3_frequency_timer - 1;
        }
        assert(self@ =~= spec_freq_step(old(self)@, f1));
    }

    fn length_step(&mut self)
        requires
            snd_wf(old(self)@),
        ensures
            final(self)@ == spec_length_step(old(self)@),
            snd_wf(final(self)@),
    {
        if self.nr14 & 0x40 != 0 && self.ch1_length_timer != 0 {
            self.ch1_length_timer = self.ch1_length_timer - 1;
            if self.ch1_length_timer == 0 {
                self.ch1_channel_enable = false;
            }
        }
        if self.nr24 & 0x40 != 0 && self.ch2_length_timer != 0 {
            self.ch2_length_timer = self.ch2_length_timer - 1;
            if self.ch2_length_timer == 0 {
                self.ch2_channel_enable = false;
            }
        }
        if self.nr34 & 0x40 != 0 && self.ch3_length_timer != 0 {
            self.ch3_length_timer = self.ch3_length_timer - 1;
            if self.ch3_length_timer == 0 {
                self.ch3_channel_enable = false;
            }
        }
        assert(self@ =~= spec_length_step(old(self)@));
    }

    fn env_all(&mut self)
        requires
            snd_wf(old(self)@),
        ensures
            final(self)@ == spec_env_step_all(old(self)@),
            snd_wf(final(self)@),
    {
        let e1 = env_step(
            self.nr12 & 0x7,
            self.ch1_env_period_timer,
            self.ch1_current_volume,
            self.nr12 & 0x08 != 0,
        );
        self.ch1_env_period_timer = e1.0;
        self.ch1_current_volume = e1.1;
        let e2 = env_step(
            self.nr22 & 0x7,
            self.ch2_env_period_timer,
            self.ch2_current_volume,
            self.nr22 & 0x08 != 0,
        );
        self.ch2_env_period_timer = e2.0;
        self.ch2_current_volume = e2.1;
        assert(self@ =~= spec_env_step_all(old(self)@));
    }

    fn sweep_step(&mut self, f1: u16) -> (f2: u16)
        requires
            snd_wf(old(self)@),
            f1 < 2048,
        ensures
            final(self)@ == spec_sweep_step(old(self)@, f1).0,
            f2 == spec_sweep_step(old(self)@, f1).1,
            snd_wf(final(self)@),
            f2 < 2048,
    {
        proof {
            lemma_u8_and_bound();
            lemma_volume_bounds();
        }
        let period = (self.nr10 & 0x70) >> 4;
        let shift = self.nr10 & 0x7;
        let down = self.nr10 & 0x80 != 0;
        let mut f2 = f1;
        if self.ch1_sweep_timer > 0 {
            self.ch1_sweep_timer = self.ch1_sweep_timer - 1;
        }
        if self.ch1_sweep_timer == 0 {
            self.ch1_sweep_timer = if period == 0 {
                8
            } else {
                period
            };
            if self.ch1_sweep_enabled && period != 0 {
                let nf = self.calculate_frequency(shift, down);
                if nf < 2048 && shift > 0 {
                    f2 = nf;
                    self.nr14 = (self.nr14 & 0xF8) | (((nf >> 8) as u8) & 0x7);
                    self.nr13 = #[verifier::truncate] (nf as u8);
                    self.ch1_shadow_freq = nf;
                    let _ = self.calculate_frequency(shift, down);
                }
            }
        }
        assert(self@ =~= spec_sweep_step(old(self)@, f1).0);
        f2
    }

    fn sample_emit(&mut self)
        requires
            snd_wf(old(self)@),
        ensures
            final(self)@ == spec_sample_emit(old(self)@),
            snd_wf(final(self)@),
    {
        self.sample_mod = (self.sample_mod + self.sample_frequency) % CLOCK_SPEED;
        if self.sample_mod < self.sample_frequency {
            proof {
                lemma_u8_and_bound();
                lemma_u8_bit01();
                lemma_u8_shr_le();
                lemma_volume_bounds();
            }
            let b1 = (duty_wave((self.nr11 >> 6) & 0x3) >> self.ch1_wave_duty_position) & 1;
            let ch1_amp = b1 * self.ch1_current_volume;
            let b2 = (duty_wave((self.nr21 >> 6) & 0x3) >> self.ch2_wave_duty_position) & 1;
            let ch2_amp = b2 * self.ch2_current_volume;
            let lvl: u8 = match (self.nr32 >> 5) & 0x3 {
                0 => 4,
                1 => 0,
                2 => 1,
                _ => 2,
            };
            let wb = self.ch3_wave_pattern[(self.ch3_wave_position / 2) as usize];
            let nib = if self.ch3_wave_position % 2 == 0 {
                (wb >> 4) & 0xF
            } else {
                wb & 0xF
            };
            let ch3_amp = nib >> lvl;
            let ghost v1 = self.ch1_current_volume;
            let ghost v2 = self.ch2_current_volume;
            proof {
                assert(b1 * v1 <= 15) by (nonlinear_arith)
                    requires
                        b1 <= 1,
                        v1 < 16,
                ;
                assert(b2 * v2 <= 15) by (nonlinear_arith)
                    requires
                        b2 <= 1,
                        v2 < 16,
                ;
                assert(nib <= 15);
                assert(ch3_amp <= 15);
            }
            let mut left: u16 = 0;
            let mut right: u16 = 0;
            if self.ch1_channel_enable {
                if self.nr51 & 0x10 != 0 {
                    left = left + ch1_amp as u16;
                }
                if self.nr51 & 0x01 != 0 {
                    right = right + ch1_amp as u16;
                }
            }
            if self.ch2_channel_enable {
                if self.nr51 & 0x20 != 0 {
                    left = left + ch2_amp as u16;
                }
                if self.nr51 & 0x02 != 0 {
                    right = right + ch2_amp as u16;
                }
            }
            if self.ch3_channel_enable && self.nr30 & 0x80 != 0 {
                if self.nr51 & 0x40 != 0 {
                    left = left + ch3_amp as u16;
                }
                if self.nr51 & 0x04 != 0 {
                    right = right + ch3_amp as u16;
                }
            }
            let vl = ((self.nr50 & 0x70) >> 4) as u16;
            let vr = (self.nr50 & 0x7) as u16;
            proof {
                assert(left * vl <= 45 * 7) by (nonlinear_arith)
                    requires
                        left <= 45,
                        vl <= 7,
                ;
                assert(right * vr <= 45 * 7) by (nonlinear_arith)
                    requires
                        right <= 45,
                        vr <= 7,
                ;
            }
            self.output.push(left * vl);
            self.output.push(right * vr);
        }
        assert(self@ =~= spec_sample_emit(old(self)@));
    }

    fn cycle_step(&mut self, f1: u16, clock: u64) -> (f2: u16)
        requires
            snd_wf(old(self)@),
            f1 < 2048,
        ensures
            final(self)@ == spec_apu_cycle(old(self)@, f1, clock).0,
            f2 == spec_apu_cycle(old(self)@, f1, clock).1,
            snd_wf(final(self)@),
            f2 < 2048,
    {
        self.freq_step(f1);
        let mut f2 = f1;
        if clock % 8192 == 0 {
            if clock % 16384 == 0 {
                self.length_step();
            }
            if clock % 65536 == 0 {
                self.env_all();
            }
            if clock % 32768 == 16384 {
                f2 = self.sweep_step(f1);
            }
        }
        self.sample_emit();
        f2
    }

    /// Catch the unit up to the bus clock, synthesizing samples on the way.
    #[verifier::rlimit(100)]
    pub fn update(&mut self, clock_count: u64)
        requires
            snd_wf(old(self)@),
            old(self)@.last_clock <= clock_count,
        ensures
            final(self)@ == spec_apu_update(old(self)@, clock_count),
            snd_wf(final(self)@),
            final(self)@.last_clock == clock_count,
    {
        if !self.on {
            self.off_update(clock_count);
            return ;
        }
        let mut f1 = freq11_x(self.nr14, self.nr13);
        proof {
            lemma_freq11_bound();
        }
        let mut clock = self.last_clock;
        let ghost s0 = self@;
        let ghost f0 = f1;
        while clock < clock_count
            invariant
                snd_wf(self@),
                f1 < 2048,
                clock <= clock_count,
                spec_apu_run(s0, f0, s0.last_clock, clock_count) == spec_apu_run(
                    self@,
                    f1,
                    clock,
                    clock_count,
                ),
                self@.last_clock == s0.last_clock,
            decreases clock_count - clock,
        {
            f1 = self.cycle_step(f1, clock);
            clock = clock + 1;
        }
        self.last_clock = clock_count;
        assert(self@ =~= spec_apu_update(old(self)@, clock_count));
    }

    /// Powered-off catch-up: append the due number of silent pairs.
    fn off_update(&mut self, clock_count: u64)
        requires
            snd_wf(old(self)@),
            old(self)@.last_clock <= clock_count,
            !old(self)@.on,
        ensures
            final(self)@ == spec_apu_update(old(self)@, clock_count),
            snd_wf(final(self)@),
            final(self)@.last_clock == clock_count,
    {
        let fs = self.sample_frequency;
        let l = self.last_clock % CLOCK_SPEED;
        let anchor = self.last_clock - l;
        let r = clock_count - anchor;
        proof {
            assert(l * fs < 0x10_0000_0000_0000) by (nonlinear_arith)
                requires
                    l < 4194304,
                    fs < 4194304,
            ;
        }
        let lterm = (l * fs) / CLOCK_SPEED;
        let extra = (l * fs) % CLOCK_SPEED < fs;
        proof {
            vstd::arithmetic::mul::lemma_mul_inequality(
                fs as int,
                CLOCK_SPEED as int,
                r as int,
            );
            vstd::arithmetic::mul::lemma_mul_is_commutative(fs as int, r as int);
            vstd::arithmetic::mul::lemma_mul_is_commutative(CLOCK_SPEED as int, r as int);
            vstd::arithmetic::div_mod::lemma_div_is_ordered(
                (r as int) * (fs as int),
                (CLOCK_SPEED as int) * (r as int),
                CLOCK_SPEED as int,
            );
            vstd::arithmetic::div_mod::lemma_div_multiples_vanish(r as int, CLOCK_SPEED as int);
            vstd::arithmetic::mul::lemma_mul_inequality(l as int, r as int, fs as int);
            vstd::arithmetic::mul::lemma_mul_is_commutative(l as int, fs as int);
            vstd::arithmetic::mul::lemma_mul_is_commutative(r as int, fs as int);
            vstd::arithmetic::div_mod::lemma_div_is_ordered(
                (l as int) * (fs as int),
                (r as int) * (fs as int),
                CLOCK_SPEED as int,
            );
        }
        let rprod: u128 = (r as u128) * (fs as u128);
        let rterm128: u128 = rprod / (CLOCK_SPEED as u128);
        let base128: u128 = rterm128 - (lterm as u128);
        let base: u64 = base128 as u64;
        let ghost n = spec_off_count(old(self)@.last_clock, clock_count, fs);
        assert(n == base + if extra {
            1int
        } else {
            0int
        });
        let mut i: u64 = 0;
        while i < base
            invariant
                i <= base,
                self@ == (SoundV {
                    output: old(self).output@ + Seq::new((2 * i) as nat, |k: int| 0u16),
                    ..old(self)@
                }),
            decreases base - i,
        {
            self.output.push(0);
            self.output.push(0);
            i = i + 1;
            assert(self@ =~= (SoundV {
                output: old(self).output@ + Seq::new((2 * i) as nat, |k: int| 0u16),
                ..old(self)@
            }));
        }
        if extra {
            self.output.push(0);
            self.output.push(0);
        }
        assert(self.output@ =~= old(self).output@ + Seq::new((2 * n) as nat, |k: int| 0u16));
        self.last_clock = clock_count;
        assert(self@ =~= spec_apu_update(old(self)@, clock_count));
    }

    /// A register write at bus clock `clock_count`: the unit catches up,
    /// then the register takes effect.
    #[verifier::rlimit(60)]
    pub fn write(&mut self, clock_count: u64, address: u8, value: u8)
        requires
            snd_wf(old(self)@),
            old(self)@.last_clock <= clock_count,
        ensures
            final(self)@ == spec_apu_write(old(self)@, clock_count, address, value),
            snd_wf(final(self)@),
    {
        self.update(clock_count);
        let ghost mid = self@;
        proof {
            lemma_u8_and_bound();
        }
        match address {
            0x10 => self.nr10 = value,
            0x11 => {
                self.nr11 = value;
                self.ch1_length_timer = 64 - (value & 0x3F);
            },
            0x12 => self.nr12 = value,
            0x13 => self.nr13 = value,
            0x14 => self.ch1_trigger(value),
            0x16 => {
                self.nr21 = value;
                self.ch2_length_timer = 64 - (value & 0x3F);
            },
            0x17 => self.nr22 = value,
            0x18 => self.nr23 = value,
            0x19 => self.ch2_trigger(value),
            0x1A => {
                self.nr30 = value;
                if value & 0x80 == 0 {
                    self.ch3_channel_enable = false;
                }
            },
            0x1B => {
                self.nr31 = value;
                self.ch3_length_timer = 256 - value as u16;
            },
            0x1C => self.nr32 = value,
            0x1D => self.nr33 = value,
            0x1E => self.ch3_trigger(value),
            0x20 => self.nr41 = value,
            0x21 => self.nr42 = value,
            0x22 => self.nr43 = value,
            0x23 => self.nr44 = value,
            0x24 => self.nr50 = value,
            0x25 => self.nr51 = value,
            0x26 => {
                if value & 0x80 == 0 {
                    self.power_off();
                } else {
                    self.on = true;
                }
            },
            _ => {
                if 0x30 <= address && address <= 0x3F {
                    self.ch3_wave_pattern.set((address - 0x30) as usize, value);
                }
            },
        }
        assert(self@ =~= spec_reg_write(mid, address, value));
    }

    fn ch1_trigger(&mut self, value: u8)
        requires
            snd_wf(old(self)@),
        ensures
            final(self)@ == spec_ch1_trigger(old(self)@, value),
            snd_wf(final(self)@),
    {
        if value & 0x80 == 0 {
            self.nr14 = value;
            assert(self@ =~= spec_ch1_trigger(old(self)@, value));
            return ;
        }
        proof {
            lemma_freq11_bound();
            lemma_u8_and_bound();
            lemma_volume_bounds();
        }
        let freq = freq11_x(value, self.nr13);
        let period = (self.nr10 & 0x70) >> 4;
        let shift = self.nr10 & 0x7;
        let down = self.nr10 & 0x80 != 0;
        let dac_off = self.nr12 & 0xF8 == 0;
        self.nr14 = value;
        self.ch1_channel_enable = true;
        if self.ch1_length_timer == 0 {
            self.ch1_length_timer = 64;
        }
        self.ch1_frequency_timer = (2048 - freq) * 4;
        self.ch1_wave_duty_position = 0;
        self.ch1_sweep_timer = if period == 0 {
            8
        } else {
            period
        };
        self.ch1_shadow_freq = freq;
        self.ch1_sweep_enabled = period != 0 || shift != 0;
        self.ch1_env_period_timer = self.nr12 & 0x07;
        self.ch1_current_volume = (self.nr12 & 0xF0) >> 4;
        if period != 0 {
            let _ = self.calculate_frequency(shift, down);
        }
        if dac_off {
            self.ch1_channel_enable = false;
        }
        assert(self@ =~= spec_ch1_trigger(old(self)@, value));
    }

    fn ch2_trigger(&mut self, value: u8)
        requires
            snd_wf(old(self)@),
        ensures
            final(self)@ == spec_ch2_trigger(old(self)@, value),
            snd_wf(final(self)@),
    {
        if value & 0x80 == 0 {
            self.nr24 = value;
            assert(self@ =~= spec_ch2_trigger(old(self)@, value));
            return ;
        }
        proof {
            lemma_freq11_bound();
            lemma_u8_and_bound();
            lemma_volume_bounds();
        }
        let freq = freq11_x(value, self.nr23);
        self.nr24 = value;
        self.ch2_channel_enable = self.nr22 & 0xF8 != 0;
        if self.ch2_length_timer == 0 {
            self.ch2_length_timer = 64;
        }
        self.ch2_env_period_timer = self.nr22 & 0x07;
        self.ch2_current_volume = (self.nr22 & 0xF0) >> 4;
        self.ch2_frequency_timer = (2048 - freq) * 4;
        self.ch2_wave_duty_position = 0;
        assert(self@ =~= spec_ch2_trigger(old(self)@, value));
    }

    fn ch3_trigger(&mut self, value: u8)
        requires
            snd_wf(old(self)@),
        ensures
            final(self)@ == spec_ch3_trigger(old(self)@, value),
            snd_wf(final(self)@),
    {
        if value & 0x80 == 0 {
            self.nr34 = value;
            assert(self@ =~= spec_ch3_trigger(old(self)@, value));
            return ;
        }
        proof {
            lemma_freq11_bound();
        }
        let freq = freq11_x(value, self.nr33);
        self.nr34 = value;
        self.ch3_channel_enable = self.nr30 & 0x80 != 0;
        if self.ch3_length_timer == 0 {
            self.ch3_length_timer = 256;
        }
        self.ch3_frequency_timer = (2048 - freq) * 2;
        self.ch3_wave_position = 0;
        assert(self@ =~= spec_ch3_trigger(old(self)@, value));
    }

    fn power_off(&mut self)
        requires
            snd_wf(old(self)@),
        ensures
            final(self)@ == spec_power_off(old(self)@),
            snd_wf(final(self)@),
    {
        self.nr10 = 0;
        self.nr11 = 0;
        self.nr12 = 0;
        self.nr13 = 0;
        self.nr14 = 0;
        self.nr21 = 0;
        self.nr22 = 0;
        self.nr23 = 0;
        self.nr24 = 0;
        self.nr30 = 0;
        self.nr31 = 0;
        self.nr32 = 0;
        self.nr33 = 0;
        self.nr34 = 0;
        self.nr41 = 0;
        self.nr42 = 0;
        self.nr43 = 0;
        self.nr44 = 0;
        self.nr50 = 0;
        self.nr51 = 0;
        self.nr52 = 0;
        self.ch3_wave_pattern = zero_vec(16);
        self.on = false;
        self.ch1_channel_enable = false;
        self.ch1_length_timer = 0;
        self.ch1_sweep_enabled = false;
        self.ch1_shadow_freq = 0;
        self.ch1_sweep_timer = 0;
        self.ch1_frequency_timer = 0;
        self.ch1_wave_duty_position = 0;
        self.ch1_current_volume = 0;
        self.ch1_env_period_timer = 0;
        self.ch2_channel_enable = false;
        self.ch2_length_timer = 0;
        self.ch2_frequency_timer = 0;
        self.ch2_wave_duty_position = 0;
        self.ch2_current_volume = 0;
        self.ch2_env_period_timer = 0;
        self.ch3_channel_enable = false;
        self.ch3_length_timer = 0;
        self.ch3_frequency_timer = 0;
        self.ch3_wave_position = 0;
        assert(self@ =~= spec_power_off(old(self)@));
    }

    /// The visible value of a sound register (low byte of the address),
    /// read after catching the unit up to the bus clock: sweep, envelope
    /// and length activity due by `clock_count` lands in the registers
    /// before the byte is taken.
    pub fn read(&mut self, clock_count: u64, address: u8) -> (r: u8)
        requires
            snd_wf(old(self)@),
            old(self)@.last_clock <= clock_count,
        ensures
            final(self)@ == spec_apu_update(old(self)@, clock_count),
            r == spec_apu_read(spec_apu_update(old(self)@, clock_count), address),
            snd_wf(final(self)@),
    {
        self.update(clock_count);
        match address {
            0x10 => self.nr10,
            0x11 => self.nr11,
            0x12 => self.nr12,
            0x13 => self.nr13,
            0x14 => self.nr14,
            0x16 => self.nr21,
            0x17 => self.nr22,
            0x18 => self.nr23,
            0x19 => self.nr24,
            0x1A => self.nr30,
            0x1B => self.nr31,
            0x1C => self.nr32,
            0x1D => self.nr33,
            0x1E => self.nr34,
            0x20 => self.nr41,
            0x21 => self.nr42,
            0x22 => self.nr43,
            0x23 => self.nr44,
            0x24 => self.nr50,
            0x25 => self.nr51,
            0x26 => self.nr52,
            _ => {
                if 0x30 <= address && address <= 0x3F {
                    self.ch3_wave_pattern[(address - 0x30) as usize]
                } else {
                    0xFF
                }
            },
        }
    }

    /// Drain the generated stereo samples after catching up to the bus
    /// clock; the internal queue is left empty.
    pub fn get_output(&mut self, clock_count: u64) -> (r: Vec<u16>)
        requires
            snd_wf(old(self)@),
            old(self)@.last_clock <= clock_count,
        ensures
            r@ == spec_apu_update(old(self)@, clock_count).output,
            final(self)@ == (SoundV {
                output: Seq::empty(),
                ..spec_apu_update(old(self)@, clock_count)
            }),
            snd_wf(final(self)@),
    {
        self.update(clock_count);
        let r = self.output.split_off(0);
        assert(r@ =~= spec_apu_update(old(self)@, clock_count).output);
        assert(self@ =~= (SoundV {
            output: Seq::empty(),
            ..spec_apu_update(old(self)@, clock_count)
        }));
        r
    }
}

impl Default for SoundController {
    fn default() -> (r: SoundController)
        ensures
            r@ == SoundController::spec_default(),
            snd_wf(r@),
    {
        let r = SoundController {
            nr10: 0,
            nr11: 0,
            nr12: 0,
            nr13: 0,
            nr14: 0,
            nr21: 0,
            nr22: 0,
            nr23: 0,
            nr24: 0,
            nr30: 0,
            nr31: 0,
            nr32: 0,
            nr33: 0,
            nr34: 0,
            nr41: 0,
            nr42: 0,
            nr43: 0,
            nr44: 0,
            nr50: 0,
            nr51: 0,
            nr52: 0,
            ch3_wave_pattern: zero_vec(16),
            on: false,
            ch1_channel_enable: false,
            ch1_length_timer: 0,
            ch1_sweep_enabled: false,
            ch1_shadow_freq: 0,
            ch1_sweep_timer: 0,
            ch1_frequency_timer: 0,
            ch1_wave_duty_position: 0,
            ch1_current_volume: 0,
            ch1_env_period_timer: 0,
            ch2_channel_enable: false,
            ch2_length_timer: 0,
            ch2_frequency_timer: 0,
            ch2_wave_duty_position: 0,
            ch2_current_volume: 0,
            ch2_env_period_timer: 0,
            ch3_channel_enable: false,
            ch3_length_timer: 0,
            ch3_frequency_timer: 0,
            ch3_wave_position: 0,
            output: Vec::new(),
            last_clock: 0,
            sample_frequency: 48_000,
            sample_mod: 0,
        };
        assert(r@ =~= SoundController::spec_default());
        r
    }
}

} // verus!
