use vstd::prelude::*;

use crate::cartridge::Cartridge;

verus! {

/// A countdown timer that fires and reloads when it passes zero.
pub struct Sequencer {
    pub period: u16,
    pub timer: u16,
}

impl Sequencer {
    pub fn new() -> (r: Sequencer)
        ensures
            r.period == 0 && r.timer == 0,
    {
        Sequencer { period: 0, timer: 0 }
    }

    pub fn is_pulse_enabled(&self) -> (r: bool)
        ensures
            r == ((self.period & 0x07FF) >= 8),
    {
        (self.period & 0x07FF) >= 8
    }

    pub fn is_triangle_enabled(&self) -> (r: bool)
        ensures
            r == ((self.period & 0x07FF) >= 2),
    {
        (self.period & 0x07FF) >= 2
    }

    pub fn set_lo(&mut self, lo: u8)
        ensures
            final(self).period == (old(self).period & 0xFF00) | (lo as u16),
            final(self).timer == old(self).timer,
    {
        self.period = (self.period & 0xFF00) | (lo as u16);
    }

    pub fn set_hi(&mut self, hi: u8)
        ensures
            final(self).period == (((hi & 0x07) as u16) << 8u16) | (old(self).period & 0xF8FF),
            final(self).timer == final(self).period & 0x07FF,
    {
        self.period = (((hi & 0x07) as u16) << 8u16) | (self.period & 0xF8FF);
        self.timer = self.period & 0x07FF;
    }

    pub fn set_period(&mut self, period: u16)
        ensures
            final(self).period == (old(self).period & 0xF800) | (period & 0x07FF),
            final(self).timer == final(self).period & 0x07FF,
    {
        self.period = (self.period & 0xF800) | (period & 0x07FF);
        self.timer = self.period & 0x07FF;
    }

    /// Counts down; returns true, and reloads, when the timer passes zero.
    pub fn clock(&mut self) -> (fired: bool)
        ensures
            fired == (old(self).timer == 0),
            fired ==> final(self).timer == old(self).period & 0x07FF,
            !fired ==> final(self).timer == old(self).timer - 1,
            final(self).period == old(self).period,
    {
        if self.timer == 0 {
            self.timer = self.period & 0x07FF;
            true
        } else {
            self.timer = self.timer - 1;
            false
        }
    }
}

/// The pulse channels' period sweep unit, which owns their timer.
pub struct Sweep {
    pub sequencer: Sequencer,
    pub is_channel_1: bool,
    pub enabled: bool,
    pub period: u8,
    pub negate: bool,
    pub shift: u8,
    pub reload: bool,
    pub divider: u8,
    pub target_period: u16,
}

/// The period a sweep unit aims at: `p ± (p >> shift)`, the first channel
/// subtracting one more when negating.
pub open spec fn sweep_target(period: u16, shift: u8, negate: bool, is_channel_1: bool) -> u16 {
    let delta = period >> (shift as u16);
    if negate {
        if is_channel_1 {
            ((period - delta) as u16).wrapping_sub(1)
        } else {
            (period - delta) as u16
        }
    } else {
        period.wrapping_add(delta)
    }
}

impl Sweep {
    pub fn new(is_channel_1: bool) -> (r: Sweep)
        ensures
            r.is_channel_1 == is_channel_1,
            r.sequencer.period == 0,
            r.shift == 0,
            !r.enabled,
    {
        Sweep {
            sequencer: Sequencer::new(),
            is_channel_1,
            enabled: false,
            period: 0,
            negate: false,
            shift: 0,
            reload: false,
            divider: 0,
            target_period: 0,
        }
    }

    pub fn update_target_period(&mut self)
        requires
            old(self).shift < 8,
        ensures
            *final(self) == (Sweep {
                target_period: sweep_target(
                    old(self).sequencer.period,
                    old(self).shift,
                    old(self).negate,
                    old(self).is_channel_1,
                ),
                ..*old(self)
            }),
    {
        let period = self.sequencer.period;
        let sh: u16 = self.shift as u16;
        let shift_result = period >> sh;
        assert(period >> sh <= period) by (bit_vector);
        if self.negate {
            let t = period - shift_result;
            self.target_period = if self.is_channel_1 {
                t.wrapping_sub(1)
            } else {
                t
            };
        } else {
            self.target_period = period.wrapping_add(shift_result);
        }
    }

    pub fn set(&mut self, value: u8)
        ensures
            final(self).enabled == (value & 0x80 != 0),
            final(self).period == (value & 0x70) >> 4u8,
            final(self).negate == (value & 0x08 != 0),
            final(self).shift == value & 0x07,
            final(self).shift < 8,
            final(self).reload,
            final(self).sequencer == old(self).sequencer,
            final(self).is_channel_1 == old(self).is_channel_1,
    {
        self.enabled = (value & 0x80) != 0;
        self.period = (value & 0x70) >> 4u8;
        self.negate = (value & 0x08) != 0;
        self.shift = value & 0x07;
        self.reload = true;
        assert(value & 0x07 < 8) by {
            crate::bits::lemma_u8_fields();
        }
    }

    /// What one timer step does to a sweep unit.
    pub open spec fn clocked(o: Sweep, f: Sweep, half: bool, fired: bool) -> bool {
        &&& (f.shift == o.shift)
        &&& (f.is_channel_1 == o.is_channel_1)
        &&& (fired == (o.sequencer.timer == 0))
        &&& (f.target_period == sweep_target(
                o.sequencer.period,
                o.shift,
                o.negate,
                o.is_channel_1,
            ))
        &&& (f.sequencer.period == if half && o.divider.wrapping_sub(1) == 0
                && o.shift > 0 && o.enabled && (o.sequencer.period
                & 0x07FF) >= 8 && f.target_period <= 0x07FF {
                    f.target_period
            } else {
                o.sequencer.period
            })
    }

    /// Updates the target period, steps the divider on half frames (moving
    /// the period when enabled and in range), and clocks the timer.
    pub fn clock(&mut self, half: bool) -> (fired: bool)
        requires
            old(self).shift < 8,
        ensures
            Self::clocked(*old(self), *final(self), half, fired),
    {
        self.update_target_period();
        if half {
            self.divider = self.divider.wrapping_sub(1);
            if self.divider == 0 {
                if self.shift > 0 && self.enabled && self.sequencer.is_pulse_enabled()
                    && self.target_period <= 0x07FF {
                        self.sequencer.period = self.target_period;
                }
                self.divider = self.period;
            }
            if self.reload {
                self.divider = self.period;
                self.reload = false;
            }
        }
        self.sequencer.clock()
    }
}

/// The length counter load values, indexed by the low five bits of the written byte.
pub open spec fn length_table() -> Seq<u8> {
    seq![
        10u8, 254, 20, 2, 40, 4, 80, 6, 160, 8, 60, 10, 14, 12, 26, 14, 12, 16, 24, 18, 48, 20, 96,
        22, 192, 24, 72, 26, 16, 28, 32, 30,
    ]
}

/// A note-duration counter, stopped at zero or while halted.
pub struct LengthCounter {
    pub halt: bool,
    pub counter: u8,
}

impl LengthCounter {
    /// The state after `n` half-frame clocks.
    pub open spec fn after_clocks(self, n: nat) -> LengthCounter {
        if self.halt {
            self
        } else if n >= self.counter {
            LengthCounter { counter: 0, ..self }
        } else {
            LengthCounter { counter: (self.counter - n) as u8, ..self }
        }
    }

    pub fn new() -> (r: LengthCounter)
        ensures
            !r.halt && r.counter == 0,
    {
        LengthCounter { halt: false, counter: 0 }
    }

    pub fn load(&mut self, value: u8)
        ensures
            final(self).counter == length_table()[(value & 0x1F) as int],
            final(self).halt == old(self).halt,
    {
        let table: [u8; 32] = [
            10, 254, 20, 2, 40, 4, 80, 6, 160, 8, 60, 10, 14, 12, 26, 14, 12, 16, 24, 18, 48, 20,
            96, 22, 192, 24, 72, 26, 16, 28, 32, 30,
        ];
        assert(table@ =~= length_table());
        assert(value & 0x1F < 32) by {
            crate::bits::lemma_u8_fields();
        }
        self.counter = table[(value & 0x1F) as usize];
    }

    pub fn clock(&mut self)
        ensures
            *final(self) == old(self).after_clocks(1),
    {
        if self.counter > 0 && !self.halt {
            self.counter = self.counter - 1;
        }
    }
}

/// With halt clear, a length counter loaded with `n` reaches zero after
/// exactly `n` half-frame clocks and stays above zero before that.
pub proof fn lemma_length_counter_runs_out(c: LengthCounter, k: nat)
    requires
        !c.halt,
    ensures
        c.after_clocks(c.counter as nat).counter == 0,
        k < c.counter ==> c.after_clocks(k).counter > 0,
        c.after_clocks(k).after_clocks(1) == c.after_clocks(k + 1),
{
}

/// Volume envelope of the pulse and noise channels, with their length counter.
pub struct Envelope {
    pub length_counter: LengthCounter,
    pub use_constant_volume: bool,
    pub volume_or_reload: u8,
    pub start: bool,
    pub divider_counter: u8,
    pub decay_counter: u8,
}

impl Envelope {
    pub open spec fn wf(&self) -> bool {
        self.volume_or_reload <= 15 && self.decay_counter <= 15
    }

    /// The channel volume, 0 to 15.
    pub open spec fn volume_spec(&self) -> u8 {
        if self.length_counter.counter > 0 {
            if self.use_constant_volume {
                self.volume_or_reload
            } else {
                self.decay_counter
            }
        } else {
            0
        }
    }

    /// The envelope after one quarter-frame clock.
    pub open spec fn after_clock(self) -> Envelope {
        if self.start {
            Envelope {
                start: false,
                decay_counter: 15,
                divider_counter: self.volume_or_reload,
                ..self
            }
        } else if self.divider_counter == 0 {
            Envelope {
                divider_counter: self.volume_or_reload,
                decay_counter: if self.decay_counter > 0 {
                    (self.decay_counter - 1) as u8
                } else if self.length_counter.halt {
                    15
                } else {
                    0
                },
                ..self
            }
        } else {
            Envelope { divider_counter: (self.divider_counter - 1) as u8, ..self }
        }
    }

    pub fn new() -> (r: Envelope)
        ensures
            r.wf(),
            r.length_counter.counter == 0,
            r.volume_spec() == 0,
    {
        Envelope {
            length_counter: LengthCounter::new(),
            use_constant_volume: true,
            volume_or_reload: 0,
            start: false,
            divider_counter: 0,
            decay_counter: 0,
        }
    }

    pub fn get_volume(&self) -> (r: u8)
        requires
            self.wf(),
        ensures
            r == self.volume_spec(),
            r <= 15,
    {
        if self.length_counter.counter > 0 {
            if self.use_constant_volume {
                self.volume_or_reload
            } else {
                self.decay_counter
            }
        } else {
            0
        }
    }

    pub fn set(&mut self, value: u8)
        ensures
            final(self).wf() || !old(self).wf(),
            final(self).use_constant_volume == (value & 0x10 != 0),
            final(self).volume_or_reload == value & 0x0F,
            final(self).start,
            final(self).length_counter == old(self).length_counter,
            final(self).decay_counter == old(self).decay_counter,
    {
        self.use_constant_volume = (value & 0x10) != 0;
        self.volume_or_reload = value & 0x0F;
        self.start = true;
        assert(value & 0x0F <= 15) by {
            crate::bits::lemma_u8_fields();
        }
    }

    /// A quarter-frame step: restart after a write, else count the divider
    /// down and decay the level, looping while the length counter is halted.
    pub fn clock(&mut self)
        requires
            old(self).wf(),
        ensures
            final(self).wf(),
            *final(self) == old(self).after_clock(),
    {
        if self.start {
            self.start = false;
            self.decay_counter = 15;
            self.divider_counter = self.volume_or_reload;
        } else if self.divider_counter == 0 {
            self.divider_counter = self.volume_or_reload;
            if self.decay_counter == 0 {
                if self.length_counter.halt {
                    self.decay_counter = 15;
                }
            } else {
                self.decay_counter = self.decay_counter - 1;
            }
        } else {
            self.divider_counter = self.divider_counter - 1;
        }
    }
}

/// The four duty patterns of the pulse channels.
pub open spec fn duty_table() -> Seq<u8> {
    seq![0b00000001u8, 0b00000011, 0b00001111, 0b11111100]
}

pub struct PulseChannel {
    pub sequence: u8,
    pub sequence_pos: u8,
    pub enabled: bool,
    pub sweep: Sweep,
    pub envelope: Envelope,
}

impl PulseChannel {
    pub open spec fn wf(&self) -> bool {
        self.sequence_pos < 8 && self.sweep.shift < 8 && self.envelope.wf()
    }

    pub fn new(is_channel_1: bool) -> (r: PulseChannel)
        ensures
            r.wf(),
            r.enabled,
            r.envelope.length_counter.counter == 0,
            r.sweep.is_channel_1 == is_channel_1,
    {
        PulseChannel {
            sequence: 0b00000001,
            sequence_pos: 0,
            enabled: true,
            sweep: Sweep::new(is_channel_1),
            envelope: Envelope::new(),
        }
    }

    /// How a write of `data` to channel register `address` changes the channel.
    pub open spec fn written(o: PulseChannel, f: PulseChannel, address: u8, data: u8) -> bool {
        &&& (f.enabled == o.enabled)
        &&& (address == 0 ==> f.sequence == duty_table()[((data & 0xC0) >> 6u8) as int]
                && f.envelope.length_counter.halt == (data & 0x20 != 0))
        &&& (address == 3 ==> f.envelope.length_counter.counter == length_table()[(data & 0x1F) as int] && f.envelope.length_counter.halt == o.envelope.length_counter.halt)
        &&& (address != 3 && address != 0 ==> f.envelope.length_counter == o.envelope.length_counter)
        &&& (address == 0 ==> f.envelope.length_counter.counter == o.envelope.length_counter.counter)
    }

    /// Writes register `address` (0 to 3) of the channel.
    pub fn write(&mut self, address: u8, data: u8)
        requires
            old(self).wf(),
            address < 4,
        ensures
            final(self).wf(),
            Self::written(*old(self), *final(self), address, data),
    {
        if address == 0 {
            let duty: [u8; 4] = [0b00000001, 0b00000011, 0b00001111, 0b11111100];
            assert(duty@ =~= duty_table());
            assert((data & 0xC0) >> 6u8 < 4) by {
                crate::bits::lemma_u8_fields();
            }
            self.sequence = duty[((data & 0xC0) >> 6u8) as usize];
            self.envelope.length_counter.halt = (data & 0x20) != 0;
            self.envelope.set(data);
        } else if address == 1 {
            self.sweep.set(data);
        } else if address == 2 {
            self.sweep.sequencer.set_lo(data);
        } else {
            self.sweep.sequencer.set_hi(data);
            self.envelope.length_counter.load(data);
            self.envelope.start = true;
        }
    }

    pub fn clock(&mut self, quarter: bool, half: bool)
        requires
            old(self).wf(),
        ensures
            final(self).wf(),
            final(self).enabled == old(self).enabled,
            final(self).envelope.length_counter == if half {
                old(self).envelope.length_counter.after_clocks(1)
            } else {
                old(self).envelope.length_counter
            },
            final(self).envelope == (Envelope {
                length_counter: final(self).envelope.length_counter,
                ..if quarter {
                    old(self).envelope.after_clock()
                } else {
                    old(self).envelope
                }
            }),
            Sweep::clocked(old(self).sweep, final(self).sweep, half, old(self).sweep.sequencer.timer == 0),
            final(self).sequence_pos == if old(self).sweep.sequencer.timer == 0 {
                (old(self).sequence_pos + 1) % 8
            } else {
                old(self).sequence_pos as int
            },
            final(self).sequence == old(self).sequence,
    {
        if quarter {
            self.envelope.clock();
        }
        if half {
            self.envelope.length_counter.clock();
        }
        if self.sweep.clock(half) {
            let t: u8 = self.sequence_pos + 1;
            assert(t & 0x07 < 8 && t & 0x07 == t % 8) by (bit_vector);
            self.sequence_pos = t & 0x07;
        }
    }

    /// The channel's output level in fifteenths of full scale.
    pub open spec fn level(&self) -> int {
        if self.enabled && (self.sweep.sequencer.period & 0x07FF) >= 8
            && self.sweep.target_period <= 0x07FF {
                if (self.sequence >> self.sequence_pos) & 1 != 0 {
                    self.envelope.volume_spec() as int
            } else {
                -(self.envelope.volume_spec() as int)
            }
        } else {
            0
        }
    }

    /// The channel's level in fifteenths of full scale, -15 to 15.
    pub fn sample(&self) -> (r: i8)
        requires
            self.wf(),
        ensures
            -15 <= r <= 15,
            r == self.level(),
    {
        if self.enabled && self.sweep.sequencer.is_pulse_enabled() && self.sweep.target_period
            <= 0x07FF {
                let volume = self.envelope.get_volume() as i8;
            if (self.sequence >> self.sequence_pos) & 1 != 0 {
                volume
            } else {
                -volume
            }
        } else {
            0
        }
    }
}

pub struct TriangleChannel {
    pub sequence_pos: u8,
    pub enabled: bool,
    pub sequencer: Sequencer,
    pub length_counter: LengthCounter,
    pub linear_counter: u8,
    pub linear_counter_reload: u8,
    pub reload: bool,
}

/// The triangle's output step at sequence position `pos`: 15 down to 0, then
/// 0 up to 15.
pub open spec fn triangle_step(pos: u8) -> int {
    if pos < 16 {
        15 - pos
    } else {
        pos - 16
    }
}

impl TriangleChannel {
    pub open spec fn wf(&self) -> bool {
        self.sequence_pos < 32
    }

    pub fn new() -> (r: TriangleChannel)
        ensures
            r.wf(),
            r.enabled,
            r.length_counter.counter == 0,
    {
        TriangleChannel {
            sequence_pos: 0,
            enabled: true,
            sequencer: Sequencer::new(),
            length_counter: LengthCounter::new(),
            linear_counter: 0,
            linear_counter_reload: 0,
            reload: false,
        }
    }

    /// How a write of `data` to channel register `address` changes the channel.
    pub open spec fn written(o: TriangleChannel, f: TriangleChannel, address: u8, data: u8) -> bool {
        &&& (f.enabled == o.enabled)
        &&& (address == 0 ==> f.length_counter.halt == (data & 0x80 != 0)
                && f.linear_counter_reload == data & 0x7F
                && f.length_counter.counter == o.length_counter.counter)
        &&& (address == 3 ==> f.length_counter.counter == length_table()[(data & 0x1F) as int] && f.reload)
        &&& (address == 1 || address == 2 ==> f.length_counter == o.length_counter)
    }

    pub fn write(&mut self, address: u8, data: u8)
        requires
            old(self).wf(),
            address < 4,
        ensures
            final(self).wf(),
            Self::written(*old(self), *final(self), address, data),
    {
        if address == 0 {
            self.length_counter.halt = (data & 0x80) != 0;
            self.linear_counter_reload = data & 0x7F;
        } else if address == 2 {
            self.sequencer.set_lo(data);
        } else if address == 3 {
            self.sequencer.set_hi(data);
            self.length_counter.load(data);
            self.reload = true;
        }
    }

    pub fn clock(&mut self, quarter: bool, half: bool)
        requires
            old(self).wf(),
        ensures
            final(self).wf(),
            final(self).enabled == old(self).enabled,
            final(self).length_counter == if half {
                old(self).length_counter.after_clocks(1)
            } else {
                old(self).length_counter
            },
            final(self).linear_counter == if !quarter {
                old(self).linear_counter
            } else if old(self).reload {
                old(self).linear_counter_reload
            } else if old(self).linear_counter > 0 {
                (old(self).linear_counter - 1) as u8
            } else {
                0
            },
            final(self).reload == (old(self).reload && !(quarter && !old(self).length_counter.halt)),
            final(self).sequencer.period == old(self).sequencer.period,
            final(self).sequence_pos == if old(self).sequencer.timer == 0
                && final(self).length_counter.counter > 0 && final(self).linear_counter > 0 && (old(self).sequencer.period & 0x07FF) >= 2 {
                    (old(self).sequence_pos + 1) % 32
            } else {
                old(self).sequence_pos as int
            },
    {
        if quarter {
            if self.reload {
                self.linear_counter = self.linear_counter_reload;
            } else if self.linear_counter > 0 {
                self.linear_counter = self.linear_counter - 1;
            }
            if !self.length_counter.halt {
                self.reload = false;
            }
        }
        if half {
            self.length_counter.clock();
        }
        let fired = self.sequencer.clock();
        if fired && self.length_counter.counter > 0 && self.linear_counter > 0
            && self.sequencer.is_triangle_enabled() {
                let t: u8 = self.sequence_pos + 1;
            assert(t & 0x1F < 32 && t & 0x1F == t % 32) by (bit_vector);
            self.sequence_pos = t & 0x1F;
        }
    }

    /// The channel's output level in fifteenths of full scale.
    pub open spec fn level(&self) -> int {
        if self.enabled && (self.sequencer.period & 0x07FF) >= 2
            && self.length_counter.counter > 0 && self.linear_counter > 0 {
                2 * triangle_step(self.sequence_pos) - 15
        } else {
            0
        }
    }

    /// The channel's level in fifteenths of full scale, -15 to 15.
    pub fn sample(&self) -> (r: i8)
        requires
            self.wf(),
        ensures
            r == self.level(),
    {
        if self.enabled && self.sequencer.is_triangle_enabled() && self.length_counter.counter > 0
            && self.linear_counter > 0 {
                let step: i8 = if self.sequence_pos < 16 {
                    15 - self.sequence_pos as i8
            } else {
                self.sequence_pos as i8 - 16
            };
            2 * step - 15
        } else {
            0
        }
    }
}

/// The noise channel's timer periods.
pub open spec fn noise_period_table() -> Seq<u16> {
    seq![4u16, 8, 16, 32, 64, 96, 128, 160, 202, 254, 380, 508, 762, 1016, 2034, 4068]
}

/// One step of the noise shift register: feedback from bit 0 and bit 1, or
/// bit 6 in short mode, enters at bit 14.
pub open spec fn lfsr_step(shift: u16, mode: bool) -> u16 {
    let other = if mode {
        (shift >> 6u16) & 1
    } else {
        (shift >> 1u16) & 1
    };
    (shift >> 1u16) | (((shift & 1) ^ other) << 14u16)
}

pub struct NoiseChannel {
    pub enabled: bool,
    pub shift: u16,
    pub mode: bool,
    pub sequencer: Sequencer,
    pub envelope: Envelope,
}

impl NoiseChannel {
    pub open spec fn wf(&self) -> bool {
        self.envelope.wf()
    }

    pub fn new() -> (r: NoiseChannel)
        ensures
            r.wf(),
            r.enabled,
            r.shift == 1,
            r.envelope.length_counter.counter == 0,
    {
        NoiseChannel {
            enabled: true,
            shift: 0x0001,
            mode: false,
            sequencer: Sequencer::new(),
            envelope: Envelope::new(),
        }
    }

    /// How a write of `data` to channel register `address` changes the channel.
    pub open spec fn written(o: NoiseChannel, f: NoiseChannel, address: u8, data: u8) -> bool {
        &&& (f.enabled == o.enabled)
        &&& (address == 2 ==> f.mode == (data & 0x80 != 0) && f.sequencer.period
                & 0x07FF == (noise_period_table()[(data & 0x0F) as int] - 1) as u16 & 0x07FF)
        &&& (address == 3 ==> f.envelope.length_counter.counter == length_table()[(data & 0x1F) as int])
        &&& (address == 0 ==> f.envelope.length_counter.halt == (data & 0x20 != 0)
                && f.envelope.length_counter.counter == o.envelope.length_counter.counter)
        &&& (address == 1 || address == 2 ==> f.envelope.length_counter == o.envelope.length_counter)
    }

    pub fn write(&mut self, address: u8, data: u8)
        requires
            old(self).wf(),
            address < 4,
        ensures
            final(self).wf(),
            Self::written(*old(self), *final(self), address, data),
    {
        if address == 0 {
            self.envelope.length_counter.halt = (data & 0x20) != 0;
            self.envelope.set(data);
        } else if address == 2 {
            let periods: [u16; 16] = [
                4, 8, 16, 32, 64, 96, 128, 160, 202, 254, 380, 508, 762, 1016, 2034, 4068,
            ];
            assert(periods@ =~= noise_period_table());
            assert(data & 0x0F < 16) by {
                crate::bits::lemma_u8_fields();
            }
            self.mode = (data & 0x80) != 0;
            let p = periods[(data & 0x0F) as usize];
            let o = self.sequencer.period;
            self.sequencer.set_period(p - 1);
            let q: u16 = (p - 1) as u16;
            assert((((o & 0xF800) | (q & 0x07FF)) & 0x07FF) == q & 0x07FF) by (bit_vector);
        } else if address == 3 {
            self.envelope.length_counter.load(data);
            self.envelope.start = true;
        }
    }

    pub fn clock(&mut self, quarter: bool, half: bool)
        requires
            old(self).wf(),
        ensures
            final(self).wf(),
            final(self).enabled == old(self).enabled,
            final(self).shift == if old(self).sequencer.timer == 0 {
                lfsr_step(old(self).shift, old(self).mode)
            } else {
                old(self).shift
            },
            final(self).envelope.length_counter == if half {
                old(self).envelope.length_counter.after_clocks(1)
            } else {
                old(self).envelope.length_counter
            },
    {
        if quarter {
            self.envelope.clock();
        }
        if half {
            self.envelope.length_counter.clock();
        }
        if self.sequencer.clock() {
            let other = if self.mode {
                (self.shift >> 6u16) & 1
            } else {
                (self.shift >> 1u16) & 1
            };
            let feedback = (self.shift & 1) ^ other;
            self.shift = (self.shift >> 1u16) | (feedback << 14u16);
        }
    }

    /// The channel's output level in fifteenths of full scale.
    pub open spec fn level(&self) -> int {
        if self.enabled && self.shift & 1 == 0 && self.envelope.volume_spec() != 0 {
            2 * self.envelope.volume_spec() - 15
        } else {
            0
        }
    }

    /// The channel's level in fifteenths of full scale, -15 to 15.
    pub fn sample(&self) -> (r: i8)
        requires
            self.wf(),
        ensures
            -15 <= r <= 15,
            r == self.level(),
    {
        if self.enabled && (self.shift & 0x0001) == 0 {
            let volume = self.envelope.get_volume() as i8;
            if volume == 0 {
                0
            } else {
                2 * volume - 15
            }
        } else {
            0
        }
    }
}

pub const DMC_BASE_ADDRESS: u16 = 0xC000;
pub const DMC_WRAP_ADDRESS: u16 = 0x8000;

/// The delta modulation channel's memory reader and bit shifter.
pub struct SampleReader {
    pub address: u16,
    pub length: u16,
    pub irq_enabled: bool,
    pub irq: bool,
    pub loop_enabled: bool,
    pub current_pos: u16,
    pub bytes_remaining: u16,
    pub current: u8,
    pub bits_remaining: u8,
    pub output: bool,
    pub has_ended: bool,
}

impl SampleReader {
    pub open spec fn wf(&self) -> bool {
        self.bits_remaining <= 8 && self.length >= 1
    }

    pub fn new() -> (r: SampleReader)
        ensures
            r.wf(),
            r.has_ended,
            !r.irq,
            r.bytes_remaining == 0,
    {
        SampleReader {
            address: DMC_BASE_ADDRESS,
            length: 0x0001,
            irq_enabled: true,
            irq: false,
            loop_enabled: false,
            current_pos: DMC_BASE_ADDRESS,
            bytes_remaining: 0,
            current: 0,
            bits_remaining: 0,
            output: false,
            has_ended: true,
        }
    }

    pub fn set_flags(&mut self, value: u8)
        requires
            old(self).wf(),
        ensures
            final(self).wf(),
            final(self).irq_enabled == (value & 0x80 != 0),
            final(self).loop_enabled == (value & 0x40 != 0),
            final(self).irq == (old(self).irq && value & 0x80 != 0),
            final(self).has_ended == old(self).has_ended,
    {
        self.irq_enabled = (value & 0x80) != 0;
        self.loop_enabled = (value & 0x40) != 0;
        if !self.irq_enabled {
            self.irq = false;
        }
    }

    pub fn set_address(&mut self, value: u8)
        ensures
            *final(self) == (SampleReader {
                address: DMC_BASE_ADDRESS | ((value as u16) << 6u16),
                ..*old(self)
            }),
    {
        self.address = DMC_BASE_ADDRESS | ((value as u16) << 6u16);
    }

    pub fn set_length(&mut self, value: u8)
        ensures
            *final(self) == (SampleReader {
                length: ((value as u16) << 4u16) | 0x0001,
                ..*old(self)
            }),
            final(self).length >= 1,
    {
        let v = value as u16;
        assert((v << 4u16) | 0x0001 >= 1) by (bit_vector);
        self.length = (v << 4u16) | 0x0001;
    }

    /// Starts the sample over when the reader is idle.
    pub fn restart(&mut self)
        requires
            old(self).wf(),
        ensures
            final(self).wf(),
            final(self).irq == old(self).irq,
            old(self).bytes_remaining == 0 ==> final(self).current_pos == old(self).address
                && final(self).bytes_remaining == old(self).length && !final(self).has_ended,
            old(self).bytes_remaining != 0 ==> *final(self) == *old(self),
            final(self).bits_remaining == old(self).bits_remaining,
            final(self).current == old(self).current,
    {
        if self.bytes_remaining == 0 {
            self.current_pos = self.address;
            self.bytes_remaining = self.length;
            self.has_ended = false;
        }
    }

    pub fn halt(&mut self)
        requires
            old(self).wf(),
        ensures
            final(self).wf(),
            final(self).bytes_remaining == 0,
            final(self).has_ended,
            final(self).irq == old(self).irq,
    {
        self.bytes_remaining = 0;
        self.has_ended = true;
    }

    pub fn output(&self) -> (r: bool)
        ensures
            r == self.output,
    {
        self.output
    }

    pub fn irq(&self) -> (r: bool)
        ensures
            r == self.irq,
    {
        self.irq
    }

    pub fn clear_irq(&mut self)
        ensures
            *final(self) == (SampleReader { irq: false, ..*old(self) }),
    {
        self.irq = false;
    }

    pub fn has_ended(&self) -> (r: bool)
        ensures
            r == self.has_ended,
    {
        self.has_ended
    }

    /// Shifts out one bit, fetching the next byte through the cartridge when
    /// the current one is used up.
    pub fn clock(&mut self, cart: &Cartridge)
        requires
            old(self).wf(),
            cart.wf(),
        ensures
            final(self).wf(),
            final(self).output == ((if old(self).bits_remaining == 0 && !old(self).has_ended && !(
            old(self).bytes_remaining == 0 && !old(self).loop_enabled) {
                cart.cpu_byte(old(self).current_pos_after_restart()).unwrap_or(0)
            } else {
                old(self).current
            }) & 1 != 0),
            !old(self).irq && final(self).irq ==> old(self).bytes_remaining == 0
                && old(self).irq_enabled && !old(self).loop_enabled,
            old(self).bits_remaining != 0 || old(self).has_ended ==> final(self).has_ended
                == old(self).has_ended && final(self).bytes_remaining == old(self).bytes_remaining
                && final(self).irq == old(self).irq,
            old(self).bits_remaining == 0 && !old(self).has_ended && old(self).bytes_remaining
                == 0 && !old(self).loop_enabled ==> final(self).has_ended && final(self).irq == (old(self).irq || old(self).irq_enabled) && final(self).bytes_remaining == 0,
            old(self).bits_remaining == 0 && !old(self).has_ended && old(self).bytes_remaining
                == 0 && old(self).loop_enabled ==> !final(self).has_ended && final(self).irq == old(self).irq && final(self).bytes_remaining == old(self).length - 1,
            old(self).bits_remaining == 0 && !old(self).has_ended && old(self).bytes_remaining
                > 0 ==> !final(self).has_ended && final(self).bytes_remaining == old(self).bytes_remaining - 1 && final(self).irq == old(self).irq,
    {
        if self.bits_remaining == 0 {
            self.bits_remaining = 8;
            if !self.has_ended {
                if self.bytes_remaining == 0 {
                    self.has_ended = true;
                    if self.loop_enabled {
                        self.restart();
                    } else if self.irq_enabled {
                        self.irq = true;
                    }
                }
                if self.bytes_remaining > 0 {
                    self.current = match cart.cpu_read(self.current_pos) {
                        Some(b) => b,
                        None => 0,
                    };
                    self.current_pos = self.current_pos.wrapping_add(1);
                    if self.current_pos == 0 {
                        self.current_pos = DMC_WRAP_ADDRESS;
                    }
                    self.bytes_remaining = self.bytes_remaining - 1;
                }
            }
        }
        self.output = (self.current & 0x01) != 0;
        self.current = self.current >> 1u8;
        self.bits_remaining = self.bits_remaining - 1;
    }

    /// Where the next byte is fetched from, once an exhausted looping sample
    /// has been restarted.
    pub open spec fn current_pos_after_restart(&self) -> u16 {
        if self.bytes_remaining == 0 {
            self.address
        } else {
            self.current_pos
        }
    }
}

/// The delta modulation channel's timer periods, in CPU cycles less one.
pub open spec fn dmc_rate_table() -> Seq<u8> {
    seq![214u8, 190, 170, 160, 143, 127, 113, 107, 95, 80, 71, 64, 53, 42, 36, 27]
}

/// The delta counter after one output bit: up or down by two within 0..=127.
pub open spec fn dmc_delta(output: u8, bit: bool) -> u8 {
    if bit {
        if output <= 125 {
            (output + 2) as u8
        } else {
            output
        }
    } else {
        if output >= 2 {
            (output - 2) as u8
        } else {
            output
        }
    }
}

pub struct DmcChannel {
    pub enabled: bool,
    pub rate: u8,
    pub output: u8,
    pub reader: SampleReader,
    pub cycles: u8,
}

impl DmcChannel {
    pub open spec fn wf(&self) -> bool {
        self.reader.wf() && self.output <= 127
    }

    pub fn new() -> (r: DmcChannel)
        ensures
            r.wf(),
            r.enabled,
            r.reader.has_ended,
            !r.reader.irq,
    {
        DmcChannel { enabled: true, rate: 0, output: 0, reader: SampleReader::new(), cycles: 0 }
    }

    /// How a write of `data` to channel register `address` changes the channel.
    pub open spec fn written(o: DmcChannel, f: DmcChannel, address: u8, data: u8) -> bool {
        &&& (f.enabled == o.enabled)
        &&& (f.reader.has_ended == o.reader.has_ended)
        &&& (address == 0 ==> f.rate == dmc_rate_table()[(data & 0x0F) as int] + 1)
        &&& (address == 1 ==> f.output == data & 0x7F)
        &&& (address != 0 ==> f.reader.irq == o.reader.irq)
        &&& (address == 0 ==> f.reader.irq == (o.reader.irq && data & 0x80 != 0))
    }

    pub fn write(&mut self, address: u8, data: u8)
        requires
            old(self).wf(),
            address < 4,
        ensures
            final(self).wf(),
            Self::written(*old(self), *final(self), address, data),
    {
        if address == 0 {
            let rates: [u8; 16] = [
                214, 190, 170, 160, 143, 127, 113, 107, 95, 80, 71, 64, 53, 42, 36, 27,
            ];
            assert(rates@ =~= dmc_rate_table());
            assert(data & 0x0F < 16) by {
                crate::bits::lemma_u8_fields();
            }
            self.reader.set_flags(data);
            self.rate = rates[(data & 0x0F) as usize] + 1;
        } else if address == 1 {
            assert(data & 0x7F <= 127) by {
                crate::bits::lemma_u8_fields();
            }
            self.output = data & 0x7F;
        } else if address == 2 {
            self.reader.set_address(data);
        } else {
            self.reader.set_length(data);
        }
    }

    /// Counts one CPU cycle; every `rate` cycles one bit moves the delta
    /// counter while a sample plays.
    pub fn clock(&mut self, cart: &Cartridge)
        requires
            old(self).wf(),
            cart.wf(),
        ensures
            final(self).wf(),
            final(self).enabled == old(self).enabled,
            old(self).cycles.wrapping_add(1) != old(self).rate ==> final(self).output == old(self).output && final(self).reader == old(self).reader,
            old(self).cycles.wrapping_add(1) == old(self).rate && !final(self).reader.has_ended
                ==> final(self).output == dmc_delta(old(self).output, final(self).reader.output),
    {
        self.cycles = self.cycles.wrapping_add(1);
        if self.cycles == self.rate {
            self.cycles = 0;
            self.reader.clock(cart);
            if !self.reader.has_ended() {
                if self.reader.output() {
                    if self.output <= 125 {
                        self.output = self.output + 2;
                    }
                } else if self.output >= 2 {
                    self.output = self.output - 2;
                }
            }
        }
    }
}

/// One mixed-down moment of the five channels, in integer levels: the pulse,
/// triangle and noise levels in fifteenths of full scale, and the delta
/// counter when a sample plays.
#[derive(Clone, Copy, Debug, PartialEq, Eq, Structural)]
pub struct ChannelLevels {
    pub pulse_1: i8,
    pub pulse_2: i8,
    pub triangle: i8,
    pub noise: i8,
    /// The delta counter, 0 to 127, or none when the channel is silent.
    pub dmc: Option<u8>,
}

/// CPU clock rate in Hz.
pub const CPU_CLOCK_HZ: u32 = 1789773;
/// Output sample rate in Hz.
pub const SAMPLE_RATE_HZ: u32 = 44100;

/// Frame sequencer periods, in APU cycles.
pub const FOUR_STEP_PERIOD: u32 = 14915;
pub const FIVE_STEP_PERIOD: u32 = 18641;

/// The audio processing unit.
pub struct Apu {
    pub pulse_channel_1: PulseChannel,
    pub pulse_channel_2: PulseChannel,
    pub triangle_channel: TriangleChannel,
    pub noise_channel: NoiseChannel,
    pub dmc_channel: DmcChannel,
    pub counter_mode: bool,
    pub even_cycle: bool,
    pub cycles: u32,
    pub inhibit_irq: bool,
    pub irq: bool,
    /// Time left until the next sample is due, in units of
    /// 1 / (CPU_CLOCK_HZ * SAMPLE_RATE_HZ) seconds.
    pub sample_wait: u32,
}

/// The status byte a read of 0x4015 returns.
pub open spec fn apu_status(a: Apu) -> u8 {
    (if a.pulse_channel_1.envelope.length_counter.counter > 0 { 0x01u8 } else { 0 })
        | (if a.pulse_channel_2.envelope.length_counter.counter > 0 { 0x02u8 } else { 0 })
        | (if a.triangle_channel.length_counter.counter > 0 { 0x04u8 } else { 0 })
        | (if a.noise_channel.envelope.length_counter.counter > 0 { 0x08u8 } else { 0 })
        | (if !a.dmc_channel.reader.has_ended { 0x10u8 } else { 0 })
        | (if a.irq { 0x40u8 } else { 0 })
        | (if a.dmc_channel.reader.irq { 0x80u8 } else { 0 })
}

impl Apu {
    pub open spec fn wf(&self) -> bool {
        &&& self.pulse_channel_1.wf()
        &&& self.pulse_channel_2.wf()
        &&& self.triangle_channel.wf()
        &&& self.noise_channel.wf()
        &&& self.dmc_channel.wf()
        &&& self.cycles < FIVE_STEP_PERIOD
        &&& self.sample_wait <= CPU_CLOCK_HZ
    }

    pub fn new() -> (r: Apu)
        ensures
            r.wf(),
            r.even_cycle,
            !r.irq,
            r.inhibit_irq,
            r.cycles == 0,
    {
        Apu {
            pulse_channel_1: PulseChannel::new(true),
            pulse_channel_2: PulseChannel::new(false),
            triangle_channel: TriangleChannel::new(),
            noise_channel: NoiseChannel::new(),
            dmc_channel: DmcChannel::new(),
            counter_mode: false,
            even_cycle: true,
            cycles: 0,
            inhibit_irq: true,
            irq: false,
            sample_wait: 0,
        }
    }

    /// Silences the pulse, triangle and noise channels.
    pub fn reset(&mut self)
        requires
            old(self).wf(),
        ensures
            final(self).wf(),
            !final(self).pulse_channel_1.enabled && !final(self).pulse_channel_2.enabled,
            !final(self).triangle_channel.enabled && !final(self).noise_channel.enabled,
            final(self).pulse_channel_1.envelope.length_counter.counter == 0,
            final(self).pulse_channel_2.envelope.length_counter.counter == 0,
            final(self).triangle_channel.length_counter.counter == 0,
            final(self).noise_channel.envelope.length_counter.counter == 0,
            final(self).even_cycle == old(self).even_cycle,
            final(self).irq == old(self).irq,
            final(self).dmc_channel == old(self).dmc_channel,
    {
        self.pulse_channel_1.enabled = false;
        self.pulse_channel_1.envelope.length_counter.counter = 0;
        self.pulse_channel_2.enabled = false;
        self.pulse_channel_2.envelope.length_counter.counter = 0;
        self.triangle_channel.enabled = false;
        self.triangle_channel.length_counter.counter = 0;
        self.noise_channel.enabled = false;
        self.noise_channel.envelope.length_counter.counter = 0;
    }

    pub fn dmc_irq_requested(&self) -> (r: bool)
        ensures
            r == self.dmc_channel.reader.irq,
    {
        self.dmc_channel.reader.irq()
    }

    pub fn irq_requested(&self) -> (r: bool)
        ensures
            r == self.irq,
    {
        self.irq
    }

    /// The sample the channels give now.
    pub open spec fn levels_now(&self) -> ChannelLevels {
        ChannelLevels {
            pulse_1: self.pulse_channel_1.level() as i8,
            pulse_2: self.pulse_channel_2.level() as i8,
            triangle: self.triangle_channel.level() as i8,
            noise: self.noise_channel.level() as i8,
            dmc: if self.dmc_channel.enabled && !self.dmc_channel.reader.has_ended {
                Some(self.dmc_channel.output)
            } else {
                None
            },
        }
    }

    fn levels(&self) -> (r: ChannelLevels)
        requires
            self.wf(),
        ensures
            r == self.levels_now(),
    {
        ChannelLevels {
            pulse_1: self.pulse_channel_1.sample(),
            pulse_2: self.pulse_channel_2.sample(),
            triangle: self.triangle_channel.sample(),
            noise: self.noise_channel.sample(),
            dmc: if self.dmc_channel.enabled && !self.dmc_channel.reader.has_ended() {
                Some(self.dmc_channel.output)
            } else {
                None
            },
        }
    }

    /// What one master cycle does to the APU.
    pub open spec fn clocked(o: Apu, f: Apu, cart: Cartridge, sample: Option<ChannelLevels>) -> bool {
        &&& (f.even_cycle == !o.even_cycle)
        &&& (!f.even_cycle ==> sample.is_none() && f.cycles == o.cycles)
        &&& (f.even_cycle ==> f.cycles == if o.cycles + 1 >= (
            if o.counter_mode {
                FIVE_STEP_PERIOD
            } else {
                FOUR_STEP_PERIOD
            }) {
                0
            } else {
                o.cycles + 1
            })
        &&& (f.irq == (o.irq || (f.even_cycle && f.cycles == 0
                && !o.inhibit_irq && !o.counter_mode)))
        &&& (f.counter_mode == o.counter_mode)
        &&& (f.inhibit_irq == o.inhibit_irq)
        &&& (f.dmc_channel.enabled == o.dmc_channel.enabled)
        &&& ({
            let half = o.cycles + 1 == 7457 || f.cycles == 0;
            let quarter = o.cycles + 1 == 3729 || o.cycles + 1 == 11186 || half;
            f.even_cycle ==> Self::channels_clocked(
                Apu {
                    pulse_channel_1: o.pulse_channel_1,
                    pulse_channel_2: o.pulse_channel_2,
                    triangle_channel: o.triangle_channel,
                    noise_channel: o.noise_channel,
                    ..f
                },
                f,
                quarter,
                half,
            )
        })
        &&& !f.even_cycle ==> f.pulse_channel_1 == o.pulse_channel_1 && f.pulse_channel_2
            == o.pulse_channel_2 && f.triangle_channel == o.triangle_channel && f.noise_channel
            == o.noise_channel
        &&& f.even_cycle ==> sample == if o.sample_wait <= 2 * SAMPLE_RATE_HZ {
            Some(f.levels_now())
        } else {
            None::<ChannelLevels>
        }
    }

    /// Quarter-frame and half-frame clocks, and one timer step, for the
    /// pulse, triangle and noise channels.
    fn clock_channels(&mut self, quarter: bool, half: bool)
        requires
            old(self).wf(),
        ensures
            final(self).wf(),
            Self::channels_clocked(*old(self), *final(self), quarter, half),
            *final(self) == (Apu {
                pulse_channel_1: final(self).pulse_channel_1,
                pulse_channel_2: final(self).pulse_channel_2,
                triangle_channel: final(self).triangle_channel,
                noise_channel: final(self).noise_channel,
                ..*old(self)
            }),
    {
        self.triangle_channel.clock(quarter, half);
        self.pulse_channel_1.clock(quarter, half);
        self.pulse_channel_2.clock(quarter, half);
        self.noise_channel.clock(quarter, half);
        proof {
            reveal(Apu::channels_clocked);
        }
    }

    /// The frame-sequencer events on the channels: on a quarter frame the
    /// envelopes and the triangle's linear counter, on a half frame the
    /// length counters.
    #[verifier::opaque]
    pub open spec fn channels_clocked(o: Apu, f: Apu, quarter: bool, half: bool) -> bool {
        &&& f == (Apu {
            pulse_channel_1: f.pulse_channel_1,
            pulse_channel_2: f.pulse_channel_2,
            triangle_channel: f.triangle_channel,
            noise_channel: f.noise_channel,
            ..o
        })
        &&& f.pulse_channel_1.enabled == o.pulse_channel_1.enabled
        &&& f.pulse_channel_2.enabled == o.pulse_channel_2.enabled
        &&& f.triangle_channel.enabled == o.triangle_channel.enabled
        &&& f.noise_channel.enabled == o.noise_channel.enabled
        &&& f.pulse_channel_1.envelope.length_counter == if half {
            o.pulse_channel_1.envelope.length_counter.after_clocks(1)
        } else {
            o.pulse_channel_1.envelope.length_counter
        }
        &&& f.pulse_channel_2.envelope.length_counter == if half {
            o.pulse_channel_2.envelope.length_counter.after_clocks(1)
        } else {
            o.pulse_channel_2.envelope.length_counter
        }
        &&& f.triangle_channel.length_counter == if half {
            o.triangle_channel.length_counter.after_clocks(1)
        } else {
            o.triangle_channel.length_counter
        }
        &&& f.noise_channel.envelope.length_counter == if half {
            o.noise_channel.envelope.length_counter.after_clocks(1)
        } else {
            o.noise_channel.envelope.length_counter
        }
        &&& f.pulse_channel_1.envelope == (Envelope {
            length_counter: f.pulse_channel_1.envelope.length_counter,
            ..if quarter {
                o.pulse_channel_1.envelope.after_clock()
            } else {
                o.pulse_channel_1.envelope
            }
        })
        &&& f.pulse_channel_2.envelope == (Envelope {
            length_counter: f.pulse_channel_2.envelope.length_counter,
            ..if quarter {
                o.pulse_channel_2.envelope.after_clock()
            } else {
                o.pulse_channel_2.envelope
            }
        })
        &&& f.triangle_channel.linear_counter == if !quarter {
            o.triangle_channel.linear_counter
        } else if o.triangle_channel.reload {
            o.triangle_channel.linear_counter_reload
        } else if o.triangle_channel.linear_counter > 0 {
            (o.triangle_channel.linear_counter - 1) as u8
        } else {
            0
        }
    }

    /// Advances one master cycle. The frame sequencer and the channels move on
    /// every other cycle; a sample is handed back each time one is due at
    /// the output rate.
    #[verifier::rlimit(40)]
    pub fn clock(&mut self, cart: &Cartridge) -> (sample: Option<ChannelLevels>)
        requires
            old(self).wf(),
            cart.wf(),
        ensures
            final(self).wf(),
            Self::clocked(*old(self), *final(self), *cart, sample),
    {
        self.even_cycle = !self.even_cycle;
        self.dmc_channel.clock(cart);
        if !self.even_cycle {
            return None;
        }
        self.cycles = self.cycles + 1;
        let period = if self.counter_mode {
            FIVE_STEP_PERIOD
        } else {
            FOUR_STEP_PERIOD
        };
        let full = self.cycles >= period;
        let half = self.cycles == 7457 || full;
        let quarter = self.cycles == 3729 || self.cycles == 11186 || half;
        if full {
            self.cycles = 0;
            if !self.inhibit_irq && !self.counter_mode {
                self.irq = true;
            }
        }
        let step: u32 = 2 * SAMPLE_RATE_HZ;
        let due = self.sample_wait <= step;
        if due {
            self.sample_wait = self.sample_wait + CPU_CLOCK_HZ - step;
        } else {
            self.sample_wait = self.sample_wait - step;
        }
        let ghost before = *self;
        self.clock_channels(quarter, half);
        assert(before == (Apu {
            pulse_channel_1: old(self).pulse_channel_1,
            pulse_channel_2: old(self).pulse_channel_2,
            triangle_channel: old(self).triangle_channel,
            noise_channel: old(self).noise_channel,
            ..*self
        }));
        if due {
            Some(self.levels())
        } else {
            None
        }
    }

    /// How a write of `data` to channel register `address` (relative to
    /// 0x4000) changes the APU: four registers per channel, in the order
    /// pulse 1, pulse 2, triangle, noise, DMC.
    pub open spec fn written(o: Apu, f: Apu, address: u16, data: u8) -> bool {
        let reg = (address % 4) as u8;
        if address < 4 {
            PulseChannel::written(o.pulse_channel_1, f.pulse_channel_1, reg, data) && f == (Apu {
                pulse_channel_1: f.pulse_channel_1,
                ..o
            })
        } else if address < 8 {
            PulseChannel::written(o.pulse_channel_2, f.pulse_channel_2, reg, data) && f == (Apu {
                pulse_channel_2: f.pulse_channel_2,
                ..o
            })
        } else if address < 12 {
            TriangleChannel::written(o.triangle_channel, f.triangle_channel, reg, data) && f == (
            Apu { triangle_channel: f.triangle_channel, ..o })
        } else if address < 16 {
            NoiseChannel::written(o.noise_channel, f.noise_channel, reg, data) && f == (Apu {
                noise_channel: f.noise_channel,
                ..o
            })
        } else if address < 20 {
            DmcChannel::written(o.dmc_channel, f.dmc_channel, reg, data) && f == (Apu {
                dmc_channel: f.dmc_channel,
                ..o
            })
        } else {
            f == o
        }
    }

    /// Writes channel register `address` (0x00 to 0x13, relative to 0x4000).
    pub fn write(&mut self, address: u16, data: u8)
        requires
            old(self).wf(),
        ensures
            final(self).wf(),
            Self::written(*old(self), *final(self), address, data),
    {
        let channel_index = address / 4;
        let channel_address = (address % 4) as u8;
        if channel_index == 0 {
            self.pulse_channel_1.write(channel_address, data);
        } else if channel_index == 1 {
            self.pulse_channel_2.write(channel_address, data);
        } else if channel_index == 2 {
            self.triangle_channel.write(channel_address, data);
        } else if channel_index == 3 {
            self.noise_channel.write(channel_address, data);
        } else if channel_index == 4 {
            self.dmc_channel.write(channel_address, data);
        }
    }

    /// Reads 0x4015: one bit per active length counter, the DMC reader, and
    /// the two interrupt flags; clears the frame interrupt.
    pub fn read_status(&mut self) -> (r: u8)
        requires
            old(self).wf(),
        ensures
            final(self).wf(),
            r == apu_status(*old(self)),
            *final(self) == (Apu { irq: false, ..*old(self) }),
    {
        let result: u8 = (if self.pulse_channel_1.envelope.length_counter.counter > 0 {
            0x01u8
        } else {
            0
        }) | (if self.pulse_channel_2.envelope.length_counter.counter > 0 {
            0x02u8
        } else {
            0
        }) | (if self.triangle_channel.length_counter.counter > 0 {
            0x04u8
        } else {
            0
        }) | (if self.noise_channel.envelope.length_counter.counter > 0 {
            0x08u8
        } else {
            0
        }) | (if !self.dmc_channel.reader.has_ended() {
            0x10u8
        } else {
            0
        }) | (if self.irq {
            0x40u8
        } else {
            0
        }) | (if self.dmc_channel.reader.irq() {
            0x80u8
        } else {
            0
        });
        self.irq = false;
        result
    }

    /// How a write of `data` to 0x4015 changes the APU.
    pub open spec fn control_written(o: Apu, f: Apu, data: u8) -> bool {
        &&& (f.pulse_channel_1.enabled == (data & 0x01 != 0))
        &&& (f.pulse_channel_2.enabled == (data & 0x02 != 0))
        &&& (f.triangle_channel.enabled == (data & 0x04 != 0))
        &&& (f.noise_channel.enabled == (data & 0x08 != 0))
        &&& (f.dmc_channel.enabled == (data & 0x10 != 0))
        &&& (data & 0x01 == 0 ==> f.pulse_channel_1.envelope.length_counter.counter == 0)
        &&& (data & 0x02 == 0 ==> f.pulse_channel_2.envelope.length_counter.counter == 0)
        &&& (data & 0x04 == 0 ==> f.triangle_channel.length_counter.counter == 0)
        &&& (data & 0x08 == 0 ==> f.noise_channel.envelope.length_counter.counter == 0)
        &&& (data & 0x01 != 0 ==> f.pulse_channel_1.envelope.length_counter == o.pulse_channel_1.envelope.length_counter)
        &&& (data & 0x10 == 0 ==> f.dmc_channel.reader.has_ended)
        &&& (data & 0x02 != 0 ==> f.pulse_channel_2.envelope.length_counter == o.pulse_channel_2.envelope.length_counter)
        &&& (data & 0x04 != 0 ==> f.triangle_channel.length_counter == o.triangle_channel.length_counter)
        &&& (data & 0x08 != 0 ==> f.noise_channel.envelope.length_counter == o.noise_channel.envelope.length_counter)
        &&& (data & 0x10 != 0 && o.dmc_channel.reader.bytes_remaining == 0 ==> {
            &&& f.dmc_channel.reader.current_pos == o.dmc_channel.reader.address
            &&& f.dmc_channel.reader.bytes_remaining == o.dmc_channel.reader.length
            &&& !f.dmc_channel.reader.has_ended
        })
        &&& (data & 0x10 != 0 && o.dmc_channel.reader.bytes_remaining != 0 ==> f.dmc_channel.reader
            == (SampleReader { irq: false, ..o.dmc_channel.reader }))
        &&& (!f.dmc_channel.reader.irq)
        &&& (f.irq == o.irq)
        &&& (f.even_cycle == o.even_cycle)
        &&& f.counter_mode == o.counter_mode && f.inhibit_irq == o.inhibit_irq
        &&& f.cycles == o.cycles && f.sample_wait == o.sample_wait
    }

    /// Writes 0x4015: enables channels, zeroing the length counter of each
    /// disabled one; starts or halts the DMC reader and clears its interrupt.
    pub fn write_control(&mut self, data: u8)
        requires
            old(self).wf(),
        ensures
            final(self).wf(),
            Self::control_written(*old(self), *final(self), data),
    {
        let pulse_1_enabled = (data & 0x01) != 0;
        let pulse_2_enabled = (data & 0x02) != 0;
        let triangle_enabled = (data & 0x04) != 0;
        let noise_enabled = (data & 0x08) != 0;
        let dmc_enabled = (data & 0x10) != 0;

        self.pulse_channel_1.enabled = pulse_1_enabled;
        if !pulse_1_enabled {
            self.pulse_channel_1.envelope.length_counter.counter = 0;
        }
        self.pulse_channel_2.enabled = pulse_2_enabled;
        if !pulse_2_enabled {
            self.pulse_channel_2.envelope.length_counter.counter = 0;
        }
        self.triangle_channel.enabled = triangle_enabled;
        if !triangle_enabled {
            self.triangle_channel.length_counter.counter = 0;
        }
        self.noise_channel.enabled = noise_enabled;
        if !noise_enabled {
            self.noise_channel.envelope.length_counter.counter = 0;
        }
        self.dmc_channel.enabled = dmc_enabled;
        self.dmc_channel.reader.clear_irq();
        if dmc_enabled {
            self.dmc_channel.reader.restart();
        } else {
            self.dmc_channel.reader.halt();
        }
    }

    /// Writes 0x4017: bit 7 selects the five-step sequence, bit 6 inhibits
    /// the frame interrupt.
    pub fn write_frame_counter(&mut self, data: u8)
        ensures
            *final(self) == (Apu {
                counter_mode: data & 0x80 != 0,
                inhibit_irq: data & 0x40 != 0,
                ..*old(self)
            }),
    {
        self.counter_mode = (data & 0x80) != 0;
        self.inhibit_irq = (data & 0x40) != 0;
    }
}

} // verus!
