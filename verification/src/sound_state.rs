//! The tone generator.
//!
//! The phase of the tone is counted in steps of which `samples_per_seconds`
//! make one full turn, so that a tone of `hertz` turns per second advances by
//! `hertz` steps from one sample to the next.

use crate::stereo_sample::StereoSample;
use vstd::prelude::*;

verus! {

/// Bits in the value of one channel.
pub const BITS_PER_SAMPLE: u16 = 16;

/// Samples played in one second.
pub const SAMPLES_PER_SECOND: u32 = 48_000u32;

/// The loudness the game starts with.
pub const DEFAULT_VOLUME: i16 = 500;

/// Bytes that one sample of two channels takes.
pub const BYTES_PER_SAMPLE: u32 = 4;

/// The pitch, phase, format and loudness of the tone.
#[derive(Debug, Clone, Copy)]
pub struct SoundState {
    pub hertz: u32,
    pub theta: u32,
    pub samples_per_seconds: u32,
    pub bytes_per_sample: u32,
    pub bits_per_sample: u16,
    pub channel_count: u16,
    pub volume: i16,
}

/// The phase reached from `phase` after `count` samples of `step` each.
pub open spec fn phase_after(phase: int, step: int, count: int, turn: int) -> int {
    (phase + count * step) % turn
}

/// A tone of 256 turns per second at phase zero, in the format and at the
/// loudness the game starts with.
pub open spec fn initial_tone() -> SoundState {
    SoundState {
        hertz: 256,
        theta: 0,
        samples_per_seconds: SAMPLES_PER_SECOND,
        bytes_per_sample: BYTES_PER_SAMPLE,
        bits_per_sample: BITS_PER_SAMPLE,
        channel_count: 2,
        volume: DEFAULT_VOLUME,
    }
}

/// The samples of a tone that starts at `phase` and advances by `step` from
/// one sample to the next: each sample carries, on both channels, the value
/// that `wave` holds for its phase.
pub open spec fn synthesized(
    wave: Seq<i16>,
    phase: int,
    step: int,
    count: nat,
) -> Seq<StereoSample> {
    Seq::new(
        count,
        |i: int|
            StereoSample {
                left: wave[phase_after(phase, step, i, wave.len() as int)],
                right: wave[phase_after(phase, step, i, wave.len() as int)],
            },
    )
}

/// From one sample to the next the phase stays inside the turn and advances,
/// up to whole turns, by exactly the step; the step itself is shorter than a
/// turn.
pub proof fn lemma_phase_advances_by_step(sound: SoundState, count: nat)
    requires
        sound.samples_per_seconds > 0,
    ensures
        0 <= sound.step() < sound.samples_per_seconds,
        0 <= phase_after(
            sound.theta as int,
            sound.step(),
            count as int,
            sound.samples_per_seconds as int,
        ) < sound.samples_per_seconds,
        (phase_after(
            sound.theta as int,
            sound.step(),
            count as int + 1,
            sound.samples_per_seconds as int,
        ) - phase_after(
            sound.theta as int,
            sound.step(),
            count as int,
            sound.samples_per_seconds as int,
        )) % (sound.samples_per_seconds as int) == sound.step(),
{
    let turn = sound.samples_per_seconds as int;
    let step = sound.step();
    let now = sound.theta + count * step;
    vstd::arithmetic::div_mod::lemma_mod_bound(sound.hertz as int, turn);
    vstd::arithmetic::div_mod::lemma_mod_bound(now, turn);
    vstd::arithmetic::div_mod::lemma_mod_bound(now + step, turn);
    assert(sound.theta + (count + 1) * step == now + step) by (nonlinear_arith)
        requires
            now == sound.theta + count * step,
    ;
    vstd::arithmetic::div_mod::lemma_sub_mod_noop(now + step, now, turn);
    vstd::arithmetic::div_mod::lemma_small_mod(step as nat, turn as nat);
}

/// Advancing by one step from the phase after `count` samples gives the phase
/// after `count + 1` samples.
pub proof fn lemma_phase_after_next(phase: int, step: int, count: int, turn: int)
    requires
        turn > 0,
    ensures
        (phase_after(phase, step, count, turn) + step) % turn == phase_after(
            phase,
            step,
            count + 1,
            turn,
        ),
{
    let now = phase + count * step;
    assert(phase + (count + 1) * step == now + step) by (nonlinear_arith)
        requires
            now == phase + count * step,
    ;
    vstd::arithmetic::div_mod::lemma_add_mod_noop(now, step, turn);
    vstd::arithmetic::div_mod::lemma_mod_twice(now, turn);
    vstd::arithmetic::div_mod::lemma_add_mod_noop(now % turn, step, turn);
}

impl SoundState {
    /// A turn has at least one step and the phase lies inside the turn.
    pub open spec fn wf(self) -> bool {
        0 <= self.theta < self.samples_per_seconds
    }

    /// The steps that the phase advances from one sample to the next, less
    /// whole turns.
    pub open spec fn step(self) -> int {
        self.hertz as int % self.samples_per_seconds as int
    }

    /// A tone of 256 turns per second at phase zero, in the format and at the
    /// loudness the game starts with.
    #[must_use]
    pub fn new() -> (sound: Self)
        ensures
            sound == initial_tone(),
            sound.wf(),
    {
        SoundState {
            hertz: 256,
            theta: 0,
            samples_per_seconds: SAMPLES_PER_SECOND,
            bytes_per_sample: BYTES_PER_SAMPLE,
            bits_per_sample: BITS_PER_SAMPLE,
            channel_count: StereoSample::CHANNEL_COUNT,
            volume: DEFAULT_VOLUME,
        }
    }

    /// The loudness: the highest value a sample takes.
    #[must_use]
    pub fn volume(&self) -> (volume: i16)
        ensures
            volume == self.volume,
    {
        self.volume
    }

    /// The number of channels.
    #[must_use]
    pub fn channel_count(&self) -> (count: u16)
        ensures
            count == self.channel_count,
    {
        self.channel_count
    }

    /// Samples played in one second.
    #[must_use]
    pub fn samples_per_second(&self) -> (samples: u32)
        ensures
            samples == self.samples_per_seconds,
    {
        self.samples_per_seconds
    }

    /// Bits in the value of one channel.
    #[must_use]
    pub fn bits_per_sample(&self) -> (bits: u16)
        ensures
            bits == self.bits_per_sample,
    {
        self.bits_per_sample
    }

    /// Bytes that one sample of all channels takes.
    #[must_use]
    pub fn bytes_per_sample(&self) -> (bytes: u32)
        ensures
            bytes == self.bytes_per_sample,
    {
        self.bytes_per_sample
    }

    /// Bytes that one second of sound takes.
    #[must_use]
    pub fn buffer_size(&self) -> (bytes: u32)
        requires
            self.samples_per_seconds * self.bytes_per_sample <= u32::MAX,
        ensures
            bytes == self.samples_per_seconds * self.bytes_per_sample,
    {
        self.samples_per_seconds * self.bytes_per_sample
    }

    /// Turns of the tone in one second.
    #[must_use]
    pub fn hertz(&self) -> (hertz: u32)
        ensures
            hertz == self.hertz,
    {
        self.hertz
    }

    /// Changes the pitch. The phase is kept, so the next sample goes on from
    /// where the last one was.
    pub fn set_hertz(&mut self, value: u32)
        ensures
            *final(self) == (SoundState { hertz: value, ..*old(self) }),
    {
        self.hertz = value;
    }

    /// The phase of the next sample.
    #[must_use]
    pub fn theta(&self) -> (theta: u32)
        ensures
            theta == self.theta,
    {
        self.theta
    }

    /// The steps that the phase advances from one sample to the next, less
    /// whole turns.
    #[must_use]
    pub fn time_delta(&self) -> (step: u32)
        requires
            self.samples_per_seconds > 0,
        ensures
            step == self.step(),
            step < self.samples_per_seconds,
    {
        self.hertz % self.samples_per_seconds
    }

    /// Advances the phase by `amount` steps, taking whole turns off.
    pub fn advance_theta(&mut self, amount: u32)
        requires
            old(self).samples_per_seconds > 0,
        ensures
            *final(self) == (SoundState {
                theta: ((old(self).theta + amount) % old(self).samples_per_seconds as int) as u32,
                ..*old(self)
            }),
            final(self).wf(),
    {
        let sum: u64 = self.theta as u64 + amount as u64;
        self.theta = (sum % self.samples_per_seconds as u64) as u32;
    }

    /// Fills `sound_buffer` with the next samples of the tone and leaves the
    /// phase where the sample after the last one begins.
    ///
    /// `wave` holds one turn of the wave at the loudness wanted, one value for
    /// each step of the turn.
    pub fn write_sound(&mut self, wave: &[i16], sound_buffer: &mut [StereoSample])
        requires
            old(self).wf(),
            wave@.len() == old(self).samples_per_seconds,
        ensures
            final(sound_buffer)@ == synthesized(
                wave@,
                old(self).theta as int,
                old(self).step(),
                old(sound_buffer)@.len(),
            ),
            *final(self) == (SoundState {
                theta: phase_after(
                    old(self).theta as int,
                    old(self).step(),
                    old(sound_buffer)@.len() as int,
                    old(self).samples_per_seconds as int,
                ) as u32,
                ..*old(self)
            }),
            final(self).wf(),
    {
        let time_delta = self.time_delta();
        let turn = self.samples_per_seconds;
        let count = sound_buffer.len();
        let mut index: usize = 0;
        proof {
            assert(0int * (time_delta as int) == 0) by (nonlinear_arith);
            vstd::arithmetic::div_mod::lemma_small_mod(self.theta as nat, turn as nat);
        }
        while index < count
            invariant
                index <= count,
                count == sound_buffer@.len(),
                count == old(sound_buffer)@.len(),
                turn == old(self).samples_per_seconds,
                turn > 0,
                wave@.len() == turn,
                time_delta == old(self).step(),
                time_delta < turn,
                *self == (SoundState { theta: self.theta, ..*old(self) }),
                self.theta == phase_after(
                    old(self).theta as int,
                    time_delta as int,
                    index as int,
                    turn as int,
                ),
                self.theta < turn,
                forall|i: int|
                    0 <= i < index ==> #[trigger] sound_buffer@[i] == synthesized(
                        wave@,
                        old(self).theta as int,
                        old(self).step(),
                        count as nat,
                    )[i],
            decreases count - index,
        {
            let sample_value = wave[self.theta as usize];
            sound_buffer[index] = StereoSample::from_left_right(sample_value, sample_value);
            proof {
                lemma_phase_after_next(
                    old(self).theta as int,
                    time_delta as int,
                    index as int,
                    turn as int,
                );
                vstd::arithmetic::div_mod::lemma_mod_bound(
                    self.theta as int + time_delta as int,
                    turn as int,
                );
            }
            self.advance_theta(time_delta);
            index += 1;
        }
        proof {
            assert(sound_buffer@ =~= synthesized(
                wave@,
                old(self).theta as int,
                old(self).step(),
                count as nat,
            ));
        }
    }

    /// Exec form of [`SoundState::wf`].
    pub fn is_well_formed(&self) -> (well_formed: bool)
        ensures
            well_formed == self.wf(),
    {
        self.theta < self.samples_per_seconds
    }
}

impl Default for SoundState {
    /// The tone the game starts with.
    fn default() -> (sound: Self)
        ensures
            sound == initial_tone(),
    {
        Self::new()
    }
}

} // verus!
