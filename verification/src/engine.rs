//! The monophonic synthesis engine.
//!
//! The engine is a state machine over note presence: either no note is held
//! (silence) or one note sounds. Incoming MIDI events move it between the two
//! states; rendering walks it forward one frame at a time and emits, for each
//! frame, a description of the sample to produce: either silence, or a tone
//! given by its frequency, the phase clock, the envelope factor and the
//! amplitude. All of these are exact integers, so the whole per-frame logic
//! is verified; evaluating the sine itself from a descriptor is left to the
//! embedding shell.
//!
//! Time is counted in frames. A frame count `t` at sample rate `r` stands for
//! `t / r` seconds, so advancing one frame adds exactly one sample period to
//! the clock. The phase clock is never reset while notes change, so a new
//! note picks up the running clock (and with it the audible discontinuity a
//! phase-accumulating oscillator would avoid — preserved deliberately).

use vstd::prelude::*;

use crate::params::PARAM_UNIT;
use crate::pitch::spec_frequency_of;
use crate::pitch::frequency_of;

verus! {

/// MIDI status byte for a note-off event on channel zero.
pub const NOTE_OFF_STATUS: u8 = 128;

/// MIDI status byte for a note-on event on channel zero.
pub const NOTE_ON_STATUS: u8 = 144;

/// Largest valid MIDI note number.
pub const MAX_NOTE: u8 = 127;

/// One MIDI-style event: status byte, note number and velocity.
/// The velocity byte is carried but has no effect on the synthesis.
#[derive(Clone, Copy, Debug, PartialEq, Eq, Structural)]
pub struct MidiEvent {
    pub status: u8,
    pub note: u8,
    pub velocity: u8,
}

/// What one audio frame should contain. `Silent` means an output value of
/// exactly zero. A `Tone` describes the sample value
/// `sin(2 * pi * (time_frames / sample_rate) * (freq / FREQ_UNIT))
///  * (alpha_num / alpha_den) * (amplitude / PARAM_UNIT)`,
/// where `alpha_num / alpha_den` is the attack-envelope factor in `[0, 1]`.
#[derive(Clone, Copy, Debug, PartialEq, Eq, Structural)]
pub enum FrameOutput {
    Silent,
    Tone {
        /// Frequency of the held note, in fixed-point units of `1 / FREQ_UNIT` Hz.
        freq: u64,
        /// Value of the phase clock at this frame, in frames.
        time_frames: u64,
        /// Sample rate the clock counts against, in Hz.
        sample_rate: u32,
        /// Numerator of the envelope factor.
        alpha_num: u128,
        /// Denominator of the envelope factor (at least 1).
        alpha_den: u128,
        /// Amplitude scale, in fixed-point units of `1 / PARAM_UNIT`.
        amplitude: i64,
    },
}

/// A configuration request the engine rejects rather than absorbs.
#[derive(Clone, Copy, Debug, PartialEq, Eq, Structural)]
pub enum ConfigError {
    /// A sample rate of zero would make a sample period meaningless.
    InvalidSampleRate,
}

/// The synthesis engine: sample rate, the running phase clock, the time the
/// current note has been held, and which note is held, if any.
pub struct Engine {
    /// Frames per second; always at least 1.
    pub sample_rate: u32,
    /// The phase clock: frames elapsed while sounding, never reset.
    pub time_frames: u64,
    /// Frames since the held note was triggered; 0 while silent.
    pub note_frames: u64,
    /// The held note, or `None` while silent.
    pub note: Option<u8>,
}

impl Engine {
    /// Well-formedness: the sample rate is usable and any held note is a
    /// valid MIDI note, so its frequency is defined.
    pub open spec fn wf(self) -> bool {
        &&& self.sample_rate >= 1
        &&& match self.note {
            Some(n) => n <= MAX_NOTE,
            None => true,
        }
    }
}

/// Effect of a note-on event: the note becomes the held note and its
/// duration restarts at zero, whatever was held before — retriggering the
/// same note restarts its envelope. A note number outside the MIDI range is
/// malformed input and is absorbed as a no-op.
pub open spec fn spec_note_on(s: Engine, note: u8) -> Engine {
    if note <= MAX_NOTE {
        Engine { note: Some(note), note_frames: 0, ..s }
    } else {
        s
    }
}

/// Effect of a note-off event: silence only if the event names the note
/// currently held; a stale or mismatched note-off is ignored.
pub open spec fn spec_note_off(s: Engine, note: u8) -> Engine {
    if s.note == Some(note) {
        Engine { note: None, ..s }
    } else {
        s
    }
}

/// Effect of one MIDI event on the engine state. Anything other than a
/// note-on or note-off status byte is ignored.
pub open spec fn spec_apply_event(s: Engine, event: MidiEvent) -> Engine {
    if event.status == NOTE_OFF_STATUS {
        spec_note_off(s, event.note)
    } else if event.status == NOTE_ON_STATUS {
        spec_note_on(s, event.note)
    } else {
        s
    }
}

/// Effect of a sequence of MIDI events, applied in delivery order.
pub open spec fn spec_apply_events(s: Engine, events: Seq<MidiEvent>) -> Engine
    decreases events.len(),
{
    if events.len() == 0 {
        s
    } else {
        spec_apply_event(spec_apply_events(s, events.drop_last()), events.last())
    }
}

/// Increment that sticks at the top of the range instead of wrapping.
pub open spec fn saturating_inc(x: u64) -> u64 {
    if x == u64::MAX {
        x
    } else {
        (x + 1) as u64
    }
}

/// Advancing the engine by one frame: while a note sounds, the phase clock
/// and the note duration each gain one frame; while silent, nothing moves.
pub open spec fn spec_step(s: Engine) -> Engine {
    match s.note {
        Some(_) => Engine {
            time_frames: saturating_inc(s.time_frames),
            note_frames: saturating_inc(s.note_frames),
            ..s
        },
        None => s,
    }
}

/// The engine after `n` frames have been generated.
pub open spec fn spec_run(s: Engine, n: nat) -> Engine
    decreases n,
{
    if n == 0 {
        s
    } else {
        spec_step(spec_run(s, (n - 1) as nat))
    }
}

/// Whether the attack ramp is still in progress: the held note's duration,
/// `note_frames / sample_rate` seconds, is below the attack parameter,
/// `attack / PARAM_UNIT` seconds. An attack of zero (or less) means no ramp.
pub open spec fn spec_ramp_active(note_frames: u64, sample_rate: u32, attack: i64) -> bool {
    attack > 0 && (note_frames as int) * (PARAM_UNIT as int) < (attack as int) * (
    sample_rate as int)
}

/// Numerator of the envelope factor: during the ramp the factor is the exact
/// ratio of note duration to attack time; afterwards it is 1.
pub open spec fn spec_alpha_num(note_frames: u64, sample_rate: u32, attack: i64) -> int {
    if spec_ramp_active(note_frames, sample_rate, attack) {
        (note_frames as int) * (PARAM_UNIT as int)
    } else {
        1
    }
}

/// Denominator of the envelope factor; positive whenever the state is
/// well-formed.
pub open spec fn spec_alpha_den(note_frames: u64, sample_rate: u32, attack: i64) -> int {
    if spec_ramp_active(note_frames, sample_rate, attack) {
        (attack as int) * (sample_rate as int)
    } else {
        1
    }
}

/// The sample descriptor the engine produces at its current state: silence
/// without a held note, otherwise the held note's tone under the current
/// phase clock, envelope factor and amplitude.
pub open spec fn spec_frame_out(s: Engine, amplitude: i64, attack: i64) -> FrameOutput {
    match s.note {
        None => FrameOutput::Silent,
        Some(n) => FrameOutput::Tone {
            freq: spec_frequency_of(n as int) as u64,
            time_frames: s.time_frames,
            sample_rate: s.sample_rate,
            alpha_num: spec_alpha_num(s.note_frames, s.sample_rate, attack) as u128,
            alpha_den: spec_alpha_den(s.note_frames, s.sample_rate, attack) as u128,
            amplitude: amplitude,
        },
    }
}

/// Truncated rescale of a frame count from one sample rate to another,
/// preserving the elapsed seconds it stands for; saturates at the top of the
/// range.
pub open spec fn spec_rescale_frames(frames: u64, old_rate: u32, new_rate: u32) -> u64 {
    let scaled = (frames as int) * (new_rate as int) / (old_rate as int);
    if scaled > u64::MAX {
        u64::MAX
    } else {
        scaled as u64
    }
}

impl Default for Engine {
    /// A fresh engine: 44100 Hz, clocks at zero, no note held.
    fn default() -> (e: Engine)
        ensures
            e == (Engine { sample_rate: 44100, time_frames: 0, note_frames: 0, note: None }),
            e.wf(),
    {
        Engine { sample_rate: 44100, time_frames: 0, note_frames: 0, note: None }
    }
}

impl Engine {
    /// Start sounding `note`, restarting the note clock; out-of-range note
    /// numbers are absorbed as no-ops.
    pub fn note_on(&mut self, note: u8)
        ensures
            *final(self) == spec_note_on(*old(self), note),
    {
        if note <= MAX_NOTE {
            self.note_frames = 0;
            self.note = Some(note);
        }
    }

    /// Stop sounding, but only if `note` names the note currently held.
    pub fn note_off(&mut self, note: u8)
        ensures
            *final(self) == spec_note_off(*old(self), note),
    {
        match self.note {
            Some(held) => {
                if held == note {
                    self.note = None;
                }
            },
            None => {
            },
        }
    }

    /// Apply one MIDI event: note-off, note-on, or — for any other status
    /// byte — nothing.
    pub fn process_midi_event(&mut self, event: MidiEvent)
        ensures
            *final(self) == spec_apply_event(*old(self), event),
    {
        if event.status == NOTE_OFF_STATUS {
            self.note_off(event.note);
        } else if event.status == NOTE_ON_STATUS {
            self.note_on(event.note);
        }
    }

    /// Apply a block's pending MIDI events in the order delivered. Events
    /// take effect before any sample of the following block is generated.
    pub fn process_events(&mut self, events: &Vec<MidiEvent>)
        ensures
            *final(self) == spec_apply_events(*old(self), events@),
    {
        let ghost s0 = *self;
        let mut i: usize = 0;
        while i < events.len()
            invariant
                i <= events@.len(),
                *self == spec_apply_events(s0, events@.take(i as int)),
            decreases events@.len() - i,
        {
            self.process_midi_event(events[i]);
            proof {
                assert(events@.take(i + 1).drop_last() =~= events@.take(i as int));
                assert(events@.take(i + 1).last() == events@[i as int]);
            }
            i = i + 1;
        }
        proof {
            assert(events@.take(events@.len() as int) =~= events@);
        }
    }

    /// Change the sample rate. The phase clock and the note clock are
    /// rescaled so that the seconds they stand for are preserved (up to
    /// truncation). A rate of zero is a degenerate configuration: it is
    /// rejected and the engine is left untouched.
    pub fn set_sample_rate(&mut self, sample_rate: u32) -> (r: Result<(), ConfigError>)
        requires
            old(self).wf(),
        ensures
            final(self).wf(),
            sample_rate >= 1 ==> r == Ok::<(), ConfigError>(()) && *final(self) == (Engine {
                sample_rate: sample_rate,
                time_frames: spec_rescale_frames(
                    old(self).time_frames,
                    old(self).sample_rate,
                    sample_rate,
                ),
                note_frames: spec_rescale_frames(
                    old(self).note_frames,
                    old(self).sample_rate,
                    sample_rate,
                ),
                ..*old(self)
            }),
            sample_rate == 0 ==> r == Err::<(), ConfigError>(ConfigError::InvalidSampleRate)
                && *final(self) == *old(self),
    {
        if sample_rate == 0 {
            return Err(ConfigError::InvalidSampleRate);
        }
        self.time_frames = rescale_frames(self.time_frames, self.sample_rate, sample_rate);
        self.note_frames = rescale_frames(self.note_frames, self.sample_rate, sample_rate);
        self.sample_rate = sample_rate;
        Ok(())
    }

    /// The descriptor of the sample due at the engine's current state.
    pub fn current_frame(&self, amplitude: i64, attack: i64) -> (o: FrameOutput)
        requires
            self.wf(),
        ensures
            o == spec_frame_out(*self, amplitude, attack),
    {
        match self.note {
            None => FrameOutput::Silent,
            Some(n) => {
                let freq = frequency_of(n);
                let (alpha_num, alpha_den) = envelope_alpha(
                    self.note_frames,
                    self.sample_rate,
                    attack,
                );
                FrameOutput::Tone {
                    freq,
                    time_frames: self.time_frames,
                    sample_rate: self.sample_rate,
                    alpha_num,
                    alpha_den,
                    amplitude,
                }
            },
        }
    }

    /// Move the engine one frame forward: both clocks advance while a note
    /// sounds, nothing moves while silent.
    fn advance(&mut self)
        ensures
            *final(self) == spec_step(*old(self)),
    {
        match self.note {
            Some(_) => {
                if self.time_frames < u64::MAX {
                    self.time_frames = self.time_frames + 1;
                }
                if self.note_frames < u64::MAX {
                    self.note_frames = self.note_frames + 1;
                }
            },
            None => {
            },
        }
    }

    /// Generate the descriptors for one audio block of `frames` frames,
    /// under the given amplitude and attack parameters (each a snapshot of
    /// the host-writable value, in units of `1 / PARAM_UNIT`). Frame `i` is
    /// produced from the state after `i` advances, and the engine is left
    /// `frames` advances ahead.
    pub fn render(&mut self, frames: usize, amplitude: i64, attack: i64) -> (out: Vec<
        FrameOutput,
    >)
        requires
            old(self).wf(),
        ensures
            final(self).wf(),
            *final(self) == spec_run(*old(self), frames as nat),
            out@.len() == frames,
            forall|i: int|
                0 <= i < frames ==> out@[i] == spec_frame_out(
                    spec_run(*old(self), i as nat),
                    amplitude,
                    attack,
                ),
    {
        let ghost s0 = *self;
        let mut out: Vec<FrameOutput> = Vec::new();
        let mut i: usize = 0;
        while i < frames
            invariant
                i <= frames,
                self.wf(),
                *self == spec_run(s0, i as nat),
                out@.len() == i,
                forall|j: int|
                    0 <= j < i ==> out@[j] == spec_frame_out(
                        spec_run(s0, j as nat),
                        amplitude,
                        attack,
                    ),
            decreases frames - i,
        {
            let o = self.current_frame(amplitude, attack);
            out.push(o);
            self.advance();
            i = i + 1;
        }
        out
    }
}

/// Rescale a frame count from one sample rate to another so that the elapsed
/// seconds it stands for are preserved, truncating downwards; a count too
/// large for the new rate saturates at the top of the range.
fn rescale_frames(frames: u64, old_rate: u32, new_rate: u32) -> (r: u64)
    requires
        old_rate >= 1,
        new_rate >= 1,
    ensures
        r == spec_rescale_frames(frames, old_rate, new_rate),
{
    proof {
        assert((frames as int) * (new_rate as int) < 0x10000000000000000int * 0x100000000int)
            by (nonlinear_arith)
            requires
                0 <= frames < 0x10000000000000000int,
                0 <= new_rate < 0x100000000int,
        ;
    }
    let wide = (frames as u128) * (new_rate as u128);
    let q = wide / (old_rate as u128);
    if q > 0xFFFF_FFFF_FFFF_FFFF {
        u64::MAX
    } else {
        q as u64
    }
}

/// The envelope factor at a held note's current duration, as the exact
/// rational `num / den`: the ratio of note duration to attack time while the
/// ramp is in progress, and exactly 1 from then on (in particular, an attack
/// of zero skips the ramp entirely). The factor never exceeds 1.
pub fn envelope_alpha(note_frames: u64, sample_rate: u32, attack: i64) -> (r: (u128, u128))
    requires
        sample_rate >= 1,
    ensures
        r.0 == spec_alpha_num(note_frames, sample_rate, attack),
        r.1 == spec_alpha_den(note_frames, sample_rate, attack),
        1 <= r.1,
        r.0 <= r.1,
{
    if attack > 0 {
        proof {
            assert((attack as int) * (sample_rate as int) < 0x8000000000000000int
                * 0x100000000int) by (nonlinear_arith)
                requires
                    0 < attack < 0x8000000000000000int,
                    0 < sample_rate < 0x100000000int,
            ;
            assert((attack as int) * (sample_rate as int) >= 1) by (nonlinear_arith)
                requires
                    attack >= 1,
                    sample_rate >= 1,
            ;
            assert((note_frames as int) * (PARAM_UNIT as int) < 0x10000000000000000int
                * 0x100001int) by (nonlinear_arith)
                requires
                    0 <= note_frames < 0x10000000000000000int,
                    0 < PARAM_UNIT < 0x100001int,
            ;
        }
        let num = (note_frames as u128) * (PARAM_UNIT as u128);
        let den = (attack as u128) * (sample_rate as u128);
        if num < den {
            (num, den)
        } else {
            (1, 1)
        }
    } else {
        (1, 1)
    }
}

/// An engine that holds no note stays put as frames are generated.
proof fn lemma_run_silent(s: Engine, n: nat)
    requires
        s.note is None,
    ensures
        spec_run(s, n) == s,
    decreases n,
{
    if n > 0 {
        lemma_run_silent(s, (n - 1) as nat);
    }
}

/// Silence default: an engine that has never received a note-on — no note
/// held, and none among the pending events — outputs exactly silence at
/// every frame of a block of any size, whatever the parameters, and its
/// state does not move.
pub proof fn lemma_silence_default(
    s: Engine,
    events: Seq<MidiEvent>,
    frames: nat,
    amplitude: i64,
    attack: i64,
)
    requires
        s.note is None,
        forall|i: int| 0 <= i < events.len() ==> events[i].status != NOTE_ON_STATUS,
    ensures
        spec_apply_events(s, events).note is None,
        spec_run(spec_apply_events(s, events), frames) == spec_apply_events(s, events),
        forall|i: nat|
            i < frames ==> spec_frame_out(
                spec_run(spec_apply_events(s, events), i),
                amplitude,
                attack,
            ) == FrameOutput::Silent,
    decreases events.len(),
{
    if events.len() > 0 {
        lemma_silence_default(s, events.drop_last(), frames, amplitude, attack);
    }
    let s1 = spec_apply_events(s, events);
    lemma_run_silent(s1, frames);
    assert forall|i: nat| i < frames implies spec_frame_out(
        spec_run(s1, i),
        amplitude,
        attack,
    ) == FrameOutput::Silent by {
        lemma_run_silent(s1, i);
    }
}

/// Note-off correctness: while a note sounds, a note-off for a different
/// note changes nothing, while a note-off for the held note silences the
/// engine, so the very next frame is silent.
pub proof fn lemma_note_off_correctness(s: Engine, off_note: u8, amplitude: i64, attack: i64)
    requires
        s.note is Some,
    ensures
        s.note != Some(off_note) ==> spec_note_off(s, off_note) == s,
        s.note == Some(off_note) ==> spec_note_off(s, off_note).note is None,
        s.note == Some(off_note) ==> spec_frame_out(spec_note_off(s, off_note), amplitude, attack)
            == FrameOutput::Silent,
{
}

/// Envelope ramp, rising part: while the attack ramp is in progress the
/// envelope factor grows strictly with the note's duration — the factors at
/// two durations within the ramp share their denominator and the later one
/// has the strictly larger numerator.
pub proof fn lemma_envelope_ramp_monotonic(nf1: u64, nf2: u64, sample_rate: u32, attack: i64)
    requires
        nf1 < nf2,
        spec_ramp_active(nf2, sample_rate, attack),
    ensures
        spec_ramp_active(nf1, sample_rate, attack),
        spec_alpha_den(nf1, sample_rate, attack) == spec_alpha_den(nf2, sample_rate, attack),
        spec_alpha_num(nf1, sample_rate, attack) < spec_alpha_num(nf2, sample_rate, attack),
{
    assert((nf1 as int) * (PARAM_UNIT as int) < (nf2 as int) * (PARAM_UNIT as int))
        by (nonlinear_arith)
        requires
            0 <= nf1 < nf2,
            PARAM_UNIT > 0,
    ;
}

/// Envelope ramp, settled part: once the note's duration has reached the
/// attack time (and always when the attack is zero or less), the envelope
/// factor is exactly 1.
pub proof fn lemma_envelope_full_scale(note_frames: u64, sample_rate: u32, attack: i64)
    requires
        !spec_ramp_active(note_frames, sample_rate, attack),
    ensures
        spec_alpha_num(note_frames, sample_rate, attack) == 1,
        spec_alpha_den(note_frames, sample_rate, attack) == 1,
{
}

/// Retrigger resets the envelope: a note-on while past the attack ramp
/// restarts the note clock at zero, and with a positive attack the envelope
/// factor right after the retrigger (exactly zero) is strictly below the
/// factor just before it (exactly one) — the cross-multiplied comparison of
/// the two rationals is strict.
pub proof fn lemma_retrigger_resets_envelope(s: Engine, note: u8, attack: i64)
    requires
        s.wf(),
        note <= MAX_NOTE,
        attack > 0,
        !spec_ramp_active(s.note_frames, s.sample_rate, attack),
    ensures
        spec_note_on(s, note).note == Some(note),
        spec_note_on(s, note).note_frames == 0,
        spec_alpha_num(s.note_frames, s.sample_rate, attack) == 1,
        spec_alpha_den(s.note_frames, s.sample_rate, attack) == 1,
        spec_alpha_num(0, s.sample_rate, attack) == 0,
        spec_alpha_den(0, s.sample_rate, attack) > 0,
        spec_alpha_num(0, s.sample_rate, attack) * spec_alpha_den(s.note_frames, s.sample_rate, attack)
            < spec_alpha_num(s.note_frames, s.sample_rate, attack) * spec_alpha_den(0, s.sample_rate, attack),
{
    assert((attack as int) * (s.sample_rate as int) >= 1) by (nonlinear_arith)
        requires
            attack >= 1,
            s.sample_rate >= 1,
    ;
    assert(spec_ramp_active(0, s.sample_rate, attack));
}

/// While a note is held, its duration clock never moves backwards, and it
/// gains exactly one frame per generated frame until the clock's range runs
/// out.
pub proof fn lemma_note_duration_monotonic(s: Engine)
    requires
        s.note is Some,
    ensures
        spec_step(s).note == s.note,
        spec_step(s).note_frames >= s.note_frames,
        s.note_frames < u64::MAX ==> spec_step(s).note_frames == s.note_frames + 1,
{
}

/// One mono value fans out to every output channel: the returned vector has
/// one copy of `frame` per channel, so at a given frame index every channel
/// carries the identical value.
pub fn broadcast_frame(frame: FrameOutput, channels: usize) -> (r: Vec<FrameOutput>)
    ensures
        r@.len() == channels,
        forall|c: int| 0 <= c < channels ==> r@[c] == frame,
{
    let mut r: Vec<FrameOutput> = Vec::new();
    let mut c: usize = 0;
    while c < channels
        invariant
            c <= channels,
            r@.len() == c,
            forall|k: int| 0 <= k < c ==> r@[k] == frame,
        decreases channels - c,
    {
        r.push(frame);
        c = c + 1;
    }
    r
}

} // verus!
