//! Conversion from MIDI note numbers to frequencies.
//!
//! Frequencies are exact fixed-point integers in units of `1 / FREQ_UNIT`
//! hertz. Note 69 (concert A) is exactly 440 Hz, and every step of twelve
//! semitones doubles the frequency, so the whole table follows from the
//! twelve base values of the lowest octave by repeated doubling.

use vstd::prelude::*;

verus! {

/// Fixed-point scale for frequencies: a frequency value `f` means
/// `f / FREQ_UNIT` hertz.
pub const FREQ_UNIT: u64 = 1048576;

/// Frequency of note 69 (concert A), in fixed-point units: exactly 440 Hz.
pub const CONCERT_A_FREQ: u64 = 461373440;

/// Largest frequency the converter produces: note 127, about 12543.85 Hz.
pub const MAX_FREQ: u64 = 13153183744;

/// Fixed-point frequencies of the lowest octave, notes 0 through 11
/// (8.18 Hz up to 15.43 Hz), rounded to the nearest unit. Note 9 is
/// exactly 13.75 Hz, ten octaves below which note 69 sits at 440 Hz.
pub open spec fn base_frequency(note: int) -> int {
    if note == 0 {
        8572947
    } else if note == 1 {
        9082720
    } else if note == 2 {
        9622807
    } else if note == 3 {
        10195009
    } else if note == 4 {
        10801236
    } else if note == 5 {
        11443511
    } else if note == 6 {
        12123977
    } else if note == 7 {
        12844906
    } else if note == 8 {
        13608704
    } else if note == 9 {
        14417920
    } else if note == 10 {
        15275254
    } else {
        16183568
    }
}

/// Frequency of a MIDI note in fixed-point units: the base value within the
/// lowest octave, doubled once for every full octave above it.
pub open spec fn spec_frequency_of(note: int) -> int
    decreases note,
{
    if note < 12 {
        base_frequency(note)
    } else {
        2 * spec_frequency_of(note - 12)
    }
}

/// Every note of the MIDI range has a positive frequency.
pub proof fn lemma_frequency_positive(note: int)
    requires
        0 <= note <= 127,
    ensures
        spec_frequency_of(note) > 0,
    decreases note,
{
    if note >= 12 {
        lemma_frequency_positive(note - 12);
    }
}

/// Each semitone step raises the frequency.
proof fn lemma_frequency_step(note: int)
    requires
        0 <= note <= 126,
    ensures
        spec_frequency_of(note) < spec_frequency_of(note + 1),
    decreases note,
{
    if note + 1 < 12 {
        assert(base_frequency(note) < base_frequency(note + 1));
    } else if note == 11 {
        assert(spec_frequency_of(11) == 16183568);
        assert(spec_frequency_of(0) == 8572947);
        assert(spec_frequency_of(12) == 2 * spec_frequency_of(0));
    } else {
        lemma_frequency_step(note - 12);
        assert(spec_frequency_of(note) == 2 * spec_frequency_of(note - 12));
        assert(spec_frequency_of(note + 1) == 2 * spec_frequency_of(note - 11));
    }
}

/// The pitch table is strictly monotonic: a higher note number always means
/// a strictly higher frequency, over the whole MIDI range.
pub proof fn lemma_frequency_monotonic(n1: int, n2: int)
    requires
        0 <= n1 < n2 <= 127,
    ensures
        spec_frequency_of(n1) < spec_frequency_of(n2),
    decreases n2 - n1,
{
    lemma_frequency_step(n1);
    if n1 + 1 < n2 {
        lemma_frequency_monotonic(n1 + 1, n2);
    }
}

/// Note 69 maps to exactly 440 Hz in fixed-point units.
pub proof fn lemma_reference_pitch()
    ensures
        spec_frequency_of(69) == 440 * FREQ_UNIT,
        spec_frequency_of(69) == CONCERT_A_FREQ,
{
    assert(spec_frequency_of(9) == 14417920);
    assert(spec_frequency_of(21) == 2 * spec_frequency_of(9));
    assert(spec_frequency_of(33) == 2 * spec_frequency_of(21));
    assert(spec_frequency_of(45) == 2 * spec_frequency_of(33));
    assert(spec_frequency_of(57) == 2 * spec_frequency_of(45));
    assert(spec_frequency_of(69) == 2 * spec_frequency_of(57));
}

/// The frequency of every MIDI note lies between zero (exclusive) and the
/// frequency of the highest note, 127.
pub proof fn lemma_frequency_bounds(note: int)
    requires
        0 <= note <= 127,
    ensures
        0 < spec_frequency_of(note) <= MAX_FREQ,
{
    lemma_frequency_positive(note);
    assert(spec_frequency_of(7) == 12844906);
    assert(spec_frequency_of(19) == 2 * spec_frequency_of(7));
    assert(spec_frequency_of(31) == 2 * spec_frequency_of(19));
    assert(spec_frequency_of(43) == 2 * spec_frequency_of(31));
    assert(spec_frequency_of(55) == 2 * spec_frequency_of(43));
    assert(spec_frequency_of(67) == 2 * spec_frequency_of(55));
    assert(spec_frequency_of(79) == 2 * spec_frequency_of(67));
    assert(spec_frequency_of(91) == 2 * spec_frequency_of(79));
    assert(spec_frequency_of(103) == 2 * spec_frequency_of(91));
    assert(spec_frequency_of(115) == 2 * spec_frequency_of(103));
    assert(spec_frequency_of(127) == 2 * spec_frequency_of(115));
    if note < 127 {
        lemma_frequency_monotonic(note, 127);
    }
}

/// Convert a MIDI note number to its frequency in fixed-point units
/// (`FREQ_UNIT` per hertz), with note 69 at exactly 440 Hz. The result is a
/// finite positive value for every note of the MIDI range.
pub fn frequency_of(note: u8) -> (freq: u64)
    requires
        note <= 127,
    ensures
        freq == spec_frequency_of(note as int),
        0 < freq <= MAX_FREQ,
    decreases note,
{
    proof {
        lemma_frequency_bounds(note as int);
    }
    if note >= 12 {
        let f = frequency_of(note - 12);
        2 * f
    } else {
        match note {
            0 => 8572947,
            1 => 9082720,
            2 => 9622807,
            3 => 10195009,
            4 => 10801236,
            5 => 11443511,
            6 => 12123977,
            7 => 12844906,
            8 => 13608704,
            9 => 14417920,
            10 => 15275254,
            _ => 16183568,
        }
    }
}

} // verus!
