use sine_synth::engine::broadcast_frame;
use sine_synth::engine::ConfigError;
use sine_synth::Engine;
use sine_synth::FrameOutput;
use sine_synth::MidiEvent;

const UNIT: i64 = 1048576;
const HALF: i64 = 524288;
const TAU: f64 = std::f64::consts::PI * 2.0;

fn note_on(note: u8) -> MidiEvent {
    MidiEvent { status: 144, note, velocity: 100 }
}

fn note_off(note: u8) -> MidiEvent {
    MidiEvent { status: 128, note, velocity: 0 }
}

/// Evaluate a frame descriptor to the sample value it describes.
fn frame_value(o: &FrameOutput) -> f64 {
    match o {
        FrameOutput::Silent => 0.0,
        FrameOutput::Tone { freq, time_frames, sample_rate, alpha_num, alpha_den, amplitude } => {
            let t = *time_frames as f64 / *sample_rate as f64;
            let f = *freq as f64 / UNIT as f64;
            let alpha = *alpha_num as f64 / *alpha_den as f64;
            let amp = *amplitude as f64 / UNIT as f64;
            (t * f * TAU).sin() * alpha * amp
        }
    }
}

/// The envelope factor of a frame descriptor; 0 for silence.
fn frame_alpha(o: &FrameOutput) -> f64 {
    match o {
        FrameOutput::Silent => 0.0,
        FrameOutput::Tone { alpha_num, alpha_den, .. } => *alpha_num as f64 / *alpha_den as f64,
    }
}

#[test]
fn fresh_engine_is_silent() {
    let mut e = Engine::default();
    assert_eq!(e.sample_rate, 44100);
    assert_eq!(e.time_frames, 0);
    assert_eq!(e.note_frames, 0);
    assert_eq!(e.note, None);
    for frames in [0usize, 1, 17, 512] {
        let out = e.render(frames, HALF, HALF);
        assert_eq!(out.len(), frames);
        for o in &out {
            assert_eq!(*o, FrameOutput::Silent);
            assert_eq!(frame_value(o), 0.0);
        }
    }
}

#[test]
fn engine_without_note_on_stays_silent() {
    let mut e = Engine::default();
    // Note-offs, unknown statuses and malformed notes never start a sound.
    e.process_events(&vec![
        note_off(60),
        MidiEvent { status: 176, note: 7, velocity: 100 },
        MidiEvent { status: 144, note: 200, velocity: 100 },
        note_off(0),
    ]);
    let out = e.render(256, UNIT, 0);
    assert!(out.iter().all(|o| *o == FrameOutput::Silent));
}

#[test]
fn mono_broadcast_fills_every_channel() {
    let mut e = Engine::default();
    e.note_on(60);
    let out = e.render(3, UNIT, 0);
    for o in &out {
        for channels in [1usize, 2, 8] {
            let fan = broadcast_frame(*o, channels);
            assert_eq!(fan.len(), channels);
            for c in &fan {
                assert_eq!(*c, *o);
                assert_eq!(frame_value(c), frame_value(o));
            }
        }
    }
}

#[test]
fn envelope_ramps_then_holds_full_scale() {
    // Attack of one half second at 44100 Hz: the ramp spans 22050 frames.
    let mut e = Engine::default();
    e.note_on(69);
    let out = e.render(23000, UNIT, HALF);
    let ramp_frames = 22050usize;
    for i in 0..out.len() {
        let alpha = frame_alpha(&out[i]);
        if i < ramp_frames {
            // Rising strictly, one step per frame: alpha is i / 22050.
            assert_eq!(alpha, i as f64 / ramp_frames as f64);
            if i > 0 {
                assert!(frame_alpha(&out[i - 1]) < alpha);
            }
        } else {
            assert_eq!(alpha, 1.0);
        }
    }
    // One exact descriptor from inside the ramp.
    match out[100] {
        FrameOutput::Tone { alpha_num, alpha_den, .. } => {
            assert_eq!(alpha_num, 100 * UNIT as u128);
            assert_eq!(alpha_den, HALF as u128 * 44100);
        }
        FrameOutput::Silent => panic!("expected a tone"),
    }
}

#[test]
fn note_off_silences_only_the_matching_note() {
    let mut e = Engine::default();
    e.process_events(&vec![note_on(60)]);
    // A note-off for another note leaves note 60 sounding.
    e.process_events(&vec![note_off(61)]);
    assert_eq!(e.note, Some(60));
    let out = e.render(1, UNIT, 0);
    assert!(matches!(out[0], FrameOutput::Tone { .. }));
    // A note-off for the held note silences the very next frame.
    e.process_events(&vec![note_off(60)]);
    let out = e.render(1, UNIT, 0);
    assert_eq!(out[0], FrameOutput::Silent);
}

#[test]
fn retrigger_resets_the_envelope() {
    let mut e = Engine::default();
    e.note_on(60);
    // Advance well past the half-second attack: the envelope is settled.
    let out = e.render(30000, UNIT, HALF);
    let alpha_before = frame_alpha(&out[out.len() - 1]);
    assert_eq!(alpha_before, 1.0);
    // Retriggering the same note restarts the ramp from zero.
    e.note_on(60);
    assert_eq!(e.note_frames, 0);
    let out = e.render(1, UNIT, HALF);
    let alpha_after = frame_alpha(&out[0]);
    assert_eq!(alpha_after, 0.0);
    assert!(alpha_after < alpha_before);
    assert_eq!(frame_value(&out[0]), 0.0);
}

#[test]
fn first_frames_of_concert_a_at_full_amplitude() {
    // amplitude 1.0, attack 0: the envelope is at full scale at once.
    let mut e = Engine::default();
    e.note_on(69);
    let out = e.render(2, UNIT, 0);
    // The phase clock starts at zero, so the very first frame is sin(0).
    assert_eq!(frame_value(&out[0]), 0.0);
    // One frame later the clock has advanced one sample period.
    let expected = (1.0 / 44100.0 * 440.0 * TAU).sin();
    assert!((frame_value(&out[1]) - expected).abs() < 1e-9);
}

#[test]
fn zero_amplitude_yields_zero_output_despite_internal_signal() {
    let mut e = Engine::default();
    e.note_on(64);
    let out = e.render(100, 0, HALF);
    for o in &out {
        // The tone is still described — the clock runs, the frequency is
        // nonzero — but the output value is exactly zero.
        match o {
            FrameOutput::Tone { freq, amplitude, .. } => {
                assert!(*freq > 0);
                assert_eq!(*amplitude, 0);
            }
            FrameOutput::Silent => panic!("expected a tone"),
        }
        assert_eq!(frame_value(o), 0.0);
    }
    assert_eq!(e.time_frames, 100);
}

#[test]
fn events_apply_in_delivery_order_before_the_block() {
    let mut e = Engine::default();
    e.process_events(&vec![note_on(60), note_off(60)]);
    assert_eq!(e.note, None);
    let mut e = Engine::default();
    e.process_events(&vec![note_off(60), note_on(60)]);
    assert_eq!(e.note, Some(60));
    // A new note supersedes the held one: monophonic, last note wins.
    let mut e = Engine::default();
    e.process_events(&vec![note_on(60), note_on(72)]);
    assert_eq!(e.note, Some(72));
    // A note-off for the superseded note is stale and ignored.
    e.process_events(&vec![note_off(60)]);
    assert_eq!(e.note, Some(72));
}

#[test]
fn clocks_hold_while_silent_and_run_while_sounding() {
    let mut e = Engine::default();
    e.render(50, HALF, HALF);
    assert_eq!(e.time_frames, 0);
    e.note_on(60);
    e.render(50, HALF, HALF);
    assert_eq!(e.time_frames, 50);
    assert_eq!(e.note_frames, 50);
    e.note_off(60);
    e.render(50, HALF, HALF);
    assert_eq!(e.time_frames, 50);
}

#[test]
fn zero_sample_rate_is_rejected() {
    let mut e = Engine::default();
    e.note_on(60);
    e.render(10, HALF, HALF);
    let before_rate = e.sample_rate;
    let before_time = e.time_frames;
    assert_eq!(e.set_sample_rate(0), Err(ConfigError::InvalidSampleRate));
    assert_eq!(e.sample_rate, before_rate);
    assert_eq!(e.time_frames, before_time);
}

#[test]
fn sample_rate_change_preserves_elapsed_seconds() {
    let mut e = Engine::default();
    e.note_on(60);
    // One second of sound at 44100 Hz.
    e.render(44100, HALF, HALF);
    assert_eq!(e.set_sample_rate(48000), Ok(()));
    assert_eq!(e.sample_rate, 48000);
    // The clocks still stand for one second, now counted at 48000 Hz.
    assert_eq!(e.time_frames, 48000);
    assert_eq!(e.note_frames, 48000);
}
