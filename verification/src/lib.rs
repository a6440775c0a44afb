//! A monophonic sine-wave synthesizer core.
//!
//! The library holds the real-time logic of a small software instrument:
//! turning MIDI note numbers into frequencies, tracking which note is held,
//! shaping a linear attack envelope, and producing one output descriptor per
//! audio frame. All quantities are exact integers or fixed-point values, so
//! every step is verified; the host-facing shell evaluates the final sine
//! waveform from the descriptors.

pub mod engine;
pub mod params;
pub mod pitch;

pub use engine::Engine;
pub use engine::FrameOutput;
pub use engine::MidiEvent;
pub use params::Params;
pub use pitch::frequency_of;
