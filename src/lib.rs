//! A dual-tone multi-frequency (DTMF) tone generator: the keypad's tone
//! table, the phase accumulators of the two voices, the per-callback command
//! dispatch of the audio thread, and the actions of one key press.
pub mod keypress;
pub mod synth;
pub mod tones;
pub mod voice;

pub use keypress::{key_press, Action, GAP_MS, PRESS_MS};
pub use synth::{Command, Flow, Received, Synth, AUDIBLE_VOLUME};
pub use tones::to_frequencies;
pub use voice::{Voice, FULL_VOLUME};
