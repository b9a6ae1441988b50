use vstd::prelude::*;
use crate::synth::Command;
use crate::tones::{to_frequencies, tone_pair};

verus! {

/// How long a key's tones sound, in milliseconds.
pub const PRESS_MS: u64 = 200;

/// The silence after a key's tones, in milliseconds.
pub const GAP_MS: u64 = 50;

/// One step of the input side.
#[derive(PartialEq, Eq, Structural, Debug, Clone, Copy)]
pub enum Action {
    /// Send a command to the audio side.
    Send(Command),
    /// Wait this many milliseconds.
    Sleep(u64),
}

/// The steps that one input symbol calls for.
pub open spec fn press_steps(character: char, press_ms: u64, gap_ms: u64) -> Seq<Action> {
    match tone_pair(character) {
        Some((high, low)) => seq![
            Action::Send(Command::Play(high, low)),
            Action::Sleep(press_ms),
            Action::Send(Command::Stop),
            Action::Sleep(gap_ms),
        ],
        None => Seq::empty(),
    }
}

/// The steps for one input symbol, to be carried out in order: for a keypad
/// symbol, play its two tones, wait `press_ms`, stop, wait `gap_ms`; for any
/// other character, nothing at all.
pub fn key_press(character: char, press_ms: u64, gap_ms: u64) -> (r: Vec<Action>)
    ensures
        r@ == press_steps(character, press_ms, gap_ms),
{
    let mut steps: Vec<Action> = Vec::new();
    match to_frequencies(character) {
        Some((high, low)) => {
            steps.push(Action::Send(Command::Play(high, low)));
            steps.push(Action::Sleep(press_ms));
            steps.push(Action::Send(Command::Stop));
            steps.push(Action::Sleep(gap_ms));
            assert(steps@ =~= press_steps(character, press_ms, gap_ms));
        },
        None => {
            assert(steps@ =~= press_steps(character, press_ms, gap_ms));
        },
    }
    steps
}

} // verus!
