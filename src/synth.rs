use vstd::prelude::*;
use crate::voice::{phase_after, Voice, FULL_VOLUME};

verus! {

/// The gain of a voice while its tone sounds, in thousandths (0.2).
pub const AUDIBLE_VOLUME: u32 = 200;

/// What the input side asks of the audio side.
#[derive(PartialEq, Eq, Structural, Debug, Clone, Copy)]
pub enum Command {
    /// Sound the two tones, in hertz: the first on voice A, the second on voice B.
    Play(u32, u32),
    /// Silence both voices, keeping their pitch.
    Stop,
}

/// What one non-blocking receive on the command channel gave.
#[derive(PartialEq, Eq, Structural, Debug, Clone, Copy)]
pub enum Received {
    /// A command was waiting.
    Command(Command),
    /// Nothing was waiting.
    Empty,
    /// The sending side has gone: no command will ever come.
    Disconnected,
}

/// What the audio callback tells the driver.
#[derive(PartialEq, Eq, Structural, Debug, Clone, Copy)]
pub enum Flow {
    /// Keep streaming.
    Continue,
    /// The stream is complete: stop calling.
    Complete,
}

/// The two-voice mixer that the audio thread owns, at a fixed sample rate.
#[derive(PartialEq, Eq, Structural, Debug, Clone, Copy)]
pub struct Synth {
    /// Samples per second.
    pub sample_hz: u32,
    /// The voice of the higher (column) tone.
    pub voice_a: Voice,
    /// The voice of the lower (row) tone.
    pub voice_b: Voice,
}

/// A voice's volume is either silence or the audible level.
pub open spec fn volume_ok(v: Voice) -> bool {
    v.volume == 0 || v.volume == AUDIBLE_VOLUME
}

/// The voice sounding `frequency`, its phase untouched.
pub open spec fn playing(v: Voice, frequency: u32) -> Voice {
    Voice { phase: v.phase, frequency, volume: AUDIBLE_VOLUME }
}

/// The voice silenced, its phase and pitch untouched.
pub open spec fn silenced(v: Voice) -> Voice {
    Voice { volume: 0, ..v }
}

/// What the driver is told after a receive that gave `event`.
pub open spec fn flow_of(event: Received) -> Flow {
    match event {
        Received::Disconnected => Flow::Complete,
        _ => Flow::Continue,
    }
}

impl Synth {
    /// The sample rate is positive, both voices are within a cycle and each is
    /// either silent or at the audible level.
    pub open spec fn wf(&self) -> bool {
        &&& self.sample_hz > 0
        &&& self.voice_a.wf(self.sample_hz as int)
        &&& self.voice_b.wf(self.sample_hz as int)
        &&& volume_ok(self.voice_a)
        &&& volume_ok(self.voice_b)
    }

    /// The state after a command.
    pub open spec fn obey(self, command: Command) -> Synth {
        match command {
            Command::Play(fa, fb) => Synth {
                voice_a: playing(self.voice_a, fa),
                voice_b: playing(self.voice_b, fb),
                ..self
            },
            Command::Stop => Synth {
                voice_a: silenced(self.voice_a),
                voice_b: silenced(self.voice_b),
                ..self
            },
        }
    }

    /// The state after a receive that gave `event`: only a command changes it.
    pub open spec fn after(self, event: Received) -> Synth {
        match event {
            Received::Command(c) => self.obey(c),
            _ => self,
        }
    }

    /// The state after each of `events` in turn.
    pub open spec fn after_all(self, events: Seq<Received>) -> Synth
        decreases events.len(),
    {
        if events.len() == 0 {
            self
        } else {
            self.after(events[0]).after_all(events.drop_first())
        }
    }

    /// Two silent voices at the start of their cycle.
    pub fn new(sample_hz: u32) -> (r: Synth)
        requires
            sample_hz > 0,
        ensures
            r.wf(),
            r.sample_hz == sample_hz,
            r.voice_a == (Voice { phase: 0, frequency: 0, volume: 0 }),
            r.voice_b == (Voice { phase: 0, frequency: 0, volume: 0 }),
    {
        Synth { sample_hz, voice_a: Voice::new(), voice_b: Voice::new() }
    }

    /// Acts on what one receive on the command channel gave, as the audio
    /// callback does once per buffer: `Play` sets both pitches and raises both
    /// volumes to the audible level, `Stop` silences both voices, and neither
    /// touches a phase. A disconnected channel completes the stream.
    pub fn dispatch(&mut self, event: Received) -> (r: Flow)
        requires
            old(self).wf(),
        ensures
            final(self).wf(),
            *final(self) == old(self).after(event),
            r == flow_of(event),
    {
        match event {
            Received::Command(Command::Play(fa, fb)) => {
                self.voice_a.frequency = fa;
                self.voice_a.volume = AUDIBLE_VOLUME;
                self.voice_b.frequency = fb;
                self.voice_b.volume = AUDIBLE_VOLUME;
                Flow::Continue
            },
            Received::Command(Command::Stop) => {
                self.voice_a.volume = 0;
                self.voice_b.volume = 0;
                Flow::Continue
            },
            Received::Empty => Flow::Continue,
            Received::Disconnected => Flow::Complete,
        }
    }

    /// Renders one buffer of both voices: `phases_a[i]` and `phases_b[i]`
    /// become the phases of the two voices at the `i`th frame, and both voices
    /// move on by the buffer's length. The two buffers are as long as each
    /// other: one entry per frame.
    pub fn render(&mut self, phases_a: &mut Vec<u32>, phases_b: &mut Vec<u32>)
        requires
            old(self).wf(),
            old(phases_a)@.len() == old(phases_b)@.len(),
        ensures
            final(self).wf(),
            final(phases_a)@.len() == old(phases_a)@.len(),
            final(phases_b)@.len() == old(phases_b)@.len(),
            forall|i: int|
                0 <= i < final(phases_a)@.len() ==> #[trigger] final(phases_a)@[i] == phase_after(
                    old(self).voice_a.phase as int,
                    old(self).voice_a.frequency as int,
                    old(self).sample_hz as int,
                    i,
                ),
            forall|i: int|
                0 <= i < final(phases_b)@.len() ==> #[trigger] final(phases_b)@[i] == phase_after(
                    old(self).voice_b.phase as int,
                    old(self).voice_b.frequency as int,
                    old(self).sample_hz as int,
                    i,
                ),
            *final(self) == old(self).rendered(old(phases_a)@.len() as int),
    {
        let sample_hz = self.sample_hz;
        self.voice_a.render(phases_a, sample_hz);
        self.voice_b.render(phases_b, sample_hz);
    }

    /// The state after `frames` frames: each phase moves on, nothing else changes.
    pub open spec fn rendered(self, frames: int) -> Synth {
        Synth {
            voice_a: Voice {
                phase: phase_after(
                    self.voice_a.phase as int,
                    self.voice_a.frequency as int,
                    self.sample_hz as int,
                    frames,
                ) as u32,
                ..self.voice_a
            },
            voice_b: Voice {
                phase: phase_after(
                    self.voice_b.phase as int,
                    self.voice_b.frequency as int,
                    self.sample_hz as int,
                    frames,
                ) as u32,
                ..self.voice_b
            },
            ..self
        }
    }

    /// One audio callback: the state after acting on what the receive gave
    /// and then rendering a buffer of `frames` frames.
    pub open spec fn tick(self, frames: int, event: Received) -> Synth {
        self.after(event).rendered(frames)
    }

    /// The state after one callback per event, each on a buffer of `frames` frames.
    pub open spec fn ticks(self, frames: int, events: Seq<Received>) -> Synth
        decreases events.len(),
    {
        if events.len() == 0 {
            self
        } else {
            self.tick(frames, events[0]).ticks(frames, events.drop_first())
        }
    }

    /// One audio callback: acts on what the receive gave, as `dispatch` does,
    /// then renders the buffer from the new state, as `render` does. A command
    /// thus already shapes the buffer of the callback that takes it.
    pub fn callback(&mut self, phases_a: &mut Vec<u32>, phases_b: &mut Vec<u32>, event: Received) -> (r: Flow)
        requires
            old(self).wf(),
            old(phases_a)@.len() == old(phases_b)@.len(),
        ensures
            final(self).wf(),
            final(phases_a)@.len() == old(phases_a)@.len(),
            final(phases_b)@.len() == old(phases_b)@.len(),
            forall|i: int|
                0 <= i < final(phases_a)@.len() ==> #[trigger] final(phases_a)@[i] == phase_after(
                    old(self).after(event).voice_a.phase as int,
                    old(self).after(event).voice_a.frequency as int,
                    old(self).sample_hz as int,
                    i,
                ),
            forall|i: int|
                0 <= i < final(phases_b)@.len() ==> #[trigger] final(phases_b)@[i] == phase_after(
                    old(self).after(event).voice_b.phase as int,
                    old(self).after(event).voice_b.frequency as int,
                    old(self).sample_hz as int,
                    i,
                ),
            *final(self) == old(self).tick(old(phases_a)@.len() as int, event),
            r == flow_of(event),
    {
        let flow = self.dispatch(event);
        self.render(phases_a, phases_b);
        flow
    }
}

/// No event of `events` is a `Play` command.
pub open spec fn no_play(events: Seq<Received>) -> bool {
    forall|i: int|
        0 <= i < events.len() ==> !(#[trigger] events[i] matches Received::Command(Command::Play(_, _)))
}

/// Two voices at the audible level sum to no more than full scale, so a
/// well-formed synth's gains never add up past a gain of 1.0.
pub proof fn lemma_gains_within_full_scale(s: Synth)
    requires
        s.wf(),
    ensures
        s.voice_a.volume + s.voice_b.volume <= 2 * AUDIBLE_VOLUME,
        2 * AUDIBLE_VOLUME <= FULL_VOLUME,
{
}

/// Every callback keeps a synth well formed.
pub proof fn lemma_tick_wf(s: Synth, frames: int, event: Received)
    requires
        s.wf(),
    ensures
        s.tick(frames, event).wf(),
{
    let t = s.after(event);
    assert(t.wf());
    vstd::arithmetic::div_mod::lemma_mod_bound(
        t.voice_a.phase as int + frames * t.voice_a.frequency as int,
        t.sample_hz as int,
    );
    vstd::arithmetic::div_mod::lemma_mod_bound(
        t.voice_b.phase as int + frames * t.voice_b.frequency as int,
        t.sample_hz as int,
    );
    assert(t.rendered(frames).wf());
}

/// From the callback that takes `Stop` on, every buffer is rendered silent
/// until a callback takes a `Play`: the callback that takes `Stop` renders at
/// volume 0, and so does each later callback, the `j`th acting on `events[j]`,
/// while none of `events` is a `Play`.
pub proof fn lemma_silent_until_play(s: Synth, frames: int, events: Seq<Received>)
    requires
        no_play(events),
    ensures
        s.after(Received::Command(Command::Stop)).voice_a.volume == 0,
        s.after(Received::Command(Command::Stop)).voice_b.volume == 0,
        forall|j: int|
            0 <= j < events.len() ==> (#[trigger] s.tick(frames, Received::Command(Command::Stop)).ticks(
                frames,
                events.take(j),
            ).after(events[j])).voice_a.volume == 0,
        forall|j: int|
            0 <= j < events.len() ==> (#[trigger] s.tick(frames, Received::Command(Command::Stop)).ticks(
                frames,
                events.take(j),
            ).after(events[j])).voice_b.volume == 0,
{
    let stopped = s.tick(frames, Received::Command(Command::Stop));
    assert forall|j: int| 0 <= j < events.len() implies {
        let t = #[trigger] stopped.ticks(frames, events.take(j)).after(events[j]);
        t.voice_a.volume == 0 && t.voice_b.volume == 0
    } by {
        let prefix = events.take(j);
        assert forall|i: int| 0 <= i < prefix.len() implies !(#[trigger] prefix[i] matches Received::Command(Command::Play(_, _))) by {
            assert(prefix[i] == events[i]);
        }
        lemma_silent_stays(stopped, frames, prefix);
        assert(!(events[j] matches Received::Command(Command::Play(_, _))));
    }
}

/// Callbacks that act on no `Play` keep silent voices silent.
proof fn lemma_silent_stays(s: Synth, frames: int, events: Seq<Received>)
    requires
        no_play(events),
        s.voice_a.volume == 0,
        s.voice_b.volume == 0,
    ensures
        s.ticks(frames, events).voice_a.volume == 0,
        s.ticks(frames, events).voice_b.volume == 0,
    decreases events.len(),
{
    if events.len() > 0 {
        let rest = events.drop_first();
        assert forall|i: int| 0 <= i < rest.len() implies !(#[trigger] rest[i] matches Received::Command(Command::Play(_, _))) by {
            assert(rest[i] == events[i + 1]);
        }
        assert(!(events[0] matches Received::Command(Command::Play(_, _))));
        lemma_silent_stays(s.tick(frames, events[0]), frames, rest);
    }
}

/// The callback that takes `Play(fa, fb)` renders its buffer at the audible
/// level with the new pitches, its phases moving on from where the voices
/// stood: a `Play` never resets a phase.
pub proof fn lemma_play_keeps_phase(s: Synth, frames: int, fa: u32, fb: u32)
    requires
        s.wf(),
    ensures
        ({
            let t = s.after(Received::Command(Command::Play(fa, fb)));
            &&& t.voice_a.phase == s.voice_a.phase
            &&& t.voice_b.phase == s.voice_b.phase
            &&& t.voice_a.frequency == fa && t.voice_a.volume == AUDIBLE_VOLUME
            &&& t.voice_b.frequency == fb && t.voice_b.volume == AUDIBLE_VOLUME
            &&& t.sample_hz == s.sample_hz
        }),
        s.tick(frames, Received::Command(Command::Play(fa, fb))).voice_a.phase == phase_after(
            s.voice_a.phase as int,
            fa as int,
            s.sample_hz as int,
            frames,
        ) as u32,
        s.tick(frames, Received::Command(Command::Play(fa, fb))).voice_b.phase == phase_after(
            s.voice_b.phase as int,
            fb as int,
            s.sample_hz as int,
            frames,
        ) as u32,
{
}

} // verus!
