use dtmf::{
    key_press, to_frequencies, Action, Command, Flow, Received, Synth, Voice, AUDIBLE_VOLUME,
    FULL_VOLUME, GAP_MS, PRESS_MS,
};

const SAMPLE_HZ: u32 = 44_100;

#[test]
fn lookup_gives_every_keypad_pair() {
    let table = [
        ('1', 1209, 697),
        ('2', 1336, 697),
        ('3', 1477, 697),
        ('A', 1633, 697),
        ('4', 1209, 770),
        ('5', 1336, 770),
        ('6', 1477, 770),
        ('B', 1633, 770),
        ('7', 1209, 852),
        ('8', 1336, 852),
        ('9', 1477, 852),
        ('C', 1633, 852),
        ('*', 1209, 941),
        ('0', 1336, 941),
        ('#', 1477, 941),
        ('D', 1633, 941),
    ];
    for (c, high, low) in table {
        assert_eq!(to_frequencies(c), Some((high, low)), "symbol {}", c);
    }
}

#[test]
fn lookup_rejects_other_characters() {
    let mut mapped = 0;
    for b in 0u8..=255 {
        let c = b as char;
        if to_frequencies(c).is_some() {
            mapped += 1;
        }
    }
    assert_eq!(mapped, 16);
    for c in ['a', 'b', 'd', 'E', ' ', '\n', '+', 'é', '\u{1F4DE}'] {
        assert_eq!(to_frequencies(c), None, "symbol {:?}", c);
    }
}

#[test]
fn new_voice_is_silent_at_phase_zero() {
    assert_eq!(Voice::new(), Voice { phase: 0, frequency: 0, volume: 0 });
}

#[test]
fn step_moves_phase_by_frequency() {
    let mut v = Voice { phase: 100, frequency: 1209, volume: AUDIBLE_VOLUME };
    assert_eq!(v.step(SAMPLE_HZ), 100);
    assert_eq!(v.phase, 1309);
    assert_eq!(v.frequency, 1209);
    assert_eq!(v.volume, AUDIBLE_VOLUME);
}

#[test]
fn step_wraps_at_one_cycle() {
    let mut v = Voice { phase: 44_000, frequency: 1633, volume: 0 };
    assert_eq!(v.step(SAMPLE_HZ), 44_000);
    assert_eq!(v.phase, 1533);
}

#[test]
fn render_fills_phases_of_each_sample() {
    let mut v = Voice { phase: 0, frequency: 1209, volume: AUDIBLE_VOLUME };
    let mut phases = vec![7u32; 4];
    v.render(&mut phases, SAMPLE_HZ);
    assert_eq!(phases, vec![0, 1209, 2418, 3627]);
    assert_eq!(v.phase, 4836);
}

#[test]
fn render_of_empty_buffer_changes_nothing() {
    let mut v = Voice { phase: 12, frequency: 941, volume: 0 };
    let mut phases: Vec<u32> = Vec::new();
    v.render(&mut phases, SAMPLE_HZ);
    assert!(phases.is_empty());
    assert_eq!(v, Voice { phase: 12, frequency: 941, volume: 0 });
}

#[test]
fn phases_repeat_every_whole_cycle() {
    // 441 Hz at 44100 Hz: one cycle every 100 samples.
    let mut v = Voice { phase: 5, frequency: 441, volume: AUDIBLE_VOLUME };
    let mut phases = vec![0u32; 300];
    v.render(&mut phases, SAMPLE_HZ);
    for i in 0..200 {
        assert_eq!(phases[i], phases[i + 100]);
    }
    assert_eq!(phases[1], 446);
    assert_eq!(v.phase, 5);
}

#[test]
fn phase_continues_across_buffers() {
    let mut split = Voice { phase: 3, frequency: 1477, volume: AUDIBLE_VOLUME };
    let mut whole = split;
    let mut first = vec![0u32; 64];
    let mut second = vec![0u32; 64];
    split.render(&mut first, SAMPLE_HZ);
    split.render(&mut second, SAMPLE_HZ);
    let mut both = vec![0u32; 128];
    whole.render(&mut both, SAMPLE_HZ);
    first.extend(second);
    assert_eq!(first, both);
    assert_eq!(split, whole);
}

#[test]
fn new_synth_is_silent() {
    let s = Synth::new(SAMPLE_HZ);
    assert_eq!(s.sample_hz, SAMPLE_HZ);
    assert_eq!(s.voice_a, Voice::new());
    assert_eq!(s.voice_b, Voice::new());
}

#[test]
fn play_sets_pitch_and_volume_and_keeps_phase() {
    let mut s = Synth::new(SAMPLE_HZ);
    s.voice_a.phase = 123;
    s.voice_b.phase = 456;
    let flow = s.dispatch(Received::Command(Command::Play(1336, 770)));
    assert_eq!(flow, Flow::Continue);
    assert_eq!(s.voice_a, Voice { phase: 123, frequency: 1336, volume: AUDIBLE_VOLUME });
    assert_eq!(s.voice_b, Voice { phase: 456, frequency: 770, volume: AUDIBLE_VOLUME });
}

#[test]
fn stop_silences_and_keeps_pitch() {
    let mut s = Synth::new(SAMPLE_HZ);
    s.dispatch(Received::Command(Command::Play(1477, 852)));
    s.voice_a.phase = 9;
    let flow = s.dispatch(Received::Command(Command::Stop));
    assert_eq!(flow, Flow::Continue);
    assert_eq!(s.voice_a, Voice { phase: 9, frequency: 1477, volume: 0 });
    assert_eq!(s.voice_b, Voice { phase: 0, frequency: 852, volume: 0 });
}

#[test]
fn empty_channel_changes_nothing() {
    let mut s = Synth::new(SAMPLE_HZ);
    s.dispatch(Received::Command(Command::Play(1209, 697)));
    let before = s;
    assert_eq!(s.dispatch(Received::Empty), Flow::Continue);
    assert_eq!(s, before);
}

#[test]
fn disconnected_channel_completes_the_stream() {
    let mut s = Synth::new(SAMPLE_HZ);
    s.dispatch(Received::Command(Command::Play(1209, 697)));
    let before = s;
    let mut a = vec![0u32; 64];
    let mut b = vec![0u32; 64];
    assert_eq!(s.callback(&mut a, &mut b, Received::Disconnected), Flow::Complete);
    assert_eq!(s.voice_a.frequency, before.voice_a.frequency);
    assert_eq!(s.voice_a.volume, before.voice_a.volume);
    assert_eq!(s.voice_b.frequency, before.voice_b.frequency);
    assert_eq!(s.voice_b.volume, before.voice_b.volume);
    assert_eq!(a[1], 1209);
    assert_eq!(b[1], 697);
}

#[test]
fn render_moves_both_voices() {
    let mut s = Synth::new(SAMPLE_HZ);
    s.dispatch(Received::Command(Command::Play(1633, 941)));
    let mut a = vec![0u32; 3];
    let mut b = vec![0u32; 3];
    s.render(&mut a, &mut b);
    assert_eq!(a, vec![0, 1633, 3266]);
    assert_eq!(b, vec![0, 941, 1882]);
    assert_eq!(s.voice_a.phase, 4899);
    assert_eq!(s.voice_b.phase, 2823);
}

#[test]
fn callback_acts_on_command_before_rendering() {
    let mut s = Synth::new(SAMPLE_HZ);
    s.dispatch(Received::Command(Command::Play(1209, 697)));
    s.voice_a.phase = 10;
    s.voice_b.phase = 20;
    let mut a = vec![0u32; 2];
    let mut b = vec![0u32; 2];
    let flow = s.callback(&mut a, &mut b, Received::Command(Command::Play(1336, 770)));
    assert_eq!(flow, Flow::Continue);
    assert_eq!(a, vec![10, 1346]);
    assert_eq!(b, vec![20, 790]);
    assert_eq!(s.voice_a, Voice { phase: 2682, frequency: 1336, volume: AUDIBLE_VOLUME });
    assert_eq!(s.voice_b, Voice { phase: 1560, frequency: 770, volume: AUDIBLE_VOLUME });
    s.callback(&mut a, &mut b, Received::Empty);
    assert_eq!(a, vec![2682, 4018]);
    assert_eq!(b, vec![1560, 2330]);
}

#[test]
fn stop_keeps_voices_silent_until_play() {
    let mut s = Synth::new(SAMPLE_HZ);
    let mut a = vec![0u32; 64];
    let mut b = vec![0u32; 64];
    s.callback(&mut a, &mut b, Received::Command(Command::Play(1477, 941)));
    s.callback(&mut a, &mut b, Received::Command(Command::Stop));
    for _ in 0..5 {
        assert_eq!(s.voice_a.volume, 0);
        assert_eq!(s.voice_b.volume, 0);
        s.callback(&mut a, &mut b, Received::Empty);
    }
    s.callback(&mut a, &mut b, Received::Command(Command::Stop));
    assert_eq!(s.voice_a.volume, 0);
    s.callback(&mut a, &mut b, Received::Command(Command::Play(1209, 697)));
    assert_eq!(s.voice_a.volume, AUDIBLE_VOLUME);
    assert_eq!(s.voice_b.volume, AUDIBLE_VOLUME);
}

#[test]
fn gains_stay_within_full_scale() {
    let mut s = Synth::new(SAMPLE_HZ);
    s.dispatch(Received::Command(Command::Play(1633, 941)));
    assert_eq!(s.voice_a.volume + s.voice_b.volume, 400);
    assert!(s.voice_a.volume + s.voice_b.volume <= FULL_VOLUME);
}

#[test]
fn key_five_plays_then_falls_silent() {
    let (high, low) = to_frequencies('5').unwrap();
    assert_eq!((high, low), (1336, 770));
    let mut s = Synth::new(SAMPLE_HZ);
    let mut a = vec![0u32; 64];
    let mut b = vec![0u32; 64];
    s.callback(&mut a, &mut b, Received::Command(Command::Play(high, low)));
    assert_eq!(s.voice_a.volume, AUDIBLE_VOLUME);
    assert_eq!(a[1], 1336);
    assert_eq!(b[1], 770);
    s.callback(&mut a, &mut b, Received::Empty);
    s.callback(&mut a, &mut b, Received::Command(Command::Stop));
    assert_eq!(s.voice_a.volume, 0);
    assert_eq!(s.voice_b.volume, 0);
}

#[test]
fn key_press_of_keypad_symbol() {
    assert_eq!(
        key_press('5', PRESS_MS, GAP_MS),
        vec![
            Action::Send(Command::Play(1336, 770)),
            Action::Sleep(200),
            Action::Send(Command::Stop),
            Action::Sleep(50),
        ]
    );
    assert_eq!(
        key_press('#', 10, 0),
        vec![
            Action::Send(Command::Play(1477, 941)),
            Action::Sleep(10),
            Action::Send(Command::Stop),
            Action::Sleep(0),
        ]
    );
}

#[test]
fn key_press_of_other_character_does_nothing() {
    assert!(key_press('x', PRESS_MS, GAP_MS).is_empty());
    assert!(key_press('\n', PRESS_MS, GAP_MS).is_empty());
}
