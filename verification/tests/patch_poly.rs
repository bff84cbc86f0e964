use fm_synth::fixed::SCALE;
use fm_synth::patch::{Patch, NUM_VOICES};
use fm_synth::serialized::{DspNodeEnum, PatchDefinition, IO};
use fm_synth::swap::SwapController;
use fm_synth::voice::SynthInputEvent;

fn empty_def() -> PatchDefinition {
    PatchDefinition {
        nodes: Vec::<DspNodeEnum>::new(),
        io: IO { freq: Some(0), gate: Some(1), lchan: Some(1), rchan: Some(3) },
    }
}

fn key_down(key: u8) -> SynthInputEvent {
    SynthInputEvent::KeyDown { key, freq: 440_000_000 }
}

#[test]
fn pool_fills_then_drops_excess_key_down() {
    let mut patch = Patch::new(&empty_def(), 1).unwrap();
    // N distinct keys fill the N slots in ascending order.
    for k in 0..NUM_VOICES as u8 {
        patch.handle_event(key_down(10 + k));
    }
    for (i, slot) in patch.voice_assignments.iter().enumerate() {
        assert_eq!(*slot, Some(10 + i as u8));
    }
    // The (N+1)-th key is silently dropped: nothing changes.
    let before = patch.voice_assignments.clone();
    patch.handle_event(key_down(99));
    assert_eq!(patch.voice_assignments, before);
}

#[test]
fn key_up_for_dropped_key_is_noop() {
    let mut patch = Patch::new(&empty_def(), 1).unwrap();
    for k in 0..NUM_VOICES as u8 {
        patch.handle_event(key_down(10 + k));
    }
    patch.handle_event(key_down(99)); // dropped: pool exhausted
    let before = patch.voice_assignments.clone();
    patch.handle_event(SynthInputEvent::KeyUp { key: 99 });
    assert_eq!(patch.voice_assignments, before);
}

#[test]
fn key_up_frees_exactly_its_slot() {
    let mut patch = Patch::new(&empty_def(), 1).unwrap();
    for k in 0..NUM_VOICES as u8 {
        patch.handle_event(key_down(10 + k));
    }
    patch.handle_event(SynthInputEvent::KeyUp { key: 13 });
    for (i, slot) in patch.voice_assignments.iter().enumerate() {
        if i == 3 {
            assert_eq!(*slot, None);
        } else {
            assert_eq!(*slot, Some(10 + i as u8));
        }
    }
    // The freed slot is the first one reused.
    patch.handle_event(key_down(77));
    assert_eq!(patch.voice_assignments[3], Some(77));
}

#[test]
fn key_down_routes_event_to_claimed_voice() {
    let mut patch = Patch::new(&empty_def(), 1).unwrap();
    patch.handle_event(SynthInputEvent::KeyDown { key: 42, freq: 220_000_000 });
    // freq slot 0 and gate slot 1 of voice 0 were written; voice 1 untouched.
    assert_eq!(patch.voices[0].state.links[0], 220_000_000);
    assert_eq!(patch.voices[0].state.links[1], SCALE);
    assert_eq!(patch.voices[1].state.links[0], 0);
    assert_eq!(patch.voices[1].state.links[1], 0);
}

#[test]
fn mixed_pull_is_mean_of_voice_pulls() {
    // lchan aliases slot 1, which a held note's gate drives to 1.0, so one
    // voice pulls 1.0 while the seven idle voices pull 0: the mean is 1/8.
    let mut patch = Patch::new(&empty_def(), 1).unwrap();
    let events = vec![key_down(60)];
    let s = patch.next(&events);
    assert_eq!(s, SCALE / NUM_VOICES as i64);
    // The next pull emits the stashed right-channel samples: slot 3 is
    // never written, so they mix to silence.
    let s2 = patch.next(&Vec::new());
    assert_eq!(s2, 0);
    // The pull after that computes fresh left samples again.
    let s3 = patch.next(&Vec::new());
    assert_eq!(s3, 125_000);
}

#[test]
fn silent_pool_mixes_to_silence() {
    let mut patch = Patch::new(&empty_def(), 1).unwrap();
    for _ in 0..16 {
        assert_eq!(patch.next(&Vec::new()), 0);
    }
}

#[test]
fn generations_stamp_patches_and_only_newest_survives_poll() {
    let mut controller = SwapController::new();
    assert_eq!(controller.current(), 0);
    let def = empty_def();
    let mut patches = Vec::new();
    for _ in 0..5 {
        let g = controller.register_update();
        patches.push(Patch::new(&def, g).unwrap());
    }
    // Tags are 1..=5 and exactly the 5th equals the live counter.
    assert_eq!(controller.current(), 5);
    for (i, p) in patches.iter().enumerate() {
        assert_eq!(p.generation, i as u64 + 1);
        assert_eq!(controller.is_current(p.generation), i == 4);
    }
    // One staleness poll retires every superseded patch and no other.
    let live = controller.current();
    for p in patches.iter_mut() {
        p.check_stale(live);
    }
    for (i, p) in patches.iter().enumerate() {
        assert_eq!(p.is_stopped(), i != 4);
    }
    // Once stopped, a patch stays stopped even if the counter moved on.
    let g = controller.register_update();
    let mut newest = Patch::new(&def, g).unwrap();
    patches[4].check_stale(controller.current());
    newest.check_stale(controller.current());
    assert!(patches[4].is_stopped());
    assert!(!newest.is_stopped());
}

#[test]
fn voices_stay_in_interlace_lockstep_under_mixing() {
    // Every mixed pull takes exactly one pull from every voice, so the
    // voices' interlace phases never drift apart: left samples of all
    // voices are always mixed with left samples, and right with right.
    let mut patch = Patch::new(&empty_def(), 1).unwrap();
    for pull in 0..6 {
        patch.next(&Vec::new());
        for voice in &patch.voices {
            assert_eq!(voice.pending_sample.is_some(), pull % 2 == 0);
        }
    }
}

#[test]
fn voice_interlace_emits_left_then_right() {
    let def = PatchDefinition {
        nodes: Vec::new(),
        io: IO { freq: None, gate: None, lchan: Some(2), rchan: Some(3) },
    };
    let mut voice = fm_synth::voice::Program::new(&def).unwrap();
    voice.state.links[2] = 7_000;
    voice.state.links[3] = 9_000;
    // First pull computes a pair and emits left; the second emits the
    // stashed right without recomputing.
    assert_eq!(voice.next(), 7_000);
    assert_eq!(voice.next(), 9_000);
    assert_eq!(voice.next(), 7_000);
}
