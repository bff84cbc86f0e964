use fm_synth::adsr::{Adsr, AdsrState};
use fm_synth::fixed::{AMP_MAX, SCALE};
use fm_synth::mixer::Mixer;
use fm_synth::port::{InPort, OutPort, ProgramState};
use fm_synth::sinosc::SinOsc;

fn constant(bias: i64) -> InPort {
    InPort { mult: 0, bias, link: None }
}

fn pass_through(link: usize) -> InPort {
    InPort { mult: SCALE, bias: 0, link: Some(link) }
}

fn test_adsr(a: i64, d: i64, s: i64, r: i64) -> Adsr {
    Adsr::new(
        pass_through(0),
        constant(a),
        constant(d),
        constant(s),
        constant(r),
        OutPort { link: Some(4) },
    )
}

#[test]
fn adsr_envelope_shape() {
    // a = 0.01 s, d = 0.2 s, s = 0.5, r = 0.5 at 44100 Hz; gate rises at
    // t = 0 and falls at t = 0.3 s.
    let mut env = test_adsr(10_000, 200_000, 500_000, 500_000);
    let mut state = ProgramState::new(10);
    state.links[0] = SCALE; // gate on

    // Attack: the per-tick increment is 10^12 / (10_000 * 44100) = 2267.
    env.next_sample(&mut state);
    assert!(matches!(env.state, AdsrState::Attacking));
    assert_eq!(env.val, 2267);
    assert_eq!(state.links[4], 2267);

    let mut prev = env.val;
    let mut tick: i64 = 1;
    // Rises linearly until it clamps to 1.0 at tick 442.
    while matches!(env.state, AdsrState::Attacking) {
        env.next_sample(&mut state);
        tick += 1;
        assert!(env.val >= prev);
        assert!(env.val <= SCALE);
        if matches!(env.state, AdsrState::Attacking) {
            assert_eq!(env.val, 2267 * tick);
        }
        prev = env.val;
    }
    assert_eq!(tick, 442);
    assert_eq!(env.val, SCALE);
    assert!(matches!(env.state, AdsrState::Decaying));

    // Decays toward the sustain level 0.5 and holds there.
    while matches!(env.state, AdsrState::Decaying) {
        env.next_sample(&mut state);
        tick += 1;
        assert!(env.val <= prev);
        assert!(env.val >= 500_000);
        prev = env.val;
    }
    assert!(matches!(env.state, AdsrState::Sustaining));
    assert_eq!(env.val, 500_000);

    // Holds at the sustain level while its gate input stays up, until t = 0.3 s.
    while tick < 13_230 {
        env.next_sample(&mut state);
        tick += 1;
        assert_eq!(env.val, 500_000);
        assert!(matches!(env.state, AdsrState::Sustaining));
    }

    // Falling edge: releases linearly from 0.5 to 0.
    state.links[0] = 0;
    env.next_sample(&mut state);
    assert!(matches!(env.state, AdsrState::Releasing));
    prev = env.val;
    while matches!(env.state, AdsrState::Releasing) {
        env.next_sample(&mut state);
        assert!(env.val <= prev);
        assert!(env.val >= 0);
        prev = env.val;
    }
    assert!(matches!(env.state, AdsrState::Idle));
    assert_eq!(env.val, 0);

    // Idle keeps emitting zero.
    env.next_sample(&mut state);
    assert_eq!(state.links[4], 0);
}

#[test]
fn adsr_zero_attack_is_instantaneous() {
    let mut env = test_adsr(0, 0, SCALE, 0);
    let mut state = ProgramState::new(10);
    state.links[0] = SCALE;
    env.next_sample(&mut state);
    // a = 0 jumps straight to full scale; d = 0 then pins the sustain level.
    assert_eq!(env.val, SCALE);
    env.next_sample(&mut state);
    assert_eq!(env.val, SCALE);
    assert!(matches!(env.state, AdsrState::Sustaining));
}

#[test]
fn adsr_retrigger_restarts_mid_release() {
    let mut env = test_adsr(10_000, 100_000, 800_000, 900_000);
    let mut state = ProgramState::new(10);
    state.links[0] = SCALE;
    for _ in 0..20_000 {
        env.next_sample(&mut state);
    }
    state.links[0] = 0;
    for _ in 0..100 {
        env.next_sample(&mut state);
    }
    assert!(matches!(env.state, AdsrState::Releasing));
    // A new rising edge pre-empts the release and restarts the attack at 0.
    state.links[0] = SCALE;
    env.next_sample(&mut state);
    assert!(matches!(env.state, AdsrState::Attacking));
    assert_eq!(env.val, 2267);
}

#[test]
fn oscillator_constant_frequency_phase_increments() {
    // 440 Hz at 44100 Hz: the per-tick phase step is
    // 440_000_000 / 44100 = 9977 micro-cycles.
    let mut osc = SinOsc::new(
        constant(440_000_000),
        constant(0),
        constant(SCALE),
        constant(0),
        OutPort { link: Some(2) },
    );
    let mut state = ProgramState::new(10);
    let mut expected: i64 = 0;
    for _ in 0..500 {
        let before = osc.frequency_integral;
        osc.next_sample(&mut state);
        expected = (expected + 9977) % SCALE;
        assert_eq!(osc.frequency_integral, expected);
        assert_eq!((osc.frequency_integral - before).rem_euclid(SCALE), 9977);
    }
}

#[test]
fn oscillator_frequency_jump_keeps_phase_continuous() {
    let mut osc = SinOsc::new(
        pass_through(0),
        constant(0),
        constant(SCALE),
        constant(0),
        OutPort { link: Some(2) },
    );
    let mut state = ProgramState::new(10);
    state.links[0] = 440_000_000;
    for _ in 0..10 {
        osc.next_sample(&mut state);
    }
    let phase_before = osc.frequency_integral;
    // Abrupt frequency change: the accumulated phase does not jump, only
    // the per-tick increment does (now 880_000_000 / 44100 = 19954).
    state.links[0] = 880_000_000;
    osc.next_sample(&mut state);
    assert_eq!(osc.frequency_integral, (phase_before + 19954) % SCALE);
}

#[test]
fn oscillator_waveshape_key_points() {
    assert_eq!(SinOsc::wave(0), 0);
    assert_eq!(SinOsc::wave(250_000), SCALE); // peak at a quarter cycle
    assert_eq!(SinOsc::wave(500_000), 0);
    assert_eq!(SinOsc::wave(750_000), -SCALE); // trough at three quarters
    // Odd symmetry of the two half-cycles.
    assert_eq!(SinOsc::wave(100_000), -SinOsc::wave(600_000));
}

#[test]
fn oscillator_output_is_volume_times_wave() {
    let mut osc = SinOsc::new(
        constant(0),
        constant(250_000), // phase offset: a quarter cycle, the wave's peak
        constant(SCALE / 2),
        constant(0),
        OutPort { link: Some(2) },
    );
    let mut state = ProgramState::new(10);
    osc.next_sample(&mut state);
    // 0.5 * wave(1/4) = 0.5
    assert_eq!(state.links[2], 500_000);
}

#[test]
fn mixer_weighted_sum() {
    let mixer = Mixer::new(
        constant(2 * SCALE),
        constant(3 * SCALE),
        constant(SCALE / 2),
        constant(-SCALE),
        OutPort { link: Some(7) },
    );
    let mut m = mixer;
    let mut state = ProgramState::new(10);
    m.next_sample(&mut state);
    // 2.0 * 0.5 + 3.0 * (-1.0) = -2.0
    assert_eq!(state.links[7], -2 * SCALE);
    // Statelessness: the node is unchanged and a second tick writes the
    // same value.
    assert_eq!(m, mixer);
    m.next_sample(&mut state);
    assert_eq!(state.links[7], -2 * SCALE);
}

#[test]
fn mixer_sum_saturates() {
    let mut m = Mixer::new(
        constant(AMP_MAX),
        constant(AMP_MAX),
        constant(AMP_MAX),
        constant(AMP_MAX),
        OutPort { link: Some(1) },
    );
    let mut state = ProgramState::new(4);
    m.next_sample(&mut state);
    assert_eq!(state.links[1], AMP_MAX);
}

#[test]
fn adsr_default_is_idle() {
    let env = Adsr::default();
    assert!(matches!(env.state, AdsrState::Idle));
    assert_eq!(env.val, 0);
    assert!(!env.prev_gate);
    assert!(matches!(AdsrState::default(), AdsrState::Idle));
}
