use fm_synth::adsr::Adsr;
use fm_synth::fixed::SCALE;
use fm_synth::port::{InPort, OutPort};
use fm_synth::serialized::{DspNodeEnum, PatchDefinition, IO};
use fm_synth::sinosc::SinOsc;
use fm_synth::voice::Program;

fn constant(bias: i64) -> InPort {
    InPort { mult: 0, bias, link: None }
}

fn pass_through(link: usize) -> InPort {
    InPort { mult: SCALE, bias: 0, link: Some(link) }
}

/// A patch with one instantaneous full-sustain envelope feeding one
/// oscillator's volume, wired to the conventional IO slots.
fn gate_sine_def() -> PatchDefinition {
    let env = Adsr::new(
        pass_through(1),          // gate slot
        constant(0),              // a = 0: instantaneous attack
        constant(0),              // d = 0: instantaneous decay
        constant(SCALE),          // s = 1.0
        constant(0),              // r = 0: instantaneous release
        OutPort { link: Some(5) },
    );
    let osc = SinOsc::new(
        pass_through(0),          // freq slot
        constant(0),
        pass_through(5),          // volume from the envelope
        constant(0),
        OutPort { link: Some(2) }, // lchan slot
    );
    PatchDefinition {
        nodes: vec![DspNodeEnum::Adsr(env), DspNodeEnum::SinOsc(osc)],
        io: IO { freq: Some(0), gate: Some(1), lchan: Some(2), rchan: Some(3) },
    }
}

#[test]
fn steady_gate_yields_steady_440hz_sine() {
    let mut voice = Program::new(&gate_sine_def()).unwrap();
    voice.set_freq(440_000_000);
    voice.set_gate(true);

    let seconds = 1;
    let ticks = 44_100 * seconds;
    let mut crossings = 0u32;
    let mut last_sign = 0i64;
    let mut peak = 0i64;
    for _ in 0..ticks {
        let (l, _r) = voice.next_sample();
        assert!(-SCALE <= l && l <= SCALE);
        if l > peak {
            peak = l;
        }
        let sign = l.signum();
        if sign != 0 {
            if last_sign != 0 && sign != last_sign {
                crossings += 1;
            }
            last_sign = sign;
        }
    }
    // A 440 Hz tone crosses zero about 2 * 440 times per second.
    let expected = 2 * 440 * seconds as u32;
    assert!(
        crossings >= expected - 10 && crossings <= expected + 10,
        "zero crossings: {crossings}"
    );
    // Unit amplitude: with ~100 samples per cycle a sample lands within a
    // whisker of every peak.
    assert!(peak > 990_000 && peak <= SCALE, "peak: {peak}");
}

/// A two-operator FM patch: a modulator envelope driving a modulator
/// oscillator whose output feeds the carrier's phase, plus a carrier
/// envelope driving the carrier's volume.  Node order is the dependency
/// order; the engine performs no sorting.
fn fm_example_def() -> PatchDefinition {
    let mod_env = Adsr::new(
        pass_through(1),
        constant(10_000),  // a = 0.01 s
        constant(3_500_000), // d = 3.5 s
        constant(0),       // s = 0
        constant(0),
        OutPort { link: Some(5) },
    );
    let mod_osc = SinOsc::new(
        pass_through(0),
        constant(0),
        pass_through(5),
        constant(0),
        OutPort { link: Some(6) },
    );
    let main_env = Adsr::new(
        pass_through(1),
        constant(10_000),  // a = 0.01 s
        constant(200_000), // d = 0.2 s
        constant(400_000), // s = 0.4
        constant(400_000), // r = 0.4 s
        OutPort { link: Some(4) },
    );
    let main_osc = SinOsc::new(
        pass_through(0),
        pass_through(6), // phase modulation from the modulator
        pass_through(4),
        constant(0),
        OutPort { link: Some(2) },
    );
    PatchDefinition {
        nodes: vec![
            DspNodeEnum::Adsr(mod_env),
            DspNodeEnum::SinOsc(mod_osc),
            DspNodeEnum::Adsr(main_env),
            DspNodeEnum::SinOsc(main_osc),
        ],
        io: IO { freq: Some(0), gate: Some(1), lchan: Some(2), rchan: Some(3) },
    }
}

#[test]
fn fm_example_patch_plays_and_releases() {
    let mut voice = Program::new(&fm_example_def()).unwrap();
    voice.set_freq(440_000_000);
    voice.set_gate(true);
    let mut peak = 0i64;
    for _ in 0..22_050 {
        let (l, _r) = voice.next_sample();
        assert!(-SCALE <= l && l <= SCALE);
        if l.abs() > peak {
            peak = l.abs();
        }
    }
    assert!(peak > 300_000, "peak: {peak}");
    // After the 0.4 s release has run out the carrier volume is zero and
    // the patch is silent again.
    voice.set_gate(false);
    for _ in 0..26_460 {
        voice.next_sample();
    }
    let (l, _r) = voice.next_sample();
    assert_eq!(l, 0);
}

#[test]
fn gate_off_silences_output_immediately_with_zero_release() {
    let mut voice = Program::new(&gate_sine_def()).unwrap();
    voice.set_freq(440_000_000);
    voice.set_gate(true);
    for _ in 0..1000 {
        voice.next_sample();
    }
    voice.set_gate(false);
    // r = 0: the envelope collapses to zero within a tick, and the
    // oscillator's volume with it.
    voice.next_sample();
    let (l, r) = voice.next_sample();
    assert_eq!(l, 0);
    assert_eq!(r, 0);
}
