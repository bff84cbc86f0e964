//! The sine oscillator node.
//!
//! The oscillator accumulates phase: each tick it advances a private phase
//! integral by `frequency / SAMPLE_RATE` (the frequency read fresh through
//! its port, so it may itself be a modulated link) and emits
//! `volume * wave(phase_integral + phase_offset)`.  Integrating frequency
//! increments — rather than multiplying frequency by absolute elapsed time —
//! keeps the phase continuous when the frequency changes between ticks, so
//! frequency modulation produces no phase discontinuities.
//!
//! Phase is measured in cycles (`SCALE` units = one full cycle) and wrapped
//! into `[0, SCALE)`; the waveshape is the piecewise-parabolic sine
//! approximation `wave_spec`, zero at phase 0 and 1/2, peaking at ±1 at the
//! quarter cycles, so it crosses zero exactly where the ideal sine does.

use vstd::prelude::*;

verus! {

use vstd::arithmetic::mul::{lemma_mul_nonnegative, lemma_mul_upper_bound};
use vstd::arithmetic::div_mod::lemma_div_is_ordered;
use crate::fixed::{
    div_trunc, div_trunc_spec, in_amp_range, phase_wrap, scale_mul, scaled_mul, wrap_phase,
    HALF_SCALE, SAMPLE_RATE, SCALE,
};
use crate::port::{bus_ok, InPort, OutPort, ProgramState};

/// The oscillator node: frequency, phase-offset, volume and feedback input
/// ports, one output port, and the private phase integral in
/// `[0, SCALE)` cycles.  (The feedback port is carried in the patch format
/// but takes no part in evaluation.)
#[derive(Clone, Copy, PartialEq, Eq, Debug)]
pub struct SinOsc {
    pub freq: InPort,
    pub phase: InPort,
    pub vol: InPort,
    pub feedback: InPort,
    pub out: OutPort,
    pub frequency_integral: i64,
}

/// Per-tick phase increment, in micro-cycles, for a frequency signal `freq`
/// (micro-hertz): `freq / SAMPLE_RATE`, truncated toward zero.
pub open spec fn phase_step(freq: int) -> int {
    div_trunc_spec(freq, SAMPLE_RATE as int)
}

/// The piecewise-parabolic sine approximation on one cycle: for a phase `p`
/// in `[0, SCALE)` micro-cycles, the first half-cycle is the downward
/// parabola `16 x (1/2 - x)` through 0 at 0 and 1/2 with peak 1 at 1/4, and
/// the second half-cycle is its mirror image.
pub open spec fn wave_spec(p: int) -> int {
    if p <= HALF_SCALE as int {
        16 * p * (HALF_SCALE as int - p) / (SCALE as int)
    } else {
        -(16 * (p - HALF_SCALE as int) * (SCALE as int - p) / (SCALE as int))
    }
}

impl SinOsc {
    /// All ports well-formed against a bus of `bus_len` links, and the phase
    /// integral wrapped into one cycle.
    pub open spec fn wf(self, bus_len: int) -> bool {
        &&& self.freq.wf(bus_len)
        &&& self.phase.wf(bus_len)
        &&& self.vol.wf(bus_len)
        &&& self.feedback.wf(bus_len)
        &&& self.out.wf(bus_len)
        &&& 0 <= self.frequency_integral < SCALE
    }

    /// A fresh oscillator over the given ports, with phase integral zero.
    pub fn new(freq: InPort, phase: InPort, vol: InPort, feedback: InPort, out: OutPort) -> (n:
        SinOsc)
        ensures
            n == (SinOsc { freq, phase, vol, feedback, out, frequency_integral: 0i64 }),
    {
        SinOsc { freq, phase, vol, feedback, out, frequency_integral: 0 }
    }

    /// Advances the oscillator by one sample tick: reads volume, frequency
    /// and phase offset through the ports, advances the wrapped phase
    /// integral by `phase_step` of the frequency, and writes
    /// `volume * wave(phase integral + offset)` to the output port.
    pub fn next_sample(&mut self, state: &mut ProgramState)
        requires
            old(self).wf(old(state).links@.len() as int),
            bus_ok(old(state).links@),
        ensures
            ({
                let links0 = old(state).links@;
                let vol = old(self).vol.read_spec(links0);
                let freq = old(self).freq.read_spec(links0);
                let off = old(self).phase.read_spec(links0);
                let integ = phase_wrap(old(self).frequency_integral + phase_step(freq));
                let sample = scaled_mul(vol, wave_spec(phase_wrap(integ + off)));
                &&& final(self).frequency_integral as int == integ
                &&& final(self).freq == old(self).freq
                &&& final(self).phase == old(self).phase
                &&& final(self).vol == old(self).vol
                &&& final(self).feedback == old(self).feedback
                &&& final(self).out == old(self).out
                &&& final(state).links@ == old(self).out.write_spec(sample as i64, links0)
            }),
            final(state).links@.len() == old(state).links@.len(),
            final(self).wf(final(state).links@.len() as int),
            bus_ok(final(state).links@),
    {
        let vol = self.vol.read(state);
        let freq = self.freq.read(state);
        let off = self.phase.read(state);

        let step = div_trunc(freq, SAMPLE_RATE as i64);
        self.frequency_integral = wrap_phase(self.frequency_integral + step);

        let total = wrap_phase(self.frequency_integral + off);
        let sample = scale_mul(vol, Self::wave(total));

        self.out.write(sample, state);
    }

    /// The waveshape: evaluates `wave_spec` on a wrapped phase.  The result
    /// stays within one unit of amplitude, `[-SCALE, SCALE]`.
    pub fn wave(p: i64) -> (r: i64)
        requires
            0 <= p < SCALE,
        ensures
            r as int == wave_spec(p as int),
            -SCALE <= r <= SCALE,
    {
        if p <= HALF_SCALE {
            proof {
                lemma_mul_nonnegative(16 * p as int, HALF_SCALE as int - p);
                lemma_mul_upper_bound(
                    16 * p as int,
                    16 * HALF_SCALE as int,
                    HALF_SCALE as int - p,
                    HALF_SCALE as int,
                );
                assert(16 * p as int * (HALF_SCALE as int - p) <= SCALE as int * SCALE as int)
                    by (nonlinear_arith)
                    requires
                        0 <= p as int,
                        p as int <= HALF_SCALE as int,
                        HALF_SCALE as int == 500_000,
                        SCALE as int == 1_000_000,
                ;
                lemma_div_is_ordered(
                    16 * p as int * (HALF_SCALE as int - p),
                    SCALE as int * SCALE as int,
                    SCALE as int,
                );
            }
            let x = 16 * p * (HALF_SCALE - p);
            let r = ((x as u64) / (SCALE as u64)) as i64;
            r
        } else {
            proof {
                lemma_mul_nonnegative(16 * (p as int - HALF_SCALE as int), SCALE as int - p);
                lemma_mul_upper_bound(
                    16 * (p as int - HALF_SCALE as int),
                    16 * HALF_SCALE as int,
                    SCALE as int - p,
                    HALF_SCALE as int,
                );
                assert(16 * (p as int - HALF_SCALE as int) * (SCALE as int - p) <= SCALE as int
                    * SCALE as int)
                    by (nonlinear_arith)
                    requires
                        (HALF_SCALE as int) < p as int,
                        (p as int) < SCALE as int,
                        HALF_SCALE as int == 500_000,
                        SCALE as int == 1_000_000,
                ;
                lemma_div_is_ordered(
                    16 * (p as int - HALF_SCALE as int) * (SCALE as int - p),
                    SCALE as int * SCALE as int,
                    SCALE as int,
                );
            }
            let x = 16 * (p - HALF_SCALE) * (SCALE - p);
            let r = -(((x as u64) / (SCALE as u64)) as i64);
            r
        }
    }
}

/// Law: the phase integral is continuous.  One tick moves a wrapped phase
/// `p` to `phase_wrap(p + phase_step(f))`, so the increment between
/// successive phases is exactly `f / SAMPLE_RATE` (modulo one cycle) — the
/// phase step depends only on the frequency read this tick, never on
/// accumulated time, so an abrupt frequency change alters only the
/// increment and introduces no jump in the accumulated phase itself.
pub proof fn law_phase_continuity(p: int, f: int)
    requires
        0 <= p < SCALE as int,
    ensures
        phase_wrap(phase_wrap(p + phase_step(f)) - p) == phase_wrap(phase_step(f)),
{
    let s = SCALE as int;
    let a = p + phase_step(f);
    vstd::arithmetic::div_mod::lemma_sub_mod_noop(a, p, s);
    vstd::arithmetic::div_mod::lemma_fundamental_div_mod_converse_mod(p, s, 0, p);
}

} // verus!
