//! The mixer node.
//!
//! A stateless linear combination: each tick it reads two signal inputs and
//! two gain inputs and writes `in1 * mix1 + in2 * mix2` (the weighted-sum
//! variant of the mixing contract) to its output port.  It carries no state
//! across ticks.

use vstd::prelude::*;

verus! {

use crate::fixed::{amp_clip, sat_add, scale_mul, scaled_mul};
use crate::port::{bus_ok, InPort, OutPort, ProgramState};

/// The mixer node: two signal input ports, two gain input ports, one output
/// port, and no per-instance state.
#[derive(Clone, Copy, PartialEq, Eq, Debug)]
pub struct Mixer {
    pub in1: InPort,
    pub in2: InPort,
    pub mix1: InPort,
    pub mix2: InPort,
    pub out: OutPort,
}

/// The mixer's output for the current bus: the saturated weighted sum
/// `in1 * mix1 + in2 * mix2` of its current port reads.
pub open spec fn mixer_out_spec(m: Mixer, links: Seq<i64>) -> int {
    amp_clip(
        scaled_mul(m.in1.read_spec(links), m.mix1.read_spec(links)) + scaled_mul(
            m.in2.read_spec(links),
            m.mix2.read_spec(links),
        ),
    )
}

impl Mixer {
    /// All ports well-formed against a bus of `bus_len` links.
    pub open spec fn wf(self, bus_len: int) -> bool {
        &&& self.in1.wf(bus_len)
        &&& self.in2.wf(bus_len)
        &&& self.mix1.wf(bus_len)
        &&& self.mix2.wf(bus_len)
        &&& self.out.wf(bus_len)
    }

    /// A mixer over the given ports.
    pub fn new(in1: InPort, in2: InPort, mix1: InPort, mix2: InPort, out: OutPort) -> (n: Mixer)
        ensures
            n == (Mixer { in1, in2, mix1, mix2, out }),
    {
        Mixer { in1, in2, mix1, mix2, out }
    }

    /// Advances the mixer by one sample tick: writes the weighted sum of its
    /// current input reads to the output port.  The node itself is left
    /// exactly as it was — the mixer is stateless.
    pub fn next_sample(&mut self, state: &mut ProgramState)
        requires
            old(self).wf(old(state).links@.len() as int),
            bus_ok(old(state).links@),
        ensures
            *final(self) == *old(self),
            final(state).links@ == old(self).out.write_spec(
                mixer_out_spec(*old(self), old(state).links@) as i64,
                old(state).links@,
            ),
            final(state).links@.len() == old(state).links@.len(),
            bus_ok(final(state).links@),
    {
        let v1 = scale_mul(self.in1.read(state), self.mix1.read(state));
        let v2 = scale_mul(self.in2.read(state), self.mix2.read(state));
        let sum = sat_add(v1, v2);
        self.out.write(sum, state);
    }
}

/// Law: the mixer's output is a pure linear combination of its current
/// input reads — `in1 * mix1 + in2 * mix2`, saturated — and depends on
/// nothing else: two buses on which the four input ports read the same
/// values mix to the same output.
pub proof fn law_mixer_weighted_sum(m: Mixer, links1: Seq<i64>, links2: Seq<i64>)
    requires
        m.in1.read_spec(links1) == m.in1.read_spec(links2),
        m.in2.read_spec(links1) == m.in2.read_spec(links2),
        m.mix1.read_spec(links1) == m.mix1.read_spec(links2),
        m.mix2.read_spec(links1) == m.mix2.read_spec(links2),
    ensures
        mixer_out_spec(m, links1) == amp_clip(
            scaled_mul(m.in1.read_spec(links1), m.mix1.read_spec(links1)) + scaled_mul(
                m.in2.read_spec(links1),
                m.mix2.read_spec(links1),
            ),
        ),
        mixer_out_spec(m, links1) == mixer_out_spec(m, links2),
{
}

} // verus!
