//! The ADSR envelope generator node.
//!
//! A five-state machine (`Idle`, `Attacking`, `Decaying`, `Sustaining`,
//! `Releasing`) driven once per sample tick by its gate input.  A rising gate
//! edge restarts the envelope from zero in any state.  Stage times are read
//! through ports as fixed-point seconds (`SCALE` units = 1 s); a stage time
//! of zero or less is an instantaneous transition, so no division by a
//! zero-length stage is ever attempted and the value is always a well-defined
//! integer (the fixed-point counterpart of "never NaN").

use vstd::prelude::*;

verus! {

use crate::fixed::{
    amp_clip, div_trunc, div_trunc_spec, in_amp_range, mag, AMP_MAX, SAMPLE_RATE, SCALE,
};
use crate::port::{bus_ok, InPort, OutPort, ProgramState};

/// The envelope's stage.
#[derive(Clone, Copy, PartialEq, Eq, Structural, Debug)]
pub enum AdsrState {
    Idle,
    Attacking,
    Decaying,
    Sustaining,
    Releasing,
}

/// The ADSR envelope node: gate and stage-parameter input ports, one output
/// port, and the private per-instance state (previous gate, stage, value).
#[derive(Clone, Copy, PartialEq, Eq, Debug)]
pub struct Adsr {
    pub gate: InPort,
    pub a: InPort,
    pub d: InPort,
    pub s: InPort,
    pub r: InPort,
    pub out: OutPort,
    pub prev_gate: bool,
    pub state: AdsrState,
    pub val: i64,
}

/// A gate signal is "on" exactly when it is nonzero.
pub open spec fn gate_on_spec(gate: int) -> bool {
    gate != 0
}

/// Per-tick attack increment for attack time `a` (> 0), in value units:
/// the fixed-point image of `sample_period / a`.
pub open spec fn attack_step(a: int) -> int {
    (SCALE as int * SCALE as int) / (a * SAMPLE_RATE as int)
}

/// Per-tick decay decrement for decay time `d` (> 0) and sustain level `s`:
/// the fixed-point image of `(1 - s) * sample_period / d`, truncated toward
/// zero.
pub open spec fn decay_step(d: int, s: int) -> int {
    div_trunc_spec((SCALE as int - s) * SCALE as int, d * SAMPLE_RATE as int)
}

/// Per-tick release decrement for release time `r` (> 0) and sustain level
/// `s` (> 0): the fixed-point image of `s * sample_period / r`.
pub open spec fn release_step(r: int, s: int) -> int {
    (s * SCALE as int) / (r * SAMPLE_RATE as int)
}

/// One tick of the envelope state machine, given the four stage parameters
/// and whether its gate input is on.  Returns the next stage and value.  This is
/// the exact transition function the executable node computes.
pub open spec fn adsr_tick(
    st: AdsrState,
    val: int,
    prev_gate: bool,
    gate: bool,
    a: int,
    d: int,
    s: int,
    r: int,
) -> (AdsrState, int) {
    // A rising edge restarts the envelope from zero, pre-empting any stage.
    let (st0, val0): (AdsrState, int) = if !prev_gate && gate {
        (AdsrState::Attacking, 0)
    } else {
        (st, val)
    };
    match st0 {
        AdsrState::Idle => (st0, val0),
        AdsrState::Attacking => {
            if a <= 0 {
                (AdsrState::Decaying, SCALE as int)
            } else {
                let v = amp_clip(val0 + attack_step(a));
                if v >= SCALE as int {
                    (AdsrState::Decaying, SCALE as int)
                } else {
                    (AdsrState::Attacking, v)
                }
            }
        }
        AdsrState::Decaying => {
            if d <= 0 {
                (AdsrState::Sustaining, s)
            } else {
                let v = amp_clip(val0 - decay_step(d, s));
                if v <= s {
                    (AdsrState::Sustaining, s)
                } else {
                    (AdsrState::Decaying, v)
                }
            }
        }
        AdsrState::Sustaining => {
            if prev_gate && !gate {
                (AdsrState::Releasing, val0)
            } else {
                (AdsrState::Sustaining, val0)
            }
        }
        AdsrState::Releasing => {
            if s <= 0 || r <= 0 {
                (AdsrState::Idle, 0)
            } else {
                let v = amp_clip(val0 - release_step(r, s));
                if v <= 0 {
                    (AdsrState::Idle, 0)
                } else {
                    (AdsrState::Releasing, v)
                }
            }
        }
    }
}

impl Adsr {
    /// All six ports well-formed against a bus of `bus_len` links, and the
    /// envelope value in signal range.
    pub open spec fn wf(self, bus_len: int) -> bool {
        &&& self.gate.wf(bus_len)
        &&& self.a.wf(bus_len)
        &&& self.d.wf(bus_len)
        &&& self.s.wf(bus_len)
        &&& self.r.wf(bus_len)
        &&& self.out.wf(bus_len)
        &&& in_amp_range(self.val as int)
    }

    /// A fresh envelope over the given ports: idle, value zero, gate low.
    pub fn new(gate: InPort, a: InPort, d: InPort, s: InPort, r: InPort, out: OutPort) -> (n: Adsr)
        ensures
            n == (Adsr {
                gate,
                a,
                d,
                s,
                r,
                out,
                prev_gate: false,
                state: AdsrState::Idle,
                val: 0i64,
            }),
    {
        Adsr { gate, a, d, s, r, out, prev_gate: false, state: AdsrState::Idle, val: 0 }
    }

    /// Whether a gate value counts as "on".
    pub fn gate_on(gate: i64) -> (r: bool)
        ensures
            r == gate_on_spec(gate as int),
    {
        gate != 0
    }

    /// Advances the envelope by one sample tick: reads gate and stage
    /// parameters through the input ports, steps the state machine exactly as
    /// `adsr_tick` says, and writes the new value to the output port.
    pub fn next_sample(&mut self, state: &mut ProgramState)
        requires
            old(self).wf(old(state).links@.len() as int),
            bus_ok(old(state).links@),
        ensures
            ({
                let links0 = old(state).links@;
                let gate = gate_on_spec(old(self).gate.read_spec(links0));
                let (st, v) = adsr_tick(
                    old(self).state,
                    old(self).val as int,
                    old(self).prev_gate,
                    gate,
                    old(self).a.read_spec(links0),
                    old(self).d.read_spec(links0),
                    old(self).s.read_spec(links0),
                    old(self).r.read_spec(links0),
                );
                &&& final(self).state == st
                &&& final(self).val as int == v
                &&& final(self).prev_gate == gate
                &&& final(self).gate == old(self).gate
                &&& final(self).a == old(self).a
                &&& final(self).d == old(self).d
                &&& final(self).s == old(self).s
                &&& final(self).r == old(self).r
                &&& final(self).out == old(self).out
                &&& final(state).links@ == old(self).out.write_spec(final(self).val, links0)
            }),
            final(state).links@.len() == old(state).links@.len(),
            final(self).wf(final(state).links@.len() as int),
            bus_ok(final(state).links@),
    {
        let gate = Self::gate_on(self.gate.read(state));
        let a = self.a.read(state);
        let d = self.d.read(state);
        let s = self.s.read(state);
        let r = self.r.read(state);

        if !self.prev_gate && gate {
            self.val = 0;
            self.state = AdsrState::Attacking;
        }

        match self.state {
            AdsrState::Idle => {}
            AdsrState::Attacking => {
                if a <= 0 {
                    self.val = SCALE;
                    self.state = AdsrState::Decaying;
                } else {
                    let step = div_trunc(SCALE * SCALE, a * (SAMPLE_RATE as i64));
                    let v = self.val + step;
                    let v = if v > AMP_MAX {
                        AMP_MAX
                    } else {
                        v
                    };
                    if v >= SCALE {
                        self.val = SCALE;
                        self.state = AdsrState::Decaying;
                    } else {
                        self.val = v;
                    }
                }
            }
            AdsrState::Decaying => {
                if d <= 0 {
                    self.val = s;
                    self.state = AdsrState::Sustaining;
                } else {
                    let step = div_trunc((SCALE - s) * SCALE, d * (SAMPLE_RATE as i64));
                    let v = self.val - step;
                    let v = if v > AMP_MAX {
                        AMP_MAX
                    } else if v < -AMP_MAX {
                        -AMP_MAX
                    } else {
                        v
                    };
                    if v <= s {
                        self.val = s;
                        self.state = AdsrState::Sustaining;
                    } else {
                        self.val = v;
                    }
                }
            }
            AdsrState::Sustaining => {
                if self.prev_gate && !gate {
                    self.state = AdsrState::Releasing;
                }
            }
            AdsrState::Releasing => {
                if s <= 0 || r <= 0 {
                    self.val = 0;
                    self.state = AdsrState::Idle;
                } else {
                    let step = div_trunc(s * SCALE, r * (SAMPLE_RATE as i64));
                    let v = self.val - step;
                    let v = if v < -AMP_MAX {
                        -AMP_MAX
                    } else {
                        v
                    };
                    if v <= 0 {
                        self.val = 0;
                        self.state = AdsrState::Idle;
                    } else {
                        self.val = v;
                    }
                }
            }
        }

        self.prev_gate = gate;
        self.out.write(self.val, state);
    }
}

impl Default for AdsrState {
    /// A fresh envelope starts idle.
    fn default() -> (r: AdsrState)
        ensures
            r is Idle,
    {
        AdsrState::Idle
    }
}

impl Default for Adsr {
    /// The default envelope: all ports unlinked constants, idle at zero.
    fn default() -> (r: Adsr)
        ensures
            r == (Adsr {
                gate: InPort { mult: 0i64, bias: 0i64, link: None::<usize> },
                a: InPort { mult: 0i64, bias: 0i64, link: None::<usize> },
                d: InPort { mult: 0i64, bias: 0i64, link: None::<usize> },
                s: InPort { mult: 0i64, bias: 0i64, link: None::<usize> },
                r: InPort { mult: 0i64, bias: 0i64, link: None::<usize> },
                out: OutPort { link: None::<usize> },
                prev_gate: false,
                state: AdsrState::Idle,
                val: 0i64,
            }),
    {
        let none = InPort { mult: 0, bias: 0, link: None };
        Adsr {
            gate: none,
            a: none,
            d: none,
            s: none,
            r: none,
            out: OutPort { link: None },
            prev_gate: false,
            state: AdsrState::Idle,
            val: 0,
        }
    }
}

/// Law: the envelope value stays in `[0, SCALE]` — the fixed-point image of
/// `[0, 1]` — across every tick, whenever the sustain level read this tick is
/// itself in `[0, SCALE]` and the current value is.  Attack, decay and
/// release times may be anything.
pub proof fn law_adsr_value_in_unit_range(
    st: AdsrState,
    val: int,
    prev_gate: bool,
    gate: bool,
    a: int,
    d: int,
    s: int,
    r: int,
)
    requires
        0 <= val <= SCALE as int,
        0 <= s <= SCALE as int,
    ensures
        0 <= adsr_tick(st, val, prev_gate, gate, a, d, s, r).1 <= SCALE as int,
{
    let (st0, val0): (AdsrState, int) = if !prev_gate && gate {
        (AdsrState::Attacking, 0)
    } else {
        (st, val)
    };
    match st0 {
        AdsrState::Idle => {}
        AdsrState::Attacking => {
            if a > 0 {
                vstd::arithmetic::div_mod::lemma_div_pos_is_pos(
                    SCALE as int * SCALE as int,
                    a * SAMPLE_RATE as int,
                );
            }
        }
        AdsrState::Decaying => {
            if d > 0 {
                vstd::arithmetic::div_mod::lemma_div_pos_is_pos(
                    mag((SCALE as int - s) * SCALE as int),
                    d * SAMPLE_RATE as int,
                );
            }
        }
        AdsrState::Sustaining => {}
        AdsrState::Releasing => {
            if s > 0 && r > 0 {
                vstd::arithmetic::div_mod::lemma_div_pos_is_pos(
                    s * SCALE as int,
                    r * SAMPLE_RATE as int,
                );
            }
        }
    }
}

} // verus!
