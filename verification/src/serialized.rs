//! The patch definition: the plain-data form of a node graph.
//!
//! A patch definition lists the nodes of the graph (in evaluation order) and
//! the IO map naming the host-facing bus slots.  Construction of a running
//! graph validates every referenced link index against the bus length and
//! every port coefficient against the signal range, rejecting a bad
//! definition with an error instead of faulting at evaluation time.

use vstd::prelude::*;

verus! {

use crate::adsr::{Adsr, AdsrState};
use crate::fixed::{in_amp_range, AMP_MAX, SCALE};
use crate::mixer::Mixer;
use crate::port::{InPort, OutPort};
use crate::sinosc::SinOsc;

/// Number of links in every voice's bus.
pub const NUM_LINKS: usize = 100;

/// The conventional bus layout for the four host-facing slots, for patches
/// that take the fixed slot convention instead of naming each slot in an IO
/// map of their own.
#[derive(Clone, Copy, PartialEq, Eq, Structural, Debug)]
pub enum SpecialPorts {
    NoteFreq,
    NoteGate,
    LeftChan,
    RightChan,
    NumSpecialPorts,
}

impl SpecialPorts {
    /// The bus slot this special port conventionally occupies (and, for
    /// `NumSpecialPorts`, the number of reserved slots).
    pub fn index(self) -> (i: usize)
        ensures
            self is NoteFreq ==> i == 0,
            self is NoteGate ==> i == 1,
            self is LeftChan ==> i == 2,
            self is RightChan ==> i == 3,
            self is NumSpecialPorts ==> i == 4,
            i <= 4,
    {
        match self {
            SpecialPorts::NoteFreq => 0,
            SpecialPorts::NoteGate => 1,
            SpecialPorts::LeftChan => 2,
            SpecialPorts::RightChan => 3,
            SpecialPorts::NumSpecialPorts => 4,
        }
    }
}

/// The IO map: names the bus slots with host-facing meaning.  An absent
/// entry means the patch leaves that role unmapped.
#[derive(Clone, Copy, PartialEq, Eq, Debug)]
pub struct IO {
    pub freq: Option<usize>,
    pub gate: Option<usize>,
    pub lchan: Option<usize>,
    pub rchan: Option<usize>,
}

impl IO {
    /// Every mapped slot lies inside a bus of `bus_len` links.
    pub open spec fn wf(self, bus_len: int) -> bool {
        &&& (self.freq matches Some(i) ==> 0 <= i < bus_len)
        &&& (self.gate matches Some(i) ==> 0 <= i < bus_len)
        &&& (self.lchan matches Some(i) ==> 0 <= i < bus_len)
        &&& (self.rchan matches Some(i) ==> 0 <= i < bus_len)
    }

    /// A fully unmapped IO map.
    pub fn unmapped() -> (r: IO)
        ensures
            r == (IO {
                freq: None::<usize>,
                gate: None::<usize>,
                lchan: None::<usize>,
                rchan: None::<usize>,
            }),
    {
        IO { freq: None, gate: None, lchan: None, rchan: None }
    }

    /// The IO map following the conventional `SpecialPorts` layout.
    pub fn standard() -> (r: IO)
        ensures
            r == (IO {
                freq: Some(0usize),
                gate: Some(1usize),
                lchan: Some(2usize),
                rchan: Some(3usize),
            }),
            r.wf(NUM_LINKS as int),
    {
        IO {
            freq: Some(SpecialPorts::NoteFreq.index()),
            gate: Some(SpecialPorts::NoteGate.index()),
            lchan: Some(SpecialPorts::LeftChan.index()),
            rchan: Some(SpecialPorts::RightChan.index()),
        }
    }
}

/// One node of a patch: the closed union over the three node kinds, each
/// carrying its ports and its private per-instance state.
#[derive(Clone, Copy, PartialEq, Eq, Debug)]
pub enum DspNodeEnum {
    Adsr(Adsr),
    SinOsc(SinOsc),
    Mixer(Mixer),
}

/// A node is well-formed against a bus of `bus_len` links when all its ports
/// and its private state are.
pub open spec fn node_wf(n: DspNodeEnum, bus_len: int) -> bool {
    match n {
        DspNodeEnum::Adsr(a) => a.wf(bus_len),
        DspNodeEnum::SinOsc(o) => o.wf(bus_len),
        DspNodeEnum::Mixer(m) => m.wf(bus_len),
    }
}

/// A full patch definition: the node list (evaluation order is list order —
/// the engine performs no topological sort, so an author may deliberately
/// place a node before its source for a one-sample-delayed feedback path)
/// and the IO map.
#[derive(PartialEq, Eq, Debug)]
pub struct PatchDefinition {
    pub nodes: Vec<DspNodeEnum>,
    pub io: IO,
}

/// A whole definition is well-formed when every node and the IO map are,
/// against the fixed bus length.
pub open spec fn def_wf(def: PatchDefinition) -> bool {
    &&& forall|k: int|
        0 <= k < def.nodes@.len() ==> node_wf(#[trigger] def.nodes@[k], NUM_LINKS as int)
    &&& def.io.wf(NUM_LINKS as int)
}

/// Rejection of a patch definition whose ports reference a link outside the
/// bus or carry an out-of-range value.
#[derive(Clone, Copy, PartialEq, Eq, Structural, Debug)]
pub enum PatchError {
    InvalidDefinition,
}

fn check_in_port(p: &InPort) -> (ok: bool)
    ensures
        ok == p.wf(NUM_LINKS as int),
{
    let coeffs = -AMP_MAX <= p.mult && p.mult <= AMP_MAX && -AMP_MAX <= p.bias && p.bias
        <= AMP_MAX;
    let link_ok = match p.link {
        Some(i) => i < NUM_LINKS,
        None => true,
    };
    coeffs && link_ok
}

fn check_out_port(p: &OutPort) -> (ok: bool)
    ensures
        ok == p.wf(NUM_LINKS as int),
{
    match p.link {
        Some(i) => i < NUM_LINKS,
        None => true,
    }
}

fn check_node(n: &DspNodeEnum) -> (ok: bool)
    ensures
        ok == node_wf(*n, NUM_LINKS as int),
{
    match n {
        DspNodeEnum::Adsr(a) => {
            check_in_port(&a.gate) && check_in_port(&a.a) && check_in_port(&a.d) && check_in_port(
                &a.s,
            ) && check_in_port(&a.r) && check_out_port(&a.out) && -AMP_MAX <= a.val && a.val
                <= AMP_MAX
        }
        DspNodeEnum::SinOsc(o) => {
            check_in_port(&o.freq) && check_in_port(&o.phase) && check_in_port(&o.vol)
                && check_in_port(&o.feedback) && check_out_port(&o.out) && 0
                <= o.frequency_integral && o.frequency_integral < SCALE
        }
        DspNodeEnum::Mixer(m) => {
            check_in_port(&m.in1) && check_in_port(&m.in2) && check_in_port(&m.mix1)
                && check_in_port(&m.mix2) && check_out_port(&m.out)
        }
    }
}

fn check_io(io: &IO) -> (ok: bool)
    ensures
        ok == io.wf(NUM_LINKS as int),
{
    let f = match io.freq {
        Some(i) => i < NUM_LINKS,
        None => true,
    };
    let g = match io.gate {
        Some(i) => i < NUM_LINKS,
        None => true,
    };
    let l = match io.lchan {
        Some(i) => i < NUM_LINKS,
        None => true,
    };
    let r = match io.rchan {
        Some(i) => i < NUM_LINKS,
        None => true,
    };
    f && g && l && r
}

/// Validates a patch definition against the bus: accepts exactly the
/// well-formed definitions.
pub fn check_def(def: &PatchDefinition) -> (ok: bool)
    ensures
        ok == def_wf(*def),
{
    let n = def.nodes.len();
    let mut i: usize = 0;
    while i < n
        invariant
            i <= n,
            n == def.nodes@.len(),
            forall|k: int| 0 <= k < i ==> node_wf(#[trigger] def.nodes@[k], NUM_LINKS as int),
        decreases n - i,
    {
        if !check_node(&def.nodes[i]) {
            return false;
        }
        i = i + 1;
    }
    check_io(&def.io)
}

} // verus!
