//! One voice: an independent instance of the node graph.
//!
//! A voice owns one link bus, one ordered node list (evaluated in list
//! order, exactly once per tick), an IO map, and a pending-sample slot that
//! interlaces each tick's stereo pair into a flat mono-pull sequence:
//! a pull with no pending sample computes a fresh `(left, right)` pair,
//! emits `left` and stashes `right`; the very next pull emits the stashed
//! `right` without computing anything.

use vstd::prelude::*;

verus! {

use crate::adsr::{adsr_tick, gate_on_spec, Adsr};
use crate::fixed::{in_amp_range, phase_wrap, scaled_mul, SCALE};
use crate::mixer::{mixer_out_spec, Mixer};
use crate::port::{bus_ok, lemma_read_spec_in_range, lemma_write_spec_bus_ok, ProgramState};
use crate::serialized::{def_wf, node_wf, DspNodeEnum, PatchDefinition, PatchError, IO, NUM_LINKS};
use crate::sinosc::{phase_step, wave_spec, SinOsc};

/// A note event from the host: a key going down with its frequency
/// (micro-hertz), or a key coming up.
#[derive(Clone, Copy, PartialEq, Eq, Debug)]
pub enum SynthInputEvent {
    KeyDown { key: u8, freq: i64 },
    KeyUp { key: u8 },
}

/// A key-down event must carry an in-range frequency signal.
pub open spec fn event_wf(e: SynthInputEvent) -> bool {
    e matches SynthInputEvent::KeyDown { key, freq } ==> in_amp_range(freq as int)
}

/// One tick of a single node against a bus: the node after the tick and the
/// bus after its output write.  This is the uniform evaluation contract all
/// three node kinds share.
pub open spec fn node_tick(n: DspNodeEnum, links: Seq<i64>) -> (DspNodeEnum, Seq<i64>) {
    match n {
        DspNodeEnum::Adsr(a) => {
            let gate = gate_on_spec(a.gate.read_spec(links));
            let stv = adsr_tick(
                a.state,
                a.val as int,
                a.prev_gate,
                gate,
                a.a.read_spec(links),
                a.d.read_spec(links),
                a.s.read_spec(links),
                a.r.read_spec(links),
            );
            let a2 = Adsr {
                gate: a.gate,
                a: a.a,
                d: a.d,
                s: a.s,
                r: a.r,
                out: a.out,
                prev_gate: gate,
                state: stv.0,
                val: stv.1 as i64,
            };
            (DspNodeEnum::Adsr(a2), a.out.write_spec(stv.1 as i64, links))
        }
        DspNodeEnum::SinOsc(o) => {
            let vol = o.vol.read_spec(links);
            let freq = o.freq.read_spec(links);
            let off = o.phase.read_spec(links);
            let integ = phase_wrap(o.frequency_integral + phase_step(freq));
            let sample = scaled_mul(vol, wave_spec(phase_wrap(integ + off)));
            let o2 = SinOsc {
                freq: o.freq,
                phase: o.phase,
                vol: o.vol,
                feedback: o.feedback,
                out: o.out,
                frequency_integral: integ as i64,
            };
            (DspNodeEnum::SinOsc(o2), o.out.write_spec(sample as i64, links))
        }
        DspNodeEnum::Mixer(m) => (n, m.out.write_spec(mixer_out_spec(m, links) as i64, links)),
    }
}

/// Ticking a well-formed node on a well-formed bus yields a well-formed node
/// and bus of unchanged length.
pub proof fn lemma_node_tick_preserves(n: DspNodeEnum, links: Seq<i64>)
    requires
        node_wf(n, links.len() as int),
        bus_ok(links),
    ensures
        node_wf(node_tick(n, links).0, links.len() as int),
        bus_ok(node_tick(n, links).1),
        node_tick(n, links).1.len() == links.len(),
{
    match n {
        DspNodeEnum::Adsr(a) => {
            lemma_read_spec_in_range(a.s, links);
            let gate = gate_on_spec(a.gate.read_spec(links));
            let stv = adsr_tick(
                a.state,
                a.val as int,
                a.prev_gate,
                gate,
                a.a.read_spec(links),
                a.d.read_spec(links),
                a.s.read_spec(links),
                a.r.read_spec(links),
            );
            assert(in_amp_range(stv.1));
            lemma_write_spec_bus_ok(a.out, stv.1 as i64, links);
        }
        DspNodeEnum::SinOsc(o) => {
            let freq = o.freq.read_spec(links);
            let integ = phase_wrap(o.frequency_integral + phase_step(freq));
            vstd::arithmetic::div_mod::lemma_mod_bound(
                o.frequency_integral + phase_step(freq),
                SCALE as int,
            );
            let off = o.phase.read_spec(links);
            let vol = o.vol.read_spec(links);
            let sample = scaled_mul(vol, wave_spec(phase_wrap(integ + off)));
            crate::fixed::lemma_scaled_mul_in_range(vol, wave_spec(phase_wrap(integ + off)));
            lemma_write_spec_bus_ok(o.out, sample as i64, links);
        }
        DspNodeEnum::Mixer(m) => {
            lemma_write_spec_bus_ok(m.out, mixer_out_spec(m, links) as i64, links);
        }
    }
}

/// The node list's first `j` nodes ticked in order against the bus: the
/// node list with those nodes replaced by their post-tick states, and the
/// bus after their writes.  List order is the dependency order — the engine
/// performs no topological sort.
pub open spec fn run_nodes(nodes: Seq<DspNodeEnum>, links: Seq<i64>, j: int) -> (
    Seq<DspNodeEnum>,
    Seq<i64>,
)
    decreases j,
{
    if j <= 0 {
        (nodes, links)
    } else {
        let prev = run_nodes(nodes, links, j - 1);
        let stepped = node_tick(prev.0[j - 1], prev.1);
        (prev.0.update(j - 1, stepped.0), stepped.1)
    }
}

impl DspNodeEnum {
    /// Advances this node by one sample tick, whatever its kind: the uniform
    /// dispatch over the closed union of node kinds.
    pub fn next_sample(&mut self, state: &mut ProgramState)
        requires
            node_wf(*old(self), old(state).links@.len() as int),
            bus_ok(old(state).links@),
        ensures
            ({
                let t = node_tick(*old(self), old(state).links@);
                &&& *final(self) == t.0
                &&& final(state).links@ == t.1
            }),
            final(state).links@.len() == old(state).links@.len(),
            node_wf(*final(self), final(state).links@.len() as int),
            bus_ok(final(state).links@),
    {
        proof {
            lemma_node_tick_preserves(*self, state.links@);
        }
        match *self {
            DspNodeEnum::Adsr(a0) => {
                let mut a = a0;
                a.next_sample(state);
                *self = DspNodeEnum::Adsr(a);
            }
            DspNodeEnum::SinOsc(o0) => {
                let mut o = o0;
                o.next_sample(state);
                *self = DspNodeEnum::SinOsc(o);
            }
            DspNodeEnum::Mixer(m0) => {
                let mut m = m0;
                m.next_sample(state);
                *self = DspNodeEnum::Mixer(m);
            }
        }
    }
}

/// The sample a channel of the IO map yields from a bus: the mapped slot's
/// value, or silence when unmapped.
pub open spec fn chan_out(links: Seq<i64>, ch: Option<usize>) -> i64 {
    match ch {
        None => 0i64,
        Some(i) => links[i as int],
    }
}

/// A bus with one IO slot written, when that slot is mapped.
pub open spec fn io_write(links: Seq<i64>, slot: Option<usize>, v: i64) -> Seq<i64> {
    match slot {
        None => links,
        Some(i) => links.update(i as int, v),
    }
}

/// The mathematical state of one voice: its bus contents, node states, IO
/// map and pending interlace sample, free of any container representation.
pub struct ProgramView {
    pub links: Seq<i64>,
    pub nodes: Seq<DspNodeEnum>,
    pub io: IO,
    pub pending: Option<i64>,
}

/// One interlaced pull of a voice, at the view level: with a pending sample,
/// emit it; otherwise tick every node and emit the left channel, stashing
/// the right.
pub open spec fn view_pull(v: ProgramView) -> (ProgramView, i64) {
    match v.pending {
        Some(p) => (
            ProgramView { links: v.links, nodes: v.nodes, io: v.io, pending: None },
            p,
        ),
        None => {
            let run = run_nodes(v.nodes, v.links, v.nodes.len() as int);
            (
                ProgramView {
                    links: run.1,
                    nodes: run.0,
                    io: v.io,
                    pending: Some(chan_out(run.1, v.io.rchan)),
                },
                chan_out(run.1, v.io.lchan),
            )
        }
    }
}

/// A note event applied to a voice, at the view level: key-down writes
/// frequency then raises its gate signal, key-up lowers it.
pub open spec fn view_process_event(v: ProgramView, e: SynthInputEvent) -> ProgramView {
    ProgramView {
        links: (match e {
            SynthInputEvent::KeyDown { key, freq } => io_write(
                io_write(v.links, v.io.freq, freq),
                v.io.gate,
                SCALE,
            ),
            SynthInputEvent::KeyUp { key } => io_write(v.links, v.io.gate, 0i64),
        }),
        nodes: v.nodes,
        io: v.io,
        pending: v.pending,
    }
}

/// One voice of the synthesizer: its own bus, its own node instances, the
/// IO map, and the stereo-interlace slot.
pub struct Program {
    pub state: ProgramState,
    pub nodes: Vec<DspNodeEnum>,
    pub io: IO,
    pub pending_sample: Option<i64>,
}

impl View for Program {
    type V = ProgramView;

    open spec fn view(&self) -> ProgramView {
        ProgramView {
            links: self.state.links@,
            nodes: self.nodes@,
            io: self.io,
            pending: self.pending_sample,
        }
    }
}

/// The views of a sequence of voices.
pub open spec fn views_of(s: Seq<Program>) -> Seq<ProgramView> {
    s.map_values(|p: Program| p@)
}

/// Replacing one voice replaces exactly its view.
pub proof fn lemma_views_of_update(s: Seq<Program>, i: int, p: Program)
    requires
        0 <= i < s.len(),
    ensures
        views_of(s.update(i, p)) == views_of(s).update(i, p@),
{
    assert(views_of(s.update(i, p)) =~= views_of(s).update(i, p@));
}

impl Program {
    /// The voice's invariant: the bus has the fixed length and in-range
    /// values, every node and the IO map are well-formed against it, and a
    /// pending sample is in range.
    pub open spec fn wf(self) -> bool {
        &&& self.state.links@.len() == NUM_LINKS
        &&& bus_ok(self.state.links@)
        &&& forall|k: int|
            0 <= k < self.nodes@.len() ==> node_wf(#[trigger] self.nodes@[k], NUM_LINKS as int)
        &&& self.io.wf(NUM_LINKS as int)
        &&& (self.pending_sample matches Some(v) ==> in_amp_range(v as int))
    }

    /// Builds one voice from a patch definition: validates every link index
    /// and coefficient, and on success starts the voice on a zeroed bus with
    /// the definition's nodes and IO map and no pending sample.  Exactly the
    /// well-formed definitions are accepted.
    pub fn new(def: &PatchDefinition) -> (r: Result<Program, PatchError>)
        ensures
            r is Ok <==> def_wf(*def),
            r matches Ok(p) ==> {
                &&& p.nodes@ == def.nodes@
                &&& p.io == def.io
                &&& p.state.links@ == Seq::new(NUM_LINKS as nat, |i: int| 0i64)
                &&& p.pending_sample is None
                &&& p.wf()
            },
            r is Err ==> r == Err::<Program, PatchError>(PatchError::InvalidDefinition),
    {
        if !crate::serialized::check_def(def) {
            return Err(PatchError::InvalidDefinition);
        }
        let n = def.nodes.len();
        let mut nodes: Vec<DspNodeEnum> = Vec::new();
        let mut i: usize = 0;
        while i < n
            invariant
                i <= n,
                n == def.nodes@.len(),
                nodes@.len() == i,
                forall|k: int| 0 <= k < i ==> nodes@[k] == def.nodes@[k],
            decreases n - i,
        {
            nodes.push(def.nodes[i]);
            i = i + 1;
        }
        proof {
            assert(nodes@ =~= def.nodes@);
        }
        Ok(Program { state: ProgramState::new(NUM_LINKS), nodes, io: def.io, pending_sample: None })
    }

    /// Evaluates every node exactly once, in list order, then extracts the
    /// stereo pair from the IO map's `lchan`/`rchan` slots (silence when
    /// unmapped).  No shared time base advances: time, where a node needs
    /// it, is local to that node.
    pub fn next_sample(&mut self) -> (lr: (i64, i64))
        requires
            old(self).wf(),
        ensures
            ({
                let run = run_nodes(
                    old(self).nodes@,
                    old(self).state.links@,
                    old(self).nodes@.len() as int,
                );
                &&& final(self).nodes@ == run.0
                &&& final(self).state.links@ == run.1
                &&& final(self).io == old(self).io
                &&& final(self).pending_sample == old(self).pending_sample
                &&& lr.0 == chan_out(run.1, old(self).io.lchan)
                &&& lr.1 == chan_out(run.1, old(self).io.rchan)
            }),
            final(self).wf(),
    {
        let ghost nodes0 = self.nodes@;
        let ghost links0 = self.state.links@;
        let ghost io0 = self.io;
        let ghost pending0 = self.pending_sample;
        let n = self.nodes.len();
        let mut i: usize = 0;
        while i < n
            invariant
                i <= n,
                n == nodes0.len(),
                self.nodes@.len() == n,
                self.state.links@.len() == links0.len(),
                links0.len() == NUM_LINKS,
                self.io == io0,
                self.pending_sample == pending0,
                io0.wf(NUM_LINKS as int),
                (pending0 matches Some(v) ==> in_amp_range(v as int)),
                self.nodes@ == run_nodes(nodes0, links0, i as int).0,
                self.state.links@ == run_nodes(nodes0, links0, i as int).1,
                forall|k: int|
                    0 <= k < n ==> node_wf(#[trigger] self.nodes@[k], NUM_LINKS as int),
                bus_ok(self.state.links@),
            decreases n - i,
        {
            let mut node = self.nodes[i];
            node.next_sample(&mut self.state);
            self.nodes.set(i, node);
            i = i + 1;
        }
        let l = match self.io.lchan {
            Some(idx) => self.state.links[idx],
            None => 0,
        };
        let r = match self.io.rchan {
            Some(idx) => self.state.links[idx],
            None => 0,
        };
        (l, r)
    }

    /// Writes the frequency signal to the IO map's `freq` slot, when mapped;
    /// a no-op otherwise.
    pub fn set_freq(&mut self, freq: i64)
        requires
            old(self).wf(),
            in_amp_range(freq as int),
        ensures
            final(self).state.links@ == io_write(old(self).state.links@, old(self).io.freq, freq),
            final(self).nodes@ == old(self).nodes@,
            final(self).io == old(self).io,
            final(self).pending_sample == old(self).pending_sample,
            final(self).wf(),
    {
        if let Some(i) = self.io.freq {
            self.state.links.set(i, freq);
        }
    }

    /// Writes a gate signal — full scale for "on", zero for "off" — to the
    /// IO map's `gate` slot, when mapped; a no-op otherwise.
    pub fn set_gate(&mut self, gate: bool)
        requires
            old(self).wf(),
        ensures
            final(self).state.links@ == io_write(
                old(self).state.links@,
                old(self).io.gate,
                if gate {
                    SCALE
                } else {
                    0i64
                },
            ),
            final(self).nodes@ == old(self).nodes@,
            final(self).io == old(self).io,
            final(self).pending_sample == old(self).pending_sample,
            final(self).wf(),
    {
        let v: i64 = if gate {
            SCALE
        } else {
            0
        };
        if let Some(i) = self.io.gate {
            self.state.links.set(i, v);
        }
    }

    /// Routes a note event into the voice: a key-down sets the frequency and
    /// raises its gate signal; a key-up lowers it.
    pub fn process_event(&mut self, event: SynthInputEvent)
        requires
            old(self).wf(),
            event_wf(event),
        ensures
            final(self).state.links@ == (match event {
                SynthInputEvent::KeyDown { key, freq } => io_write(
                    io_write(old(self).state.links@, old(self).io.freq, freq),
                    old(self).io.gate,
                    SCALE,
                ),
                SynthInputEvent::KeyUp { key } => io_write(
                    old(self).state.links@,
                    old(self).io.gate,
                    0i64,
                ),
            }),
            final(self).nodes@ == old(self).nodes@,
            final(self).io == old(self).io,
            final(self).pending_sample == old(self).pending_sample,
            final(self).wf(),
    {
        match event {
            SynthInputEvent::KeyDown { key: _, freq } => {
                self.set_freq(freq);
                self.set_gate(true);
            }
            SynthInputEvent::KeyUp { key: _ } => {
                self.set_gate(false);
            }
        }
    }

    /// Pulls one scalar of the flat, interlaced output sequence: with a
    /// pending sample, emits it and clears the slot without computing; with
    /// none, computes a fresh stereo pair, emits `left` and stashes `right`.
    /// Two pulls therefore cover exactly one tick, left before right.
    pub fn next(&mut self) -> (s: i64)
        requires
            old(self).wf(),
        ensures
            final(self).wf(),
            in_amp_range(s as int),
            (match old(self).pending_sample {
                Some(p) => {
                    &&& s == p
                    &&& final(self).pending_sample is None
                    &&& final(self).nodes@ == old(self).nodes@
                    &&& final(self).state.links@ == old(self).state.links@
                    &&& final(self).io == old(self).io
                }
                None => ({
                    let run = run_nodes(
                        old(self).nodes@,
                        old(self).state.links@,
                        old(self).nodes@.len() as int,
                    );
                    &&& s == chan_out(run.1, old(self).io.lchan)
                    &&& final(self).pending_sample == Some(chan_out(run.1, old(self).io.rchan))
                    &&& final(self).nodes@ == run.0
                    &&& final(self).state.links@ == run.1
                    &&& final(self).io == old(self).io
                }),
            }),
    {
        match self.pending_sample {
            Some(p) => {
                self.pending_sample = None;
                p
            }
            None => {
                let lr = self.next_sample();
                self.pending_sample = Some(lr.1);
                lr.0
            }
        }
    }
}

} // verus!
