//! The link bus and the two port kinds.
//!
//! A graph instance communicates through a flat array of fixed-point links.
//! An input port is an affine-transformed read of one link (or a constant);
//! an output port writes one link, or silently discards when unlinked.

use vstd::prelude::*;

verus! {

use crate::fixed::{amp_clip, in_amp_range, sat_add, scale_mul, scaled_mul};

/// The per-voice link bus: a flat, zero-initialized array of fixed-point
/// signal values that all nodes of one graph instance read and write.
pub struct ProgramState {
    pub links: Vec<i64>,
}

/// Whether every link value lies in the signal range.
pub open spec fn bus_ok(links: Seq<i64>) -> bool {
    forall|i: int| 0 <= i < links.len() ==> in_amp_range(#[trigger] links[i] as int)
}

impl ProgramState {
    /// A zeroed bus of `num_links` links.
    pub fn new(num_links: usize) -> (r: ProgramState)
        ensures
            r.links@.len() == num_links,
            r.links@ == Seq::<i64>::new(num_links as nat, |i: int| 0i64),
            bus_ok(r.links@),
    {
        let mut links: Vec<i64> = Vec::new();
        let mut i: usize = 0;
        while i < num_links
            invariant
                i <= num_links,
                links@.len() == i,
                links@ == Seq::<i64>::new(i as nat, |j: int| 0i64),
            decreases num_links - i,
        {
            links.push(0);
            proof {
                assert(links@ =~= Seq::<i64>::new((i + 1) as nat, |j: int| 0i64));
            }
            i = i + 1;
        }
        proof {
            assert forall|j: int| 0 <= j < links@.len() implies in_amp_range(
                #[trigger] links@[j] as int,
            ) by {}
        }
        ProgramState { links }
    }
}

/// An input port: when linked, reads `bus[link] * mult / SCALE + bias`
/// (truncated, saturated); when unlinked, it is the constant `bias`.
#[derive(Clone, Copy, PartialEq, Eq, Debug)]
pub struct InPort {
    pub mult: i64,
    pub bias: i64,
    pub link: Option<usize>,
}

impl InPort {
    /// Well-formed against a bus of `bus_len` links: coefficients in range,
    /// link index in bounds.
    pub open spec fn wf(self, bus_len: int) -> bool {
        &&& in_amp_range(self.mult as int)
        &&& in_amp_range(self.bias as int)
        &&& match self.link {
            Some(i) => 0 <= i < bus_len,
            None => true,
        }
    }

    /// The value an input port reads from a bus: the affine transform of the
    /// linked value, or exactly `bias` when unlinked.
    pub open spec fn read_spec(self, links: Seq<i64>) -> int {
        match self.link {
            None => self.bias as int,
            Some(i) => amp_clip(scaled_mul(links[i as int] as int, self.mult as int) + self.bias),
        }
    }

    /// A constant port: always reads `bias`.
    pub fn constant(bias: i64) -> (r: InPort)
        ensures
            r == (InPort { mult: 0i64, bias: bias, link: None::<usize> }),
    {
        InPort { mult: 0, bias, link: None }
    }

    /// A linked port with gain `mult` and offset `bias`.
    pub fn linked(mult: i64, bias: i64, link: usize) -> (r: InPort)
        ensures
            r == (InPort { mult: mult, bias: bias, link: Some(link) }),
    {
        InPort { mult, bias, link: Some(link) }
    }

    /// Reads the port's current value.  Never fails: an unlinked port is the
    /// constant `bias`, a linked port is the saturated affine transform of
    /// the linked bus value.
    pub fn read(&self, state: &ProgramState) -> (r: i64)
        requires
            self.wf(state.links@.len() as int),
            bus_ok(state.links@),
        ensures
            r as int == self.read_spec(state.links@),
            in_amp_range(r as int),
    {
        match self.link {
            None => self.bias,
            Some(i) => sat_add(scale_mul(state.links[i], self.mult), self.bias),
        }
    }
}

/// An output port: writes one link of the bus, or discards the value when
/// unlinked — that is how a disconnected output is represented.
#[derive(Clone, Copy, PartialEq, Eq, Debug)]
pub struct OutPort {
    pub link: Option<usize>,
}

impl OutPort {
    /// Well-formed against a bus of `bus_len` links.
    pub open spec fn wf(self, bus_len: int) -> bool {
        match self.link {
            Some(i) => 0 <= i < bus_len,
            None => true,
        }
    }

    /// The bus after a write: unchanged when unlinked, else with the linked
    /// slot updated.
    pub open spec fn write_spec(self, val: i64, links: Seq<i64>) -> Seq<i64> {
        match self.link {
            None => links,
            Some(i) => links.update(i as int, val),
        }
    }

    /// An unlinked output port.
    pub fn unused() -> (r: OutPort)
        ensures
            r == (OutPort { link: None::<usize> }),
    {
        OutPort { link: None }
    }

    /// An output port writing link `link`.
    pub fn linked(link: usize) -> (r: OutPort)
        ensures
            r == (OutPort { link: Some(link) }),
    {
        OutPort { link: Some(link) }
    }

    /// What an output port reads back from the bus: the linked slot's
    /// current value, or zero when unlinked.
    pub open spec fn read_spec(self, links: Seq<i64>) -> i64 {
        match self.link {
            None => 0i64,
            Some(i) => links[i as int],
        }
    }

    /// Reads the slot this port writes: the linked value, or zero when
    /// unlinked.
    pub fn read(&self, state: &ProgramState) -> (r: i64)
        requires
            self.wf(state.links@.len() as int),
        ensures
            r == self.read_spec(state.links@),
    {
        match self.link {
            Some(i) => state.links[i],
            None => 0,
        }
    }

    /// Writes `val` to the linked slot; silently discards when unlinked.
    pub fn write(&self, val: i64, state: &mut ProgramState)
        requires
            self.wf(old(state).links@.len() as int),
        ensures
            final(state).links@ == self.write_spec(val, old(state).links@),
            final(state).links@.len() == old(state).links@.len(),
    {
        if let Some(i) = self.link {
            state.links.set(i, val);
        }
    }
}

/// What a well-formed input port reads from a well-formed bus lies in the
/// signal range.
pub proof fn lemma_read_spec_in_range(p: InPort, links: Seq<i64>)
    requires
        p.wf(links.len() as int),
        bus_ok(links),
    ensures
        in_amp_range(p.read_spec(links)),
{
}

/// Writing an in-range value through a port keeps the bus well-formed and
/// its length unchanged.
pub proof fn lemma_write_spec_bus_ok(p: OutPort, val: i64, links: Seq<i64>)
    requires
        p.wf(links.len() as int),
        bus_ok(links),
        in_amp_range(val as int),
    ensures
        bus_ok(p.write_spec(val, links)),
        p.write_spec(val, links).len() == links.len(),
{
    match p.link {
        None => {}
        Some(i) => {
            let updated = links.update(i as int, val);
            assert forall|j: int| 0 <= j < updated.len() implies in_amp_range(
                #[trigger] updated[j] as int,
            ) by {
                if j != i as int {
                    assert(updated[j] == links[j]);
                }
            }
        }
    }
}

impl Default for InPort {
    /// The default input port: an unlinked constant zero.
    fn default() -> (r: InPort)
        ensures
            r == (InPort { mult: 0i64, bias: 0i64, link: None::<usize> }),
    {
        InPort { mult: 0, bias: 0, link: None }
    }
}

impl Default for OutPort {
    /// The default output port: unlinked, so writes are discarded.
    fn default() -> (r: OutPort)
        ensures
            r == (OutPort { link: None::<usize> }),
    {
        OutPort { link: None }
    }
}

/// Law: an unlinked input port reads exactly its bias, and a linked one reads
/// the saturated affine transform `bus[link] * mult / SCALE + bias` of the
/// linked value.
pub proof fn law_in_port_read(p: InPort, links: Seq<i64>)
    requires
        p.wf(links.len() as int),
    ensures
        p.link is None ==> p.read_spec(links) == p.bias as int,
        p.link matches Some(i) ==> p.read_spec(links) == amp_clip(
            scaled_mul(links[i as int] as int, p.mult as int) + p.bias,
        ),
{
}

/// Law: a disconnected output port never mutates the bus.
pub proof fn law_unlinked_write_is_noop(p: OutPort, val: i64, links: Seq<i64>)
    requires
        p.link is None,
    ensures
        p.write_spec(val, links) == links,
{
}

} // verus!
