//! The patch: a fixed pool of voices, the polyphonic key-routing policy,
//! and the generation tag used for hot patch replacement.
//!
//! Allocation policy: a key-down takes the first free slot in ascending
//! index order, or is silently dropped when the pool is exhausted (no voice
//! stealing); a key-up frees the first slot assigned to that key, or is a
//! silent no-op for an unknown key.  One mixed pull first drains all queued
//! events, then averages one interlaced pull from every voice.

use vstd::prelude::*;

verus! {

use crate::fixed::{div_trunc, div_trunc_spec, in_amp_range, AMP_MAX};
use crate::serialized::{def_wf, PatchDefinition, PatchError, NUM_LINKS};
use crate::voice::{
    event_wf, view_process_event, view_pull, views_of, lemma_views_of_update, Program,
    ProgramView, SynthInputEvent,
};

/// The polyphony pool size: each patch owns this many voices.
pub const NUM_VOICES: usize = 8;

/// The first index at or after `i` whose slot holds `target`, if any.
pub open spec fn find_slot(assigns: Seq<Option<u8>>, target: Option<u8>, i: int) -> Option<int>
    decreases assigns.len() - i,
{
    if i < 0 || i >= assigns.len() {
        None
    } else if assigns[i] == target {
        Some(i)
    } else {
        find_slot(assigns, target, i + 1)
    }
}

/// What `find_slot` finds: the first matching index at or after `i`, with
/// nothing matching before it; or nothing matching at all.
pub proof fn lemma_find_slot_props(assigns: Seq<Option<u8>>, target: Option<u8>, i: int)
    requires
        0 <= i <= assigns.len(),
    ensures
        match find_slot(assigns, target, i) {
            Some(j) => {
                &&& i <= j < assigns.len()
                &&& assigns[j] == target
                &&& forall|k: int| i <= k < j ==> assigns[k] != target
            }
            None => forall|k: int| i <= k < assigns.len() ==> assigns[k] != target,
        },
    decreases assigns.len() - i,
{
    if i < assigns.len() && assigns[i] != target {
        lemma_find_slot_props(assigns, target, i + 1);
    }
}

/// The mathematical state of a patch: the voice views, the assignment
/// table, the generation tag, and whether the patch has retired itself.
pub struct PatchView {
    pub voices: Seq<ProgramView>,
    pub assigns: Seq<Option<u8>>,
    pub generation: u64,
    pub stopped: bool,
}

/// One note event routed through the allocation policy, at the view level.
pub open spec fn patch_handle_event(pv: PatchView, e: SynthInputEvent) -> PatchView {
    match e {
        SynthInputEvent::KeyDown { key, freq } => {
            match find_slot(pv.assigns, None, 0) {
                Some(i) => PatchView {
                    voices: pv.voices.update(i, view_process_event(pv.voices[i], e)),
                    assigns: pv.assigns.update(i, Some(key)),
                    generation: pv.generation,
                    stopped: pv.stopped,
                },
                None => pv,
            }
        }
        SynthInputEvent::KeyUp { key } => {
            match find_slot(pv.assigns, Some(key), 0) {
                Some(i) => PatchView {
                    voices: pv.voices.update(i, view_process_event(pv.voices[i], e)),
                    assigns: pv.assigns.update(i, None),
                    generation: pv.generation,
                    stopped: pv.stopped,
                },
                None => pv,
            }
        }
    }
}

/// The first `j` events of a queue routed in order.
pub open spec fn apply_events(pv: PatchView, evs: Seq<SynthInputEvent>, j: int) -> PatchView
    decreases j,
{
    if j <= 0 {
        pv
    } else {
        patch_handle_event(apply_events(pv, evs, j - 1), evs[j - 1])
    }
}

/// The first `j` voices each pulled once: the updated voice views and the
/// sum of the pulled samples.
pub open spec fn pull_all(voices: Seq<ProgramView>, j: int) -> (Seq<ProgramView>, int)
    decreases j,
{
    if j <= 0 {
        (voices, 0)
    } else {
        let prev = pull_all(voices, j - 1);
        let p = view_pull(prev.0[j - 1]);
        (prev.0.update(j - 1, p.0), prev.1 + p.1 as int)
    }
}

/// A live patch: the voice pool, the parallel assignment table, the
/// generation tag stamped at construction, and the cooperative stop flag.
pub struct Patch {
    pub voices: Vec<Program>,
    pub voice_assignments: Vec<Option<u8>>,
    pub generation: u64,
    pub stopped: bool,
}

impl View for Patch {
    type V = PatchView;

    open spec fn view(&self) -> PatchView {
        PatchView {
            voices: views_of(self.voices@),
            assigns: self.voice_assignments@,
            generation: self.generation,
            stopped: self.stopped,
        }
    }
}

fn vec_index_mut<T>(vec: &mut Vec<T>, i: usize) -> (element: &mut T)
    requires
        i < old(vec).len(),
    ensures
        *element == old(vec)@[i as int],
        final(vec)@ == old(vec)@.update(i as int, *final(element)),
{
    &mut vec[i]
}

fn find_free(assigns: &Vec<Option<u8>>) -> (r: Option<usize>)
    ensures
        match r {
            Some(i) => 0 <= i < assigns@.len() && find_slot(assigns@, None::<u8>, 0) == Some(
                i as int,
            ),
            None => find_slot(assigns@, None::<u8>, 0) is None,
        },
{
    let n = assigns.len();
    let mut i: usize = 0;
    while i < n
        invariant
            i <= n,
            n == assigns@.len(),
            find_slot(assigns@, None::<u8>, 0) == find_slot(assigns@, None::<u8>, i as int),
        decreases n - i,
    {
        let hit = match assigns[i] {
            None => true,
            Some(_) => false,
        };
        if hit {
            return Some(i);
        }
        i = i + 1;
    }
    None
}

fn find_assigned(assigns: &Vec<Option<u8>>, key: u8) -> (r: Option<usize>)
    ensures
        match r {
            Some(i) => 0 <= i < assigns@.len() && find_slot(assigns@, Some(key), 0) == Some(
                i as int,
            ),
            None => find_slot(assigns@, Some(key), 0) is None,
        },
{
    let n = assigns.len();
    let mut i: usize = 0;
    while i < n
        invariant
            i <= n,
            n == assigns@.len(),
            find_slot(assigns@, Some(key), 0) == find_slot(assigns@, Some(key), i as int),
        decreases n - i,
    {
        let hit = match assigns[i] {
            None => false,
            Some(k) => k == key,
        };
        if hit {
            return Some(i);
        }
        i = i + 1;
    }
    None
}

impl Patch {
    /// The patch's invariant: a full pool of well-formed voices with a
    /// parallel assignment table.
    pub open spec fn wf(self) -> bool {
        &&& self.voices@.len() == NUM_VOICES
        &&& self.voice_assignments@.len() == NUM_VOICES
        &&& forall|k: int| 0 <= k < self.voices@.len() ==> (#[trigger] self.voices@[k]).wf()
    }

    /// Builds a patch from a definition, stamped with `generation`: a pool
    /// of `NUM_VOICES` independent voices, each a fresh instance of the same
    /// node graph, all slots unassigned, not stopped.  Exactly the
    /// well-formed definitions are accepted.
    pub fn new(def: &PatchDefinition, generation: u64) -> (r: Result<Patch, PatchError>)
        ensures
            r is Ok <==> def_wf(*def),
            r matches Ok(p) ==> {
                &&& p@.voices.len() == NUM_VOICES
                &&& forall|k: int|
                    0 <= k < NUM_VOICES ==> #[trigger] p@.voices[k] == (ProgramView {
                        links: Seq::new(NUM_LINKS as nat, |i: int| 0i64),
                        nodes: def.nodes@,
                        io: def.io,
                        pending: None::<i64>,
                    })
                &&& p@.assigns == Seq::new(NUM_VOICES as nat, |i: int| None::<u8>)
                &&& p@.generation == generation
                &&& !p@.stopped
                &&& p.wf()
            },
            r is Err ==> r == Err::<Patch, PatchError>(PatchError::InvalidDefinition),
    {
        let mut voices: Vec<Program> = Vec::new();
        let mut assigns: Vec<Option<u8>> = Vec::new();
        let mut i: usize = 0;
        while i < NUM_VOICES
            invariant
                i <= NUM_VOICES,
                voices@.len() == i,
                assigns@.len() == i,
                i > 0 ==> def_wf(*def),
                forall|k: int| 0 <= k < i ==> (#[trigger] voices@[k]).wf(),
                forall|k: int|
                    0 <= k < i ==> #[trigger] voices@[k]@ == (ProgramView {
                        links: Seq::new(NUM_LINKS as nat, |j: int| 0i64),
                        nodes: def.nodes@,
                        io: def.io,
                        pending: None::<i64>,
                    }),
                forall|k: int| 0 <= k < i ==> assigns@[k] == None::<u8>,
            decreases NUM_VOICES - i,
        {
            match Program::new(def) {
                Ok(v) => voices.push(v),
                Err(e) => {
                    return Err(e);
                }
            }
            assigns.push(None);
            i = i + 1;
        }
        proof {
            assert(assigns@ =~= Seq::new(NUM_VOICES as nat, |i: int| None::<u8>));
        }
        Ok(Patch { voices, voice_assignments: assigns, generation, stopped: false })
    }

    /// Routes one note event: a key-down claims the first free slot (or is
    /// silently dropped when none is free — there is no voice stealing); a
    /// key-up releases the first slot assigned to the key (or is a silent
    /// no-op).  Exactly the touched voice and slot change.
    pub fn handle_event(&mut self, event: SynthInputEvent)
        requires
            old(self).wf(),
            event_wf(event),
        ensures
            final(self)@ == patch_handle_event(old(self)@, event),
            final(self).wf(),
    {
        match event {
            SynthInputEvent::KeyDown { key, freq: _ } => {
                let slot = find_free(&self.voice_assignments);
                if let Some(i) = slot {
                    let voice = vec_index_mut(&mut self.voices, i);
                    voice.process_event(event);
                    self.voice_assignments.set(i, Some(key));
                    proof {
                        lemma_views_of_update(
                            old(self).voices@,
                            i as int,
                            self.voices@[i as int],
                        );
                    }
                }
            }
            SynthInputEvent::KeyUp { key } => {
                let slot = find_assigned(&self.voice_assignments, key);
                if let Some(i) = slot {
                    let voice = vec_index_mut(&mut self.voices, i);
                    voice.process_event(event);
                    self.voice_assignments.set(i, None);
                    proof {
                        lemma_views_of_update(
                            old(self).voices@,
                            i as int,
                            self.voices@[i as int],
                        );
                    }
                }
            }
        }
    }

    /// Drains a queue of note events in order, then produces one mixed
    /// sample: the arithmetic mean (truncated toward zero) of one
    /// interlaced pull from every voice, active or not — an idle voice
    /// contributes silence once its envelope has decayed.
    pub fn next(&mut self, events: &Vec<SynthInputEvent>) -> (s: i64)
        requires
            old(self).wf(),
            forall|k: int| 0 <= k < events@.len() ==> event_wf(#[trigger] events@[k]),
        ensures
            ({
                let drained = apply_events(old(self)@, events@, events@.len() as int);
                let mixed = pull_all(drained.voices, NUM_VOICES as int);
                &&& final(self)@.voices == mixed.0
                &&& final(self)@.assigns == drained.assigns
                &&& final(self)@.generation == old(self)@.generation
                &&& final(self)@.stopped == old(self)@.stopped
                &&& s as int == div_trunc_spec(mixed.1, NUM_VOICES as int)
            }),
            final(self).wf(),
    {
        let ghost pv0 = self@;
        let m = events.len();
        let mut j: usize = 0;
        while j < m
            invariant
                j <= m,
                m == events@.len(),
                forall|k: int| 0 <= k < events@.len() ==> event_wf(#[trigger] events@[k]),
                self@ == apply_events(pv0, events@, j as int),
                self.generation == pv0.generation,
                self.stopped == pv0.stopped,
                self.wf(),
            decreases m - j,
        {
            self.handle_event(events[j]);
            j = j + 1;
        }

        let ghost drained = self@;
        let mut sum: i64 = 0;
        let mut i: usize = 0;
        while i < NUM_VOICES
            invariant
                i <= NUM_VOICES,
                self.wf(),
                self.voice_assignments@ == drained.assigns,
                self.generation == drained.generation,
                self.stopped == drained.stopped,
                views_of(self.voices@) == pull_all(drained.voices, i as int).0,
                sum as int == pull_all(drained.voices, i as int).1,
                -(i as int) * (AMP_MAX as int) <= sum as int,
                sum as int <= (i as int) * (AMP_MAX as int),
            decreases NUM_VOICES - i,
        {
            let ghost voices_before = self.voices@;
            let voice = vec_index_mut(&mut self.voices, i);
            let p = voice.next();
            proof {
                lemma_views_of_update(voices_before, i as int, self.voices@[i as int]);
            }
            sum = sum + p;
            i = i + 1;
        }
        div_trunc(sum, NUM_VOICES as i64)
    }

    /// The cooperative staleness check: compares the stamped generation tag
    /// against the live counter and retires the patch on mismatch.  Once
    /// stopped, a patch stays stopped; the current patch is never stopped by
    /// this check.
    pub fn check_stale(&mut self, live_generation: u64)
        ensures
            final(self).stopped == (old(self).stopped || old(self).generation != live_generation),
            final(self).voices == old(self).voices,
            final(self).voice_assignments == old(self).voice_assignments,
            final(self).generation == old(self).generation,
    {
        if self.generation != live_generation {
            self.stopped = true;
        }
    }

    /// Whether the patch has retired itself.
    pub fn is_stopped(&self) -> (r: bool)
        ensures
            r == self.stopped,
    {
        self.stopped
    }
}

/// Law: a key-down arriving when every slot is taken is silently dropped —
/// the patch is left exactly as it was; there is no voice stealing.
pub proof fn law_keydown_full_pool_dropped(pv: PatchView, key: u8, freq: i64)
    requires
        forall|k: int| 0 <= k < pv.assigns.len() ==> (#[trigger] pv.assigns[k]) is Some,
    ensures
        patch_handle_event(pv, SynthInputEvent::KeyDown { key, freq }) == pv,
{
    lemma_find_slot_props(pv.assigns, None, 0);
    match find_slot(pv.assigns, None, 0) {
        Some(j) => {
            assert(pv.assigns[j] is Some);
            assert(false);
        }
        None => {}
    }
}

/// Law: a key-down with a free slot claims exactly the first free slot
/// `i` — that slot becomes assigned to the key and that voice receives the
/// event, while every other slot and voice is untouched.
pub proof fn law_keydown_takes_first_free(pv: PatchView, key: u8, freq: i64, i: int)
    requires
        0 <= i < pv.assigns.len(),
        pv.assigns[i] is None,
        forall|k: int| 0 <= k < i ==> (#[trigger] pv.assigns[k]) is Some,
    ensures
        ({
            let pv2 = patch_handle_event(pv, SynthInputEvent::KeyDown { key, freq });
            &&& pv2.assigns == pv.assigns.update(i, Some(key))
            &&& pv2.voices == pv.voices.update(
                i,
                view_process_event(pv.voices[i], SynthInputEvent::KeyDown { key, freq }),
            )
            &&& forall|k: int|
                0 <= k < pv.assigns.len() && k != i ==> pv2.assigns[k] == pv.assigns[k]
        }),
{
    lemma_find_slot_props(pv.assigns, None, 0);
    match find_slot(pv.assigns, None, 0) {
        Some(j) => {
            if j < i {
                assert(pv.assigns[j] is Some);
            }
            if i < j {
                assert(pv.assigns[i] != None::<u8>);
            }
            assert(j == i);
        }
        None => {
            assert(pv.assigns[i] != None::<u8>);
            assert(false);
        }
    }
}

/// Law: a key-up for a key no slot is assigned to — for example one whose
/// key-down was dropped at pool exhaustion — is a silent no-op.
pub proof fn law_keyup_unknown_key_noop(pv: PatchView, key: u8)
    requires
        forall|k: int| 0 <= k < pv.assigns.len() ==> (#[trigger] pv.assigns[k]) != Some(key),
    ensures
        patch_handle_event(pv, SynthInputEvent::KeyUp { key }) == pv,
{
    lemma_find_slot_props(pv.assigns, Some(key), 0);
    match find_slot(pv.assigns, Some(key), 0) {
        Some(j) => {
            assert(pv.assigns[j] == Some(key));
            assert(false);
        }
        None => {}
    }
}

/// Law: a key-up for an assigned key frees exactly the first slot assigned
/// to it and routes the event to exactly that voice; no other slot or voice
/// changes.
pub proof fn law_keyup_frees_exactly_one(pv: PatchView, key: u8, i: int)
    requires
        0 <= i < pv.assigns.len(),
        pv.assigns[i] == Some(key),
        forall|k: int| 0 <= k < i ==> (#[trigger] pv.assigns[k]) != Some(key),
    ensures
        ({
            let pv2 = patch_handle_event(pv, SynthInputEvent::KeyUp { key });
            &&& pv2.assigns == pv.assigns.update(i, None::<u8>)
            &&& pv2.voices == pv.voices.update(
                i,
                view_process_event(pv.voices[i], SynthInputEvent::KeyUp { key }),
            )
            &&& forall|k: int|
                0 <= k < pv.assigns.len() && k != i ==> pv2.assigns[k] == pv.assigns[k]
        }),
{
    lemma_find_slot_props(pv.assigns, Some(key), 0);
    match find_slot(pv.assigns, Some(key), 0) {
        Some(j) => {
            if j < i {
                assert(pv.assigns[j] != Some(key));
            }
            if i < j {
                assert(pv.assigns[i] != Some(key));
            }
            assert(j == i);
        }
        None => {
            assert(pv.assigns[i] != Some(key));
            assert(false);
        }
    }
}

} // verus!
