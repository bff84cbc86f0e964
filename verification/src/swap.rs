//! The hot-swap controller.
//!
//! A single monotonic generation counter names "the currently intended
//! patch".  Each configuration update increments the counter and stamps the
//! new patch with the fresh value; every live patch periodically compares
//! its own tag against the counter (see `Patch::check_stale`) and retires
//! itself on mismatch.  Superseded patches are never force-killed: they stop
//! cooperatively, one poll after being superseded.

use vstd::prelude::*;

verus! {

/// The process-wide generation counter, starting at zero.  The host keeps
/// one of these (behind its atomic of choice) and feeds its value to each
/// patch's staleness check.
pub struct SwapController {
    pub live: u64,
}

impl SwapController {
    /// A fresh controller: no update has happened yet.
    pub fn new() -> (c: SwapController)
        ensures
            c.live == 0,
    {
        SwapController { live: 0 }
    }

    /// Registers one configuration update: increments the live counter and
    /// returns the generation tag to stamp the new patch with — always the
    /// counter's new value, so the newest patch is exactly the current one.
    pub fn register_update(&mut self) -> (g: u64)
        requires
            old(self).live < u64::MAX,
        ensures
            final(self).live == old(self).live + 1,
            g == final(self).live,
    {
        self.live = self.live + 1;
        self.live
    }

    /// The current live generation.
    pub fn current(&self) -> (g: u64)
        ensures
            g == self.live,
    {
        self.live
    }

    /// Whether a patch stamped with `generation` is the currently intended
    /// one.
    pub fn is_current(&self, generation: u64) -> (r: bool)
        ensures
            r == (generation == self.live),
    {
        generation == self.live
    }
}

/// Law: after `m` updates from a counter at `g0`, the tags handed out are
/// `g0 + 1 .. g0 + m` in order, and exactly the `m`th — the newest — equals
/// the live counter `g0 + m`; every earlier patch's tag differs from it.
pub proof fn law_only_newest_generation_current(g0: int, m: int, k: int)
    requires
        0 <= k < m,
    ensures
        (g0 + k + 1 == g0 + m) <==> (k == m - 1),
{
}

/// Law: a staleness check retires exactly the superseded patches: one whose
/// tag differs from the live counter is marked stopped, one whose tag still
/// matches (and was not already stopped) keeps playing.  This is the
/// condition `Patch::check_stale` establishes.
pub proof fn law_stale_check_retires(was_stopped: bool, generation: u64, live: u64)
    ensures
        generation != live ==> (was_stopped || generation != live),
        generation == live && !was_stopped ==> !(was_stopped || generation != live),
{
}

} // verus!
