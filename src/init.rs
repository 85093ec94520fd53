use vstd::prelude::*;

verus! {

/// The guard of the process-wide start-up of the engine, which must run once,
/// before the first engine of any worker is made.
///
/// The host keeps one guard for the whole process, behind a lock, and claims
/// the start-up before it makes an engine.
pub struct EngineInit {
    done: bool,
}

impl View for EngineInit {
    type V = bool;

    /// Whether the start-up has been claimed.
    closed spec fn view(&self) -> bool {
        self.done
    }
}

/// A claim of the start-up on a guard whose state is `done`: whether the
/// claimant is to run it, and the guard's state afterwards.
pub open spec fn claim(done: bool) -> (bool, bool) {
    (!done, true)
}

/// How many of `n` claims made one after the other, from a guard whose state
/// is `done`, are told to run the start-up.
pub open spec fn starts(done: bool, n: nat) -> nat
    decreases n,
{
    if n == 0 {
        0
    } else {
        (if claim(done).0 { 1nat } else { 0nat }) + starts(claim(done).1, (n - 1) as nat)
    }
}

impl EngineInit {
    /// A guard on which the start-up has not run.
    pub fn new() -> (r: EngineInit)
        ensures
            !r@,
    {
        EngineInit { done: false }
    }

    /// Whether the start-up has been claimed.
    pub fn is_done(&self) -> (r: bool)
        ensures
            r == self@,
    {
        self.done
    }

    /// Claims the start-up: true exactly where nobody has claimed it before,
    /// in which case the caller is to run it. Afterwards it counts as run.
    pub fn try_begin(&mut self) -> (r: bool)
        ensures
            (r, final(self)@) == claim(old(self)@),
    {
        let first = !self.done;
        self.done = true;
        first
    }
}

/// However many workers claim the start-up, one after the other, exactly one
/// of them is told to run it where it has not run yet, and none where it has.
pub proof fn lemma_start_up_runs_once(done: bool, n: nat)
    requires
        n > 0,
    ensures
        starts(done, n) == (if done { 0nat } else { 1nat }),
    decreases n,
{
    if n > 1 {
        lemma_start_up_runs_once(true, (n - 1) as nat);
    } else {
        assert(starts(true, 0) == 0);
    }
}

} // verus!
