//! The bookkeeping of a rollout. The host runs the loop: while the rollout
//! is running it computes the next state from `current` and hands it to
//! `record`; `finish` then turns the snapshots into an episode record.
use vstd::prelude::*;

use crate::record::{flatten, BatchedEpisodeRecord};
use crate::state::BatchedCartPoleState;

verus! {

/// The snapshots of a rollout so far, starting with the initial state.
pub struct Rollout<T> {
    frames: Vec<BatchedCartPoleState<T>>,
    step: u16,
    max_steps: u16,
    terminated: bool,
}

impl<T: Copy> Rollout<T> {
    pub closed spec fn frames(&self) -> Seq<BatchedCartPoleState<T>> {
        self.frames@
    }

    pub closed spec fn steps_taken(&self) -> nat {
        self.step as nat
    }

    pub closed spec fn horizon(&self) -> nat {
        self.max_steps as nat
    }

    pub closed spec fn has_terminated(&self) -> bool {
        self.terminated
    }

    /// The batch size that every snapshot has.
    pub open spec fn batch(&self) -> nat {
        self.frames()[0].batch_len()
    }

    /// More steps are to be taken: the horizon is not reached and no step
    /// has reported termination.
    pub open spec fn running(&self) -> bool {
        !self.has_terminated() && self.steps_taken() < self.horizon()
    }

    /// One snapshot per step taken plus the initial one, all well formed and
    /// of one batch size, with room for the whole record in memory.
    pub open spec fn wf(&self) -> bool {
        &&& self.frames().len() == self.steps_taken() + 1
        &&& self.steps_taken() <= self.horizon()
        &&& forall|s: int| 0 <= s < self.frames().len() ==> (#[trigger] self.frames()[s]).wf()
        &&& forall|s: int| 0 <= s < self.frames().len() ==> (#[trigger] self.frames()[s]).batch_len() == self.batch()
        &&& (self.horizon() + 1) * self.batch() <= usize::MAX
    }

    /// A rollout of at most `max_steps` steps from `initial`.
    pub fn start(initial: BatchedCartPoleState<T>, max_steps: u16) -> (r: Self)
        requires
            initial.wf(),
            (max_steps + 1) * initial.batch_len() <= usize::MAX,
        ensures
            r.wf(),
            r.frames() == seq![initial],
            r.steps_taken() == 0,
            r.horizon() == max_steps,
            !r.has_terminated(),
    {
        let mut frames: Vec<BatchedCartPoleState<T>> = Vec::new();
        frames.push(initial);
        Rollout { frames, step: 0, max_steps, terminated: false }
    }

    /// Whether more steps are to be taken.
    pub fn is_running(&self) -> (r: bool)
        ensures
            r == self.running(),
    {
        !self.terminated && self.step < self.max_steps
    }

    /// The index of the next step.
    pub fn current_step(&self) -> (r: u16)
        ensures
            r == self.steps_taken(),
    {
        self.step
    }

    /// The latest snapshot.
    pub fn current(&self) -> (r: &BatchedCartPoleState<T>)
        requires
            self.wf(),
        ensures
            r == self.frames().last(),
            r.wf(),
            r.batch_len() == self.batch(),
    {
        let n = self.frames.len();
        &self.frames[n - 1]
    }

    /// Records the state that the next step produced, and whether that step
    /// reported termination.
    pub fn record(&mut self, next: BatchedCartPoleState<T>, terminated: bool)
        requires
            old(self).wf(),
            old(self).running(),
            next.wf(),
            next.batch_len() == old(self).batch(),
        ensures
            final(self).wf(),
            final(self).frames() == old(self).frames().push(next),
            final(self).steps_taken() == old(self).steps_taken() + 1,
            final(self).horizon() == old(self).horizon(),
            final(self).has_terminated() == terminated,
            final(self).batch() == old(self).batch(),
    {
        self.frames.push(next);
        self.step = self.step + 1;
        self.terminated = terminated;
        assert(self.frames()[0] == old(self).frames()[0]);
    }

    /// The episode record of the snapshots taken: one step per snapshot, one
    /// episode per instance.
    pub fn finish(self) -> (r: BatchedEpisodeRecord<T>)
        requires
            self.wf(),
        ensures
            r.wf(),
            r.steps() == self.frames().len(),
            r.episodes() == self.batch(),
            r.positions() == flatten(
                Seq::new(self.frames().len(), |s: int| self.frames()[s].cart_positions@),
                self.batch(),
            ),
            r.angles() == flatten(
                Seq::new(self.frames().len(), |s: int| self.frames()[s].pole_angles@),
                self.batch(),
            ),
    {
        assert(self.frames().len() * self.batch() <= (self.horizon() + 1) * self.batch()) by (nonlinear_arith)
            requires
                self.frames().len() <= self.horizon() + 1,
        ;
        BatchedEpisodeRecord::from_batches(&self.frames)
    }
}

} // verus!
