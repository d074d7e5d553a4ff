use vstd::arithmetic::div_mod::{lemma_fundamental_div_mod, lemma_fundamental_div_mod_converse, lemma_mod_pos_bound};
use vstd::prelude::*;

use crate::state::BatchedCartPoleState;

verus! {

/// Concatenation of `rows`, each of which has length `width`: entry
/// `step * width + episode` is `rows[step][episode]`.
pub open spec fn flatten<T>(rows: Seq<Seq<T>>, width: nat) -> Seq<T> {
    Seq::new(rows.len() * width, |k: int| rows[k / width as int][k % width as int])
}

/// The entries of episode `episode` in a step-major array with `width`
/// episodes per step and `steps` steps.
pub open spec fn stride<T>(flat: Seq<T>, width: nat, steps: nat, episode: int) -> Seq<T> {
    Seq::new(steps, |s: int| flat[s * width + episode])
}

/// Interleaves per-episode sequences of length `steps` into one step-major
/// array: entry `step * n + episode` is `episodes[episode][step]`.
pub open spec fn interleave<T>(episodes: Seq<Seq<T>>, steps: nat) -> Seq<T> {
    Seq::new(steps * episodes.len(), |k: int| episodes[k % episodes.len() as int][k / episodes.len() as int])
}

/// The time series of one episode.
pub struct EpisodeRecording<T> {
    pub cart_positions: Vec<T>,
    pub pole_angles: Vec<T>,
}

/// The error of an episode query.
#[derive(Clone, Copy, Debug, PartialEq, Eq, Structural)]
pub enum RecordError {
    /// The episode index is not below the number of episodes.
    InvalidEpisodeIndex,
}

/// The cart positions and pole angles of a whole rollout, step-major: the
/// entry of episode `e` at step `s` has index `s * episode_count + e`.
pub struct BatchedEpisodeRecord<T> {
    cart_positions: Vec<T>,
    pole_angles: Vec<T>,
    episode_count: usize,
    total_steps: usize,
}

impl<T: Copy> BatchedEpisodeRecord<T> {
    pub closed spec fn positions(&self) -> Seq<T> {
        self.cart_positions@
    }

    pub closed spec fn angles(&self) -> Seq<T> {
        self.pole_angles@
    }

    pub closed spec fn episodes(&self) -> nat {
        self.episode_count as nat
    }

    pub closed spec fn steps(&self) -> nat {
        self.total_steps as nat
    }

    /// Both arrays hold exactly one entry per step and episode.
    pub open spec fn wf(&self) -> bool {
        &&& self.positions().len() == self.steps() * self.episodes()
        &&& self.angles().len() == self.steps() * self.episodes()
    }

    /// The cart positions of episode `e`, one per step.
    pub open spec fn episode_positions(&self, e: int) -> Seq<T> {
        stride(self.positions(), self.episodes(), self.steps(), e)
    }

    /// The pole angles of episode `e`, one per step.
    pub open spec fn episode_angles(&self, e: int) -> Seq<T> {
        stride(self.angles(), self.episodes(), self.steps(), e)
    }

    /// The number of episodes, which is the batch size.
    pub fn len(&self) -> (r: usize)
        ensures
            r == self.episodes(),
    {
        self.episode_count
    }

    /// The number of episodes, which is the batch size.
    pub fn episode_count(&self) -> (r: usize)
        ensures
            r == self.episodes(),
    {
        self.episode_count
    }

    /// The number of recorded snapshots.
    pub fn total_steps(&self) -> (r: usize)
        ensures
            r == self.steps(),
    {
        self.total_steps
    }

    /// The flat step-major cart positions.
    pub fn cart_positions(&self) -> (r: &Vec<T>)
        ensures
            r@ == self.positions(),
    {
        &self.cart_positions
    }

    /// The flat step-major pole angles.
    pub fn pole_angles(&self) -> (r: &Vec<T>)
        ensures
            r@ == self.angles(),
    {
        &self.pole_angles
    }

    /// Flattens a sequence of snapshots of one batch size into a record with
    /// one step per snapshot and one episode per instance.
    pub fn from_batches(observations: &Vec<BatchedCartPoleState<T>>) -> (r: Self)
        requires
            observations@.len() > 0,
            forall|s: int| 0 <= s < observations@.len() ==> (#[trigger] observations@[s]).wf(),
            forall|s: int|
                0 <= s < observations@.len() ==> (#[trigger] observations@[s]).batch_len()
                    == observations@[0].batch_len(),
            observations@.len() * observations@[0].batch_len() <= usize::MAX,
        ensures
            r.wf(),
            r.steps() == observations@.len(),
            r.episodes() == observations@[0].batch_len(),
            r.positions() == flatten(
                Seq::new(observations@.len(), |s: int| observations@[s].cart_positions@),
                observations@[0].batch_len(),
            ),
            r.angles() == flatten(
                Seq::new(observations@.len(), |s: int| observations@[s].pole_angles@),
                observations@[0].batch_len(),
            ),
    {
        let num_steps = observations.len();
        let batch_size = observations[0].pole_angles.len();
        let ghost obs = observations@;
        let ghost n = batch_size as int;
        let ghost crows = Seq::new(obs.len(), |s: int| obs[s].cart_positions@);
        let ghost prows = Seq::new(obs.len(), |s: int| obs[s].pole_angles@);
        let mut c: Vec<T> = Vec::new();
        let mut p: Vec<T> = Vec::new();
        let mut s: usize = 0;
        while s < num_steps
            invariant
                num_steps == obs.len(),
                n == batch_size,
                n == obs[0].batch_len(),
                obs == observations@,
                crows == Seq::new(obs.len(), |s: int| obs[s].cart_positions@),
                prows == Seq::new(obs.len(), |s: int| obs[s].pole_angles@),
                forall|t: int| 0 <= t < obs.len() ==> (#[trigger] obs[t]).wf(),
                forall|t: int| 0 <= t < obs.len() ==> (#[trigger] obs[t]).batch_len() == n,
                s <= num_steps,
                c@.len() == s * n,
                p@.len() == s * n,
                forall|k: int| 0 <= k < c@.len() ==> #[trigger] c@[k] == crows[k / n][k % n],
                forall|k: int| 0 <= k < p@.len() ==> #[trigger] p@[k] == prows[k / n][k % n],
            decreases num_steps - s,
        {
            let row = &observations[s];
            let mut e: usize = 0;
            while e < batch_size
                invariant
                    n == batch_size,
                    row.wf(),
                    row.batch_len() == n,
                    crows[s as int] == row.cart_positions@,
                    prows[s as int] == row.pole_angles@,
                    s < num_steps,
                    e <= batch_size,
                    c@.len() == s * n + e,
                    p@.len() == s * n + e,
                    forall|k: int| 0 <= k < c@.len() ==> #[trigger] c@[k] == crows[k / n][k % n],
                    forall|k: int| 0 <= k < p@.len() ==> #[trigger] p@[k] == prows[k / n][k % n],
                decreases batch_size - e,
            {
                proof {
                    lemma_fundamental_div_mod_converse(s * n + e, n, s as int, e as int);
                }
                c.push(row.cart_positions[e]);
                p.push(row.pole_angles[e]);
                e = e + 1;
            }
            assert((s + 1) * n == s * n + n) by (nonlinear_arith);
            s = s + 1;
        }
        assert(c@ =~= flatten(crows, n as nat));
        assert(p@ =~= flatten(prows, n as nat));
        BatchedEpisodeRecord {
            cart_positions: c,
            pole_angles: p,
            episode_count: batch_size,
            total_steps: num_steps,
        }
    }

    /// The time series of episode `episode`. Every index from the number of
    /// episodes on is rejected, so no query reads past the arrays.
    pub fn get_episode(&self, episode: usize) -> (r: Result<EpisodeRecording<T>, RecordError>)
        requires
            self.wf(),
        ensures
            match r {
                Ok(rec) => {
                    &&& episode < self.episodes()
                    &&& rec.cart_positions@ == self.episode_positions(episode as int)
                    &&& rec.pole_angles@ == self.episode_angles(episode as int)
                },
                Err(err) => episode >= self.episodes() && err == RecordError::InvalidEpisodeIndex,
            },
    {
        if episode >= self.episode_count {
            return Err(RecordError::InvalidEpisodeIndex);
        }
        let steps = self.total_steps;
        let n = self.episode_count;
        let total = self.cart_positions.len();
        let mut c: Vec<T> = Vec::new();
        let mut p: Vec<T> = Vec::new();
        let mut i: usize = 0;
        while i < steps
            invariant
                self.wf(),
                steps == self.steps(),
                n == self.episodes(),
                episode < n,
                total == steps * n,
                i <= steps,
                c@ == self.episode_positions(episode as int).take(i as int),
                p@ == self.episode_angles(episode as int).take(i as int),
            decreases steps - i,
        {
            assert(i * n + episode < steps * n) by (nonlinear_arith)
                requires
                    i < steps,
                    episode < n,
            ;
            let index = i * n + episode;
            c.push(self.cart_positions[index]);
            p.push(self.pole_angles[index]);
            i = i + 1;
            assert(c@ =~= self.episode_positions(episode as int).take(i as int));
            assert(p@ =~= self.episode_angles(episode as int).take(i as int));
        }
        assert(c@ =~= self.episode_positions(episode as int));
        assert(p@ =~= self.episode_angles(episode as int));
        Ok(EpisodeRecording { cart_positions: c, pole_angles: p })
    }
}

/// Interleaving `stride(flat, n, steps, e)` for every episode `e < n` gives
/// back `flat`, for any step-major array of `steps * n` entries.
pub proof fn lemma_interleave_strides<T>(flat: Seq<T>, n: nat, steps: nat)
    requires
        flat.len() == steps * n,
    ensures
        forall|e: int| 0 <= e < n ==> (#[trigger] stride(flat, n, steps, e)).len() == steps,
        interleave(Seq::new(n, |e: int| stride(flat, n, steps, e)), steps) == flat,
{
    let eps = Seq::new(n, |e: int| stride(flat, n, steps, e));
    let r = interleave(eps, steps);
    assert forall|k: int| 0 <= k < flat.len() implies r[k] == flat[k] by {
        if n == 0 {
            assert(steps * n == 0);
        }
        lemma_fundamental_div_mod(k, n as int);
        lemma_mod_pos_bound(k, n as int);
        let q = k / n as int;
        if q >= steps {
            assert(n * q >= n * steps) by (nonlinear_arith)
                requires
                    q >= steps,
                    n > 0,
            ;
            assert(n * steps == steps * n) by (nonlinear_arith);
            assert(k >= flat.len());
        }
        assert(0 <= q) by {
            if q < 0 {
                assert(n * q < 0) by (nonlinear_arith)
                    requires
                        q < 0,
                        n > 0,
                ;
            }
        }
        assert(q * n == n * q) by (nonlinear_arith);
        assert(q < steps);
        let e = k % n as int;
        assert(eps[e] == stride(flat, n, steps, e));
        assert(eps[e][q] == flat[q * n + e]);
        assert(r[k] == eps[e][q]);
    }
    assert(r =~= flat);
}

/// The strided episode `e` of rows flattened with width `width` holds, at
/// each step, entry `e` of that step's row.
pub proof fn lemma_stride_of_flatten<T>(rows: Seq<Seq<T>>, width: nat, e: int)
    requires
        0 <= e < width,
    ensures
        stride(flatten(rows, width), width, rows.len(), e) == Seq::new(rows.len(), |s: int| rows[s][e]),
{
    let flat = flatten(rows, width);
    let lhs = stride(flat, width, rows.len(), e);
    assert forall|s: int| 0 <= s < rows.len() implies lhs[s] == rows[s][e] by {
        lemma_fundamental_div_mod_converse(s * width + e, width as int, s, e);
        assert(s * width + e < rows.len() * width) by (nonlinear_arith)
            requires
                0 <= s < rows.len(),
                0 <= e < width,
        ;
    }
    assert(lhs =~= Seq::new(rows.len(), |s: int| rows[s][e]));
}

impl<T: Copy> BatchedEpisodeRecord<T> {
    /// Reassembling the episodes that `get_episode` returns, one entry of each
    /// per step, gives back the record's flat arrays; each episode has one
    /// entry per step.
    pub proof fn lemma_episodes_round_trip(&self)
        requires
            self.wf(),
        ensures
            forall|e: int| 0 <= e < self.episodes() ==> (#[trigger] self.episode_positions(e)).len() == self.steps(),
            forall|e: int| 0 <= e < self.episodes() ==> (#[trigger] self.episode_angles(e)).len() == self.steps(),
            interleave(Seq::new(self.episodes(), |e: int| self.episode_positions(e)), self.steps())
                == self.positions(),
            interleave(Seq::new(self.episodes(), |e: int| self.episode_angles(e)), self.steps())
                == self.angles(),
    {
        lemma_interleave_strides(self.positions(), self.episodes(), self.steps());
        lemma_interleave_strides(self.angles(), self.episodes(), self.steps());
        assert(Seq::new(self.episodes(), |e: int| self.episode_positions(e))
            =~= Seq::new(self.episodes(), |e: int| stride(self.positions(), self.episodes(), self.steps(), e)));
        assert(Seq::new(self.episodes(), |e: int| self.episode_angles(e))
            =~= Seq::new(self.episodes(), |e: int| stride(self.angles(), self.episodes(), self.steps(), e)));
    }
}

} // verus!
