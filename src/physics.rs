//! The batched cart-pole dynamics, written against the arithmetic of a
//! scalar type that the host supplies.
use vstd::prelude::*;

use crate::policy::{clamped, random_actions};
use crate::record::{flatten, BatchedEpisodeRecord};
use crate::rollout::Rollout;
use crate::state::{BatchedCartPoleState, Instance};

verus! {

/// The arithmetic that the dynamics need, on the host's scalar type. Each
/// operation returns the value of its spec function: the arithmetic is
/// assumed deterministic, the same arguments always giving the same result
/// (an implementation must not, say, return NaN results with varying bits).
/// Nothing is assumed of what the values are.
pub trait ScalarOps {
    type Scalar: Copy;

    spec fn spec_from_int(&self, n: i32) -> Self::Scalar;

    spec fn spec_add(&self, a: Self::Scalar, b: Self::Scalar) -> Self::Scalar;

    spec fn spec_sub(&self, a: Self::Scalar, b: Self::Scalar) -> Self::Scalar;

    spec fn spec_mul(&self, a: Self::Scalar, b: Self::Scalar) -> Self::Scalar;

    spec fn spec_div(&self, a: Self::Scalar, b: Self::Scalar) -> Self::Scalar;

    spec fn spec_sin(&self, a: Self::Scalar) -> Self::Scalar;

    spec fn spec_cos(&self, a: Self::Scalar) -> Self::Scalar;

    spec fn spec_remainder(&self, a: Self::Scalar, m: Self::Scalar) -> Self::Scalar;

    spec fn spec_less_than(&self, a: Self::Scalar, b: Self::Scalar) -> bool;

    /// The scalar nearest to `n`.
    fn from_int(&self, n: i32) -> (r: Self::Scalar)
        ensures
            r == self.spec_from_int(n),
    ;

    fn add(&self, a: Self::Scalar, b: Self::Scalar) -> (r: Self::Scalar)
        ensures
            r == self.spec_add(a, b),
    ;

    fn sub(&self, a: Self::Scalar, b: Self::Scalar) -> (r: Self::Scalar)
        ensures
            r == self.spec_sub(a, b),
    ;

    fn mul(&self, a: Self::Scalar, b: Self::Scalar) -> (r: Self::Scalar)
        ensures
            r == self.spec_mul(a, b),
    ;

    fn div(&self, a: Self::Scalar, b: Self::Scalar) -> (r: Self::Scalar)
        ensures
            r == self.spec_div(a, b),
    ;

    fn sin(&self, a: Self::Scalar) -> (r: Self::Scalar)
        ensures
            r == self.spec_sin(a),
    ;

    fn cos(&self, a: Self::Scalar) -> (r: Self::Scalar)
        ensures
            r == self.spec_cos(a),
    ;

    /// The remainder of `a` divided by `m`, with the sign of `m`: for a
    /// positive `m` it lies neither below zero nor at or above `m`.
    fn remainder(&self, a: Self::Scalar, m: Self::Scalar) -> (r: Self::Scalar)
        ensures
            r == self.spec_remainder(a, m),
            self.spec_less_than(self.spec_from_int(0), m) ==> !self.spec_less_than(r, self.spec_from_int(0))
                && !self.spec_less_than(m, r) && r != m,
    ;

    fn less_than(&self, a: Self::Scalar, b: Self::Scalar) -> (r: bool)
        ensures
            r == self.spec_less_than(a, b),
    ;
}

/// The random policy's actions at each step, from the floors of the draws.
pub open spec fn capped_draws(floor_draws: Seq<Vec<i32>>) -> Seq<Seq<i8>> {
    Seq::new(floor_draws.len(), |t: int| clamped(floor_draws[t]@))
}

/// `a` lies in `[0, m)`: it is neither below zero, nor above `m`, nor `m`.
pub open spec fn in_turn<C: ScalarOps>(ops: &C, a: C::Scalar, m: C::Scalar) -> bool {
    &&& !ops.spec_less_than(a, ops.spec_from_int(0))
    &&& !ops.spec_less_than(m, a)
    &&& a != m
}

/// A full turn, `2 * pi`.
pub open spec fn full_turn_spec<C: ScalarOps>(ops: &C) -> C::Scalar {
    ops.spec_mul(ops.spec_from_int(2), pi_spec(ops))
}

/// The dynamics' value of pi, 3.14159265.
pub open spec fn pi_spec<C: ScalarOps>(ops: &C) -> C::Scalar {
    ops.spec_div(ops.spec_from_int(314159265), ops.spec_from_int(100000000))
}

/// One for an angle strictly between a quarter and three quarters of pi,
/// zero for any other.
pub open spec fn reward_spec<C: ScalarOps>(ops: &C, angle: C::Scalar) -> C::Scalar {
    let pi = pi_spec(ops);
    let lower = ops.spec_div(pi, ops.spec_from_int(4));
    let upper = ops.spec_div(ops.spec_mul(ops.spec_from_int(3), pi), ops.spec_from_int(4));
    if ops.spec_less_than(angle, upper) && ops.spec_less_than(lower, angle) {
        ops.spec_from_int(1)
    } else {
        ops.spec_from_int(0)
    }
}

/// The outcome of one step of every instance of a batch.
pub struct StepResult<S> {
    /// Whether the episode ended; no state ends it, so this is always false.
    pub terminated: bool,
    /// One for each instance whose pole lies strictly inside the balanced
    /// band after the step, zero for the others.
    pub reward: Vec<S>,
    pub observation: BatchedCartPoleState<S>,
}

/// Physical parameters of a cart-pole world.
pub struct CartPoleWorld<S> {
    pub gravity: S,
    pub masscart: S,
    pub masspole: S,
    pub length: S,
    pub force_mag: S,
    pub timestep: S,
    pub max_steps: u16,
}

/// The number of steps of a rollout in a default world.
pub const DEFAULT_MAX_STEPS: u16 = 1000;

impl<S: Copy> CartPoleWorld<S> {
    /// The default world: cart mass 1, pole mass 0.1, pole half-length 0.5,
    /// force 10, timestep 0.02, gravity 9.8 and rollouts of 1000 steps.
    pub fn new<C: ScalarOps<Scalar = S>>(ops: &C) -> (r: Self)
        ensures
            r.masscart == ops.spec_from_int(1),
            r.masspole == ops.spec_div(ops.spec_from_int(1), ops.spec_from_int(10)),
            r.length == ops.spec_div(ops.spec_from_int(5), ops.spec_from_int(10)),
            r.force_mag == ops.spec_from_int(10),
            r.timestep == ops.spec_div(ops.spec_from_int(2), ops.spec_from_int(100)),
            r.gravity == ops.spec_div(ops.spec_from_int(98), ops.spec_from_int(10)),
            r.max_steps == DEFAULT_MAX_STEPS,
    {
        CartPoleWorld {
            masscart: ops.from_int(1),
            masspole: ops.div(ops.from_int(1), ops.from_int(10)),
            length: ops.div(ops.from_int(5), ops.from_int(10)),
            force_mag: ops.from_int(10),
            timestep: ops.div(ops.from_int(2), ops.from_int(100)),
            gravity: ops.div(ops.from_int(98), ops.from_int(10)),
            max_steps: DEFAULT_MAX_STEPS,
        }
    }

    /// One instance after one timestep under `action`, and its reward:
    /// force `action * force_mag`, the dynamics' angle `-angle - pi/2`,
    /// semi-implicit Euler integration, angular velocity damped by 1.02 and
    /// the angle wrapped by the remainder of division by `2 * pi`.
    pub open spec fn step_instance_spec<C: ScalarOps<Scalar = S>>(&self, ops: &C, s: Instance<S>, action: i8) -> (
        Instance<S>,
        S,
    ) {
        let (position, velocity, angle, angular_velocity) = s;
        let pi = pi_spec(ops);
        let force = ops.spec_mul(ops.spec_from_int(action as i32), self.force_mag);
        let theta = ops.spec_sub(ops.spec_mul(angle, ops.spec_from_int(-1i32)), ops.spec_div(pi, ops.spec_from_int(2)));
        let costheta = ops.spec_cos(theta);
        let sintheta = ops.spec_sin(theta);
        let totalmass = ops.spec_add(self.masscart, self.masspole);
        let polemass_length = ops.spec_mul(self.masspole, self.length);
        let spin = ops.spec_mul(
            ops.spec_mul(ops.spec_mul(angular_velocity, angular_velocity), sintheta),
            polemass_length,
        );
        let temp = ops.spec_div(ops.spec_add(force, spin), totalmass);
        let numerator = ops.spec_sub(ops.spec_mul(sintheta, self.gravity), ops.spec_mul(costheta, temp));
        let four_thirds = ops.spec_div(ops.spec_from_int(4), ops.spec_from_int(3));
        let cos_squared = ops.spec_mul(costheta, costheta);
        let denominator = ops.spec_mul(
            ops.spec_sub(four_thirds, ops.spec_div(ops.spec_mul(cos_squared, self.masspole), totalmass)),
            self.length,
        );
        let thetaacc = ops.spec_div(numerator, denominator);
        let xacc = ops.spec_sub(
            temp,
            ops.spec_div(ops.spec_mul(ops.spec_mul(thetaacc, costheta), polemass_length), totalmass),
        );
        let damping = ops.spec_div(ops.spec_from_int(102), ops.spec_from_int(100));
        let next_position = ops.spec_add(position, ops.spec_mul(velocity, self.timestep));
        let next_velocity = ops.spec_add(velocity, ops.spec_mul(xacc, self.timestep));
        let moved_angle = ops.spec_add(angle, ops.spec_mul(angular_velocity, self.timestep));
        let next_angular_velocity = ops.spec_div(
            ops.spec_add(angular_velocity, ops.spec_mul(thetaacc, self.timestep)),
            damping,
        );
        let next_angle = ops.spec_remainder(moved_angle, full_turn_spec(ops));
        ((next_position, next_velocity, next_angle, next_angular_velocity), reward_spec(ops, next_angle))
    }

    /// `after` is `before` with every instance `i` advanced by one timestep
    /// under `actions[i]`.
    pub open spec fn is_step<C: ScalarOps<Scalar = S>>(
        &self,
        ops: &C,
        before: BatchedCartPoleState<S>,
        actions: Seq<i8>,
        after: BatchedCartPoleState<S>,
    ) -> bool {
        &&& after.wf()
        &&& after.batch_len() == before.batch_len()
        &&& actions.len() == before.batch_len()
        &&& forall|i: int|
            0 <= i < after.batch_len() ==> #[trigger] after.instance_at(i) == self.step_instance_spec(
                ops,
                before.instance_at(i),
                actions[i],
            ).0
    }

    /// `frames` starts with `initial` and each later frame is the step of the
    /// one before under that step's actions.
    pub open spec fn is_rollout<C: ScalarOps<Scalar = S>>(
        &self,
        ops: &C,
        initial: BatchedCartPoleState<S>,
        actions: Seq<Seq<i8>>,
        frames: Seq<BatchedCartPoleState<S>>,
    ) -> bool {
        &&& frames.len() == actions.len() + 1
        &&& frames[0] == initial
        &&& forall|t: int| 0 <= t < actions.len() ==> self.is_step(ops, #[trigger] frames[t], actions[t], frames[t + 1])
    }

    /// Advances one instance by one timestep under `action`; returns the new
    /// state and its reward.
    fn step_instance<C: ScalarOps<Scalar = S>>(&self, ops: &C, s: Instance<S>, action: i8) -> (r: (Instance<S>, S))
        ensures
            r == self.step_instance_spec(ops, s, action),
            ops.spec_less_than(ops.spec_from_int(0), full_turn_spec(ops)) ==> in_turn(ops, r.0.2, full_turn_spec(ops)),
    {
        let (position, velocity, angle, angular_velocity) = s;
        let pi = ops.div(ops.from_int(314159265), ops.from_int(100000000));
        let force = ops.mul(ops.from_int(action as i32), self.force_mag);

        // The dynamics measure the angle mirrored and a quarter turn off.
        let theta = ops.sub(ops.mul(angle, ops.from_int(-1)), ops.div(pi, ops.from_int(2)));
        let costheta = ops.cos(theta);
        let sintheta = ops.sin(theta);

        let totalmass = ops.add(self.masscart, self.masspole);
        let polemass_length = ops.mul(self.masspole, self.length);

        let spin = ops.mul(ops.mul(ops.mul(angular_velocity, angular_velocity), sintheta), polemass_length);
        let temp = ops.div(ops.add(force, spin), totalmass);

        let numerator = ops.sub(ops.mul(sintheta, self.gravity), ops.mul(costheta, temp));
        let four_thirds = ops.div(ops.from_int(4), ops.from_int(3));
        let cos_squared = ops.mul(costheta, costheta);
        let denominator = ops.mul(
            ops.sub(four_thirds, ops.div(ops.mul(cos_squared, self.masspole), totalmass)),
            self.length,
        );
        let thetaacc = ops.div(numerator, denominator);
        let xacc = ops.sub(temp, ops.div(ops.mul(ops.mul(thetaacc, costheta), polemass_length), totalmass));

        let damping = ops.div(ops.from_int(102), ops.from_int(100));
        let next_position = ops.add(position, ops.mul(velocity, self.timestep));
        let next_velocity = ops.add(velocity, ops.mul(xacc, self.timestep));
        let moved_angle = ops.add(angle, ops.mul(angular_velocity, self.timestep));
        let next_angular_velocity = ops.div(ops.add(angular_velocity, ops.mul(thetaacc, self.timestep)), damping);
        let next_angle = ops.remainder(moved_angle, ops.mul(ops.from_int(2), pi));

        let lower = ops.div(pi, ops.from_int(4));
        let upper = ops.div(ops.mul(ops.from_int(3), pi), ops.from_int(4));
        let reward = if ops.less_than(next_angle, upper) && ops.less_than(lower, next_angle) {
            ops.from_int(1)
        } else {
            ops.from_int(0)
        };
        ((next_position, next_velocity, next_angle, next_angular_velocity), reward)
    }

    /// Advances every instance of `state` by one timestep, instance `i` under
    /// `actions[i]`, a force of `actions[i] * force_mag`.
    pub fn step<C: ScalarOps<Scalar = S>>(&self, ops: &C, state: BatchedCartPoleState<S>, actions: &Vec<i8>) -> (r:
        StepResult<S>)
        requires
            state.wf(),
            actions@.len() == state.batch_len(),
        ensures
            self.is_step(ops, state, actions@, r.observation),
            r.reward@.len() == state.batch_len(),
            forall|i: int|
                0 <= i < state.batch_len() ==> #[trigger] r.reward@[i] == self.step_instance_spec(
                    ops,
                    state.instance_at(i),
                    actions@[i],
                ).1,
            forall|i: int|
                0 <= i < state.batch_len() ==> #[trigger] r.reward@[i] == reward_spec(ops, r.observation.pole_angles@[i]),
            ops.spec_less_than(ops.spec_from_int(0), full_turn_spec(ops)) ==> forall|i: int|
                0 <= i < state.batch_len() ==> in_turn(ops, #[trigger] r.observation.pole_angles@[i], full_turn_spec(ops)),
            !r.terminated,
    {
        let n = state.pole_angles.len();
        let mut positions: Vec<S> = Vec::new();
        let mut velocities: Vec<S> = Vec::new();
        let mut angles: Vec<S> = Vec::new();
        let mut angular_velocities: Vec<S> = Vec::new();
        let mut reward: Vec<S> = Vec::new();
        let mut i: usize = 0;
        while i < n
            invariant
                state.wf(),
                n == state.batch_len(),
                actions@.len() == n,
                i <= n,
                positions@.len() == i,
                velocities@.len() == i,
                angles@.len() == i,
                angular_velocities@.len() == i,
                reward@.len() == i,
                forall|k: int|
                    0 <= k < i ==> #[trigger] self.step_instance_spec(ops, state.instance_at(k), actions@[k]) == (
                        (positions@[k], velocities@[k], angles@[k], angular_velocities@[k]),
                        reward@[k],
                    ),
                ops.spec_less_than(ops.spec_from_int(0), full_turn_spec(ops)) ==> forall|k: int|
                    0 <= k < i ==> in_turn(ops, #[trigger] angles@[k], full_turn_spec(ops)),
            decreases n - i,
        {
            let s = (
                state.cart_positions[i],
                state.cart_velocities[i],
                state.pole_angles[i],
                state.pole_angular_velocities[i],
            );
            let (next, r) = self.step_instance(ops, s, actions[i]);
            positions.push(next.0);
            velocities.push(next.1);
            angles.push(next.2);
            angular_velocities.push(next.3);
            reward.push(r);
            i = i + 1;
        }
        let ghost angles_view = angles@;
        let observation = BatchedCartPoleState {
            pole_angles: angles,
            pole_angular_velocities: angular_velocities,
            cart_positions: positions,
            cart_velocities: velocities,
        };
        assert forall|k: int| 0 <= k < n implies #[trigger] observation.instance_at(k) == self.step_instance_spec(
            ops,
            state.instance_at(k),
            actions@[k],
        ).0 by {
            assert(self.step_instance_spec(ops, state.instance_at(k), actions@[k]) == (
                (positions@[k], velocities@[k], angles@[k], angular_velocities@[k]),
                reward@[k],
            ));
        }
        assert forall|k: int| 0 <= k < n implies #[trigger] reward@[k] == reward_spec(ops, angles_view[k]) by {
            let out = self.step_instance_spec(ops, state.instance_at(k), actions@[k]);
            assert(out.1 == reward_spec(ops, out.0.2));
            assert(out == ((observation.instance_at(k)), reward@[k]));
        }
        StepResult { terminated: false, reward, observation }
    }

    /// Takes the next step of `rollout` under `actions` and records it.
    pub fn advance<C: ScalarOps<Scalar = S>>(&self, ops: &C, rollout: &mut Rollout<S>, actions: &Vec<i8>)
        requires
            old(rollout).wf(),
            old(rollout).running(),
            actions@.len() == old(rollout).batch(),
        ensures
            final(rollout).wf(),
            final(rollout).batch() == old(rollout).batch(),
            final(rollout).frames() == old(rollout).frames().push(final(rollout).frames().last()),
            self.is_step(ops, old(rollout).frames().last(), actions@, final(rollout).frames().last()),
            final(rollout).steps_taken() == old(rollout).steps_taken() + 1,
            final(rollout).horizon() == old(rollout).horizon(),
            !final(rollout).has_terminated(),
    {
        let state = rollout.current().copied();
        let result = self.step(ops, state, actions);
        rollout.record(result.observation, result.terminated);
    }

    /// A rollout of `max_steps` steps from `initial` under the random policy,
    /// where `floor_draws[t][i]` is the floor of the uniform draw from
    /// `[-1, 2)` for instance `i` at step `t`. The record holds `initial`
    /// and then, for each step, the step of the snapshot before under the
    /// capped draws.
    pub fn random_rollout<C: ScalarOps<Scalar = S>>(
        &self,
        ops: &C,
        initial: BatchedCartPoleState<S>,
        floor_draws: &Vec<Vec<i32>>,
    ) -> (r: BatchedEpisodeRecord<S>)
        requires
            initial.wf(),
            (self.max_steps + 1) * initial.batch_len() <= usize::MAX,
            floor_draws@.len() == self.max_steps,
            forall|t: int| 0 <= t < floor_draws@.len() ==> (#[trigger] floor_draws@[t])@.len() == initial.batch_len(),
            forall|t: int, i: int|
                0 <= t < floor_draws@.len() && 0 <= i < initial.batch_len() ==> -1 <= #[trigger] floor_draws@[t]@[i]
                    <= 2,
        ensures
            r.wf(),
            r.steps() == self.max_steps + 1,
            r.episodes() == initial.batch_len(),
            exists|frames: Seq<BatchedCartPoleState<S>>|
                #[trigger] self.is_rollout(
                    ops,
                    initial,
                    capped_draws(floor_draws@),
                    frames,
                ) && r.positions() == flatten(
                    Seq::new(frames.len(), |s: int| frames[s].cart_positions@),
                    initial.batch_len(),
                ) && r.angles() == flatten(
                    Seq::new(frames.len(), |s: int| frames[s].pole_angles@),
                    initial.batch_len(),
                ),
    {
        let ghost first = initial;
        let ghost acts = capped_draws(floor_draws@);
        let mut rollout = Rollout::start(initial, self.max_steps);
        while rollout.is_running()
            invariant
                rollout.wf(),
                rollout.horizon() == self.max_steps,
                rollout.batch() == first.batch_len(),
                rollout.frames()[0] == first,
                acts == capped_draws(floor_draws@),
                forall|t: int|
                    0 <= t < rollout.steps_taken() ==> self.is_step(
                        ops,
                        #[trigger] rollout.frames()[t],
                        acts[t],
                        rollout.frames()[t + 1],
                    ),
                !rollout.has_terminated(),
                floor_draws@.len() == self.max_steps,
                forall|t: int| 0 <= t < floor_draws@.len() ==> (#[trigger] floor_draws@[t])@.len() == first.batch_len(),
                forall|t: int, i: int|
                    0 <= t < floor_draws@.len() && 0 <= i < first.batch_len() ==> -1 <= #[trigger] floor_draws@[t]@[i]
                        <= 2,
            decreases rollout.horizon() - rollout.steps_taken(),
        {
            let t = rollout.current_step();
            let draws = &floor_draws[t as usize];
            assert forall|i: int| 0 <= i < draws@.len() implies -1 <= #[trigger] draws@[i] <= 2 by {
                assert(floor_draws@[t as int]@[i] == draws@[i]);
            }
            let actions = random_actions(draws);
            assert(actions@ =~= acts[t as int]);
            let ghost before = rollout.frames();
            self.advance(ops, &mut rollout, &actions);
            assert forall|u: int| 0 <= u < rollout.steps_taken() implies self.is_step(
                ops,
                #[trigger] rollout.frames()[u],
                acts[u],
                rollout.frames()[u + 1],
            ) by {
                if u < t {
                    assert(rollout.frames()[u] == before[u]);
                    assert(rollout.frames()[u + 1] == before[u + 1]);
                }
            }
        }
        let ghost frames = rollout.frames();
        let r = rollout.finish();
        assert(self.is_rollout(ops, first, acts, frames));
        r
    }
}

} // verus!
