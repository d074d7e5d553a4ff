use cartpole::physics::{CartPoleWorld, ScalarOps, DEFAULT_MAX_STEPS};
use cartpole::policy::{
    epsilon_greedy_actions, first_argmax, greedy_action, greedy_actions, order_key, random_action, random_actions,
};
use cartpole::record::{BatchedEpisodeRecord, RecordError};
use cartpole::rollout::Rollout;
use cartpole::state::{BatchedCartPoleState, DEFAULT_BATCH_SIZE};

struct F32Ops;

impl ScalarOps for F32Ops {
    type Scalar = f32;

    fn spec_from_int(&self, n: i32) -> f32 {
        self.from_int(n)
    }

    fn spec_add(&self, a: f32, b: f32) -> f32 {
        self.add(a, b)
    }

    fn spec_sub(&self, a: f32, b: f32) -> f32 {
        self.sub(a, b)
    }

    fn spec_mul(&self, a: f32, b: f32) -> f32 {
        self.mul(a, b)
    }

    fn spec_div(&self, a: f32, b: f32) -> f32 {
        self.div(a, b)
    }

    fn spec_sin(&self, a: f32) -> f32 {
        self.sin(a)
    }

    fn spec_cos(&self, a: f32) -> f32 {
        self.cos(a)
    }

    fn spec_remainder(&self, a: f32, m: f32) -> f32 {
        self.remainder(a, m)
    }

    fn spec_less_than(&self, a: f32, b: f32) -> bool {
        self.less_than(a, b)
    }

    fn from_int(&self, n: i32) -> f32 {
        n as f32
    }

    fn add(&self, a: f32, b: f32) -> f32 {
        a + b
    }

    fn sub(&self, a: f32, b: f32) -> f32 {
        a - b
    }

    fn mul(&self, a: f32, b: f32) -> f32 {
        a * b
    }

    fn div(&self, a: f32, b: f32) -> f32 {
        a / b
    }

    fn sin(&self, a: f32) -> f32 {
        a.sin()
    }

    fn cos(&self, a: f32) -> f32 {
        a.cos()
    }

    fn remainder(&self, a: f32, m: f32) -> f32 {
        ((a % m) + m) % m
    }

    fn less_than(&self, a: f32, b: f32) -> bool {
        a < b
    }
}

/// F32Ops with a wrap that leaves angles already in `[0, m)` unchanged
/// (`rem_euclid` is not used: it may round up to `m`).
struct ExactWrapOps;

impl ScalarOps for ExactWrapOps {
    type Scalar = f32;

    fn spec_from_int(&self, n: i32) -> f32 {
        self.from_int(n)
    }

    fn spec_add(&self, a: f32, b: f32) -> f32 {
        self.add(a, b)
    }

    fn spec_sub(&self, a: f32, b: f32) -> f32 {
        self.sub(a, b)
    }

    fn spec_mul(&self, a: f32, b: f32) -> f32 {
        self.mul(a, b)
    }

    fn spec_div(&self, a: f32, b: f32) -> f32 {
        self.div(a, b)
    }

    fn spec_sin(&self, a: f32) -> f32 {
        self.sin(a)
    }

    fn spec_cos(&self, a: f32) -> f32 {
        self.cos(a)
    }

    fn spec_remainder(&self, a: f32, m: f32) -> f32 {
        self.remainder(a, m)
    }

    fn spec_less_than(&self, a: f32, b: f32) -> bool {
        self.less_than(a, b)
    }

    fn from_int(&self, n: i32) -> f32 {
        F32Ops.from_int(n)
    }

    fn add(&self, a: f32, b: f32) -> f32 {
        F32Ops.add(a, b)
    }

    fn sub(&self, a: f32, b: f32) -> f32 {
        F32Ops.sub(a, b)
    }

    fn mul(&self, a: f32, b: f32) -> f32 {
        F32Ops.mul(a, b)
    }

    fn div(&self, a: f32, b: f32) -> f32 {
        F32Ops.div(a, b)
    }

    fn sin(&self, a: f32) -> f32 {
        F32Ops.sin(a)
    }

    fn cos(&self, a: f32) -> f32 {
        F32Ops.cos(a)
    }

    fn remainder(&self, a: f32, m: f32) -> f32 {
        if a >= 0.0 && a < m {
            a
        } else {
            F32Ops.remainder(a, m)
        }
    }

    fn less_than(&self, a: f32, b: f32) -> bool {
        F32Ops.less_than(a, b)
    }
}

const PI: f32 = 3.14159265;

fn state_with(positions: Vec<f32>, velocities: Vec<f32>, angles: Vec<f32>, angular: Vec<f32>) -> BatchedCartPoleState<f32> {
    BatchedCartPoleState {
        pole_angles: angles,
        pole_angular_velocities: angular,
        cart_positions: positions,
        cart_velocities: velocities,
    }
}

fn snapshot(step: usize, n: usize) -> BatchedCartPoleState<f32> {
    let positions: Vec<f32> = (0..n).map(|e| (step * 100 + e) as f32).collect();
    let angles: Vec<f32> = (0..n).map(|e| (step * 100 + e) as f32 + 0.5).collect();
    state_with(positions, vec![0.0; n], angles, vec![0.0; n])
}

fn key(x: f32) -> u32 {
    order_key(x.to_bits())
}

#[test]
fn zeroed_state_has_default_batch() {
    let s = BatchedCartPoleState::zeroed(0.0f32);
    assert_eq!(s.batch_size(), DEFAULT_BATCH_SIZE);
    assert_eq!(s.cart_velocities.len(), 128);
    assert!(s.pole_angles.iter().all(|&a| a == 0.0));
    assert!(s.pole_angular_velocities.iter().all(|&a| a == 0.0));
}

#[test]
fn from_pole_angles_keeps_angles() {
    let s = BatchedCartPoleState::from_pole_angles(vec![1.0f32, 2.0, 2.5], 0.0);
    assert_eq!(s.pole_angles, vec![1.0, 2.0, 2.5]);
    assert_eq!(s.cart_positions, vec![0.0; 3]);
    assert_eq!(s.cart_velocities, vec![0.0; 3]);
    assert_eq!(s.pole_angular_velocities, vec![0.0; 3]);
}

#[test]
fn observations_keep_instance_order() {
    let s = state_with(vec![1.0, 2.0, 3.0], vec![9.0; 3], vec![0.1, 0.2, 0.3], vec![8.0; 3]);
    let obs = s.to_vec_observations();
    assert_eq!(obs.len(), 3);
    for (i, o) in obs.iter().enumerate() {
        assert_eq!(o.cart_position, (i + 1) as f32);
        assert_eq!(o.pole_angle, [0.1f32, 0.2, 0.3][i]);
    }
}

#[test]
fn from_batches_is_step_major() {
    let frames: Vec<_> = (0..3).map(|s| snapshot(s, 2)).collect();
    let rec = BatchedEpisodeRecord::from_batches(&frames);
    assert_eq!(rec.total_steps(), 3);
    assert_eq!(rec.episode_count(), 2);
    assert_eq!(rec.len(), 2);
    assert_eq!(rec.cart_positions(), &vec![0.0, 1.0, 100.0, 101.0, 200.0, 201.0]);
    assert_eq!(rec.pole_angles(), &vec![0.5, 1.5, 100.5, 101.5, 200.5, 201.5]);
}

#[test]
fn get_episode_strides_by_batch_size() {
    let frames: Vec<_> = (0..4).map(|s| snapshot(s, 3)).collect();
    let rec = BatchedEpisodeRecord::from_batches(&frames);
    let ep = rec.get_episode(2).unwrap();
    assert_eq!(ep.cart_positions, vec![2.0, 102.0, 202.0, 302.0]);
    assert_eq!(ep.pole_angles, vec![2.5, 102.5, 202.5, 302.5]);
}

#[test]
fn episodes_interleave_back_to_record() {
    let (steps, n) = (5, 4);
    let frames: Vec<_> = (0..steps).map(|s| snapshot(s, n)).collect();
    let rec = BatchedEpisodeRecord::from_batches(&frames);
    let episodes: Vec<_> = (0..n).map(|e| rec.get_episode(e).unwrap()).collect();
    let mut positions = Vec::new();
    let mut angles = Vec::new();
    for s in 0..steps {
        for ep in episodes.iter() {
            assert_eq!(ep.cart_positions.len(), steps);
            positions.push(ep.cart_positions[s]);
            angles.push(ep.pole_angles[s]);
        }
    }
    assert_eq!(&positions, rec.cart_positions());
    assert_eq!(&angles, rec.pole_angles());
}

#[test]
fn get_episode_at_episode_count_is_invalid() {
    let frames: Vec<_> = (0..2).map(|s| snapshot(s, 3)).collect();
    let rec = BatchedEpisodeRecord::from_batches(&frames);
    assert!(matches!(rec.get_episode(3), Err(RecordError::InvalidEpisodeIndex)));
    assert!(matches!(rec.get_episode(4), Err(RecordError::InvalidEpisodeIndex)));
    assert!(rec.get_episode(0).is_ok());
}

#[test]
fn order_key_orders_as_floats() {
    let values = [-3.5f32, -1.0, -0.0, 0.0, 1e-30, 0.25, 1.0, 7.0];
    for w in values.windows(2) {
        assert!(key(w[0]) < key(w[1]));
    }
    assert_eq!(order_key(0), 0x8000_0000);
}

#[test]
fn first_argmax_breaks_ties_by_first_index() {
    assert_eq!(first_argmax(&[5, 5, 1]), 0);
    assert_eq!(first_argmax(&[1, 7, 7]), 1);
    assert_eq!(first_argmax(&[1, 2, 9, 9]), 2);
    assert_eq!(first_argmax(&[4]), 0);
}

#[test]
fn greedy_action_is_argmax_minus_one() {
    assert_eq!(greedy_action(&[key(0.7), key(0.2), key(0.1)]), -1);
    assert_eq!(greedy_action(&[key(0.2), key(0.7), key(0.1)]), 0);
    assert_eq!(greedy_action(&[key(0.1), key(0.2), key(0.7)]), 1);
    assert_eq!(greedy_action(&[key(0.4), key(0.2), key(0.4)]), -1);
    assert_eq!(greedy_action(&[key(0.2), key(0.4), key(0.4)]), 0);
}

#[test]
fn greedy_action_same_scores_same_action() {
    let scores = [key(0.3), key(0.35), key(0.35)];
    let a = greedy_action(&scores);
    let b = greedy_action(&scores);
    assert_eq!(a, b);
    assert_eq!(greedy_actions(&vec![scores, scores]), vec![0, 0]);
}

#[test]
fn epsilon_zero_threshold_is_greedy() {
    let scores = vec![[key(0.1), key(0.8), key(0.1)], [key(0.5), key(0.2), key(0.3)], [key(0.1), key(0.1), key(0.8)]];
    let floors = vec![-1, 1, 0];
    let gates = vec![key(0.0), key(0.5), key(0.999)];
    let threshold = key(0.0);
    let chosen = epsilon_greedy_actions(&scores, &floors, &gates, threshold);
    assert_eq!(chosen, greedy_actions(&scores));
    assert_eq!(chosen, vec![0, -1, 1]);
}

#[test]
fn epsilon_full_threshold_is_random() {
    let scores = vec![[key(0.1), key(0.8), key(0.1)], [key(0.5), key(0.2), key(0.3)]];
    let floors = vec![-1, 2];
    let gates = vec![key(0.3), key(0.9)];
    let chosen = epsilon_greedy_actions(&scores, &floors, &gates, key(1.0));
    assert_eq!(chosen, vec![-1, 1]);
    let mixed = epsilon_greedy_actions(&scores, &floors, &gates, key(0.5));
    assert_eq!(mixed, vec![-1, -1]);
}

#[test]
fn random_action_caps_at_one() {
    assert_eq!(random_action(-1), -1);
    assert_eq!(random_action(0), 0);
    assert_eq!(random_action(1), 1);
    assert_eq!(random_action(2), 1);
    assert_eq!(random_actions(&vec![2, -1, 0, 1]), vec![1, -1, 0, 1]);
}

#[test]
fn default_world_constants() {
    let w = CartPoleWorld::new(&F32Ops);
    assert_eq!(w.masscart, 1.0);
    assert_eq!(w.masspole, 0.1);
    assert_eq!(w.length, 0.5);
    assert_eq!(w.force_mag, 10.0);
    assert_eq!(w.timestep, 0.02);
    assert_eq!(w.gravity, 9.8);
    assert_eq!(w.max_steps, 1000);
    assert_eq!(DEFAULT_MAX_STEPS, 1000);
}

#[test]
fn step_preserves_batch_size() {
    let w = CartPoleWorld::new(&F32Ops);
    for n in [0usize, 1, 5, 128] {
        let s = BatchedCartPoleState::filled(n, 0.3f32);
        let actions = vec![1i8; n];
        let r = w.step(&F32Ops, s, &actions);
        assert!(!r.terminated);
        assert_eq!(r.reward.len(), n);
        assert_eq!(r.observation.pole_angles.len(), n);
        assert_eq!(r.observation.pole_angular_velocities.len(), n);
        assert_eq!(r.observation.cart_positions.len(), n);
        assert_eq!(r.observation.cart_velocities.len(), n);
    }
}

#[test]
fn step_integrates_position_and_angle() {
    let w = CartPoleWorld::new(&F32Ops);
    let s = state_with(vec![1.0], vec![2.0], vec![1.0], vec![3.0]);
    let r = w.step(&F32Ops, s, &vec![0]);
    assert_eq!(r.observation.cart_positions[0], 1.0 + 2.0 * 0.02);
    assert_eq!(r.observation.pole_angles[0], 1.0f32 + 3.0 * 0.02);
}

#[test]
fn step_matches_dynamics_formula() {
    let w = CartPoleWorld::new(&F32Ops);
    let (x, v, a, av, act) = (0.5f32, -0.25f32, 1.2f32, 0.7f32, 1i8);
    let r = w.step(&F32Ops, state_with(vec![x], vec![v], vec![a], vec![av]), &vec![act]);
    let force = act as f32 * 10.0;
    let theta = a * -1.0 - PI / 2.0;
    let (c, s) = (theta.cos(), theta.sin());
    let total = 1.0f32 + 0.1;
    let pml = 0.1f32 * 0.5;
    let temp = (force + av * av * s * pml) / total;
    let thetaacc = (s * 9.8 - c * temp) / ((4.0 / 3.0 - c * c * 0.1 / total) * 0.5);
    let xacc = temp - thetaacc * c * pml / total;
    assert_eq!(r.observation.cart_velocities[0], v + xacc * 0.02);
    assert_eq!(r.observation.pole_angular_velocities[0], (av + thetaacc * 0.02) / 1.02);
}

#[test]
fn step_wraps_angle_into_full_turn() {
    let w = CartPoleWorld::new(&F32Ops);
    let angles: Vec<f32> = vec![-20.0, -7.0, -PI, -0.001, 0.0, 3.0, 2.0 * PI, 6.3, 13.0, 100.0];
    let n = angles.len();
    let s = state_with(vec![0.0; n], vec![0.0; n], angles, vec![0.5; n]);
    let r = w.step(&F32Ops, s, &vec![-1; n]);
    for &a in r.observation.pole_angles.iter() {
        assert!(a >= 0.0 && a < 2.0 * PI, "angle {a} out of range");
    }
}

#[test]
fn reward_marks_balanced_band() {
    let w = CartPoleWorld::new(&F32Ops);
    let angles: Vec<f32> = vec![0.1, 0.7, 0.8, 1.0, 1.5707964, 2.3, 2.4, 3.0, 5.0];
    let n = angles.len();
    let s = state_with(vec![0.0; n], vec![0.0; n], angles, vec![0.0; n]);
    let r = w.step(&F32Ops, s, &vec![0; n]);
    for i in 0..n {
        let a = r.observation.pole_angles[i];
        let inside = a > PI / 4.0 && a < 3.0 * PI / 4.0;
        assert_eq!(r.reward[i], if inside { 1.0 } else { 0.0 });
    }
    assert_eq!(r.reward[0], 0.0);
    assert_eq!(r.reward[4], 1.0);
    assert_eq!(r.reward[8], 0.0);
}

#[test]
fn reward_is_zero_on_band_edges() {
    let w = CartPoleWorld::new(&F32Ops);
    let angles: Vec<f32> = vec![PI / 4.0, 3.0 * PI / 4.0];
    let s = state_with(vec![0.0; 2], vec![0.0; 2], angles, vec![0.0; 2]);
    let r = w.step(&ExactWrapOps, s, &vec![0; 2]);
    assert_eq!(r.observation.pole_angles[0], PI / 4.0);
    assert_eq!(r.observation.pole_angles[1], 3.0 * PI / 4.0);
    assert_eq!(r.reward, vec![0.0, 0.0]);
}

#[test]
fn upright_pole_stays_balanced() {
    let w = CartPoleWorld::new(&F32Ops);
    let mut s = state_with(vec![0.0], vec![0.0], vec![PI / 2.0], vec![0.0]);
    for _ in 0..10 {
        let r = w.step(&F32Ops, s, &vec![0]);
        assert_eq!(r.reward, vec![1.0]);
        s = r.observation;
    }
}

#[test]
fn rollout_runs_to_horizon() {
    let mut r = Rollout::start(BatchedCartPoleState::filled(2, 0.0f32), 3);
    let mut count = 0;
    while r.is_running() {
        assert_eq!(r.current_step(), count);
        let next = snapshot(count as usize + 1, 2);
        r.record(next, false);
        count += 1;
    }
    assert_eq!(count, 3);
    assert_eq!(r.current().cart_positions, vec![300.0, 301.0]);
    let rec = r.finish();
    assert_eq!(rec.total_steps(), 4);
    assert_eq!(rec.get_episode(1).unwrap().cart_positions, vec![0.0, 101.0, 201.0, 301.0]);
}

#[test]
fn rollout_stops_on_termination() {
    let mut r = Rollout::start(BatchedCartPoleState::filled(1, 0.0f32), 10);
    r.record(snapshot(1, 1), false);
    assert!(r.is_running());
    r.record(snapshot(2, 1), true);
    assert!(!r.is_running());
    assert_eq!(r.finish().total_steps(), 3);
}

#[test]
fn advance_steps_current_state() {
    let w = CartPoleWorld::new(&F32Ops);
    let initial = state_with(vec![0.0, 1.0], vec![1.0, -1.0], vec![1.0, 2.0], vec![0.0, 0.0]);
    let mut r = Rollout::start(initial, 2);
    w.advance(&F32Ops, &mut r, &vec![1, -1]);
    assert_eq!(r.current_step(), 1);
    assert_eq!(r.current().cart_positions, vec![0.02, 1.0 - 0.02]);
    w.advance(&F32Ops, &mut r, &vec![0, 0]);
    assert!(!r.is_running());
    assert_eq!(r.finish().total_steps(), 3);
}

#[test]
fn random_rollout_records_every_step() {
    let mut w = CartPoleWorld::new(&F32Ops);
    w.max_steps = 4;
    let initial = BatchedCartPoleState::from_pole_angles(vec![1.0f32, 1.5, 2.0], 0.0);
    let draws = vec![vec![-1, 0, 1], vec![2, 2, 2], vec![0, 0, 0], vec![1, -1, 1]];
    let rec = w.random_rollout(&F32Ops, initial, &draws);
    assert_eq!(rec.total_steps(), 5);
    assert_eq!(rec.episode_count(), 3);
    assert_eq!(&rec.pole_angles()[0..3], &[1.0, 1.5, 2.0]);
    assert_eq!(&rec.cart_positions()[0..3], &[0.0, 0.0, 0.0]);
    let ep = rec.get_episode(1).unwrap();
    assert_eq!(ep.cart_positions.len(), 5);
    assert!(ep.pole_angles.iter().all(|&a| a >= 0.0 && a < 2.0 * PI));
}
