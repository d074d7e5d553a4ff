//! Action selection. An action is `-1` (push left), `0` (no force) or `1`
//! (push right). Scores and random gates arrive as order keys: unsigned
//! integers that order as the values they stand for.
use vstd::prelude::*;

verus! {

/// `a` is one of the three actions.
pub open spec fn is_action(a: i8) -> bool {
    -1 <= a <= 1
}

/// The order key of a binary32 floating-point number given by its bits:
/// negative numbers have their bits inverted, the others their sign bit set,
/// so that keys of non-NaN numbers order as the numbers do (with `-0` below
/// `+0`).
pub open spec fn order_key_spec(bits: u32) -> u32 {
    if bits & 0x8000_0000u32 != 0 {
        !bits
    } else {
        bits | 0x8000_0000u32
    }
}

/// The order key of the binary32 number with bits `bits`.
pub fn order_key(bits: u32) -> (r: u32)
    ensures
        r == order_key_spec(bits),
{
    if bits & 0x8000_0000u32 != 0 {
        !bits
    } else {
        bits | 0x8000_0000u32
    }
}

/// `i` is the first index at which `keys` takes its maximum.
pub open spec fn is_first_argmax(keys: Seq<u32>, i: int) -> bool {
    &&& 0 <= i < keys.len()
    &&& forall|j: int| 0 <= j < keys.len() ==> keys[j] <= keys[i]
    &&& forall|j: int| 0 <= j < i ==> keys[j] < keys[i]
}

/// The action that the deterministic policy takes on `keys`: the first
/// maximum's index, minus one.
pub open spec fn greedy_spec(keys: Seq<u32>, a: i8) -> bool {
    is_first_argmax(keys, a as int + 1)
}

/// The first index of a maximum of `keys`.
pub fn first_argmax(keys: &[u32]) -> (r: usize)
    requires
        keys@.len() > 0,
    ensures
        is_first_argmax(keys@, r as int),
{
    let mut best: usize = 0;
    let mut i: usize = 1;
    while i < keys.len()
        invariant
            keys@.len() > 0,
            1 <= i <= keys@.len(),
            best < i,
            forall|j: int| 0 <= j < i ==> keys@[j] <= keys@[best as int],
            forall|j: int| 0 <= j < best ==> keys@[j] < keys@[best as int],
        decreases keys@.len() - i,
    {
        if keys[i] > keys[best] {
            best = i;
        }
        i = i + 1;
    }
    best
}

/// The deterministic policy on one instance's scores.
pub fn greedy_action(scores: &[u32; 3]) -> (r: i8)
    ensures
        is_action(r),
        greedy_spec(scores@, r),
{
    let i = first_argmax(scores.as_slice());
    i as i8 - 1
}

/// The deterministic policy on every instance of a batch.
pub fn greedy_actions(scores: &Vec<[u32; 3]>) -> (r: Vec<i8>)
    ensures
        greedy_batch_spec(scores@, r@),
{
    let mut r: Vec<i8> = Vec::new();
    let mut i: usize = 0;
    while i < scores.len()
        invariant
            i <= scores@.len(),
            r@.len() == i,
            forall|k: int| 0 <= k < i ==> is_action(#[trigger] r@[k]) && greedy_spec(scores@[k]@, r@[k]),
        decreases scores@.len() - i,
    {
        let a = greedy_action(&scores[i]);
        r.push(a);
        i = i + 1;
    }
    r
}

/// The first maximum is unique, so equal scores give equal greedy actions.
pub proof fn lemma_greedy_deterministic(keys: Seq<u32>, a: i8, b: i8)
    requires
        greedy_spec(keys, a),
        greedy_spec(keys, b),
    ensures
        a == b,
{
    if (a as int) < (b as int) {
        assert(keys[a as int + 1] < keys[b as int + 1]);
    } else if (b as int) < (a as int) {
        assert(keys[b as int + 1] < keys[a as int + 1]);
    }
}

/// `actions` is what the deterministic policy takes on every instance.
pub open spec fn greedy_batch_spec(scores: Seq<[u32; 3]>, actions: Seq<i8>) -> bool {
    &&& actions.len() == scores.len()
    &&& forall|i: int| 0 <= i < actions.len() ==> is_action(#[trigger] actions[i]) && greedy_spec(scores[i]@, actions[i])
}

/// The random policy's action from the floor of a draw from `[-1, 2)`.
pub open spec fn clamp_spec(floor_draw: i32) -> int {
    if floor_draw > 1 {
        1
    } else {
        floor_draw as int
    }
}

/// The random policy's actions for a batch of floors of draws.
pub open spec fn clamped(floor_draws: Seq<i32>) -> Seq<i8> {
    floor_draws.map_values(|d: i32| clamp_spec(d) as i8)
}

/// The epsilon-greedy policy's actions on a batch: an instance whose gate is
/// below `threshold` takes its capped random floor, any other instance takes
/// the greedy choice for its scores.
pub open spec fn epsilon_greedy_spec(
    scores: Seq<[u32; 3]>,
    floor_draws: Seq<i32>,
    gates: Seq<u32>,
    threshold: u32,
    actions: Seq<i8>,
) -> bool {
    &&& actions.len() == scores.len()
    &&& forall|i: int|
        0 <= i < actions.len() ==> is_action(#[trigger] actions[i]) && if gates[i] < threshold {
            actions[i] == clamp_spec(floor_draws[i])
        } else {
            greedy_spec(scores[i]@, actions[i])
        }
}

/// The epsilon-greedy policy on every instance of a batch: `scores` are the
/// model's scores, `floor_draws` the floors of draws from `[-1, 2)` and
/// `gates` the draws from `[0, 1)` that are compared with `threshold`.
pub fn epsilon_greedy_actions(scores: &Vec<[u32; 3]>, floor_draws: &Vec<i32>, gates: &Vec<u32>, threshold: u32) -> (r:
    Vec<i8>)
    requires
        floor_draws@.len() == scores@.len(),
        gates@.len() == scores@.len(),
        forall|i: int| 0 <= i < floor_draws@.len() ==> -1 <= #[trigger] floor_draws@[i] <= 2,
    ensures
        epsilon_greedy_spec(scores@, floor_draws@, gates@, threshold, r@),
{
    let mut r: Vec<i8> = Vec::new();
    let mut i: usize = 0;
    while i < scores.len()
        invariant
            floor_draws@.len() == scores@.len(),
            gates@.len() == scores@.len(),
            forall|k: int| 0 <= k < floor_draws@.len() ==> -1 <= #[trigger] floor_draws@[k] <= 2,
            i <= scores@.len(),
            r@.len() == i,
            forall|k: int|
                0 <= k < i ==> is_action(#[trigger] r@[k]) && if gates@[k] < threshold {
                    r@[k] == clamp_spec(floor_draws@[k])
                } else {
                    greedy_spec(scores@[k]@, r@[k])
                },
        decreases scores@.len() - i,
    {
        let a = if gates[i] < threshold {
            random_action(floor_draws[i])
        } else {
            greedy_action(&scores[i])
        };
        r.push(a);
        i = i + 1;
    }
    r
}

/// Where no gate lies below the threshold (a threshold of zero against gates
/// drawn from `[0, 1)`), the epsilon-greedy policy takes the deterministic
/// policy's action on every instance.
pub proof fn lemma_no_exploration_is_greedy(
    scores: Seq<[u32; 3]>,
    floor_draws: Seq<i32>,
    gates: Seq<u32>,
    threshold: u32,
    chosen: Seq<i8>,
    greedy: Seq<i8>,
)
    requires
        gates.len() == scores.len(),
        forall|i: int| 0 <= i < gates.len() ==> threshold <= #[trigger] gates[i],
        epsilon_greedy_spec(scores, floor_draws, gates, threshold, chosen),
        greedy_batch_spec(scores, greedy),
    ensures
        chosen == greedy,
{
    assert forall|i: int| 0 <= i < chosen.len() implies chosen[i] == greedy[i] by {
        assert(threshold <= gates[i]);
        lemma_greedy_deterministic(scores[i]@, chosen[i], greedy[i]);
    }
    assert(chosen =~= greedy);
}

/// The random policy's action from the floor of a draw from `[-1, 2)`,
/// capped at one.
pub fn random_action(floor_draw: i32) -> (r: i8)
    requires
        -1 <= floor_draw <= 2,
    ensures
        r == clamp_spec(floor_draw),
        is_action(r),
{
    if floor_draw > 1 {
        1
    } else {
        floor_draw as i8
    }
}

/// The random policy on every instance of a batch.
pub fn random_actions(floor_draws: &Vec<i32>) -> (r: Vec<i8>)
    requires
        forall|i: int| 0 <= i < floor_draws@.len() ==> -1 <= #[trigger] floor_draws@[i] <= 2,
    ensures
        r@.len() == floor_draws@.len(),
        forall|i: int|
            0 <= i < r@.len() ==> #[trigger] r@[i] == clamp_spec(floor_draws@[i]),
{
    let mut r: Vec<i8> = Vec::new();
    let mut i: usize = 0;
    while i < floor_draws.len()
        invariant
            forall|k: int| 0 <= k < floor_draws@.len() ==> -1 <= #[trigger] floor_draws@[k] <= 2,
            i <= floor_draws@.len(),
            r@.len() == i,
            forall|k: int|
                0 <= k < i ==> #[trigger] r@[k] == clamp_spec(floor_draws@[k]),
        decreases floor_draws@.len() - i,
    {
        r.push(random_action(floor_draws[i]));
        i = i + 1;
    }
    r
}

} // verus!
