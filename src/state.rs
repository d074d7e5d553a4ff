use vstd::prelude::*;

verus! {

/// Number of parallel instances in a default batch.
pub const DEFAULT_BATCH_SIZE: usize = 128;

/// The externally visible part of one instance: cart position and pole angle.
#[derive(Clone, Copy)]
pub struct CartPoleObservation<T> {
    pub cart_position: T,
    pub pole_angle: T,
}

/// The state of one instance: position, velocity, angle, angular velocity.
pub type Instance<S> = (S, S, S, S);

/// A batch of cart-pole states, one entry per instance in each array.
#[derive(Clone)]
pub struct BatchedCartPoleState<T> {
    pub pole_angles: Vec<T>,
    pub pole_angular_velocities: Vec<T>,
    pub cart_positions: Vec<T>,
    pub cart_velocities: Vec<T>,
}

impl<T: Copy> BatchedCartPoleState<T> {
    /// The batch size of a well-formed state.
    pub open spec fn batch_len(&self) -> nat {
        self.pole_angles@.len()
    }

    /// The state of instance `i`.
    pub open spec fn instance_at(&self, i: int) -> Instance<T> {
        (self.cart_positions@[i], self.cart_velocities@[i], self.pole_angles@[i], self.pole_angular_velocities@[i])
    }

    /// All four arrays have the same length.
    pub open spec fn wf(&self) -> bool {
        &&& self.pole_angular_velocities@.len() == self.batch_len()
        &&& self.cart_positions@.len() == self.batch_len()
        &&& self.cart_velocities@.len() == self.batch_len()
    }

    /// A batch of `batch_size` instances whose every field is `value`.
    pub fn filled(batch_size: usize, value: T) -> (r: Self)
        ensures
            r.wf(),
            r.batch_len() == batch_size,
            r.pole_angles@ == Seq::new(batch_size as nat, |i: int| value),
            r.pole_angular_velocities@ == Seq::new(batch_size as nat, |i: int| value),
            r.cart_positions@ == Seq::new(batch_size as nat, |i: int| value),
            r.cart_velocities@ == Seq::new(batch_size as nat, |i: int| value),
    {
        BatchedCartPoleState {
            pole_angles: filled_vec(batch_size, value),
            pole_angular_velocities: filled_vec(batch_size, value),
            cart_positions: filled_vec(batch_size, value),
            cart_velocities: filled_vec(batch_size, value),
        }
    }

    /// A batch of `DEFAULT_BATCH_SIZE` instances, every field `zero`.
    pub fn zeroed(zero: T) -> (r: Self)
        ensures
            r.wf(),
            r.batch_len() == DEFAULT_BATCH_SIZE,
            r.pole_angles@ == Seq::new(DEFAULT_BATCH_SIZE as nat, |i: int| zero),
            r.pole_angular_velocities@ == Seq::new(DEFAULT_BATCH_SIZE as nat, |i: int| zero),
            r.cart_positions@ == Seq::new(DEFAULT_BATCH_SIZE as nat, |i: int| zero),
            r.cart_velocities@ == Seq::new(DEFAULT_BATCH_SIZE as nat, |i: int| zero),
    {
        Self::filled(DEFAULT_BATCH_SIZE, zero)
    }

    /// A batch with the given pole angles, one instance per angle, and every
    /// other field `zero`.
    pub fn from_pole_angles(pole_angles: Vec<T>, zero: T) -> (r: Self)
        ensures
            r.wf(),
            r.pole_angles@ == pole_angles@,
            r.pole_angular_velocities@ == Seq::new(pole_angles@.len(), |i: int| zero),
            r.cart_positions@ == Seq::new(pole_angles@.len(), |i: int| zero),
            r.cart_velocities@ == Seq::new(pole_angles@.len(), |i: int| zero),
    {
        let n = pole_angles.len();
        BatchedCartPoleState {
            pole_angles,
            pole_angular_velocities: filled_vec(n, zero),
            cart_positions: filled_vec(n, zero),
            cart_velocities: filled_vec(n, zero),
        }
    }

    /// A copy of this batch.
    pub fn copied(&self) -> (r: Self)
        ensures
            r.pole_angles@ == self.pole_angles@,
            r.pole_angular_velocities@ == self.pole_angular_velocities@,
            r.cart_positions@ == self.cart_positions@,
            r.cart_velocities@ == self.cart_velocities@,
    {
        BatchedCartPoleState {
            pole_angles: copy_vec(&self.pole_angles),
            pole_angular_velocities: copy_vec(&self.pole_angular_velocities),
            cart_positions: copy_vec(&self.cart_positions),
            cart_velocities: copy_vec(&self.cart_velocities),
        }
    }

    /// The number of instances.
    pub fn batch_size(&self) -> (r: usize)
        ensures
            r == self.batch_len(),
    {
        self.pole_angles.len()
    }

    /// The observation of each instance, in instance order.
    pub fn to_vec_observations(self) -> (r: Vec<CartPoleObservation<T>>)
        requires
            self.wf(),
        ensures
            r@.len() == self.batch_len(),
            forall|i: int|
                0 <= i < r@.len() ==> #[trigger] r@[i] == (CartPoleObservation {
                    cart_position: self.cart_positions@[i],
                    pole_angle: self.pole_angles@[i],
                }),
    {
        let n = self.pole_angles.len();
        let mut observations: Vec<CartPoleObservation<T>> = Vec::new();
        let mut i: usize = 0;
        while i < n
            invariant
                self.wf(),
                n == self.batch_len(),
                i <= n,
                observations@.len() == i,
                forall|k: int|
                    0 <= k < i ==> #[trigger] observations@[k] == (CartPoleObservation {
                        cart_position: self.cart_positions@[k],
                        pole_angle: self.pole_angles@[k],
                    }),
            decreases n - i,
        {
            observations.push(
                CartPoleObservation { cart_position: self.cart_positions[i], pole_angle: self.pole_angles[i] },
            );
            i = i + 1;
        }
        observations
    }
}

/// A vector with the entries of `v`.
fn copy_vec<T: Copy>(v: &Vec<T>) -> (r: Vec<T>)
    ensures
        r@ == v@,
{
    let mut r: Vec<T> = Vec::new();
    let mut i: usize = 0;
    while i < v.len()
        invariant
            i <= v@.len(),
            r@ == v@.take(i as int),
        decreases v@.len() - i,
    {
        r.push(v[i]);
        i = i + 1;
        assert(r@ =~= v@.take(i as int));
    }
    assert(r@ =~= v@);
    r
}

/// A vector of `n` copies of `value`.
fn filled_vec<T: Copy>(n: usize, value: T) -> (r: Vec<T>)
    ensures
        r@ == Seq::new(n as nat, |i: int| value),
{
    let mut r: Vec<T> = Vec::new();
    let mut i: usize = 0;
    while i < n
        invariant
            i <= n,
            r@ == Seq::new(i as nat, |k: int| value),
        decreases n - i,
    {
        r.push(value);
        i = i + 1;
        assert(r@ =~= Seq::new(i as nat, |k: int| value));
    }
    r
}

} // verus!
