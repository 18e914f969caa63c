//! The filter: parameter compiler, derivative estimator, stabilization
//! policy and integrator.
use vstd::prelude::*;
use core::ops::{Add, Div, Mul, Neg, Sub};
use vstd::std_specs::ops::{AddSpec, DivSpec, MulSpec, NegSpec, SubSpec};
use crate::scalar::{Real, le, lt, max_of, max_spec, nonzero, num, ops_obey, ops_total};

verus! {

/// A second-order system that follows a target: `y` moves toward the target
/// with angular frequency `w` and damping ratio `z`, and `k3` sets how much
/// it anticipates the target's own rate. Only `update` moves the value and
/// the rate; the coefficients stay as `new` set them.
#[derive(Debug)]
pub struct SecondOrderDynamics<S, T> {
    /// The last target seen where the rate had to be estimated.
    xp: T,
    /// The filtered value.
    y: T,
    /// The rate of change of `y`.
    yd: T,
    /// Angular frequency, `2π·f`.
    w: S,
    /// Damping ratio.
    z: S,
    /// Damped frequency, `w·sqrt(|z² − 1|)`.
    d: S,
    /// `z / (π·f)`.
    k1: S,
    /// `1 / w²`.
    k2: S,
    /// `r·z / w`.
    k3: S,
}

impl<S, T> View for SecondOrderDynamics<S, T> {
    type V = FilterState<S, T>;

    closed spec fn view(&self) -> FilterState<S, T> {
        FilterState {
            xp: self.xp,
            y: self.y,
            yd: self.yd,
            w: self.w,
            z: self.z,
            d: self.d,
            k1: self.k1,
            k2: self.k2,
            k3: self.k3,
        }
    }
}

/// The state of a filter as the contracts speak of it: the filter's fields,
/// read through its view.
pub struct FilterState<S, T> {
    /// The last target seen where the rate had to be estimated.
    pub xp: T,
    /// The filtered value.
    pub y: T,
    /// The rate of change of `y`.
    pub yd: T,
    /// Angular frequency, `2π·f`.
    pub w: S,
    /// Damping ratio.
    pub z: S,
    /// Damped frequency, `w·sqrt(|z² − 1|)`.
    pub d: S,
    /// `z / (π·f)`.
    pub k1: S,
    /// `1 / w²`.
    pub k2: S,
    /// `r·z / w`.
    pub k3: S,
}

/// The coefficients of pole matching for a step `t`, from `t1 = exp(−z·w·t)`
/// and `c`, the cosine (or, past critical damping, the hyperbolic cosine) of
/// `d·t`.
pub open spec fn pole_matched_spec<S: Real>(t: S, t1: S, c: S) -> (S, S) {
    let alpha = num::<S>(2).mul_spec(t1).mul_spec(c);
    let beta = t1.mul_spec(t1);
    let t2 = t.div_spec(num::<S>(1).add_spec(beta).sub_spec(alpha));
    (num::<S>(1).sub_spec(beta).mul_spec(t2), t.mul_spec(t2))
}

/// Pole matching: the coefficients `(k1, k2)` that reproduce the poles of
/// the continuous system exactly for a step `t`, given `t1` and `c` as
/// `pole_matched_spec` describes them.
pub fn pole_matched<S: Real>(t: S, t1: S, c: S) -> (r: (S, S))
    requires
        ops_total::<S, S>(),
    ensures
        ops_obey::<S, S>() ==> r == pole_matched_spec(t, t1, c),
{
    let alpha = S::from(2u8) * t1 * c;
    let beta = t1 * t1;
    let t2 = t / (S::from(1u8) + beta - alpha);
    ((S::from(1u8) - beta) * t2, t * t2)
}

impl<S: Real, T: Copy + Default + Add<Output = T> + Sub<Output = T> + Mul<S, Output = T> + Div<
    S,
    Output = T,
>> FilterState<S, T> {
    /// The rate of the target used for a step and the `xp` that follows it:
    /// the given rate, `xp` kept; or the difference quotient since `xp`, and
    /// `xp` moved to the target.
    pub open spec fn estimate_spec(self, t: S, x: T, xd: Option<T>) -> (T, T) {
        match xd {
            Some(v) => (v, self.xp),
            None => (x.sub_spec(self.xp).div_spec(t), x),
        }
    }

    /// The step `t` is small next to the damping time: `w·t < z`.
    pub open spec fn small_step(self, t: S) -> bool {
        lt(self.w.mul_spec(t), self.z)
    }

    /// The clamped direct coefficients: `k1` as it is, and `k2` raised to at
    /// least `t²/2 + t·k1/2` and `t·k1`.
    pub open spec fn clamped_spec(self, t: S) -> (S, S) {
        let half_sum = t.mul_spec(t).div_spec(num(2)).add_spec(t.mul_spec(self.k1).div_spec(num(2)));
        (self.k1, max_spec(max_spec(self.k2, half_sum), t.mul_spec(self.k1)))
    }

    /// `k` is what the stabilization policy gives for a step `t`: the clamped
    /// coefficients for a small step, else pole matching for some values of
    /// `t1`, an exponential of `−z·w·t`, and `c`, a cosine of `t·d` (a
    /// hyperbolic cosine past critical damping).
    pub open spec fn stable_spec(self, t: S, k: (S, S)) -> bool {
        if self.small_step(t) {
            k == self.clamped_spec(t)
        } else {
            exists|t1: S, c: S|
                #![trigger pole_matched_spec(t, t1, c)]
                {
                    &&& k == pole_matched_spec(t, t1, c)
                    &&& self.z.neg_spec().mul_spec(self.w).mul_spec(t).exp_rel(t1)
                    &&& if le(self.z, num(1)) {
                        t.mul_spec(self.d).cos_rel(c)
                    } else {
                        t.mul_spec(self.d).cosh_rel(c)
                    }
                }
        }
    }

    /// One semi-implicit Euler step with coefficients `k1`, `k2` and target
    /// rate `v`: `y` moves by the old rate first, then the rate moves by the
    /// acceleration at the new `y`.
    pub open spec fn integrated(self, t: S, x: T, v: T, k1: S, k2: S) -> Self {
        let y = self.y.add_spec(self.yd.mul_spec(t));
        let accel = x.add_spec(v.mul_spec(self.k3)).sub_spec(y).sub_spec(self.yd.mul_spec(k1));
        FilterState { y, yd: self.yd.add_spec(accel.mul_spec(t).div_spec(k2)), ..self }
    }

    /// The state after `update(t, x, xd)`, where the stabilization policy
    /// gave `k`.
    pub open spec fn stepped(self, t: S, x: T, xd: Option<T>, k: (S, S)) -> Self {
        let (v, xp) = self.estimate_spec(t, x, xd);
        FilterState { xp, ..self }.integrated(t, x, v, k.0, k.1)
    }

    /// `next` is a state that one `update` can lead to from `self` on the
    /// step `(t, x, xd)`.
    pub open spec fn follows(self, step: (S, T, Option<T>), next: Self) -> bool {
        exists|k: (S, S)|
            #![trigger self.stepped(step.0, step.1, step.2, k)]
            self.stable_spec(step.0, k) && next == self.stepped(step.0, step.1, step.2, k)
    }

    /// `states` is a run of `update` from `self` over `steps`: it starts at
    /// `self`, and each state follows the one before it on the matching step.
    pub open spec fn is_run(self, steps: Seq<(S, T, Option<T>)>, states: Seq<Self>) -> bool {
        &&& states.len() == steps.len() + 1
        &&& states[0] == self
        &&& forall|i: int| 0 <= i < steps.len() ==> #[trigger] states[i].follows(steps[i], states[i + 1])
    }

    /// The coefficients are those of `other`.
    pub open spec fn same_coefficients(self, other: Self) -> bool {
        &&& self.w == other.w
        &&& self.z == other.z
        &&& self.d == other.d
        &&& self.k1 == other.k1
        &&& self.k2 == other.k2
        &&& self.k3 == other.k3
    }

    /// Over any run, the coefficients stay those the filter was built with.
    pub proof fn lemma_run_keeps_coefficients(self, steps: Seq<(S, T, Option<T>)>, states: Seq<Self>)
        requires
            self.is_run(steps, states),
        ensures
            forall|i: int| 0 <= i < states.len() ==> #[trigger] states[i].same_coefficients(self),
        decreases steps.len(),
    {
        if steps.len() > 0 {
            let n = steps.len() - 1;
            self.lemma_run_keeps_coefficients(steps.take(n), states.take(n + 1));
            assert(states.take(n + 1)[n].same_coefficients(self));
            assert(states[n].follows(steps[n], states[n + 1]));
            assert forall|i: int| 0 <= i < states.len() implies #[trigger] states[i].same_coefficients(
                self,
            ) by {
                if i <= n {
                    assert(states.take(n + 1)[i] == states[i]);
                }
            }
        }
    }

    /// Two filters built alike and fed the same steps, each small next to
    /// the damping time, go through the same states.
    pub proof fn lemma_runs_agree(
        self,
        other: Self,
        steps: Seq<(S, T, Option<T>)>,
        states: Seq<Self>,
        other_states: Seq<Self>,
    )
        requires
            self == other,
            self.is_run(steps, states),
            other.is_run(steps, other_states),
            forall|i: int| 0 <= i < steps.len() ==> self.small_step(#[trigger] steps[i].0),
        ensures
            states == other_states,
        decreases steps.len(),
    {
        if steps.len() > 0 {
            let n = steps.len() - 1;
            self.lemma_runs_agree(other, steps.take(n), states.take(n + 1), other_states.take(n + 1));
            self.lemma_run_keeps_coefficients(steps, states);
            assert(states.take(n + 1)[n] == other_states.take(n + 1)[n]);
            assert(states[n].same_coefficients(self));
            assert(states[n].small_step(steps[n].0));
            assert(states[n].follows(steps[n], states[n + 1]));
            assert(other_states[n].follows(steps[n], other_states[n + 1]));
            assert(states =~= other_states) by {
                assert forall|i: int| 0 <= i < states.len() implies states[i] == other_states[i] by {
                    if i <= n {
                        assert(states.take(n + 1)[i] == states[i]);
                        assert(other_states.take(n + 1)[i] == other_states[i]);
                    }
                }
            }
        }
    }
}

impl<S: Real, T: Copy + Default + Add<Output = T> + Sub<Output = T> + Mul<S, Output = T> + Div<
    S,
    Output = T,
>> SecondOrderDynamics<S, T> {
    /// A filter at rest at `x0`, tuned to `frequency` (Hz), `damping_ratio`
    /// and `initial_response`.
    pub fn new(frequency: S, damping_ratio: S, initial_response: S, x0: T) -> (r: Self)
        requires
            ops_total::<S, T>(),
            lt(num::<S>(0), frequency),
        ensures
            r@.xp == x0,
            r@.y == x0,
            r@.z == damping_ratio,
            call_ensures(T::default, (), r@.yd),
            ops_obey::<S, T>() ==> exists|pi: S, a: S, root: S|
                #![trigger pi.mul_spec(frequency), a.sqrt_rel(root)]
                {
                    &&& r@.w == num::<S>(2).mul_spec(pi).mul_spec(frequency)
                    &&& r@.k1 == damping_ratio.div_spec(pi.mul_spec(frequency))
                    &&& damping_ratio.mul_spec(damping_ratio).sub_spec(num(1)).abs_rel(a)
                    &&& a.sqrt_rel(root)
                    &&& r@.d == r@.w.mul_spec(root)
                },
            ops_obey::<S, T>() ==> r@.k2 == num::<S>(1).div_spec(r@.w.mul_spec(r@.w)),
            ops_obey::<S, T>() ==> r@.k3 == initial_response.mul_spec(damping_ratio).div_spec(r@.w),
    {
        let f = frequency;
        let z = damping_ratio;
        let pi = S::pi();
        let w = S::from(2u8) * pi * f;
        let a = (z * z - S::from(1u8)).abs();
        let root = a.sqrt();
        let d = w * root;
        let r = SecondOrderDynamics {
            w,
            z,
            d,
            k1: z / (pi * f),
            k2: S::from(1u8) / (w * w),
            k3: initial_response * z / w,
            xp: x0,
            y: x0,
            yd: T::default(),
        };
        assert(ops_obey::<S, T>() ==> r@.w == num::<S>(2).mul_spec(pi).mul_spec(f) && r@.d
            == r@.w.mul_spec(root));
        r
    }

    /// The target's rate for a step: `xd` where it is given, else the
    /// difference quotient `(x − xp) / t`, after which `xp` becomes `x`.
    pub fn estimate_rate(&mut self, t: S, x: T, xd: Option<T>) -> (r: T)
        requires
            ops_total::<S, T>(),
            xd is Some || nonzero(t),
        ensures
            final(self)@ == (FilterState { xp: old(self)@.estimate_spec(t, x, xd).1, ..old(self)@ }),
            xd is Some ==> r == xd->0,
            ops_obey::<S, T>() ==> r == old(self)@.estimate_spec(t, x, xd).0,
    {
        match xd {
            Some(v) => v,
            None => {
                let v = (x - self.xp) / t;
                self.xp = x;
                v
            },
        }
    }

    /// The clamped direct coefficients for a step `t`.
    pub fn clamped(&self, t: S) -> (r: (S, S))
        requires
            ops_total::<S, T>(),
        ensures
            ops_obey::<S, T>() ==> r == self@.clamped_spec(t),
    {
        let half_sum = t * t / S::from(2u8) + t * self.k1 / S::from(2u8);
        (self.k1, max_of(max_of(self.k2, half_sum), t * self.k1))
    }

    /// The coefficients `(k1, k2)` for a step `t` that keep the integration
    /// stable: clamped for a small step, pole-matched otherwise.
    pub fn stable_coefficients(&self, t: S) -> (r: (S, S))
        requires
            ops_total::<S, T>(),
        ensures
            ops_obey::<S, T>() ==> self@.stable_spec(t, r),
    {
        if self.w * t < self.z {
            self.clamped(t)
        } else {
            let t1 = (self.z.neg() * self.w * t).exp();
            let c = if self.z <= S::from(1u8) {
                (t * self.d).cos()
            } else {
                (t * self.d).cosh()
            };
            let r = pole_matched(t, t1, c);
            assert(ops_obey::<S, T>() ==> r == pole_matched_spec(t, t1, c));
            r
        }
    }

    /// One semi-implicit Euler step of length `t` toward `x`, whose rate is
    /// `v`, with coefficients `k1` and `k2`; returns the new value.
    pub fn integrate(&mut self, t: S, x: T, v: T, k1: S, k2: S) -> (r: T)
        requires
            ops_total::<S, T>(),
        ensures
            r == final(self)@.y,
            final(self)@.xp == old(self)@.xp,
            final(self)@.same_coefficients(old(self)@),
            ops_obey::<S, T>() ==> final(self)@ == old(self)@.integrated(t, x, v, k1, k2),
    {
        self.y = self.y + self.yd * t;
        self.yd = self.yd + (x + v * self.k3 - self.y - self.yd * k1) * t / k2;
        self.y
    }

    /// Advances the filter by `t` toward the target `x`, whose rate is `xd`
    /// where the caller knows it, and returns the new value.
    ///
    /// `t` is the time elapsed since the previous call. A negative `t` is a
    /// caller error: nothing is promised of the motion that follows, though
    /// the contract below still describes the arithmetic done.
    pub fn update(&mut self, t: S, x: T, xd: Option<T>) -> (r: T)
        requires
            ops_total::<S, T>(),
            xd is Some || nonzero(t),
        ensures
            r == final(self)@.y,
            final(self)@.xp == old(self)@.estimate_spec(t, x, xd).1,
            final(self)@.same_coefficients(old(self)@),
            ops_obey::<S, T>() ==> old(self)@.follows((t, x, xd), final(self)@),
    {
        let v = self.estimate_rate(t, x, xd);
        let (k1, k2) = self.stable_coefficients(t);
        let r = self.integrate(t, x, v, k1, k2);
        let ghost step = (t, x, xd);
        assert(ops_obey::<S, T>() ==> old(self)@.stable_spec(t, (k1, k2)) && self@ == old(self)@.stepped(step.0, step.1, step.2, (k1, k2)));
        r
    }

    /// The filtered value.
    pub fn value(&self) -> (r: T)
        ensures
            r == self@.y,
    {
        self.y
    }

    /// The rate of change of the value.
    pub fn rate(&self) -> (r: T)
        ensures
            r == self@.yd,
    {
        self.yd
    }

    /// The last target seen where the rate had to be estimated.
    pub fn previous_target(&self) -> (r: T)
        ensures
            r == self@.xp,
    {
        self.xp
    }

    /// The angular frequency `w`.
    pub fn angular_frequency(&self) -> (r: S)
        ensures
            r == self@.w,
    {
        self.w
    }

    /// The damping ratio `z`.
    pub fn damping_ratio(&self) -> (r: S)
        ensures
            r == self@.z,
    {
        self.z
    }

    /// The damped frequency `d`.
    pub fn damped_frequency(&self) -> (r: S)
        ensures
            r == self@.d,
    {
        self.d
    }

    /// The coefficient `k1 = z / (π·f)`.
    pub fn k1(&self) -> (r: S)
        ensures
            r == self@.k1,
    {
        self.k1
    }

    /// The coefficient `k2 = 1 / w²`.
    pub fn k2(&self) -> (r: S)
        ensures
            r == self@.k2,
    {
        self.k2
    }

    /// The coefficient `k3 = r·z / w`.
    pub fn k3(&self) -> (r: S)
        ensures
            r == self@.k3,
    {
        self.k3
    }
}

} // verus!
