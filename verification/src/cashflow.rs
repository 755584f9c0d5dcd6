//! Payment horizons of discounted-cashflow analysis.
use vstd::prelude::*;

verus! {

/// The first timestep of a uniform payment schedule: step 0 (undiscounted)
/// when the initial period is included, step 1 otherwise.
pub open spec fn first_payment_step(w_init: bool) -> int {
    if w_init { 0 } else { 1 }
}

/// The timesteps at which a uniform schedule pays, for a horizon of
/// `t_steps` steps: every step from `first_payment_step(w_init)` up to and
/// including `t_steps`.
pub open spec fn payment_steps(t_steps: int, w_init: bool) -> Seq<int> {
    let first = first_payment_step(w_init);
    if t_steps < first {
        Seq::empty()
    } else {
        Seq::new((t_steps - first + 1) as nat, |k: int| first + k)
    }
}

/// An inclusive range of timesteps `first..=last` over which payments fall.
#[derive(Clone, Copy, Debug, PartialEq, Eq, Structural)]
pub struct Horizon {
    pub first: i32,
    pub last: i32,
}

impl Horizon {
    /// The timesteps of the horizon, in increasing order.
    pub open spec fn steps(self) -> Seq<int> {
        Seq::new((self.last - self.first + 1) as nat, |k: int| self.first + k)
    }
}

/// The payment steps over which `pv_unispread` spreads a target present value.
///
/// Payments fall at every step from `first_payment_step(w_init)` up to and
/// including `t_steps`. When that range is empty (no initial payment and a
/// horizon of zero steps) there is nothing to spread over and `None` is
/// returned; the present-value routine answers that case with NaN.
pub fn unispread_horizon(t_steps: i32, w_init: bool) -> (r: Option<Horizon>)
    requires
        t_steps >= 0,
    ensures
        r is Some <==> first_payment_step(w_init) <= t_steps,
        r matches Some(h) ==> h.first == first_payment_step(w_init) && h.last == t_steps,
        r matches Some(h) ==> h.steps() == payment_steps(t_steps as int, w_init),
        r is Some <==> (w_init || t_steps >= 1),
        r matches Some(h) ==> h.first == (if w_init { 0i32 } else { 1i32 }) && h.last == t_steps,
{
    let start_idx: i32 = if w_init { 0 } else { 1 };
    if start_idx > t_steps {
        None
    } else {
        Some(Horizon { first: start_idx, last: t_steps })
    }
}

/// Including the initial period adds exactly one payment, the undiscounted
/// one at step 0, in front of the payments of the schedule without it.
pub proof fn lemma_initial_payment_prepends_step_zero(t_steps: int)
    requires
        t_steps >= 0,
    ensures
        payment_steps(t_steps, true) == seq![0int] + payment_steps(t_steps, false),
        payment_steps(t_steps, true).len() == payment_steps(t_steps, false).len() + 1,
{
    assert(payment_steps(t_steps, true) =~= seq![0int] + payment_steps(t_steps, false));
}

/// A schedule of `t_steps` steps pays at each step from 0 (with the initial
/// period) or 1 (without) up to `t_steps`, in increasing order; without the
/// initial period and with no steps it pays nothing.
pub proof fn lemma_payment_steps_shape(t_steps: int, w_init: bool)
    requires
        t_steps >= 0,
    ensures
        payment_steps(t_steps, w_init).len() == (if w_init { t_steps + 1 } else { t_steps }),
        forall|k: int|
            #![trigger payment_steps(t_steps, w_init)[k]]
            0 <= k < payment_steps(t_steps, w_init).len() ==> payment_steps(t_steps, w_init)[k]
                == (if w_init { k } else { k + 1 }),
{
}

} // verus!
