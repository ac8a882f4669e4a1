//! Integer limits of the geodesic integrator's settings.
use vstd::prelude::*;

verus! {

/// Fewest integration steps per ray.
pub const MAX_STEPS_MIN: u32 = 8;

/// Most integration steps per ray.
pub const MAX_STEPS_MAX: u32 = 1024;

/// Brings a step budget into `MAX_STEPS_MIN..=MAX_STEPS_MAX`.
pub fn clamp_max_steps(max_steps: u32) -> (r: u32)
    ensures
        r == clamped_steps(max_steps),
        8 <= r <= 1024,
        max_steps < 8 ==> r == 8,
        max_steps > 1024 ==> r == 1024,
        8 <= max_steps <= 1024 ==> r == max_steps,
{
    if max_steps < MAX_STEPS_MIN {
        MAX_STEPS_MIN
    } else if max_steps > MAX_STEPS_MAX {
        MAX_STEPS_MAX
    } else {
        max_steps
    }
}

/// Clamping a step budget twice changes nothing the second time, and a
/// budget within the limits is kept.
pub proof fn lemma_clamp_max_steps_idempotent(max_steps: u32)
    ensures
        MAX_STEPS_MIN <= clamped_steps(max_steps) <= MAX_STEPS_MAX,
        clamped_steps(clamped_steps(max_steps)) == clamped_steps(max_steps),
        MAX_STEPS_MIN <= max_steps <= MAX_STEPS_MAX ==> clamped_steps(max_steps) == max_steps,
{
}

/// Clamping is the nearest value in range: a budget below the minimum is
/// raised to the minimum, one above the maximum is lowered to the maximum,
/// and clamping never reverses the order of two budgets.
pub proof fn lemma_clamp_max_steps_nearest(a: u32, b: u32)
    ensures
        a < 8 ==> clamped_steps(a) == 8,
        a > 1024 ==> clamped_steps(a) == 1024,
        clamped_steps(a) as int == if (a as int) < 8 {
            8
        } else if (a as int) > 1024 {
            1024
        } else {
            a as int
        },
        a <= b ==> clamped_steps(a) <= clamped_steps(b),
        clamped_steps(a) == clamped_steps(b) && a != b ==> (a <= 8 && b <= 8) || (a >= 1024
            && b >= 1024),
{
}

/// The value `clamp_max_steps` returns.
pub open spec fn clamped_steps(max_steps: u32) -> u32 {
    if max_steps < MAX_STEPS_MIN {
        MAX_STEPS_MIN
    } else if max_steps > MAX_STEPS_MAX {
        MAX_STEPS_MAX
    } else {
        max_steps
    }
}

} // verus!
