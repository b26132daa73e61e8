//! The bounce budget of the diffuse shader.
//!
//! A camera ray is traced, and each time it meets a surface it scatters into a
//! new ray whose contribution is halved. The shader stops when a ray escapes
//! to the sky, or when the ray it would trace next would exceed the bounce
//! budget; that last path contributes black. The budget bounds both the work
//! of one sample and its depth of recursion.
use vstd::prelude::*;

verus! {

/// The most rays that the shader traces for one camera sample.
pub const MAX_BOUNCES: u32 = 50;

/// What the shader does after a ray has been tested against the scene.
#[derive(Clone, Copy, Debug, PartialEq, Eq, Structural)]
pub enum Bounce {
    /// The ray met a surface: trace the scattered ray, which is the given
    /// number of bounces deep.
    Scatter(u32),
    /// The ray escaped: it carries the sky's color.
    Sky,
    /// The ray met a surface, but the budget is spent: it carries black.
    Exhausted,
}

/// The step that follows a ray `depth` bounces deep, given whether it hit.
pub open spec fn bounce_of(depth: u32, hit: bool) -> Bounce {
    if !hit {
        Bounce::Sky
    } else if depth + 1 < MAX_BOUNCES {
        Bounce::Scatter((depth + 1) as u32)
    } else {
        Bounce::Exhausted
    }
}

/// Decides the shader's next step for a ray `depth` bounces deep: a miss goes
/// to the sky, a hit scatters one level deeper while that stays within the
/// budget, and otherwise ends the path in black.
pub fn next_bounce(depth: u32, hit: bool) -> (b: Bounce)
    ensures
        b == bounce_of(depth, hit),
        b matches Bounce::Scatter(d) ==> d == depth + 1 && d < MAX_BOUNCES,
{
    if !hit {
        Bounce::Sky
    } else if depth < MAX_BOUNCES - 1 {
        Bounce::Scatter(depth + 1)
    } else {
        Bounce::Exhausted
    }
}

/// The depth a path has reached after following `hits` scatter decisions
/// from a camera ray, or `None` once it has stopped.
pub open spec fn depth_after(hits: nat) -> Option<u32>
    decreases hits,
{
    if hits == 0 {
        Some(0u32)
    } else {
        match depth_after((hits - 1) as nat) {
            Some(d) => match bounce_of(d, true) {
                Bounce::Scatter(n) => Some(n),
                _ => None,
            },
            None => None,
        }
    }
}

/// Every path ends within the budget: after `hits` consecutive hits a path
/// is `hits` bounces deep while `hits` stays below the budget, and has
/// stopped from then on.
pub proof fn lemma_paths_end_within_budget(hits: nat)
    ensures
        hits < MAX_BOUNCES ==> depth_after(hits) == Some(hits as u32),
        hits >= MAX_BOUNCES ==> depth_after(hits) is None,
    decreases hits,
{
    if hits > 0 {
        lemma_paths_end_within_budget((hits - 1) as nat);
    }
}

} // verus!
