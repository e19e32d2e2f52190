use vstd::prelude::*;

use crate::scene::last_found;

verus! {

/// What the radiance estimate does with one ray.
pub enum Step<S> {
    /// The ray contributes nothing: the bounce budget is spent, or the
    /// surface it hit absorbed it.
    Black,
    /// The ray left the scene and sees the sky.
    Sky,
    /// The ray scattered; `scatter` (attenuation and outgoing ray) is traced
    /// further with the budget `depth`.
    Bounce { depth: i32, scatter: S },
}

/// The step for a ray with bounce budget `depth` whose scene query gave
/// `outcome`: `None` for a miss, `Some(None)` for a hit that absorbed the
/// ray, `Some(Some(s))` for a hit that scattered it as `s`. A spent budget
/// gives black whatever the query would give.
pub open spec fn step_for<S>(depth: int, outcome: Option<Option<S>>) -> Step<S> {
    if depth <= 0 {
        Step::Black
    } else {
        match outcome {
            None => Step::Sky,
            Some(None) => Step::Black,
            Some(Some(s)) => Step::Bounce { depth: (depth - 1) as i32, scatter: s },
        }
    }
}

/// With no primitives the scan finds nothing, and a ray that finds nothing
/// sees the sky whenever budget is left.
pub proof fn lemma_empty_scene_shows_sky<R, S>(depth: int)
    requires
        depth > 0,
    ensures
        last_found(Seq::<Option<R>>::empty()) is None,
        step_for::<S>(depth, None) == Step::<S>::Sky,
{
}

/// One step of the recursive radiance estimate. The scene is queried (by
/// `query`, which finds the nearest hit and lets its material scatter) only
/// when budget is left; the result is then decided by `step_for`.
pub fn integrator_step<S, Q: FnOnce() -> Option<Option<S>>>(depth: i32, query: Q) -> (s: Step<S>)
    requires
        depth > 0 ==> call_requires(query, ()),
    ensures
        depth <= 0 ==> s == Step::<S>::Black,
        depth > 0 ==> exists|outcome: Option<Option<S>>|
            call_ensures(query, (), outcome) && s == step_for(depth as int, outcome),
{
    if depth <= 0 {
        return Step::Black;
    }
    let outcome = query();
    let ghost queried = outcome;
    let s = match outcome {
        None => Step::Sky,
        Some(None) => Step::Black,
        Some(Some(scatter)) => Step::Bounce { depth: depth - 1, scatter },
    };
    assert(call_ensures(query, (), queried) && s == step_for(depth as int, queried));
    s
}

} // verus!
