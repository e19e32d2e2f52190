use vstd::prelude::*;

verus! {

/// Which root of a ray-sphere quadratic is the hit.
#[derive(Debug, Clone, Copy, PartialEq, Eq, Structural)]
pub enum Root {
    /// The smaller root, `(-half_b - sqrt(discriminant)) / a`.
    Near,
    /// The larger root, `(-half_b + sqrt(discriminant)) / a`.
    Far,
}

/// The hit of a ray on a sphere, from the facts about its quadratic:
/// whether it has real roots (the discriminant is not negative), and whether
/// the smaller and the larger root lie inside the open interval
/// `(t_min, t_max)`. The nearest root in the interval is taken; without real
/// roots, or with neither in the interval, there is no hit.
pub fn choose_root(has_real_roots: bool, near_in_range: bool, far_in_range: bool) -> (c: Option<
    Root,
>)
    ensures
        c is None <==> (!has_real_roots || (!near_in_range && !far_in_range)),
        c == Some(Root::Near) <==> (has_real_roots && near_in_range),
        c == Some(Root::Far) <==> (has_real_roots && !near_in_range && far_in_range),
{
    if !has_real_roots {
        None
    } else if near_in_range {
        Some(Root::Near)
    } else if far_in_range {
        Some(Root::Far)
    } else {
        None
    }
}

} // verus!
