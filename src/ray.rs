use vstd::prelude::*;

verus! {

/// A half-line `orig + t * dir`. The component type `V` is the point/vector
/// type of the caller's geometry; the ray itself only pairs the two.
#[derive(Debug, Clone, Copy)]
pub struct Ray<V> {
    pub orig: V,
    pub dir: V,
}

impl<V> Ray<V> {
    /// A ray that starts at `orig` and runs along `dir`.
    pub fn new(orig: V, dir: V) -> (r: Self)
        ensures
            r.orig == orig,
            r.dir == dir,
    {
        Ray { orig, dir }
    }
}

} // verus!
