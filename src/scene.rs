use vstd::prelude::*;

verus! {

/// Why a primitive could not be added to a scene.
#[derive(Debug, Clone, Copy, PartialEq, Eq, Structural)]
pub enum SceneError {
    /// The material index names no material of the scene.
    UnknownMaterial,
}

/// The last record found in `outs`, or `None` when none was found.
pub open spec fn last_found<R>(outs: Seq<Option<R>>) -> Option<R>
    decreases outs.len(),
{
    if outs.len() == 0 {
        None
    } else if outs.last() is Some {
        outs.last()
    } else {
        last_found(outs.drop_last())
    }
}

/// `outs` is what `test` returned for primitives `0, 1, ...` in turn, each
/// call given the best record found before it.
pub open spec fn scan_trace<R, F: Fn(usize, Option<R>) -> Option<R>>(
    test: F,
    outs: Seq<Option<R>>,
) -> bool {
    forall|k: int|
        #![trigger outs[k]]
        0 <= k < outs.len() ==> call_ensures(test, (k as usize, last_found(outs.take(k))), outs[k])
}

/// A scan whose tests only return a record strictly nearer (by the
/// transitive relation `nearer`) than the best record they were given ends
/// with the nearest record found: for every record found, the result is
/// that record or a nearer one, never a farther one.
pub proof fn lemma_scan_keeps_nearest<R>(outs: Seq<Option<R>>, nearer: spec_fn(R, R) -> bool)
    requires
        forall|a: R, b: R, c: R| #[trigger] nearer(a, b) && #[trigger] nearer(b, c) ==> nearer(a, c),
        forall|k: int|
            #![trigger outs[k]]
            0 <= k < outs.len() && outs[k] is Some && last_found(outs.take(k)) is Some ==> nearer(
                outs[k]->Some_0,
                last_found(outs.take(k))->Some_0,
            ),
    ensures
        forall|k: int|
            #![trigger outs[k]]
            0 <= k < outs.len() && outs[k] is Some ==> {
                &&& last_found(outs) is Some
                &&& last_found(outs) == outs[k] || nearer(
                    last_found(outs)->Some_0,
                    outs[k]->Some_0,
                )
            },
    decreases outs.len(),
{
    if outs.len() > 0 {
        let prev = outs.drop_last();
        let n = prev.len() as int;
        assert forall|k: int|
            0 <= k < prev.len() && #[trigger] prev[k] is Some && last_found(prev.take(k)) is Some implies nearer(
            prev[k]->Some_0,
            last_found(prev.take(k))->Some_0,
        ) by {
            assert(prev.take(k) =~= outs.take(k));
            assert(prev[k] == outs[k]);
        }
        lemma_scan_keeps_nearest(prev, nearer);
        assert(outs.take(n) =~= prev);
        assert forall|k: int| 0 <= k < outs.len() && #[trigger] outs[k] is Some implies {
            &&& last_found(outs) is Some
            &&& last_found(outs) == outs[k] || nearer(last_found(outs)->Some_0, outs[k]->Some_0)
        } by {
            if k < n {
                assert(prev[k] == outs[k]);
            }
        }
    }
}

/// A scene: an ordered list of primitives, each bound to one entry of a
/// table of materials. Materials are shared by index, so many primitives may
/// use one material, and nothing in the scene is changed while it is read.
pub struct Scene<P, M> {
    primitives: Vec<P>,
    bindings: Vec<usize>,
    materials: Vec<M>,
}

impl<P, M> Scene<P, M> {
    /// Each primitive has exactly one binding, and it names a material of
    /// the table.
    #[verifier::type_invariant]
    spec fn bound(self) -> bool {
        &&& self.bindings@.len() == self.primitives@.len()
        &&& forall|i: int|
            0 <= i < self.bindings@.len() ==> #[trigger] self.bindings@[i] < self.materials@.len()
    }

    /// The primitives, in the order they were added.
    pub closed spec fn spec_primitives(self) -> Seq<P> {
        self.primitives@
    }

    /// For each primitive, the index of its material.
    pub closed spec fn spec_bindings(self) -> Seq<usize> {
        self.bindings@
    }

    /// The material table, in the order the materials were added.
    pub closed spec fn spec_materials(self) -> Seq<M> {
        self.materials@
    }

    /// An empty scene: no primitives, no materials.
    pub fn new() -> (scene: Self)
        ensures
            scene.spec_primitives() == Seq::<P>::empty(),
            scene.spec_bindings() == Seq::<usize>::empty(),
            scene.spec_materials() == Seq::<M>::empty(),
    {
        Scene { primitives: Vec::new(), bindings: Vec::new(), materials: Vec::new() }
    }

    /// Appends `material` to the table and returns its index.
    pub fn add_material(&mut self, material: M) -> (id: usize)
        ensures
            id == old(self).spec_materials().len(),
            final(self).spec_materials() == old(self).spec_materials().push(material),
            final(self).spec_primitives() == old(self).spec_primitives(),
            final(self).spec_bindings() == old(self).spec_bindings(),
    {
        proof {
            use_type_invariant(&*self);
        }
        let mut taken: Scene<P, M> = Scene::new();
        std::mem::swap(&mut taken, self);
        proof {
            use_type_invariant(&taken);
        }
        let Scene { primitives, bindings, mut materials } = taken;
        let id = materials.len();
        materials.push(material);
        *self = Scene { primitives, bindings, materials };
        id
    }

    /// Appends `primitive`, bound to material `material`, and returns its
    /// index; a material index outside the table is refused and leaves the
    /// scene as it was.
    pub fn add(&mut self, primitive: P, material: usize) -> (r: Result<usize, SceneError>)
        ensures
            material < old(self).spec_materials().len() <==> r is Ok,
            r is Ok ==> {
                &&& r->Ok_0 == old(self).spec_primitives().len()
                &&& final(self).spec_primitives() == old(self).spec_primitives().push(primitive)
                &&& final(self).spec_bindings() == old(self).spec_bindings().push(material)
                &&& final(self).spec_materials() == old(self).spec_materials()
            },
            r is Err ==> {
                &&& r->Err_0 == SceneError::UnknownMaterial
                &&& final(self).spec_primitives() == old(self).spec_primitives()
                &&& final(self).spec_bindings() == old(self).spec_bindings()
                &&& final(self).spec_materials() == old(self).spec_materials()
            },
    {
        proof {
            use_type_invariant(&*self);
        }
        if material >= self.materials.len() {
            return Err(SceneError::UnknownMaterial);
        }
        let mut taken: Scene<P, M> = Scene::new();
        std::mem::swap(&mut taken, self);
        proof {
            use_type_invariant(&taken);
        }
        let Scene { mut primitives, mut bindings, materials } = taken;
        let index = primitives.len();
        primitives.push(primitive);
        bindings.push(material);
        *self = Scene { primitives, bindings, materials };
        Ok(index)
    }

    /// The nearest-hit scan: `test(k, best)` tests primitive `k` against the
    /// best record found so far and returns a record only where it does
    /// better. Each primitive is tested once, in order; the result is the
    /// last record returned, or `None` when no test returned one (so an empty
    /// scene gives `None`).
    pub fn nearest_hit<R: Copy, F: Fn(usize, Option<R>) -> Option<R>>(&self, test: F) -> (best:
        Option<R>)
        requires
            forall|k: usize, b: Option<R>|
                k < self.spec_primitives().len() ==> call_requires(test, (k, b)),
        ensures
            exists|outs: Seq<Option<R>>|
                {
                    &&& outs.len() == self.spec_primitives().len()
                    &&& scan_trace(test, outs)
                    &&& best == last_found(outs)
                },
    {
        let n = self.primitives.len();
        let mut best: Option<R> = None;
        let ghost mut outs: Seq<Option<R>> = Seq::empty();
        let mut k: usize = 0;
        while k < n
            invariant
                n == self.spec_primitives().len(),
                k <= n,
                outs.len() == k,
                scan_trace(test, outs),
                best == last_found(outs),
                forall|i: usize, b: Option<R>| i < n ==> call_requires(test, (i, b)),
            decreases n - k,
        {
            let found = test(k, best);
            proof {
                let next = outs.push(found);
                assert(next.take(k as int) =~= outs);
                assert(next.drop_last() =~= outs);
                assert forall|j: int| 0 <= j < next.len() implies call_ensures(
                    test,
                    (j as usize, last_found(next.take(j))),
                    #[trigger] next[j],
                ) by {
                    if j < k {
                        assert(next.take(j) =~= outs.take(j));
                    }
                }
                outs = next;
            }
            match found {
                Some(_) => {
                    best = found;
                },
                None => {},
            }
            k = k + 1;
        }
        best
    }

    /// The number of primitives.
    pub fn len(&self) -> (n: usize)
        ensures
            n == self.spec_primitives().len(),
    {
        self.primitives.len()
    }

    /// The primitives, in the order they were added.
    pub fn primitives(&self) -> (ps: &Vec<P>)
        ensures
            ps@ == self.spec_primitives(),
    {
        &self.primitives
    }

    /// The `index`-th primitive.
    pub fn primitive(&self, index: usize) -> (p: &P)
        requires
            index < self.spec_primitives().len(),
        ensures
            *p == self.spec_primitives()[index as int],
    {
        &self.primitives[index]
    }

    /// The index of the material bound to the `index`-th primitive; it always
    /// names a material of the table.
    pub fn material_of(&self, index: usize) -> (id: usize)
        requires
            index < self.spec_primitives().len(),
        ensures
            id == self.spec_bindings()[index as int],
            id < self.spec_materials().len(),
    {
        proof {
            use_type_invariant(self);
        }
        self.bindings[index]
    }

    /// The material with index `id`.
    pub fn material(&self, id: usize) -> (m: &M)
        requires
            id < self.spec_materials().len(),
        ensures
            *m == self.spec_materials()[id as int],
    {
        &self.materials[id]
    }
}

} // verus!
