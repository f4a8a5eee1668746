//! The scene: an unordered collection of primitives, resolved against a ray
//! by a brute-force linear scan that keeps the globally nearest hit.

use vstd::prelude::*;
use crate::ray::{Ray, Rays, Hit, Hits};
use crate::primitive::{Primitive, PrimitiveS, spec_primitive_hit, opt_hit_view, lemma_primitive_hit_nonneg};

verus! {

/// The nearest hit among the first primitives of the sequence, scanning
/// left to right; on equal distances the earlier primitive wins.
pub open spec fn spec_cast(ps: Seq<PrimitiveS>, r: Rays) -> Option<Hits>
    decreases ps.len(),
{
    if ps.len() == 0 {
        Option::None
    } else {
        let prev = spec_cast(ps.drop_last(), r);
        let cur = spec_primitive_hit(ps.last(), r);
        match prev {
            Option::None => cur,
            Option::Some(p) => match cur {
                Option::None => Option::Some(p),
                Option::Some(c) => if c.distance < p.distance {
                    Option::Some(c)
                } else {
                    Option::Some(p)
                },
            },
        }
    }
}

/// What the scan guarantees: no hit only when no primitive reports one, and
/// otherwise a hit of some primitive whose distance no other hit undercuts.
pub proof fn lemma_cast_nearest(ps: Seq<PrimitiveS>, r: Rays)
    ensures
        spec_cast(ps, r) is None ==> forall|i: int|
            0 <= i < ps.len() ==> spec_primitive_hit(ps[i], r) is None,
        spec_cast(ps, r) matches Some(h) ==> exists|i: int|
            0 <= i < ps.len() && spec_primitive_hit(ps[i], r) == Option::Some(h),
        spec_cast(ps, r) matches Some(h) ==> forall|i: int|
            0 <= i < ps.len() ==> (#[trigger] spec_primitive_hit(ps[i], r) matches Some(hi)
                ==> h.distance <= hi.distance),
    decreases ps.len(),
{
    if ps.len() == 0 {
    } else {
        lemma_cast_nearest(ps.drop_last(), r);
        let prev = spec_cast(ps.drop_last(), r);
        let cur = spec_primitive_hit(ps.last(), r);
        assert(forall|i: int| 0 <= i < ps.len() - 1 ==> ps.drop_last()[i] == ps[i]);
        assert(ps.last() == ps[ps.len() - 1]);
        if prev is Some {
            let p = prev->Some_0;
            assert(exists|i: int|
                0 <= i < ps.len() - 1 && spec_primitive_hit(ps.drop_last()[i], r)
                    == Option::Some(p));
            let w = choose|i: int|
                0 <= i < ps.len() - 1 && spec_primitive_hit(ps.drop_last()[i], r)
                    == Option::Some(p);
            assert(spec_primitive_hit(ps[w], r) == Option::Some(p));
        }
    }
}

/// The scene, owning its primitives.  Membership is an unordered list: the
/// order only breaks ties between coincident hit distances.
pub struct World {
    pub primitives: Vec<Primitive>,
}

impl View for World {
    type V = Seq<PrimitiveS>;

    open spec fn view(&self) -> Seq<PrimitiveS> {
        self.primitives@.map_values(|p: Primitive| p@)
    }
}

impl World {
    /// Resolves a ray to its globally nearest hit across all primitives:
    /// the hit of smallest distance, earlier primitives winning ties, or
    /// nothing — in particular, always nothing in an empty world.
    pub fn cast(&self, r: &Ray) -> (res: Option<Hit>)
        ensures
            opt_hit_view(res) == spec_cast(self@, r@),
            res is None ==> forall|i: int|
                0 <= i < self@.len() ==> spec_primitive_hit(self@[i], r@) is None,
            res matches Some(h) ==> exists|i: int|
                0 <= i < self@.len() && spec_primitive_hit(self@[i], r@) == Option::Some(h@),
            res matches Some(h) ==> forall|i: int|
                0 <= i < self@.len() ==> (#[trigger] spec_primitive_hit(self@[i], r@)
                    matches Some(hi) ==> h@.distance <= hi.distance),
            res matches Some(h) ==> h@.distance >= 0,
            self@.len() == 0 ==> res is None,
    {
        let mut best: Option<Hit> = None;
        let mut i: usize = 0;
        let n: usize = self.primitives.len();
        while i < n
            invariant
                0 <= i <= n,
                n == self.primitives.len(),
                opt_hit_view(best) == spec_cast(self@.take(i as int), r@),
            decreases n - i,
        {
            let cur = self.primitives[i].nearest_intersection(r);
            let merged: Option<Hit> = match (best, cur) {
                (None, c) => c,
                (Some(p), None) => Some(p),
                (Some(p), Some(c)) => if c.distance < p.distance {
                    Some(c)
                } else {
                    Some(p)
                },
            };
            best = merged;
            proof {
                assert(self@.take(i + 1 as int).drop_last() =~= self@.take(i as int));
                assert(self@.take(i + 1 as int).last() == self@[i as int]);
            }
            i = i + 1;
        }
        proof {
            assert(self@.take(n as int) =~= self@);
            lemma_cast_nearest(self@, r@);
            if best is Some {
                let h = best->Some_0;
                let w = choose|i: int|
                    0 <= i < self@.len() && spec_primitive_hit(self@[i], r@) == Option::Some(h@);
                lemma_primitive_hit_nonneg(self@[w], r@);
            }
        }
        best
    }
}

impl Ray {
    /// Casts this ray against a world: the same resolution as `World::cast`,
    /// offered from the ray's side.
    pub fn cast(&self, w: &World) -> (res: Option<Hit>)
        ensures
            opt_hit_view(res) == spec_cast(w@, self@),
            res is None ==> forall|i: int|
                0 <= i < w@.len() ==> spec_primitive_hit(w@[i], self@) is None,
            res matches Some(h) ==> exists|i: int|
                0 <= i < w@.len() && spec_primitive_hit(w@[i], self@) == Option::Some(h@),
            res matches Some(h) ==> h@.distance >= 0,
            w@.len() == 0 ==> res is None,
    {
        w.cast(self)
    }
}

} // verus!
