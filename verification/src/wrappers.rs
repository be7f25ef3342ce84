use vstd::prelude::*;

use crate::field::ScalarField;

verus! {

/// Exposes an N-dimensional field as an (N+1)-dimensional one by discarding
/// the trailing coordinate of every point. A 2D composite terrain wrapped
/// this way satisfies a 3D sampling interface.
pub struct TerrainWrapper<'a, F> {
    pub terrain: &'a F,
}

impl<'a, F: ScalarField> TerrainWrapper<'a, F> {
    pub fn new(terrain: &'a F) -> (r: Self)
        ensures
            r == (TerrainWrapper { terrain: terrain }),
    {
        TerrainWrapper { terrain }
    }
}

impl<'a, F: ScalarField> ScalarField for TerrainWrapper<'a, F> {
    open spec fn spec_eval(&self, p: Seq<i64>) -> i64 {
        if p.len() == 0 {
            self.terrain.spec_eval(p)
        } else {
            self.terrain.spec_eval(p.drop_last())
        }
    }

    fn get(&self, point: &Vec<i64>) -> (r: i64) {
        if point.len() == 0 {
            self.terrain.get(point)
        } else {
            let mut inner: Vec<i64> = Vec::new();
            let mut i: usize = 0;
            while i < point.len() - 1
                invariant
                    point@.len() >= 1,
                    i <= point@.len() - 1,
                    inner@.len() == i,
                    forall|j: int| 0 <= j < i ==> inner@[j] == point@[j],
                decreases point@.len() - 1 - i,
            {
                inner.push(point[i]);
                i = i + 1;
            }
            proof {
                assert(inner@ =~= point@.drop_last());
            }
            self.terrain.get(&inner)
        }
    }
}

/// Presents an (N+1)-dimensional field as an N-dimensional one: a fixed
/// value for the extra trailing coordinate is appended to every point before
/// the inner field is evaluated.
pub struct ReduceWrapper<F> {
    pub source: F,
    pub fixed_coord: i64,
}

impl<F: ScalarField> ReduceWrapper<F> {
    pub fn new(source: F, fixed_coord: i64) -> (r: Self)
        ensures
            r == (ReduceWrapper { source: source, fixed_coord: fixed_coord }),
    {
        ReduceWrapper { source, fixed_coord }
    }
}

impl<F: ScalarField> ScalarField for ReduceWrapper<F> {
    open spec fn spec_eval(&self, p: Seq<i64>) -> i64 {
        self.source.spec_eval(p.push(self.fixed_coord))
    }

    fn get(&self, point: &Vec<i64>) -> (r: i64) {
        let mut inner: Vec<i64> = Vec::new();
        let mut i: usize = 0;
        while i < point.len()
            invariant
                i <= point@.len(),
                inner@.len() == i,
                forall|j: int| 0 <= j < i ==> inner@[j] == point@[j],
            decreases point@.len() - i,
        {
            inner.push(point[i]);
            i = i + 1;
        }
        inner.push(self.fixed_coord);
        proof {
            assert(inner@ =~= point@.push(self.fixed_coord));
        }
        self.source.get(&inner)
    }
}

/// Reducing a lifted field gives back the original field at every point: the
/// appended fixed coordinate is exactly the one the lift discards.
pub proof fn lemma_reduce_lift_identity<F: ScalarField>(g: &F, fixed_coord: i64, p: Seq<i64>)
    ensures
        (ReduceWrapper {
            source: TerrainWrapper { terrain: g },
            fixed_coord: fixed_coord,
        }).spec_eval(p) == g.spec_eval(p),
{
    assert(p.push(fixed_coord).drop_last() =~= p);
}

} // verus!
