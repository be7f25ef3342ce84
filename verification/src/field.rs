use vstd::prelude::*;

use crate::arith::{avg_spec, average, sat_abs, sat_abs_spec, sat_add, sat_add_spec, sat_mul,
    sat_mul_spec};

verus! {

/// A scalar field: a pure, total mapping from an N-dimensional point to a
/// fixed-point value. `spec_eval` gives the mathematical meaning of the
/// field; `get` computes it. A field never mutates itself or its children,
/// so evaluation depends only on the point and the construction-time
/// parameters.
pub trait ScalarField {
    /// The value of the field at `p`.
    spec fn spec_eval(&self, p: Seq<i64>) -> i64;

    /// Evaluate the field at `point`.
    fn get(&self, point: &Vec<i64>) -> (r: i64)
        ensures
            r == self.spec_eval(point@),
    ;
}

/// The field that takes one fixed value everywhere, at any dimensionality.
#[derive(Clone, Copy)]
pub struct Constant {
    pub value: i64,
}

impl Constant {
    pub fn new(value: i64) -> (r: Self)
        ensures
            r == (Constant { value: value }),
    {
        Constant { value }
    }
}

impl ScalarField for Constant {
    open spec fn spec_eval(&self, p: Seq<i64>) -> i64 {
        self.value
    }

    fn get(&self, point: &Vec<i64>) -> (r: i64) {
        self.value
    }
}

/// The saturating sum of every coordinate of a point.
pub open spec fn coord_sum(p: Seq<i64>) -> i64
    decreases p.len(),
{
    if p.len() == 0 {
        0
    } else {
        sat_add_spec(coord_sum(p.drop_last()), p.last())
    }
}

/// A simple deterministic base field: the saturating sum of the point's
/// coordinates. It stands in for an externally supplied generator wherever a
/// concrete, transparent field is wanted.
#[derive(Clone, Copy)]
pub struct CoordinateSum;

impl ScalarField for CoordinateSum {
    open spec fn spec_eval(&self, p: Seq<i64>) -> i64 {
        coord_sum(p)
    }

    fn get(&self, point: &Vec<i64>) -> (r: i64) {
        let mut acc: i64 = 0;
        let mut i: usize = 0;
        while i < point.len()
            invariant
                i <= point@.len(),
                acc == coord_sum(point@.take(i as int)),
            decreases point@.len() - i,
        {
            acc = sat_add(acc, point[i]);
            proof {
                let t = point@.take(i + 1);
                assert(t.drop_last() =~= point@.take(i as int));
                assert(t.last() == point@[i as int]);
            }
            i = i + 1;
        }
        proof {
            assert(point@.take(point@.len() as int) =~= point@);
        }
        acc
    }
}

/// Pointwise sum of two fields.
#[derive(Clone, Copy)]
pub struct Add<A, B> {
    pub source1: A,
    pub source2: B,
}

impl<A, B> Add<A, B> {
    pub fn new(source1: A, source2: B) -> (r: Self)
        ensures
            r == (Add { source1: source1, source2: source2 }),
    {
        Add { source1, source2 }
    }
}

impl<A: ScalarField, B: ScalarField> ScalarField for Add<A, B> {
    open spec fn spec_eval(&self, p: Seq<i64>) -> i64 {
        sat_add_spec(self.source1.spec_eval(p), self.source2.spec_eval(p))
    }

    fn get(&self, point: &Vec<i64>) -> (r: i64) {
        sat_add(self.source1.get(point), self.source2.get(point))
    }
}

/// Pointwise product of two fields.
#[derive(Clone, Copy)]
pub struct Multiply<A, B> {
    pub source1: A,
    pub source2: B,
}

impl<A, B> Multiply<A, B> {
    pub fn new(source1: A, source2: B) -> (r: Self)
        ensures
            r == (Multiply { source1: source1, source2: source2 }),
    {
        Multiply { source1, source2 }
    }
}

impl<A: ScalarField, B: ScalarField> ScalarField for Multiply<A, B> {
    open spec fn spec_eval(&self, p: Seq<i64>) -> i64 {
        sat_mul_spec(self.source1.spec_eval(p), self.source2.spec_eval(p))
    }

    fn get(&self, point: &Vec<i64>) -> (r: i64) {
        sat_mul(self.source1.get(point), self.source2.get(point))
    }
}

/// Pointwise absolute value of a field.
#[derive(Clone, Copy)]
pub struct Abs<A> {
    pub source: A,
}

impl<A> Abs<A> {
    pub fn new(source: A) -> (r: Self)
        ensures
            r == (Abs { source: source }),
    {
        Abs { source }
    }
}

impl<A: ScalarField> ScalarField for Abs<A> {
    open spec fn spec_eval(&self, p: Seq<i64>) -> i64 {
        sat_abs_spec(self.source.spec_eval(p))
    }

    fn get(&self, point: &Vec<i64>) -> (r: i64) {
        sat_abs(self.source.get(point))
    }
}

/// Pointwise arithmetic mean of two fields, rounded toward zero. Chained
/// pairwise means are how composite terrains blend their contributions.
#[derive(Clone, Copy)]
pub struct Average<A, B> {
    pub source1: A,
    pub source2: B,
}

impl<A, B> Average<A, B> {
    pub fn new(source1: A, source2: B) -> (r: Self)
        ensures
            r == (Average { source1: source1, source2: source2 }),
    {
        Average { source1, source2 }
    }
}

impl<A: ScalarField, B: ScalarField> ScalarField for Average<A, B> {
    open spec fn spec_eval(&self, p: Seq<i64>) -> i64 {
        avg_spec(self.source1.spec_eval(p), self.source2.spec_eval(p))
    }

    fn get(&self, point: &Vec<i64>) -> (r: i64) {
        average(self.source1.get(point), self.source2.get(point))
    }
}

/// Additive identity: adding the zero field to any field changes nothing.
pub proof fn lemma_add_identity<F: ScalarField>(f: F, p: Seq<i64>)
    ensures
        (Add { source1: Constant { value: 0 }, source2: f }).spec_eval(p) == f.spec_eval(p),
{
}

/// Multiplicative identity: multiplying any field by the one field changes
/// nothing.
pub proof fn lemma_multiply_identity<F: ScalarField>(f: F, p: Seq<i64>)
    ensures
        (Multiply { source1: Constant { value: 1 }, source2: f }).spec_eval(p) == f.spec_eval(p),
{
}

/// The absolute value of any field is nonnegative at every point.
pub proof fn lemma_abs_nonnegative<F: ScalarField>(f: F, p: Seq<i64>)
    ensures
        (Abs { source: f }).spec_eval(p) >= 0,
{
}

} // verus!
