use vstd::prelude::*;

use crate::arith::{sat_add, sat_add_spec, sat_mul, sat_mul_spec};
use crate::field::{Constant, ScalarField};

verus! {

/// Offset added to axes 0 and 1 of the second warp sample, so that the two
/// displacements decorrelate instead of shifting both axes identically.
pub const WARP_SAMPLE_OFFSET: i64 = 100;

/// The point at which the first warp sample is taken: the original point
/// scaled by `warp_freq` on every axis.
pub open spec fn warp_sample_a(p: Seq<i64>, warp_freq: i64) -> Seq<i64> {
    p.map_values(|c: i64| sat_mul_spec(c, warp_freq))
}

/// The point at which the second warp sample is taken: the scaled point with
/// the fixed offset added to axes 0 and 1.
pub open spec fn warp_sample_b(p: Seq<i64>, warp_freq: i64) -> Seq<i64> {
    let q = warp_sample_a(p, warp_freq);
    q.update(0, sat_add_spec(q[0], WARP_SAMPLE_OFFSET)).update(
        1,
        sat_add_spec(q[1], WARP_SAMPLE_OFFSET),
    )
}

/// The warped point: each warp sample, scaled by `warp_strength`, displaces
/// one of the first two axes; every other axis passes through unchanged.
pub open spec fn warp_displaced(
    p: Seq<i64>,
    sample_a: i64,
    sample_b: i64,
    warp_strength: i64,
) -> Seq<i64> {
    p.update(0, sat_add_spec(p[0], sat_mul_spec(sample_a, warp_strength))).update(
        1,
        sat_add_spec(p[1], sat_mul_spec(sample_b, warp_strength)),
    )
}

/// Where a domain warp with warp field `w` sends the point `p`.
pub open spec fn warped_point<W: ScalarField>(
    w: &W,
    p: Seq<i64>,
    warp_strength: i64,
    warp_freq: i64,
) -> Seq<i64> {
    warp_displaced(
        p,
        w.spec_eval(warp_sample_a(p, warp_freq)),
        w.spec_eval(warp_sample_b(p, warp_freq)),
        warp_strength,
    )
}

/// The two points at which a domain warp samples its warp field for `point`.
pub fn warp_sample_inputs(point: &Vec<i64>, warp_freq: i64) -> (r: (Vec<i64>, Vec<i64>))
    requires
        point@.len() >= 2,
    ensures
        r.0@ == warp_sample_a(point@, warp_freq),
        r.1@ == warp_sample_b(point@, warp_freq),
{
    let mut scaled: Vec<i64> = Vec::new();
    let mut i: usize = 0;
    while i < point.len()
        invariant
            i <= point@.len(),
            scaled@.len() == i,
            forall|j: int| 0 <= j < i ==> scaled@[j] == sat_mul_spec(point@[j], warp_freq),
        decreases point@.len() - i,
    {
        let v = sat_mul(point[i], warp_freq);
        scaled.push(v);
        i = i + 1;
    }
    proof {
        assert(scaled@ =~= warp_sample_a(point@, warp_freq));
    }
    let mut shifted: Vec<i64> = Vec::new();
    let mut k: usize = 0;
    while k < scaled.len()
        invariant
            k <= scaled@.len(),
            shifted@.len() == k,
            scaled@.len() >= 2,
            scaled@ == warp_sample_a(point@, warp_freq),
            forall|j: int|
                0 <= j < k ==> shifted@[j] == warp_sample_b(point@, warp_freq)[j],
        decreases scaled@.len() - k,
    {
        let v = if k < 2 {
            sat_add(scaled[k], WARP_SAMPLE_OFFSET)
        } else {
            scaled[k]
        };
        shifted.push(v);
        k = k + 1;
    }
    proof {
        assert(shifted@ =~= warp_sample_b(point@, warp_freq));
    }
    (scaled, shifted)
}

/// Apply the warp displacements drawn at the two sample points to `point`.
pub fn warp_apply(point: &Vec<i64>, sample_a: i64, sample_b: i64, warp_strength: i64) -> (r: Vec<
    i64,
>)
    requires
        point@.len() >= 2,
    ensures
        r@ == warp_displaced(point@, sample_a, sample_b, warp_strength),
{
    let dx = sat_mul(sample_a, warp_strength);
    let dy = sat_mul(sample_b, warp_strength);
    let mut out: Vec<i64> = Vec::new();
    let mut i: usize = 0;
    while i < point.len()
        invariant
            i <= point@.len(),
            point@.len() >= 2,
            out@.len() == i,
            dx == sat_mul_spec(sample_a, warp_strength),
            dy == sat_mul_spec(sample_b, warp_strength),
            forall|j: int|
                0 <= j < i ==> out@[j] == warp_displaced(
                    point@,
                    sample_a,
                    sample_b,
                    warp_strength,
                )[j],
        decreases point@.len() - i,
    {
        let v = if i == 0 {
            sat_add(point[0], dx)
        } else if i == 1 {
            sat_add(point[1], dy)
        } else {
            point[i]
        };
        out.push(v);
        i = i + 1;
    }
    proof {
        assert(out@ =~= warp_displaced(point@, sample_a, sample_b, warp_strength));
    }
    out
}

/// Perturbs the coordinates fed to a primary field using displacements drawn
/// from a warp field, producing organic, non-axis-aligned distortion. Only
/// the first two axes are warped; any further axes pass through unchanged,
/// so the operator composes predictably with reduced or lifted fields. A
/// point with fewer than two axes is evaluated directly: that is a defined
/// no-op, not an error.
#[derive(Clone, Copy)]
pub struct DomainWarp<WarpNoise, PrimaryNoise> {
    pub warp_strength: i64,
    pub warp_freq: i64,
    pub warp_noise: WarpNoise,
    pub primary_noise: PrimaryNoise,
}

impl<WarpNoise, PrimaryNoise> DomainWarp<WarpNoise, PrimaryNoise> {
    pub fn new(
        primary_noise: PrimaryNoise,
        warp_noise: WarpNoise,
        warp_strength: i64,
        warp_freq: i64,
    ) -> (r: Self)
        ensures
            r == (DomainWarp {
                warp_strength: warp_strength,
                warp_freq: warp_freq,
                warp_noise: warp_noise,
                primary_noise: primary_noise,
            }),
    {
        DomainWarp { warp_strength, warp_freq, warp_noise, primary_noise }
    }
}

impl<WarpNoise: ScalarField, PrimaryNoise: ScalarField> ScalarField for DomainWarp<
    WarpNoise,
    PrimaryNoise,
> {
    open spec fn spec_eval(&self, p: Seq<i64>) -> i64 {
        if p.len() >= 2 {
            self.primary_noise.spec_eval(
                warped_point(&self.warp_noise, p, self.warp_strength, self.warp_freq),
            )
        } else {
            self.primary_noise.spec_eval(p)
        }
    }

    fn get(&self, point: &Vec<i64>) -> (r: i64) {
        if point.len() >= 2 {
            let (sample_a, sample_b) = warp_sample_inputs(point, self.warp_freq);
            let va = self.warp_noise.get(&sample_a);
            let vb = self.warp_noise.get(&sample_b);
            let warped = warp_apply(point, va, vb, self.warp_strength);
            self.primary_noise.get(&warped)
        } else {
            self.primary_noise.get(point)
        }
    }
}

/// A warp of strength zero evaluates the primary field at the original,
/// unwarped point, whatever the warp field and frequency.
pub proof fn lemma_warp_strength_zero<WarpNoise: ScalarField, PrimaryNoise: ScalarField>(
    primary_noise: PrimaryNoise,
    warp_noise: WarpNoise,
    warp_freq: i64,
    p: Seq<i64>,
)
    ensures
        (DomainWarp {
            warp_strength: 0,
            warp_freq: warp_freq,
            warp_noise: warp_noise,
            primary_noise: primary_noise,
        }).spec_eval(p) == primary_noise.spec_eval(p),
{
    if p.len() >= 2 {
        let va = warp_noise.spec_eval(warp_sample_a(p, warp_freq));
        let vb = warp_noise.spec_eval(warp_sample_b(p, warp_freq));
        assert(sat_mul_spec(va, 0) == 0);
        assert(sat_mul_spec(vb, 0) == 0);
        assert(warp_displaced(p, va, vb, 0) =~= p);
    }
}

/// A point with fewer than two axes is never warped: the primary field is
/// evaluated directly on the original point. This is a defined no-op, not an
/// error.
pub proof fn lemma_warp_low_dimension<WarpNoise: ScalarField, PrimaryNoise: ScalarField>(
    primary_noise: PrimaryNoise,
    warp_noise: WarpNoise,
    warp_strength: i64,
    warp_freq: i64,
    p: Seq<i64>,
)
    requires
        p.len() < 2,
    ensures
        (DomainWarp {
            warp_strength: warp_strength,
            warp_freq: warp_freq,
            warp_noise: warp_noise,
            primary_noise: primary_noise,
        }).spec_eval(p) == primary_noise.spec_eval(p),
{
}

/// A constant-zero warp field displaces nothing, whatever the strength and
/// frequency.
pub proof fn lemma_zero_warp_field<PrimaryNoise: ScalarField>(
    primary_noise: PrimaryNoise,
    warp_strength: i64,
    warp_freq: i64,
    p: Seq<i64>,
)
    ensures
        (DomainWarp {
            warp_strength: warp_strength,
            warp_freq: warp_freq,
            warp_noise: Constant { value: 0 },
            primary_noise: primary_noise,
        }).spec_eval(p) == primary_noise.spec_eval(p),
{
    if p.len() >= 2 {
        assert(sat_mul_spec(0, warp_strength) == 0);
        assert(warp_displaced(p, 0, 0, warp_strength) =~= p);
    }
}

/// The two warp samples are always taken at different points: the second
/// point carries the decorrelation offset on axis 0. The one exception is a
/// point whose scaled axis-0 coordinate already sits at the saturation
/// ceiling, where the offset cannot move it further.
pub proof fn lemma_warp_samples_distinct(p: Seq<i64>, warp_freq: i64)
    requires
        p.len() >= 2,
        sat_mul_spec(p[0], warp_freq) != i64::MAX,
    ensures
        warp_sample_a(p, warp_freq) != warp_sample_b(p, warp_freq),
{
    let a = warp_sample_a(p, warp_freq);
    let b = warp_sample_b(p, warp_freq);
    assert(a[0] == sat_mul_spec(p[0], warp_freq));
    assert(b[0] == sat_add_spec(a[0], WARP_SAMPLE_OFFSET));
    assert(b[0] != a[0]);
}

} // verus!
