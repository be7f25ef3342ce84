use vstd::prelude::*;

use crate::arith::{avg_spec, average, sat_abs, sat_abs_spec, sat_add, sat_add_spec, sat_mul,
    sat_mul_spec};
use crate::field::{Abs, Add, Average, Constant, Multiply, ScalarField};
use crate::warp::{warped_point, DomainWarp};

verus! {

/// Seeds for the base generators, derived from one root seed with fixed,
/// distinct offsets so that generators of the same family decorrelate.
#[derive(Clone, Copy)]
pub struct TerrainSeeds {
    pub perlin: u32,
    pub fbm_perlin: u32,
    pub worley: u32,
    pub fbm_worley: u32,
    pub billow: u32,
}

/// `seed + off`, wrapped at the `u32` boundary.
pub open spec fn wrapped_offset(seed: u32, off: u32) -> int {
    if seed + off <= u32::MAX {
        seed + off
    } else {
        seed + off - 0x1_0000_0000
    }
}

fn seed_offset(seed: u32, off: u32) -> (r: u32)
    ensures
        r == wrapped_offset(seed, off),
{
    let s: u64 = seed as u64 + off as u64;
    if s > u32::MAX as u64 {
        (s - 0x1_0000_0000) as u32
    } else {
        s as u32
    }
}

/// Derive the base-generator seeds from one root seed. The offsets are
/// tuning defaults; what the contract guarantees is that the derivation is
/// deterministic and that all five seeds are pairwise distinct.
pub fn terrain_seeds(seed: u32) -> (r: TerrainSeeds)
    ensures
        r.perlin == seed,
        r.fbm_perlin == wrapped_offset(seed, 2),
        r.worley == wrapped_offset(seed, 13),
        r.fbm_worley == wrapped_offset(seed, 129),
        r.billow == wrapped_offset(seed, 864),
        r.perlin != r.fbm_perlin,
        r.perlin != r.worley,
        r.perlin != r.fbm_worley,
        r.perlin != r.billow,
        r.fbm_perlin != r.worley,
        r.fbm_perlin != r.fbm_worley,
        r.fbm_perlin != r.billow,
        r.worley != r.fbm_worley,
        r.worley != r.billow,
        r.fbm_worley != r.billow,
{
    TerrainSeeds {
        perlin: seed,
        fbm_perlin: seed_offset(seed, 2),
        worley: seed_offset(seed, 13),
        fbm_worley: seed_offset(seed, 129),
        billow: seed_offset(seed, 864),
    }
}

/// The composite terrain field: an inverted-ridge transform of the fractal
/// base blended, by chained pairwise means, with three domain-warped base
/// fields that all share the fractal base as their warp source.
pub open spec fn terrain_tree<A, B, C>(
    fbm_perlin: A,
    fbm_worley: B,
    billow: C,
    warp_strength: i64,
    warp_freq: i64,
    ridge_shift: i64,
    ridge_scale: i64,
) -> Average<
    Average<Multiply<Add<Abs<A>, Constant>, Constant>, DomainWarp<A, A>>,
    Average<DomainWarp<A, B>, DomainWarp<A, C>>,
> {
    Average {
        source1: Average {
            source1: Multiply {
                source1: Add {
                    source1: Abs { source: fbm_perlin },
                    source2: Constant { value: ridge_shift },
                },
                source2: Constant { value: ridge_scale },
            },
            source2: DomainWarp {
                warp_strength: warp_strength,
                warp_freq: warp_freq,
                warp_noise: fbm_perlin,
                primary_noise: fbm_perlin,
            },
        },
        source2: Average {
            source1: DomainWarp {
                warp_strength: warp_strength,
                warp_freq: warp_freq,
                warp_noise: fbm_perlin,
                primary_noise: fbm_worley,
            },
            source2: DomainWarp {
                warp_strength: warp_strength,
                warp_freq: warp_freq,
                warp_noise: fbm_perlin,
                primary_noise: billow,
            },
        },
    }
}

/// Assemble the composite terrain field from the three base generators.
///
/// The fractal base serves three roles: directly, as the source of the
/// inverted ridge (its absolute value shifted by `ridge_shift` and rescaled
/// by `ridge_scale`, folding negative excursions back in while flipping the
/// height polarity); as a domain-warped contribution of its own; and as the
/// shared warp source of all three warped contributions.
pub fn generate_terrain<A, B, C>(
    fbm_perlin: A,
    fbm_worley: B,
    billow: C,
    warp_strength: i64,
    warp_freq: i64,
    ridge_shift: i64,
    ridge_scale: i64,
) -> (t: Average<
    Average<Multiply<Add<Abs<A>, Constant>, Constant>, DomainWarp<A, A>>,
    Average<DomainWarp<A, B>, DomainWarp<A, C>>,
>) where A: ScalarField + Copy, B: ScalarField, C: ScalarField
    ensures
        t == terrain_tree(
            fbm_perlin,
            fbm_worley,
            billow,
            warp_strength,
            warp_freq,
            ridge_shift,
            ridge_scale,
        ),
{
    let abs_noise = Abs::new(fbm_perlin);
    let reversed_noise = Multiply::new(
        Add::new(abs_noise, Constant::new(ridge_shift)),
        Constant::new(ridge_scale),
    );
    let perlin_warp_noise = DomainWarp::new(fbm_perlin, fbm_perlin, warp_strength, warp_freq);
    let worley_warp_noise = DomainWarp::new(fbm_worley, fbm_perlin, warp_strength, warp_freq);
    let billow_warp_noise = DomainWarp::new(billow, fbm_perlin, warp_strength, warp_freq);
    let perlin_sum = Average::new(reversed_noise, perlin_warp_noise);
    let worley_billow_sum = Average::new(worley_warp_noise, billow_warp_noise);
    Average::new(perlin_sum, worley_billow_sum)
}

/// The inverted-ridge transform of a base sample.
pub open spec fn ridge_value(sample: i64, ridge_shift: i64, ridge_scale: i64) -> i64 {
    sat_mul_spec(sat_add_spec(sat_abs_spec(sample), ridge_shift), ridge_scale)
}

/// The terrain height, given the four base samples it is blended from: the
/// fractal base at the point itself, and the three warped contributions at
/// the shared warped point.
pub open spec fn terrain_height(
    direct: i64,
    fbm_perlin_warped: i64,
    fbm_worley_warped: i64,
    billow_warped: i64,
    ridge_shift: i64,
    ridge_scale: i64,
) -> i64 {
    avg_spec(
        avg_spec(ridge_value(direct, ridge_shift, ridge_scale), fbm_perlin_warped),
        avg_spec(fbm_worley_warped, billow_warped),
    )
}

/// Blend base samples into the terrain height. Callers that evaluate the
/// base generators themselves (at the points `warp_sample_inputs` and
/// `warp_apply` dictate) hand the samples to this function and get exactly
/// the height the assembled terrain field takes.
pub fn terrain_height_from_samples(
    direct: i64,
    fbm_perlin_warped: i64,
    fbm_worley_warped: i64,
    billow_warped: i64,
    ridge_shift: i64,
    ridge_scale: i64,
) -> (h: i64)
    ensures
        h == terrain_height(
            direct,
            fbm_perlin_warped,
            fbm_worley_warped,
            billow_warped,
            ridge_shift,
            ridge_scale,
        ),
{
    let ridge = sat_mul(sat_add(sat_abs(direct), ridge_shift), ridge_scale);
    average(average(ridge, fbm_perlin_warped), average(fbm_worley_warped, billow_warped))
}

/// Evaluating the assembled terrain at a point of two or more dimensions
/// blends the ridge sample taken at the point itself with the three warped
/// samples, all taken at the one warped point the shared warp source yields.
pub proof fn lemma_terrain_tree_eval<A: ScalarField, B: ScalarField, C: ScalarField>(
    fbm_perlin: A,
    fbm_worley: B,
    billow: C,
    warp_strength: i64,
    warp_freq: i64,
    ridge_shift: i64,
    ridge_scale: i64,
    p: Seq<i64>,
)
    requires
        p.len() >= 2,
    ensures
        terrain_tree(
            fbm_perlin,
            fbm_worley,
            billow,
            warp_strength,
            warp_freq,
            ridge_shift,
            ridge_scale,
        ).spec_eval(p) == terrain_height(
            fbm_perlin.spec_eval(p),
            fbm_perlin.spec_eval(warped_point(&fbm_perlin, p, warp_strength, warp_freq)),
            fbm_worley.spec_eval(warped_point(&fbm_perlin, p, warp_strength, warp_freq)),
            billow.spec_eval(warped_point(&fbm_perlin, p, warp_strength, warp_freq)),
            ridge_shift,
            ridge_scale,
        ),
{
}

} // verus!
