use terrain_filter::field::{Constant, CoordinateSum, ScalarField};
use terrain_filter::terrain::{generate_terrain, terrain_height_from_samples, terrain_seeds};

#[test]
fn seeds_use_the_fixed_offsets() {
    let s = terrain_seeds(3);
    assert_eq!(s.perlin, 3);
    assert_eq!(s.fbm_perlin, 5);
    assert_eq!(s.worley, 16);
    assert_eq!(s.fbm_worley, 132);
    assert_eq!(s.billow, 867);
}

#[test]
fn seeds_wrap_at_the_boundary() {
    let s = terrain_seeds(u32::MAX);
    assert_eq!(s.perlin, u32::MAX);
    assert_eq!(s.fbm_perlin, 1);
    assert_eq!(s.worley, 12);
    assert_eq!(s.fbm_worley, 128);
    assert_eq!(s.billow, 863);
}

#[test]
fn seeds_are_pairwise_distinct() {
    for seed in [0, 1, 3, u32::MAX - 500, u32::MAX] {
        let s = terrain_seeds(seed);
        let all = [s.perlin, s.fbm_perlin, s.worley, s.fbm_worley, s.billow];
        for i in 0..all.len() {
            for j in 0..all.len() {
                if i != j {
                    assert_ne!(all[i], all[j]);
                }
            }
        }
    }
}

#[test]
fn height_blend_from_samples() {
    // ridge = (|-3| + -1) * -2 == -4; blend: avg(avg(-4, -3), avg(10, 20))
    // == avg(-3, 15) == 6.
    assert_eq!(terrain_height_from_samples(-3, -3, 10, 20, -1, -2), 6);
}

#[test]
fn terrain_of_constant_bases() {
    // Constant bases make every warp a no-op on the value; the height is the
    // same blend at every point.
    let t = generate_terrain(
        Constant::new(-3),
        Constant::new(10),
        Constant::new(20),
        1,
        1,
        -1,
        -2,
    );
    assert_eq!(t.get(&vec![0, 0]), 6);
    assert_eq!(t.get(&vec![55, -12]), 6);
    assert_eq!(t.get(&vec![1, 2, 3]), 6);
}

#[test]
fn terrain_warps_its_base_fields() {
    // Base and warp source CoordinateSum, strength 1, frequency 1, at [1, 2]:
    // warp samples 3 and 203 give the warped point [4, 205]. Ridge (shift 0,
    // scale 1) is |3| = 3; the warped fractal contribution is 209; the other
    // two bases are constant. avg(avg(3, 209), avg(10, 20)) == avg(106, 15)
    // == 60.
    let t = generate_terrain(
        CoordinateSum,
        Constant::new(10),
        Constant::new(20),
        1,
        1,
        0,
        1,
    );
    assert_eq!(t.get(&vec![1, 2]), 60);
}

#[test]
fn height_matches_manual_blend() {
    let direct = CoordinateSum.get(&vec![1, 2]);
    let h = terrain_height_from_samples(direct, 209, 10, 20, 0, 1);
    let t = generate_terrain(
        CoordinateSum,
        Constant::new(10),
        Constant::new(20),
        1,
        1,
        0,
        1,
    );
    assert_eq!(t.get(&vec![1, 2]), h);
}
