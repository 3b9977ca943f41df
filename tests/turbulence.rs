use rsvg_core::noise::{
    clamp_num_octaves, random, setup_seed, Lattice, NoiseType, StitchInfo, StitchTiles,
    LATTICE_LEN, RAND_M,
};
use rsvg_core::parsers::ParseError;

#[test]
fn turbulence_rng() {
    let mut r = 1;
    r = setup_seed(r);

    for _ in 0..10_000 {
        r = random(r);
    }

    assert_eq!(r, 1043618065);
}

#[test]
fn setup_seed_folds_non_positive_seeds() {
    assert_eq!(setup_seed(0), 1);
    assert_eq!(setup_seed(-1), 2);
    assert_eq!(setup_seed(-(RAND_M - 2)), RAND_M - 1);
    assert_eq!(setup_seed(-(RAND_M - 1)), 1);
    assert_eq!(setup_seed(i32::MIN), 3);
    for s in [-1_000_000, -7, i32::MIN + 1] {
        let r = setup_seed(s);
        assert!(1 <= r && r <= RAND_M - 1);
    }
}

#[test]
fn setup_seed_clamps_large_seeds() {
    assert_eq!(setup_seed(RAND_M), RAND_M - 1);
    assert_eq!(setup_seed(RAND_M - 1), RAND_M - 1);
    assert_eq!(setup_seed(42), 42);
}

#[test]
fn random_first_steps() {
    assert_eq!(random(1), 16807);
    assert_eq!(random(16807), 282475249);
    assert_eq!(random(RAND_M - 1), RAND_M - 16807);
}

#[test]
fn lattice_selector_is_a_duplicated_permutation() {
    let lattice = Lattice::new(0);
    let mut seen = [false; 256];
    for i in 0..256 {
        let v = lattice.selector_at(i);
        assert!(v < 256);
        assert!(!seen[v]);
        seen[v] = true;
    }
    for i in 256..LATTICE_LEN {
        assert_eq!(lattice.selector_at(i), lattice.selector_at(i - 256));
    }
}

#[test]
fn lattice_gradients_follow_the_generator() {
    let lattice = Lattice::new(1);
    let mut state = setup_seed(1);
    for k in 0..4 {
        for i in 0..256 {
            state = random(state);
            let gx = state % 512 - 256;
            state = random(state);
            let gy = state % 512 - 256;
            assert_eq!(lattice.gradient_at(k, i), (gx, gy));
        }
        for i in 256..LATTICE_LEN {
            assert_eq!(lattice.gradient_at(k, i), lattice.gradient_at(k, i - 256));
        }
    }
}

#[test]
fn lattice_is_determined_by_seed() {
    let a = Lattice::new(17);
    let b = Lattice::new(17);
    let c = Lattice::new(18);
    let mut differs = false;
    for i in 0..LATTICE_LEN {
        assert_eq!(a.selector_at(i), b.selector_at(i));
        for k in 0..4 {
            assert_eq!(a.gradient_at(k, i), b.gradient_at(k, i));
        }
        differs |= a.gradient_at(0, i) != c.gradient_at(0, i);
    }
    assert!(differs);
}

#[test]
fn corners_hash_through_the_permutation() {
    let lattice = Lattice::new(3);
    let p = |i: usize| lattice.selector_at(i);
    let (bx, by) = (4096 + 10, 4096 + 20);
    let i = p(bx & 0xff);
    let j = p((bx + 1) & 0xff);
    let expected = (
        p(i + (by & 0xff)),
        p(j + (by & 0xff)),
        p(i + ((by + 1) & 0xff)),
        p(j + ((by + 1) & 0xff)),
    );
    assert_eq!(lattice.corners(bx, by, None), expected);
}

#[test]
fn corners_wrap_when_stitching() {
    let lattice = Lattice::new(3);
    let stitch = StitchInfo::new(8, 6, 0, 0);
    assert_eq!(stitch.wrap_x, 4096 + 8);
    assert_eq!(stitch.wrap_y, 4096 + 6);
    // The cell just below the wrap point has its right corner wrapped back
    // to the tile's first column.
    let at_edge = lattice.corners(4096 + 7, 4096 + 5, Some(stitch));
    let at_start = lattice.corners(4096 - 1, 4096 - 1, None);
    assert_eq!(at_edge.3, at_start.3);
    assert_eq!(
        lattice.corners(4096 + 8, 4096, Some(stitch)),
        lattice.corners(4096, 4096, Some(stitch))
    );
}

#[test]
fn stitch_doubles_per_octave() {
    let mut stitch = StitchInfo::new(8, 6, 3, 5);
    assert_eq!(stitch.wrap_x, 3 + 4096 + 8);
    stitch.next_octave();
    assert_eq!(stitch.width, 16);
    assert_eq!(stitch.height, 12);
    assert_eq!(stitch.wrap_x, 2 * (3 + 4096 + 8) - 4096);
    assert_eq!(stitch.wrap_y, 2 * (5 + 4096 + 6) - 4096);
}

#[test]
fn octaves_are_clamped() {
    assert_eq!(clamp_num_octaves(1), 1);
    assert_eq!(clamp_num_octaves(9), 9);
    assert_eq!(clamp_num_octaves(10), 9);
    assert_eq!(clamp_num_octaves(1000), 9);
}

#[test]
fn parses_stitch_tiles_and_noise_type() {
    assert_eq!(StitchTiles::parse_str("stitch"), Ok(StitchTiles::Stitch));
    assert_eq!(StitchTiles::parse_str(" noStitch "), Ok(StitchTiles::NoStitch));
    assert_eq!(StitchTiles::parse_str("NOSTITCH"), Ok(StitchTiles::NoStitch));
    assert_eq!(StitchTiles::parse_str(""), Err(ParseError::EndOfInput));
    assert_eq!(StitchTiles::parse_str("stitch x"), Err(ParseError::UnexpectedToken));
    assert_eq!(NoiseType::parse_str("fractalNoise"), Ok(NoiseType::FractalNoise));
    assert_eq!(NoiseType::parse_str("turbulence"), Ok(NoiseType::Turbulence));
    assert_eq!(NoiseType::parse_str("3"), Err(ParseError::UnexpectedToken));
    assert_eq!(NoiseType::default(), NoiseType::Turbulence);
    assert_eq!(StitchTiles::default(), StitchTiles::NoStitch);
}
