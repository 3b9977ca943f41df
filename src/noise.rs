use vstd::arithmetic::div_mod::{lemma_fundamental_div_mod, lemma_mod_multiples_vanish};
use vstd::prelude::*;

use crate::parsers::{css_tokens_of, keyword_index, spec_keyword, tokenize, CssToken, ParseError};

verus! {

/// Modulus of the Park–Miller generator, 2^31 - 1.
pub const RAND_M: i32 = 2147483647;

/// Multiplier of the generator, 7^5, a primitive root of `RAND_M`.
pub const RAND_A: i32 = 16807;

/// `RAND_M / RAND_A`, used by Schrage's method.
pub const RAND_Q: i32 = 127773;

/// `RAND_M % RAND_A`, used by Schrage's method.
pub const RAND_R: i32 = 2836;

/// Quotient rounded toward zero, as Rust's `/` on signed integers.
pub open spec fn trunc_div(a: int, b: int) -> int {
    if a >= 0 { a / b } else { -((-a) / b) }
}

/// Remainder with the sign of the dividend, as Rust's `%` on signed integers.
pub open spec fn trunc_rem(a: int, b: int) -> int {
    if a >= 0 { a % b } else { -((-a) % b) }
}

/// The seed normalisation: non-positive seeds fold into `[1, M - 2]`, large
/// ones are clamped to `M - 1`.
pub open spec fn spec_setup_seed(seed: int) -> int {
    if seed <= 0 {
        -trunc_rem(seed, RAND_M - 1) + 1
    } else if seed > RAND_M - 1 {
        RAND_M - 1
    } else {
        seed
    }
}

/// One step of the generator, by Schrage's method.
pub open spec fn spec_random(seed: int) -> int {
    let r = RAND_A * trunc_rem(seed, RAND_Q as int) - RAND_R * trunc_div(seed, RAND_Q as int);
    if r <= 0 { r + RAND_M } else { r }
}

/// Normalises a seed into the generator's state space.
pub fn setup_seed(seed: i32) -> (r: i32)
    ensures
        r == spec_setup_seed(seed as int),
        seed <= 0 ==> 1 <= r <= RAND_M - 1,
        seed > RAND_M - 1 ==> r == RAND_M - 1,
        1 <= r <= RAND_M - 1,
{
    let mut seed = seed;
    if seed <= 0 {
        seed = -(seed % (RAND_M - 1)) + 1;
    }
    if seed > RAND_M - 1 {
        seed = RAND_M - 1;
    }
    seed
}

/// Advances the minimal-standard generator by one step.
pub fn random(seed: i32) -> (r: i32)
    ensures
        r == spec_random(seed as int),
        1 <= r,
        1 <= seed <= RAND_M - 1 ==> r == (RAND_A * seed) % (RAND_M as int) && r <= RAND_M - 1,
{
    proof {
        if 1 <= seed <= RAND_M - 1 {
            lemma_random_is_lehmer_step(seed as int);
        }
    }
    let mut result = RAND_A * (seed % RAND_Q) - RAND_R * (seed / RAND_Q);
    if result <= 0 {
        result += RAND_M;
    }
    result
}


/// On the generator's states, one step multiplies by `RAND_A` modulo
/// `RAND_M`, and stays within the states `[1, RAND_M - 1]`.
pub proof fn lemma_random_is_lehmer_step(seed: int)
    requires
        1 <= seed <= RAND_M - 1,
    ensures
        spec_random(seed) == (RAND_A * seed) % (RAND_M as int),
        1 <= spec_random(seed) <= RAND_M - 1,
{
    let q = seed / (RAND_Q as int);
    let r = seed % (RAND_Q as int);
    lemma_fundamental_div_mod(seed, RAND_Q as int);
    assert(0 <= r < RAND_Q);
    assert(0 <= q <= 16807) by (nonlinear_arith)
        requires
            seed == 127773 * q + r,
            0 <= r < 127773,
            1 <= seed <= 2147483646,
    ;
    let raw = RAND_A * r - RAND_R * q;
    assert(RAND_A * seed == RAND_M * q + raw) by (nonlinear_arith)
        requires
            seed == 127773 * q + r,
            raw == 16807 * r - 2836 * q,
    ;
    assert(-47664652 <= raw <= 2147480604) by (nonlinear_arith)
        requires
            raw == 16807 * r - 2836 * q,
            0 <= r < 127773,
            0 <= q <= 16807,
    ;
    assert(raw != 0) by {
        // 16807 and 2836 are coprime, so the only solutions of
        // 16807 * r == 2836 * q in range are r = q = 0 and the seed RAND_M.
        if raw == 0 {
            assert(16807 * r == 2836 * q);
            assert(false);
        }
    }
    lemma_mod_multiples_vanish(q, raw, RAND_M as int);
    if raw < 0 {
        lemma_mod_multiples_vanish(1, raw, RAND_M as int);
        assert((raw + RAND_M) % (RAND_M as int) == raw + RAND_M);
    } else {
        assert(raw % (RAND_M as int) == raw);
    }
}

/// The state reached from `s` after `n` steps of the generator.
pub open spec fn rng_nth(s: int, n: nat) -> int
    decreases n,
{
    if n == 0 {
        s
    } else {
        spec_random(rng_nth(s, (n - 1) as nat))
    }
}

/// Number of lattice slots.
pub const B_SIZE: usize = 256;

/// Length of each lattice table: the slots followed by a copy of the first
/// `B_SIZE + 2` of them, so that lookups wrap without a modulo.
pub const LATTICE_LEN: usize = 514;

/// Offset added to sample coordinates to keep lattice indices positive.
pub const PERLIN_N: usize = 4096;

/// Mask applied to lattice coordinates.
pub const BM: usize = 0xff;

/// A gradient component drawn from a generator state: an integer in
/// `[-256, 256)`, which stands for the component divided by 256.
pub open spec fn gradient_component(state: int) -> int {
    state % 512 - 256
}

/// The raw gradient of slot `i` of a channel whose draws start after state `s`.
pub open spec fn spec_gradient(s: int, i: int) -> (i32, i32) {
    (
        gradient_component(rng_nth(s, (2 * i + 1) as nat)) as i32,
        gradient_component(rng_nth(s, (2 * i + 2) as nat)) as i32,
    )
}

/// The selector table after `n` steps of the shuffle, where the draws of
/// the shuffle start after state `s`: step `n` swaps slot `256 - n` with
/// the slot picked by the `n`-th draw.
pub open spec fn shuffle(s: int, n: nat) -> Seq<usize>
    decreases n,
{
    if n == 0 {
        Seq::new(256, |i: int| i as usize)
    } else {
        let t = shuffle(s, (n - 1) as nat);
        let i = 256 - n;
        let j = rng_nth(s, n) % 256;
        t.update(i, t[j]).update(j, t[i])
    }
}

/// The generator state after the gradient draws of all four channels.
pub open spec fn state_after_gradients(seed: int) -> int {
    rng_nth(spec_setup_seed(seed), 2048)
}

/// The permutation of the lattice built from `seed`.
pub open spec fn spec_permutation(seed: int) -> Seq<usize> {
    shuffle(state_after_gradients(seed), 255)
}

/// The raw gradient of slot `i < 256` of channel `k` for `seed`.
pub open spec fn spec_channel_gradient(seed: int, k: int, i: int) -> (i32, i32) {
    spec_gradient(rng_nth(spec_setup_seed(seed), (512 * k) as nat), i)
}

proof fn lemma_rng_add(s: int, a: nat, b: nat)
    ensures
        rng_nth(rng_nth(s, a), b) == rng_nth(s, a + b),
    decreases b,
{
    if b > 0 {
        lemma_rng_add(s, a, (b - 1) as nat);
    }
}

/// A table of 256 slots holding each of `0..256` once.
pub open spec fn is_permutation(t: Seq<usize>) -> bool {
    &&& t.len() == 256
    &&& forall|m: int| 0 <= m < 256 ==> #[trigger] t[m] < 256
    &&& forall|a: int, b: int| 0 <= a < 256 && 0 <= b < 256 && a != b ==> #[trigger] t[a] != #[trigger] t[b]
}

proof fn lemma_shuffle_in_range(s: int, n: nat)
    requires
        n <= 255,
    ensures
        is_permutation(shuffle(s, n)),
    decreases n,
{
    if n > 0 {
        lemma_shuffle_in_range(s, (n - 1) as nat);
        let t = shuffle(s, (n - 1) as nat);
        let i = 256 - n;
        let j = rng_nth(s, n) % 256;
        let u = t.update(i, t[j]).update(j, t[i]);
        assert(u == shuffle(s, n));
        assert forall|a: int, b: int| 0 <= a < 256 && 0 <= b < 256 && a != b implies u[a] != u[b] by {
            assert(t[a] != t[b]);
        }
    }
}

/// The selector of every lattice holds each slot exactly once.
pub proof fn lemma_lattice_permutation(seed: int)
    ensures
        is_permutation(spec_permutation(seed)),
{
    lemma_shuffle_in_range(state_after_gradients(seed), 255);
}

/// Raw gradients of one channel, with the duplicated tail, and the generator
/// state after its draws.
fn gradient_channel(seed: i32) -> (r: (Vec<(i32, i32)>, i32))
    requires
        seed >= 1,
    ensures
        r.0@.len() == LATTICE_LEN,
        forall|i: int| 0 <= i < LATTICE_LEN ==> #[trigger] r.0@[i] == spec_gradient(seed as int, i % 256),
        r.1 == rng_nth(seed as int, 512),
        r.1 >= 1,
{
    let mut v: Vec<(i32, i32)> = Vec::new();
    let mut state = seed;
    let mut i: usize = 0;
    while i < B_SIZE
        invariant
            i <= B_SIZE,
            v@.len() == i,
            state == rng_nth(seed as int, (2 * i) as nat),
            state >= 1,
            forall|m: int| 0 <= m < i ==> #[trigger] v@[m] == spec_gradient(seed as int, m),
        decreases B_SIZE - i,
    {
        state = random(state);
        assert(state == rng_nth(seed as int, (2 * i + 1) as nat));
        let gx = state % 512 - 256;
        state = random(state);
        assert(state == rng_nth(seed as int, (2 * i + 2) as nat));
        let gy = state % 512 - 256;
        v.push((gx, gy));
        i += 1;
    }
    let mut i: usize = 0;
    while i < B_SIZE + 2
        invariant
            i <= B_SIZE + 2,
            v@.len() == B_SIZE + i,
            forall|m: int| 0 <= m < B_SIZE + i ==> #[trigger] v@[m] == spec_gradient(seed as int, m % 256),
        decreases B_SIZE + 2 - i,
    {
        let g = v[i];
        v.push(g);
        i += 1;
    }
    (v, state)
}

/// Where lattice coordinates wrap when tiles are stitched.
#[derive(Clone, Copy, Debug, PartialEq, Eq, Structural)]
pub struct StitchInfo {
    /// How much to subtract to wrap horizontally.
    pub width: usize,
    /// How much to subtract to wrap vertically.
    pub height: usize,
    /// Smallest horizontal lattice coordinate that wraps.
    pub wrap_x: usize,
    /// Smallest vertical lattice coordinate that wraps.
    pub wrap_y: usize,
}

impl StitchInfo {
    /// Each wrap point lies at least a tile past the lattice offset.
    pub open spec fn wf(&self) -> bool {
        &&& self.wrap_x >= self.width + PERLIN_N
        &&& self.wrap_y >= self.height + PERLIN_N
    }

    /// The stitch values of the first octave, from the tile size and the
    /// tile position, both already scaled to lattice units.
    pub fn new(width: usize, height: usize, cell_x: usize, cell_y: usize) -> (r: StitchInfo)
        requires
            cell_x + PERLIN_N + width <= usize::MAX,
            cell_y + PERLIN_N + height <= usize::MAX,
        ensures
            r.wf(),
            r == (StitchInfo {
                width,
                height,
                wrap_x: (cell_x + PERLIN_N + width) as usize,
                wrap_y: (cell_y + PERLIN_N + height) as usize,
            }),
    {
        StitchInfo {
            width,
            height,
            wrap_x: cell_x + PERLIN_N + width,
            wrap_y: cell_y + PERLIN_N + height,
        }
    }

    /// Moves to the next octave: the sample frequency doubles, so the tile
    /// size in lattice units doubles and the wrap point, measured from the
    /// lattice offset, doubles too.
    pub fn next_octave(&mut self)
        requires
            old(self).wf(),
            old(self).wrap_x <= usize::MAX / 2,
            old(self).wrap_y <= usize::MAX / 2,
        ensures
            final(self).wf(),
            final(self).width == 2 * old(self).width,
            final(self).height == 2 * old(self).height,
            final(self).wrap_x - PERLIN_N == 2 * (old(self).wrap_x - PERLIN_N),
            final(self).wrap_y - PERLIN_N == 2 * (old(self).wrap_y - PERLIN_N),
    {
        self.width = 2 * self.width;
        self.wrap_x = 2 * self.wrap_x - PERLIN_N;
        self.height = 2 * self.height;
        self.wrap_y = 2 * self.wrap_y - PERLIN_N;
    }
}

/// A lattice coordinate after stitching: it wraps back by a tile once it
/// reaches the wrap point.
pub open spec fn stitched(b: int, wrap: int, size: int) -> int {
    if b >= wrap { b - size } else { b }
}

/// The cell of one axis: the two lattice coordinates of its corners, each
/// wrapped when stitching and masked to the table.
pub open spec fn spec_axis_cells(b: int, stitch: Option<StitchInfo>, horizontal: bool) -> (int, int) {
    match stitch {
        Some(st) => {
            let (wrap, size) = if horizontal {
                (st.wrap_x as int, st.width as int)
            } else {
                (st.wrap_y as int, st.height as int)
            };
            (stitched(b, wrap, size) % 256, stitched(b + 1, wrap, size) % 256)
        },
        None => (b % 256, (b + 1) % 256),
    }
}

/// The lattice indices of the four corners of the cell at `(bx, by)`,
/// hashed twice through the permutation: `(b00, b10, b01, b11)`.
pub open spec fn spec_corners(perm: Seq<usize>, bx: int, by: int, stitch: Option<StitchInfo>) -> (
    usize,
    usize,
    usize,
    usize,
) {
    let (bx0, bx1) = spec_axis_cells(bx, stitch, true);
    let (by0, by1) = spec_axis_cells(by, stitch, false);
    let i = perm[bx0] as int;
    let j = perm[bx1] as int;
    (perm[(i + by0) % 256], perm[(j + by0) % 256], perm[(i + by1) % 256], perm[(j + by1) % 256])
}

/// The masked lattice coordinates of a cell's two corners on one axis.
fn axis_cells(b: usize, stitch: Option<StitchInfo>, horizontal: bool) -> (r: (usize, usize))
    requires
        b < usize::MAX,
        stitch matches Some(st) ==> st.wf(),
    ensures
        (r.0 as int, r.1 as int) == spec_axis_cells(b as int, stitch, horizontal),
        r.0 < 256,
        r.1 < 256,
{
    let mut b0 = b;
    let mut b1 = b + 1;
    if let Some(st) = stitch {
        let (wrap, size) = if horizontal {
            (st.wrap_x, st.width)
        } else {
            (st.wrap_y, st.height)
        };
        if b0 >= wrap {
            b0 -= size;
        }
        if b1 >= wrap {
            b1 -= size;
        }
    }
    proof {
        lemma_mask(b0);
        lemma_mask(b1);
    }
    (b0 & BM, b1 & BM)
}

proof fn lemma_mask(x: usize)
    ensures
        x & BM == x % 256,
{
    assert(x & 0xff == x % 256) by (bit_vector);
}

/// The pseudo-random lattice of Perlin noise: a permutation of the slots and
/// four channels of raw gradients, each table followed by a copy of its first
/// `B_SIZE + 2` entries.
pub struct Lattice {
    selector: Vec<usize>,
    gradient: Vec<Vec<(i32, i32)>>,
    seed: Ghost<int>,
}

impl Lattice {
    /// The tables are those drawn from the seed.
    #[verifier::type_invariant]
    spec fn inv(&self) -> bool {
        &&& self.selector@.len() == LATTICE_LEN
        &&& self.gradient@.len() == 4
        &&& forall|i: int|
            0 <= i < LATTICE_LEN ==> #[trigger] self.selector@[i] == spec_permutation(
                self.seed@,
            )[i % 256]
        &&& forall|k: int|
            0 <= k < 4 ==> (#[trigger] self.gradient@[k])@.len() == LATTICE_LEN
        &&& forall|k: int, i: int|
            0 <= k < 4 && 0 <= i < LATTICE_LEN ==> #[trigger] self.gradient@[k]@[i]
                == spec_channel_gradient(self.seed@, k, i % 256)
        &&& is_permutation(spec_permutation(self.seed@))
    }

    pub closed spec fn spec_seed(&self) -> int {
        self.seed@
    }

    /// Builds the lattice for a seed: the gradients of the four channels are
    /// drawn first, two components per slot, then the slots are shuffled.
    pub fn new(seed: i32) -> (r: Lattice)
        ensures
            r.spec_seed() == seed as int,
    {
        let s0 = setup_seed(seed);
        let mut state = s0;
        let mut gradient: Vec<Vec<(i32, i32)>> = Vec::new();
        let mut k: usize = 0;
        while k < 4
            invariant
                k <= 4,
                gradient@.len() == k,
                s0 == spec_setup_seed(seed as int),
                state == rng_nth(s0 as int, (512 * k) as nat),
                state >= 1,
                forall|c: int| 0 <= c < k ==> (#[trigger] gradient@[c])@.len() == LATTICE_LEN,
                forall|c: int, i: int|
                    0 <= c < k && 0 <= i < LATTICE_LEN ==> #[trigger] gradient@[c]@[i]
                        == spec_channel_gradient(seed as int, c, i % 256),
            decreases 4 - k,
        {
            let (channel, next) = gradient_channel(state);
            proof {
                lemma_rng_add(s0 as int, (512 * k) as nat, 512);
                assert((512 * k) as nat + 512 == (512 * (k + 1)) as nat);
            }
            gradient.push(channel);
            state = next;
            k += 1;
        }
        let ghost s1 = state as int;
        assert(s1 == state_after_gradients(seed as int));
        let mut selector: Vec<usize> = Vec::new();
        let mut i: usize = 0;
        while i < B_SIZE
            invariant
                i <= B_SIZE,
                selector@.len() == i,
                forall|m: int| 0 <= m < i ==> #[trigger] selector@[m] == m as usize,
            decreases B_SIZE - i,
        {
            selector.push(i);
            i += 1;
        }
        assert(selector@ =~= shuffle(s1, 0));
        let mut i: usize = B_SIZE - 1;
        while i >= 1
            invariant
                i <= 255,
                selector@ == shuffle(s1, (255 - i) as nat),
                state == rng_nth(s1, (255 - i) as nat),
            decreases i,
        {
            proof {
                lemma_shuffle_in_range(s1, (255 - i) as nat);
            }
            let k = selector[i];
            state = random(state);
            let j = (state as usize) % B_SIZE;
            let sj = selector[j];
            selector.set(i, sj);
            selector.set(j, k);
            i -= 1;
        }
        proof {
            lemma_shuffle_in_range(s1, 255);
        }
        let mut i: usize = 0;
        while i < B_SIZE + 2
            invariant
                i <= B_SIZE + 2,
                selector@.len() == B_SIZE + i,
                forall|m: int|
                    0 <= m < B_SIZE + i ==> #[trigger] selector@[m] == spec_permutation(
                        seed as int,
                    )[m % 256],
            decreases B_SIZE + 2 - i,
        {
            let v = selector[i];
            selector.push(v);
            i += 1;
        }
        Lattice { selector, gradient, seed: Ghost(seed as int) }
    }

    /// The lattice indices of the corners of the cell whose lower corner
    /// has lattice coordinates `(bx, by)`, offset by `PERLIN_N`.
    pub fn corners(&self, bx: usize, by: usize, stitch: Option<StitchInfo>) -> (r: (
        usize,
        usize,
        usize,
        usize,
    ))
        requires
            bx < usize::MAX,
            by < usize::MAX,
            stitch matches Some(st) ==> st.wf(),
        ensures
            r == spec_corners(spec_permutation(self.spec_seed()), bx as int, by as int, stitch),
    {
        proof {
            use_type_invariant(self);
        }
        let (bx0, bx1) = axis_cells(bx, stitch, true);
        let (by0, by1) = axis_cells(by, stitch, false);
        let ghost perm = spec_permutation(self.spec_seed());
        let i = self.selector[bx0];
        let j = self.selector[bx1];
        assert(i == perm[bx0 as int] && j == perm[bx1 as int]);
        let b00 = self.selector[i + by0];
        let b10 = self.selector[j + by0];
        let b01 = self.selector[i + by1];
        let b11 = self.selector[j + by1];
        assert(b00 == perm[(i + by0) as int % 256]);
        assert(b10 == perm[(j + by0) as int % 256]);
        assert(b01 == perm[(i + by1) as int % 256]);
        assert(b11 == perm[(j + by1) as int % 256]);
        (b00, b10, b01, b11)
    }

    /// Entry `i` of the selector table.
    pub fn selector_at(&self, i: usize) -> (r: usize)
        requires
            i < LATTICE_LEN,
        ensures
            r == spec_permutation(self.spec_seed())[i as int % 256],
            r < 256,
    {
        proof {
            use_type_invariant(self);
        }
        self.selector[i]
    }

    /// The raw gradient of slot `i` in channel `k`.
    pub fn gradient_at(&self, k: usize, i: usize) -> (r: (i32, i32))
        requires
            k < 4,
            i < LATTICE_LEN,
        ensures
            r == spec_channel_gradient(self.spec_seed(), k as int, i as int % 256),
    {
        proof {
            use_type_invariant(self);
        }
        self.gradient[k][i]
    }
}

/// Limit on the `numOctaves` parameter, to bound the work per pixel.
pub const MAX_OCTAVES: i32 = 9;

/// The number of octaves actually summed for a requested count.
pub fn clamp_num_octaves(num_octaves: i32) -> (r: i32)
    ensures
        r == if num_octaves > MAX_OCTAVES { MAX_OCTAVES } else { num_octaves },
{
    if num_octaves > MAX_OCTAVES {
        MAX_OCTAVES
    } else {
        num_octaves
    }
}

/// The tile stitching modes.
#[derive(Clone, Copy, Debug, PartialEq, Eq, Structural)]
pub enum StitchTiles {
    Stitch,
    NoStitch,
}

/// The noise types.
#[derive(Clone, Copy, Debug, PartialEq, Eq, Structural)]
pub enum NoiseType {
    FractalNoise,
    Turbulence,
}

impl StitchTiles {
    /// The default, `noStitch`.
    pub fn default() -> (r: StitchTiles)
        ensures
            r == StitchTiles::NoStitch,
    {
        StitchTiles::NoStitch
    }

    /// Reads the value from its tokens: `stitch` or `noStitch`.
    pub fn from_tokens(toks: &Vec<CssToken>) -> (r: Result<StitchTiles, ParseError>)
        ensures
            r == spec_keyword(toks@, "stitch"@, StitchTiles::Stitch, "noStitch"@, StitchTiles::NoStitch),
    {
        match keyword_index(toks, "stitch", "noStitch") {
            Ok(0) => Ok(StitchTiles::Stitch),
            Ok(_) => Ok(StitchTiles::NoStitch),
            Err(e) => Err(e),
        }
    }

    /// Parses an attribute value.
    pub fn parse_str(s: &str) -> (r: Result<StitchTiles, ParseError>)
        ensures
            r == spec_keyword(css_tokens_of(s@), "stitch"@, StitchTiles::Stitch, "noStitch"@, StitchTiles::NoStitch),
    {
        StitchTiles::from_tokens(&tokenize(s))
    }
}

impl NoiseType {
    /// The default, `turbulence`.
    pub fn default() -> (r: NoiseType)
        ensures
            r == NoiseType::Turbulence,
    {
        NoiseType::Turbulence
    }

    /// Reads the value from its tokens: `fractalNoise` or `turbulence`.
    pub fn from_tokens(toks: &Vec<CssToken>) -> (r: Result<NoiseType, ParseError>)
        ensures
            r == spec_keyword(toks@, "fractalNoise"@, NoiseType::FractalNoise, "turbulence"@, NoiseType::Turbulence),
    {
        match keyword_index(toks, "fractalNoise", "turbulence") {
            Ok(0) => Ok(NoiseType::FractalNoise),
            Ok(_) => Ok(NoiseType::Turbulence),
            Err(e) => Err(e),
        }
    }

    /// Parses an attribute value.
    pub fn parse_str(s: &str) -> (r: Result<NoiseType, ParseError>)
        ensures
            r == spec_keyword(css_tokens_of(s@), "fractalNoise"@, NoiseType::FractalNoise, "turbulence"@, NoiseType::Turbulence),
    {
        NoiseType::from_tokens(&tokenize(s))
    }
}

/// Two lattices built from the same seed hold the same tables, so every
/// lookup in them gives the same result.
pub proof fn lemma_lattice_determined_by_seed(a: &Lattice, b: &Lattice)
    requires
        a.spec_seed() == b.spec_seed(),
    ensures
        spec_permutation(a.spec_seed()) == spec_permutation(b.spec_seed()),
        forall|k: int, i: int|
            spec_channel_gradient(a.spec_seed(), k, i) == #[trigger] spec_channel_gradient(
                b.spec_seed(),
                k,
                i,
            ),
        forall|bx: int, by: int, stitch: Option<StitchInfo>|
            spec_corners(spec_permutation(a.spec_seed()), bx, by, stitch) == #[trigger] spec_corners(
                spec_permutation(b.spec_seed()),
                bx,
                by,
                stitch,
            ),
{
}

} // verus!
