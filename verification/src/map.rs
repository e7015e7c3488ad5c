//! Procedural map generation: a seeded, terrace-quantized noise grid.
//!
//! A grid cell stores the bit pattern of an IEEE 754 double. Nonnegative
//! finite doubles order exactly as their bit patterns do, so clearing the
//! sign bit yields the magnitude and every comparison the terrain rules
//! make ("absolute value below 0.3") is an integer comparison against the
//! bit pattern of the threshold. All terrain logic is verified on these
//! integers; only the sampling of the noise library is taken on trust.

use vstd::prelude::*;

use noise::utils::{NoiseMapBuilder, PlaneMapBuilder};
use noise::{Perlin, Terrace};
use rand::Rng;

verus! {

/// Width of the generated grid, in cells.
pub const GRID_WIDTH: usize = 100;

/// Height of the generated grid, in cells.
pub const GRID_HEIGHT: usize = 100;

/// Mask that clears the sign bit of a double's bit pattern.
pub const MAGNITUDE_MASK: u64 = 0x7FFF_FFFF_FFFF_FFFF;

/// Mask that keeps only the sign bit of a double's bit pattern.
pub const SIGN_MASK: u64 = 0x8000_0000_0000_0000;

/// Bit pattern of the double 1.0.
pub const ONE_BITS: u64 = 0x3FF0_0000_0000_0000;

/// Bit pattern of the double 0.1, the width of one terrain band.
pub const TENTH_1_BITS: u64 = 0x3FB9_9999_9999_999A;

/// Bit pattern of the double 0.2.
pub const TENTH_2_BITS: u64 = 0x3FC9_9999_9999_999A;

/// Bit pattern of the double 0.3.
pub const TENTH_3_BITS: u64 = 0x3FD3_3333_3333_3333;

/// Bit pattern of the double 0.4.
pub const TENTH_4_BITS: u64 = 0x3FD9_9999_9999_999A;

/// Bit pattern of the double 0.5.
pub const TENTH_5_BITS: u64 = 0x3FE0_0000_0000_0000;

/// Bit pattern of the double 0.6.
pub const TENTH_6_BITS: u64 = 0x3FE3_3333_3333_3333;

/// Bit pattern of the double 0.7.
pub const TENTH_7_BITS: u64 = 0x3FE6_6666_6666_6666;

/// Bit pattern of the double 0.8.
pub const TENTH_8_BITS: u64 = 0x3FE9_9999_9999_999A;

/// Bit pattern of the double 0.9.
pub const TENTH_9_BITS: u64 = 0x3FEC_CCCC_CCCC_CCCD;

/// The magnitude (absolute value) of the double encoded by `bits`.
pub open spec fn magnitude(bits: u64) -> u64 {
    bits & MAGNITUDE_MASK
}

/// A cell encodes a value in [-1, 1] exactly when its magnitude is at most
/// the magnitude of 1.0 (this also rules out the NaN and infinity patterns).
pub open spec fn cell_in_range(bits: u64) -> bool {
    magnitude(bits) <= ONE_BITS
}

/// A cell whose magnitude exceeds 1.0 is normalized to 1.0 of the same
/// sign; anything already in [-1, 1] passes through unchanged.
pub open spec fn clamp_cell(bits: u64) -> u64 {
    if cell_in_range(bits) {
        bits
    } else {
        (bits & SIGN_MASK) | ONE_BITS
    }
}

/// The terrain band of a cell: its magnitude bucketed into the ten
/// equal-width intervals [0, 0.1), [0.1, 0.2), ..., [0.9, 1.0].
pub open spec fn band(bits: u64) -> int {
    let m = magnitude(bits);
    if m < TENTH_1_BITS {
        0
    } else if m < TENTH_2_BITS {
        1
    } else if m < TENTH_3_BITS {
        2
    } else if m < TENTH_4_BITS {
        3
    } else if m < TENTH_5_BITS {
        4
    } else if m < TENTH_6_BITS {
        5
    } else if m < TENTH_7_BITS {
        6
    } else if m < TENTH_8_BITS {
        7
    } else if m < TENTH_9_BITS {
        8
    } else {
        9
    }
}

/// The cells that the noise library samples for a given seed: a fixed
/// plane of seeded Perlin noise fed through the inverted four-point
/// terrace curve, row by row, as double bit patterns. The sampling is a
/// pure function of the seed, so the result is named rather than spelled
/// out; nothing in this crate states what the patterns are.
pub uninterp spec fn raw_cells(seed: u32) -> Seq<u64>;

/// The grid that `generate_random_map_with_seed` owes its caller: the
/// sampled cells for the seed, each normalized into [-1, 1].
pub open spec fn grid_cells(seed: u32) -> Seq<u64> {
    raw_cells(seed).map_values(|b: u64| clamp_cell(b))
}

/// Relies on noise's `Perlin`, `Terrace` and `PlaneMapBuilder`: the built
/// map depends on the seed alone and has exactly width * height cells,
/// read back here row by row in `get_value` order. The terrace curve is
/// inverted, with control points -1, -0.5, 0.1 and 1 (parsing a decimal
/// string is correctly rounded, so each is exactly the intended double).
#[verifier::external_body]
fn raw_terrace_grid(seed: u32) -> (r: Vec<u64>)
    ensures
        r@ == raw_cells(seed),
        r@.len() == GRID_WIDTH * GRID_HEIGHT,
{
    let terraced = Terrace::new(Perlin::new(seed))
        .add_control_point("-1".parse().unwrap())
        .add_control_point("-0.5".parse().unwrap())
        .add_control_point("0.1".parse().unwrap())
        .add_control_point("1".parse().unwrap())
        .invert_terraces(true);
    let map = PlaneMapBuilder::new(terraced).set_size(GRID_WIDTH, GRID_HEIGHT).build();
    let mut out = Vec::new();
    for y in 0..GRID_HEIGHT {
        for x in 0..GRID_WIDTH { out.push(map.get_value(x, y).to_bits()); }
    }
    out
}

/// Relies on rand's `thread_rng` and `Rng::gen`: draws a seed from the
/// machine's randomness; nothing is promised of the value.
#[verifier::external_body]
fn random_seed() -> u32 {
    let mut rng = rand::thread_rng();
    rng.gen()
}

/// A fixed-size rectangular grid of noise cells, each the bit pattern of
/// a double in [-1, 1], stored row by row.
pub struct NoiseGrid {
    pub cells: Vec<u64>,
}

impl View for NoiseGrid {
    type V = Seq<u64>;

    open spec fn view(&self) -> Seq<u64> {
        self.cells@
    }
}

impl NoiseGrid {
    /// A well-formed grid has exactly one cell per position and every
    /// cell normalized into [-1, 1].
    pub open spec fn wf(self) -> bool {
        &&& self@.len() == GRID_WIDTH * GRID_HEIGHT
        &&& forall|i: int| 0 <= i < self@.len() ==> cell_in_range(#[trigger] self@[i])
    }

    /// The number of cells in the grid.
    pub fn len(&self) -> (r: usize)
        ensures
            r == self@.len(),
    {
        self.cells.len()
    }

    /// The cell at column `x` and row `y`.
    pub fn get_value(&self, x: usize, y: usize) -> (r: u64)
        requires
            self.wf(),
            x < GRID_WIDTH,
            y < GRID_HEIGHT,
        ensures
            r == self@[x + y * GRID_WIDTH],
            cell_in_range(r),
    {
        self.cells[x + y * GRID_WIDTH]
    }
}

/// Normalizes one sampled cell into [-1, 1], preserving its sign; a cell
/// already in range is returned unchanged.
pub fn clamp_cell_exec(bits: u64) -> (r: u64)
    ensures
        r == clamp_cell(bits),
        cell_in_range(r),
{
    let magnitude_bits = bits & MAGNITUDE_MASK;
    proof {
        lemma_clamp_in_range(bits);
    }
    if magnitude_bits <= ONE_BITS {
        bits
    } else {
        (bits & SIGN_MASK) | ONE_BITS
    }
}

/// Clamping always lands in [-1, 1].
pub proof fn lemma_clamp_in_range(bits: u64)
    ensures
        cell_in_range(clamp_cell(bits)),
{
    if !cell_in_range(bits) {
        assert((((bits & 0x8000_0000_0000_0000u64) | 0x3FF0_0000_0000_0000u64)
            & 0x7FFF_FFFF_FFFF_FFFFu64) <= 0x3FF0_0000_0000_0000u64) by (bit_vector);
    }
}

/// Builds the map for a seed: samples the terraced noise plane and
/// normalizes every cell into [-1, 1]. Deterministic: the result is a
/// function of the seed alone.
pub fn generate_random_map_with_seed(seed: u32) -> (g: NoiseGrid)
    ensures
        g@ == grid_cells(seed),
        g.wf(),
{
    let raw = raw_terrace_grid(seed);
    let mut cells: Vec<u64> = Vec::new();
    let mut i: usize = 0;
    while i < raw.len()
        invariant
            i <= raw.len(),
            raw@ == raw_cells(seed),
            raw@.len() == GRID_WIDTH * GRID_HEIGHT,
            cells@.len() == i,
            forall|j: int| 0 <= j < i ==> cells@[j] == clamp_cell(#[trigger] raw@[j]),
        decreases raw@.len() - i,
    {
        cells.push(clamp_cell_exec(raw[i]));
        i += 1;
    }
    assert(cells@ =~= grid_cells(seed));
    let g = NoiseGrid { cells };
    assert forall|j: int| 0 <= j < g@.len() implies cell_in_range(#[trigger] g@[j]) by {
        lemma_clamp_in_range(raw_cells(seed)[j]);
    }
    g
}

/// Builds a map from a seed drawn from the machine's randomness. This
/// path exists for offline use and is not reproducible; every outcome is
/// still a well-formed grid that some seed generates.
pub fn generate_random_map() -> (g: NoiseGrid)
    ensures
        g.wf(),
        exists|seed: u32| g@ == grid_cells(seed),
{
    let seed = random_seed();
    let g = generate_random_map_with_seed(seed);
    assert(g@ == grid_cells(seed));
    g
}

/// The discrete terrain categories a cell can be drawn as, one per tile
/// texture. Bands 3 to 6 all read as water; the last category is the
/// fallback a renderer keeps for a cell outside every band.
#[derive(Debug, Clone, Copy, PartialEq, Eq, Structural)]
pub enum TileKind {
    Grass,
    Trees,
    GrassAlt,
    Water,
    TreesAlt,
    Forest,
    Sand,
    Medieval,
}

/// The terrain category of a cell, by its band.
pub open spec fn tile_of(bits: u64) -> TileKind {
    let b = band(bits);
    if b == 0 {
        TileKind::Grass
    } else if b == 1 {
        TileKind::Trees
    } else if b == 2 {
        TileKind::GrassAlt
    } else if b <= 6 {
        TileKind::Water
    } else if b == 7 {
        TileKind::TreesAlt
    } else if b == 8 {
        TileKind::Forest
    } else {
        TileKind::Sand
    }
}

/// The color of a cell, one 24-bit RGB value per band, brightening with
/// the band.
pub open spec fn color_of(bits: u64) -> u32 {
    let b = band(bits);
    if b == 0 {
        0x0A7E0A
    } else if b == 1 {
        0x0DA50D
    } else if b == 2 {
        0x10CB10
    } else if b == 3 {
        0x18ED18
    } else if b == 4 {
        0x3FF03F
    } else if b == 5 {
        0x65F365
    } else if b == 6 {
        0x8CF68C
    } else if b == 7 {
        0xB2F9B2
    } else if b == 8 {
        0xD9FCD9
    } else {
        0xFFFFFF
    }
}

impl TileKind {
    /// The logical asset name of this category's texture.
    pub fn asset_path(&self) -> (r: &'static str)
        ensures
            r@ == self.asset_path_spec(),
    {
        match self {
            TileKind::Grass => "Tile/grass.png",
            TileKind::Trees => "Tile/trees.png",
            TileKind::GrassAlt => "Tile/grass_1.png",
            TileKind::Water => "Tile/water.png",
            TileKind::TreesAlt => "Tile/trees_1.png",
            TileKind::Forest => "Tile/forest.png",
            TileKind::Sand => "Tile/sand.png",
            TileKind::Medieval => "Tile/medievalTile_41.png",
        }
    }

    /// The logical asset name of this category's texture.
    pub open spec fn asset_path_spec(&self) -> Seq<char> {
        match self {
            TileKind::Grass => "Tile/grass.png"@,
            TileKind::Trees => "Tile/trees.png"@,
            TileKind::GrassAlt => "Tile/grass_1.png"@,
            TileKind::Water => "Tile/water.png"@,
            TileKind::TreesAlt => "Tile/trees_1.png"@,
            TileKind::Forest => "Tile/forest.png"@,
            TileKind::Sand => "Tile/sand.png"@,
            TileKind::Medieval => "Tile/medievalTile_41.png"@,
        }
    }
}

/// Selects the tile texture for a cell by the band of its absolute
/// value. Total: a cell outside every band (which a normalized grid
/// never holds) falls back to the spare category instead of failing.
pub fn get_tile(bits: u64) -> (r: TileKind)
    ensures
        cell_in_range(bits) ==> r == tile_of(bits),
        !cell_in_range(bits) ==> r == TileKind::Medieval,
{
    let m = bits & MAGNITUDE_MASK;
    if m < TENTH_1_BITS {
        TileKind::Grass
    } else if m < TENTH_2_BITS {
        TileKind::Trees
    } else if m < TENTH_3_BITS {
        TileKind::GrassAlt
    } else if m < TENTH_7_BITS {
        TileKind::Water
    } else if m < TENTH_8_BITS {
        TileKind::TreesAlt
    } else if m < TENTH_9_BITS {
        TileKind::Forest
    } else if m <= ONE_BITS {
        TileKind::Sand
    } else {
        TileKind::Medieval
    }
}

/// The color a cell is drawn in, by the band of its absolute value.
/// Defined only on normalized cells; generation clamps every cell, so no
/// out-of-range value can reach a caller.
pub fn get_color(bits: u64) -> (r: u32)
    requires
        cell_in_range(bits),
    ensures
        r == color_of(bits),
{
    let m = bits & MAGNITUDE_MASK;
    if m < TENTH_1_BITS {
        0x0A7E0A
    } else if m < TENTH_2_BITS {
        0x0DA50D
    } else if m < TENTH_3_BITS {
        0x10CB10
    } else if m < TENTH_4_BITS {
        0x18ED18
    } else if m < TENTH_5_BITS {
        0x3FF03F
    } else if m < TENTH_6_BITS {
        0x65F365
    } else if m < TENTH_7_BITS {
        0x8CF68C
    } else if m < TENTH_8_BITS {
        0xB2F9B2
    } else if m < TENTH_9_BITS {
        0xD9FCD9
    } else {
        0xFFFFFF
    }
}

/// Determinism: two grids generated from one seed are equal cell by cell.
pub proof fn lemma_generate_deterministic(seed: u32, g1: Seq<u64>, g2: Seq<u64>)
    requires
        g1 == grid_cells(seed),
        g2 == grid_cells(seed),
    ensures
        g1 == g2,
{
}

/// Range: every cell of a generated grid encodes a value in [-1, 1].
pub proof fn lemma_grid_in_range(seed: u32)
    ensures
        forall|i: int|
            0 <= i < grid_cells(seed).len() ==> cell_in_range(#[trigger] grid_cells(seed)[i]),
{
    assert forall|i: int|
        0 <= i < grid_cells(seed).len() implies cell_in_range(
        #[trigger] grid_cells(seed)[i],
    ) by {
        lemma_clamp_in_range(raw_cells(seed)[i]);
    }
}

} // verus!
