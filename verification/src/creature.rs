//! The population: two equal-length, index-aligned collections — genomes and
//! 2D board positions — plus a mutation-rate coefficient.

use vstd::prelude::*;

use crate::genes::Genom;
use crate::rng::RandomSource;

verus! {

/// The largest genome length the engine admits; keeps every accumulator sum
/// far inside 64 bits.
pub const GENOME_LEN_LIMIT: usize = 0x4000_0000;

/// A board position, integer coordinates within `[0, width) x [0, height)`.
#[derive(Clone, Copy, Debug, PartialEq, Eq, Structural)]
pub struct Point2 {
    pub x: i32,
    pub y: i32,
}

impl Point2 {
    pub fn new(x: i32, y: i32) -> (r: Self)
        ensures
            r == (Point2 { x, y }),
    {
        Self { x, y }
    }
}

/// Whether a position lies on a `width` by `height` board.
pub open spec fn pos_in_bounds(p: Point2, width: int, height: int) -> bool {
    0 <= p.x < width && 0 <= p.y < height
}

/// `n` fresh positions, each coordinate an independent uniform draw within
/// the board.
pub(crate) fn make_positions(
    n: usize,
    world_width: i32,
    world_height: i32,
    rng: &mut RandomSource,
) -> (r: Vec<Point2>)
    requires
        world_width >= 1,
        world_height >= 1,
    ensures
        r@.len() == n,
        forall|i: int|
            0 <= i < n ==> pos_in_bounds(#[trigger] r@[i], world_width as int, world_height as int),
{
    let mut positions: Vec<Point2> = Vec::new();
    let mut i: usize = 0;
    while i < n
        invariant
            i <= n,
            positions@.len() == i,
            world_width >= 1,
            world_height >= 1,
            forall|j: int|
                0 <= j < i ==> pos_in_bounds(
                    #[trigger] positions@[j],
                    world_width as int,
                    world_height as int,
                ),
        decreases n - i,
    {
        let x = rng.below_i32(world_width);
        let y = rng.below_i32(world_height);
        positions.push(Point2::new(x, y));
        i = i + 1;
    }
    positions
}

/// The population of creatures: genomes and positions, index-aligned.
pub struct Creatures {
    pub genoms: Vec<Genom>,
    pub positions: Vec<Point2>,
    /// A mutation happens with probability `1 / mutation_coeff` per
    /// generation (for a given population size).
    pub mutation_coeff: usize,
}

impl Creatures {
    /// Every genome has length `l`.
    pub open spec fn genomes_uniform(&self, l: int) -> bool {
        forall|i: int| 0 <= i < self.genoms@.len() ==> (#[trigger] self.genoms@[i])@.len() == l
    }

    /// The common genome length (meaningful only when the population is
    /// non-empty).
    pub open spec fn genome_len(&self) -> int {
        self.genoms@[0]@.len() as int
    }

    /// The population invariant: the two collections are index-aligned, the
    /// mutation coefficient admits a draw, every position lies on the board,
    /// and all genomes share one non-zero length within the engine's limit.
    pub open spec fn wf(&self, width: int, height: int) -> bool {
        &&& self.genoms@.len() == self.positions@.len()
        &&& self.mutation_coeff >= 1
        &&& forall|i: int|
            0 <= i < self.positions@.len() ==> pos_in_bounds(
                #[trigger] self.positions@[i],
                width,
                height,
            )
        &&& self.genoms@.len() > 0 ==> {
            &&& 1 <= self.genome_len() <= GENOME_LEN_LIMIT
            &&& self.genomes_uniform(self.genome_len())
        }
    }

    /// A new population: `n_genoms` random genomes of `n_neurons` units each,
    /// and as many independently-uniform board positions.
    pub fn new(
        n_genoms: usize,
        n_neurons: usize,
        mutation_coeff: usize,
        world_height: i32,
        world_width: i32,
        rng: &mut RandomSource,
    ) -> (r: Self)
        requires
            1 <= n_neurons <= GENOME_LEN_LIMIT,
            mutation_coeff >= 1,
            world_width >= 1,
            world_height >= 1,
        ensures
            r.wf(world_width as int, world_height as int),
            r.genoms@.len() == n_genoms,
            r.positions@.len() == n_genoms,
            r.genomes_uniform(n_neurons as int),
            r.mutation_coeff == mutation_coeff,
    {
        let mut genoms: Vec<Genom> = Vec::new();
        let mut i: usize = 0;
        while i < n_genoms
            invariant
                i <= n_genoms,
                genoms@.len() == i,
                forall|j: int| 0 <= j < i ==> (#[trigger] genoms@[j])@.len() == n_neurons,
            decreases n_genoms - i,
        {
            genoms.push(Genom::random(n_neurons, rng));
            i = i + 1;
        }
        let positions = make_positions(n_genoms, world_width, world_height, rng);
        Creatures { genoms, positions, mutation_coeff }
    }
}

/// The placeholder scorer: a fitness process that has not run scores
/// everything zero.
#[derive(Clone, Copy, Debug)]
pub struct NullScorer;

impl NullScorer {
    /// The Q16 score numerator: always zero.
    pub fn score(&self) -> (r: i64)
        ensures
            r == 0,
    {
        0
    }
}

} // verus!
