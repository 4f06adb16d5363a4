//! The world orchestrator: owns the population, the random stream, the board
//! dimensions and the step/generation counters, and drives the step and
//! generation-boundary state machine.
//!
//! The two advance operations deliberately detect the boundary differently:
//! the single-step advance increments and then fires when the counter
//! exceeds `steps_in_generation`, while the run-to-end advance loops while
//! the counter is strictly below it.

use vstd::prelude::*;

use crate::andis::AndiN;
use crate::creature::Creatures;
use crate::creature::Point2;
use crate::creature::GENOME_LEN_LIMIT;
use crate::evaluator::step_rel;
use crate::generation::boundary_rel;
use crate::rng::RandomSource;

verus! {

/// `post` is reachable from `pre` by exactly `k` per-step passes (none for
/// `k <= 0`).
pub open spec fn steps_trace(
    pre: Creatures,
    post: Creatures,
    k: int,
    width: int,
    height: int,
) -> bool
    decreases k,
{
    if k <= 0 {
        post == pre
    } else {
        exists|mid: Creatures|
            steps_trace(pre, mid, k - 1, width, height) && #[trigger] step_rel(
                mid,
                post,
                width,
                height,
            )
    }
}

proof fn lemma_steps_trace_extend(
    pre: Creatures,
    mid: Creatures,
    post: Creatures,
    k: int,
    width: int,
    height: int,
)
    requires
        k >= 0,
        steps_trace(pre, mid, k, width, height),
        step_rel(mid, post, width, height),
    ensures
        steps_trace(pre, post, k + 1, width, height),
{
    assert(steps_trace(pre, mid, (k + 1) - 1, width, height));
}

/// The simulation world.
pub struct World {
    pub creatures: Creatures,
    pub rng: RandomSource,
    pub width: i32,
    pub height: i32,
    pub step: u32,
    pub generation: u32,
    pub steps_in_generation: u32,
}

impl World {
    /// The world invariant: a positive board, a well-formed population, and
    /// counters with room to advance.
    pub open spec fn wf(&self) -> bool {
        &&& self.width >= 1
        &&& self.height >= 1
        &&& self.creatures.wf(self.width as int, self.height as int)
        &&& self.step < u32::MAX
        &&& self.steps_in_generation < u32::MAX
    }

    /// A new world: a fresh random population of `n_creatures` genomes with
    /// `n_neurons` units each, counters at zero, and 300 steps per
    /// generation until configured otherwise.
    pub fn new(
        n_creatures: usize,
        n_neurons: usize,
        mutation_coeff: usize,
        width: i32,
        height: i32,
        rng: RandomSource,
    ) -> (r: Self)
        requires
            1 <= n_neurons <= GENOME_LEN_LIMIT,
            mutation_coeff >= 1,
            width >= 1,
            height >= 1,
        ensures
            r.wf(),
            r.creatures.genoms@.len() == n_creatures,
            r.creatures.positions@.len() == n_creatures,
            r.creatures.genomes_uniform(n_neurons as int),
            r.creatures.mutation_coeff == mutation_coeff,
            r.generation == 0,
            r.step == 0,
            r.steps_in_generation == 300,
            r.width == width,
            r.height == height,
    {
        let mut rng = rng;
        let creatures = Creatures::new(n_creatures, n_neurons, mutation_coeff, height, width, &mut rng);
        World { creatures, rng, width, height, step: 0, generation: 0, steps_in_generation: 300 }
    }

    /// Advances one step: runs the per-step pass and increments the step
    /// counter; when the counter exceeds `steps_in_generation` it resets to
    /// zero, the generation counter increments, and the generation-end pass
    /// runs. The step counter reads zero exactly when the generation
    /// advanced, and the generation counter never decreases.
    pub fn simulate(&mut self)
        requires
            old(self).wf(),
            old(self).generation < u32::MAX,
        ensures
            final (self).wf(),
            final (self).width == old(self).width,
            final (self).height == old(self).height,
            final (self).steps_in_generation == old(self).steps_in_generation,
            final (self).creatures.genoms@.len() == old(self).creatures.genoms@.len(),
            final (self).creatures.positions@.len() == old(self).creatures.positions@.len(),
            final (self).creatures.mutation_coeff == old(self).creatures.mutation_coeff,
            old(self).creatures.genoms@.len() > 0 ==> final (self).creatures.genome_len() == old(
                self,
            ).creatures.genome_len(),
            old(self).step + 1 <= old(self).steps_in_generation ==> final (self).step == old(
                self,
            ).step + 1 && final (self).generation == old(self).generation && final (
            self).creatures.genoms@ == old(self).creatures.genoms@,
            old(self).step + 1 > old(self).steps_in_generation ==> final (self).step == 0 && final (
            self).generation == old(self).generation + 1,
            final (self).generation >= old(self).generation,
            (final (self).step == 0) <==> (final (self).generation == old(self).generation + 1),
            old(self).step + 1 <= old(self).steps_in_generation ==> step_rel(
                old(self).creatures,
                final (self).creatures,
                old(self).width as int,
                old(self).height as int,
            ),
            old(self).step + 1 > old(self).steps_in_generation ==> exists|mid: Creatures|
                #[trigger] step_rel(
                    old(self).creatures,
                    mid,
                    old(self).width as int,
                    old(self).height as int,
                ) && boundary_rel(
                    mid,
                    final (self).creatures,
                    old(self).width as int,
                    old(self).height as int,
                ),
    {
        let w = self.width;
        let h = self.height;
        let _drawn = AndiN::simulate(&mut self.creatures, &mut self.rng, w, h);
        self.step = self.step + 1;
        if self.step > self.steps_in_generation {
            self.step = 0;
            self.generation = self.generation + 1;
            let ghost mid = self.creatures;
            let _parents = AndiN::end_generation(&mut self.creatures, &mut self.rng, w, h);
            proof {
                assert(step_rel(old(self).creatures, mid, w as int, h as int));
                assert(boundary_rel(mid, self.creatures, w as int, h as int));
            }
        }
    }

    /// Runs per-step passes while the step counter is strictly below
    /// `steps_in_generation`, then resets it, increments the generation and
    /// runs the generation-end pass.
    pub fn simulate_until_endofgeneration(&mut self)
        requires
            old(self).wf(),
            old(self).generation < u32::MAX,
        ensures
            final (self).wf(),
            final (self).width == old(self).width,
            final (self).height == old(self).height,
            final (self).steps_in_generation == old(self).steps_in_generation,
            final (self).creatures.genoms@.len() == old(self).creatures.genoms@.len(),
            final (self).creatures.positions@.len() == old(self).creatures.positions@.len(),
            final (self).creatures.mutation_coeff == old(self).creatures.mutation_coeff,
            old(self).creatures.genoms@.len() > 0 ==> final (self).creatures.genome_len() == old(
                self,
            ).creatures.genome_len(),
            final (self).step == 0,
            final (self).generation == old(self).generation + 1,
            exists|mid: Creatures|
                #[trigger] steps_trace(
                    old(self).creatures,
                    mid,
                    old(self).steps_in_generation - old(self).step,
                    old(self).width as int,
                    old(self).height as int,
                ) && boundary_rel(
                    mid,
                    final (self).creatures,
                    old(self).width as int,
                    old(self).height as int,
                ),
    {
        let w = self.width;
        let h = self.height;
        while self.step < self.steps_in_generation
            invariant
                self.wf(),
                self.width == w,
                self.height == h,
                self.generation == old(self).generation,
                self.steps_in_generation == old(self).steps_in_generation,
                self.step >= old(self).step,
                self.step <= self.steps_in_generation || self.step == old(self).step,
                self.creatures.genoms@.len() == old(self).creatures.genoms@.len(),
                self.creatures.positions@.len() == old(self).creatures.positions@.len(),
                self.creatures.mutation_coeff == old(self).creatures.mutation_coeff,
                old(self).creatures.genoms@.len() > 0 ==> self.creatures.genome_len() == old(
                    self,
                ).creatures.genome_len(),
                steps_trace(
                    old(self).creatures,
                    self.creatures,
                    self.step - old(self).step,
                    w as int,
                    h as int,
                ),
            decreases self.steps_in_generation - self.step,
        {
            let ghost cur = self.creatures;
            let ghost elapsed = self.step as int - old(self).step as int;
            let _drawn = AndiN::simulate(&mut self.creatures, &mut self.rng, w, h);
            self.step = self.step + 1;
            proof {
                lemma_steps_trace_extend(
                    old(self).creatures,
                    cur,
                    self.creatures,
                    elapsed,
                    w as int,
                    h as int,
                );
            }
        }
        let ghost reached = self.creatures;
        let ghost taken = self.step as int - old(self).step as int;
        self.step = 0;
        self.generation = self.generation + 1;
        let _parents = AndiN::end_generation(&mut self.creatures, &mut self.rng, w, h);
        proof {
            assert(taken == if old(self).steps_in_generation >= old(self).step {
                old(self).steps_in_generation - old(self).step
            } else {
                0int
            });
            assert(steps_trace(
                old(self).creatures,
                reached,
                old(self).steps_in_generation - old(self).step,
                w as int,
                h as int,
            ));
            assert(boundary_rel(reached, self.creatures, w as int, h as int));
        }
    }

    /// The generation counter.
    pub fn generation(&self) -> (r: u32)
        ensures
            r == self.generation,
    {
        self.generation
    }

    /// The step counter within the current generation.
    pub fn step(&self) -> (r: u32)
        ensures
            r == self.step,
    {
        self.step
    }

    /// Configures how many steps one generation lasts.
    pub fn set_steps_in_generation(&mut self, steps: u32)
        requires
            steps < u32::MAX,
        ensures
            final (self).steps_in_generation == steps,
            final (self).creatures == old(self).creatures,
            final (self).width == old(self).width,
            final (self).height == old(self).height,
            final (self).step == old(self).step,
            final (self).generation == old(self).generation,
            final (self).rng == old(self).rng,
            old(self).wf() ==> final (self).wf(),
    {
        self.steps_in_generation = steps;
    }

    /// A read-only snapshot of the creature positions, index-aligned with
    /// the genome collection, for the presentation layer to draw.
    pub fn export_positions(&self) -> (r: Vec<Point2>)
        ensures
            r@ == self.creatures.positions@,
    {
        let n = self.creatures.positions.len();
        let mut out: Vec<Point2> = Vec::new();
        let mut i: usize = 0;
        while i < n
            invariant
                i <= n,
                n == self.creatures.positions@.len(),
                out@.len() == i,
                forall|j: int| 0 <= j < i ==> out@[j] == self.creatures.positions@[j],
            decreases n - i,
        {
            out.push(self.creatures.positions[i]);
            i = i + 1;
        }
        assert(out@ =~= self.creatures.positions@);
        out
    }
}

} // verus!
