//! The behavior evaluator, generation-end pass: selection, randomized
//! pairing, reproduction, mutation and respawn.
//!
//! Parents are the genomes whose creature stands in the right half of the
//! board (`x > width / 2`). Each parent is paired with a partner through a
//! key-sorted companion list, and one offspring is produced per parent by
//! genome crossover; refill passes (redraw keys, re-sort, alternate which
//! side of the crossover comes first) run until at least `n` offspring
//! exist, then the batch is truncated to exactly `n`. When no creature
//! stands in the right half the pass falls back to a full random
//! repopulation at the same genome length.

use vstd::prelude::*;

use crate::andis::mutated_word;
use crate::andis::AndiN;
use crate::creature::make_positions;
use crate::creature::pos_in_bounds;
use crate::creature::Creatures;
use crate::creature::Point2;
use crate::genes::cross_spec;
use crate::genes::Genom;
use crate::pairing::sort_pairs;
use crate::rng::RandomSource;

verus! {

/// Whether a creature at this position qualifies as a parent: it stands
/// strictly right of the board's midline.
pub open spec fn is_parent(p: Point2, width: int) -> bool {
    p.x > width / 2
}

/// How many of the positions qualify as parents.
pub open spec fn parent_count(ps: Seq<Point2>, width: int) -> int
    decreases ps.len(),
{
    if ps.len() == 0 {
        0
    } else {
        parent_count(ps.drop_last(), width) + if is_parent(ps.last(), width) {
            1int
        } else {
            0int
        }
    }
}

proof fn lemma_parent_take_step(ps: Seq<Point2>, width: int, i: int)
    requires
        0 <= i < ps.len(),
    ensures
        parent_count(ps.take(i + 1), width) == parent_count(ps.take(i), width) + (if is_parent(
            ps[i],
            width,
        ) {
            1int
        } else {
            0int
        }),
{
    assert(ps.take(i + 1).drop_last() =~= ps.take(i));
    assert(ps.take(i + 1).last() == ps[i]);
}

/// A per-offspring provenance witness for a reproduction outcome: `wit[j]`
/// names two parent indices, both in the right half, and a cut below the
/// genome length, and the offspring is exactly their crossover at that cut.
pub open spec fn offspring_witness(
    pre: Creatures,
    gs: Seq<Genom>,
    width: int,
    wit: Seq<(int, int, int)>,
) -> bool {
    &&& wit.len() == gs.len()
    &&& forall|j: int|
        0 <= j < gs.len() ==> {
            let pi = (#[trigger] wit[j]).0;
            let qi = wit[j].1;
            let k = wit[j].2;
            &&& 0 <= pi < pre.genoms@.len()
            &&& 0 <= qi < pre.genoms@.len()
            &&& is_parent(pre.positions@[pi], width)
            &&& is_parent(pre.positions@[qi], width)
            &&& 0 <= k < pre.genome_len()
            &&& gs[j]@ == cross_spec(pre.genoms@[pi]@, pre.genoms@[qi]@, k)
        }
}

/// `gs` is a possible reproduction outcome on `pre`: population size kept,
/// every genome unscored and at the old common length, and — whenever any
/// parent survived — every genome provably crossed from two right-half
/// parents.
pub open spec fn reproduction_ok(pre: Creatures, gs: Seq<Genom>, width: int) -> bool {
    &&& gs.len() == pre.genoms@.len()
    &&& forall|j: int| 0 <= j < gs.len() ==> !(#[trigger] gs[j]).is_scored()
    &&& pre.genoms@.len() > 0 ==> forall|j: int|
        0 <= j < gs.len() ==> (#[trigger] gs[j])@.len() == pre.genome_len()
    &&& parent_count(pre.positions@, width) > 0 ==> exists|wit: Seq<(int, int, int)>|
        #[trigger] offspring_witness(pre, gs, width, wit)
}

/// `post` is `pre` with a single point mutation: one locus of one genome
/// gained `2^bit` (wrapping), everything else bit-identical.
pub open spec fn mutated_once(pre: Genom, post: Genom) -> bool {
    exists|li: int, bit: u32|
        0 <= li < pre@.len() && bit < 5 && post@ == pre@.update(
            li,
            mutated_word(pre@[li], bit),
        )
}

/// The mutation step of the generation boundary: either nothing mutated, or
/// exactly one genome at one index carries a single point mutation.
pub open spec fn mutation_step_ok(mid: Seq<Genom>, post: Seq<Genom>) -> bool {
    ||| post == mid
    ||| exists|idx: int|
        0 <= idx < mid.len() && post == mid.update(idx, post[idx]) && #[trigger] mutated_once(
            mid[idx],
            post[idx],
        )
}

/// A full generation boundary from `pre` to `post`: the genome collection is
/// a reproduction outcome with at most one point mutation applied, and the
/// positions are respawned on the board, index-aligned as before.
pub open spec fn boundary_rel(pre: Creatures, post: Creatures, width: int, height: int) -> bool {
    &&& post.mutation_coeff == pre.mutation_coeff
    &&& post.genoms@.len() == pre.genoms@.len()
    &&& post.positions@.len() == pre.positions@.len()
    &&& forall|i: int|
        0 <= i < post.positions@.len() ==> pos_in_bounds(
            #[trigger] post.positions@[i],
            width,
            height,
        )
    &&& exists|gs: Seq<Genom>|
        #[trigger] reproduction_ok(pre, gs, width) && mutation_step_ok(gs, post.genoms@)
}

impl AndiN {
    /// Selection and reproduction: replaces the genome collection wholesale
    /// with offspring crossed from the current parents (or with fresh random
    /// genomes when no parent survived), leaving positions untouched.
    ///
    /// Returns the surviving-parent count, and for each offspring a ghost
    /// witness `(pi, qi, k)`: the offspring is exactly the crossover of the
    /// parents at indices `pi` and `qi` (both in the right half) at cut `k`.
    pub fn simulate_end(
        creatures: &mut Creatures,
        rng: &mut RandomSource,
        width: i32,
        height: i32,
    ) -> (r: (usize, Ghost<Seq<(int, int, int)>>))
        requires
            old(creatures).wf(width as int, height as int),
            width >= 1,
            height >= 1,
        ensures
            final (creatures).wf(width as int, height as int),
            r.0 as int == parent_count(old(creatures).positions@, width as int),
            final (creatures).positions@ == old(creatures).positions@,
            final (creatures).mutation_coeff == old(creatures).mutation_coeff,
            final (creatures).genoms@.len() == old(creatures).genoms@.len(),
            forall|j: int|
                0 <= j < final (creatures).genoms@.len() ==> !(#[trigger] final (
                creatures).genoms@[j]).is_scored(),
            old(creatures).genoms@.len() > 0 ==> forall|j: int|
                0 <= j < final (creatures).genoms@.len() ==> (#[trigger] final (
                creatures).genoms@[j])@.len() == old(creatures).genome_len(),
            r.0 > 0 ==> offspring_witness(
                *old(creatures),
                final (creatures).genoms@,
                width as int,
                r.1@,
            ),
            reproduction_ok(*old(creatures), final (creatures).genoms@, width as int),
    {
        let ghost w = width as int;
        let n = creatures.genoms.len();
        let halfw: i32 = ((width as u32) / 2) as i32;
        assert(halfw as int == w / 2);
        let mut parents: Vec<usize> = Vec::new();
        let mut i: usize = 0;
        while i < n
            invariant
                i <= n,
                creatures == old(creatures),
                n == creatures.genoms@.len(),
                n == creatures.positions@.len(),
                halfw as int == w / 2,
                parents@.len() <= i,
                parents@.len() == parent_count(creatures.positions@.take(i as int), w),
                forall|m: int|
                    0 <= m < parents@.len() ==> (#[trigger] parents@[m]) < n && is_parent(
                        creatures.positions@[parents@[m] as int],
                        w,
                    ),
            decreases n - i,
        {
            proof {
                lemma_parent_take_step(creatures.positions@, w, i as int);
            }
            let p = creatures.positions[i];
            if p.x > halfw {
                parents.push(i);
            }
            i = i + 1;
        }
        proof {
            assert(creatures.positions@.take(n as int) =~= creatures.positions@);
        }
        let count = parents.len();
        if count == 0 {
            if n > 0 {
                let l = creatures.genoms[0].nucleotides.len();
                let mut fresh: Vec<Genom> = Vec::new();
                let mut f: usize = 0;
                while f < n
                    invariant
                        f <= n,
                        fresh@.len() == f,
                        forall|j: int|
                            0 <= j < f ==> (#[trigger] fresh@[j])@.len() == l && !fresh@[j].is_scored(),
                    decreases n - f,
                {
                    fresh.push(Genom::random(l, rng));
                    f = f + 1;
                }
                creatures.genoms = fresh;
                assert(creatures.wf(width as int, height as int));
            }
            return (0, Ghost(Seq::empty()));
        }
        let mut partner: Vec<(u32, usize)> = Vec::new();
        let mut j: usize = 0;
        while j < count
            invariant
                j <= count,
                creatures == old(creatures),
                count == parents@.len(),
                n == creatures.genoms@.len(),
                n == creatures.positions@.len(),
                forall|m: int|
                    0 <= m < parents@.len() ==> (#[trigger] parents@[m]) < n && is_parent(
                        creatures.positions@[parents@[m] as int],
                        w,
                    ),
                partner@.len() == j,
                forall|m: int|
                    0 <= m < j ==> ((#[trigger] partner@[m]).1) < n && is_parent(
                        creatures.positions@[partner@[m].1 as int],
                        w,
                    ),
            decreases count - j,
        {
            let key = rng.next_u32();
            let p = parents[j];
            partner.push((key, p));
            j = j + 1;
        }
        let ghost presort = partner@;
        sort_pairs(&mut partner);
        proof {
            assert forall|m: int|
                0 <= m < partner@.len() implies ((#[trigger] partner@[m]).1) < n && is_parent(
                creatures.positions@[partner@[m].1 as int],
                w,
            ) by {
                assert(presort.contains(partner@[m]));
                let pre = choose|pre: int| 0 <= pre < presort.len() && presort[pre] == partner@[m];
            }
        }
        let ghost gl = creatures.genome_len();
        let mut new_genoms: Vec<Genom> = Vec::new();
        let ghost mut wit: Seq<(int, int, int)> = Seq::empty();
        let mut first_side_a = true;
        let mut pass0 = true;
        while new_genoms.len() < n
            invariant
                creatures == old(creatures),
                n == creatures.genoms@.len(),
                n == creatures.positions@.len(),
                n >= 1,
                creatures.wf(width as int, height as int),
                w == width as int,
                gl == creatures.genome_len(),
                count == parents@.len(),
                1 <= count <= n,
                partner@.len() == count,
                forall|m: int|
                    0 <= m < parents@.len() ==> (#[trigger] parents@[m]) < n && is_parent(
                        creatures.positions@[parents@[m] as int],
                        w,
                    ),
                forall|m: int|
                    0 <= m < partner@.len() ==> ((#[trigger] partner@[m]).1) < n && is_parent(
                        creatures.positions@[partner@[m].1 as int],
                        w,
                    ),
                wit.len() == new_genoms@.len(),
                forall|t: int|
                    0 <= t < new_genoms@.len() ==> {
                        let pi = (#[trigger] wit[t]).0;
                        let qi = wit[t].1;
                        let k = wit[t].2;
                        &&& 0 <= pi < n
                        &&& 0 <= qi < n
                        &&& is_parent(creatures.positions@[pi], w)
                        &&& is_parent(creatures.positions@[qi], w)
                        &&& 0 <= k < gl
                        &&& new_genoms@[t]@ == cross_spec(
                            creatures.genoms@[pi]@,
                            creatures.genoms@[qi]@,
                            k,
                        )
                        &&& new_genoms@[t]@.len() == gl
                        &&& !new_genoms@[t].is_scored()
                    },
            decreases n + count - new_genoms@.len(),
        {
            if !pass0 {
                let mut fresh_partner: Vec<(u32, usize)> = Vec::new();
                let mut m: usize = 0;
                while m < count
                    invariant
                        m <= count,
                        creatures == old(creatures),
                        n == creatures.positions@.len(),
                        count == partner@.len(),
                        forall|t: int|
                            0 <= t < partner@.len() ==> ((#[trigger] partner@[t]).1) < n
                                && is_parent(creatures.positions@[partner@[t].1 as int], w),
                        fresh_partner@.len() == m,
                        forall|t: int|
                            0 <= t < m ==> ((#[trigger] fresh_partner@[t]).1) < n && is_parent(
                                creatures.positions@[fresh_partner@[t].1 as int],
                                w,
                            ),
                    decreases count - m,
                {
                    let key = rng.next_u32();
                    let idx = partner[m].1;
                    fresh_partner.push((key, idx));
                    m = m + 1;
                }
                partner = fresh_partner;
                let ghost presort2 = partner@;
                sort_pairs(&mut partner);
                proof {
                    assert forall|m2: int|
                        0 <= m2 < partner@.len() implies ((#[trigger] partner@[m2]).1) < n
                        && is_parent(creatures.positions@[partner@[m2].1 as int], w) by {
                        assert(presort2.contains(partner@[m2]));
                        let pre = choose|pre: int|
                            0 <= pre < presort2.len() && presort2[pre] == partner@[m2];
                    }
                }
                first_side_a = !first_side_a;
            }
            pass0 = false;
            let ghost len0 = new_genoms@.len() as int;
            let mut m: usize = 0;
            while m < count
                invariant
                    m <= count,
                    creatures == old(creatures),
                    n == creatures.genoms@.len(),
                    n == creatures.positions@.len(),
                    n >= 1,
                    creatures.wf(width as int, height as int),
                    w == width as int,
                    gl == creatures.genome_len(),
                    count == parents@.len(),
                    1 <= count <= n,
                    partner@.len() == count,
                    forall|t: int|
                        0 <= t < parents@.len() ==> (#[trigger] parents@[t]) < n && is_parent(
                            creatures.positions@[parents@[t] as int],
                            w,
                        ),
                    forall|t: int|
                        0 <= t < partner@.len() ==> ((#[trigger] partner@[t]).1) < n && is_parent(
                            creatures.positions@[partner@[t].1 as int],
                            w,
                        ),
                    new_genoms@.len() == len0 + m,
                    len0 >= 0,
                    wit.len() == new_genoms@.len(),
                    forall|t: int|
                        0 <= t < new_genoms@.len() ==> {
                            let pi = (#[trigger] wit[t]).0;
                            let qi = wit[t].1;
                            let k = wit[t].2;
                            &&& 0 <= pi < n
                            &&& 0 <= qi < n
                            &&& is_parent(creatures.positions@[pi], w)
                            &&& is_parent(creatures.positions@[qi], w)
                            &&& 0 <= k < gl
                            &&& new_genoms@[t]@ == cross_spec(
                                creatures.genoms@[pi]@,
                                creatures.genoms@[qi]@,
                                k,
                            )
                            &&& new_genoms@[t]@.len() == gl
                            &&& !new_genoms@[t].is_scored()
                        },
                decreases count - m,
            {
                let pa = parents[m];
                let pb = partner[m].1;
                let child = if first_side_a {
                    Genom::crossover(&creatures.genoms[pa], &creatures.genoms[pb], rng)
                } else {
                    Genom::crossover(&creatures.genoms[pb], &creatures.genoms[pa], rng)
                };
                new_genoms.push(child);
                proof {
                    let prev_wit = wit;
                    if first_side_a {
                        let k = choose|k: int|
                            0 <= k < creatures.genoms@[pa as int]@.len() && child@ == cross_spec(
                                creatures.genoms@[pa as int]@,
                                creatures.genoms@[pb as int]@,
                                k,
                            );
                        wit = wit.push((pa as int, pb as int, k));
                    } else {
                        let k = choose|k: int|
                            0 <= k < creatures.genoms@[pb as int]@.len() && child@ == cross_spec(
                                creatures.genoms@[pb as int]@,
                                creatures.genoms@[pa as int]@,
                                k,
                            );
                        wit = wit.push((pb as int, pa as int, k));
                    }
                    assert(forall|t: int| 0 <= t < prev_wit.len() ==> wit[t] == prev_wit[t]);
                }
                m = m + 1;
            }
        }
        let ghost grown = new_genoms@;
        let ghost witfull = wit;
        new_genoms.truncate(n);
        proof {
            wit = wit.take(n as int);
        }
        creatures.genoms = new_genoms;
        proof {
            assert forall|j2: int|
                0 <= j2 < n implies (#[trigger] creatures.genoms@[j2])@.len() == gl
                && !creatures.genoms@[j2].is_scored() && wit[j2] == witfull[j2]
                && creatures.genoms@[j2] == grown[j2] by {
                assert(n <= grown.len());
                assert(creatures.genoms@[j2] == grown.subrange(0, n as int)[j2]);
                let wt = witfull[j2];
                assert(grown[j2]@.len() == gl && !grown[j2].is_scored());
                assert(wit[j2] == witfull.take(n as int)[j2]);
            }
            assert(creatures.wf(width as int, height as int));
            assert(offspring_witness(*old(creatures), creatures.genoms@, w, wit));
            assert(reproduction_ok(*old(creatures), creatures.genoms@, w));
        }
        (count, Ghost(wit))
    }

    /// The full generation boundary: selection and reproduction, then at most
    /// one mutation event (a uniform draw below the mutation coefficient
    /// picks the mutated index, if it lands inside the population), then a
    /// full respawn of positions. Returns the surviving-parent count.
    pub fn end_generation(
        creatures: &mut Creatures,
        rng: &mut RandomSource,
        width: i32,
        height: i32,
    ) -> (r: usize)
        requires
            old(creatures).wf(width as int, height as int),
            width >= 1,
            height >= 1,
        ensures
            final (creatures).wf(width as int, height as int),
            r as int == parent_count(old(creatures).positions@, width as int),
            final (creatures).genoms@.len() == old(creatures).genoms@.len(),
            final (creatures).positions@.len() == old(creatures).positions@.len(),
            final (creatures).genoms@.len() == final (creatures).positions@.len(),
            final (creatures).mutation_coeff == old(creatures).mutation_coeff,
            old(creatures).genoms@.len() > 0 ==> final (creatures).genome_len() == old(
                creatures,
            ).genome_len(),
            boundary_rel(*old(creatures), *final (creatures), width as int, height as int),
    {
        let n = creatures.genoms.len();
        let r = Self::simulate_end(creatures, rng, width, height);
        let cnt = r.0;
        let ghost mid = creatures.genoms@;
        let mutation_n = rng.below_usize(creatures.mutation_coeff);
        if mutation_n < n {
            let mut g = creatures.genoms.remove(mutation_n);
            let ghost before = g;
            g.mutate(rng);
            creatures.genoms.insert(mutation_n, g);
            proof {
                assert(creatures.genoms@ =~= mid.update(mutation_n as int, g));
                let (li, bit) = choose|li: int, bit: u32|
                    li < g@.len() && bit < 5 && g@ == before@.update(
                        li,
                        mutated_word(before@[li], bit),
                    ) && 0 <= li;
                assert(mutated_once(before, g));
                assert(creatures.genoms@ =~= mid.update(
                    mutation_n as int,
                    creatures.genoms@[mutation_n as int],
                ));
                assert(mutation_step_ok(mid, creatures.genoms@));
            }
        } else {
            proof {
                assert(mutation_step_ok(mid, creatures.genoms@));
            }
        }
        let fresh = make_positions(n, width, height, rng);
        creatures.positions = fresh;
        proof {
            assert(reproduction_ok(*old(creatures), mid, width as int));
            assert(boundary_rel(*old(creatures), *creatures, width as int, height as int));
        }
        cnt
    }
}

} // verus!
