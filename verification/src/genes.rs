//! Genomes and the generic genetic operators: crossover variants, point
//! mutation, random generation, and the sequence edits `cut` and `shift`.
//!
//! A genome is an ordered, fixed-length sequence of heritable units plus an
//! optional lazily-attached score. Its mathematical view is the sequence of
//! raw 32-bit words of its units.

use vstd::prelude::*;

use crate::andis::mutated_word;
use crate::andis::AndiN;
use crate::creature::NullScorer;
use crate::rng::RandomSource;

verus! {

/// The views of a sequence of heritable units: their raw words, in order.
pub open spec fn nucl_views(s: Seq<AndiN>) -> Seq<u32> {
    s.map_values(|n: AndiN| n@)
}

/// The genome a crossover at cut index `k` produces: `a`'s prefix `[0, k)`
/// followed by `b`'s suffix `[k, len)`.
pub open spec fn cross_spec(a: Seq<u32>, b: Seq<u32>, k: int) -> Seq<u32> {
    a.take(k) + b.skip(k)
}

/// The genome a quarter-alternating crossover produces: quarters taken from
/// `a`, `b`, `a`, `b` in order, each of length `len / 4` (a remainder after
/// the fourth quarter is dropped).
pub open spec fn quarters_spec(a: Seq<u32>, b: Seq<u32>) -> Seq<u32> {
    let q = a.len() as int / 4;
    a.subrange(0, q) + b.subrange(q, 2 * q) + a.subrange(2 * q, 3 * q) + b.subrange(3 * q, 4 * q)
}

/// A sequence of `n` all-zero words, the padding `cut` appends.
pub open spec fn zero_words(n: int) -> Seq<u32> {
    Seq::new(n as nat, |i: int| 0u32)
}

/// Locus provenance of the cut crossover: every output locus is the
/// corresponding locus of exactly one parent — `a`'s before the cut, `b`'s
/// from the cut on.
pub proof fn lemma_cross_locus_provenance(a: Seq<u32>, b: Seq<u32>, k: int)
    requires
        a.len() == b.len(),
        0 <= k <= a.len(),
    ensures
        cross_spec(a, b, k).len() == a.len(),
        forall|i: int|
            0 <= i < a.len() ==> #[trigger] cross_spec(a, b, k)[i] == if i < k {
                a[i]
            } else {
                b[i]
            },
{
}

/// Locus provenance of the quarter-alternating crossover: every output locus
/// is the corresponding locus of exactly one parent, alternating by quarter.
pub proof fn lemma_quarters_locus_provenance(a: Seq<u32>, b: Seq<u32>)
    requires
        a.len() == b.len(),
    ensures
        quarters_spec(a, b).len() == 4 * (a.len() as int / 4),
        forall|i: int|
            0 <= i < 4 * (a.len() as int / 4) ==> #[trigger] quarters_spec(a, b)[i] == if (
            a.len() as int / 4 <= i < 2 * (a.len() as int / 4)) || (3 * (a.len() as int / 4) <= i) {
                b[i]
            } else {
                a[i]
            },
{
}

/// A genome: a string of heritable units, and an optional score attached
/// later by an external fitness process.
#[derive(Debug)]
pub struct Genom {
    pub nucleotides: Vec<AndiN>,
    pub scorer: Option<NullScorer>,
}

impl View for Genom {
    type V = Seq<u32>;

    open spec fn view(&self) -> Seq<u32> {
        nucl_views(self.nucleotides@)
    }
}

impl Genom {
    /// Whether a score has been attached; fresh and newborn genomes are
    /// unscored.
    pub open spec fn is_scored(&self) -> bool {
        self.scorer is Some
    }

    /// Random initialisation: `n` uniform 32-bit units, the main way a new
    /// population is built.
    pub fn random(n: usize, rng: &mut RandomSource) -> (r: Self)
        ensures
            r@.len() == n,
            !r.is_scored(),
    {
        let mut nucl: Vec<AndiN> = Vec::new();
        let mut i: usize = 0;
        while i < n
            invariant
                i <= n,
                nucl@.len() == i,
            decreases n - i,
        {
            nucl.push(AndiN::random(rng));
            i = i + 1;
        }
        Genom { nucleotides: nucl, scorer: None }
    }

    /// An empty genome with room for `n` units, meant to be filled by
    /// `crossover_mut`.
    pub fn with_capacity(n: usize) -> (r: Self)
        ensures
            r@.len() == 0,
            !r.is_scored(),
    {
        Genom { nucleotides: Vec::with_capacity(n), scorer: None }
    }

    /// Copies the units of a previous generation's genome, unscored.
    pub fn from_previous(other: &Self) -> (r: Self)
        ensures
            r@ == other@,
            !r.is_scored(),
    {
        let n = other.nucleotides.len();
        let mut nucl: Vec<AndiN> = Vec::new();
        let mut i: usize = 0;
        while i < n
            invariant
                i <= n,
                n == other.nucleotides@.len(),
                nucl@.len() == i,
                forall|j: int| 0 <= j < i ==> nucl@[j] == other.nucleotides@[j],
            decreases n - i,
        {
            nucl.push(other.nucleotides[i]);
            i = i + 1;
        }
        let r = Genom { nucleotides: nucl, scorer: None };
        assert(r@ =~= other@);
        r
    }

    /// A new genome from a given string of units, unscored.
    pub fn from_iter(nucleotides: Vec<AndiN>) -> (r: Self)
        ensures
            r@ == nucl_views(nucleotides@),
            !r.is_scored(),
    {
        Genom { nucleotides, scorer: None }
    }

    /// The deterministic core of crossover: mixes the parents around the
    /// given cut index. Before the cut the unit-level crossover takes `a`'s
    /// side first; from the cut on it takes `b`'s side first — and since the
    /// unit-level operator picks its first argument, the child is exactly
    /// `a`'s prefix and `b`'s suffix.
    pub fn crossover_at(a: &Self, b: &Self, k: usize) -> (r: Self)
        requires
            a@.len() == b@.len(),
            k <= a@.len(),
        ensures
            r@ == cross_spec(a@, b@, k as int),
            r@.len() == a@.len(),
            !r.is_scored(),
    {
        let n = a.nucleotides.len();
        let mut nucl: Vec<AndiN> = Vec::new();
        let mut i: usize = 0;
        while i < k
            invariant
                i <= k,
                k <= n,
                n == a.nucleotides@.len(),
                n == b.nucleotides@.len(),
                nucl@.len() == i,
                forall|j: int| 0 <= j < i ==> (#[trigger] nucl@[j])@ == a@[j],
            decreases k - i,
        {
            nucl.push(AndiN::crossover(&a.nucleotides[i], &b.nucleotides[i]));
            i = i + 1;
        }
        while i < n
            invariant
                k <= i <= n,
                n == a.nucleotides@.len(),
                n == b.nucleotides@.len(),
                nucl@.len() == i,
                forall|j: int| 0 <= j < k ==> (#[trigger] nucl@[j])@ == a@[j],
                forall|j: int| k <= j < i ==> (#[trigger] nucl@[j])@ == b@[j],
            decreases n - i,
        {
            nucl.push(AndiN::crossover(&b.nucleotides[i], &a.nucleotides[i]));
            i = i + 1;
        }
        let r = Genom { nucleotides: nucl, scorer: None };
        assert(r@ =~= cross_spec(a@, b@, k as int));
        r
    }

    /// The crossover genetic operator: draw a cut index uniformly in
    /// `[0, len)` and mix the parents around it. The child has the parents'
    /// common length and is unscored.
    pub fn crossover(a: &Self, b: &Self, rng: &mut RandomSource) -> (r: Self)
        requires
            a@.len() == b@.len(),
            a@.len() >= 1,
        ensures
            r@.len() == a@.len(),
            !r.is_scored(),
            exists|k: int| 0 <= k < a@.len() && r@ == cross_spec(a@, b@, k),
    {
        let k = rng.below_usize(a.nucleotides.len());
        let r = Self::crossover_at(a, b, k);
        assert(0 <= (k as int) && (k as int) < a@.len() && r@ == cross_spec(a@, b@, k as int));
        r
    }

    /// Crossover into a caller-supplied buffer, to avoid reallocation: the
    /// buffer is cleared and refilled, and for the same cut draw the result
    /// is identical to `crossover(a, b)`.
    pub fn crossover_mut(a: &Self, b: &Self, child: &mut Self, rng: &mut RandomSource)
        requires
            a@.len() == b@.len(),
            a@.len() >= 1,
        ensures
            final (child)@.len() == a@.len(),
            !final (child).is_scored(),
            exists|k: int| 0 <= k < a@.len() && final (child)@ == cross_spec(a@, b@, k),
    {
        let k = rng.below_usize(a.nucleotides.len());
        let n = a.nucleotides.len();
        child.nucleotides.clear();
        child.scorer = None;
        let mut i: usize = 0;
        while i < k
            invariant
                i <= k,
                k <= n,
                n == a.nucleotides@.len(),
                n == b.nucleotides@.len(),
                !child.is_scored(),
                child.nucleotides@.len() == i,
                forall|j: int| 0 <= j < i ==> (#[trigger] child.nucleotides@[j])@ == a@[j],
            decreases k - i,
        {
            child.nucleotides.push(AndiN::crossover(&a.nucleotides[i], &b.nucleotides[i]));
            i = i + 1;
        }
        while i < n
            invariant
                k <= i <= n,
                n == a.nucleotides@.len(),
                n == b.nucleotides@.len(),
                !child.is_scored(),
                child.nucleotides@.len() == i,
                forall|j: int| 0 <= j < k ==> (#[trigger] child.nucleotides@[j])@ == a@[j],
                forall|j: int| k <= j < i ==> (#[trigger] child.nucleotides@[j])@ == b@[j],
            decreases n - i,
        {
            child.nucleotides.push(AndiN::crossover(&b.nucleotides[i], &a.nucleotides[i]));
            i = i + 1;
        }
        assert(child@ =~= cross_spec(a@, b@, k as int));
    }

    /// The pure cut crossover: the child is literally `a`'s prefix `[0, k)`
    /// concatenated with `b`'s suffix `[k, len)` for a uniform cut draw `k`,
    /// with no unit-level mixing.
    pub fn crossover_cut(a: &Self, b: &Self, rng: &mut RandomSource) -> (r: Self)
        requires
            a@.len() == b@.len(),
            a@.len() >= 1,
        ensures
            r@.len() == a@.len(),
            !r.is_scored(),
            exists|k: int| 0 <= k < a@.len() && r@ == cross_spec(a@, b@, k),
    {
        let k = rng.below_usize(a.nucleotides.len());
        let n = a.nucleotides.len();
        let mut nucl: Vec<AndiN> = Vec::new();
        let mut i: usize = 0;
        while i < k
            invariant
                i <= k,
                k <= n,
                n == a.nucleotides@.len(),
                n == b.nucleotides@.len(),
                nucl@.len() == i,
                forall|j: int| 0 <= j < i ==> (#[trigger] nucl@[j])@ == a@[j],
            decreases k - i,
        {
            nucl.push(a.nucleotides[i]);
            i = i + 1;
        }
        while i < n
            invariant
                k <= i <= n,
                n == a.nucleotides@.len(),
                n == b.nucleotides@.len(),
                nucl@.len() == i,
                forall|j: int| 0 <= j < k ==> (#[trigger] nucl@[j])@ == a@[j],
                forall|j: int| k <= j < i ==> (#[trigger] nucl@[j])@ == b@[j],
            decreases n - i,
        {
            nucl.push(b.nucleotides[i]);
            i = i + 1;
        }
        let r = Genom { nucleotides: nucl, scorer: None };
        assert(r@ =~= cross_spec(a@, b@, k as int));
        assert(0 <= (k as int) && (k as int) < a@.len() && r@ == cross_spec(a@, b@, k as int));
        r
    }

    /// The quarter-alternating crossover: fixed boundaries at `len / 4`, the
    /// child alternating quarters from `a`, `b`, `a`, `b` in order. A
    /// remainder after the fourth quarter is dropped, so the child's length
    /// is `4 * (len / 4)`.
    pub fn crossover_4th(a: &Self, b: &Self) -> (r: Self)
        requires
            a@.len() == b@.len(),
        ensures
            r@ == quarters_spec(a@, b@),
            r@.len() == 4 * (a@.len() as int / 4),
            !r.is_scored(),
    {
        let n = a.nucleotides.len();
        let q = n / 4;
        let mut nucl: Vec<AndiN> = Vec::new();
        let mut i: usize = 0;
        while i < q
            invariant
                i <= q,
                q == n / 4,
                n == a.nucleotides@.len(),
                n == b.nucleotides@.len(),
                nucl@.len() == i,
                forall|j: int| 0 <= j < i ==> (#[trigger] nucl@[j])@ == a@[j],
            decreases q - i,
        {
            nucl.push(a.nucleotides[i]);
            i = i + 1;
        }
        while i < 2 * q
            invariant
                q <= i <= 2 * q,
                q == n / 4,
                n == a.nucleotides@.len(),
                n == b.nucleotides@.len(),
                nucl@.len() == i,
                forall|j: int| 0 <= j < q ==> (#[trigger] nucl@[j])@ == a@[j],
                forall|j: int| q <= j < i ==> (#[trigger] nucl@[j])@ == b@[j],
            decreases 2 * q - i,
        {
            nucl.push(b.nucleotides[i]);
            i = i + 1;
        }
        while i < 3 * q
            invariant
                2 * q <= i <= 3 * q,
                q == n / 4,
                n == a.nucleotides@.len(),
                n == b.nucleotides@.len(),
                nucl@.len() == i,
                forall|j: int| 0 <= j < q ==> (#[trigger] nucl@[j])@ == a@[j],
                forall|j: int| q <= j < 2 * q ==> (#[trigger] nucl@[j])@ == b@[j],
                forall|j: int| 2 * q <= j < i ==> (#[trigger] nucl@[j])@ == a@[j],
            decreases 3 * q - i,
        {
            nucl.push(a.nucleotides[i]);
            i = i + 1;
        }
        while i < 4 * q
            invariant
                3 * q <= i <= 4 * q,
                q == n / 4,
                n == a.nucleotides@.len(),
                n == b.nucleotides@.len(),
                nucl@.len() == i,
                forall|j: int| 0 <= j < q ==> (#[trigger] nucl@[j])@ == a@[j],
                forall|j: int| q <= j < 2 * q ==> (#[trigger] nucl@[j])@ == b@[j],
                forall|j: int| 2 * q <= j < 3 * q ==> (#[trigger] nucl@[j])@ == a@[j],
                forall|j: int| 3 * q <= j < i ==> (#[trigger] nucl@[j])@ == b@[j],
            decreases 4 * q - i,
        {
            nucl.push(b.nucleotides[i]);
            i = i + 1;
        }
        let r = Genom { nucleotides: nucl, scorer: None };
        assert(r@ =~= quarters_spec(a@, b@));
        r
    }

    /// Point mutation: one locus index drawn uniformly, that unit mutated in
    /// place. Exactly one locus's raw word changes; all others stay
    /// bit-identical.
    pub fn mutate(&mut self, rng: &mut RandomSource)
        requires
            old(self)@.len() >= 1,
        ensures
            final (self)@.len() == old(self)@.len(),
            final (self).scorer == old(self).scorer,
            exists|i: int, bit: u32|
                0 <= i < old(self)@.len() && bit < 5 && final (self)@ == old(self)@.update(
                    i,
                    mutated_word(old(self)@[i], bit),
                ) && mutated_word(old(self)@[i], bit) != old(self)@[i],
    {
        let n = rng.below_usize(self.nucleotides.len());
        let mut unit = self.nucleotides.remove(n);
        let ghost before = unit@;
        unit.mutate(rng);
        self.nucleotides.insert(n, unit);
        proof {
            let bit = choose|bit: u32| bit < 5 && unit@ == mutated_word(before, bit);
            assert(self@ =~= old(self)@.update(n as int, mutated_word(old(self)@[n as int], bit)));
        }
    }

    /// Drops the first `len` loci, shifts the remainder left, and pads the
    /// tail with default (all-zero) units. The genome keeps its length when
    /// `len` is within it; a larger `len` leaves `len` default units.
    pub fn cut(&mut self, len: usize)
        ensures
            final (self).scorer == old(self).scorer,
            old(self)@.len() >= len ==> final (self)@ == old(self)@.skip(len as int) + zero_words(
                len as int,
            ),
            old(self)@.len() < len ==> final (self)@ == zero_words(len as int),
    {
        let n = self.nucleotides.len();
        let mut nucl: Vec<AndiN> = Vec::new();
        let mut i: usize = len;
        while i < n
            invariant
                self.nucleotides@ == old(self).nucleotides@,
                len <= i <= n || (i == len && n < len),
                n == self.nucleotides@.len(),
                nucl@.len() == i - len || (nucl@.len() == 0 && n < len),
                forall|j: int|
                    0 <= j < nucl@.len() ==> (#[trigger] nucl@[j])@ == old(self)@[j + len as int],
            decreases n - i,
        {
            nucl.push(self.nucleotides[i]);
            i = i + 1;
        }
        let mut p: usize = 0;
        let ghost kept = nucl@.len() as int;
        while p < len
            invariant
                self.nucleotides@ == old(self).nucleotides@,
                p <= len,
                kept >= 0,
                nucl@.len() == kept + p,
                forall|j: int|
                    0 <= j < kept ==> (#[trigger] nucl@[j])@ == old(self)@[j + len as int],
                forall|j: int| kept <= j < nucl@.len() ==> (#[trigger] nucl@[j])@ == 0u32,
            decreases len - p,
        {
            let pad = AndiN::default();
            nucl.push(pad);
            p = p + 1;
        }
        self.nucleotides = nucl;
        proof {
            if old(self)@.len() >= len {
                assert(self@ =~= old(self)@.skip(len as int) + zero_words(len as int));
            } else {
                assert(self@ =~= zero_words(len as int));
            }
        }
    }

    /// A failsafe score accessor: the Q16 score numerator, zero until a
    /// scorer has been attached (and the engine's null scorer always scores
    /// zero).
    pub fn score(&self) -> (r: i64)
        ensures
            r == 0,
    {
        match &self.scorer {
            Some(s) => s.score(),
            None => 0,
        }
    }

    /// Rotates the units left by one locus, circularly: the foremost unit
    /// moves to the back.
    pub fn shift(&mut self)
        requires
            old(self)@.len() >= 1,
        ensures
            final (self).scorer == old(self).scorer,
            final (self)@ == old(self)@.skip(1).push(old(self)@[0]),
    {
        let first = self.nucleotides.remove(0);
        self.nucleotides.push(first);
        assert(self@ =~= old(self)@.skip(1).push(old(self)@[0]));
    }
}

} // verus!
