//! The behavior evaluator, per-step pass: each creature's genome is
//! interpreted against live sensor inputs to produce discrete moves.
//!
//! For every locus, a Q16 signal is read from the locus's sensor — an
//! oscillator draws a fresh uniform value in `[-1, 1)`, the left-half sensor
//! yields one when the creature's x lies left of the board's midline, the
//! right-half sensor the mirror — multiplied by the locus's Q16 weight and
//! accumulated (in Q32) into the slot of the locus's actuator. Each slot then
//! passes through the saturating nonlinearity, and the two axis intents are
//! thresholded at one half.
//!
//! One quirk of the engine is deliberate: the vertical queue's second arm
//! compares the horizontal intent, not the vertical one, so a strong
//! eastward intent also queues a downward (+y) move.

use vstd::prelude::*;

use crate::andis::actuator_of;
use crate::andis::sensor_of;
use crate::andis::weight_of;
use crate::andis::AndiN;
use crate::andis::InputNeurons;
use crate::andis::OutputNeurons;
use crate::creature::pos_in_bounds;
use crate::creature::Creatures;
use crate::creature::Point2;
use crate::creature::GENOME_LEN_LIMIT;
use crate::fixp::clamp_spec;
use crate::fixp::clamp_coord;
use crate::fixp::sat_q16;
use crate::fixp::tanh_q16;
use crate::fixp::HALF_Q16;
use crate::genes::Genom;
use crate::rng::RandomSource;

verus! {

/// The Q16 signal values of a drawn oscillator sequence.
pub open spec fn osc_views(s: Seq<i64>) -> Seq<int> {
    s.map_values(|v: i64| v as int)
}

/// How many loci of the genome read the oscillator sensor; one fresh draw is
/// consumed per such locus, in locus order.
pub open spec fn osc_count(g: Seq<u32>) -> int
    decreases g.len(),
{
    if g.len() == 0 {
        0
    } else {
        osc_count(g.drop_last()) + if sensor_of(g.last()) is Osc {
            1int
        } else {
            0int
        }
    }
}

/// Whether `oscs` is a valid oscillator draw sequence for the genome: one
/// value per oscillator locus, each a Q16 value in `[-1, 1)`.
pub open spec fn osc_ok(g: Seq<u32>, oscs: Seq<int>) -> bool {
    &&& oscs.len() == osc_count(g)
    &&& forall|j: int| 0 <= j < oscs.len() ==> -65536 <= #[trigger] oscs[j] <= 65535
}

/// The Q32 contribution of one locus: its sensor's Q16 signal times its Q16
/// weight numerator. The left-half sensor reads one iff `x < width / 2`, the
/// right-half sensor iff `x >= width / 2`; the oscillator reads its drawn
/// value.
pub open spec fn contribution_q32(w: u32, x: int, width: int, osc: int) -> int {
    let wt = weight_of(w) as int;
    match sensor_of(w) {
        InputNeurons::Osc => osc * wt,
        InputNeurons::PL => if x < width / 2 {
            65536 * wt
        } else {
            0
        },
        InputNeurons::PR => if x >= width / 2 {
            65536 * wt
        } else {
            0
        },
    }
}

/// The Q32 accumulator value of one actuator slot after the whole genome is
/// evaluated, consuming oscillator draws in locus order.
pub open spec fn accum_slot(
    g: Seq<u32>,
    x: int,
    width: int,
    oscs: Seq<int>,
    slot: OutputNeurons,
) -> int
    decreases g.len(),
{
    if g.len() == 0 {
        0
    } else {
        let prefix = g.drop_last();
        let w = g.last();
        let osc = if sensor_of(w) is Osc {
            oscs[osc_count(prefix)]
        } else {
            0int
        };
        accum_slot(prefix, x, width, oscs, slot) + if actuator_of(w) == slot {
            contribution_q32(w, x, width, osc)
        } else {
            0int
        }
    }
}

/// The queued moves of one creature, as a `(dx, dy)` pair in `{-1, 0, 1}`:
/// horizontal intent is the west slot minus the east slot, so a dominant
/// east slot (intent below minus one half) moves the creature east and a
/// dominant west slot moves it west; vertical intent is the south slot
/// minus the north slot (a dominant south slot moves toward smaller y).
/// Each axis thresholds at one half — and the vertical queue's second arm
/// deliberately re-reads the horizontal intent.
pub open spec fn decide_spec(g: Seq<u32>, x: int, width: int, oscs: Seq<int>) -> (int, int) {
    let tw = sat_q16(accum_slot(g, x, width, oscs, OutputNeurons::MvW));
    let te = sat_q16(accum_slot(g, x, width, oscs, OutputNeurons::MvE));
    let ts = sat_q16(accum_slot(g, x, width, oscs, OutputNeurons::MvS));
    let tn = sat_q16(accum_slot(g, x, width, oscs, OutputNeurons::MvN));
    let hor = tw - te;
    let ver = ts - tn;
    let dx: int = if hor > 32768 {
        -1
    } else if hor < -32768 {
        1
    } else {
        0
    };
    let dy: int = if ver > 32768 {
        -1
    } else if hor < -32768 {
        1
    } else {
        0
    };
    (dx, dy)
}

/// Where one creature stands after a step: its queued moves applied, then
/// the position clamped back onto the board.
pub open spec fn step_pos_spec(
    g: Seq<u32>,
    p: Point2,
    width: int,
    height: int,
    oscs: Seq<int>,
) -> Point2 {
    let d = decide_spec(g, p.x as int, width, oscs);
    Point2 { x: clamp_spec(p.x + d.0, width) as i32, y: clamp_spec(p.y + d.1, height) as i32 }
}

/// A full per-step pass from `pre` to `post` under the given oscillator
/// draws: one valid draw sequence per creature, genomes untouched, and every
/// position stepped exactly as `step_pos_spec` states.
pub open spec fn step_witness(
    pre: Creatures,
    post: Creatures,
    width: int,
    height: int,
    draws: Seq<Seq<int>>,
) -> bool {
    &&& post.genoms@ == pre.genoms@
    &&& post.mutation_coeff == pre.mutation_coeff
    &&& post.positions@.len() == pre.positions@.len()
    &&& draws.len() == pre.positions@.len()
    &&& forall|i: int|
        0 <= i < pre.positions@.len() ==> osc_ok(pre.genoms@[i]@, #[trigger] draws[i])
            && post.positions@[i] == step_pos_spec(
            pre.genoms@[i]@,
            pre.positions@[i],
            width,
            height,
            draws[i],
        )
}

/// `post` is a possible outcome of one per-step pass on `pre`: some
/// oscillator draw sequences witness it.
pub open spec fn step_rel(pre: Creatures, post: Creatures, width: int, height: int) -> bool {
    exists|draws: Seq<Seq<int>>| #[trigger] step_witness(pre, post, width, height, draws)
}

/// Stepping from index `i` to `i + 1`: the prefix grows by the locus `g[i]`,
/// the oscillator cursor advances iff that locus reads the oscillator, and
/// every accumulator slot grows by that locus's contribution (zero for other
/// slots).
proof fn lemma_take_step(g: Seq<u32>, i: int)
    requires
        0 <= i < g.len(),
    ensures
        g.take(i + 1).drop_last() == g.take(i),
        g.take(i + 1).last() == g[i],
        osc_count(g.take(i + 1)) == osc_count(g.take(i)) + (if sensor_of(g[i]) is Osc {
            1int
        } else {
            0int
        }),
        forall|x: int, width: int, oscs: Seq<int>, slot: OutputNeurons|
            #[trigger] accum_slot(g.take(i + 1), x, width, oscs, slot) == accum_slot(
                g.take(i),
                x,
                width,
                oscs,
                slot,
            ) + (if actuator_of(g[i]) == slot {
                contribution_q32(
                    g[i],
                    x,
                    width,
                    if sensor_of(g[i]) is Osc {
                        oscs[osc_count(g.take(i))]
                    } else {
                        0int
                    },
                )
            } else {
                0int
            }),
{
    assert(g.take(i + 1).drop_last() =~= g.take(i));
    assert(g.take(i + 1).last() == g[i]);
}

/// The oscillator count of a prefix never exceeds the genome's, and counts
/// are never negative.
proof fn lemma_osc_count_take_le(g: Seq<u32>, i: int)
    requires
        0 <= i <= g.len(),
    ensures
        osc_count(g.take(i)) <= osc_count(g),
    decreases g.len() - i,
{
    if i == g.len() {
        assert(g.take(i) =~= g);
    } else {
        lemma_take_step(g, i);
        lemma_osc_count_take_le(g, i + 1);
    }
}

impl AndiN {
    /// Draws one fresh uniform Q16 oscillator value in `[-1, 1)` for every
    /// oscillator locus of the genome, in locus order.
    pub fn draw_oscs(genom: &Genom, rng: &mut RandomSource) -> (r: Vec<i64>)
        ensures
            osc_ok(genom@, osc_views(r@)),
    {
        let n = genom.nucleotides.len();
        let mut oscs: Vec<i64> = Vec::new();
        let mut i: usize = 0;
        while i < n
            invariant
                i <= n,
                n == genom.nucleotides@.len(),
                oscs@.len() == osc_count(genom@.take(i as int)),
                forall|j: int| 0 <= j < oscs@.len() ==> -65536 <= #[trigger] oscs@[j] <= 65535,
            decreases n - i,
        {
            proof {
                lemma_take_step(genom@, i as int);
            }
            let sensor = genom.nucleotides[i].input();
            match sensor {
                InputNeurons::Osc => {
                    let d = rng.below_u32(131072);
                    let v: i64 = (d as i64) - 65536;
                    oscs.push(v);
                },
                _ => {},
            }
            i = i + 1;
        }
        proof {
            assert(genom@.take(n as int) =~= genom@);
            assert(osc_views(oscs@).len() == oscs@.len());
            assert(forall|j: int|
                0 <= j < oscs@.len() ==> -65536 <= #[trigger] osc_views(oscs@)[j] <= 65535);
        }
        oscs
    }

    /// The deterministic core of the per-step pass for one creature: given
    /// the genome, the creature's position, the board width and the
    /// oscillator draws, returns the queued moves exactly as `decide_spec`
    /// states them.
    pub fn evaluate(genom: &Genom, pos: Point2, width: i32, oscs: &Vec<i64>) -> (r: (i32, i32))
        requires
            width >= 1,
            genom@.len() <= GENOME_LEN_LIMIT,
            osc_ok(genom@, osc_views(oscs@)),
        ensures
            (r.0 as int, r.1 as int) == decide_spec(genom@, pos.x as int, width as int, osc_views(oscs@)),
            -1 <= r.0 <= 1,
            -1 <= r.1 <= 1,
    {
        let ghost gv = genom@;
        let ghost ov = osc_views(oscs@);
        let ghost x = pos.x as int;
        let ghost w = width as int;
        let halfw: i32 = ((width as u32) / 2) as i32;
        assert(halfw as int == w / 2);
        let n = genom.nucleotides.len();
        let ocount: usize = oscs.len();
        let mut acc_n: i64 = 0;
        let mut acc_s: i64 = 0;
        let mut acc_w: i64 = 0;
        let mut acc_e: i64 = 0;
        let mut oi: usize = 0;
        let mut i: usize = 0;
        while i < n
            invariant
                i <= n,
                n == genom.nucleotides@.len(),
                gv == genom@,
                ov == osc_views(oscs@),
                x == pos.x as int,
                w == width as int,
                width >= 1,
                halfw as int == w / 2,
                n <= GENOME_LEN_LIMIT,
                osc_ok(gv, ov),
                ocount == oscs@.len(),
                oscs@.len() == ov.len(),
                forall|j: int| 0 <= j < oscs@.len() ==> oscs@[j] as int == ov[j],
                oi == osc_count(gv.take(i as int)),
                oi <= ov.len(),
                acc_n == accum_slot(gv.take(i as int), x, w, ov, OutputNeurons::MvN),
                acc_s == accum_slot(gv.take(i as int), x, w, ov, OutputNeurons::MvS),
                acc_w == accum_slot(gv.take(i as int), x, w, ov, OutputNeurons::MvW),
                acc_e == accum_slot(gv.take(i as int), x, w, ov, OutputNeurons::MvE),
                -(i as int) * 0x1_0000_0000 <= acc_n <= (i as int) * 0x1_0000_0000,
                -(i as int) * 0x1_0000_0000 <= acc_s <= (i as int) * 0x1_0000_0000,
                -(i as int) * 0x1_0000_0000 <= acc_w <= (i as int) * 0x1_0000_0000,
                -(i as int) * 0x1_0000_0000 <= acc_e <= (i as int) * 0x1_0000_0000,
            decreases n - i,
        {
            proof {
                lemma_take_step(gv, i as int);
                lemma_osc_count_take_le(gv, i as int + 1);
            }
            let nucl = genom.nucleotides[i];
            assert(nucl@ == gv[i as int]);
            let sensor = nucl.input();
            let signal: i64;
            match sensor {
                InputNeurons::Osc => {
                    assert(osc_count(gv.take(i as int + 1)) == oi + 1);
                    proof {
                        assert(oi < ov.len());
                        assert(ov[oi as int] == oscs@[oi as int] as int);
                    }
                    signal = oscs[oi];
                    oi = oi + 1;
                },
                InputNeurons::PL => {
                    signal = if pos.x < halfw {
                        65536
                    } else {
                        0
                    };
                },
                InputNeurons::PR => {
                    signal = if pos.x >= halfw {
                        65536
                    } else {
                        0
                    };
                },
            }
            let wt_u16 = nucl.weight();
            let wt: i64 = wt_u16 as i64;
            proof {
                let sigi = signal as int;
                let wti = wt as int;
                assert(-0x1_0000_0000 < sigi * wti < 0x1_0000_0000) by (nonlinear_arith)
                    requires
                        -65536 <= sigi <= 65536,
                        0 <= wti < 65536,
                ;
            }
            let addend: i64 = signal * wt;
            let ghost osc_used: int = if sensor_of(gv[i as int]) is Osc {
                ov[osc_count(gv.take(i as int))]
            } else {
                0int
            };
            assert(addend as int == contribution_q32(gv[i as int], x, w, osc_used));
            let actuator = nucl.output();
            match actuator {
                OutputNeurons::MvN => {
                    acc_n = acc_n + addend;
                },
                OutputNeurons::MvS => {
                    acc_s = acc_s + addend;
                },
                OutputNeurons::MvW => {
                    acc_w = acc_w + addend;
                },
                OutputNeurons::MvE => {
                    acc_e = acc_e + addend;
                },
                OutputNeurons::Wait => {},
            }
            i = i + 1;
        }
        proof {
            assert(gv.take(n as int) =~= gv);
            assert((n as int) * 0x1_0000_0000 <= 0x4000_0000 * 0x1_0000_0000);
        }
        let tw = tanh_q16(acc_w);
        let te = tanh_q16(acc_e);
        let ts = tanh_q16(acc_s);
        let tn = tanh_q16(acc_n);
        let hor: i64 = tw - te;
        let ver: i64 = ts - tn;
        let dx: i32 = if hor > HALF_Q16 {
            -1
        } else if hor < -HALF_Q16 {
            1
        } else {
            0
        };
        let dy: i32 = if ver > HALF_Q16 {
            -1
        } else if hor < -HALF_Q16 {
            1
        } else {
            0
        };
        (dx, dy)
    }

    /// The per-step pass over the whole population: every creature is
    /// evaluated against the previous step's position snapshot, then all
    /// queued moves are applied and every position is clamped back onto the
    /// board. Genomes and scores are never touched.
    pub fn simulate(creatures: &mut Creatures, rng: &mut RandomSource, width: i32, height: i32) -> (drawn: Ghost<
        Seq<Seq<int>>,
    >)
        requires
            old(creatures).wf(width as int, height as int),
            width >= 1,
            height >= 1,
        ensures
            final (creatures).wf(width as int, height as int),
            final (creatures).genoms@ == old(creatures).genoms@,
            final (creatures).mutation_coeff == old(creatures).mutation_coeff,
            final (creatures).positions@.len() == old(creatures).positions@.len(),
            final (creatures).genoms@.len() == final (creatures).positions@.len(),
            forall|i: int|
                0 <= i < final (creatures).positions@.len() ==> pos_in_bounds(
                    #[trigger] final (creatures).positions@[i],
                    width as int,
                    height as int,
                ),
            drawn@.len() == old(creatures).positions@.len(),
            forall|i: int|
                0 <= i < old(creatures).positions@.len() ==> osc_ok(
                    old(creatures).genoms@[i]@,
                    #[trigger] drawn@[i],
                ) && final (creatures).positions@[i] == step_pos_spec(
                    old(creatures).genoms@[i]@,
                    old(creatures).positions@[i],
                    width as int,
                    height as int,
                    drawn@[i],
                ),
            step_witness(*old(creatures), *final (creatures), width as int, height as int, drawn@),
            step_rel(*old(creatures), *final (creatures), width as int, height as int),
    {
        let n = creatures.positions.len();
        let mut deltas: Vec<(i32, i32)> = Vec::new();
        let ghost mut wits: Seq<Seq<int>> = Seq::empty();
        let mut i: usize = 0;
        while i < n
            invariant
                i <= n,
                creatures == old(creatures),
                n == creatures.positions@.len(),
                creatures.wf(width as int, height as int),
                width >= 1,
                height >= 1,
                deltas@.len() == i,
                wits.len() == i,
                forall|j: int|
                    0 <= j < i ==> osc_ok(creatures.genoms@[j]@, #[trigger] wits[j]) && (
                    deltas@[j].0 as int, deltas@[j].1 as int) == decide_spec(
                        creatures.genoms@[j]@,
                        creatures.positions@[j].x as int,
                        width as int,
                        wits[j],
                    ),
            decreases n - i,
        {
            let genom = &creatures.genoms[i];
            let oscs = Self::draw_oscs(genom, rng);
            let d = Self::evaluate(genom, creatures.positions[i], width, &oscs);
            deltas.push(d);
            proof {
                let prev_wits = wits;
                wits = wits.push(osc_views(oscs@));
                assert forall|j: int|
                    0 <= j < i + 1 implies osc_ok(creatures.genoms@[j]@, #[trigger] wits[j]) && (
                deltas@[j].0 as int, deltas@[j].1 as int) == decide_spec(
                    creatures.genoms@[j]@,
                    creatures.positions@[j].x as int,
                    width as int,
                    wits[j],
                ) by {
                    if j < i {
                        assert(wits[j] == prev_wits[j]);
                        assert(osc_ok(creatures.genoms@[j]@, prev_wits[j]));
                    } else {
                        assert(wits[j] == osc_views(oscs@));
                        assert(deltas@[j] == d);
                    }
                }
            }
            i = i + 1;
        }
        let mut applied: Vec<Point2> = Vec::new();
        i = 0;
        while i < n
            invariant
                i <= n,
                creatures == old(creatures),
                n == creatures.positions@.len(),
                creatures.wf(width as int, height as int),
                width >= 1,
                height >= 1,
                deltas@.len() == n,
                wits.len() == n,
                forall|j: int|
                    0 <= j < n ==> osc_ok(creatures.genoms@[j]@, #[trigger] wits[j]) && (
                    deltas@[j].0 as int, deltas@[j].1 as int) == decide_spec(
                        creatures.genoms@[j]@,
                        creatures.positions@[j].x as int,
                        width as int,
                        wits[j],
                    ),
                applied@.len() == i,
                forall|j: int|
                    0 <= j < i ==> pos_in_bounds(
                        #[trigger] applied@[j],
                        width as int,
                        height as int,
                    ),
                forall|j: int|
                    0 <= j < i ==> (#[trigger] applied@[j]) == step_pos_spec(
                        creatures.genoms@[j]@,
                        creatures.positions@[j],
                        width as int,
                        height as int,
                        wits[j],
                    ),
            decreases n - i,
        {
            let p = creatures.positions[i];
            let d = deltas[i];
            proof {
                assert(osc_ok(creatures.genoms@[i as int]@, wits[i as int]) && (
                deltas@[i as int].0 as int, deltas@[i as int].1 as int) == decide_spec(
                    creatures.genoms@[i as int]@,
                    creatures.positions@[i as int].x as int,
                    width as int,
                    wits[i as int],
                ));
                assert(-1 <= d.0 && d.0 <= 1 && -1 <= d.1 && d.1 <= 1);
            }
            let nx = clamp_coord(p.x + d.0, width);
            let ny = clamp_coord(p.y + d.1, height);
            applied.push(Point2 { x: nx, y: ny });
            proof {
                assert(applied@[i as int] == step_pos_spec(
                    creatures.genoms@[i as int]@,
                    creatures.positions@[i as int],
                    width as int,
                    height as int,
                    wits[i as int],
                ));
            }
            i = i + 1;
        }
        creatures.positions = applied;
        proof {
            assert forall|i2: int|
                0 <= i2 < old(creatures).positions@.len() implies osc_ok(
                old(creatures).genoms@[i2]@,
                #[trigger] wits[i2],
            ) && creatures.positions@[i2] == step_pos_spec(
                old(creatures).genoms@[i2]@,
                old(creatures).positions@[i2],
                width as int,
                height as int,
                wits[i2],
            ) by {
                assert(osc_ok(old(creatures).genoms@[i2]@, wits[i2]));
                assert(applied@[i2] == step_pos_spec(
                    old(creatures).genoms@[i2]@,
                    old(creatures).positions@[i2],
                    width as int,
                    height as int,
                    wits[i2],
                ));
            }
            assert(step_witness(*old(creatures), *creatures, width as int, height as int, wits));
        }
        Ghost(wits)
    }
}

} // verus!
