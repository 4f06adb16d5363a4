//! The heritable unit of the "andi" creatures: one genome locus, bit-packed
//! into a 32-bit word, and its codec.
//!
//! Bit layout, most- to least-significant: the top 8 bits select the sensor
//! (reduced modulo the number of sensor kinds), the middle 16 bits are the
//! weight numerator (weight = numerator / 65536, a value in `[0, 1)` at 2^-16
//! resolution), and the bottom 8 bits select the actuator (reduced modulo the
//! number of actuator kinds). Decoding never fails: every 32-bit pattern maps
//! to a valid sensor/actuator pair.

use vstd::prelude::*;

use crate::rng::RandomSource;

verus! {

/// How many sensor kinds a selector byte is reduced into.
pub const SENSOR_KINDS: u32 = 3;

/// How many actuator kinds a selector byte is reduced into.
pub const ACTUATOR_KINDS: u32 = 5;

/// The sensor vocabulary: right-half detector, left-half detector, oscillator.
#[derive(Clone, Copy, Debug, PartialEq, Eq, Structural)]
pub enum InputNeurons {
    PR,
    PL,
    Osc,
}

/// The actuator vocabulary: one slot per movement direction, plus an inert
/// slot that queues no move.
#[derive(Clone, Copy, Debug, PartialEq, Eq, Structural)]
pub enum OutputNeurons {
    MvN,
    MvS,
    MvW,
    MvE,
    Wait,
}

/// The sensor a word selects: its top byte, reduced modulo the sensor count.
pub open spec fn sensor_of(w: u32) -> InputNeurons {
    let sel = (w >> 24) % 3;
    if sel == 0 {
        InputNeurons::PR
    } else if sel == 1 {
        InputNeurons::PL
    } else {
        InputNeurons::Osc
    }
}

/// The weight numerator a word carries: its middle 16 bits. The weight itself
/// is this numerator over 65536, a value in `[0, 1)`.
pub open spec fn weight_of(w: u32) -> u32 {
    (w >> 8) & 0xFFFF
}

/// The actuator a word selects: its bottom byte, reduced modulo the actuator
/// count.
pub open spec fn actuator_of(w: u32) -> OutputNeurons {
    let sel = (w & 0xFF) % 5;
    if sel == 0 {
        OutputNeurons::MvN
    } else if sel == 1 {
        OutputNeurons::MvS
    } else if sel == 2 {
        OutputNeurons::MvW
    } else if sel == 3 {
        OutputNeurons::MvE
    } else {
        OutputNeurons::Wait
    }
}

/// The word a point mutation produces: `2^bit` added onto the raw word,
/// wrapping at 2^32. The addition is deliberate: carries into adjacent fields
/// are part of the operator, not masked away.
pub open spec fn mutated_word(w: u32, bit: u32) -> u32 {
    vstd::wrapping::u32_specs::wrapping_add(w, 1u32 << bit)
}

/// Codec totality: every 32-bit word decodes to a member of the sensor and
/// actuator vocabularies, and its weight numerator stays below 65536, so the
/// weight lies in `[0, 1)`.
pub proof fn lemma_codec_totality(w: u32)
    ensures
        sensor_of(w) == InputNeurons::PR || sensor_of(w) == InputNeurons::PL || sensor_of(w)
            == InputNeurons::Osc,
        weight_of(w) < 65536,
        actuator_of(w) == OutputNeurons::MvN || actuator_of(w) == OutputNeurons::MvS || actuator_of(
            w,
        ) == OutputNeurons::MvW || actuator_of(w) == OutputNeurons::MvE || actuator_of(w)
            == OutputNeurons::Wait,
{
    assert((w >> 8) & 0xFFFF < 65536) by (bit_vector);
}

/// One heritable unit: an opaque 32-bit value wrapping a sensor selector, a
/// weight numerator and an actuator selector.
#[derive(Clone, Copy, Debug, PartialEq, Eq, Structural)]
pub struct AndiN {
    encoded: u32,
}

impl View for AndiN {
    type V = u32;

    closed spec fn view(&self) -> u32 {
        self.encoded
    }
}

impl Default for AndiN {
    /// The default unit is the all-zero word; `cut` pads with it.
    fn default() -> (r: Self)
        ensures
            r@ == 0u32,
    {
        AndiN { encoded: 0 }
    }
}

impl AndiN {
    /// Wraps a raw 32-bit value with no validation; decoding never fails.
    pub fn decode(encoded: u32) -> (r: Self)
        ensures
            r@ == encoded,
    {
        Self { encoded }
    }

    /// The sensor this unit reads.
    pub fn input(&self) -> (r: InputNeurons)
        ensures
            r == sensor_of(self@),
    {
        let sel = (self.encoded >> 24) % SENSOR_KINDS;
        if sel == 0 {
            InputNeurons::PR
        } else if sel == 1 {
            InputNeurons::PL
        } else {
            InputNeurons::Osc
        }
    }

    /// The weight numerator of this unit; the weight is `r / 65536`, in
    /// `[0, 1)`.
    pub fn weight(&self) -> (r: u16)
        ensures
            r == weight_of(self@),
    {
        let e = self.encoded;
        let masked = (e >> 8) & 0xFFFF;
        assert(masked < 0x10000) by (bit_vector)
            requires
                masked == (e >> 8) & 0xFFFF,
        ;
        masked as u16
    }

    /// The actuator this unit drives.
    pub fn output(&self) -> (r: OutputNeurons)
        ensures
            r == actuator_of(self@),
    {
        let sel = (self.encoded & 0xFF) % ACTUATOR_KINDS;
        if sel == 0 {
            OutputNeurons::MvN
        } else if sel == 1 {
            OutputNeurons::MvS
        } else if sel == 2 {
            OutputNeurons::MvW
        } else if sel == 3 {
            OutputNeurons::MvE
        } else {
            OutputNeurons::Wait
        }
    }

    /// Unit-level crossover is intentionally an identity pick of the first
    /// parent: all genetic mixing happens at the genome level, where the cut
    /// point chooses which parent's unit is first.
    pub fn crossover(a: &Self, b: &Self) -> (r: Self)
        ensures
            r@ == a@,
    {
        a.clone()
    }

    /// Point mutation: draw a bit index uniformly in `[0, 5)` and add `2^bit`
    /// onto the raw word, wrapping at 2^32. The mutated word always differs
    /// from the old one.
    pub fn mutate(&mut self, rng: &mut RandomSource)
        ensures
            exists|bit: u32| bit < 5 && final (self)@ == mutated_word(old(self)@, bit),
            final (self)@ != old(self)@,
    {
        let bit = rng.below_u32(5);
        let step = 1u32 << bit;
        assert(1 <= step) by (bit_vector)
            requires
                bit < 5 && step == 1u32 << bit,
        ;
        self.encoded = self.encoded.wrapping_add(step);
        assert(final (self)@ == mutated_word(old(self)@, bit));
    }

    /// A fresh unit is a uniform 32-bit draw.
    pub fn random(rng: &mut RandomSource) -> (r: Self) {
        Self { encoded: rng.next_u32() }
    }
}

/// A scorer that carries a fully computed Q16 score for a genome, filled in
/// by an external fitness process.
pub struct AndiS {
    score_: i64,
}

impl AndiS {
    /// The stored Q16 score numerator.
    pub closed spec fn score_spec(&self) -> i64 {
        self.score_
    }

    pub fn score(&self) -> (r: i64)
        ensures
            r == self.score_spec(),
    {
        self.score_
    }
}

} // verus!
