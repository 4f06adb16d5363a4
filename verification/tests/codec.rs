use brains::andis::AndiN;
use brains::andis::InputNeurons;
use brains::andis::OutputNeurons;
use brains::rng::RandomSource;

fn word(sensor: u32, weight: u32, actuator: u32) -> u32 {
    (sensor << 24) | (weight << 8) | actuator
}

#[test]
fn decode_reads_fields() {
    let n = AndiN::decode(word(1, 0x8000, 2));
    assert_eq!(n.input(), InputNeurons::PL);
    assert_eq!(n.weight(), 0x8000);
    assert_eq!(n.output(), OutputNeurons::MvW);
}

#[test]
fn selectors_reduce_modulo() {
    let n = AndiN::decode(word(255, 0, 255));
    assert_eq!(n.input(), InputNeurons::PR);
    assert_eq!(n.output(), OutputNeurons::MvN);
    let n2 = AndiN::decode(word(4, 0, 7));
    assert_eq!(n2.input(), InputNeurons::PL);
    assert_eq!(n2.output(), OutputNeurons::MvW);
    let n3 = AndiN::decode(word(2, 0, 4));
    assert_eq!(n3.input(), InputNeurons::Osc);
    assert_eq!(n3.output(), OutputNeurons::Wait);
}

#[test]
fn codec_total_on_arbitrary_words() {
    for w in [0u32, 1, 0xFFFF_FFFF, 0xDEAD_BEEF, 0x0100_0000, 0x00FF_FF00] {
        let n = AndiN::decode(w);
        let _ = n.input();
        let _ = n.output();
        assert_eq!(n.weight() as u32, (w >> 8) & 0xFFFF);
        assert!((n.weight() as u32) < 65536);
    }
}

#[test]
fn unit_crossover_picks_first_parent() {
    let a = AndiN::decode(5);
    let b = AndiN::decode(9);
    assert_eq!(AndiN::crossover(&a, &b), a);
    assert_eq!(AndiN::crossover(&b, &a), b);
}

#[test]
fn unit_mutate_adds_small_power_of_two() {
    let base: u32 = 0x0F0F_0F0F;
    let mut rng = RandomSource::from_seed(11);
    let mut n = AndiN::decode(base);
    n.mutate(&mut rng);
    assert_ne!(n, AndiN::decode(base));
    let mut hit = false;
    for b in 0..5u32 {
        if n == AndiN::decode(base.wrapping_add(1 << b)) {
            hit = true;
        }
    }
    assert!(hit);
}

#[test]
fn unit_mutate_carries_across_fields() {
    // An all-ones actuator byte: any added bit must carry into the weight
    // field, which the additive operator deliberately allows.
    let base: u32 = 0x0000_00FF;
    let mut rng = RandomSource::from_seed(3);
    let mut n = AndiN::decode(base);
    n.mutate(&mut rng);
    let mut hit = false;
    for b in 0..5u32 {
        if n == AndiN::decode(base.wrapping_add(1 << b)) {
            hit = true;
        }
    }
    assert!(hit);
}

#[test]
fn random_units_are_seed_deterministic() {
    let mut r1 = RandomSource::from_seed(99);
    let mut r2 = RandomSource::from_seed(99);
    for _ in 0..8 {
        assert_eq!(AndiN::random(&mut r1), AndiN::random(&mut r2));
    }
}
