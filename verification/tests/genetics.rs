use brains::andis::AndiN;
use brains::genes::Genom;
use brains::rng::RandomSource;

fn genome_from(words: &[u32]) -> Genom {
    let mut units: Vec<AndiN> = Vec::new();
    for w in words {
        units.push(AndiN::decode(*w));
    }
    Genom::from_iter(units)
}

fn words_of(g: &Genom, expected: &[u32]) -> bool {
    if g.nucleotides.len() != expected.len() {
        return false;
    }
    for (i, w) in expected.iter().enumerate() {
        if g.nucleotides[i] != AndiN::decode(*w) {
            return false;
        }
    }
    true
}

#[test]
fn crossover_preserves_length() {
    let a = genome_from(&[1, 2, 3, 4, 5, 6, 7, 8]);
    let b = genome_from(&[11, 12, 13, 14, 15, 16, 17, 18]);
    let mut rng = RandomSource::from_seed(5);
    let child = Genom::crossover(&a, &b, &mut rng);
    assert_eq!(child.nucleotides.len(), 8);
    let child2 = Genom::crossover_cut(&a, &b, &mut rng);
    assert_eq!(child2.nucleotides.len(), 8);
}

#[test]
fn crossover_at_is_prefix_then_suffix() {
    let a = genome_from(&[1, 2, 3, 4, 5]);
    let b = genome_from(&[11, 12, 13, 14, 15]);
    let child = Genom::crossover_at(&a, &b, 3);
    assert!(words_of(&child, &[1, 2, 3, 14, 15]));
    let all_a = Genom::crossover_at(&a, &b, 5);
    assert!(words_of(&all_a, &[1, 2, 3, 4, 5]));
    let all_b = Genom::crossover_at(&a, &b, 0);
    assert!(words_of(&all_b, &[11, 12, 13, 14, 15]));
}

#[test]
fn crossover_loci_come_from_exactly_one_parent() {
    let a = genome_from(&[1, 2, 3, 4, 5, 6, 7, 8]);
    let b = genome_from(&[11, 12, 13, 14, 15, 16, 17, 18]);
    let mut rng = RandomSource::from_seed(21);
    let child = Genom::crossover_cut(&a, &b, &mut rng);
    // a prefix of a's loci, then b's loci, each at its own index
    let mut switched = false;
    for i in 0..8 {
        if !switched {
            if child.nucleotides[i] == b.nucleotides[i] {
                switched = true;
            } else {
                assert_eq!(child.nucleotides[i], a.nucleotides[i]);
            }
        }
        if switched {
            assert_eq!(child.nucleotides[i], b.nucleotides[i]);
        }
    }
}

#[test]
fn crossover_mut_matches_crossover_for_same_draws() {
    let a = genome_from(&[21, 22, 23, 24, 25, 26]);
    let b = genome_from(&[31, 32, 33, 34, 35, 36]);
    let mut r1 = RandomSource::from_seed(77);
    let mut r2 = RandomSource::from_seed(77);
    let child = Genom::crossover(&a, &b, &mut r1);
    let mut buffer = Genom::with_capacity(6);
    Genom::crossover_mut(&a, &b, &mut buffer, &mut r2);
    assert_eq!(buffer.nucleotides.len(), child.nucleotides.len());
    for i in 0..6 {
        assert_eq!(buffer.nucleotides[i], child.nucleotides[i]);
    }
}

#[test]
fn crossover_4th_alternates_quarters() {
    let a = genome_from(&[1, 2, 3, 4, 5, 6, 7, 8]);
    let b = genome_from(&[11, 12, 13, 14, 15, 16, 17, 18]);
    let child = Genom::crossover_4th(&a, &b);
    assert!(words_of(&child, &[1, 2, 13, 14, 5, 6, 17, 18]));
}

#[test]
fn crossover_4th_drops_remainder() {
    let a = genome_from(&[1, 2, 3, 4, 5, 6, 7, 8, 9, 10]);
    let b = genome_from(&[11, 12, 13, 14, 15, 16, 17, 18, 19, 20]);
    let child = Genom::crossover_4th(&a, &b);
    assert!(words_of(&child, &[1, 2, 13, 14, 5, 6, 17, 18]));
}

#[test]
fn mutate_changes_exactly_one_locus() {
    let words: [u32; 10] = [100, 200, 300, 400, 500, 600, 700, 800, 900, 1000];
    let mut g = genome_from(&words);
    let mut rng = RandomSource::from_seed(13);
    g.mutate(&mut rng);
    let mut changed = 0;
    for i in 0..10 {
        if g.nucleotides[i] != AndiN::decode(words[i]) {
            changed += 1;
            // the changed word is the old one plus a power of two below 32
            let mut hit = false;
            for b in 0..5u32 {
                if g.nucleotides[i] == AndiN::decode(words[i].wrapping_add(1 << b)) {
                    hit = true;
                }
            }
            assert!(hit);
        }
    }
    assert_eq!(changed, 1);
}

#[test]
fn cut_drops_prefix_and_pads_with_defaults() {
    let mut g = genome_from(&[10, 20, 30, 40, 50]);
    g.cut(2);
    assert!(words_of(&g, &[30, 40, 50, 0, 0]));
}

#[test]
fn cut_beyond_length_leaves_defaults() {
    let mut g = genome_from(&[10, 20, 30]);
    g.cut(7);
    assert!(words_of(&g, &[0, 0, 0, 0, 0, 0, 0]));
}

#[test]
fn shift_rotates_left_circularly() {
    let mut g = genome_from(&[10, 20, 30, 40]);
    g.shift();
    assert!(words_of(&g, &[20, 30, 40, 10]));
}

#[test]
fn from_previous_copies_units() {
    let g = genome_from(&[7, 8, 9]);
    let copy = Genom::from_previous(&g);
    assert!(words_of(&copy, &[7, 8, 9]));
}

#[test]
fn with_capacity_starts_empty() {
    let g = Genom::with_capacity(16);
    assert_eq!(g.nucleotides.len(), 0);
}

#[test]
fn score_is_zero_when_unset() {
    let g = genome_from(&[1, 2, 3]);
    assert_eq!(g.score(), 0);
}

#[test]
fn random_genome_has_requested_length_and_is_seed_deterministic() {
    let mut r1 = RandomSource::from_seed(4);
    let mut r2 = RandomSource::from_seed(4);
    let g1 = Genom::random(12, &mut r1);
    let g2 = Genom::random(12, &mut r2);
    assert_eq!(g1.nucleotides.len(), 12);
    for i in 0..12 {
        assert_eq!(g1.nucleotides[i], g2.nucleotides[i]);
    }
}
