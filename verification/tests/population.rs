use brains::andis::AndiN;
use brains::creature::Creatures;
use brains::creature::Point2;
use brains::genes::Genom;
use brains::rng::RandomSource;

fn word(sensor: u32, weight: u32, actuator: u32) -> u32 {
    (sensor << 24) | (weight << 8) | actuator
}

fn single_locus_creature(w: u32, pos: Point2) -> Creatures {
    Creatures {
        genoms: vec![Genom::from_iter(vec![AndiN::decode(w)])],
        positions: vec![pos],
        mutation_coeff: 1,
    }
}

#[test]
fn new_population_is_aligned_and_in_bounds() {
    let mut rng = RandomSource::from_seed(8);
    let c = Creatures::new(20, 5, 3, 2, 3, &mut rng);
    assert_eq!(c.genoms.len(), 20);
    assert_eq!(c.positions.len(), 20);
    assert_eq!(c.mutation_coeff, 3);
    for g in &c.genoms {
        assert_eq!(g.nucleotides.len(), 5);
    }
    // board is 3 wide and 2 high (Creatures::new takes height before width)
    for p in &c.positions {
        assert!(0 <= p.x && p.x < 3);
        assert!(0 <= p.y && p.y < 2);
    }
}

#[test]
fn per_step_pass_keeps_alignment_and_bounds() {
    let mut rng = RandomSource::from_seed(15);
    let mut c = Creatures::new(30, 6, 5, 4, 5, &mut rng);
    for _ in 0..10 {
        AndiN::simulate(&mut c, &mut rng, 5, 4);
        assert_eq!(c.genoms.len(), c.positions.len());
        for p in &c.positions {
            assert!(0 <= p.x && p.x < 5);
            assert!(0 <= p.y && p.y < 4);
        }
    }
}

#[test]
fn left_half_sensor_drives_one_step_east() {
    // One locus: left-half sensor, maximal weight, actuator wired to move
    // east. With x = 2 < 10 / 2 the signal is one, the saturated value
    // exceeds the 0.5 threshold, and x increases by exactly one. The
    // vertical queue's second arm re-reads the strong horizontal intent, so
    // a +y move is queued as well.
    let w = word(1, 0xFFFF, 3);
    let mut c = single_locus_creature(w, Point2::new(2, 5));
    let mut rng = RandomSource::from_seed(1);
    AndiN::simulate(&mut c, &mut rng, 10, 10);
    assert_eq!(c.positions[0].x, 3);
    assert_eq!(c.positions[0].y, 6);
}

#[test]
fn left_half_sensor_is_silent_on_the_right() {
    let w = word(1, 0xFFFF, 3);
    let mut c = single_locus_creature(w, Point2::new(7, 4));
    let mut rng = RandomSource::from_seed(1);
    AndiN::simulate(&mut c, &mut rng, 10, 10);
    assert_eq!(c.positions[0].x, 7);
    assert_eq!(c.positions[0].y, 4);
}

#[test]
fn evaluate_direction_quirks() {
    // A strong signal into the east slot moves the creature east — and the
    // vertical queue's second arm, which re-reads the horizontal intent,
    // queues a +y move as well.
    let w = word(1, 0xFFFF, 3);
    let genome = Genom::from_iter(vec![AndiN::decode(w)]);
    let no_oscs: Vec<i64> = Vec::new();
    let (dx, dy) = AndiN::evaluate(&genome, Point2::new(2, 5), 10, &no_oscs);
    assert_eq!((dx, dy), (1, 1));
    // A strong west slot moves west, with no vertical move: the quirk arm
    // only fires on intent below minus one half.
    let w2 = word(1, 0xFFFF, 2);
    let genome2 = Genom::from_iter(vec![AndiN::decode(w2)]);
    let (dx2, dy2) = AndiN::evaluate(&genome2, Point2::new(2, 5), 10, &no_oscs);
    assert_eq!((dx2, dy2), (-1, 0));
    // A weak weight stays under the threshold: no move at all.
    let w3 = word(1, 0x4000, 3);
    let genome3 = Genom::from_iter(vec![AndiN::decode(w3)]);
    let (dx3, dy3) = AndiN::evaluate(&genome3, Point2::new(2, 5), 10, &no_oscs);
    assert_eq!((dx3, dy3), (0, 0));
}

#[test]
fn clamping_holds_creatures_on_the_board_edge() {
    // Eastward (and, through the quirk arm, +y) intent on a one-cell board:
    // both moves are clamped away.
    let w = word(1, 0xFFFF, 3);
    let mut c = single_locus_creature(w, Point2::new(0, 0));
    let mut rng = RandomSource::from_seed(1);
    AndiN::simulate(&mut c, &mut rng, 1, 1);
    assert_eq!(c.positions[0].x, 0);
    assert_eq!(c.positions[0].y, 0);
}

#[test]
fn generation_end_counts_right_half_parents() {
    let mut rng = RandomSource::from_seed(30);
    let g = Genom::random(4, &mut rng);
    let genoms = vec![
        Genom::from_previous(&g),
        Genom::from_previous(&g),
        Genom::from_previous(&g),
        Genom::from_previous(&g),
    ];
    let positions = vec![
        Point2::new(3, 0),
        Point2::new(6, 1),
        Point2::new(5, 2),
        Point2::new(9, 3),
    ];
    let mut c = Creatures { genoms, positions, mutation_coeff: 1000 };
    let r = AndiN::simulate_end(&mut c, &mut rng, 10, 10);
    // x > 10 / 2 qualifies: 6 and 9 do, 5 and 3 do not
    assert_eq!(r.0, 2);
    assert_eq!(c.genoms.len(), 4);
    assert_eq!(c.positions.len(), 4);
    for g in &c.genoms {
        assert_eq!(g.nucleotides.len(), 4);
        assert_eq!(g.score(), 0);
    }
}

#[test]
fn zero_parents_fall_back_to_random_repopulation() {
    let mut rng = RandomSource::from_seed(31);
    let g = Genom::random(6, &mut rng);
    let genoms = vec![Genom::from_previous(&g), Genom::from_previous(&g), Genom::from_previous(&g)];
    let positions = vec![Point2::new(0, 0), Point2::new(2, 1), Point2::new(5, 2)];
    let mut c = Creatures { genoms, positions, mutation_coeff: 1000 };
    let r = AndiN::simulate_end(&mut c, &mut rng, 10, 10);
    assert_eq!(r.0, 0);
    assert_eq!(c.genoms.len(), 3);
    assert_eq!(c.positions.len(), 3);
    for g in &c.genoms {
        assert_eq!(g.nucleotides.len(), 6);
    }
}

#[test]
fn end_generation_respawns_positions_in_bounds() {
    let mut rng = RandomSource::from_seed(32);
    let mut c = Creatures::new(12, 5, 1000, 7, 9, &mut rng);
    let count = AndiN::end_generation(&mut c, &mut rng, 9, 7);
    assert!(count <= 12);
    assert_eq!(c.genoms.len(), 12);
    assert_eq!(c.positions.len(), 12);
    for g in &c.genoms {
        assert_eq!(g.nucleotides.len(), 5);
    }
    for p in &c.positions {
        assert!(0 <= p.x && p.x < 9);
        assert!(0 <= p.y && p.y < 7);
    }
}

#[test]
fn empty_population_survives_a_generation_boundary() {
    let mut rng = RandomSource::from_seed(33);
    let mut c = Creatures { genoms: Vec::new(), positions: Vec::new(), mutation_coeff: 5 };
    AndiN::simulate(&mut c, &mut rng, 4, 4);
    let count = AndiN::end_generation(&mut c, &mut rng, 4, 4);
    assert_eq!(count, 0);
    assert_eq!(c.genoms.len(), 0);
    assert_eq!(c.positions.len(), 0);
}
