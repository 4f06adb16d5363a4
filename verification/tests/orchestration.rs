use brains::rng::RandomSource;
use brains::world::World;

#[test]
fn new_world_defaults() {
    let rng = RandomSource::from_seed(2);
    let w = World::new(10, 5, 100, 16, 8, rng);
    assert_eq!(w.generation(), 0);
    assert_eq!(w.step(), 0);
    assert_eq!(w.creatures.genoms.len(), 10);
    assert_eq!(w.creatures.positions.len(), 10);
    assert_eq!(w.export_positions().len(), 10);
}

#[test]
fn scenario_one_generation_on_a_small_board() {
    let rng = RandomSource::from_seed(12345);
    let mut w = World::new(4, 5, 1000, 10, 10, rng);
    w.set_steps_in_generation(1);
    w.simulate_until_endofgeneration();
    assert_eq!(w.creatures.genoms.len(), 4);
    assert_eq!(w.creatures.positions.len(), 4);
    assert_eq!(w.generation(), 1);
    assert_eq!(w.step(), 0);
}

#[test]
fn counter_protocol_step_resets_exactly_when_generation_increments() {
    let rng = RandomSource::from_seed(7);
    let mut w = World::new(6, 4, 1000, 8, 8, rng);
    w.set_steps_in_generation(3);
    let mut last_generation = w.generation();
    for _ in 0..12 {
        let before_generation = w.generation();
        w.simulate();
        let stepped = w.step();
        let generation = w.generation();
        assert!(generation >= last_generation);
        assert_eq!(stepped == 0, generation == before_generation + 1);
        last_generation = generation;
    }
    // steps_in_generation == 3: the counter runs 1, 2, 3, then resets
    let rng2 = RandomSource::from_seed(7);
    let mut w2 = World::new(6, 4, 1000, 8, 8, rng2);
    w2.set_steps_in_generation(3);
    let mut steps = Vec::new();
    for _ in 0..5 {
        w2.simulate();
        steps.push(w2.step());
    }
    assert_eq!(steps, vec![1, 2, 3, 0, 1]);
    assert_eq!(w2.generation(), 1);
}

#[test]
fn counter_protocol_after_lowering_steps_in_generation() {
    let rng = RandomSource::from_seed(9);
    let mut w = World::new(5, 4, 1000, 8, 8, rng);
    w.set_steps_in_generation(10);
    for _ in 0..4 {
        w.simulate();
    }
    assert_eq!(w.step(), 4);
    assert_eq!(w.generation(), 0);
    w.set_steps_in_generation(2);
    w.simulate();
    // 5 > 2: the boundary fires on the next advance
    assert_eq!(w.step(), 0);
    assert_eq!(w.generation(), 1);
}

#[test]
fn run_to_generation_end_from_midway() {
    let rng = RandomSource::from_seed(18);
    let mut w = World::new(8, 5, 1000, 12, 12, rng);
    w.set_steps_in_generation(4);
    w.simulate();
    w.simulate();
    assert_eq!(w.step(), 2);
    w.simulate_until_endofgeneration();
    assert_eq!(w.step(), 0);
    assert_eq!(w.generation(), 1);
    assert_eq!(w.creatures.genoms.len(), 8);
    assert_eq!(w.creatures.positions.len(), 8);
}

#[test]
fn export_positions_snapshots_the_population() {
    let rng = RandomSource::from_seed(25);
    let mut w = World::new(9, 4, 1000, 6, 6, rng);
    w.simulate();
    let snapshot = w.export_positions();
    assert_eq!(snapshot.len(), 9);
    for (i, p) in snapshot.iter().enumerate() {
        assert_eq!(*p, w.creatures.positions[i]);
        assert!(0 <= p.x && p.x < 6);
        assert!(0 <= p.y && p.y < 6);
    }
}

#[test]
fn generation_counter_never_decreases_across_many_operations() {
    let rng = RandomSource::from_seed(77);
    let mut w = World::new(5, 3, 50, 7, 7, rng);
    w.set_steps_in_generation(2);
    let mut last = w.generation();
    for i in 0..20 {
        if i % 5 == 4 {
            w.simulate_until_endofgeneration();
        } else {
            w.simulate();
        }
        assert!(w.generation() >= last);
        last = w.generation();
    }
}
