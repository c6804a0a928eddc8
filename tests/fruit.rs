use snake::fruit::{roll_spawns_fruit, spawn_from_roll, spawn_roll_count, Fruit, SPAWN_WINNING_ROLLS};
use snake::point::Point;

#[test]
fn spawn_chance_is_eight_percent_over_fruit_count_plus_one() {
    assert_eq!(spawn_roll_count(0), 25);
    assert_eq!(spawn_roll_count(4), 125);
    let p0 = SPAWN_WINNING_ROLLS as f64 / spawn_roll_count(0) as f64;
    let p4 = SPAWN_WINNING_ROLLS as f64 / spawn_roll_count(4) as f64;
    assert!((p0 - 0.08).abs() < 1e-12);
    assert!((p4 - 0.08 / 5.0).abs() < 1e-12);
}

#[test]
fn only_the_lowest_rolls_win() {
    assert!(roll_spawns_fruit(0));
    assert!(roll_spawns_fruit(1));
    assert!(!roll_spawns_fruit(2));
    assert!(!roll_spawns_fruit(124));
}

#[test]
fn no_candidate_means_no_fruit() {
    let empty: Vec<Point> = Vec::new();
    for _ in 0..1000 {
        assert!(Fruit::try_spawn_at_random_place(&empty, 0).is_none());
    }
}

#[test]
fn spawns_only_on_supplied_candidates() {
    let candidates = vec![Point::new(3, 4), Point::new(17, 2)];
    let mut spawned = 0;
    for _ in 0..5000 {
        if let Some(f) = Fruit::try_spawn_at_random_place(&candidates, 0) {
            assert!(candidates.contains(&f.point));
            spawned += 1;
        }
    }
    // About 400 of 5000 trials succeed at a chance of 0.08.
    assert!(spawned > 200 && spawned < 650, "spawned {}", spawned);
}

#[test]
fn a_winning_roll_places_the_picked_point() {
    let p = Point::new(4, 7);
    assert_eq!(spawn_from_roll(0, Some(p)), Some(Fruit { point: p }));
    assert_eq!(spawn_from_roll(1, Some(p)), Some(Fruit { point: p }));
    assert_eq!(spawn_from_roll(2, Some(p)), None);
    assert_eq!(spawn_from_roll(24, Some(p)), None);
    assert_eq!(spawn_from_roll(0, None), None);
}
