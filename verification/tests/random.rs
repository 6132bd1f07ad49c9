use comfort_rpg::grid::{TilePos, TilemapSize};
use comfort_rpg::random::{draw_rolls, draw_seed, CellRolls};
use std::collections::HashSet;

#[test]
fn drawn_rolls_lie_in_their_ranges_and_vary() {
    let size = TilemapSize::new(32, 16);
    let table = draw_rolls(size).unwrap();
    assert_eq!(table.size(), size);
    let mut foliage_percent = HashSet::new();
    let mut foliage_type = HashSet::new();
    let mut flower_percent = HashSet::new();
    let mut flower_type = HashSet::new();
    for x in 0..32 {
        for y in 0..16 {
            let rolls = table.get(TilePos::new(x, y));
            assert!(rolls.foliage_percent < 100);
            assert!((1..5).contains(&rolls.foliage_type));
            assert!(rolls.flower_percent < 100);
            assert!((2..8).contains(&rolls.flower_type));
            foliage_percent.insert(rolls.foliage_percent);
            foliage_type.insert(rolls.foliage_type);
            flower_percent.insert(rolls.flower_percent);
            flower_type.insert(rolls.flower_type);
        }
    }
    // 512 draws each: a generator that handed back a bound would show one value.
    assert!(foliage_percent.len() > 20);
    assert_eq!(foliage_type.len(), 4);
    assert!(flower_percent.len() > 20);
    assert_eq!(flower_type.len(), 6);
}

#[test]
fn a_single_draw_lies_in_its_ranges() {
    let mut rng = rand::thread_rng();
    for _ in 0..200 {
        let rolls = CellRolls::draw(&mut rng);
        assert!(rolls.foliage_percent < 100);
        assert!((1..5).contains(&rolls.foliage_type));
        assert!(rolls.flower_percent < 100);
        assert!((2..8).contains(&rolls.flower_type));
    }
}

#[test]
fn seeds_differ_from_draw_to_draw() {
    let seeds: HashSet<u64> = (0..16).map(|_| draw_seed()).collect();
    assert!(seeds.len() > 1);
}

#[test]
fn an_empty_map_has_an_empty_table() {
    let table = draw_rolls(TilemapSize::new(0, 0)).unwrap();
    assert_eq!(table.size(), TilemapSize::new(0, 0));
}
