use game_of_life::Cell;
use game_of_life::Pug;
use game_of_life::Universe;
use game_of_life::some_fn;

fn live_positions(u: &Universe) -> Vec<(u32, u32)> {
    let mut out = Vec::new();
    for r in 0..u.height() {
        for c in 0..u.width() {
            if u.get_cells()[u.get_index(r, c)] == Cell::Alive {
                out.push((r, c));
            }
        }
    }
    out
}

#[test]
fn new_seeds_multiples_of_two_and_seven() {
    let u = Universe::new(4, 4);
    assert_eq!(u.width(), 4);
    assert_eq!(u.height(), 4);
    assert_eq!(u.cell_count(), 16);
    for (i, cell) in u.get_cells().iter().enumerate() {
        let expected = if i % 2 == 0 || i % 7 == 0 { Cell::Alive } else { Cell::Dead };
        assert_eq!(*cell, expected);
    }
    assert_eq!(u.get_stats(), "Live cells: 9, Total cells: 16");
}

#[test]
fn zero_sized_universe_is_empty() {
    let mut u = Universe::new(0, 7);
    assert_eq!(u.cell_count(), 0);
    u.tick();
    assert_eq!(u.cell_count(), 0);
    assert_eq!(u.get_stats(), "Live cells: 0, Total cells: 0");
}

#[test]
fn cell_count_matches_dimensions_after_every_call() {
    let mut u = Universe::new(6, 5);
    assert_eq!(u.cell_count(), 30);
    u.tick();
    assert_eq!(u.cell_count(), 30);
    u.toggle_cell(4, 5);
    assert_eq!(u.cell_count(), 30);
    u.clear();
    assert_eq!(u.cell_count(), 30);
    u.load_pattern("glider");
    assert_eq!(u.cell_count(), 30);
    u.set_cells(&[(0, 0), (4, 5)]);
    assert_eq!(u.cell_count(), 30);
    u.resize(9, 3);
    assert_eq!(u.cell_count(), 27);
    assert_eq!(u.get_cells().len() as u32, u.width() * u.height());
}

#[test]
fn tick_is_deterministic() {
    let mut a = Universe::new(7, 6);
    let mut b = Universe::new(7, 6);
    a.tick();
    b.tick();
    assert_eq!(a.get_cells(), b.get_cells());
    a.tick();
    b.tick();
    assert_eq!(a.get_cells(), b.get_cells());
}

#[test]
fn tick_applies_the_life_rules() {
    // A blinker turns from a row into a column.
    let mut u = Universe::new(5, 5);
    u.clear();
    u.set_cells(&[(2, 1), (2, 2), (2, 3)]);
    u.tick();
    assert_eq!(live_positions(&u), vec![(1, 2), (2, 2), (3, 2)]);
    u.tick();
    assert_eq!(live_positions(&u), vec![(2, 1), (2, 2), (2, 3)]);
}

#[test]
fn tick_kills_lonely_and_crowded_cells() {
    let mut u = Universe::new(6, 6);
    u.clear();
    u.set_cells(&[(0, 0)]);
    u.tick();
    assert!(live_positions(&u).is_empty());
    // The centre of a plus with four neighbours dies of overcrowding.
    u.set_cells(&[(2, 2), (1, 2), (3, 2), (2, 1), (2, 3)]);
    u.tick();
    assert_eq!(u.get_cells()[u.get_index(2, 2)], Cell::Dead);
}

#[test]
fn neighbours_wrap_round_the_edges() {
    let mut u = Universe::new(5, 4);
    u.clear();
    u.set_cells(&[(3, 2)]);
    assert_eq!(u.live_neighbor_count(0, 2), 1);
    assert_eq!(u.live_neighbor_count(0, 1), 1);
    assert_eq!(u.live_neighbor_count(0, 3), 1);
    assert_eq!(u.live_neighbor_count(1, 2), 0);
    u.clear();
    u.set_cells(&[(0, 0)]);
    assert_eq!(u.live_neighbor_count(3, 4), 1);
    assert_eq!(u.live_neighbor_count(0, 4), 1);
    assert_eq!(u.live_neighbor_count(3, 0), 1);
    assert_eq!(u.live_neighbor_count(0, 0), 0);
    u.clear();
    u.set_cells(&[(1, 4)]);
    assert_eq!(u.live_neighbor_count(1, 0), 1);
}

#[test]
fn full_neighbourhood_counts_eight() {
    let mut u = Universe::new(3, 3);
    u.clear();
    u.set_cells(&[(0, 0), (0, 1), (0, 2), (1, 0), (1, 2), (2, 0), (2, 1), (2, 2)]);
    assert_eq!(u.live_neighbor_count(1, 1), 8);
}

#[test]
fn clear_then_stats_reports_no_live_cells() {
    let mut u = Universe::new(10, 10);
    u.clear();
    assert_eq!(u.get_stats(), "Live cells: 0, Total cells: 100");
    u.clear();
    assert_eq!(u.get_stats(), "Live cells: 0, Total cells: 100");
}

#[test]
fn beacon_returns_after_four_ticks() {
    let mut u = Universe::new(8, 8);
    u.load_pattern("beacon");
    let start = u.get_cells().to_vec();
    assert_eq!(u.get_stats(), "Live cells: 8, Total cells: 64");
    u.tick();
    assert_ne!(u.get_cells(), &start[..]);
    assert_eq!(u.get_stats(), "Live cells: 6, Total cells: 64");
    u.tick();
    assert_eq!(u.get_cells(), &start[..]);
    u.tick();
    u.tick();
    assert_eq!(u.get_cells(), &start[..]);
}

#[test]
fn glider_moves_one_cell_diagonally_in_four_ticks() {
    let mut u = Universe::new(10, 10);
    u.load_pattern("glider");
    assert_eq!(live_positions(&u), vec![(1, 2), (2, 3), (3, 1), (3, 2), (3, 3)]);
    for _ in 0..4 {
        u.tick();
    }
    assert_eq!(live_positions(&u), vec![(2, 3), (3, 4), (4, 2), (4, 3), (4, 4)]);
}

#[test]
fn toggle_twice_restores_the_cell() {
    let mut u = Universe::new(5, 5);
    let before = u.get_cells().to_vec();
    u.toggle_cell(2, 3);
    assert_ne!(u.get_cells()[u.get_index(2, 3)], before[13]);
    u.toggle_cell(2, 3);
    assert_eq!(u.get_cells(), &before[..]);
}

#[test]
fn toggle_flips_exactly_one_cell() {
    let mut u = Universe::new(4, 3);
    u.clear();
    u.toggle_cell(2, 3);
    assert_eq!(live_positions(&u), vec![(2, 3)]);
    u.toggle_cell(2, 3);
    assert!(live_positions(&u).is_empty());
}

#[test]
fn resize_gives_an_all_dead_grid() {
    let mut u = Universe::new(6, 6);
    u.load_pattern("glider");
    u.resize(3, 9);
    assert_eq!(u.width(), 3);
    assert_eq!(u.height(), 9);
    assert_eq!(u.cell_count(), 27);
    assert!(u.get_cells().iter().all(|c| *c == Cell::Dead));
    u.resize(0, 0);
    assert_eq!(u.cell_count(), 0);
}

#[test]
fn set_cells_keeps_other_cells() {
    let mut u = Universe::new(4, 4);
    u.clear();
    u.set_cells(&[(0, 1)]);
    u.set_cells(&[(3, 3), (0, 1)]);
    assert_eq!(live_positions(&u), vec![(0, 1), (3, 3)]);
}

#[test]
fn get_index_is_row_major() {
    let u = Universe::new(7, 3);
    assert_eq!(u.get_index(0, 0), 0);
    assert_eq!(u.get_index(1, 0), 7);
    assert_eq!(u.get_index(2, 6), 20);
}

#[test]
fn unknown_pattern_leaves_the_grid_cleared() {
    let mut u = Universe::new(8, 8);
    u.load_pattern("galaxy");
    assert_eq!(u.get_stats(), "Live cells: 0, Total cells: 64");
}

#[test]
fn pattern_replaces_previous_cells() {
    let mut u = Universe::new(8, 8);
    u.load_pattern("toad");
    assert_eq!(live_positions(&u), vec![(2, 2), (2, 3), (2, 4), (3, 1), (3, 2), (3, 3)]);
    u.tick();
    u.tick();
    assert_eq!(live_positions(&u), vec![(2, 2), (2, 3), (2, 4), (3, 1), (3, 2), (3, 3)]);
}

#[test]
fn spaceship_pattern_cells() {
    let mut u = Universe::new(10, 10);
    u.load_pattern("spaceship");
    assert_eq!(
        live_positions(&u),
        vec![(1, 1), (1, 4), (2, 5), (3, 1), (3, 5), (4, 2), (4, 3), (4, 4), (4, 5)]
    );
}

#[test]
fn pulsar_is_centred_and_has_period_three() {
    let mut u = Universe::new(17, 17);
    u.load_pattern("pulsar");
    assert_eq!(u.get_stats(), "Live cells: 48, Total cells: 289");
    let cells = u.get_cells();
    assert_eq!(cells[u.get_index(2, 4)], Cell::Alive);
    assert_eq!(cells[u.get_index(14, 12)], Cell::Alive);
    assert_eq!(cells[u.get_index(8, 8)], Cell::Dead);
    let start = cells.to_vec();
    u.tick();
    assert_ne!(u.get_cells(), &start[..]);
    u.tick();
    u.tick();
    assert_eq!(u.get_cells(), &start[..]);
}

#[test]
fn pulsar_on_smallest_grid() {
    let mut u = Universe::new(13, 13);
    u.load_pattern("pulsar");
    assert_eq!(u.get_stats(), "Live cells: 48, Total cells: 169");
    assert_eq!(u.get_cells()[u.get_index(0, 2)], Cell::Alive);
    assert_eq!(u.get_cells()[u.get_index(12, 10)], Cell::Alive);
}

#[test]
fn render_draws_one_line_per_row() {
    let u = Universe::new(2, 2);
    assert_eq!(u.render(), "\u{25FC}\u{25FB}\n\u{25FC}\u{25FB}\n");
    let mut v = Universe::new(3, 1);
    v.clear();
    v.toggle_cell(0, 1);
    assert_eq!(v.render(), "\u{25FB}\u{25FC}\u{25FB}\n");
    assert_eq!(Universe::new(0, 0).render(), "");
}

#[test]
fn random_follows_the_draws() {
    let draws = [true, false, false, true, true, false];
    let u = Universe::random(3, 2, &draws);
    assert_eq!(u.cell_count(), 6);
    assert_eq!(
        u.get_cells(),
        &[Cell::Alive, Cell::Dead, Cell::Dead, Cell::Alive, Cell::Alive, Cell::Dead][..]
    );
    assert_eq!(u.get_stats(), "Live cells: 3, Total cells: 6");
}

#[test]
fn stats_print_multi_digit_counts() {
    let mut u = Universe::new(100, 123);
    u.clear();
    u.toggle_cell(0, 0);
    assert_eq!(u.get_stats(), "Live cells: 1, Total cells: 12300");
}

#[test]
fn pug_is_called_pug() {
    assert_eq!(Pug::new().name, "Pug");
}

#[test]
fn some_fn_appends_hello() {
    let mut s = String::from("hi ");
    some_fn(&mut s);
    assert_eq!(s, "hi hello");
    let mut e = String::new();
    some_fn(&mut e);
    assert_eq!(e, "hello");
}
