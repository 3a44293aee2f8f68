use game_of_life::rules::{count_live_neighbors, next_cell};
use game_of_life::Grid;

fn grid_of(live: &[usize]) -> Grid {
    let mut grid = Grid::new();
    for &i in live {
        grid.set(i, 1).unwrap();
    }
    grid
}

fn live_cells(grid: &Grid) -> Vec<usize> {
    let mut live = Vec::new();
    for i in 0..grid.len() {
        if grid.get(i) == Ok(1) {
            live.push(i);
        }
    }
    live
}

fn cells_of(live: &[usize]) -> [i32; 1500] {
    let mut cells = [0; 1500];
    for &i in live {
        cells[i] = 1;
    }
    cells
}

#[test]
fn the_rule_for_one_cell() {
    for n in 0..=8 {
        assert_eq!(next_cell(1, n), if n == 2 || n == 3 { 1 } else { 0 });
        assert_eq!(next_cell(0, n), if n == 3 { 1 } else { 0 });
    }
}

#[test]
fn neighbours_are_counted_in_all_eight_directions() {
    let cells = cells_of(&[309, 310, 311, 359, 361, 409, 410, 411]);
    assert_eq!(count_live_neighbors(&cells, 360), 8);
    assert_eq!(count_live_neighbors(&cells, 310), 4);
    assert_eq!(count_live_neighbors(&cells, 700), 0);
    let one = cells_of(&[360]);
    for i in [309usize, 310, 311, 359, 361, 409, 410, 411] {
        assert_eq!(count_live_neighbors(&one, i), 1);
    }
    assert_eq!(count_live_neighbors(&one, 360), 0);
    assert_eq!(count_live_neighbors(&one, 362), 0);
}

#[test]
fn the_index_space_is_cyclic() {
    let first = cells_of(&[0]);
    assert_eq!(count_live_neighbors(&first, 1499), 1);
    assert_eq!(count_live_neighbors(&first, 1450), 1);
    assert_eq!(count_live_neighbors(&first, 1449), 1);
    assert_eq!(count_live_neighbors(&first, 1451), 1);
    assert_eq!(count_live_neighbors(&first, 1), 1);
    assert_eq!(count_live_neighbors(&first, 49), 1);
    assert_eq!(count_live_neighbors(&first, 50), 1);
    assert_eq!(count_live_neighbors(&first, 51), 1);
    let last = cells_of(&[1499]);
    assert_eq!(count_live_neighbors(&last, 0), 1);
    assert_eq!(count_live_neighbors(&last, 48), 1);
    assert_eq!(count_live_neighbors(&last, 49), 1);
    assert_eq!(count_live_neighbors(&last, 50), 1);
}

#[test]
fn the_first_cell_is_a_neighbour_of_the_last() {
    let mut grid = grid_of(&[0, 1498, 1449]);
    grid.animate();
    assert_eq!(grid.get(1499), Ok(1));
    assert_eq!(live_cells(&grid), vec![0, 1449, 1499]);
}

#[test]
fn rows_bleed_into_each_other() {
    // 349 ends a row and 350 starts the next one: they are neighbours.
    let cells = cells_of(&[349]);
    assert_eq!(count_live_neighbors(&cells, 350), 1);
    let mut grid = grid_of(&[349, 350, 351]);
    grid.animate();
    assert_eq!(live_cells(&grid), vec![300, 350, 400]);
}

#[test]
fn the_first_cell_is_never_rewritten() {
    let mut lonely = grid_of(&[0]);
    lonely.animate();
    assert_eq!(live_cells(&lonely), vec![0]);

    let mut crowded = grid_of(&[1, 50, 51]);
    crowded.animate();
    assert_eq!(crowded.get(0), Ok(0));
    assert_eq!(live_cells(&crowded), vec![1, 50, 51]);
}

#[test]
fn a_lonely_cell_dies() {
    let mut grid = grid_of(&[700]);
    grid.animate();
    assert_eq!(live_cells(&grid), Vec::<usize>::new());
}

#[test]
fn an_empty_grid_stays_empty() {
    let mut grid = Grid::new();
    grid.animate();
    assert_eq!(live_cells(&grid), Vec::<usize>::new());
}

#[test]
fn a_block_is_still() {
    let block = [100usize, 101, 150, 151];
    let mut grid = grid_of(&block);
    for _ in 0..10 {
        grid.animate();
        assert_eq!(live_cells(&grid), block.to_vec());
    }
}

#[test]
fn a_block_across_the_seam_is_still() {
    // 1449 and 1450 above 1499 and 0: a block in the cyclic index space
    let mut grid = grid_of(&[1449, 1450, 1499, 0]);
    for _ in 0..4 {
        grid.animate();
        assert_eq!(live_cells(&grid), vec![0, 1449, 1450, 1499]);
    }
}

#[test]
fn a_blinker_has_period_two() {
    let upright = vec![310usize, 360, 410];
    let flat = vec![359usize, 360, 361];
    let mut grid = grid_of(&upright);
    for _ in 0..5 {
        grid.animate();
        assert_eq!(live_cells(&grid), flat);
        grid.animate();
        assert_eq!(live_cells(&grid), upright);
    }
}

#[test]
fn a_glider_moves_one_cell_diagonally_in_four_generations() {
    let start = [1040usize, 1088, 1090, 1139, 1140];
    let mut grid = grid_of(&start);
    grid.animate();
    assert_eq!(live_cells(&grid), vec![1039, 1090, 1091, 1139, 1140]);
    grid.animate();
    assert_eq!(live_cells(&grid), vec![1040, 1091, 1139, 1140, 1141]);
    grid.animate();
    assert_eq!(live_cells(&grid), vec![1089, 1091, 1140, 1141, 1190]);
    grid.animate();
    let moved: Vec<usize> = start.iter().map(|i| i + 51).collect();
    assert_eq!(live_cells(&grid), moved);
    for _ in 0..4 {
        grid.animate();
    }
    let moved_twice: Vec<usize> = start.iter().map(|i| i + 102).collect();
    assert_eq!(live_cells(&grid), moved_twice);
}

#[test]
fn every_cell_is_decided_from_the_generation_before() {
    // Writing the cells of a flat blinker one by one into the grid they are
    // read from gives another result than the rule asks for.
    let flat = [359usize, 360, 361];
    let mut in_place = cells_of(&flat);
    for i in 1..1500 {
        let n = count_live_neighbors(&in_place, i);
        in_place[i] = next_cell(in_place[i], n);
    }
    let sequential: Vec<usize> = (0..1500).filter(|&i| in_place[i] == 1).collect();

    let mut grid = grid_of(&flat);
    grid.animate();
    assert_eq!(live_cells(&grid), vec![310, 360, 410]);
    assert_ne!(live_cells(&grid), sequential);
}

#[test]
fn the_same_grid_gives_the_same_generations() {
    let seed = [
        640usize, 641, 642, 643, 689, 693, 743, 792, 310, 360, 410, 1040, 1088, 1090, 1139, 1140,
    ];
    let mut one = grid_of(&seed);
    let mut other = grid_of(&seed);
    for _ in 0..40 {
        one.animate();
        other.animate();
        assert_eq!(live_cells(&one), live_cells(&other));
    }
    let mut again = grid_of(&seed);
    again.animate();
    assert_eq!(
        live_cells(&again),
        vec![
            359, 360, 361, 591, 592, 640, 641, 642, 643, 690, 691, 693, 694, 742, 743, 1039, 1090,
            1091, 1139, 1140
        ]
    );
}

#[test]
fn a_glider_crosses_the_seam() {
    let mut grid = grid_of(&[1447, 1495, 1497, 46, 47]);
    for _ in 0..4 {
        grid.animate();
    }
    assert_eq!(live_cells(&grid), vec![46, 48, 97, 98, 1498]);
}

#[test]
fn a_blinker_around_the_first_cell_oscillates() {
    let mut grid = grid_of(&[1450, 0, 50]);
    grid.animate();
    assert_eq!(live_cells(&grid), vec![0, 1, 1499]);
    grid.animate();
    assert_eq!(live_cells(&grid), vec![0, 50, 1450]);
}

#[test]
fn a_blinker_that_ends_in_the_first_cell_does_not_oscillate() {
    // The first cell ought to die and is not rewritten.
    let mut grid = grid_of(&[0, 50, 100]);
    grid.animate();
    assert_eq!(live_cells(&grid), vec![0, 49, 50, 51]);
    grid.animate();
    assert_eq!(live_cells(&grid), vec![0, 1, 49, 50, 51, 100, 1499]);
}

#[test]
fn a_glider_that_starts_in_the_first_cell_breaks() {
    let mut grid = grid_of(&[0, 48, 50, 99, 100]);
    for _ in 0..4 {
        grid.animate();
    }
    assert_eq!(live_cells(&grid), vec![0, 1, 52, 100, 101, 150, 151, 1450, 1451]);
}
