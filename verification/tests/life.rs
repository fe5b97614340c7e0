use conway::grid::{Grid, ALIVE, DEAD};
use conway::life::{advance_generation, count_live_neighbours, next_generation};

/// Build a grid of the given size with exactly the listed cells alive.
fn grid_with(rows: usize, cols: usize, live: &[(usize, usize)]) -> Grid {
    let mut g = Grid::new(rows, cols);
    for &(y, x) in live {
        g.set(y, x, ALIVE);
    }
    g
}

/// The set of live coordinates of a grid, for comparison against an expected list.
fn live_cells(g: &Grid) -> Vec<(usize, usize)> {
    let mut out = Vec::new();
    for y in 0..g.rows {
        for x in 0..g.cols {
            if g.get(y, x) != DEAD {
                out.push((y, x));
            }
        }
    }
    out
}

#[test]
fn neighbour_count_center_of_full_grid() {
    let all: Vec<(usize, usize)> = (0..3).flat_map(|y| (0..3).map(move |x| (y, x))).collect();
    let g = grid_with(3, 3, &all);
    assert_eq!(count_live_neighbours(&g, 1, 1), 8);
}

#[test]
fn neighbour_count_corners_of_full_grid() {
    let all: Vec<(usize, usize)> = (0..3).flat_map(|y| (0..3).map(move |x| (y, x))).collect();
    let g = grid_with(3, 3, &all);
    assert_eq!(count_live_neighbours(&g, 0, 0), 3);
    assert_eq!(count_live_neighbours(&g, 0, 2), 3);
    assert_eq!(count_live_neighbours(&g, 2, 0), 3);
    assert_eq!(count_live_neighbours(&g, 2, 2), 3);
}

#[test]
fn neighbour_count_edge_midpoints_of_full_grid() {
    let all: Vec<(usize, usize)> = (0..3).flat_map(|y| (0..3).map(move |x| (y, x))).collect();
    let g = grid_with(3, 3, &all);
    assert_eq!(count_live_neighbours(&g, 0, 1), 5);
    assert_eq!(count_live_neighbours(&g, 1, 0), 5);
    assert_eq!(count_live_neighbours(&g, 1, 2), 5);
    assert_eq!(count_live_neighbours(&g, 2, 1), 5);
}

#[test]
fn neighbour_count_excludes_centre_and_out_of_bounds() {
    // A lone live cell contributes nothing to its own count.
    let g = grid_with(3, 3, &[(1, 1)]);
    assert_eq!(count_live_neighbours(&g, 1, 1), 0);
    // A corner of an empty-but-for-one-neighbour grid sees just that one.
    let g = grid_with(3, 3, &[(0, 1)]);
    assert_eq!(count_live_neighbours(&g, 0, 0), 1);
}

#[test]
fn block_still_life_is_a_fixed_point() {
    let block = [(1, 1), (1, 2), (2, 1), (2, 2)];
    let g = grid_with(4, 4, &block);
    let next = next_generation(&g);
    assert_eq!(next, g);
    assert_eq!(live_cells(&next), block.to_vec());
}

#[test]
fn blinker_turns_vertical_then_back() {
    let horizontal = [(2, 1), (2, 2), (2, 3)];
    let vertical = [(1, 2), (2, 2), (3, 2)];
    let g0 = grid_with(5, 5, &horizontal);
    let g1 = next_generation(&g0);
    assert_eq!(live_cells(&g1), vertical.to_vec());
    let g2 = next_generation(&g1);
    assert_eq!(g2, g0);
    assert_eq!(live_cells(&g2), horizontal.to_vec());
}

#[test]
fn isolated_cell_dies() {
    let g = grid_with(5, 5, &[(2, 2)]);
    let next = next_generation(&g);
    assert_eq!(live_cells(&next), Vec::new());
}

#[test]
fn cell_with_one_neighbour_dies() {
    let g = grid_with(5, 5, &[(2, 2), (2, 3)]);
    let next = next_generation(&g);
    assert_eq!(live_cells(&next), Vec::new());
}

#[test]
fn one_generation_is_deterministic() {
    let pattern = [(0, 1), (1, 2), (2, 0), (2, 1), (2, 2)];
    let g = grid_with(6, 6, &pattern);
    let first = next_generation(&g);
    let second = next_generation(&g);
    assert_eq!(first, second);
}

#[test]
fn update_is_buffered_not_in_place() {
    // Scanned left to right in place, the first blinker cell would die before
    // its neighbours are counted: (2, 2) would then see one live neighbour
    // and die too, leaving a different (corrupted) grid. The buffered result
    // keeps (2, 2) and grows the vertical bar.
    let g = grid_with(5, 5, &[(2, 1), (2, 2), (2, 3)]);
    let next = next_generation(&g);
    assert_eq!(next.get(2, 2), ALIVE);
    assert_eq!(live_cells(&next), vec![(1, 2), (2, 2), (3, 2)]);
}

#[test]
fn advance_commits_the_same_generation() {
    let pattern = [(2, 1), (2, 2), (2, 3)];
    let mut g = grid_with(5, 5, &pattern);
    let expected = next_generation(&g);
    advance_generation(&mut g);
    assert_eq!(g, expected);
}

#[test]
fn new_grid_is_all_dead() {
    let g = Grid::new(3, 7);
    assert_eq!(g.rows, 3);
    assert_eq!(g.cols, 7);
    assert_eq!(live_cells(&g), Vec::new());
}

#[test]
fn set_then_get_roundtrip() {
    let mut g = Grid::new(2, 2);
    g.set(1, 0, ALIVE);
    assert_eq!(g.get(1, 0), ALIVE);
    assert_eq!(g.get(0, 0), DEAD);
    assert_eq!(g.get(0, 1), DEAD);
    assert_eq!(g.get(1, 1), DEAD);
}

#[test]
fn resize_keeps_the_overlap_and_clears_the_rest() {
    let mut g = grid_with(3, 3, &[(0, 0), (2, 2)]);
    g.resize(4, 2);
    assert_eq!(g.rows, 4);
    assert_eq!(g.cols, 2);
    // (0, 0) lies in the overlap and survives; (2, 2) was cropped away.
    assert_eq!(live_cells(&g), vec![(0, 0)]);
    // Growing back exposes dead cells only: the cropped cell does not return.
    g.resize(3, 3);
    assert_eq!(live_cells(&g), vec![(0, 0)]);
}

#[test]
fn resize_to_empty_and_back() {
    let mut g = grid_with(2, 2, &[(0, 0)]);
    g.resize(0, 0);
    assert_eq!(g.rows, 0);
    assert_eq!(g.cols, 0);
    g.resize(2, 2);
    assert_eq!(live_cells(&g), Vec::new());
}
