use territory_sim::executor::{chunk_bounds, next_generation};
use territory_sim::grid::Grid;
use territory_sim::pixel::{Pixel, black, white};

fn red() -> Pixel {
    Pixel { r: 255, g: 0, b: 0, a: 255 }
}

fn grid_from(width: usize, height: usize, marks: &[(usize, usize, Pixel)]) -> Grid {
    let mut g = Grid::new_filled(width, height, black());
    for &(x, y, p) in marks {
        g.put(x, y, p);
    }
    g
}

/// Determinism: worker counts 1, 4 and 17 produce bit-identical buffers.
#[test]
fn next_generation_is_chunk_count_independent() {
    let g = grid_from(
        8,
        8,
        &[
            (1, 1, white()),
            (2, 1, white()),
            (3, 1, white()),
            (5, 5, red()),
            (6, 2, white()),
            (6, 3, white()),
        ],
    );
    let a = next_generation(&g, red(), 1);
    let b = next_generation(&g, red(), 4);
    let c = next_generation(&g, red(), 17);
    assert_eq!(a.cells, b.cells);
    assert_eq!(b.cells, c.cells);
    assert_eq!(a.cells.len(), 64);
}

/// Conservation: over several buffer sizes and chunk counts, the chunk
/// ranges visit every cell exactly once (checked with a visited-count map).
#[test]
fn chunk_partition_covers_every_cell_once() {
    for &area in &[0usize, 1, 5, 16, 64, 100] {
        for &n in &[1usize, 2, 3, 7, 16, 17] {
            let mut visited = vec![0u32; area];
            for c in 0..n {
                let (start, end) = chunk_bounds(area, n, c);
                assert!(start <= end && end <= area);
                for i in start..end {
                    visited[i] += 1;
                }
            }
            for (i, count) in visited.iter().enumerate() {
                assert_eq!(*count, 1, "area={area} chunks={n} cell={i}");
            }
        }
    }
}

/// One exact generation: under this rule any cell with two or three active
/// neighbors turns active, so a row of three actives grows into a cross-like
/// block of seven while its own ends (one active neighbor each) die.
#[test]
fn row_of_three_advances_one_exact_generation() {
    let g = grid_from(5, 5, &[(1, 2, white()), (2, 2, white()), (3, 2, white())]);
    let next = next_generation(&g, red(), 3);
    let expected_active =
        [(1, 1), (2, 1), (3, 1), (2, 2), (1, 3), (2, 3), (3, 3)];
    for y in 0..5 {
        for x in 0..5 {
            let expected = if expected_active.contains(&(x, y)) { white() } else { black() };
            assert_eq!(next.at(x, y), expected, "at ({x},{y})");
        }
    }
}

/// Edge sentinel: the corner cell sees the void beyond the grid as empty and
/// does not wrap around to the far edge. Active cells placed on the far
/// edges would be the corner's neighbors on a torus, but must not spawn it.
#[test]
fn corner_does_not_wrap_to_far_edge() {
    let g = grid_from(4, 4, &[(3, 3, white()), (3, 0, white()), (0, 3, white())]);
    let next = next_generation(&g, red(), 1);
    assert_eq!(next.at(0, 0), black());
}

/// Untouched preservation at the buffer level: team-colored cells without
/// active pressure keep their color byte-for-byte across a tick.
#[test]
fn captured_territory_persists_across_ticks() {
    let blue = Pixel { r: 0, g: 0, b: 255, a: 255 };
    let g = grid_from(6, 6, &[(2, 2, red()), (4, 4, blue)]);
    let next = next_generation(&g, red(), 2);
    assert_eq!(next.at(2, 2), red());
    assert_eq!(next.at(4, 4), blue);
}

/// With exactly two active neighbors a team-colored cell is overrun and
/// turns active: the documented exception to untouched preservation.
#[test]
fn captured_cell_overrun_by_active_neighbors() {
    let g = grid_from(5, 5, &[(2, 2, red()), (1, 2, white()), (3, 2, white())]);
    let next = next_generation(&g, red(), 1);
    assert_eq!(next.at(2, 2), white());
}
