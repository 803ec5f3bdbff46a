use gtksnake::{Coordinate, GameGrid};

fn lit_cells(grid: &GameGrid) -> Vec<(usize, usize)> {
    let mut cells = Vec::new();
    for y in 0..grid.height {
        for x in 0..grid.width {
            if grid.data[y][x] {
                cells.push((x, y));
            }
        }
    }
    cells
}

#[test]
fn new_grid_is_dark() {
    let grid = GameGrid::new(14, 10);
    assert_eq!(grid.width, 14);
    assert_eq!(grid.height, 10);
    assert_eq!(grid.data.len(), 10);
    for row in &grid.data {
        assert_eq!(row.len(), 14);
        assert!(row.iter().all(|on| !*on));
    }
}

#[test]
fn new_grid_without_cells() {
    let none = GameGrid::new(0, 0);
    assert_eq!(none.data.len(), 0);
    let no_columns = GameGrid::new(0, 3);
    assert_eq!(no_columns.data.len(), 3);
    assert!(no_columns.data.iter().all(|row| row.is_empty()));
    let no_rows = GameGrid::new(3, 0);
    assert_eq!(no_rows.width, 3);
    assert!(no_rows.data.is_empty());
}

#[test]
fn rows_are_indexed_first() {
    let mut grid = GameGrid::new(4, 3);
    grid.set(&vec![Coordinate::new(3, 1)], true);
    assert!(grid.data[1][3]);
    assert_eq!(lit_cells(&grid), vec![(3, 1)]);
}

#[test]
fn set_switches_on_the_listed_cells_only() {
    let mut grid = GameGrid::new(14, 10);
    grid.set(&vec![Coordinate::new(8, 5), Coordinate::new(0, 0), Coordinate::new(13, 9)], true);
    assert_eq!(lit_cells(&grid), vec![(0, 0), (8, 5), (13, 9)]);
    assert_eq!(grid.width, 14);
    assert_eq!(grid.height, 10);
}

#[test]
fn set_keeps_what_was_on() {
    let mut grid = GameGrid::new(5, 5);
    grid.set(&vec![Coordinate::new(1, 1)], true);
    grid.set(&vec![Coordinate::new(2, 2), Coordinate::new(1, 1)], true);
    assert_eq!(lit_cells(&grid), vec![(1, 1), (2, 2)]);
}

#[test]
fn set_switches_off() {
    let mut grid = GameGrid::new(5, 5);
    grid.set(&vec![Coordinate::new(1, 1), Coordinate::new(2, 2), Coordinate::new(3, 3)], true);
    grid.set(&vec![Coordinate::new(2, 2), Coordinate::new(4, 4)], false);
    assert_eq!(lit_cells(&grid), vec![(1, 1), (3, 3)]);
}

#[test]
fn set_takes_a_cell_twice() {
    let mut grid = GameGrid::new(3, 3);
    grid.set(&vec![Coordinate::new(1, 2), Coordinate::new(1, 2)], true);
    assert_eq!(lit_cells(&grid), vec![(1, 2)]);
}

#[test]
fn set_with_nothing_listed_changes_nothing() {
    let mut grid = GameGrid::new(3, 3);
    grid.set(&vec![Coordinate::new(0, 1)], true);
    grid.set(&Vec::new(), true);
    grid.set(&Vec::new(), false);
    assert_eq!(lit_cells(&grid), vec![(0, 1)]);
}

#[test]
fn clear_switches_everything_off() {
    let mut grid = GameGrid::new(6, 4);
    let mut all = Vec::new();
    for y in 0..4 {
        for x in 0..6 {
            all.push(Coordinate::new(x, y));
        }
    }
    grid.set(&all, true);
    assert_eq!(lit_cells(&grid).len(), 24);
    grid.clear();
    assert!(lit_cells(&grid).is_empty());
    assert_eq!(grid.width, 6);
    assert_eq!(grid.height, 4);
    assert_eq!(grid.data.len(), 4);
    assert!(grid.data.iter().all(|row| row.len() == 6));
}

#[test]
fn clear_of_a_dark_grid() {
    let mut grid = GameGrid::new(2, 2);
    grid.clear();
    assert!(lit_cells(&grid).is_empty());
}

#[test]
fn clone_copies_the_switches() {
    let mut grid = GameGrid::new(4, 3);
    grid.set(&vec![Coordinate::new(1, 2), Coordinate::new(3, 0)], true);
    let copy = grid.clone();
    grid.clear();
    assert_eq!(copy.width, 4);
    assert_eq!(copy.height, 3);
    assert_eq!(lit_cells(&copy), vec![(3, 0), (1, 2)]);
    assert!(lit_cells(&grid).is_empty());
}
