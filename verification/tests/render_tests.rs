use lifegame::gen_test_cells;
use lifegame::render;
use lifegame::Cell;
use lifegame::Cells;

#[test]
fn render_sample_pattern() {
    let cells = gen_test_cells();
    let text = render(&cells);
    assert_eq!("##.#\n#.#.\n....\n.###\n..#.\n", text);
}

#[test]
fn render_all_dead() {
    let cells = Cells::new(2, 3);
    assert_eq!("..\n..\n..\n", render(&cells));
}

#[test]
fn render_degenerate_grids() {
    assert_eq!("", render(&Cells::new(0, 0)));
    // A grid with zero-width rows still renders one (empty) line per row.
    assert_eq!("\n\n\n", render(&Cells::new(0, 3)));
    assert_eq!("", render(&Cells::new(3, 0)));
}

#[test]
fn render_follows_set() {
    let mut cells = Cells::new(2, 2);
    cells.set(1, 0, Cell::Alive);
    assert_eq!(".#\n..\n", render(&cells));
    cells.set(1, 0, Cell::Dead);
    cells.set(0, 1, Cell::Alive);
    assert_eq!("..\n#.\n", render(&cells));
}
