use connect4::board::{Board, ConfigError};
use connect4::grid::{Cell, Grid, GridError};

fn classic() -> Board {
    Board::new(
        7,
        6,
        "ann".to_string(),
        "bob".to_string(),
        vec![false, false, false, false],
        4,
        vec![],
        vec![],
    )
    .unwrap()
}

fn toot(count: i64) -> Board {
    Board::new(
        7,
        6,
        "ann".to_string(),
        "bob".to_string(),
        vec![false, true, true, false],
        4,
        vec![count, count],
        vec![count, count],
    )
    .unwrap()
}

fn ann() -> String {
    "ann".to_string()
}

fn bob() -> String {
    "bob".to_string()
}

/// Whether every column is filled from the bottom without a gap.
fn settled(b: &Board) -> bool {
    for c in 0..b.grid.width {
        let mut seen = false;
        for r in 0..b.grid.height {
            let here = b.grid.get(r, c).unwrap();
            if here != Cell::Empty {
                seen = true;
            } else if seen {
                return false;
            }
        }
    }
    true
}

#[test]
fn grid_starts_empty() {
    let g = Grid::new(3, 2);
    assert_eq!(g.width, 3);
    assert_eq!(g.height, 2);
    for r in 0..2 {
        for c in 0..3 {
            assert_eq!(g.get(r, c), Ok(Cell::Empty));
        }
    }
}

#[test]
fn grid_get_out_of_bounds() {
    let g = Grid::new(3, 2);
    assert_eq!(g.get(2, 0), Err(GridError::OutOfBounds));
    assert_eq!(g.get(0, 3), Err(GridError::OutOfBounds));
    assert_eq!(g.get(-1, 0), Err(GridError::OutOfBounds));
    assert_eq!(g.get(0, -1), Err(GridError::OutOfBounds));
    assert_eq!(Grid::new(0, 0).get(0, 0), Err(GridError::OutOfBounds));
}

#[test]
fn grid_set_then_get() {
    let mut g = Grid::new(3, 2);
    g.set(1, 2, Cell::T);
    g.set(0, 0, Cell::O);
    assert_eq!(g.get(1, 2), Ok(Cell::T));
    assert_eq!(g.get(0, 0), Ok(Cell::O));
    assert_eq!(g.get(1, 1), Ok(Cell::Empty));
    g.set(1, 2, Cell::Empty);
    assert_eq!(g.get(1, 2), Ok(Cell::Empty));
}

#[test]
fn grid_set_outside_changes_nothing() {
    let mut g = Grid::new(3, 2);
    let before = g.clone();
    g.set(2, 0, Cell::T);
    g.set(0, 3, Cell::T);
    g.set(-1, -1, Cell::O);
    assert_eq!(g, before);
}

#[test]
fn cell_flip() {
    assert_eq!(Cell::T.flip(), Cell::O);
    assert_eq!(Cell::O.flip(), Cell::T);
    assert_eq!(Cell::Empty.flip(), Cell::Empty);
}

#[test]
fn new_board_is_empty_and_first_player_begins() {
    let b = classic();
    assert_eq!(b.grid.width, 7);
    assert_eq!(b.grid.height, 6);
    assert_eq!(b.last_row, -1);
    assert_eq!(b.last_col, -1);
    assert_eq!(b.last_player, "bob");
    assert_eq!(b.get_next_player(), "ann");
    assert_eq!(b.difficulty, 4);
    for r in 0..6 {
        for c in 0..7 {
            assert_eq!(b.cell(r, c), Cell::Empty);
        }
    }
    assert!(!b.has_winner());
    assert!(!b.is_draw());
    assert!(!b.is_terminal());
}

#[test]
fn new_refuses_bad_dimensions() {
    let r = Board::new(0, 6, ann(), bob(), vec![false; 4], 1, vec![], vec![]);
    assert_eq!(r.err(), Some(ConfigError::Dimensions));
    let r = Board::new(7, -1, ann(), bob(), vec![false; 4], 1, vec![], vec![]);
    assert_eq!(r.err(), Some(ConfigError::Dimensions));
    let r = Board::new(0, 0, ann(), bob(), vec![], 1, vec![1], vec![]);
    assert_eq!(r.err(), Some(ConfigError::Dimensions));
}

#[test]
fn new_refuses_bad_pattern() {
    let r = Board::new(7, 6, ann(), bob(), vec![false; 3], 1, vec![], vec![]);
    assert_eq!(r.err(), Some(ConfigError::Pattern));
    let r = Board::new(7, 6, ann(), bob(), vec![], 1, vec![], vec![]);
    assert_eq!(r.err(), Some(ConfigError::Pattern));
    let r = Board::new(7, 6, ann(), bob(), vec![true; 5], 1, vec![], vec![]);
    assert_eq!(r.err(), Some(ConfigError::Pattern));
}

#[test]
fn new_refuses_bad_inventory() {
    let r = Board::new(7, 6, ann(), bob(), vec![false; 4], 1, vec![2, 2], vec![]);
    assert_eq!(r.err(), Some(ConfigError::Inventory));
    let r = Board::new(7, 6, ann(), bob(), vec![false; 4], 1, vec![2, 2], vec![2, -1]);
    assert_eq!(r.err(), Some(ConfigError::Inventory));
    let r = Board::new(7, 6, ann(), bob(), vec![false; 4], 1, vec![1], vec![1]);
    assert_eq!(r.err(), Some(ConfigError::Inventory));
}

#[test]
fn empty_board_has_no_cells() {
    let b = Board::empty();
    assert_eq!(b.grid.width, 0);
    assert_eq!(b.grid.height, 0);
    assert_eq!(b.last_row, -1);
    assert_eq!(b.last_col, -1);
    assert_eq!(b.last_player, " ");
    assert_eq!(b.player_1, " ");
    assert_eq!(b.player_2, " ");
    assert_eq!(b.difficulty, 1);
    assert!(b.mode.is_empty());
    assert!(!b.allows_move(&0, &ann(), &false));
    assert!(!b.has_winner());
    assert!(b.is_draw());
}

#[test]
fn opponent_is_the_other_player() {
    let b = classic();
    assert_eq!(b.opponent(&ann()), "bob");
    assert_eq!(b.opponent(&bob()), "ann");
    assert_eq!(b.opponent(&"carl".to_string()), "ann");
}

#[test]
fn next_player_alternates() {
    let mut b = classic();
    assert_eq!(b.get_next_player(), "ann");
    b.perform_move(0, ann(), &false);
    assert_eq!(b.get_next_player(), "bob");
    b.perform_move(0, bob(), &false);
    assert_eq!(b.get_next_player(), "ann");
}

#[test]
fn pieces_fall_to_the_bottom() {
    let mut b = classic();
    b.perform_move(3, ann(), &false);
    assert_eq!((b.last_row, b.last_col), (5, 3));
    assert_eq!(b.last_player, "ann");
    assert_eq!(b.cell(5, 3), Cell::T);
    b.perform_move(3, bob(), &false);
    assert_eq!((b.last_row, b.last_col), (4, 3));
    assert_eq!(b.last_player, "bob");
    assert_eq!(b.cell(4, 3), Cell::O);
    b.perform_move(3, ann(), &true);
    assert_eq!((b.last_row, b.last_col), (3, 3));
    assert_eq!(b.cell(3, 3), Cell::O);
    b.perform_move(3, bob(), &true);
    assert_eq!(b.cell(2, 3), Cell::T);
    assert_eq!(b.cell(1, 3), Cell::Empty);
}

#[test]
fn gravity_holds_after_every_move() {
    let mut b = classic();
    let cols = [3, 3, 4, 0, 6, 3, 3, 2, 2, 2, 6, 0, 0, 5, 5, 3, 3, 1];
    let mut mover = ann();
    for (n, c) in cols.iter().enumerate() {
        assert!(b.allows_move(c, &mover, &false));
        b.perform_move(*c, mover.clone(), &(n % 3 == 0));
        assert!(settled(&b));
        mover = b.opponent(&mover);
    }
    for c in [1, 3, 5, 0] {
        b.undo_move(c);
        assert!(settled(&b));
    }
}

#[test]
fn allows_move_checks_the_column() {
    let mut b = classic();
    assert!(b.allows_move(&0, &ann(), &false));
    assert!(b.allows_move(&6, &bob(), &true));
    assert!(!b.allows_move(&7, &ann(), &false));
    assert!(!b.allows_move(&-1, &ann(), &false));
    for n in 0..6 {
        assert!(b.allows_move(&2, &ann(), &false));
        let who = if n % 2 == 0 { ann() } else { bob() };
        b.perform_move(2, who, &false);
    }
    assert!(!b.allows_move(&2, &ann(), &false));
    assert!(!b.allows_move(&2, &bob(), &true));
    assert!(b.allows_move(&1, &ann(), &false));
}

#[test]
fn legal_moves_are_ascending() {
    let mut b = classic();
    assert_eq!(b.legal_moves(&false, &ann()), vec![0, 1, 2, 3, 4, 5, 6]);
    for n in 0..6 {
        let who = if n % 2 == 0 { ann() } else { bob() };
        b.perform_move(4, who, &false);
    }
    assert_eq!(b.legal_moves(&false, &ann()), vec![0, 1, 2, 3, 5, 6]);
    assert_eq!(b.legal_moves(&true, &bob()), vec![0, 1, 2, 3, 5, 6]);
}

#[test]
fn available_moves_are_the_legal_columns_in_some_order() {
    let mut b = classic();
    for n in 0..6 {
        let who = if n % 2 == 0 { ann() } else { bob() };
        b.perform_move(0, who, &false);
    }
    for _ in 0..20 {
        let mut cols = b.available_moves(&false, &bob());
        cols.sort();
        assert_eq!(cols, vec![1, 2, 3, 4, 5, 6]);
    }
}

#[test]
fn available_moves_come_shuffled() {
    let b = classic();
    let mut reordered = false;
    for _ in 0..200 {
        let cols = b.available_moves(&false, &ann());
        assert_eq!(cols.len(), 7);
        if cols != vec![0, 1, 2, 3, 4, 5, 6] {
            reordered = true;
        }
    }
    assert!(reordered);
}

#[test]
fn inventory_is_spent_and_restored() {
    let mut b = toot(3);
    b.perform_move(0, ann(), &false);
    assert_eq!(b.p1_remain, vec![2, 3]);
    assert_eq!(b.p2_remain, vec![3, 3]);
    b.perform_move(1, bob(), &true);
    assert_eq!(b.p1_remain, vec![2, 3]);
    assert_eq!(b.p2_remain, vec![3, 2]);
    b.undo_move(1);
    assert_eq!(b.p2_remain, vec![3, 3]);
    assert_eq!(b.cell(5, 1), Cell::Empty);
    b.perform_move(1, ann(), &true);
    assert_eq!(b.p1_remain, vec![2, 2]);
    assert_eq!(b.cell(5, 1), Cell::O);
}

#[test]
fn undo_is_inverse_of_apply() {
    for reverse in [false, true] {
        for who in [ann(), bob()] {
            let mut b = toot(4);
            b.perform_move(2, ann(), &false);
            b.perform_move(2, bob(), &true);
            b.perform_move(5, ann(), &true);
            let before = b.clone();
            b.perform_move(2, who.clone(), &reverse);
            assert_eq!((b.last_row, b.last_col), (3, 2));
            b.undo_move(2);
            assert_eq!(b.grid, before.grid);
            assert_eq!(b.p1_remain, before.p1_remain);
            assert_eq!(b.p2_remain, before.p2_remain);
            assert_eq!((b.last_row, b.last_col), (3, 2));
            assert_eq!(b.last_player, who);
        }
    }
}

#[test]
fn undo_on_an_empty_or_missing_column_changes_nothing() {
    let mut b = toot(2);
    b.perform_move(1, ann(), &false);
    let before = b.clone();
    b.undo_move(0);
    assert_eq!(b, before);
    b.undo_move(7);
    assert_eq!(b, before);
    b.undo_move(-1);
    assert_eq!(b, before);
}

#[test]
fn spent_symbol_is_refused_in_every_column() {
    let mut b = toot(2);
    b.perform_move(0, ann(), &false);
    b.perform_move(1, bob(), &false);
    b.perform_move(2, ann(), &false);
    assert_eq!(b.p1_remain, vec![0, 2]);
    for c in 0..7 {
        assert!(!b.allows_move(&c, &ann(), &false));
        assert!(b.allows_move(&c, &ann(), &true));
        assert!(b.allows_move(&c, &bob(), &false));
    }
    assert!(b.available_moves(&false, &ann()).is_empty());
    assert_eq!(b.available_moves(&true, &ann()).len(), 7);
    assert!(!b.has_move(&false, &ann()));
    assert!(b.has_move(&true, &ann()));
}

#[test]
fn draw_when_all_pieces_are_spent() {
    let mut b = toot(1);
    b.perform_move(0, ann(), &false);
    b.perform_move(2, bob(), &false);
    b.perform_move(4, ann(), &true);
    assert!(!b.is_draw());
    b.perform_move(6, bob(), &true);
    assert_eq!(b.p1_remain, vec![0, 0]);
    assert_eq!(b.p2_remain, vec![0, 0]);
    assert!(!b.has_winner());
    assert!(b.is_draw());
    assert!(b.is_terminal());
    assert_eq!(b.game_value(&false), 0);
}
