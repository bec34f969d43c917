use connect4::board::Board;
use connect4::grid::Cell;

fn board(mode: Vec<bool>) -> Board {
    Board::new(7, 6, "ann".to_string(), "bob".to_string(), mode, 4, vec![], vec![]).unwrap()
}

fn ann() -> String {
    "ann".to_string()
}

fn bob() -> String {
    "bob".to_string()
}

/// Drops `symbol` into `col` for the player who owns that symbol.
fn drop_own(b: &mut Board, col: i64, symbol: char) {
    let who = if symbol == 'T' { ann() } else { bob() };
    b.perform_move(col, who, &false);
}

/// Drops into `col` for `who` whichever of the two symbols is `symbol`.
fn drop_as(b: &mut Board, col: i64, who: &str, symbol: char) {
    let own = if who == "ann" { 'T' } else { 'O' };
    b.perform_move(col, who.to_string(), &(own != symbol));
}

#[test]
fn four_in_a_column_win_for_the_first_player() {
    let mut b = board(vec![false; 4]);
    for n in 0..3 {
        b.perform_move(3, ann(), &false);
        assert!(!b.has_winner());
        assert_eq!((b.last_row, b.last_col), (5 - n, 3));
        b.perform_move(0, bob(), &false);
        assert!(!b.has_winner());
    }
    b.perform_move(3, ann(), &false);
    assert_eq!((b.last_row, b.last_col), (2, 3));
    assert!(b.has_winner());
    assert_eq!(b._has_winner(), (true, "ann".to_string()));
    assert!(b.is_terminal());
    assert!(!b.is_draw());
    assert_eq!(b.game_value(&false), 1);
}

#[test]
fn second_player_wins_across() {
    let mut b = board(vec![false; 4]);
    for c in [1, 2, 3] {
        b.perform_move(c, bob(), &false);
        b.perform_move(c, ann(), &false);
    }
    assert!(!b.has_winner());
    b.perform_move(0, bob(), &false);
    assert_eq!(b._has_winner(), (true, "bob".to_string()));
    assert_eq!(b.game_value(&false), -1);
    assert_eq!(b.game_value(&true), -1);
}

#[test]
fn win_in_the_middle_of_a_line() {
    let mut b = board(vec![false; 4]);
    for c in [2, 3, 5] {
        b.perform_move(c, ann(), &false);
    }
    assert!(!b.has_winner());
    b.perform_move(4, ann(), &false);
    assert_eq!(b._has_winner(), (true, "ann".to_string()));
}

#[test]
fn win_along_the_falling_diagonal() {
    // T at (2,0), (3,1), (4,2), (5,3)
    let mut b = board(vec![false; 4]);
    for (c, below) in [(0i64, 3), (1, 2), (2, 1), (3, 0)] {
        for n in 0..below {
            let sym = if (n + c) % 2 == 0 { 'O' } else { 'T' };
            drop_own(&mut b, c, if n == below - 1 { 'O' } else { sym });
        }
    }
    for c in [3, 2, 0] {
        b.perform_move(c, ann(), &false);
        assert!(!b.has_winner());
    }
    b.perform_move(1, ann(), &false);
    assert_eq!((b.last_row, b.last_col), (3, 1));
    assert_eq!(b._has_winner(), (true, "ann".to_string()));
}

#[test]
fn win_along_the_rising_diagonal() {
    // T at (5,0), (4,1), (3,2), (2,3)
    let mut b = board(vec![false; 4]);
    for (c, below) in [(0i64, 0), (1, 1), (2, 2), (3, 3)] {
        for _ in 0..below {
            drop_own(&mut b, c, 'O');
        }
    }
    for c in [0, 1, 3] {
        b.perform_move(c, ann(), &false);
        assert!(!b.has_winner());
    }
    b.perform_move(2, ann(), &false);
    assert_eq!((b.last_row, b.last_col), (3, 2));
    assert_eq!(b._has_winner(), (true, "ann".to_string()));
}

#[test]
fn three_in_a_row_is_no_win() {
    let mut b = board(vec![false; 4]);
    for c in [0, 1, 2] {
        b.perform_move(c, ann(), &false);
    }
    b.perform_move(3, bob(), &false);
    assert_eq!(b._has_winner(), (false, String::new()));
    assert_eq!(b.game_value(&false), 2);
}

#[test]
fn no_winner_before_the_first_move() {
    let b = board(vec![false, true, true, false]);
    assert_eq!(b._has_winner(), (false, String::new()));
    assert_eq!(b.game_value(&false), 2);
}

#[test]
fn full_board_without_a_line_is_a_draw() {
    // A full board on which no four equal symbols stand in a line.
    let mut b = board(vec![false; 4]);
    for c in 0..7i64 {
        for n in 0..6i64 {
            let r = 5 - n;
            let sym = if (r / 2 + c) % 2 == 0 { 'T' } else { 'O' };
            drop_own(&mut b, c, sym);
            assert!(!b.has_winner());
        }
    }
    for c in 0..7 {
        assert!(!b.allows_move(&c, &ann(), &false));
        assert!(!b.allows_move(&c, &bob(), &true));
        assert_ne!(b.cell(0, c), Cell::Empty);
    }
    assert!(b.is_draw());
    assert!(!b.has_winner());
    assert!(b.is_terminal());
    assert_eq!(b.game_value(&false), 0);
}

#[test]
fn completing_the_other_word_wins_for_the_other_player() {
    // The first player's word is TOOT, the second player's word is OTTO.
    let mut b = board(vec![false, true, true, false]);
    drop_as(&mut b, 0, "bob", 'O');
    drop_as(&mut b, 1, "ann", 'T');
    drop_as(&mut b, 2, "ann", 'T');
    assert!(!b.has_winner());
    drop_as(&mut b, 3, "ann", 'O');
    assert_eq!(b.last_player, "ann");
    assert!(b.has_winner());
    assert_eq!(b._has_winner(), (true, "bob".to_string()));
    assert_eq!(b.game_value(&false), -1);
}

#[test]
fn toot_wins_for_the_first_player() {
    let mut b = board(vec![false, true, true, false]);
    drop_as(&mut b, 1, "ann", 'T');
    drop_as(&mut b, 2, "bob", 'O');
    drop_as(&mut b, 3, "bob", 'O');
    assert!(!b.has_winner());
    drop_as(&mut b, 4, "ann", 'T');
    assert_eq!(b._has_winner(), (true, "ann".to_string()));
}

#[test]
fn toot_completed_by_the_second_player_wins_for_the_first() {
    let mut b = board(vec![false, true, true, false]);
    drop_as(&mut b, 1, "ann", 'T');
    drop_as(&mut b, 2, "bob", 'O');
    drop_as(&mut b, 4, "ann", 'T');
    drop_as(&mut b, 3, "bob", 'O');
    assert_eq!(b.last_player, "bob");
    assert_eq!(b._has_winner(), (true, "ann".to_string()));
    assert_eq!(b.game_value(&false), 1);
}

/// A position in which a T at row 3 of column 3 ends TOOT in that row and
/// OTTO along the falling diagonal through it.
fn both_words_open() -> Board {
    let mut b = board(vec![false, true, true, false]);
    for (c, symbols) in [
        (0, "OOT"),
        (1, "TTO"),
        (2, "TOOO"),
        (3, "OT"),
        (4, "OT"),
        (5, "O"),
    ] {
        for s in symbols.chars() {
            drop_own(&mut b, c, s);
        }
    }
    assert_eq!(b.cell(3, 0), Cell::T);
    assert_eq!(b.cell(3, 1), Cell::O);
    assert_eq!(b.cell(3, 2), Cell::O);
    assert_eq!(b.cell(2, 2), Cell::O);
    assert_eq!(b.cell(4, 4), Cell::T);
    assert_eq!(b.cell(5, 5), Cell::O);
    assert_eq!(b.cell(3, 3), Cell::Empty);
    b
}

#[test]
fn mover_wins_when_both_words_are_completed() {
    let mut b = both_words_open();
    drop_as(&mut b, 3, "ann", 'T');
    assert_eq!((b.last_row, b.last_col), (3, 3));
    assert_eq!(b._has_winner(), (true, "ann".to_string()));
    assert_eq!(b.game_value(&false), 1);
    let mut b = both_words_open();
    drop_as(&mut b, 3, "bob", 'T');
    assert_eq!((b.last_row, b.last_col), (3, 3));
    assert_eq!(b._has_winner(), (true, "bob".to_string()));
    assert_eq!(b.game_value(&false), -1);
    // An O in the same place ends neither word.
    let mut b = both_words_open();
    drop_as(&mut b, 3, "ann", 'O');
    assert_eq!(b._has_winner(), (false, String::new()));
}

#[test]
fn palindrome_is_found_along_both_diagonals() {
    // T O O T from (2,0) down to (5,3), ended at either end.
    for last in [0i64, 3] {
        let mut b = board(vec![false, true, true, false]);
        for (c, symbols) in [(0i64, "OOOT"), (1, "TTO"), (2, "OO"), (3, "T")] {
            let n = symbols.len();
            for (i, s) in symbols.chars().enumerate() {
                if c == last && i == n - 1 {
                    continue;
                }
                drop_own(&mut b, c, s);
            }
        }
        drop_as(&mut b, last, "bob", 'T');
        assert_eq!(b._has_winner(), (true, "ann".to_string()));
    }
    // T O O T from (2,6) down to (5,3).
    for last in [6i64, 3] {
        let mut b = board(vec![false, true, true, false]);
        for (c, symbols) in [(6i64, "OOOT"), (5, "TTO"), (4, "OO"), (3, "T")] {
            let n = symbols.len();
            for (i, s) in symbols.chars().enumerate() {
                if c == last && i == n - 1 {
                    continue;
                }
                drop_own(&mut b, c, s);
            }
        }
        drop_as(&mut b, last, "ann", 'T');
        assert_eq!(b._has_winner(), (true, "ann".to_string()));
    }
}

#[test]
fn palindrome_is_found_from_either_end() {
    // TOOT laid from left to right and from right to left.
    let mut b = board(vec![false, true, true, false]);
    for (c, s) in [(0, 'T'), (1, 'O'), (2, 'O')] {
        drop_own(&mut b, c, s);
    }
    drop_as(&mut b, 3, "ann", 'T');
    assert_eq!(b._has_winner(), (true, "ann".to_string()));
    let mut b = board(vec![false, true, true, false]);
    for (c, s) in [(6, 'T'), (5, 'O'), (4, 'O')] {
        drop_own(&mut b, c, s);
    }
    drop_as(&mut b, 3, "ann", 'T');
    assert_eq!(b._has_winner(), (true, "ann".to_string()));
    // And in a column, read from the top.
    let mut b = board(vec![false, true, true, false]);
    for s in ['T', 'O', 'O'] {
        drop_own(&mut b, 2, s);
    }
    drop_as(&mut b, 2, "ann", 'T');
    assert_eq!(b._has_winner(), (true, "ann".to_string()));
}

#[test]
fn one_way_pattern_is_found_in_its_direction_only() {
    // Pattern T T T O for the first player.
    let mode = vec![false, false, false, true];
    let mut b = board(mode.clone());
    for (c, s) in [(0, 'T'), (1, 'T'), (2, 'T')] {
        drop_own(&mut b, c, s);
    }
    drop_as(&mut b, 3, "ann", 'O');
    assert_eq!(b._has_winner(), (true, "ann".to_string()));
    // The same cells mirrored read O T T T from the left: no win.
    let mut b = board(mode.clone());
    for (c, s) in [(6, 'T'), (5, 'T'), (4, 'T')] {
        drop_own(&mut b, c, s);
    }
    drop_as(&mut b, 3, "ann", 'O');
    assert_eq!(b._has_winner(), (false, String::new()));
    // In a column the pattern is read from the top: T T T over an O wins,
    let mut b = board(mode.clone());
    drop_own(&mut b, 1, 'O');
    for _ in 0..2 {
        drop_own(&mut b, 1, 'T');
    }
    drop_as(&mut b, 1, "ann", 'T');
    assert_eq!(b._has_winner(), (true, "ann".to_string()));
    // an O over T T T does not.
    let mut b = board(mode);
    for _ in 0..3 {
        drop_own(&mut b, 1, 'T');
    }
    drop_as(&mut b, 1, "ann", 'O');
    assert_eq!(b._has_winner(), (false, String::new()));
}

#[test]
fn pattern_symbols() {
    let b = board(vec![false, true, true, false]);
    assert_eq!(b.pattern(&ann(), &false), Cell::T);
    assert_eq!(b.pattern(&ann(), &true), Cell::O);
    assert_eq!(b.pattern(&bob(), &false), Cell::O);
    assert_eq!(b.pattern(&bob(), &true), Cell::T);
    assert_eq!(b.pattern_enemy(&ann(), &false), Cell::O);
    assert_eq!(b.pattern_enemy(&ann(), &true), Cell::T);
    assert_eq!(b.pattern_enemy(&bob(), &false), Cell::T);
    assert_eq!(b.pattern_enemy(&bob(), &true), Cell::O);
}
