//! One turn of a stored game: the human's move, then the computer's answer
//! where the computer is the opponent, and what the caller has to store
//! afterwards. Reading and storing the game is the caller's part.

use crate::board::{Board, BoardView};
use crate::models::PerformMoveResponse;
use crate::moves::lemma_apply_wf;
use rand::seq::SliceRandom;
use vstd::prelude::*;
use vstd::string::*;

verus! {

/// The name under which the computer plays.
pub open spec fn computer_name() -> Seq<char> {
    "*"@
}

/// The winner recorded for a drawn game.
pub open spec fn draw_mark() -> Seq<char> {
    "^"@
}

/// What the caller has to do with the stored game after a turn.
#[derive(Clone, Copy, Debug, PartialEq, Eq, Structural)]
pub enum StoreAction {
    /// Leave the stored game as it is.
    Nothing,
    /// Replace the stored game by the board as it is now.
    Update,
    /// The game is won: delete the stored game, record it with the winner
    /// of the answer, credit the winner and debit the other player (ten
    /// times as much where the loser gave up).
    Won { gave_up: bool },
    /// The game is drawn: delete the stored game and record it with the
    /// draw mark as its winner.
    Drawn,
}

/// Picks one of `options` at random with `SliceRandom::choose` of the
/// crate `rand`, driven by the thread's generator. An empty list gives
/// `None`; otherwise the answer is one of the options, and which one is
/// not known.
#[verifier::external_body]
fn pick(options: &Vec<bool>) -> (r: Option<bool>)
    ensures
        r.is_some() == (options@.len() > 0),
        r.is_some() ==> options@.contains(r.unwrap()),
{
    options.choose(&mut rand::thread_rng()).copied()
}

/// Whether the player to move may drop the chosen symbol into `col`.
pub open spec fn may_move(v: BoardView, col: i64, reverse: bool) -> bool {
    v.allows_move(col as int, v.next_player(), reverse)
}

/// The board after the player to move has dropped the chosen symbol into
/// `col`.
pub open spec fn after_move(v: BoardView, col: i64, reverse: bool) -> BoardView {
    v.apply(col as int, v.next_player(), reverse)
}

/// What is known of a move that the search has chosen for the player to
/// move, who looks `v.difficulty` plies ahead. The other symbol is chosen
/// only where pieces are scarce. Where the look-ahead is positive and the
/// minimax value for the chosen symbol is not the score of a player
/// without a move, the column has that value: no other column is better.
/// Where pieces are scarce and neither symbol has that score, the chosen
/// symbol is the one with the lower value, or either one where both have
/// the same.
pub open spec fn well_chosen(v: BoardView, col: i64, reverse: bool) -> bool {
    let me = v.next_player();
    let toot = v.scarce();
    let plain = v.minimax(me, v.difficulty, false, toot);
    let paired = v.minimax(me, v.difficulty, true, toot);
    let value = v.minimax(me, v.difficulty, reverse, toot);
    &&& !toot ==> !reverse
    &&& v.difficulty > 0 && !v.is_terminal() && value < i64::MAX ==> v.move_value(
        col as int,
        me,
        v.difficulty,
        reverse,
        toot,
    ) == value
    &&& toot && plain < i64::MAX && paired < i64::MAX ==> (reverse ==> plain >= paired) && (!reverse
        ==> plain <= paired)
}

/// Whether the search is bound to come up with a move: the game goes on,
/// the look-ahead is positive, the player to move has a legal move with
/// each symbol that is in question, and no minimax value in question is
/// the score of a player without a move.
pub open spec fn move_is_owed(v: BoardView) -> bool {
    let me = v.next_player();
    let toot = v.scarce();
    &&& !v.is_terminal()
    &&& v.difficulty > 0
    &&& v.can_move(me, false)
    &&& v.minimax(me, v.difficulty, false, toot) < i64::MAX
    &&& toot ==> v.can_move(me, true) && v.minimax(me, v.difficulty, true, toot) < i64::MAX
}

/// Which of two search results is played where pieces are scarce: `plain`
/// is the score and column found for the own symbol, `paired` for the
/// other symbol. The lower score wins, and with it the symbol; equal
/// scores leave the choice to `coin`, which stands for the other symbol.
/// The answer is the column and whether the other symbol is placed.
pub fn choose_between(plain: (i64, i64), paired: (i64, i64), coin: bool) -> (r: (i64, bool))
    ensures
        r == (if plain.0 > paired.0 || (plain.0 == paired.0 && coin) {
            (paired.1, true)
        } else {
            (plain.1, false)
        }),
{
    if plain.0 > paired.0 || (plain.0 == paired.0 && coin) {
        (paired.1, true)
    } else {
        (plain.1, false)
    }
}

/// Chooses a move for the player to move by searching `difficulty` plies
/// ahead; where pieces are scarce it searches once for each symbol and
/// takes the symbol with the lower score, or one of the two at random
/// where the scores are equal. Gives `None` where the search comes up with
/// no legal move. The board is left as it was.
pub fn choose_move(board: &mut Board) -> (r: Option<(i64, bool)>)
    requires
        old(board).wf(),
        old(board).difficulty < i64::MAX,
    ensures
        final(board).wf(),
        final(board)@ == old(board)@,
        match r {
            Some((col, reverse)) => may_move(old(board)@, col, reverse) && well_chosen(
                old(board)@,
                col,
                reverse,
            ),
            None => !move_is_owed(old(board)@),
        },
{
    let me = board.get_next_player();
    let toot = board.p1_remain.len() == 2;
    let depth = board.difficulty;
    let (plain_score, plain_col) = board.alpha_beta(
        me.clone(),
        i64::MIN,
        i64::MAX,
        depth,
        &false,
        &toot,
    );
    let mut col = plain_col;
    let mut reverse = false;
    if toot {
        let paired = board.alpha_beta(me.clone(), i64::MIN, i64::MAX, depth, &true, &true);
        let mut both: Vec<bool> = Vec::new();
        both.push(false);
        both.push(true);
        let coin = if plain_score == paired.0 {
            match pick(&both) {
                Some(b) => b,
                None => false,
            }
        } else {
            false
        };
        let chosen = choose_between((plain_score, plain_col), paired, coin);
        col = chosen.0;
        reverse = chosen.1;
    }
    if board.allows_move(&col, &me, &reverse) {
        Some((col, reverse))
    } else {
        None
    }
}

/// Whether `resp` is the answer with the given parts.
pub open spec fn reply_is(
    resp: PerformMoveResponse,
    ok: bool,
    msg: Seq<char>,
    human: (int, int),
    human_reverse: bool,
    machine: (int, int),
    machine_reverse: bool,
    winner: Seq<char>,
    player: bool,
) -> bool {
    &&& resp.status.success == ok
    &&& resp.status.msg@ == msg
    &&& resp.human_row == human.0
    &&& resp.human_col == human.1
    &&& resp.human_reverse == human_reverse
    &&& resp.cmput_row == machine.0
    &&& resp.cmput_col == machine.1
    &&& resp.cmput_reverse == machine_reverse
    &&& resp.winner@ == winner
    &&& resp.player == player
}

/// The turn of a player who gives up: the last mover wins, the board stays.
pub open spec fn gave_up(
    v: BoardView,
    after: BoardView,
    r: (PerformMoveResponse, StoreAction),
) -> bool {
    &&& after == v
    &&& r.1 == (StoreAction::Won { gave_up: true })
    &&& reply_is(
        r.0,
        true,
        Seq::empty(),
        (-1, -1),
        false,
        (-1, -1),
        false,
        v.last_player,
        v.last_player == v.player_2,
    )
}

/// The turn of a player whose move is not legal: nothing changes.
pub open spec fn refused(
    v: BoardView,
    after: BoardView,
    r: (PerformMoveResponse, StoreAction),
) -> bool {
    &&& after == v
    &&& r.1 == StoreAction::Nothing
    &&& reply_is(
        r.0,
        false,
        "Invalid move."@,
        (-1, -1),
        false,
        (-1, -1),
        false,
        Seq::empty(),
        false,
    )
}

/// The end of a turn on board `g`, after the moves `human` and `machine`:
/// a win closes the game for the winner, a draw closes it with the draw
/// mark, and otherwise the game is stored and goes on.
pub open spec fn closes(
    g: BoardView,
    human: (int, int),
    human_reverse: bool,
    machine: (int, int),
    machine_reverse: bool,
    r: (PerformMoveResponse, StoreAction),
) -> bool {
    let player = g.last_player == g.player_2;
    if g.has_winner() {
        r.1 == (StoreAction::Won { gave_up: false }) && reply_is(
            r.0,
            true,
            Seq::empty(),
            human,
            human_reverse,
            machine,
            machine_reverse,
            g.winner(),
            player,
        )
    } else if g.is_draw() {
        r.1 == StoreAction::Drawn && reply_is(
            r.0,
            true,
            Seq::empty(),
            human,
            human_reverse,
            machine,
            machine_reverse,
            draw_mark(),
            player,
        )
    } else {
        r.1 == StoreAction::Update && reply_is(
            r.0,
            true,
            Seq::empty(),
            human,
            human_reverse,
            machine,
            machine_reverse,
            Seq::empty(),
            player,
        )
    }
}

/// The computer's part of a turn on board `h`, which the human's move has
/// left open: either the search has found no move, the board stays and
/// the answer says so, or the computer has made the legal move that the
/// answer names, and the turn ends on the board after it. A move is owed
/// wherever `move_is_owed` says so.
pub open spec fn machine_turn(
    h: BoardView,
    after: BoardView,
    human_reverse: bool,
    r: (PerformMoveResponse, StoreAction),
) -> bool {
    let human = (h.last_row, h.last_col);
    if r.0.status.success {
        &&& may_move(h, r.0.cmput_col, r.0.cmput_reverse)
        &&& well_chosen(h, r.0.cmput_col, r.0.cmput_reverse)
        &&& after == after_move(h, r.0.cmput_col, r.0.cmput_reverse)
        &&& closes(
            after,
            human,
            human_reverse,
            (after.last_row, after.last_col),
            r.0.cmput_reverse,
            r,
        )
    } else {
        &&& !move_is_owed(h)
        &&& after == h
        &&& r.1 == StoreAction::Nothing
        &&& reply_is(
            r.0,
            false,
            "The computer has no move."@,
            human,
            human_reverse,
            (-1, -1),
            false,
            Seq::empty(),
            h.last_player == h.player_2,
        )
    }
}

/// The turn of a player whose move into `col` is legal. The move is made.
/// Where it ends the game, the turn ends there. Where the other player is
/// human, the record of the last move is cleared to (-1, -1) and the game
/// is stored. Where it is the computer, the computer answers.
pub open spec fn moved(
    v: BoardView,
    after: BoardView,
    col: i64,
    reverse: bool,
    r: (PerformMoveResponse, StoreAction),
) -> bool {
    let h = after_move(v, col, reverse);
    let human = (h.last_row, h.last_col);
    if h.is_terminal() {
        after == h && closes(h, human, reverse, (-1, -1), false, r)
    } else if h.next_player() != computer_name() {
        let g = BoardView { last_row: -1, last_col: -1, ..h };
        after == g && r.1 == StoreAction::Update && reply_is(
            r.0,
            true,
            Seq::empty(),
            human,
            reverse,
            (-1, -1),
            false,
            Seq::empty(),
            h.last_player == h.player_2,
        )
    } else {
        machine_turn(h, after, reverse, r)
    }
}

/// The answer and the store action for the end of a turn.
fn close(
    board: &Board,
    human: (i64, i64),
    human_reverse: bool,
    machine: (i64, i64),
    machine_reverse: bool,
) -> (r: (PerformMoveResponse, StoreAction))
    requires
        board.wf(),
    ensures
        closes(
            board@,
            (human.0 as int, human.1 as int),
            human_reverse,
            (machine.0 as int, machine.1 as int),
            machine_reverse,
            r,
        ),
{
    let player = board.last_player.clone();
    let rev = (human_reverse, machine_reverse);
    let (won, winner) = board._has_winner();
    if won {
        let resp = PerformMoveResponse::new((true, ""), human, machine, rev, winner, player, board);
        (resp, StoreAction::Won { gave_up: false })
    } else if board.is_draw() {
        let resp = PerformMoveResponse::new(
            (true, ""),
            human,
            machine,
            rev,
            "^".to_owned(),
            player,
            board,
        );
        (resp, StoreAction::Drawn)
    } else {
        let resp = PerformMoveResponse::new(
            (true, ""),
            human,
            machine,
            rev,
            String::new(),
            player,
            board,
        );
        (resp, StoreAction::Update)
    }
}

/// Plays one turn on a stored game: the player to move drops the symbol
/// chosen by `reverse` into `col`, or gives up with column -1, and where
/// the game goes on and the other player is the computer, the computer
/// answers. Returns the answer for the player and what the caller has to
/// store.
pub fn resolve_move(board: &mut Board, col: i64, reverse: bool) -> (r: (
    PerformMoveResponse,
    StoreAction,
))
    requires
        old(board).wf(),
        old(board).difficulty < i64::MAX,
    ensures
        final(board).wf(),
        col == -1 ==> gave_up(old(board)@, final(board)@, r),
        col != -1 && !may_move(old(board)@, col, reverse) ==> refused(
            old(board)@,
            final(board)@,
            r,
        ),
        col != -1 && may_move(old(board)@, col, reverse) ==> moved(
            old(board)@,
            final(board)@,
            col,
            reverse,
            r,
        ),
{
    let nowhere: (i64, i64) = (-1, -1);
    if col == -1 {
        let winner = board.last_player.clone();
        let player = board.last_player.clone();
        let resp = PerformMoveResponse::new(
            (true, ""),
            nowhere,
            nowhere,
            (false, false),
            winner,
            player,
            board,
        );
        return (resp, StoreAction::Won { gave_up: true });
    }
    let me = board.get_next_player();
    if !board.allows_move(&col, &me, &reverse) {
        let none = Board::empty();
        proof {
            reveal_strlit(" ");
            assert(none.player_2@.len() == 1);
        }
        let resp = PerformMoveResponse::new(
            (false, "Invalid move."),
            nowhere,
            nowhere,
            (false, false),
            String::new(),
            String::new(),
            &none,
        );
        return (resp, StoreAction::Nothing);
    }
    board.perform_move(col, me, &reverse);
    let human = (board.last_row, board.last_col);
    if board.is_terminal() {
        return close(board, human, reverse, nowhere, false);
    }
    let next = board.get_next_player();
    let star = "*".to_owned();
    if next == star {
        let ghost h = board@;
        match choose_move(board) {
            Some((answer, answer_reverse)) => {
                proof {
                    lemma_apply_wf(h, answer as int, next@, answer_reverse);
                }
                board.perform_move(answer, next, &answer_reverse);
                let machine = (board.last_row, board.last_col);
                close(board, human, reverse, machine, answer_reverse)
            },
            None => {
                let player = board.last_player.clone();
                let resp = PerformMoveResponse::new(
                    (false, "The computer has no move."),
                    human,
                    nowhere,
                    (reverse, false),
                    String::new(),
                    player,
                    board,
                );
                (resp, StoreAction::Nothing)
            },
        }
    } else {
        board.last_row = -1;
        board.last_col = -1;
        let player = board.last_player.clone();
        let resp = PerformMoveResponse::new(
            (true, ""),
            human,
            nowhere,
            (reverse, false),
            String::new(),
            player,
            board,
        );
        (resp, StoreAction::Update)
    }
}

/// How a game at the table goes on after a move.
#[derive(Clone, Debug, PartialEq, Eq)]
pub enum GameStep {
    /// The move decided the game; the name is the player who made it.
    Won(String),
    /// Nobody can move.
    Drawn,
    /// The named player moves next.
    Next(String),
}

/// Whether `name` stands for a computer at the table: the empty name or
/// `*`.
pub fn is_computer(name: &String) -> (r: bool)
    ensures
        r == (name@ == Seq::<char>::empty() || name@ == computer_name()),
{
    let nobody = String::new();
    let star = "*".to_owned();
    *name == nobody || *name == star
}

/// What is known of column `col` that the search has chosen for `ox` with
/// the own symbol and unlimited pieces: where the look-ahead is positive,
/// the game goes on and the minimax value is not the score of a player
/// without a move, the column has that value.
pub open spec fn best_column(v: BoardView, ox: Seq<char>, col: i64) -> bool {
    v.difficulty > 0 && !v.is_terminal() && v.minimax(ox, v.difficulty, false, false) < i64::MAX
        ==> v.move_value(col as int, ox, v.difficulty, false, false) == v.minimax(
        ox,
        v.difficulty,
        false,
        false,
    )
}

/// The computer's move at the table: searches `difficulty` plies ahead for
/// `ox` with the own symbol and makes the move found. Gives the column, or
/// `None` with the board unchanged where the search comes up with no legal
/// move.
pub fn computer_turn(board: &mut Board, ox: &String) -> (r: Option<i64>)
    requires
        old(board).wf(),
        old(board).difficulty < i64::MAX,
    ensures
        final(board).wf(),
        match r {
            Some(col) => old(board)@.allows_move(col as int, ox@, false) && final(board)@ == old(
                board,
            )@.apply(col as int, ox@, false) && best_column(old(board)@, ox@, col),
            None => final(board)@ == old(board)@ && !(old(board)@.difficulty > 0 && !old(
                board,
            )@.is_terminal() && old(board)@.can_move(ox@, false) && old(board)@.minimax(
                ox@,
                old(board)@.difficulty,
                false,
                false,
            ) < i64::MAX),
        },
{
    let depth = board.difficulty;
    let (_, col) = board.alpha_beta(ox.clone(), i64::MIN, i64::MAX, depth, &false, &false);
    if board.allows_move(&col, ox, &false) {
        proof {
            lemma_apply_wf(board@, col as int, ox@, false);
        }
        board.perform_move(col, ox.clone(), &false);
        Some(col)
    } else {
        None
    }
}

/// How the game goes on after `ox` has moved: `ox` has won where the move
/// decided the game, the game is drawn where nobody can move, and else the
/// other player moves.
pub fn after_turn(board: &Board, ox: &String) -> (r: GameStep)
    requires
        board.wf(),
    ensures
        match r {
            GameStep::Won(name) => board@.has_winner() && name@ == ox@,
            GameStep::Drawn => !board@.has_winner() && board@.is_draw(),
            GameStep::Next(name) => !board@.is_terminal() && name@ == board@.opponent(ox@),
        },
{
    if board.has_winner() {
        GameStep::Won(ox.clone())
    } else if board.is_draw() {
        GameStep::Drawn
    } else {
        GameStep::Next(board.opponent(ox))
    }
}

/// What a finished game changes in the two scores: the winner gains the
/// difficulty, the loser loses it, ten times over where the loser gave up.
pub fn score_changes(difficulty: i64, gave_up: bool) -> (r: (i64, i64))
    requires
        -(i64::MAX / 10) <= difficulty <= i64::MAX / 10,
    ensures
        r.0 == difficulty,
        r.1 == (if gave_up {
            -10 * difficulty
        } else {
            -difficulty
        }),
{
    if gave_up {
        (difficulty, -difficulty * 10)
    } else {
        (difficulty, -difficulty)
    }
}

} // verus!
