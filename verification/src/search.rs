//! The search: depth-limited minimax with alpha-beta pruning. It tries
//! moves on the board itself and takes each one back, so the board leaves
//! the search as it entered it.

use crate::board::{Board, BoardView};
use crate::moves::{lemma_apply_then_undo, lemma_apply_wf};
use vstd::prelude::*;

verus! {

/// The smaller of two scores.
pub open spec fn lesser(a: int, b: int) -> int {
    if a <= b {
        a
    } else {
        b
    }
}

/// The greater of two scores.
pub open spec fn greater(a: int, b: int) -> int {
    if a >= b {
        a
    } else {
        b
    }
}

/// What a score found inside the window (`alpha`, `beta`) tells of the
/// true value: a score strictly inside the window is the value; a score at
/// or below `alpha` is an upper bound of it; a score at or above `beta` is
/// a lower bound of it.
pub open spec fn agrees(score: int, value: int, alpha: int, beta: int) -> bool {
    &&& score <= alpha ==> value <= score
    &&& score >= beta ==> value >= score
    &&& alpha < score < beta ==> value == score
}

/// Whether score `a` is at least as good as score `b` for a player: at
/// least as high for the maximizing player, at least as low for the
/// minimizing one.
pub open spec fn no_worse(maximizing: bool, a: int, b: int) -> bool {
    if maximizing {
        a >= b
    } else {
        a <= b
    }
}

/// The better of two scores for a player.
pub open spec fn better(maximizing: bool, a: int, b: int) -> int {
    if maximizing {
        greater(a, b)
    } else {
        lesser(a, b)
    }
}

/// Whether score `a` is strictly better than score `b` for a player.
pub open spec fn beats(maximizing: bool, a: int, b: int) -> bool {
    !no_worse(maximizing, b, a)
}

/// The bound of the window (`alpha`, `beta`) that a player pushes forward
/// with every better move: `alpha` for the maximizing player, `beta` for
/// the minimizing one.
pub open spec fn near(maximizing: bool, alpha: int, beta: int) -> int {
    if maximizing {
        alpha
    } else {
        beta
    }
}

/// The bound of the window (`alpha`, `beta`) at which a player's search
/// stops: `beta` for the maximizing player, `alpha` for the minimizing one.
pub open spec fn far(maximizing: bool, alpha: int, beta: int) -> int {
    if maximizing {
        beta
    } else {
        alpha
    }
}

impl BoardView {
    /// The score of a finished game with `ply` plies of look-ahead left:
    /// `1 + ply` where the first player has won, `-(1 + ply)` where anyone
    /// else has, 0 for a draw.
    pub open spec fn terminal_score(self, ply: int) -> int {
        if self.has_winner() {
            if self.winner() == self.player_1 {
                1 + ply
            } else {
                -(1 + ply)
            }
        } else {
            0
        }
    }

    /// The score a player starts from before any move is tried: the worst
    /// there is for that player.
    pub open spec fn worst(self, player: Seq<char>) -> int {
        if self.is_first(player) {
            -i64::MAX
        } else {
            i64::MAX as int
        }
    }

    /// The minimax value of the position for `player`, who is to move and
    /// places the symbol chosen by `reverse`, with `ply` plies of
    /// look-ahead. The first player maximizes, anyone else minimizes. A
    /// finished game has its terminal score, an exhausted look-ahead
    /// scores 0.
    pub open spec fn minimax(self, player: Seq<char>, ply: int, reverse: bool, toot: bool) -> int
        decreases ply, 2int, 0int,
    {
        if self.is_terminal() {
            self.terminal_score(ply)
        } else if ply <= 0 {
            0
        } else {
            self.best_below(player, ply, reverse, toot, self.width)
        }
    }

    /// The value of dropping into `col`: the minimax value of the position
    /// that follows, for the other player. With `toot` that player is
    /// valued twice, once for each symbol, and the outcome that is worse
    /// for the mover counts.
    pub open spec fn move_value(
        self,
        col: int,
        player: Seq<char>,
        ply: int,
        reverse: bool,
        toot: bool,
    ) -> int
        decreases ply, 0int, 0int,
    {
        if ply <= 0 {
            0
        } else {
            let next = self.apply(col, player, reverse);
            let other = self.opponent(player);
            let plain = next.minimax(other, ply - 1, false, toot);
            if toot {
                let paired = next.minimax(other, ply - 1, true, toot);
                better(!self.is_first(player), plain, paired)
            } else {
                plain
            }
        }
    }

    /// The best value among the legal columns below `bound`, or the worst
    /// score where there is none.
    pub open spec fn best_below(
        self,
        player: Seq<char>,
        ply: int,
        reverse: bool,
        toot: bool,
        bound: int,
    ) -> int
        decreases ply, 1int, bound,
    {
        if bound <= 0 {
            self.worst(player)
        } else {
            let rest = self.best_below(player, ply, reverse, toot, bound - 1);
            if self.allows_move(bound - 1, player, reverse) {
                let here = self.move_value(bound - 1, player, ply, reverse, toot);
                better(self.is_first(player), rest, here)
            } else {
                rest
            }
        }
    }

    /// The best value among the first `upto` of the listed moves, or the
    /// worst score where there is none.
    pub open spec fn best_of(
        self,
        moves: Seq<i64>,
        upto: int,
        player: Seq<char>,
        ply: int,
        reverse: bool,
        toot: bool,
    ) -> int
        decreases upto,
    {
        if upto <= 0 {
            self.worst(player)
        } else {
            better(
                self.is_first(player),
                self.best_of(moves, upto - 1, player, ply, reverse, toot),
                self.move_value(moves[upto - 1] as int, player, ply, reverse, toot),
            )
        }
    }

    /// The place in the list, from `from` on, of the first move whose value
    /// is `target`, or the length of the list where there is none.
    pub open spec fn first_of_value(
        self,
        moves: Seq<i64>,
        from: int,
        target: int,
        player: Seq<char>,
        ply: int,
        reverse: bool,
        toot: bool,
    ) -> int
        decreases moves.len() - from,
    {
        if from >= moves.len() {
            moves.len() as int
        } else if self.move_value(moves[from] as int, player, ply, reverse, toot) == target {
            from
        } else {
            self.first_of_value(moves, from + 1, target, player, ply, reverse, toot)
        }
    }
}

/// The best value among the legal columns below `bound` is no worse than
/// the worst score and no worse than the value of any of those columns.
pub proof fn lemma_best_below_covers(
    v: BoardView,
    player: Seq<char>,
    ply: int,
    reverse: bool,
    toot: bool,
    bound: int,
)
    ensures
        no_worse(
            v.is_first(player),
            v.best_below(player, ply, reverse, toot, bound),
            v.worst(player),
        ),
        forall|c: int|
            0 <= c < bound && #[trigger] v.allows_move(c, player, reverse) ==> no_worse(
                v.is_first(player),
                v.best_below(player, ply, reverse, toot, bound),
                v.move_value(c, player, ply, reverse, toot),
            ),
    decreases bound,
{
    if bound > 0 {
        lemma_best_below_covers(v, player, ply, reverse, toot, bound - 1);
    }
}

/// Any score that is no worse than the worst score and than the value of
/// every legal column below `bound` is no worse than the best value among
/// those columns.
pub proof fn lemma_best_below_least(
    v: BoardView,
    player: Seq<char>,
    ply: int,
    reverse: bool,
    toot: bool,
    bound: int,
    score: int,
)
    requires
        no_worse(v.is_first(player), score, v.worst(player)),
        forall|c: int|
            0 <= c < bound && #[trigger] v.allows_move(c, player, reverse) ==> no_worse(
                v.is_first(player),
                score,
                v.move_value(c, player, ply, reverse, toot),
            ),
    ensures
        no_worse(v.is_first(player), score, v.best_below(player, ply, reverse, toot, bound)),
    decreases bound,
{
    if bound > 0 {
        lemma_best_below_least(v, player, ply, reverse, toot, bound - 1, score);
    }
}

/// The best value among the first `upto` listed moves is no worse than the
/// worst score and no worse than the value of any of those moves.
pub proof fn lemma_best_of_covers(
    v: BoardView,
    moves: Seq<i64>,
    upto: int,
    player: Seq<char>,
    ply: int,
    reverse: bool,
    toot: bool,
)
    ensures
        no_worse(
            v.is_first(player),
            v.best_of(moves, upto, player, ply, reverse, toot),
            v.worst(player),
        ),
        forall|j: int|
            0 <= j < upto ==> no_worse(
                v.is_first(player),
                v.best_of(moves, upto, player, ply, reverse, toot),
                v.move_value(#[trigger] moves[j] as int, player, ply, reverse, toot),
            ),
    decreases upto,
{
    if upto > 0 {
        lemma_best_of_covers(v, moves, upto - 1, player, ply, reverse, toot);
    }
}

/// Any score that is no worse than the worst score and than the value of
/// each of the first `upto` listed moves is no worse than the best value
/// among them.
pub proof fn lemma_best_of_least(
    v: BoardView,
    moves: Seq<i64>,
    upto: int,
    player: Seq<char>,
    ply: int,
    reverse: bool,
    toot: bool,
    score: int,
)
    requires
        no_worse(v.is_first(player), score, v.worst(player)),
        forall|j: int|
            0 <= j < upto ==> no_worse(
                v.is_first(player),
                score,
                v.move_value(#[trigger] moves[j] as int, player, ply, reverse, toot),
            ),
    ensures
        no_worse(v.is_first(player), score, v.best_of(moves, upto, player, ply, reverse, toot)),
    decreases upto,
{
    if upto > 0 {
        lemma_best_of_least(v, moves, upto - 1, player, ply, reverse, toot, score);
    }
}

/// Where the move at place `at` has value `target` and no move from `from`
/// up to it has, `at` is the first place of that value.
pub proof fn lemma_first_of_value(
    v: BoardView,
    moves: Seq<i64>,
    from: int,
    target: int,
    at: int,
    player: Seq<char>,
    ply: int,
    reverse: bool,
    toot: bool,
)
    requires
        0 <= from <= at < moves.len(),
        v.move_value(moves[at] as int, player, ply, reverse, toot) == target,
        forall|j: int|
            from <= j < at ==> v.move_value(#[trigger] moves[j] as int, player, ply, reverse, toot)
                != target,
    ensures
        v.first_of_value(moves, from, target, player, ply, reverse, toot) == at,
    decreases at - from,
{
    if from < at {
        lemma_first_of_value(v, moves, from + 1, target, at, player, ply, reverse, toot);
    }
}

/// The order of the moves does not matter to the value: the best value of
/// a list that holds exactly the legal columns is the best value among the
/// legal columns.
pub proof fn lemma_order_free(
    v: BoardView,
    moves: Seq<i64>,
    player: Seq<char>,
    ply: int,
    reverse: bool,
    toot: bool,
)
    requires
        forall|c: i64|
            #![trigger moves.contains(c)]
            #![trigger v.allows_move(c as int, player, reverse)]
            moves.contains(c) <==> v.allows_move(c as int, player, reverse),
        v.width <= i64::MAX,
    ensures
        v.best_of(moves, moves.len() as int, player, ply, reverse, toot) == v.best_below(
            player,
            ply,
            reverse,
            toot,
            v.width,
        ),
{
    let n = moves.len() as int;
    let listed = v.best_of(moves, n, player, ply, reverse, toot);
    let legal = v.best_below(player, ply, reverse, toot, v.width);
    lemma_best_below_covers(v, player, ply, reverse, toot, v.width);
    lemma_best_of_covers(v, moves, n, player, ply, reverse, toot);
    assert forall|j: int| 0 <= j < n implies no_worse(
        v.is_first(player),
        legal,
        v.move_value(#[trigger] moves[j] as int, player, ply, reverse, toot),
    ) by {
        assert(moves.contains(moves[j]));
    }
    lemma_best_of_least(v, moves, n, player, ply, reverse, toot, legal);
    assert forall|c: int|
        0 <= c < v.width && #[trigger] v.allows_move(c, player, reverse) implies no_worse(
        v.is_first(player),
        listed,
        v.move_value(c, player, ply, reverse, toot),
    ) by {
        assert(moves.contains(c as i64));
    }
    lemma_best_below_least(v, player, ply, reverse, toot, v.width, listed);
}

/// What holds while `player` tries the listed moves inside the proper
/// window (`alpha`, `beta`), after the first `tried` of them, with the
/// window narrowed to (`lo`, `hi`), the best score `score` and the column
/// `mov` recorded for it at place `at` of the list.
///
/// The far bound has not moved and the score has not reached it. The score
/// is no worse than the value of any move tried. Either no move has
/// pushed the near bound yet, no column is recorded and the score has
/// stayed on the wrong side of the bound, or the near bound is the score,
/// and the recorded column is the first tried whose value is the score.
pub open spec fn searched(
    v: BoardView,
    moves: Seq<i64>,
    tried: int,
    player: Seq<char>,
    ply: int,
    reverse: bool,
    toot: bool,
    alpha: int,
    beta: int,
    lo: int,
    hi: int,
    score: int,
    mov: int,
    at: int,
) -> bool {
    let up = v.is_first(player);
    let start = near(up, alpha, beta);
    let floor = near(up, lo, hi);
    &&& far(up, lo, hi) == far(up, alpha, beta)
    &&& no_worse(up, floor, start)
    &&& no_worse(up, score, v.worst(player))
    &&& tried > 0 ==> beats(up, far(up, lo, hi), score)
    &&& {
        ||| floor == start && mov == -1 && (no_worse(up, start, score) || tried == 0)
        ||| {
            &&& floor == score
            &&& beats(up, floor, start)
            &&& 0 <= at < tried
            &&& moves[at] == mov
            &&& v.move_value(mov, player, ply, reverse, toot) == score
            &&& forall|j: int|
                0 <= j < at ==> beats(
                    up,
                    score,
                    v.move_value(#[trigger] moves[j] as int, player, ply, reverse, toot),
                )
        }
    }
    &&& forall|j: int|
        0 <= j < tried ==> no_worse(
            up,
            score,
            v.move_value(#[trigger] moves[j] as int, player, ply, reverse, toot),
        )
}

impl Board {
    /// Searches `ply` plies ahead for `player`, who is to move and places
    /// the symbol chosen by `reverse`, and returns a score and a column.
    ///
    /// A finished game returns its terminal score and column 0; an
    /// exhausted look-ahead returns (0, 0). Otherwise the legal columns are
    /// tried in a random order. The first player maximizes, anyone else
    /// minimizes; with `is_toot` each move is followed up once for each
    /// symbol of the other player, and the outcome worse for the mover
    /// counts. A score strictly inside a proper window (`alpha`, `beta`)
    /// is the minimax value and the column is a legal move of that value;
    /// a score outside the window bounds the value from that side. The
    /// board is the same after the call as before.
    pub fn alpha_beta(
        &mut self,
        player: String,
        alpha: i64,
        beta: i64,
        ply: i64,
        reverse: &bool,
        is_toot: &bool,
    ) -> (r: (i64, i64))
        requires
            old(self).wf(),
            ply < i64::MAX,
        ensures
            final(self).wf(),
            final(self)@ == old(self)@,
            i64::MIN < r.0,
            old(self)@.is_terminal() ==> r.0 == old(self)@.terminal_score(ply as int) && r.1 == 0,
            !old(self)@.is_terminal() && ply <= 0 ==> r.0 == 0 && r.1 == 0,
            !old(self)@.is_terminal() && ply > 0 ==> r.1 == -1 || old(self)@.allows_move(
                r.1 as int,
                player@,
                *reverse,
            ),
            alpha < beta ==> agrees(
                r.0 as int,
                old(self)@.minimax(player@, ply as int, *reverse, *is_toot),
                alpha as int,
                beta as int,
            ),
            alpha < r.0 < beta && !old(self)@.is_terminal() && ply > 0 && old(self)@.can_move(
                player@,
                *reverse,
            ) ==> old(self)@.allows_move(r.1 as int, player@, *reverse) && old(self)@.move_value(
                r.1 as int,
                player@,
                ply as int,
                *reverse,
                *is_toot,
            ) == r.0,
        decreases ply, 1int,
    {
        if self.is_terminal() {
            let game_value = self.game_value(reverse);
            if game_value < 0 {
                return (game_value - ply, 0);
            } else if game_value > 0 {
                return (game_value + ply, 0);
            }
            return (game_value, 0);
        }
        if ply <= 0 {
            return (0, 0);
        }
        let moves = self.available_moves(reverse, &player);
        proof {
            lemma_order_free(self@, moves@, player@, ply as int, *reverse, *is_toot);
            if self@.can_move(player@, *reverse) {
                let c = choose|c: int| self@.allows_move(c, player@, *reverse);
                assert(moves@.contains(c as i64));
            }
        }
        self.search_moves(player, alpha, beta, ply, reverse, is_toot, &moves)
    }

    /// Tries the listed moves for `player` in the order given, each
    /// followed up by a search of `ply - 1` plies for the other player,
    /// and returns the best score found and the column that gave it.
    ///
    /// The window narrows as better moves are found, and the search stops
    /// as soon as the score reaches the far bound. A score strictly inside
    /// a proper window (`alpha`, `beta`) is the best value among the listed
    /// moves, and the column is the first in the list that has this value;
    /// a score outside the window bounds that best value from that side.
    /// With no move listed the score is the worst for the player and the
    /// column is -1. The board is the same after the call as before.
    pub fn search_moves(
        &mut self,
        player: String,
        alpha: i64,
        beta: i64,
        ply: i64,
        reverse: &bool,
        is_toot: &bool,
        moves: &Vec<i64>,
    ) -> (r: (i64, i64))
        requires
            old(self).wf(),
            0 < ply < i64::MAX,
            forall|j: int|
                0 <= j < moves@.len() ==> old(self)@.allows_move(
                    #[trigger] moves@[j] as int,
                    player@,
                    *reverse,
                ),
        ensures
            final(self).wf(),
            final(self)@ == old(self)@,
            i64::MIN < r.0,
            r.1 == -1 || moves@.contains(r.1),
            moves@.len() == 0 ==> r.0 == old(self)@.worst(player@) && r.1 == -1,
            alpha < beta ==> agrees(
                r.0 as int,
                old(self)@.best_of(
                    moves@,
                    moves@.len() as int,
                    player@,
                    ply as int,
                    *reverse,
                    *is_toot,
                ),
                alpha as int,
                beta as int,
            ),
            alpha < r.0 < beta && moves@.len() > 0 ==> ({
                let k = old(self)@.first_of_value(
                    moves@,
                    0,
                    r.0 as int,
                    player@,
                    ply as int,
                    *reverse,
                    *is_toot,
                );
                0 <= k < moves@.len() && r.1 == moves@[k] && old(self)@.move_value(
                    r.1 as int,
                    player@,
                    ply as int,
                    *reverse,
                    *is_toot,
                ) == r.0
            }),
        decreases ply, 0int,
    {
        let ghost v0 = self@;
        let ghost n = moves@.len() as int;
        let ghost mut at: int = -1;
        let first = player == self.player_1;
        let next_player = self.opponent(&player);
        let saved_row = self.last_row;
        let saved_col = self.last_col;
        let saved_player = self.last_player.clone();
        let mut lo = alpha;
        let mut hi = beta;
        let mut score: i64 = if first {
            -i64::MAX
        } else {
            i64::MAX
        };
        let mut mov: i64 = -1;
        let mut i: usize = 0;
        while i < moves.len()
            invariant
                self.wf(),
                self@ == v0,
                v0 == old(self)@,
                n == moves@.len(),
                0 < ply < i64::MAX,
                first == v0.is_first(player@),
                next_player@ == v0.opponent(player@),
                saved_row == v0.last_row,
                saved_col == v0.last_col,
                saved_player@ == v0.last_player,
                forall|j: int|
                    0 <= j < moves@.len() ==> v0.allows_move(
                        #[trigger] moves@[j] as int,
                        player@,
                        *reverse,
                    ),
                0 <= i <= moves.len(),
                i64::MIN < score,
                i == 0 ==> score == v0.worst(player@) && mov == -1,
                mov == -1 || moves@.contains(mov),
                alpha < beta ==> lo < hi,
                alpha < beta ==> searched(
                    v0,
                    moves@,
                    i as int,
                    player@,
                    ply as int,
                    *reverse,
                    *is_toot,
                    alpha as int,
                    beta as int,
                    lo as int,
                    hi as int,
                    score as int,
                    mov as int,
                    at,
                ),
            decreases moves.len() - i,
        {
            let m = moves[i];
            proof {
                lemma_apply_wf(v0, m as int, player@, *reverse);
                lemma_apply_then_undo(v0, m as int, player@, *reverse);
                lemma_best_of_covers(v0, moves@, n, player@, ply as int, *reverse, *is_toot);
            }
            self.perform_move(m, player.clone(), reverse);
            let (plain, _) = self.alpha_beta(next_player.clone(), lo, hi, ply - 1, &false, is_toot);
            let mut m_score = plain;
            if *is_toot {
                let (paired, _) = self.alpha_beta(
                    next_player.clone(),
                    lo,
                    hi,
                    ply - 1,
                    &true,
                    is_toot,
                );
                if first {
                    if paired < m_score {
                        m_score = paired;
                    }
                } else {
                    if paired > m_score {
                        m_score = paired;
                    }
                }
            }
            self.undo_move(m);
            self.last_row = saved_row;
            self.last_col = saved_col;
            self.last_player = saved_player.clone();
            if first {
                if m_score > score {
                    score = m_score;
                }
                if hi <= score {
                    return (score, mov);
                }
                if score > lo {
                    lo = score;
                    mov = m;
                    proof {
                        at = i as int;
                    }
                }
            } else {
                if m_score < score {
                    score = m_score;
                }
                if lo >= score {
                    return (score, mov);
                }
                if score < hi {
                    hi = score;
                    mov = m;
                    proof {
                        at = i as int;
                    }
                }
            }
            i = i + 1;
        }
        proof {
            lemma_best_of_covers(v0, moves@, n, player@, ply as int, *reverse, *is_toot);
            if alpha < beta {
                lemma_best_of_least(
                    v0,
                    moves@,
                    n,
                    player@,
                    ply as int,
                    *reverse,
                    *is_toot,
                    score as int,
                );
                if alpha < score < beta && n > 0 {
                    lemma_first_of_value(
                        v0,
                        moves@,
                        0,
                        score as int,
                        at,
                        player@,
                        ply as int,
                        *reverse,
                        *is_toot,
                    );
                }
            }
        }
        (score, mov)
    }
}

/// Of two searches that end in the same won position, the one that has
/// more look-ahead left, because it got there sooner, scores the win
/// strictly higher for the first player and strictly lower for anyone
/// else; for look-aheads that are not negative the score is strictly
/// greater in magnitude.
pub proof fn law_sooner_win_scores_more(v: BoardView, less: int, more: int)
    requires
        v.has_winner(),
        less < more,
    ensures
        v.winner() == v.player_1 ==> v.terminal_score(less) < v.terminal_score(more),
        v.winner() != v.player_1 ==> v.terminal_score(less) > v.terminal_score(more),
        0 <= less ==> vstd::math::abs(v.terminal_score(less)) < vstd::math::abs(
            v.terminal_score(more),
        ),
{
}

} // verus!
