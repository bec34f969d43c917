//! The records that travel between the engine and its callers: users,
//! finished games, and the answers to requests.

use crate::board::Board;
use vstd::prelude::*;

verus! {

/// Whether a request went through, and if not, why.
#[derive(Clone, Debug)]
pub struct GeneralStatus {
    pub success: bool,
    pub msg: String,
}

impl GeneralStatus {
    /// The status of a request that went through: no message.
    pub fn success() -> (s: GeneralStatus)
        ensures
            s.success,
            s.msg@ == Seq::<char>::empty(),
    {
        GeneralStatus { success: true, msg: String::new() }
    }

    /// The status of a request that failed, with the reason.
    pub fn failure(msg: &str) -> (s: GeneralStatus)
        ensures
            !s.success,
            s.msg@ == msg@,
    {
        GeneralStatus { success: false, msg: msg.to_owned() }
    }
}

/// The salt under which every password is hashed.
pub open spec fn password_salt() -> Seq<char> {
    "randomsalt"@
}

/// The encoded Argon2 hash of password `pwd` under `salt` with the default
/// parameters of the crate `rust-argon2`, or `None` where the crate refuses
/// the input.
pub uninterp spec fn argon2_encoded(pwd: Seq<char>, salt: Seq<char>) -> Option<Seq<char>>;

/// Whether password `pwd` matches the encoded Argon2 hash `encoded`, or
/// `None` where `encoded` cannot be decoded.
pub uninterp spec fn argon2_verifies(encoded: Seq<char>, pwd: Seq<char>) -> Option<bool>;

/// The error type of the crate `rust-argon2`. Nothing is known of a value
/// of it.
#[verifier::external_type_specification]
#[verifier::external_body]
pub struct ExArgon2Error(argon2::Error);

/// Hashes `pwd` under `salt` with `hash_encoded` of the crate
/// `rust-argon2` and its default configuration. The hash is a function of
/// the password, the salt and those fixed parameters; the crate refuses a
/// salt or a password of a length it does not take.
#[verifier::external_body]
fn hash_password(pwd: &str, salt: &str) -> (r: Result<String, argon2::Error>)
    ensures
        match r {
            Ok(encoded) => argon2_encoded(pwd@, salt@) == Some(encoded@),
            Err(_) => argon2_encoded(pwd@, salt@).is_none(),
        },
{
    argon2::hash_encoded(pwd.as_bytes(), salt.as_bytes(), &argon2::Config::default())
}

/// Checks `pwd` against the encoded hash with `verify_encoded` of the crate
/// `rust-argon2`. The answer is a function of the two texts; the crate
/// refuses an encoded hash that it cannot decode.
#[verifier::external_body]
fn check_password(encoded: &str, pwd: &str) -> (r: Result<bool, argon2::Error>)
    ensures
        match r {
            Ok(same) => argon2_verifies(encoded@, pwd@) == Some(same),
            Err(_) => argon2_verifies(encoded@, pwd@).is_none(),
        },
{
    argon2::verify_encoded(encoded, pwd.as_bytes())
}

/// The local date and time as text, from `Local::now` of the crate
/// `chrono`, written by its `Display`. It depends on the clock and on the
/// time zone of the machine, so nothing is stated of it.
#[verifier::external_body]
fn local_time_text() -> String {
    chrono::Local::now().to_string()
}

/// A registered player.
#[derive(Clone, Debug)]
pub struct User {
    pub name: String,
    /// The encoded hash of the password, never the password itself.
    pub pwd: String,
    pub score: i64,
    /// The boards this user played last, by id.
    pub last_grids: Vec<String>,
}

impl User {
    /// The user that stands for nobody: empty name, empty hash, score 0.
    pub fn empty() -> (u: User)
        ensures
            u.name@ == Seq::<char>::empty(),
            u.pwd@ == Seq::<char>::empty(),
            u.score == 0,
            u.last_grids@.len() == 0,
    {
        User { name: String::new(), pwd: String::new(), score: 0, last_grids: Vec::new() }
    }

    /// A new user with score 0 who holds the encoded hash `pwd_hash`.
    pub fn with_hash(name: String, pwd_hash: String) -> (u: User)
        ensures
            u.name == name,
            u.pwd == pwd_hash,
            u.score == 0,
            u.last_grids@.len() == 0,
    {
        User { name, pwd: pwd_hash, score: 0, last_grids: Vec::new() }
    }

    /// A new user with score 0 who holds the hash of `pwd`, or `None` where
    /// the password cannot be hashed.
    pub fn new(name: String, pwd: String) -> (r: Option<User>)
        ensures
            match r {
                Some(u) => u.name@ == name@ && argon2_encoded(pwd@, password_salt()) == Some(u.pwd@)
                    && u.score == 0 && u.last_grids@.len() == 0,
                None => argon2_encoded(pwd@, password_salt()).is_none(),
            },
    {
        match hash_password(pwd.as_str(), "randomsalt") {
            Ok(encoded) => Some(User::with_hash(name, encoded)),
            Err(_) => None,
        }
    }

    /// Whether `pwd` is this user's password, or `None` where the stored
    /// hash cannot be decoded.
    pub fn verify_pwd(&self, pwd: &String) -> (r: Option<bool>)
        ensures
            r == argon2_verifies(self.pwd@, pwd@),
    {
        match check_password(self.pwd.as_str(), pwd.as_str()) {
            Ok(same) => Some(same),
            Err(_) => None,
        }
    }
}

/// The answer to a request about one user.
#[derive(Clone, Debug)]
pub struct GeneralUserResponse {
    pub status: GeneralStatus,
    pub user: User,
}

/// The answer to a password check.
#[derive(Clone, Debug)]
pub struct PwdVerifyResponse {
    pub status: GeneralStatus,
    pub exists: bool,
}

/// The answer to a request for all users.
#[derive(Clone, Debug)]
pub struct GetAllUserResonse {
    pub status: GeneralStatus,
    pub all_users: Vec<User>,
}

/// A finished game: the final board, when it ended and who won.
#[derive(Clone, Debug)]
pub struct HistBoard {
    pub board: Board,
    pub date: String,
    pub winner: String,
}

impl HistBoard {
    /// The record of a game that ended just now.
    pub fn new(board: Board, winner: String) -> (h: HistBoard)
        ensures
            h.board == board,
            h.winner == winner,
    {
        HistBoard { board, date: local_time_text(), winner }
    }

    /// The record of a game that ended at `date`.
    pub fn dated(board: Board, date: String, winner: String) -> (h: HistBoard)
        ensures
            h.board == board,
            h.date == date,
            h.winner == winner,
    {
        HistBoard { board, date, winner }
    }
}

/// A request to drop a piece into column `col` of the stored game that
/// `board_info` describes; column -1 gives the game up.
#[derive(Clone, Debug)]
pub struct PerformMoveRequest {
    pub board_info: Board,
    pub col: i64,
    pub reverse: bool,
}

/// The answer to a move: where the human's piece and the computer's piece
/// landed, with which symbols, and who has won, if anybody.
#[derive(Clone, Debug)]
pub struct PerformMoveResponse {
    pub status: GeneralStatus,
    /// Whether the last mover is the second player.
    pub player: bool,
    pub human_row: i64,
    pub human_col: i64,
    pub human_reverse: bool,
    pub cmput_row: i64,
    pub cmput_col: i64,
    pub cmput_reverse: bool,
    pub winner: String,
}

impl PerformMoveResponse {
    /// Puts an answer together. `status` is success or a failure with its
    /// reason; the moves are (row, column) pairs; `rev` tells for the human
    /// and for the computer whether the other symbol was placed; `player`
    /// is the last mover, compared with the second player of `board`.
    pub fn new(
        status: (bool, &str),
        human_move: (i64, i64),
        cmput_move: (i64, i64),
        rev: (bool, bool),
        winner: String,
        player: String,
        board: &Board,
    ) -> (r: PerformMoveResponse)
        ensures
            r.status.success == status.0,
            r.status.msg@ == (if status.0 {
                Seq::<char>::empty()
            } else {
                status.1@
            }),
            r.player == (player@ == board.player_2@),
            r.human_row == human_move.0,
            r.human_col == human_move.1,
            r.human_reverse == rev.0,
            r.cmput_row == cmput_move.0,
            r.cmput_col == cmput_move.1,
            r.cmput_reverse == rev.1,
            r.winner == winner,
    {
        let s = if status.0 {
            GeneralStatus::success()
        } else {
            GeneralStatus::failure(status.1)
        };
        PerformMoveResponse {
            status: s,
            player: player == board.player_2,
            human_row: human_move.0,
            human_col: human_move.1,
            human_reverse: rev.0,
            cmput_row: cmput_move.0,
            cmput_col: cmput_move.1,
            cmput_reverse: rev.1,
            winner,
        }
    }
}

/// The answer to a request about one board.
#[derive(Clone, Debug)]
pub struct GeneralBoardResponse {
    pub status: GeneralStatus,
    pub board: Board,
}

/// The answer to a request for all boards.
#[derive(Clone, Debug)]
pub struct GetAllBoardResponse {
    pub status: GeneralStatus,
    pub all_boards: Vec<Board>,
}

/// The answer to a request for a player's finished games.
#[derive(Clone, Debug)]
pub struct GetHistResponse {
    pub status: GeneralStatus,
    pub hist: Vec<HistBoard>,
}

} // verus!
