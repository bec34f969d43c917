//! Checks on what a player types to set a game up.

use vstd::prelude::*;
use vstd::string::*;

verus! {

/// Why a text is no winning pattern.
#[derive(Clone, Copy, Debug, PartialEq, Eq, Structural)]
pub enum ModeError {
    /// The text does not have exactly four characters.
    Length,
    /// A character is neither `T` nor `O`.
    Letters,
    /// The text does not read the same in both directions.
    Asymmetric,
}

/// The first fault of a pattern text, if it has one.
pub open spec fn mode_fault(text: Seq<char>) -> Option<ModeError> {
    if text.len() != 4 {
        Some(ModeError::Length)
    } else if exists|i: int| 0 <= i < 4 && text[i] != 'T' && text[i] != 'O' {
        Some(ModeError::Letters)
    } else if !(text[0] == text[3] && text[1] == text[2]) {
        Some(ModeError::Asymmetric)
    } else {
        None
    }
}

/// The pattern that a text of four letters spells: `T` stands for the
/// mover's own symbol (`false`), `O` for the other one (`true`).
pub open spec fn mode_bits(text: Seq<char>) -> Seq<bool> {
    Seq::new(4, |i: int| text[i] == 'O')
}

/// Reads a winning pattern such as `TOOT`: four letters, each `T` or `O`,
/// the same read from either end.
pub fn parse_mode(input: &str) -> (r: Result<Vec<bool>, ModeError>)
    ensures
        match r {
            Ok(bits) => mode_fault(input@).is_none() && bits@ == mode_bits(input@),
            Err(e) => mode_fault(input@) == Some(e),
        },
{
    if input.unicode_len() != 4 {
        return Err(ModeError::Length);
    }
    let mut bits: Vec<bool> = Vec::new();
    let mut i: usize = 0;
    while i < 4
        invariant
            input@.len() == 4,
            0 <= i <= 4,
            bits@.len() == i,
            forall|j: int| 0 <= j < i ==> (input@[j] == 'T' || input@[j] == 'O'),
            forall|j: int| 0 <= j < i ==> bits@[j] == (input@[j] == 'O'),
        decreases 4 - i,
    {
        let c = input.get_char(i);
        if c != 'T' && c != 'O' {
            return Err(ModeError::Letters);
        }
        bits.push(c == 'O');
        i = i + 1;
    }
    if !(bits[0] == bits[3] && bits[1] == bits[2]) {
        return Err(ModeError::Asymmetric);
    }
    Ok(bits)
}

/// Whether every character of `text` is `T` or `O`.
pub open spec fn only_letters(text: Seq<char>) -> bool {
    forall|i: int| 0 <= i < text.len() ==> text[i] == 'T' || text[i] == 'O'
}

/// Whether a difficulty, where one is asked for, lies between 1 and 5.
pub open spec fn level_allowed(difficulty: Option<i64>) -> bool {
    match difficulty {
        Some(d) => 1 <= d <= 5,
        None => true,
    }
}

/// Whether a game may be set up with these entries: a width and a height
/// of at least 1, a pattern of at least four letters, each `T` or `O`,
/// and, against the computer, a difficulty from 1 to 5.
pub fn setting_allowed(width: i64, height: i64, mode: &str, difficulty: Option<i64>) -> (ok: bool)
    ensures
        ok == (width >= 1 && height >= 1 && only_letters(mode@) && mode@.len() >= 4 && level_allowed(
            difficulty,
        )),
{
    let n = mode.unicode_len();
    let mut letters = true;
    let mut i: usize = 0;
    while i < n
        invariant
            n == mode@.len(),
            0 <= i <= n,
            letters == (forall|j: int| 0 <= j < i ==> mode@[j] == 'T' || mode@[j] == 'O'),
        decreases n - i,
    {
        let c = mode.get_char(i);
        if c != 'T' && c != 'O' {
            letters = false;
        }
        i = i + 1;
    }
    let level = match difficulty {
        Some(d) => 1 <= d && d <= 5,
        None => true,
    };
    width >= 1 && height >= 1 && letters && n >= 4 && level
}

/// Whether a player may take `name`: every name but `*` and `**`, which
/// stand for the computer and for a drawn game.
pub fn name_allowed(name: &str) -> (ok: bool)
    ensures
        ok == (name@ != "*"@ && name@ != "**"@),
{
    let given = name.to_owned();
    let star = "*".to_owned();
    let stars = "**".to_owned();
    !(given == star) && !(given == stars)
}

} // verus!
