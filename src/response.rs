use vstd::prelude::*;

verus! {

/// How many games one request may ask for.
pub const GAMBLE_MAX: u32 = 10;

/// One skill game, as sent to the chat.
#[derive(Clone, Copy, Debug, PartialEq, Eq, Structural)]
pub enum Game {
    Dice,
    Darts,
    Basketball,
    Football,
    Bowling,
    SlotMachine,
    /// No game: the player is told they lost.
    Lose,
}

/// The game that a draw from `0..=6` stands for.
pub open spec fn game_of(draw: u32) -> Game {
    if draw == 0 {
        Game::Dice
    } else if draw == 1 {
        Game::Darts
    } else if draw == 2 {
        Game::Basketball
    } else if draw == 3 {
        Game::Football
    } else if draw == 4 {
        Game::Bowling
    } else if draw == 5 {
        Game::SlotMachine
    } else {
        Game::Lose
    }
}

pub open spec fn is_decimal_digit(c: char) -> bool {
    '0' <= c && c <= '9'
}

/// The number that a string of decimal digits stands for.
pub open spec fn digits_value(s: Seq<char>) -> nat
    decreases s.len(),
{
    if s.len() == 0 {
        0
    } else {
        digits_value(s.drop_last()) * 10 + ((s.last() as u32 - '0' as u32) as nat)
    }
}

/// An unsigned number as `str::parse` reads it: an optional `+`, then one
/// or more decimal digits, whose value fits in a `u32`.
pub open spec fn parsed_u32(s: Seq<char>) -> Option<u32> {
    let d = if s.len() > 0 && s[0] == '+' {
        s.drop_first()
    } else {
        s
    };
    if d.len() > 0 && (forall|i: int| 0 <= i < d.len() ==> is_decimal_digit(#[trigger] d[i]))
        && digits_value(d) <= u32::MAX {
        Some(digits_value(d) as u32)
    } else {
        None
    }
}

/// The number of games that a request asks for: the number it holds, at
/// most `GAMBLE_MAX`, or one game where it holds no number.
pub open spec fn games_asked(prompt: Seq<char>) -> u32 {
    match parsed_u32(prompt) {
        Some(n) => if n > GAMBLE_MAX {
            GAMBLE_MAX
        } else {
            n
        },
        None => 1,
    }
}

/// Relies on `str::parse::<u32>` (`u32::from_str`), which accepts an optional
/// `+` followed by decimal digits whose value fits, and refuses anything else.
#[verifier::external_body]
fn parse_u32(s: &str) -> (r: Option<u32>)
    ensures
        r == parsed_u32(s@),
{
    s.parse::<u32>().ok()
}

/// Whether the text is an absolute URL, as the `url` crate parses one.
pub uninterp spec fn parses_as_url(s: Seq<char>) -> bool;

/// Relies on `url::Url::parse`: whether it accepts the text depends on the
/// text alone.
#[verifier::external_body]
fn is_url(s: &str) -> (r: bool)
    ensures
        r == parses_as_url(s@),
{
    url::Url::parse(s).is_ok()
}

/// Relies on `rand::Rng::random_range` on the thread's generator `rand::rng()`:
/// a value of the inclusive range `0..=high`, which is never empty.
#[verifier::external_body]
fn draw_up_to(high: u32) -> (r: u32)
    ensures
        r <= high,
{
    rand::Rng::random_range(&mut rand::rng(), 0..=high)
}

/// What answers an image command: a photo where the result is an address,
/// else the text as it is (a usage note or an error).
#[derive(Debug, PartialEq, Eq)]
pub enum ImageAnswer {
    Photo(String),
    Text(String),
}

/// The number of games that a gamble request asks for.
pub fn games_requested(prompt: &str) -> (r: u32)
    ensures
        r == games_asked(prompt@),
        r <= GAMBLE_MAX,
{
    match parse_u32(prompt) {
        Some(n) => if n > GAMBLE_MAX {
            GAMBLE_MAX
        } else {
            n
        },
        None => 1,
    }
}

/// The game that a draw stands for.
pub fn game_for(draw: u32) -> (r: Game)
    ensures
        r == game_of(draw),
{
    if draw == 0 {
        Game::Dice
    } else if draw == 1 {
        Game::Darts
    } else if draw == 2 {
        Game::Basketball
    } else if draw == 3 {
        Game::Football
    } else if draw == 4 {
        Game::Bowling
    } else if draw == 5 {
        Game::SlotMachine
    } else {
        Game::Lose
    }
}

/// The games for a gamble request: as many as it asks for, each the game of
/// a random draw from `0..=6`.
pub fn gamble(prompt: &str) -> (r: Vec<Game>)
    ensures
        r@.len() == games_asked(prompt@),
{
    let count = games_requested(prompt);
    let mut games: Vec<Game> = Vec::new();
    let mut k: u32 = 0;
    while k < count
        invariant
            k <= count,
            games@.len() == k,
        decreases count - k,
    {
        let draw = draw_up_to(6);
        games.push(game_for(draw));
        k = k + 1;
    }
    games
}

/// The answer to an image command, given whether the result is an address.
pub fn image_answer_from(result: String, is_address: bool) -> (r: ImageAnswer)
    ensures
        is_address ==> r == ImageAnswer::Photo(result),
        !is_address ==> r == ImageAnswer::Text(result),
{
    if is_address {
        ImageAnswer::Photo(result)
    } else {
        ImageAnswer::Text(result)
    }
}

/// The answer to an image command, from what the generation gave.
pub fn image_answer(result: String) -> (r: ImageAnswer)
    ensures
        parses_as_url(result@) ==> r == ImageAnswer::Photo(result),
        !parses_as_url(result@) ==> r == ImageAnswer::Text(result),
{
    let is_address = is_url(result.as_str());
    image_answer_from(result, is_address)
}

} // verus!
