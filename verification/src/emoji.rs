//! The palette of status emojis and how one is picked.

use rand::Rng;
use vstd::prelude::*;

verus! {

/// Music themed emojis
#[derive(Clone, Copy, Debug, PartialEq, Eq, Structural)]
pub enum Emoji {
    Notes,
    Headphones,
    ControlKnobs,
    MusicalScore,
    Violin,
    Saxophone,
    MusicalKeyboard,
}

/// Number of emojis in the palette.
pub const PALETTE_SIZE: i32 = 7;

impl Emoji {
    /// The emoji that stands at `index` in the palette. Every index past the
    /// last one names the last emoji, so the function is total.
    pub open spec fn at(index: int) -> Emoji {
        if index == 0 {
            Emoji::Notes
        } else if index == 1 {
            Emoji::Headphones
        } else if index == 2 {
            Emoji::ControlKnobs
        } else if index == 3 {
            Emoji::MusicalScore
        } else if index == 4 {
            Emoji::Violin
        } else if index == 5 {
            Emoji::Saxophone
        } else {
            Emoji::MusicalKeyboard
        }
    }

    /// The short code by which the chat service knows the emoji.
    pub open spec fn code(self) -> Seq<char> {
        match self {
            Emoji::Notes => ":notes:"@,
            Emoji::Headphones => ":headphones:"@,
            Emoji::MusicalKeyboard => ":musical_keyboard:"@,
            Emoji::ControlKnobs => ":control_knobs:"@,
            Emoji::MusicalScore => ":musical_score:"@,
            Emoji::Violin => ":violin:"@,
            Emoji::Saxophone => ":saxophone:"@,
        }
    }

    /// Picks the emoji for a number, which is how a random draw becomes an
    /// emoji. Pure, so a caller can feed it any source of numbers.
    pub fn from_index(index: i32) -> (emoji: Emoji)
        ensures
            emoji == Emoji::at(index as int),
    {
        match index {
            0 => Emoji::Notes,
            1 => Emoji::Headphones,
            2 => Emoji::ControlKnobs,
            3 => Emoji::MusicalScore,
            4 => Emoji::Violin,
            5 => Emoji::Saxophone,
            _ => Emoji::MusicalKeyboard,
        }
    }

    /// The short code as an owned string.
    pub fn to_string(&self) -> (code: String)
        ensures
            code@ == self.code(),
    {
        match self {
            Emoji::Notes => ":notes:".to_owned(),
            Emoji::Headphones => ":headphones:".to_owned(),
            Emoji::MusicalKeyboard => ":musical_keyboard:".to_owned(),
            Emoji::ControlKnobs => ":control_knobs:".to_owned(),
            Emoji::MusicalScore => ":musical_score:".to_owned(),
            Emoji::Violin => ":violin:".to_owned(),
            Emoji::Saxophone => ":saxophone:".to_owned(),
        }
    }

    /// Draws an emoji from the palette with the thread's random generator.
    /// Nothing is known of which one comes out, only that its index was
    /// drawn inside the palette.
    pub fn random() -> (emoji: Emoji)
        ensures
            exists|index: int| 0 <= index < PALETTE_SIZE && emoji == Emoji::at(index),
    {
        let index: i32 = random_in_range(0, PALETTE_SIZE);
        Emoji::from_index(index)
    }

    /// The emoji for one status update: the notes unless `randomize` is set,
    /// and then the one at an index drawn at random inside the palette.
    pub fn pick(randomize: bool) -> (emoji: Emoji)
        ensures
            !randomize ==> emoji == Emoji::Notes,
            randomize ==> exists|index: int|
                0 <= index < PALETTE_SIZE && emoji == Emoji::at(index),
    {
        if randomize {
            Emoji::random()
        } else {
            Emoji::Notes
        }
    }
}

/// Every emoji of the palette has exactly one index below the palette's size.
pub proof fn lemma_palette_covers_every_emoji(emoji: Emoji)
    ensures
        exists|index: int| 0 <= index < PALETTE_SIZE && Emoji::at(index) == emoji,
        forall|i: int, j: int|
            0 <= i < PALETTE_SIZE && 0 <= j < PALETTE_SIZE && Emoji::at(i) == Emoji::at(j) ==> i
                == j,
{
    let index: int = match emoji {
        Emoji::Notes => 0,
        Emoji::Headphones => 1,
        Emoji::ControlKnobs => 2,
        Emoji::MusicalScore => 3,
        Emoji::Violin => 4,
        Emoji::Saxophone => 5,
        Emoji::MusicalKeyboard => 6,
    };
    assert(Emoji::at(index) == emoji);
}

/// Calls `rand::Rng::gen_range` on `rand::thread_rng()`. The generator's
/// documentation promises a value in the half-open range from `low` to
/// `high`; which value is left open, so two calls may differ. The generator
/// panics when the range is empty, which the precondition rules out.
#[verifier::external_body]
fn random_in_range(low: i32, high: i32) -> (n: i32)
    requires
        low < high,
    ensures
        low <= n < high,
{
    rand::thread_rng().gen_range(low, high)
}

} // verus!
