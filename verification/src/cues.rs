//! What the game says and shows: spoken lines, arenas and characters.
use vstd::prelude::*;
use crate::game::{Side, Winner};

verus! {

/// The line spoken when a paddle returns the ball, for a roll of `0..=3`
/// (any larger roll speaks the last line).
pub open spec fn whack_words(roll: int) -> Seq<char> {
    if roll == 0 {
        "take this"@
    } else if roll == 1 {
        "back at you"@
    } else if roll == 2 {
        "how's this"@
    } else {
        "it's over"@
    }
}

/// The line spoken when a paddle returns the ball, chosen by `roll`.
pub fn whack_line(roll: u32) -> (line: &'static str)
    ensures
        line@ == whack_words(roll as int),
{
    match roll {
        0 => "take this",
        1 => "back at you",
        2 => "how's this",
        _ => "it's over",
    }
}

/// The line spoken when a round is lost, by the way the ball was heading.
pub fn miss_line(side: Side) -> (line: &'static str)
    ensures
        line@ == match side {
            Side::Left => "dammit"@,
            Side::Right => "how dare you"@,
        },
{
    match side {
        Side::Left => "dammit",
        Side::Right => "how dare you",
    }
}

/// The line announcing the winner of a match.
pub fn victory_line(winner: Winner) -> (line: &'static str)
    ensures
        line@ == match winner {
            Winner::PlayerOne => "Player 1 Wins"@,
            Winner::PlayerTwo => "Player 2 Wins"@,
        },
{
    match winner {
        Winner::PlayerOne => "Player 1 Wins",
        Winner::PlayerTwo => "Player 2 Wins",
    }
}

/// The background of a plain match for a roll of `0..=2`: the dream
/// backdrop; any larger roll shows the order backdrop.
pub open spec fn backdrop_path(roll: int) -> Seq<char> {
    if roll <= 2 {
        "assets/backgrounds/dream.png"@
    } else {
        "assets/backgrounds/order.png"@
    }
}

/// The background of a plain match, chosen by `roll`.
pub fn backdrop(roll: u32) -> (path: &'static str)
    ensures
        path@ == backdrop_path(roll as int),
{
    match roll {
        0 => "assets/backgrounds/dream.png",
        1 => "assets/backgrounds/dream.png",
        2 => "assets/backgrounds/dream.png",
        _ => "assets/backgrounds/order.png",
    }
}

/// The stage a match is played on: its background and its music.
#[derive(Clone, Copy, Debug, PartialEq, Eq, Structural)]
pub enum Arena {
    Allies,
    Aura,
    Knife,
    Robobot,
    Yarn,
    Sad,
}

/// The arena for a roll of `0..=5`; any larger roll gives the last arena.
pub open spec fn arena_for(roll: int) -> Arena {
    if roll == 0 {
        Arena::Allies
    } else if roll == 1 {
        Arena::Aura
    } else if roll == 2 {
        Arena::Knife
    } else if roll == 3 {
        Arena::Robobot
    } else if roll == 4 {
        Arena::Yarn
    } else {
        Arena::Sad
    }
}

/// Colour as red, green and blue.
pub type Rgb = (u8, u8, u8);

impl Arena {
    /// The arena chosen by `roll`.
    pub fn from_roll(roll: u32) -> (a: Arena)
        ensures
            a == arena_for(roll as int),
    {
        match roll {
            0 => Arena::Allies,
            1 => Arena::Aura,
            2 => Arena::Knife,
            3 => Arena::Robobot,
            4 => Arena::Yarn,
            _ => Arena::Sad,
        }
    }

    pub open spec fn background_path(self) -> Seq<char> {
        match self {
            Arena::Allies => "assets/backgrounds/allies.jpeg"@,
            Arena::Aura => "assets/backgrounds/aura.png"@,
            Arena::Knife => "assets/backgrounds/knife.png"@,
            Arena::Robobot => "assets/backgrounds/robobot.jpg"@,
            Arena::Yarn => "assets/backgrounds/yarn.jpg"@,
            Arena::Sad => "assets/backgrounds/sad.jpg"@,
        }
    }

    pub open spec fn music_path(self) -> Seq<char> {
        match self {
            Arena::Allies => "assets/bgm/StarAllies-FF.mp3"@,
            Arena::Aura => "assets/bgm/Tak-PPPP.ogg"@,
            Arena::Knife => "assets/bgm/StarAllies-Holy.mp3"@,
            Arena::Robobot => "assets/bgm/Robobot-Ordeal.ogg"@,
            Arena::Yarn => "assets/bgm/EpicYarn-OuterRing.mp3"@,
            Arena::Sad => "assets/bgm/Mili-LilyTree.mp3"@,
        }
    }

    /// The image file of the arena's background.
    pub fn background(&self) -> (path: &'static str)
        ensures
            path@ == self.background_path(),
    {
        match self {
            Arena::Allies => "assets/backgrounds/allies.jpeg",
            Arena::Aura => "assets/backgrounds/aura.png",
            Arena::Knife => "assets/backgrounds/knife.png",
            Arena::Robobot => "assets/backgrounds/robobot.jpg",
            Arena::Yarn => "assets/backgrounds/yarn.jpg",
            Arena::Sad => "assets/backgrounds/sad.jpg",
        }
    }

    /// The sound file of the arena's music.
    pub fn music(&self) -> (path: &'static str)
        ensures
            path@ == self.music_path(),
    {
        match self {
            Arena::Allies => "assets/bgm/StarAllies-FF.mp3",
            Arena::Aura => "assets/bgm/Tak-PPPP.ogg",
            Arena::Knife => "assets/bgm/StarAllies-Holy.mp3",
            Arena::Robobot => "assets/bgm/Robobot-Ordeal.ogg",
            Arena::Yarn => "assets/bgm/EpicYarn-OuterRing.mp3",
            Arena::Sad => "assets/bgm/Mili-LilyTree.mp3",
        }
    }

    /// The colour the field is cleared and the paddles drawn with: black in every arena.
    pub fn draw_color(&self) -> (c: Rgb)
        ensures
            c == (0u8, 0u8, 0u8),
    {
        (0, 0, 0)
    }

    /// The colour of the scores and banner: black in every arena.
    pub fn font_color(&self) -> (c: Rgb)
        ensures
            c == (0u8, 0u8, 0u8),
    {
        (0, 0, 0)
    }
}

/// The playable characters, in the order of the select screen.
pub open spec fn character_names() -> Seq<Seq<char>> {
    seq!["bandana"@, "crash"@, "kirby"@, "parasol"@, "plasma"@]
}

/// The name of the character at `index` on the select screen.
pub fn character_name(index: usize) -> (name: &'static str)
    requires
        index < 5,
    ensures
        name@ == character_names()[index as int],
{
    match index {
        0 => "bandana",
        1 => "crash",
        2 => "kirby",
        3 => "parasol",
        _ => "plasma",
    }
}

} // verus!
