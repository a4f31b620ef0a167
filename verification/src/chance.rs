//! The game's random choices, drawn from the thread's random number generator.
use vstd::prelude::*;
use rand::rngs::ThreadRng;
use rand::Rng;
use crate::cues::{arena_for, backdrop, backdrop_path, whack_line, whack_words, Arena};

verus! {

#[verifier::external_type_specification]
#[verifier::external_body]
pub struct ExThreadRng(ThreadRng);

/// Draws a number from `0..=max` with `rand`'s `Rng::random_range` on the
/// thread-local generator. Claimed: the number is at most `max` (the range is
/// never empty, so the call does not panic). Which number comes out is left
/// open: it rests on chance.
#[verifier::external_body]
fn roll_up_to(rng: &mut ThreadRng, max: u32) -> (roll: u32)
    ensures
        roll <= max,
{
    rng.random_range(0..=max)
}

/// Picks the line spoken when a paddle returns the ball: one of the four
/// whack lines, at random.
pub fn whack_sound(rng: &mut ThreadRng) -> (line: &'static str)
    ensures
        exists|roll: int| 0 <= roll <= 3 && line@ == whack_words(roll),
{
    let roll = roll_up_to(rng, 3);
    whack_line(roll)
}

/// Picks the background of a plain match from a roll of `0..=2`.
pub fn pick_backdrop(rng: &mut ThreadRng) -> (path: &'static str)
    ensures
        exists|roll: int| 0 <= roll <= 2 && path@ == backdrop_path(roll),
        path@ == "assets/backgrounds/dream.png"@,
{
    let roll = roll_up_to(rng, 2);
    backdrop(roll)
}

/// Picks the arena of a match from a roll of `0..=5`.
pub fn setup_stage(rng: &mut ThreadRng) -> (arena: Arena)
    ensures
        exists|roll: int| 0 <= roll <= 5 && arena == arena_for(roll),
{
    let roll = roll_up_to(rng, 5);
    Arena::from_roll(roll)
}

} // verus!
