//! Round-level resources: the pre-round countdown and the level ladder.

use vstd::prelude::*;
use crate::enemy::NUM_MOB_LEVELS;

verus! {

/// Whether the pre-round countdown still runs.  While it counts, player
/// input and the enemy attack cue are suppressed.
#[derive(Clone, Copy, Debug, Eq, PartialEq, Structural)]
pub enum Countdown {
    Disabled,
    Counting,
}

/// One second of the countdown has passed: the displayed number steps from
/// `number` down to the returned one, and once it steps past zero the
/// countdown is over and the round begins.
pub fn countdown_step(number: u8) -> (r: (Option<u8>, Countdown))
    ensures
        number == 0 ==> r.0 is None && r.1 is Disabled,
        number > 0 ==> r.0 == Some((number - 1) as u8) && r.1 is Counting,
{
    match number.checked_sub(1) {
        None => (None, Countdown::Disabled),
        Some(n) => (Some(n), Countdown::Counting),
    }
}

/// Which encounter the player faces: one of the numbered mob levels, then
/// the boss.
#[derive(Clone, Copy, Debug, Eq, PartialEq, Structural)]
pub enum Level {
    /// One-indexed mob level.
    Mob(u8),
    Boss,
}

impl Level {
    /// The level after this one: the mobs count up to the last, the boss
    /// follows them, and nothing follows the boss.
    pub fn next(&self) -> (r: Option<Level>)
        requires
            self matches Level::Mob(n) ==> n < u8::MAX,
        ensures
            r == match *self {
                Level::Mob(n) => if n == NUM_MOB_LEVELS {
                    Some(Level::Boss)
                } else {
                    Some(Level::Mob((n + 1) as u8))
                },
                Level::Boss => None::<Level>,
            },
    {
        match *self {
            Level::Mob(n) => if n == NUM_MOB_LEVELS {
                Some(Level::Boss)
            } else {
                Some(Level::Mob(n + 1))
            },
            Level::Boss => None,
        }
    }
}

} // verus!
