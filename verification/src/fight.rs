//! Resolving the enemy's strike against the player's defence.
//!
//! Between two enemy strikes the player may defend; the tracker remembers
//! that across ticks.  When the strike cue fires, a remembered defence
//! blocks the strike, anything else lets it through; either way the
//! defence is spent.

use vstd::prelude::*;
use crate::types::DamageType;

verus! {

/// What the enemy's strike came to.
#[derive(Clone, Copy, Debug, Eq, PartialEq, Structural)]
pub enum StrikeOutcome {
    /// The player was defending: no damage.
    Blocked,
    /// The strike lands, carrying the enemy's damage kind.
    Hit(DamageType),
}

/// Remembers whether the player defended since the last enemy strike.
pub struct DefendTracker {
    pub defending: bool,
}

impl DefendTracker {
    /// A fresh fight: no defence recorded.
    pub fn new() -> (t: DefendTracker)
        ensures
            !t.defending,
    {
        DefendTracker { defending: false }
    }

    /// Fold this tick's defend action, if any, into the memory.
    pub fn record(&mut self, defend_action: bool)
        ensures
            final(self).defending == (old(self).defending || defend_action),
    {
        self.defending = self.defending || defend_action;
    }

    /// The enemy strikes with `kind`: blocked exactly when a defence was
    /// recorded, and the defence is spent either way.
    pub fn enemy_strike(&mut self, kind: DamageType) -> (r: StrikeOutcome)
        ensures
            !final(self).defending,
            r == if old(self).defending {
                StrikeOutcome::Blocked
            } else {
                StrikeOutcome::Hit(kind)
            },
    {
        let defended = self.defending;
        self.defending = false;
        if defended {
            StrikeOutcome::Blocked
        } else {
            StrikeOutcome::Hit(kind)
        }
    }
}

} // verus!
