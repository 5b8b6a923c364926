//! Shared components: the actors of a fight and their bookkeeping.

use vstd::prelude::*;
use crate::types::{DamageType, Hp};

verus! {

/// The action a spinner zone stands for.
#[derive(Clone, Copy, Debug, Eq, PartialEq, Structural)]
pub enum Action {
    AttackArrow,
    AttackMagic,
    AttackSword,
    Defend,
}

/// Marker for the enemy combatant.
pub struct Enemy;

/// Marker for the player combatant.
pub struct Player;

/// Who a combatant is drawn and armed as.
#[derive(Clone, Copy, Debug, Eq, PartialEq, Structural)]
pub enum Character {
    Archer,
    Knight,
    Mage,
    Boss,
    Player,
}

/// The damage kind a combatant attacks with.
pub struct AttackType {
    pub damage_type: DamageType,
}

/// What applying damage did to a health pool.
#[derive(Clone, Copy, Debug, Eq, PartialEq, Structural)]
pub enum DamageOutcome {
    /// The target is not vulnerable to this kind of damage.
    Blocked,
    /// The damage went through; `died` says whether it emptied the pool.
    Applied { died: bool },
}

/// A combatant's health pool and its vulnerabilities.
#[derive(Clone)]
pub struct Health {
    pub current: Hp,
    pub max: Hp,
    pub vulnerable_to: Vec<DamageType>,
}

impl Health {
    /// A full pool vulnerable to the given damage kinds.
    pub fn new(max: Hp, vulnerable_to: Vec<DamageType>) -> (h: Health)
        ensures
            h.current == max,
            h.max == max,
            h.vulnerable_to@ == vulnerable_to@,
    {
        Health { current: max, max, vulnerable_to }
    }

    /// Does this pool take damage of kind `kind`?
    pub fn is_vulnerable_to(&self, kind: DamageType) -> (r: bool)
        ensures
            r == self.vulnerable_to@.contains(kind),
    {
        let n = self.vulnerable_to.len();
        let mut i: usize = 0;
        while i < n
            invariant
                i <= n,
                n == self.vulnerable_to@.len(),
                forall|j: int| 0 <= j < i ==> self.vulnerable_to@[j] != kind,
            decreases n - i,
        {
            if self.vulnerable_to[i] == kind {
                return true;
            }
            i = i + 1;
        }
        false
    }

    /// Apply a damage attempt of `hp` points and kind `kind`.  A vulnerable
    /// pool loses `hp` points, saturating at zero; an invulnerable pool
    /// blocks the attempt unchanged.  The outcome reports a death whenever
    /// the pool stands empty after an applied hit.
    pub fn apply_damage(&mut self, kind: DamageType, hp: Hp) -> (r: DamageOutcome)
        ensures
            final(self).max == old(self).max,
            final(self).vulnerable_to@ == old(self).vulnerable_to@,
            old(self).vulnerable_to@.contains(kind) ==> {
                &&& final(self).current == if old(self).current >= hp {
                    old(self).current - hp
                } else {
                    0
                }
                &&& r == (DamageOutcome::Applied { died: final(self).current == 0 })
            },
            !old(self).vulnerable_to@.contains(kind) ==> {
                &&& final(self).current == old(self).current
                &&& r == DamageOutcome::Blocked
            },
    {
        if self.is_vulnerable_to(kind) {
            self.current = if self.current >= hp {
                self.current - hp
            } else {
                0
            };
            DamageOutcome::Applied { died: self.current == 0 }
        } else {
            DamageOutcome::Blocked
        }
    }
}

/// Despawn an effect once `after_ms` has passed.
pub struct DespawnAfter {
    pub after_ms: u64,
}

impl DespawnAfter {
    /// Has the effect outlived its time?
    pub fn is_due(&self, now_ms: u64) -> (r: bool)
        ensures
            r == (now_ms > self.after_ms),
    {
        now_ms > self.after_ms
    }
}

/// Frame bookkeeping for a sprite-sheet animation.
#[derive(Debug)]
pub struct AnimateSpriteSheet {
    pub frame_duration_ms: u64,
    pub next_frame_time_ms: u64,
    pub max_index: u32,
}

impl AnimateSpriteSheet {
    /// An animation whose next frame is so far away it never advances.
    pub fn never() -> (r: AnimateSpriteSheet)
        ensures
            r.frame_duration_ms == u32::MAX as u64 * 1000,
            r.next_frame_time_ms == u32::MAX as u64 * 1000,
            r.max_index == 0,
    {
        AnimateSpriteSheet {
            frame_duration_ms: u32::MAX as u64 * 1000,
            next_frame_time_ms: u32::MAX as u64 * 1000,
            max_index: 0,
        }
    }

    /// Is the next frame due at `now_ms`?
    pub fn frame_due(&self, now_ms: u64) -> (r: bool)
        ensures
            r == (now_ms >= self.next_frame_time_ms),
    {
        now_ms >= self.next_frame_time_ms
    }

    /// The sprite index to show after `index`: one further into the sheet,
    /// stopping on the last frame.
    pub fn next_index(&self, index: u32) -> (r: u32)
        requires
            index < u32::MAX,
        ensures
            r == if index + 1 <= self.max_index {
                index + 1
            } else {
                self.max_index as int
            },
    {
        let next = index + 1;
        if next <= self.max_index {
            next
        } else {
            self.max_index
        }
    }
}

} // verus!
