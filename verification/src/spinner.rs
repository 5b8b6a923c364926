//! The action spinner: a pointer sweeping over four action zones.
//!
//! Each tick the pointer advances (or follows the music's bar position) and
//! the sweep is tested against two fixed targets: crossing the defend angle
//! begins a new turn and unlocks the player's action; crossing the enemy
//! attack angle cues the enemy's strike, unless a pre-round countdown is
//! still running.  A button press reads the pointer and resolves into an
//! attack, a defend, or a miss, subject to the per-turn lock.

use vstd::prelude::*;
use crate::angle::{
    FULL_TURN,
    advance,
    crossed,
    crossed_spec,
    in_range,
    in_range_spec,
    norm_spec,
    wf_angle,
};
use crate::components::Action;
use crate::types::DamageType;

verus! {

/// Where the sweep crosses to begin a new turn, in tenths of a degree.
pub const DEFEND_ANGLE: u32 = 1800;

/// Where the sweep crosses to cue the enemy's attack.
pub const ENEMY_ATTACK_ANGLE: u32 = 1600;

/// Half-width of a zone's highlight window.
pub const ANGLE_FUDGE: u32 = 200;

/// Has the player already committed an action this turn?
#[derive(Clone, Copy, Debug, Eq, PartialEq, Structural)]
pub enum LockState {
    Unlocked,
    Locked,
}

/// What one button press resolved to.
#[derive(Clone, Copy, Debug, Eq, PartialEq, Structural)]
pub enum ActionOutcome {
    /// The pointer sat in an attack zone; the attack carries this kind.
    Attack(DamageType),
    /// The pointer sat in the defend window.
    Defend,
    /// The pointer sat in no zone at all.
    Miss,
}

/// The fixed angle a zone's icon sits at.
pub open spec fn zone_angle_spec(action: Action) -> int {
    match action {
        Action::AttackSword => 0,
        Action::AttackMagic => 900,
        Action::Defend => 1800,
        Action::AttackArrow => 2700,
    }
}

/// The fixed angle a zone's icon sits at, in tenths of a degree.
pub fn zone_angle(action: Action) -> (r: u32)
    ensures
        r == zone_angle_spec(action),
        wf_angle(r),
{
    match action {
        Action::AttackSword => 0,
        Action::AttackMagic => 900,
        Action::Defend => DEFEND_ANGLE,
        Action::AttackArrow => 2700,
    }
}

/// The defend window: a press here defends, whatever the lock says.
pub open spec fn in_defend_window(angle: int) -> bool {
    1600 <= angle <= 2000
}

/// The attack zone containing `angle`, if any.  The sword zone straddles
/// zero; the three zones are mutually exclusive and none of them meets the
/// defend window.
pub open spec fn attack_kind_at(angle: int) -> Option<DamageType> {
    if 0 <= angle <= 200 || 3400 <= angle < 3600 {
        Some(DamageType::Sword)
    } else if 700 <= angle <= 1100 {
        Some(DamageType::Magic)
    } else if 2500 <= angle <= 2900 {
        Some(DamageType::Arrow)
    } else {
        None
    }
}

/// What a button press at `angle` resolves to, and the lock it leaves
/// behind.  A dead player cannot act.  Defending is always available and
/// never consumes the lock.  Otherwise a locked turn swallows the press,
/// and an unlocked press commits: an attack where the pointer sits in an
/// attack zone, a miss elsewhere, locking the turn either way.
pub open spec fn resolve_spec(angle: int, lock: LockState, player_alive: bool) -> (Option<
    ActionOutcome,
>, LockState) {
    if !player_alive {
        (None, lock)
    } else if in_defend_window(angle) {
        (Some(ActionOutcome::Defend), lock)
    } else if lock is Locked {
        (None, lock)
    } else {
        match attack_kind_at(angle) {
            Some(kind) => (Some(ActionOutcome::Attack(kind)), LockState::Locked),
            None => (Some(ActionOutcome::Miss), LockState::Locked),
        }
    }
}

/// Resolve one button press.  Returns the outcome to emit, if any, and the
/// lock state the turn is left in.
pub fn resolve_action(angle: u32, lock: LockState, player_alive: bool) -> (r: (Option<
    ActionOutcome,
>, LockState))
    requires
        wf_angle(angle),
    ensures
        r == resolve_spec(angle as int, lock, player_alive),
        !player_alive ==> r.0 is None && r.1 == lock,
        player_alive && in_defend_window(angle as int) ==> r.0 == Some(ActionOutcome::Defend)
            && r.1 == lock,
{
    if !player_alive {
        (None, lock)
    } else if angle >= 1600 && angle <= 2000 {
        (Some(ActionOutcome::Defend), lock)
    } else if matches!(lock, LockState::Locked) {
        (None, lock)
    } else if angle <= 200 || angle >= 3400 {
        (Some(ActionOutcome::Attack(DamageType::Sword)), LockState::Locked)
    } else if angle >= 700 && angle <= 1100 {
        (Some(ActionOutcome::Attack(DamageType::Magic)), LockState::Locked)
    } else if angle >= 2500 && angle <= 2900 {
        (Some(ActionOutcome::Attack(DamageType::Arrow)), LockState::Locked)
    } else {
        (Some(ActionOutcome::Miss), LockState::Locked)
    }
}

/// Highlighting and resolution share one set of targets and one tolerance:
/// wherever a zone's icon lights up, a press resolves to that zone's
/// action.  (The resolution windows are the closed hulls of the open
/// highlight windows, so a press exactly on a window's rim still resolves
/// although the icon no longer lights.)
pub proof fn lemma_highlight_matches_resolution(angle: int, action: Action)
    requires
        0 <= angle < FULL_TURN,
        in_range_spec(angle, zone_angle_spec(action), ANGLE_FUDGE as int),
    ensures
        match action {
            Action::AttackSword => attack_kind_at(angle) == Some(DamageType::Sword),
            Action::AttackMagic => attack_kind_at(angle) == Some(DamageType::Magic),
            Action::AttackArrow => attack_kind_at(angle) == Some(DamageType::Arrow),
            Action::Defend => in_defend_window(angle),
        },
{
}

/// The edge events one tick of the sweep produced.
#[derive(Clone, Copy, Debug, Eq, PartialEq, Structural)]
pub struct TickOutcome {
    /// The sweep crossed the defend angle: a new turn begins.
    pub turn_reset: bool,
    /// The sweep crossed the enemy attack angle while no countdown ran:
    /// the enemy strikes now.
    pub enemy_attack_cue: bool,
}

/// The angle the pointer shows for a bar position `p` in `[0, 3600)`:
/// the pointer starts a bar at the defend angle and sweeps backward, one
/// full revolution per bar.
pub open spec fn phase_angle(p: int) -> int {
    norm_spec(1800 - p)
}

/// The (backward) step that carries `old_angle` onto the bar angle for `p`.
pub open spec fn phase_delta(old_angle: int, p: int) -> int {
    -norm_spec(old_angle - phase_angle(p))
}

/// The pointer and the turn lock of one round.
pub struct Spinner {
    /// Pointer angle in tenths of a degree.
    pub angle: u32,
    /// Whether the player has already committed an action this turn.
    pub lock: LockState,
}

impl Spinner {
    /// The stored angle lies in the canonical range.
    pub open spec fn wf(&self) -> bool {
        wf_angle(self.angle)
    }

    /// A fresh round: pointer at zero, action available.
    pub fn new() -> (s: Spinner)
        ensures
            s.wf(),
            s.angle == 0,
            s.lock is Unlocked,
    {
        Spinner { angle: 0, lock: LockState::Unlocked }
    }

    /// Advance the pointer by the signed step `delta` and report the edge
    /// events of the swept arc.  The defend crossing unlocks the turn
    /// unconditionally; the enemy attack cue is suppressed while the
    /// pre-round countdown runs.
    pub fn tick_step(&mut self, delta: i32, countdown_active: bool) -> (out: TickOutcome)
        requires
            old(self).wf(),
            -(FULL_TURN as int) < delta < FULL_TURN as int,
        ensures
            final(self).wf(),
            final(self).angle == norm_spec(old(self).angle + delta),
            out.turn_reset == crossed_spec(old(self).angle as int, delta as int, DEFEND_ANGLE as int),
            out.enemy_attack_cue == (!countdown_active && crossed_spec(
                old(self).angle as int,
                delta as int,
                ENEMY_ATTACK_ANGLE as int,
            )),
            final(self).lock == if out.turn_reset {
                LockState::Unlocked
            } else {
                old(self).lock
            },
    {
        let turn_reset = crossed(self.angle, delta, DEFEND_ANGLE);
        let enemy_attack_cue = !countdown_active && crossed(self.angle, delta, ENEMY_ATTACK_ANGLE);
        self.angle = advance(self.angle, delta);
        if turn_reset {
            self.lock = LockState::Unlocked;
        }
        TickOutcome { turn_reset, enemy_attack_cue }
    }

    /// Follow the music: move the pointer backward onto the angle for bar
    /// position `bar_pos`, or hold it if no sample arrived this tick, and
    /// report the edge events of the swept arc.
    pub fn tick_phase(&mut self, bar_pos: Option<u32>, countdown_active: bool) -> (out: TickOutcome)
        requires
            old(self).wf(),
            bar_pos matches Some(p) ==> p < FULL_TURN,
        ensures
            final(self).wf(),
            final(self).angle == match bar_pos {
                Some(p) => phase_angle(p as int),
                None => old(self).angle as int,
            },
            ({
                let delta = match bar_pos {
                    Some(p) => phase_delta(old(self).angle as int, p as int),
                    None => 0int,
                };
                &&& out.turn_reset == crossed_spec(old(self).angle as int, delta, DEFEND_ANGLE as int)
                &&& out.enemy_attack_cue == (!countdown_active && crossed_spec(
                    old(self).angle as int,
                    delta,
                    ENEMY_ATTACK_ANGLE as int,
                ))
            }),
            final(self).lock == if out.turn_reset {
                LockState::Unlocked
            } else {
                old(self).lock
            },
    {
        match bar_pos {
            None => self.tick_step(0, countdown_active),
            Some(p) => {
                let target: u32 = if p <= 1800 {
                    1800 - p
                } else {
                    1800 + FULL_TURN - p
                };
                proof {
                    let m = FULL_TURN as int;
                    if p <= 1800 {
                        vstd::arithmetic::div_mod::lemma_small_mod((1800 - p) as nat, m as nat);
                    } else {
                        vstd::arithmetic::div_mod::lemma_mod_add_multiples_vanish(1800 - p, m);
                        vstd::arithmetic::div_mod::lemma_small_mod(
                            (1800 + m - p) as nat,
                            m as nat,
                        );
                    }
                }
                let down: u32 = if self.angle >= target {
                    self.angle - target
                } else {
                    self.angle + FULL_TURN - target
                };
                proof {
                    let m = FULL_TURN as int;
                    let a = self.angle as int;
                    let t = target as int;
                    if self.angle >= target {
                        vstd::arithmetic::div_mod::lemma_small_mod((a - t) as nat, m as nat);
                    } else {
                        vstd::arithmetic::div_mod::lemma_mod_add_multiples_vanish(a - t, m);
                        vstd::arithmetic::div_mod::lemma_small_mod((a - t + m) as nat, m as nat);
                    }
                    assert(down == norm_spec(a - t));
                    vstd::arithmetic::div_mod::lemma_sub_mod_noop_right(a, a - t, m);
                    vstd::arithmetic::div_mod::lemma_small_mod(t as nat, m as nat);
                    assert(norm_spec(a - norm_spec(a - t)) == norm_spec(t));
                }
                let delta: i32 = -(down as i32);
                self.tick_step(delta, countdown_active)
            },
        }
    }

    /// Resolve one button press against the pointer and the turn lock.
    pub fn press(&mut self, player_alive: bool) -> (r: Option<ActionOutcome>)
        requires
            old(self).wf(),
        ensures
            final(self).wf(),
            final(self).angle == old(self).angle,
            (r, final(self).lock) == resolve_spec(
                old(self).angle as int,
                old(self).lock,
                player_alive,
            ),
    {
        let (outcome, lock) = resolve_action(self.angle, self.lock, player_alive);
        self.lock = lock;
        outcome
    }

    /// Should the icon of `action`'s zone light up under the pointer?
    pub fn highlighted(&self, action: Action) -> (r: bool)
        requires
            self.wf(),
        ensures
            r == in_range_spec(self.angle as int, zone_angle_spec(action), ANGLE_FUDGE as int),
    {
        in_range(self.angle, zone_angle(action), ANGLE_FUDGE)
    }
}

} // verus!
