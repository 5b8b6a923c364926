use one_click_ninja::components::{AnimateSpriteSheet, Character, DamageOutcome, DespawnAfter, Health};
use one_click_ninja::enemy::{
    attack_kind, initial_health, mob_character, start_hp, vulnerabilities, NUM_MOB_LEVELS,
};
use one_click_ninja::fight::{DefendTracker, StrikeOutcome};
use one_click_ninja::resources::{countdown_step, Countdown, Level};
use one_click_ninja::types::DamageType;

#[test]
fn damage_applies_to_vulnerable_target() {
    let mut h = Health::new(3, vec![DamageType::Arrow, DamageType::Magic]);
    let r = h.apply_damage(DamageType::Magic, 1);
    assert_eq!(r, DamageOutcome::Applied { died: false });
    assert_eq!(h.current, 2);
    assert_eq!(h.max, 3);
}

#[test]
fn damage_blocked_by_invulnerable_target() {
    let mut h = Health::new(4, vec![DamageType::Magic]);
    let r = h.apply_damage(DamageType::Sword, 1);
    assert_eq!(r, DamageOutcome::Blocked);
    assert_eq!(h.current, 4);
}

#[test]
fn damage_saturates_at_zero_and_kills() {
    let mut h = Health::new(2, vec![DamageType::Sword]);
    let r = h.apply_damage(DamageType::Sword, 5);
    assert_eq!(r, DamageOutcome::Applied { died: true });
    assert_eq!(h.current, 0);
}

#[test]
fn damage_exact_to_zero_kills() {
    let mut h = Health::new(1, vec![DamageType::Arrow]);
    let r = h.apply_damage(DamageType::Arrow, 1);
    assert_eq!(r, DamageOutcome::Applied { died: true });
    assert_eq!(h.current, 0);
}

#[test]
fn defend_tracker_blocks_one_strike() {
    let mut t = DefendTracker::new();
    t.record(false);
    assert!(!t.defending);
    t.record(true);
    t.record(false);
    assert!(t.defending);
    let r = t.enemy_strike(DamageType::Ray);
    assert_eq!(r, StrikeOutcome::Blocked);
    let r = t.enemy_strike(DamageType::Ray);
    assert_eq!(r, StrikeOutcome::Hit(DamageType::Ray));
}

#[test]
fn mob_roster_by_roll() {
    assert_eq!(mob_character(0), Character::Archer);
    assert_eq!(mob_character(1), Character::Knight);
    assert_eq!(mob_character(2), Character::Mage);
}

#[test]
fn enemy_stat_tables() {
    assert_eq!(start_hp(Character::Archer), 3);
    assert_eq!(start_hp(Character::Knight), 4);
    assert_eq!(start_hp(Character::Mage), 2);
    assert_eq!(start_hp(Character::Boss), 10);
    assert_eq!(attack_kind(Character::Archer), DamageType::Arrow);
    assert_eq!(attack_kind(Character::Knight), DamageType::Sword);
    assert_eq!(attack_kind(Character::Mage), DamageType::Magic);
    assert_eq!(attack_kind(Character::Boss), DamageType::Ray);
    assert_eq!(
        vulnerabilities(Character::Archer),
        vec![DamageType::Arrow, DamageType::Magic]
    );
    assert_eq!(vulnerabilities(Character::Knight), vec![DamageType::Magic]);
    assert_eq!(
        vulnerabilities(Character::Mage),
        vec![DamageType::Arrow, DamageType::Sword]
    );
    assert_eq!(
        vulnerabilities(Character::Boss),
        vec![DamageType::Magic, DamageType::Sword]
    );
}

#[test]
fn initial_health_matches_tables() {
    let h = initial_health(Character::Knight);
    assert_eq!(h.current, 4);
    assert_eq!(h.max, 4);
    assert_eq!(h.vulnerable_to, vec![DamageType::Magic]);
}

#[test]
fn countdown_counts_down_to_fight() {
    assert_eq!(countdown_step(3), (Some(2), Countdown::Counting));
    assert_eq!(countdown_step(2), (Some(1), Countdown::Counting));
    assert_eq!(countdown_step(1), (Some(0), Countdown::Counting));
    assert_eq!(countdown_step(0), (None, Countdown::Disabled));
}

#[test]
fn level_ladder_ends_at_boss() {
    assert_eq!(Level::Mob(1).next(), Some(Level::Mob(2)));
    assert_eq!(Level::Mob(NUM_MOB_LEVELS).next(), Some(Level::Boss));
    assert_eq!(Level::Boss.next(), None);
}

#[test]
fn sprite_sheet_never_advances() {
    let a = AnimateSpriteSheet::never();
    assert_eq!(a.max_index, 0);
    assert_eq!(a.frame_duration_ms, u32::MAX as u64 * 1000);
    assert!(!a.frame_due(1_000_000_000));
}

#[test]
fn sprite_sheet_stops_on_last_frame() {
    let a = AnimateSpriteSheet { frame_duration_ms: 100, next_frame_time_ms: 100, max_index: 5 };
    assert!(a.frame_due(100));
    assert!(!a.frame_due(99));
    assert_eq!(a.next_index(0), 1);
    assert_eq!(a.next_index(4), 5);
    assert_eq!(a.next_index(5), 5);
}

#[test]
fn despawn_after_due_strictly_later() {
    let d = DespawnAfter { after_ms: 800 };
    assert!(!d.is_due(800));
    assert!(d.is_due(801));
}
