use one_click_ninja::components::Action;
use one_click_ninja::music::{bar_length_ms, bar_phase};
use one_click_ninja::spinner::{resolve_action, ActionOutcome, LockState, Spinner};
use one_click_ninja::types::DamageType;

#[test]
fn turn_lock_round_trip() {
    // An attack at 10 degrees (sword window) locks the turn.
    let (outcome, lock) = resolve_action(100, LockState::Unlocked, true);
    assert_eq!(outcome, Some(ActionOutcome::Attack(DamageType::Sword)));
    assert_eq!(lock, LockState::Locked);

    // A second press at 280 degrees (arrow window) is swallowed.
    let (outcome, lock) = resolve_action(2800, lock, true);
    assert_eq!(outcome, None);
    assert_eq!(lock, LockState::Locked);

    // Crossing the defend angle resets the lock.
    let mut s = Spinner { angle: 1900, lock };
    let out = s.tick_step(-200, false);
    assert!(out.turn_reset);
    assert_eq!(s.lock, LockState::Unlocked);

    // Now the arrow press resolves.
    let (outcome, lock) = resolve_action(2800, s.lock, true);
    assert_eq!(outcome, Some(ActionOutcome::Attack(DamageType::Arrow)));
    assert_eq!(lock, LockState::Locked);
}

#[test]
fn defend_bypasses_the_lock() {
    let (outcome, lock) = resolve_action(1800, LockState::Locked, true);
    assert_eq!(outcome, Some(ActionOutcome::Defend));
    assert_eq!(lock, LockState::Locked);
}

#[test]
fn defend_does_not_consume_the_lock() {
    let (outcome, lock) = resolve_action(1700, LockState::Unlocked, true);
    assert_eq!(outcome, Some(ActionOutcome::Defend));
    assert_eq!(lock, LockState::Unlocked);
}

#[test]
fn dead_player_yields_nothing() {
    for &angle in [0u32, 100, 900, 1800, 2800, 3599].iter() {
        for &lock in [LockState::Unlocked, LockState::Locked].iter() {
            let (outcome, after) = resolve_action(angle, lock, false);
            assert_eq!(outcome, None);
            assert_eq!(after, lock);
        }
    }
}

#[test]
fn miss_locks_the_turn() {
    let (outcome, lock) = resolve_action(500, LockState::Unlocked, true);
    assert_eq!(outcome, Some(ActionOutcome::Miss));
    assert_eq!(lock, LockState::Locked);
}

#[test]
fn magic_window_resolves_magic() {
    let (outcome, lock) = resolve_action(900, LockState::Unlocked, true);
    assert_eq!(outcome, Some(ActionOutcome::Attack(DamageType::Magic)));
    assert_eq!(lock, LockState::Locked);
}

#[test]
fn window_boundaries_are_closed() {
    let press = |angle: u32| resolve_action(angle, LockState::Unlocked, true).0;
    assert_eq!(press(200), Some(ActionOutcome::Attack(DamageType::Sword)));
    assert_eq!(press(201), Some(ActionOutcome::Miss));
    assert_eq!(press(3400), Some(ActionOutcome::Attack(DamageType::Sword)));
    assert_eq!(press(3399), Some(ActionOutcome::Miss));
    assert_eq!(press(700), Some(ActionOutcome::Attack(DamageType::Magic)));
    assert_eq!(press(1100), Some(ActionOutcome::Attack(DamageType::Magic)));
    assert_eq!(press(1600), Some(ActionOutcome::Defend));
    assert_eq!(press(2000), Some(ActionOutcome::Defend));
    assert_eq!(press(2001), Some(ActionOutcome::Miss));
    assert_eq!(press(2500), Some(ActionOutcome::Attack(DamageType::Arrow)));
    assert_eq!(press(2900), Some(ActionOutcome::Attack(DamageType::Arrow)));
    assert_eq!(press(2901), Some(ActionOutcome::Miss));
}

#[test]
fn sweep_to_sword_zone_then_press() {
    // Angle sequence 350, 355, 2 degrees; the press at 2 degrees lands in
    // the wrapping sword window.
    let mut s = Spinner { angle: 3500, lock: LockState::Unlocked };
    let out = s.tick_step(50, false);
    assert!(!out.turn_reset);
    let out = s.tick_step(70, false);
    assert!(!out.turn_reset);
    assert_eq!(s.angle, 20);
    let outcome = s.press(true);
    assert_eq!(outcome, Some(ActionOutcome::Attack(DamageType::Sword)));
    assert_eq!(s.lock, LockState::Locked);
}

#[test]
fn sweep_without_press_changes_nothing() {
    let mut s = Spinner { angle: 3500, lock: LockState::Unlocked };
    s.tick_step(50, false);
    s.tick_step(70, false);
    assert_eq!(s.angle, 20);
    assert_eq!(s.lock, LockState::Unlocked);
}

#[test]
fn spinner_revolution_resets_turn_once() {
    let mut s = Spinner { angle: 0, lock: LockState::Locked };
    let mut resets: u32 = 0;
    let mut cues: u32 = 0;
    for _ in 0..24 {
        let out = s.tick_step(-150, false);
        if out.turn_reset {
            resets += 1;
        }
        if out.enemy_attack_cue {
            cues += 1;
        }
    }
    assert_eq!(s.angle, 0);
    assert_eq!(resets, 1);
    assert_eq!(cues, 1);
    assert_eq!(s.lock, LockState::Unlocked);
}

#[test]
fn countdown_suppresses_enemy_cue_not_reset() {
    let mut s = Spinner { angle: 0, lock: LockState::Locked };
    let mut resets: u32 = 0;
    let mut cues: u32 = 0;
    for _ in 0..24 {
        let out = s.tick_step(-150, true);
        if out.turn_reset {
            resets += 1;
        }
        if out.enemy_attack_cue {
            cues += 1;
        }
    }
    assert_eq!(resets, 1);
    assert_eq!(cues, 0);
}

#[test]
fn phase_tick_follows_the_music() {
    let mut s = Spinner { angle: 1800, lock: LockState::Locked };
    let out = s.tick_phase(Some(900), false);
    assert_eq!(s.angle, 900);
    assert!(out.enemy_attack_cue);
    assert!(!out.turn_reset);
}

#[test]
fn phase_tick_without_sample_holds() {
    let mut s = Spinner { angle: 1234, lock: LockState::Unlocked };
    let out = s.tick_phase(None, false);
    assert_eq!(s.angle, 1234);
    assert!(!out.turn_reset);
    assert!(!out.enemy_attack_cue);
}

#[test]
fn phase_zero_points_at_defend() {
    let mut s = Spinner::new();
    s.tick_phase(Some(0), true);
    assert_eq!(s.angle, 1800);
}

#[test]
fn new_spinner_highlights_sword() {
    let s = Spinner::new();
    assert!(s.highlighted(Action::AttackSword));
    assert!(!s.highlighted(Action::AttackMagic));
    assert!(!s.highlighted(Action::Defend));
    assert!(!s.highlighted(Action::AttackArrow));
}

#[test]
fn highlight_near_seam() {
    let s = Spinner { angle: 3450, lock: LockState::Unlocked };
    assert!(s.highlighted(Action::AttackSword));
    let s = Spinner { angle: 3350, lock: LockState::Unlocked };
    assert!(!s.highlighted(Action::AttackSword));
}

#[test]
fn music_driven_bar_fires_once_per_revolution() {
    // Two bars at 160 bpm, sampled every 25 ms: the pointer sweeps one
    // revolution per bar, so each bar resets the turn once and cues the
    // enemy once.
    let bar_ms = bar_length_ms(160);
    let mut s = Spinner { angle: 1800, lock: LockState::Locked };
    let mut resets: u32 = 0;
    let mut cues: u32 = 0;
    let mut now: u64 = 0;
    for _ in 0..120 {
        now += 25;
        let phase = bar_phase(now, 0, bar_ms);
        let out = s.tick_phase(Some(phase), false);
        if out.turn_reset {
            resets += 1;
        }
        if out.enemy_attack_cue {
            cues += 1;
        }
    }
    assert_eq!(resets, 2);
    assert_eq!(cues, 2);
    assert_eq!(s.angle, 1800);
}

#[test]
fn bar_length_at_160_bpm() {
    assert_eq!(bar_length_ms(160), 1500);
}

#[test]
fn bar_phase_scales_onto_circle() {
    assert_eq!(bar_phase(0, 0, 1500), 0);
    assert_eq!(bar_phase(375, 0, 1500), 900);
    assert_eq!(bar_phase(1500, 0, 1500), 0);
    assert_eq!(bar_phase(1499, 0, 1500), 3597);
    assert_eq!(bar_phase(2000, 500, 1500), 0);
}
