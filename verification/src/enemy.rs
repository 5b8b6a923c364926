//! The roster of enemies: who spawns at each level and how they fight.

use vstd::prelude::*;
use crate::components::{Character, Health};
use crate::types::{DamageType, Hp};

verus! {

/// How many ordinary levels come before the boss.
pub const NUM_MOB_LEVELS: u8 = 5;

/// The mob drawn for a three-way roll.
pub fn mob_character(roll: u32) -> (c: Character)
    requires
        roll < 3,
    ensures
        c == if roll == 0 {
            Character::Archer
        } else if roll == 1 {
            Character::Knight
        } else {
            Character::Mage
        },
{
    if roll == 0 {
        Character::Archer
    } else if roll == 1 {
        Character::Knight
    } else {
        Character::Mage
    }
}

/// Hit points a character spawns with.
pub open spec fn start_hp_spec(c: Character) -> Hp {
    match c {
        Character::Archer => 3,
        Character::Knight => 4,
        Character::Mage => 2,
        Character::Boss => 10,
        Character::Player => 0,
    }
}

/// Hit points an enemy spawns with.
pub fn start_hp(c: Character) -> (hp: Hp)
    requires
        !(c is Player),
    ensures
        hp == start_hp_spec(c),
{
    match c {
        Character::Archer => 3,
        Character::Knight => 4,
        Character::Mage => 2,
        Character::Boss => 10,
        Character::Player => 10,
    }
}

/// The damage kind a character attacks with.
pub open spec fn attack_kind_spec(c: Character) -> DamageType {
    match c {
        Character::Archer => DamageType::Arrow,
        Character::Knight => DamageType::Sword,
        Character::Mage => DamageType::Magic,
        Character::Boss => DamageType::Ray,
        Character::Player => DamageType::Sword,
    }
}

/// The damage kind an enemy attacks with.
pub fn attack_kind(c: Character) -> (kind: DamageType)
    requires
        !(c is Player),
    ensures
        kind == attack_kind_spec(c),
{
    match c {
        Character::Archer => DamageType::Arrow,
        Character::Knight => DamageType::Sword,
        Character::Mage => DamageType::Magic,
        Character::Boss => DamageType::Ray,
        Character::Player => DamageType::Sword,
    }
}

/// The damage kinds a character is vulnerable to.
pub open spec fn vulnerabilities_spec(c: Character) -> Seq<DamageType> {
    match c {
        Character::Archer => seq![DamageType::Arrow, DamageType::Magic],
        Character::Knight => seq![DamageType::Magic],
        Character::Mage => seq![DamageType::Arrow, DamageType::Sword],
        Character::Boss => seq![DamageType::Magic, DamageType::Sword],
        Character::Player => seq![DamageType::Arrow, DamageType::Magic, DamageType::Sword],
    }
}

/// The damage kinds an enemy is vulnerable to.
pub fn vulnerabilities(c: Character) -> (v: Vec<DamageType>)
    requires
        !(c is Player),
    ensures
        v@ == vulnerabilities_spec(c),
{
    let mut v: Vec<DamageType> = Vec::new();
    match c {
        Character::Archer => {
            v.push(DamageType::Arrow);
            v.push(DamageType::Magic);
        },
        Character::Knight => {
            v.push(DamageType::Magic);
        },
        Character::Mage => {
            v.push(DamageType::Arrow);
            v.push(DamageType::Sword);
        },
        Character::Boss => {
            v.push(DamageType::Magic);
            v.push(DamageType::Sword);
        },
        Character::Player => {
            v.push(DamageType::Arrow);
            v.push(DamageType::Magic);
            v.push(DamageType::Sword);
        },
    }
    proof {
        assert(v@ =~= vulnerabilities_spec(c));
    }
    v
}

/// The full health pool an enemy spawns with.
pub fn initial_health(c: Character) -> (h: Health)
    requires
        !(c is Player),
    ensures
        h.current == start_hp_spec(c),
        h.max == start_hp_spec(c),
        h.vulnerable_to@ == vulnerabilities_spec(c),
{
    let hp = start_hp(c);
    Health::new(hp, vulnerabilities(c))
}

} // verus!
