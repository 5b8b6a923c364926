//! Shared plain types.

use vstd::prelude::*;

verus! {

/// Hit points.
pub type Hp = u32;

/// The kind of damage an attack carries.  A defender is only hurt by kinds
/// it is vulnerable to.
#[derive(Clone, Copy, Debug, Eq, PartialEq, Structural)]
pub enum DamageType {
    Arrow,
    Magic,
    Sword,
    Ray,
}

} // verus!
