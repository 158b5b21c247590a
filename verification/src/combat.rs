//! Combat: weapon types.

use crate::police::{crime_heat_of, CrimeType};
use vstd::prelude::*;

verus! {

/// Weapon type.
#[derive(Debug, Clone, Copy, PartialEq, Eq, Structural, Hash)]
pub enum WeaponKind {
    Pistol,
    Revolver,
    Shotgun,
    Smg,
    Rifle,
    Sniper,
    Melee,
}

/// Display name of a `WeaponKind`.
pub open spec fn weapon_label(x: WeaponKind) -> Seq<char> {
    match x {
        WeaponKind::Pistol => "Pistol"@,
        WeaponKind::Revolver => "Revolver"@,
        WeaponKind::Shotgun => "Shotgun"@,
        WeaponKind::Smg => "SMG"@,
        WeaponKind::Rifle => "Rifle"@,
        WeaponKind::Sniper => "Sniper"@,
        WeaponKind::Melee => "Melee"@,
    }
}

impl WeaponKind {
    pub fn label(&self) -> (s: &'static str)
        ensures
            s@ == weapon_label(*self),
    {
        match self {
            WeaponKind::Pistol => "Pistol",
            WeaponKind::Revolver => "Revolver",
            WeaponKind::Shotgun => "Shotgun",
            WeaponKind::Smg => "SMG",
            WeaponKind::Rifle => "Rifle",
            WeaponKind::Sniper => "Sniper",
            WeaponKind::Melee => "Melee",
        }
    }
}
impl WeaponKind {
    /// Pellets per shot: six for a shotgun, one for everything else.
    pub fn pellets(&self) -> (n: u32)
        ensures
            n == if *self == WeaponKind::Shotgun { 6u32 } else { 1u32 },
    {
        match self {
            WeaponKind::Shotgun => 6,
            _ => 1,
        }
    }

    /// Is it a close-combat weapon?
    pub fn is_melee(&self) -> (b: bool)
        ensures
            b == (*self == WeaponKind::Melee),
    {
        match self {
            WeaponKind::Melee => true,
            _ => false,
        }
    }
}

/// Damage per hit (per pellet for the shotgun).
pub open spec fn damage_of(k: WeaponKind) -> u32 {
    match k {
        WeaponKind::Pistol => 25,
        WeaponKind::Revolver => 35,
        WeaponKind::Shotgun => 15,
        WeaponKind::Smg => 18,
        WeaponKind::Rifle => 40,
        WeaponKind::Sniper => 80,
        WeaponKind::Melee => 30,
    }
}

impl WeaponKind {
    /// Damage per hit (per pellet for the shotgun).
    pub fn damage(&self) -> (v: u32)
        ensures
            v == damage_of(*self),
    {
        match self {
            WeaponKind::Pistol => 25,
            WeaponKind::Revolver => 35,
            WeaponKind::Shotgun => 15,
            WeaponKind::Smg => 18,
            WeaponKind::Rifle => 40,
            WeaponKind::Sniper => 80,
            WeaponKind::Melee => 30,
        }
    }
}

/// Projectile speed in pixels per second; melee fires none.
pub open spec fn projectile_speed_of(k: WeaponKind) -> u32 {
    match k {
        WeaponKind::Pistol => 600,
        WeaponKind::Revolver => 700,
        WeaponKind::Shotgun => 500,
        WeaponKind::Smg => 650,
        WeaponKind::Rifle => 900,
        WeaponKind::Sniper => 1200,
        WeaponKind::Melee => 0,
    }
}

impl WeaponKind {
    /// Projectile speed in pixels per second; melee fires none.
    pub fn projectile_speed(&self) -> (v: u32)
        ensures
            v == projectile_speed_of(*self),
    {
        match self {
            WeaponKind::Pistol => 600,
            WeaponKind::Revolver => 700,
            WeaponKind::Shotgun => 500,
            WeaponKind::Smg => 650,
            WeaponKind::Rifle => 900,
            WeaponKind::Sniper => 1200,
            WeaponKind::Melee => 0,
        }
    }
}

/// Reach in pixels.
pub open spec fn range_of(k: WeaponKind) -> u32 {
    match k {
        WeaponKind::Pistol => 400,
        WeaponKind::Revolver => 500,
        WeaponKind::Shotgun => 250,
        WeaponKind::Smg => 450,
        WeaponKind::Rifle => 700,
        WeaponKind::Sniper => 1000,
        WeaponKind::Melee => 40,
    }
}

impl WeaponKind {
    /// Reach in pixels.
    pub fn range(&self) -> (v: u32)
        ensures
            v == range_of(*self),
    {
        match self {
            WeaponKind::Pistol => 400,
            WeaponKind::Revolver => 500,
            WeaponKind::Shotgun => 250,
            WeaponKind::Smg => 450,
            WeaponKind::Rifle => 700,
            WeaponKind::Sniper => 1000,
            WeaponKind::Melee => 40,
        }
    }
}

/// Heat points each shot draws.
pub open spec fn heat_per_shot_of(k: WeaponKind) -> u32 {
    match k {
        WeaponKind::Pistol => 3,
        WeaponKind::Revolver => 4,
        WeaponKind::Shotgun => 6,
        WeaponKind::Smg => 2,
        WeaponKind::Rifle => 5,
        WeaponKind::Sniper => 8,
        WeaponKind::Melee => 1,
    }
}

impl WeaponKind {
    /// Heat points each shot draws.
    pub fn heat_per_shot(&self) -> (v: u32)
        ensures
            v == heat_per_shot_of(*self),
    {
        match self {
            WeaponKind::Pistol => 3,
            WeaponKind::Revolver => 4,
            WeaponKind::Shotgun => 6,
            WeaponKind::Smg => 2,
            WeaponKind::Rifle => 5,
            WeaponKind::Sniper => 8,
            WeaponKind::Melee => 1,
        }
    }
}

/// Every weapon hurts, by 15 to 80 a hit. The sniper hits hardest of any
/// single shot and a full shotgun blast (six pellets) harder still; the
/// revolver outhits the pistol, which outhits the SMG, and the rifle
/// outhits the revolver. No single shot draws as much heat as the crime of
/// discharging a weapon.
pub proof fn lemma_weapon_damage(k: WeaponKind)
    ensures
        15 <= damage_of(k) <= 80,
        damage_of(k) <= damage_of(WeaponKind::Sniper) < 6 * damage_of(WeaponKind::Shotgun),
        damage_of(WeaponKind::Smg) < damage_of(WeaponKind::Pistol) < damage_of(WeaponKind::Revolver)
            < damage_of(WeaponKind::Rifle),
        heat_per_shot_of(k) < crime_heat_of(CrimeType::WeaponDischarge),
{
}

} // verus!
