use vstd::prelude::*;

verus! {

/// Microseconds in one second.
pub const MICROS_PER_SEC: u64 = 1_000_000;

/// Tuning of the gun and of the projectiles it fires.
#[derive(Clone, Copy, Debug, PartialEq, Eq)]
pub struct GunConfig {
    /// Time between two shots, in microseconds.
    pub fire_cooldown_micros: u64,
    /// Time a reload takes, in microseconds.
    pub reload_micros: u64,
    /// Speed of a fired projectile, in world units per second.
    pub projectile_speed: u32,
    /// Rounds in a full magazine.
    pub max_ammo: u32,
    /// Radius of a projectile's collision circle, in world units.
    pub projectile_radius: u32,
}

impl GunConfig {
    /// A configuration is usable when the magazine holds at least one round.
    pub open spec fn wf(&self) -> bool {
        self.max_ammo > 0
    }
}

impl Default for GunConfig {
    /// Half a second between shots, two seconds to reload, projectiles at
    /// 320 units per second with a radius of 8 units, seven rounds.
    fn default() -> (r: GunConfig)
        ensures
            r.fire_cooldown_micros == MICROS_PER_SEC / 2,
            r.reload_micros == 2 * MICROS_PER_SEC,
            r.projectile_speed == 320,
            r.max_ammo == 7,
            r.projectile_radius == 8,
            r.wf(),
    {
        GunConfig {
            fire_cooldown_micros: MICROS_PER_SEC / 2,
            reload_micros: 2 * MICROS_PER_SEC,
            projectile_speed: 320,
            max_ammo: 7,
            projectile_radius: 8,
        }
    }
}

} // verus!
