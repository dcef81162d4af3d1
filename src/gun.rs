use vstd::prelude::*;

use crate::config::GunConfig;
use crate::geometry::{Heading, Vector, HEADING_SCALE};
use crate::projectile::Projectile;

verus! {

/// What the gun is doing. The two countdown states carry the time that is
/// left, in microseconds.
#[derive(Clone, Copy, Debug, PartialEq, Eq, Structural)]
pub enum GunState {
    /// Idle: the gun may fire or begin a reload.
    Ready,
    /// Cooling down after a shot; neither firing nor reloading is possible.
    Shooting(u64),
    /// Reloading; when the countdown runs out the magazine is full again.
    Reloading(u64),
}

/// The player's gun.
#[derive(Clone, Copy, Debug, PartialEq, Eq, Structural)]
pub struct Gun {
    pub state: GunState,
    pub ammo: u32,
    pub max_ammo: u32,
    /// Where the gun points; fired projectiles travel this way.
    pub heading: Heading,
}

/// `max(0, remaining - elapsed)`.
pub open spec fn count_down(remaining: int, elapsed: int) -> int {
    if remaining > elapsed {
        remaining - elapsed
    } else {
        0
    }
}

impl GunState {
    /// Time left in the current countdown; zero when ready.
    pub open spec fn remaining(self) -> int {
        match self {
            GunState::Ready => 0,
            GunState::Shooting(r) => r as int,
            GunState::Reloading(r) => r as int,
        }
    }
}

impl Gun {
    /// At most a full magazine, and a magazine that holds something.
    pub open spec fn wf(&self) -> bool {
        &&& 0 < self.max_ammo
        &&& self.ammo <= self.max_ammo
        &&& self.heading.wf()
    }

    /// The gun after `elapsed` microseconds: a countdown goes down by
    /// `elapsed`, and at zero the gun is ready again, with a full magazine
    /// when it was reloading.
    pub open spec fn ticked(self, elapsed: int) -> Gun {
        match self.state {
            GunState::Ready => self,
            GunState::Shooting(r) => if r <= elapsed {
                Gun { state: GunState::Ready, ..self }
            } else {
                Gun { state: GunState::Shooting((r - elapsed) as u64), ..self }
            },
            GunState::Reloading(r) => if r <= elapsed {
                Gun { state: GunState::Ready, ammo: self.max_ammo, ..self }
            } else {
                Gun { state: GunState::Reloading((r - elapsed) as u64), ..self }
            },
        }
    }

    /// Whether a shot would be accepted.
    pub open spec fn can_fire(self) -> bool {
        self.state is Ready && self.ammo > 0
    }

    /// Whether a reload would be accepted.
    pub open spec fn can_reload(self) -> bool {
        self.state is Ready && self.ammo < self.max_ammo
    }

    /// The gun after a shot was accepted: one round fewer, cooling down.
    pub open spec fn fired(self, config: GunConfig) -> Gun {
        Gun {
            state: GunState::Shooting(config.fire_cooldown_micros),
            ammo: (self.ammo - 1) as u32,
            ..self
        }
    }

    /// The gun after a reload was accepted.
    pub open spec fn reloading(self, config: GunConfig) -> Gun {
        Gun { state: GunState::Reloading(config.reload_micros), ..self }
    }

    /// A ready gun with a full magazine, pointing along the positive X axis.
    pub fn new(config: &GunConfig) -> (r: Gun)
        requires
            config.wf(),
        ensures
            r.state == GunState::Ready,
            r.ammo == config.max_ammo,
            r.max_ammo == config.max_ammo,
            r.heading.x == HEADING_SCALE && r.heading.y == 0,
            r.wf(),
    {
        Gun {
            state: GunState::Ready,
            ammo: config.max_ammo,
            max_ammo: config.max_ammo,
            heading: Heading::east(),
        }
    }

    /// Time left in the current countdown, in microseconds; zero when ready.
    pub fn remaining_micros(&self) -> (r: u64)
        ensures
            r == self.state.remaining(),
    {
        match self.state {
            GunState::Ready => 0,
            GunState::Shooting(r) => r,
            GunState::Reloading(r) => r,
        }
    }

    /// Turns the gun towards `heading`.
    pub fn aim(&mut self, heading: Heading)
        requires
            old(self).wf(),
            heading.wf(),
        ensures
            *final(self) == (Gun { heading, ..*old(self) }),
            final(self).wf(),
    {
        self.heading = heading;
    }

    /// Lets `elapsed` microseconds pass.
    pub fn tick(&mut self, elapsed: u64)
        requires
            old(self).wf(),
        ensures
            *final(self) == old(self).ticked(elapsed as int),
            final(self).wf(),
    {
        match self.state {
            GunState::Ready => {},
            GunState::Shooting(r) => {
                if r <= elapsed {
                    self.state = GunState::Ready;
                } else {
                    self.state = GunState::Shooting(r - elapsed);
                }
            },
            GunState::Reloading(r) => {
                if r <= elapsed {
                    self.state = GunState::Ready;
                    self.ammo = self.max_ammo;
                } else {
                    self.state = GunState::Reloading(r - elapsed);
                }
            },
        }
    }

    /// Pulls the trigger with the gun at `origin` (in nano-units). A ready
    /// gun with ammo fires one projectile from `origin` along its heading at
    /// the configured speed, loses one round and starts its cooldown; any
    /// other gun is left as it is and fires nothing.
    pub fn try_fire(&mut self, config: &GunConfig, origin: Vector) -> (shot: Option<Projectile>)
        requires
            old(self).wf(),
        ensures
            old(self).can_fire() ==> {
                &&& *final(self) == old(self).fired(*config)
                &&& shot == Some(Projectile::launched_spec(origin, old(self).heading, config.projectile_speed))
            },
            !old(self).can_fire() ==> *final(self) == *old(self) && shot is None,
            final(self).wf(),
    {
        if matches!(self.state, GunState::Ready) && self.ammo > 0 {
            let shot = Projectile::launch(origin, self.heading, config.projectile_speed);
            self.state = GunState::Shooting(config.fire_cooldown_micros);
            self.ammo = self.ammo - 1;
            Some(shot)
        } else {
            None
        }
    }

    /// Asks for a reload. A ready gun whose magazine is not full starts
    /// reloading and `true` comes back; any other gun is left as it is.
    pub fn try_reload(&mut self, config: &GunConfig) -> (accepted: bool)
        requires
            old(self).wf(),
        ensures
            accepted == old(self).can_reload(),
            accepted ==> *final(self) == old(self).reloading(*config),
            !accepted ==> *final(self) == *old(self),
            final(self).wf(),
    {
        if matches!(self.state, GunState::Ready) && self.ammo < self.max_ammo {
            self.state = GunState::Reloading(config.reload_micros);
            true
        } else {
            false
        }
    }

    /// One frame of play: `elapsed` microseconds pass, then, if the fire
    /// button is held, the trigger is pulled, and if no shot left the gun and
    /// the reload key is held, a reload is asked for. Holding the fire button
    /// thus fires once each time the cooldown runs out, for as long as ammo
    /// lasts.
    pub fn update(
        &mut self,
        config: &GunConfig,
        elapsed: u64,
        fire_held: bool,
        reload_held: bool,
        origin: Vector,
    ) -> (shot: Option<Projectile>)
        requires
            old(self).wf(),
        ensures
            final(self).wf(),
            fire_held && old(self).ticked(elapsed as int).can_fire() ==> {
                &&& *final(self) == old(self).ticked(elapsed as int).fired(*config)
                &&& shot == Some(
                    Projectile::launched_spec(origin, old(self).heading, config.projectile_speed),
                )
            },
            !(fire_held && old(self).ticked(elapsed as int).can_fire()) ==> {
                &&& shot is None
                &&& reload_held && old(self).ticked(elapsed as int).can_reload() ==> *final(self)
                    == old(self).ticked(elapsed as int).reloading(*config)
                &&& !(reload_held && old(self).ticked(elapsed as int).can_reload()) ==> *final(self)
                    == old(self).ticked(elapsed as int)
            },
    {
        self.tick(elapsed);
        let shot = if fire_held {
            self.try_fire(config, origin)
        } else {
            None
        };
        if shot.is_none() && reload_held {
            self.try_reload(config);
        }
        shot
    }
}

/// A countdown goes down by the time that passes and stops at zero, and the
/// gun is ready again exactly when it reaches zero.
pub proof fn lemma_countdown(g: Gun, elapsed: nat)
    ensures
        g.ticked(elapsed as int).state.remaining() == count_down(g.state.remaining(), elapsed as int),
        !(g.state is Ready) ==> (g.ticked(elapsed as int).state is Ready
            <==> count_down(g.state.remaining(), elapsed as int) == 0),
        g.state is Ready ==> g.ticked(elapsed as int) == g,
{
}

/// Letting `a` and then `b` microseconds pass leaves the gun as letting
/// `a + b` microseconds pass at once does.
pub proof fn lemma_ticks_add_up(g: Gun, a: nat, b: nat)
    ensures
        g.ticked(a as int).ticked(b as int) == g.ticked((a + b) as int),
{
}

/// An accepted reload keeps the magazine as it was while the reload lasts,
/// and fills it, with the gun ready, once the reload time has passed.
pub proof fn lemma_reload_completes(g: Gun, config: GunConfig, elapsed: nat)
    requires
        g.wf(),
        g.can_reload(),
    ensures
        elapsed < config.reload_micros ==> {
            &&& g.reloading(config).ticked(elapsed as int).state is Reloading
            &&& g.reloading(config).ticked(elapsed as int).ammo == g.ammo
        },
        elapsed >= config.reload_micros ==> {
            &&& g.reloading(config).ticked(elapsed as int).state is Ready
            &&& g.reloading(config).ticked(elapsed as int).ammo == g.max_ammo
        },
{
}

/// A shot that is accepted takes exactly one round and starts the
/// configured cooldown; the gun fires again once that cooldown has passed,
/// if a round is left.
pub proof fn lemma_fire_cycle(g: Gun, config: GunConfig, elapsed: nat)
    requires
        g.wf(),
        g.can_fire(),
    ensures
        g.fired(config).ammo == g.ammo - 1,
        g.fired(config).state.remaining() == config.fire_cooldown_micros,
        !g.fired(config).can_fire(),
        !g.fired(config).can_reload(),
        elapsed < config.fire_cooldown_micros ==> !g.fired(config).ticked(elapsed as int).can_fire(),
        elapsed >= config.fire_cooldown_micros ==> (g.fired(config).ticked(elapsed as int).can_fire()
            <==> g.ammo > 1),
{
}

} // verus!
