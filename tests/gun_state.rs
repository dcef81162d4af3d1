use gunplay::config::{GunConfig, MICROS_PER_SEC};
use gunplay::geometry::{Heading, Vector};
use gunplay::gun::{Gun, GunState};

fn origin() -> Vector {
    Vector { x: 0, y: 0 }
}

#[test]
fn default_config_values() {
    let c = GunConfig::default();
    assert_eq!(c.fire_cooldown_micros, 500_000);
    assert_eq!(c.reload_micros, 2_000_000);
    assert_eq!(c.projectile_speed, 320);
    assert_eq!(c.max_ammo, 7);
    assert_eq!(c.projectile_radius, 8);
}

#[test]
fn new_gun_is_ready_and_full() {
    let c = GunConfig::default();
    let g = Gun::new(&c);
    assert_eq!(g.state, GunState::Ready);
    assert_eq!(g.ammo, 7);
    assert_eq!(g.max_ammo, 7);
    assert_eq!(g.heading, Heading { x: 1000, y: 0 });
}

#[test]
fn fire_when_ready_spends_a_round() {
    let c = GunConfig::default();
    let mut g = Gun::new(&c);
    g.aim(Heading { x: 0, y: 1000 });
    let shot = g.try_fire(&c, Vector { x: 5, y: -3 }).expect("a shot");
    assert_eq!(g.ammo, 6);
    assert_eq!(g.state, GunState::Shooting(500_000));
    assert_eq!(shot.position, Vector { x: 5, y: -3 });
    assert_eq!(shot.velocity, Vector { x: 0, y: 320_000 });
}

#[test]
fn fire_gate_closed_while_shooting() {
    let c = GunConfig::default();
    let mut g = Gun { state: GunState::Shooting(10), ammo: 3, max_ammo: 7, heading: Heading { x: 1000, y: 0 } };
    let before = g;
    assert!(g.try_fire(&c, origin()).is_none());
    assert_eq!(g, before);
}

#[test]
fn fire_gate_closed_while_reloading() {
    let c = GunConfig::default();
    let mut g = Gun { state: GunState::Reloading(10), ammo: 3, max_ammo: 7, heading: Heading { x: 1000, y: 0 } };
    let before = g;
    assert!(g.try_fire(&c, origin()).is_none());
    assert_eq!(g, before);
}

#[test]
fn fire_gate_closed_when_empty() {
    let c = GunConfig::default();
    let mut g = Gun { state: GunState::Ready, ammo: 0, max_ammo: 7, heading: Heading { x: 1000, y: 0 } };
    let before = g;
    assert!(g.try_fire(&c, origin()).is_none());
    assert_eq!(g, before);
}

#[test]
fn reload_accepted_when_not_full() {
    let c = GunConfig::default();
    let mut g = Gun { state: GunState::Ready, ammo: 2, max_ammo: 7, heading: Heading { x: 1000, y: 0 } };
    assert!(g.try_reload(&c));
    assert_eq!(g.state, GunState::Reloading(2_000_000));
    assert_eq!(g.ammo, 2);
}

#[test]
fn reload_refused_when_full() {
    let c = GunConfig::default();
    let mut g = Gun::new(&c);
    let before = g;
    assert!(!g.try_reload(&c));
    assert_eq!(g, before);
}

#[test]
fn reload_refused_while_shooting() {
    let c = GunConfig::default();
    let mut g = Gun { state: GunState::Shooting(1), ammo: 2, max_ammo: 7, heading: Heading { x: 1000, y: 0 } };
    let before = g;
    assert!(!g.try_reload(&c));
    assert_eq!(g, before);
}

#[test]
fn countdown_stops_at_zero() {
    let mut g = Gun { state: GunState::Shooting(300), ammo: 2, max_ammo: 7, heading: Heading { x: 1000, y: 0 } };
    g.tick(100);
    assert_eq!(g.state, GunState::Shooting(200));
    assert_eq!(g.remaining_micros(), 200);
    g.tick(199);
    assert_eq!(g.state, GunState::Shooting(1));
    g.tick(1);
    assert_eq!(g.state, GunState::Ready);
    assert_eq!(g.remaining_micros(), 0);
    g.tick(1000);
    assert_eq!(g.state, GunState::Ready);
    assert_eq!(g.ammo, 2);
}

#[test]
fn countdown_overshoot_reaches_ready() {
    let mut g = Gun { state: GunState::Reloading(300), ammo: 2, max_ammo: 7, heading: Heading { x: 1000, y: 0 } };
    g.tick(5000);
    assert_eq!(g.state, GunState::Ready);
    assert_eq!(g.ammo, 7);
}

#[test]
fn ticks_add_up_on_concrete_values() {
    let start = Gun { state: GunState::Reloading(1_000), ammo: 1, max_ammo: 7, heading: Heading { x: 1000, y: 0 } };
    let mut a = start;
    a.tick(400);
    a.tick(700);
    let mut b = start;
    b.tick(1_100);
    assert_eq!(a, b);
}

#[test]
fn held_fire_empties_magazine_in_seven_shots() {
    let c = GunConfig::default();
    let mut g = Gun::new(&c);
    let step = MICROS_PER_SEC / 2;
    let mut shots = 0;
    // t = 0, 0.5, ..., 3.0: one shot per cooldown.
    for frame in 0..7 {
        let elapsed = if frame == 0 { 0 } else { step };
        if g.update(&c, elapsed, true, false, origin()).is_some() {
            shots += 1;
        }
    }
    assert_eq!(shots, 7);
    assert_eq!(g.ammo, 0);
    // t = 3.5: the last cooldown is over and nothing is left to fire.
    assert!(g.update(&c, step, true, false, origin()).is_none());
    assert_eq!(g.state, GunState::Ready);
    assert_eq!(g.ammo, 0);
    // t = 4.0: an eighth attempt does nothing.
    let before = g;
    assert!(g.update(&c, step, true, false, origin()).is_none());
    assert_eq!(g, before);
}

#[test]
fn held_fire_with_small_frames_fires_once_per_cooldown() {
    let c = GunConfig::default();
    let mut g = Gun::new(&c);
    let mut shots = 0;
    // 3.5 s of frames of 0.1 s after the first at t = 0.
    for frame in 0..36 {
        let elapsed = if frame == 0 { 0 } else { MICROS_PER_SEC / 10 };
        if g.update(&c, elapsed, true, false, origin()).is_some() {
            shots += 1;
        }
    }
    assert_eq!(shots, 7);
    assert_eq!(g.state, GunState::Ready);
    assert_eq!(g.ammo, 0);
}

#[test]
fn reload_from_empty_takes_two_seconds() {
    let c = GunConfig::default();
    let mut g = Gun { state: GunState::Ready, ammo: 0, max_ammo: 7, heading: Heading { x: 1000, y: 0 } };
    assert!(g.update(&c, 0, false, true, origin()).is_none());
    assert_eq!(g.state, GunState::Reloading(2_000_000));
    for _ in 0..19 {
        g.update(&c, MICROS_PER_SEC / 10, false, false, origin());
        assert!(matches!(g.state, GunState::Reloading(_)));
        assert_eq!(g.ammo, 0);
    }
    g.update(&c, MICROS_PER_SEC / 10 - 1, false, false, origin());
    assert_eq!(g.state, GunState::Reloading(1));
    assert_eq!(g.ammo, 0);
    g.update(&c, 1, false, false, origin());
    assert_eq!(g.state, GunState::Ready);
    assert_eq!(g.ammo, 7);
    g.update(&c, MICROS_PER_SEC, false, false, origin());
    assert_eq!(g.state, GunState::Ready);
    assert_eq!(g.ammo, 7);
}

#[test]
fn fire_takes_precedence_over_reload_in_a_frame() {
    let c = GunConfig::default();
    let mut g = Gun { state: GunState::Ready, ammo: 3, max_ammo: 7, heading: Heading { x: 1000, y: 0 } };
    assert!(g.update(&c, 0, true, true, origin()).is_some());
    assert_eq!(g.state, GunState::Shooting(500_000));
    assert_eq!(g.ammo, 2);
}

#[test]
fn expired_cooldown_fires_in_same_frame() {
    let c = GunConfig::default();
    let mut g = Gun { state: GunState::Shooting(100), ammo: 3, max_ammo: 7, heading: Heading { x: 1000, y: 0 } };
    assert!(g.update(&c, 100, true, false, origin()).is_some());
    assert_eq!(g.ammo, 2);
}
