use vstd::prelude::*;

use crate::geometry::{Heading, Vector};

verus! {

/// A projectile moved by hand: its position, in nano-units, and its
/// velocity, in milli-units per second.
#[derive(Clone, Copy, Debug, PartialEq, Eq, Structural)]
pub struct Projectile {
    pub position: Vector,
    pub velocity: Vector,
}

/// Where a point at `start` moving at `velocity` is after `elapsed`
/// microseconds.
pub open spec fn displaced(start: int, velocity: int, elapsed: int) -> int {
    start + velocity * elapsed
}

/// A projectile's position can be advanced by `elapsed` microseconds
/// without leaving the range of `i64`.
pub open spec fn fits_after(p: Projectile, elapsed: int) -> bool {
    &&& i64::MIN <= displaced(p.position.x as int, p.velocity.x as int, elapsed) <= i64::MAX
    &&& i64::MIN <= displaced(p.position.y as int, p.velocity.y as int, elapsed) <= i64::MAX
}

/// The projectile after `elapsed` microseconds; meaningful where
/// `fits_after(p, elapsed)` holds.
pub open spec fn advanced(p: Projectile, elapsed: int) -> Projectile {
    Projectile {
        position: Vector {
            x: displaced(p.position.x as int, p.velocity.x as int, elapsed) as i64,
            y: displaced(p.position.y as int, p.velocity.y as int, elapsed) as i64,
        },
        velocity: p.velocity,
    }
}

impl Projectile {
    /// A projectile leaving `origin` along `heading` at `speed` world units
    /// per second.
    pub open spec fn launched_spec(origin: Vector, heading: Heading, speed: u32) -> Projectile {
        Projectile {
            position: origin,
            velocity: Vector {
                x: (speed as int * heading.x as int) as i64,
                y: (speed as int * heading.y as int) as i64,
            },
        }
    }

    /// Builds the projectile that leaves `origin` along `heading` at `speed`
    /// world units per second.
    pub fn launch(origin: Vector, heading: Heading, speed: u32) -> (r: Projectile)
        requires
            heading.wf(),
        ensures
            r == Projectile::launched_spec(origin, heading, speed),
            r.velocity.x == speed * heading.x,
            r.velocity.y == speed * heading.y,
    {
        proof {
            assert(-1000 * (speed as int) <= speed as int * heading.x as int <= 1000 * (speed as int))
                by (nonlinear_arith)
                requires -1000 <= heading.x <= 1000, 0 <= speed;
            assert(-1000 * (speed as int) <= speed as int * heading.y as int <= 1000 * (speed as int))
                by (nonlinear_arith)
                requires -1000 <= heading.y <= 1000, 0 <= speed;
        }
        let vx: i64 = speed as i64 * heading.x as i64;
        let vy: i64 = speed as i64 * heading.y as i64;
        Projectile { position: origin, velocity: Vector { x: vx, y: vy } }
    }

    /// Whether the projectile can move on by `elapsed` microseconds without
    /// its position leaving the range of `i64`.
    pub fn can_advance(&self, elapsed: u64) -> (r: bool)
        ensures
            r == fits_after(*self, elapsed as int),
    {
        proof {
            lemma_product_fits(self.velocity.x as int, elapsed as int);
            lemma_product_fits(self.velocity.y as int, elapsed as int);
        }
        let dx: i128 = self.velocity.x as i128 * elapsed as i128;
        let dy: i128 = self.velocity.y as i128 * elapsed as i128;
        let lo: i128 = i64::MIN as i128;
        let hi: i128 = i64::MAX as i128;
        let x: i128 = self.position.x as i128;
        let y: i128 = self.position.y as i128;
        lo - x <= dx && dx <= hi - x && lo - y <= dy && dy <= hi - y
    }

    /// Moves the projectile on by `elapsed` microseconds at its velocity.
    pub fn advance(&mut self, elapsed: u64)
        requires
            fits_after(*old(self), elapsed as int),
        ensures
            *final(self) == advanced(*old(self), elapsed as int),
    {
        let dx: i128 = self.velocity.x as i128 * elapsed as i128;
        let dy: i128 = self.velocity.y as i128 * elapsed as i128;
        proof {
            lemma_product_fits(self.velocity.x as int, elapsed as int);
            lemma_product_fits(self.velocity.y as int, elapsed as int);
        }
        self.position.x = (self.position.x as i128 + dx) as i64;
        self.position.y = (self.position.y as i128 + dy) as i64;
    }
}

/// The product of an `i64` and a `u64` fits in an `i128`.
proof fn lemma_product_fits(a: int, b: int)
    requires
        i64::MIN <= a <= i64::MAX,
        0 <= b <= u64::MAX,
    ensures
        i128::MIN <= a * b <= i128::MAX,
{
    if a >= 0 {
        assert(0 <= a * b <= 0x7fff_ffff_ffff_ffff * 0xffff_ffff_ffff_ffff) by (nonlinear_arith)
            requires 0 <= a <= 0x7fff_ffff_ffff_ffff, 0 <= b <= 0xffff_ffff_ffff_ffff;
    } else {
        assert(-0x8000_0000_0000_0000 * 0xffff_ffff_ffff_ffff <= a * b <= 0) by (nonlinear_arith)
            requires -0x8000_0000_0000_0000 <= a < 0, 0 <= b <= 0xffff_ffff_ffff_ffff;
    }
}

/// Moves every projectile in `projectiles` on by `elapsed` microseconds.
pub fn advance_all(projectiles: &mut Vec<Projectile>, elapsed: u64)
    requires
        forall|i: int| 0 <= i < old(projectiles)@.len() ==> fits_after(#[trigger] old(projectiles)@[i], elapsed as int),
    ensures
        final(projectiles)@.len() == old(projectiles)@.len(),
        forall|i: int| 0 <= i < final(projectiles)@.len() ==>
            #[trigger] final(projectiles)@[i] == advanced(old(projectiles)@[i], elapsed as int),
{
    let n = projectiles.len();
    let mut i: usize = 0;
    while i < n
        invariant
            0 <= i <= n,
            n == old(projectiles)@.len(),
            projectiles@.len() == n,
            forall|j: int| 0 <= j < i ==> #[trigger] projectiles@[j] == advanced(old(projectiles)@[j], elapsed as int),
            forall|j: int| i <= j < n ==> #[trigger] projectiles@[j] == old(projectiles)@[j],
            forall|j: int| 0 <= j < n ==> fits_after(#[trigger] old(projectiles)@[j], elapsed as int),
        decreases n - i,
    {
        let mut p = projectiles[i];
        p.advance(elapsed);
        projectiles.set(i, p);
        i = i + 1;
    }
}

/// Moving for `a` microseconds and then for `b` microseconds takes a
/// projectile where moving for `a + b` microseconds at once does.
pub proof fn lemma_advance_splits(p: Projectile, a: nat, b: nat)
    requires
        fits_after(p, a as int),
        fits_after(p, (a + b) as int),
    ensures
        fits_after(advanced(p, a as int), b as int),
        advanced(advanced(p, a as int), b as int) == advanced(p, (a + b) as int),
{
    assert(p.velocity.x * (a + b) == p.velocity.x * a + p.velocity.x * b) by (nonlinear_arith);
    assert(p.velocity.y * (a + b) == p.velocity.y * a + p.velocity.y * b) by (nonlinear_arith);
}

/// A projectile launched along a unit heading moves at the launch speed:
/// the squared length of its velocity, in milli-units per second, is the
/// square of the speed in milli-units per second.
pub proof fn lemma_launch_speed(origin: Vector, heading: Heading, speed: u32)
    requires
        heading.wf(),
        heading.x * heading.x + heading.y * heading.y == 1000 * 1000,
    ensures
        ({
            let v = Projectile::launched_spec(origin, heading, speed).velocity;
            v.x * v.x + v.y * v.y == (speed * 1000) * (speed * 1000)
        }),
{
    let s = speed as int;
    let hx = heading.x as int;
    let hy = heading.y as int;
    assert(-1000 * s <= s * hx <= 1000 * s) by (nonlinear_arith)
        requires -1000 <= hx <= 1000, 0 <= s <= u32::MAX;
    assert(-1000 * s <= s * hy <= 1000 * s) by (nonlinear_arith)
        requires -1000 <= hy <= 1000, 0 <= s <= u32::MAX;
    assert((s * hx) * (s * hx) + (s * hy) * (s * hy) == (s * s) * (hx * hx + hy * hy))
        by (nonlinear_arith);
    assert((s * 1000) * (s * 1000) == (s * s) * (1000 * 1000)) by (nonlinear_arith);
}

} // verus!
