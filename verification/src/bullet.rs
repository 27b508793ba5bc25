use vstd::prelude::*;

use crate::geom::{
    aim_step, aim_velocity, dist_sq, dist_sq_val, in_bounds, in_limit, isqrt, lemma_sqrt_floor,
    sqrt_floor, Vec2, COORD_LIMIT, MAX_SPEED, TOWER_LIMIT,
};

verus! {

/// Collision radius around a bullet, in thousandths of a pixel (20 pixels).
pub const COLLISION_RADIUS: i64 = 20_000;

/// The collision radius squared, against which squared distances compare.
pub const COLLISION_RADIUS_SQ: i64 = COLLISION_RADIUS * COLLISION_RADIUS;

/// A projectile: a point moving with the fixed velocity it was created
/// with, carrying a damage payload and remembering where it started.
#[derive(Clone, Copy, Debug, PartialEq, Eq, Structural)]
pub struct Bullet {
    pub position: Vec2,
    pub velocity: Vec2,
    pub damage: u32,
    pub start_position: Vec2,
}

impl Bullet {
    /// Origin and position stay within machine limits and the velocity was
    /// produced by some admissible speed.
    pub open spec fn wf(self) -> bool {
        &&& in_limit(self.start_position, TOWER_LIMIT)
        &&& in_bounds(self.position)
        &&& -MAX_SPEED <= self.velocity.x <= MAX_SPEED
        &&& -MAX_SPEED <= self.velocity.y <= MAX_SPEED
    }

    /// True when the bullet stands strictly within the collision radius of
    /// `target`.
    pub open spec fn collides(self, target: Vec2) -> bool {
        dist_sq(self.position, target) < COLLISION_RADIUS_SQ
    }

    /// A bullet aimed from `start` at `target`: its velocity is the unit
    /// direction vector scaled by `speed`, or zero when the two coincide.
    pub fn new(start: Vec2, target: Vec2, speed: i64, damage: u32) -> (b: Bullet)
        requires
            in_limit(start, TOWER_LIMIT),
            in_bounds(target),
            0 <= speed <= MAX_SPEED,
        ensures
            b.position == start,
            b.start_position == start,
            b.damage == damage,
            b.velocity == aim_velocity(start, target, speed as int),
            -speed <= b.velocity.x <= speed,
            -speed <= b.velocity.y <= speed,
            dist_sq(b.start_position, b.position) == 0,
            b.wf(),
    {
        let velocity = aim_step(start, target, speed);
        proof {
            assert((start.x - start.x) * (start.x - start.x) == 0 && (start.y - start.y) * (start.y
                - start.y) == 0) by (nonlinear_arith);
        }
        Bullet { position: start, velocity, damage, start_position: start }
    }

    /// One tick of flight: the velocity is added to the position once.
    pub fn update(&mut self)
        requires
            -COORD_LIMIT <= old(self).position.x + old(self).velocity.x <= COORD_LIMIT,
            -COORD_LIMIT <= old(self).position.y + old(self).velocity.y <= COORD_LIMIT,
        ensures
            final(self).position.x == old(self).position.x + old(self).velocity.x,
            final(self).position.y == old(self).position.y + old(self).velocity.y,
            final(self).velocity == old(self).velocity,
            final(self).damage == old(self).damage,
            final(self).start_position == old(self).start_position,
    {
        self.position = Vec2 {
            x: self.position.x + self.velocity.x,
            y: self.position.y + self.velocity.y,
        };
    }

    pub fn get_position(&self) -> (r: Vec2)
        ensures
            r == self.position,
    {
        self.position
    }

    pub fn get_damage(&self) -> (r: u32)
        ensures
            r == self.damage,
    {
        self.damage
    }

    /// Straight-line distance covered since creation, rounded down.
    pub fn get_distance_traveled(&self) -> (r: u64)
        requires
            in_bounds(self.position),
            in_bounds(self.start_position),
        ensures
            r == sqrt_floor(dist_sq(self.start_position, self.position)),
            r * r <= dist_sq(self.start_position, self.position) < (r + 1) * (r + 1),
    {
        let sq = dist_sq_val(self.start_position, self.position);
        isqrt(sq)
    }

    /// True when this bullet's position lies strictly within the collision
    /// radius of `target_pos`.
    pub fn check_collision(&self, target_pos: Vec2) -> (r: bool)
        requires
            in_bounds(self.position),
            in_bounds(target_pos),
        ensures
            r == self.collides(target_pos),
    {
        let sq = dist_sq_val(self.position, target_pos);
        sq < COLLISION_RADIUS_SQ as u64
    }
}

/// A bullet whose target coincided with its start has zero velocity: a tick
/// of flight leaves it in place, its traveled distance stays zero, and it
/// stands in collision range of its own position.
pub proof fn lemma_stationary_bullet(b: Bullet)
    requires
        b.position == b.start_position,
        b.velocity == (Vec2 { x: 0, y: 0 }),
    ensures
        b.position.x + b.velocity.x == b.position.x,
        b.position.y + b.velocity.y == b.position.y,
        sqrt_floor(dist_sq(b.start_position, b.position)) == 0,
        b.collides(b.position),
        forall|s: int| #[trigger] aim_velocity(b.start_position, b.position, s) == (Vec2 {
            x: 0,
            y: 0,
        }),
{
    assert((b.position.x - b.start_position.x) * (b.position.x - b.start_position.x) == 0 && (
    b.position.y - b.start_position.y) * (b.position.y - b.start_position.y) == 0)
        by (nonlinear_arith)
        requires
            b.position.x == b.start_position.x,
            b.position.y == b.start_position.y,
    ;
    assert(dist_sq(b.start_position, b.position) == 0);
    lemma_sqrt_floor(0, 0);
}

} // verus!
