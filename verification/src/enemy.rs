use vstd::prelude::*;

use crate::geom::{aim_step, aim_velocity, in_bounds, in_limit, Vec2, MAX_SPEED, TOWER_LIMIT};

verus! {

/// A homing attacker: a point with a health pool that steps straight toward
/// a target each tick.
#[derive(Clone, Copy, Debug, PartialEq, Eq, Structural)]
pub struct Enemy {
    pub health: u32,
    pub max_health: u32,
    pub speed: i64,
    pub position: Vec2,
}

/// Health left after one hit: subtraction saturating at zero.
pub open spec fn damaged(health: u32, amount: u32) -> u32 {
    if amount >= health {
        0u32
    } else {
        (health - amount) as u32
    }
}

/// The enemy after one movement step toward `target`.
pub open spec fn moved_enemy(e: Enemy, target: Vec2) -> Enemy {
    Enemy {
        position: Vec2 {
            x: (e.position.x + aim_velocity(e.position, target, e.speed as int).x) as i64,
            y: (e.position.y + aim_velocity(e.position, target, e.speed as int).y) as i64,
        },
        ..e
    }
}

impl Enemy {
    /// Health never exceeds the starting maximum, speed and position stay
    /// within the field's machine limits.
    pub open spec fn wf(self) -> bool {
        &&& 1 <= self.max_health
        &&& self.health <= self.max_health
        &&& 0 <= self.speed <= MAX_SPEED
        &&& in_bounds(self.position)
    }

    pub fn new(health: u32, speed: i64, position: Vec2) -> (e: Enemy)
        requires
            1 <= health,
            0 <= speed <= MAX_SPEED,
            in_bounds(position),
        ensures
            e == (Enemy { health, max_health: health, speed, position }),
            e.wf(),
    {
        Enemy { health, max_health: health, speed, position }
    }

    /// One movement step: the unit vector toward `target` scaled by `speed`,
    /// or no motion when the enemy already stands on the target.
    pub fn update_position(&mut self, target: Vec2)
        requires
            old(self).wf(),
            in_limit(target, TOWER_LIMIT),
        ensures
            *final(self) == moved_enemy(*old(self), target),
            final(self).wf(),
    {
        let v = aim_step(self.position, target, self.speed);
        self.position = Vec2 { x: self.position.x + v.x, y: self.position.y + v.y };
    }

    /// Saturating damage: health floors at zero and never underflows.
    pub fn take_damage(&mut self, damage: u32)
        ensures
            final(self).health == damaged(old(self).health, damage),
            final(self).health <= old(self).health,
            *final(self) == (Enemy { health: final(self).health, ..*old(self) }),
            old(self).wf() ==> final(self).wf(),
    {
        if damage >= self.health {
            self.health = 0;
        } else {
            self.health = self.health - damage;
        }
    }

    pub fn get_position(&self) -> (r: Vec2)
        ensures
            r == self.position,
    {
        self.position
    }

    pub fn get_health(&self) -> (r: u32)
        ensures
            r == self.health,
    {
        self.health
    }

    pub fn get_max_health(&self) -> (r: u32)
        ensures
            r == self.max_health,
    {
        self.max_health
    }
}

/// Health after a whole sequence of hits, applied in order.
pub open spec fn health_after(health: u32, hits: Seq<u32>) -> u32
    decreases hits.len(),
{
    if hits.len() == 0 {
        health
    } else {
        health_after(damaged(health, hits[0]), hits.subrange(1, hits.len() as int))
    }
}

/// Whatever sequence of damage applications an enemy suffers, its health
/// stays between zero and the value it started from; in particular an enemy
/// that starts well formed never leaves `[0, max_health]`.
pub proof fn lemma_health_stays_bounded(health: u32, hits: Seq<u32>)
    ensures
        0 <= health_after(health, hits) <= health,
    decreases hits.len(),
{
    if hits.len() != 0 {
        lemma_health_stays_bounded(damaged(health, hits[0]), hits.subrange(1, hits.len() as int));
    }
}

} // verus!
