use vstd::prelude::*;

use crate::bullet::Bullet;
use crate::geom::{aim_velocity, dist_sq, dist_sq_val, in_bounds, in_limit, Vec2, TOWER_LIMIT};

verus! {

/// Cooldown between shots at creation, in thousandths of a tick: half a
/// time unit at sixty ticks per unit.
pub const COOLDOWN_START: u64 = 30_000;

/// Largest admissible firing range, in pixels; keeps the squared range
/// within the machine word.
pub const RANGE_LIMIT: u32 = 1_000_000;

/// Speed of every fired bullet, in thousandths of a pixel per tick
/// (ten pixels per tick).
pub const BULLET_SPEED: i64 = 10_000;

/// A stationary shooter with two independent upgrade tracks: damage and
/// fire rate. `last_shot` is the timestamp of the most recent successful
/// shot and is meaningful only once `has_shot` holds: a tower that has
/// never fired is never cooling down, so its first shot is free.
#[derive(Clone, Copy, Debug, PartialEq, Eq, Structural)]
pub struct Tower {
    pub damage: u32,
    pub range: u32,
    pub position: Vec2,
    pub shoot_cooldown: u64,
    pub last_shot: u64,
    pub has_shot: bool,
    pub damage_level: u32,
    pub fire_rate_level: u32,
}

/// Still cooling down: the tower has fired before and less than the
/// cooldown has elapsed since that shot (a timestamp before the last shot
/// also counts as such).
pub open spec fn cooling_down(t: Tower, now: u64) -> bool {
    t.has_shot && (now - t.last_shot) * 1000 < t.shoot_cooldown
}

/// The squared firing range, in squared thousandths of a pixel.
pub open spec fn range_sq(range: u32) -> int {
    (range * 1000) * (range * 1000)
}

/// The target stands at most `range` away (a closed boundary).
pub open spec fn in_range(t: Tower, target: Vec2) -> bool {
    dist_sq(t.position, target) <= range_sq(t.range)
}

/// A shot at `target` at time `now` succeeds exactly when the tower is off
/// cooldown and the target is in range.
pub open spec fn can_shoot(t: Tower, target: Vec2, now: u64) -> bool {
    !cooling_down(t, now) && in_range(t, target)
}

/// The bullet a tower fires at `target`.
pub open spec fn fired_bullet(t: Tower, target: Vec2) -> Bullet {
    Bullet {
        position: t.position,
        velocity: aim_velocity(t.position, target, BULLET_SPEED as int),
        damage: t.damage,
        start_position: t.position,
    }
}

/// The damage-upgrade cost: twenty per damage level, saturating at the
/// integer limit.
pub open spec fn spec_damage_upgrade_cost(t: Tower) -> int {
    if 20 * t.damage_level <= u32::MAX {
        20 * t.damage_level
    } else {
        u32::MAX as int
    }
}

/// The fire-rate-upgrade cost: twenty-five per fire-rate level, saturating
/// at the integer limit.
pub open spec fn spec_fire_rate_upgrade_cost(t: Tower) -> int {
    if 25 * t.fire_rate_level <= u32::MAX {
        25 * t.fire_rate_level
    } else {
        u32::MAX as int
    }
}

impl Tower {
    /// The cooldown stays in `(0, COOLDOWN_START]`, the range and position
    /// within machine limits, and both upgrade levels start from one.
    pub open spec fn wf(self) -> bool {
        &&& in_limit(self.position, TOWER_LIMIT)
        &&& 1 <= self.shoot_cooldown <= COOLDOWN_START
        &&& self.range <= RANGE_LIMIT
        &&& 1 <= self.damage_level
        &&& 1 <= self.fire_rate_level
    }

    pub fn new(damage: u32, range: u32, position: Vec2) -> (t: Tower)
        requires
            range <= RANGE_LIMIT,
            in_limit(position, TOWER_LIMIT),
        ensures
            t == (Tower {
                damage,
                range,
                position,
                shoot_cooldown: COOLDOWN_START,
                last_shot: 0,
                has_shot: false,
                damage_level: 1,
                fire_rate_level: 1,
            }),
            t.wf(),
    {
        Tower {
            damage,
            range,
            position,
            shoot_cooldown: COOLDOWN_START,
            last_shot: 0,
            has_shot: false,
            damage_level: 1,
            fire_rate_level: 1,
        }
    }

    /// Raises the damage level by one and the damage by a flat five,
    /// saturating at the integer limit.
    pub fn upgrade_damage(&mut self)
        requires
            old(self).damage_level < u32::MAX,
        ensures
            final(self).damage_level == old(self).damage_level + 1,
            final(self).damage == if old(self).damage + 5 <= u32::MAX {
                (old(self).damage + 5) as u32
            } else {
                u32::MAX
            },
            *final(self) == (Tower {
                damage_level: final(self).damage_level,
                damage: final(self).damage,
                ..*old(self)
            }),
            old(self).wf() ==> final(self).wf(),
    {
        self.damage_level = self.damage_level + 1;
        if self.damage <= u32::MAX - 5 {
            self.damage = self.damage + 5;
        } else {
            self.damage = u32::MAX;
        }
    }

    /// Raises the fire-rate level by one and shrinks the cooldown to four
    /// fifths of its value, never letting it reach zero.
    pub fn upgrade_fire_rate(&mut self)
        requires
            old(self).wf(),
            old(self).fire_rate_level < u32::MAX,
        ensures
            final(self).fire_rate_level == old(self).fire_rate_level + 1,
            final(self).shoot_cooldown == if old(self).shoot_cooldown * 4 / 5 >= 1 {
                old(self).shoot_cooldown * 4 / 5
            } else {
                1int
            },
            *final(self) == (Tower {
                fire_rate_level: final(self).fire_rate_level,
                shoot_cooldown: final(self).shoot_cooldown,
                ..*old(self)
            }),
            final(self).wf(),
    {
        self.fire_rate_level = self.fire_rate_level + 1;
        let reduced = self.shoot_cooldown * 4 / 5;
        self.shoot_cooldown = if reduced >= 1 {
            reduced
        } else {
            1
        };
    }

    pub fn get_damage_upgrade_cost(&self) -> (r: u32)
        ensures
            r == spec_damage_upgrade_cost(*self),
    {
        if self.damage_level <= u32::MAX / 20 {
            20 * self.damage_level
        } else {
            u32::MAX
        }
    }

    pub fn get_fire_rate_upgrade_cost(&self) -> (r: u32)
        ensures
            r == spec_fire_rate_upgrade_cost(*self),
    {
        if self.fire_rate_level <= u32::MAX / 25 {
            25 * self.fire_rate_level
        } else {
            u32::MAX
        }
    }

    pub fn get_damage(&self) -> (r: u32)
        ensures
            r == self.damage,
    {
        self.damage
    }

    pub fn get_range(&self) -> (r: u32)
        ensures
            r == self.range,
    {
        self.range
    }

    pub fn get_position(&self) -> (r: Vec2)
        ensures
            r == self.position,
    {
        self.position
    }

    pub fn get_damage_level(&self) -> (r: u32)
        ensures
            r == self.damage_level,
    {
        self.damage_level
    }

    pub fn get_fire_rate_level(&self) -> (r: u32)
        ensures
            r == self.fire_rate_level,
    {
        self.fire_rate_level
    }

    /// Fires at `target_position` if the cooldown has elapsed (a tower that
    /// has never fired is off cooldown) and the target is in range; only a
    /// successful shot resets the cooldown clock.
    pub fn shoot(&mut self, target_position: Vec2, current_time: u64) -> (r: Option<Bullet>)
        requires
            old(self).wf(),
            in_bounds(target_position),
        ensures
            final(self).wf(),
            r is Some <==> can_shoot(*old(self), target_position, current_time),
            r is Some ==> *final(self) == (Tower {
                last_shot: current_time,
                has_shot: true,
                ..*old(self)
            }),
            r is None ==> *final(self) == *old(self),
            r is Some ==> r->Some_0 == fired_bullet(*old(self), target_position),
            r is Some ==> (r->Some_0).wf() && -BULLET_SPEED <= (r->Some_0).velocity.x
                <= BULLET_SPEED && -BULLET_SPEED <= (r->Some_0).velocity.y <= BULLET_SPEED,
            r is Some ==> dist_sq((r->Some_0).start_position, (r->Some_0).position) == 0,
    {
        if self.has_shot {
            if current_time < self.last_shot {
                return None;
            }
            let diff = current_time - self.last_shot;
            if diff < 30 && diff * 1000 < self.shoot_cooldown {
                return None;
            }
        }
        let sq = dist_sq_val(self.position, target_position);
        let range_milli = (self.range as u64) * 1000;
        proof {
            assert(range_milli * range_milli <= 1_000_000_000 * 1_000_000_000) by (nonlinear_arith)
                requires
                    0 <= range_milli <= 1_000_000_000u64,
            ;
        }
        let range_squared = range_milli * range_milli;
        if sq <= range_squared {
            self.last_shot = current_time;
            self.has_shot = true;
            Some(Bullet::new(self.position, target_position, BULLET_SPEED, self.damage))
        } else {
            None
        }
    }
}

/// A tower that has just fired cannot fire again while its cooldown lasts:
/// at the same timestamp, or after any delay shorter than the cooldown, no
/// bullet is produced at any target.
pub proof fn lemma_cooldown_blocks_second_shot(t: Tower, now: u64, target: Vec2)
    requires
        t.wf(),
        t.has_shot,
        now == t.last_shot || (now - t.last_shot) * 1000 < t.shoot_cooldown,
    ensures
        !can_shoot(t, target, now),
{
}

/// A tower that has never fired is off cooldown at every timestamp: its
/// very first shot is refused only when the target is out of range.
pub proof fn lemma_first_shot_is_free(t: Tower, now: u64, target: Vec2)
    requires
        !t.has_shot,
        in_range(t, target),
    ensures
        can_shoot(t, target, now),
{
}

/// The firing range is a closed boundary: a ready tower may fire at a
/// target standing exactly at range, while any target strictly beyond it is
/// refused.
pub proof fn lemma_range_boundary(t: Tower, now: u64, at_range: Vec2, beyond: Vec2)
    requires
        !cooling_down(t, now),
        dist_sq(t.position, at_range) == range_sq(t.range),
        dist_sq(t.position, beyond) > range_sq(t.range),
    ensures
        can_shoot(t, at_range, now),
        !can_shoot(t, beyond, now),
{
}

/// Each damage upgrade strictly raises the damage-upgrade cost: the cost is
/// twenty times the damage level, so it grows by twenty per upgrade.
pub proof fn lemma_damage_upgrade_cost_increases(before: Tower, after: Tower)
    requires
        after.damage_level == before.damage_level + 1,
        20 * after.damage_level <= u32::MAX,
    ensures
        spec_damage_upgrade_cost(before) == 20 * before.damage_level,
        spec_damage_upgrade_cost(after) == 20 * after.damage_level,
        spec_damage_upgrade_cost(after) == spec_damage_upgrade_cost(before) + 20,
{
}

} // verus!
