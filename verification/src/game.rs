use vstd::prelude::*;

use crate::bullet::Bullet;
use crate::enemy::{damaged, moved_enemy, Enemy};
use crate::geom::{
    dist_sq, dist_sq_val, in_bounds, in_limit, lemma_component_within_root, sqrt_floor, Vec2,
    CANVAS_HEIGHT, CANVAS_WIDTH, TOWER_LIMIT,
};
use crate::rng::random_u64;
use crate::save_data::SaveData;
use crate::tower::{can_shoot, fired_bullet, Tower, BULLET_SPEED};

verus! {

/// Ticks between two spawn checks: three time units at sixty ticks each.
pub const SPAWN_PERIOD: u64 = 180;

/// Health of a freshly spawned enemy.
pub const SPAWNED_HEALTH: u32 = 100;

/// Speed of a freshly spawned enemy, in thousandths of a pixel per tick
/// (two pixels per tick).
pub const SPAWNED_SPEED: i64 = 2_000;

/// Farthest a bullet may travel before it expires, in thousandths of a
/// pixel (five hundred pixels).
pub const BULLET_MAX_TRAVEL: u64 = 500_000;

/// Score awarded per kill.
pub const KILL_SCORE: u32 = 10;

/// Currency awarded per kill.
pub const KILL_REWARD: u32 = 5;

/// A bullet the game is willing to keep: well formed, no faster than a
/// fired bullet, and within its travel allowance of its origin — its
/// Euclidean traveled distance, rounded down, is at most the allowance.
pub open spec fn bullet_in_flight(b: Bullet) -> bool {
    &&& b.wf()
    &&& -BULLET_SPEED <= b.velocity.x <= BULLET_SPEED
    &&& -BULLET_SPEED <= b.velocity.y <= BULLET_SPEED
    &&& dist_sq(b.start_position, b.position) < (BULLET_MAX_TRAVEL + 1) * (BULLET_MAX_TRAVEL + 1)
    &&& -(BULLET_MAX_TRAVEL as int) <= b.position.x - b.start_position.x <= BULLET_MAX_TRAVEL
    &&& -(BULLET_MAX_TRAVEL as int) <= b.position.y - b.start_position.y <= BULLET_MAX_TRAVEL
}

/// The enemy a spawn tick creates from the two random draws.
pub open spec fn spawned_enemy(r_edge: u64, r_pos: u64) -> Enemy {
    Enemy {
        health: SPAWNED_HEALTH,
        max_health: SPAWNED_HEALTH,
        speed: SPAWNED_SPEED,
        position: spec_spawn_point(r_edge, r_pos),
    }
}

/// The enemy roster after the spawn check at tick `time`: on a spawn tick
/// exactly one new enemy is appended, otherwise the roster is unchanged.
pub open spec fn spawned_enemies(enemies: Seq<Enemy>, time: u64, r_edge: u64, r_pos: u64) -> Seq<
    Enemy,
> {
    if time % SPAWN_PERIOD == 0 {
        enemies.push(spawned_enemy(r_edge, r_pos))
    } else {
        enemies
    }
}

/// Every enemy stepped once toward `target`, in place.
pub open spec fn moved_all(enemies: Seq<Enemy>, target: Vec2) -> Seq<Enemy> {
    Seq::new(enemies.len(), |i: int| moved_enemy(enemies[i], target))
}

/// A bullet one tick further along its fixed velocity.
pub open spec fn advanced_bullet(b: Bullet) -> Bullet {
    Bullet {
        position: Vec2 {
            x: (b.position.x + b.velocity.x) as i64,
            y: (b.position.y + b.velocity.y) as i64,
        },
        ..b
    }
}

/// An advanced bullet past its travel allowance, due for removal.
pub open spec fn bullet_expired(b: Bullet) -> bool {
    sqrt_floor(dist_sq(b.start_position, b.position)) > BULLET_MAX_TRAVEL
}

/// Index of the first enemy at or after `j` that `b` collides with.
pub open spec fn first_hit_from(b: Bullet, enemies: Seq<Enemy>, j: int) -> Option<int>
    decreases enemies.len() - j,
{
    if j < 0 || j >= enemies.len() {
        None
    } else if b.collides(enemies[j].position) {
        Some(j)
    } else {
        first_hit_from(b, enemies, j + 1)
    }
}

/// One bullet resolved against the collision state (kept bullets, the
/// roster, the kill marks, the kills awarded): the bullet advances once;
/// expired it vanishes; colliding it spends itself on the first enemy in
/// storage order within range, whose health drops by exactly the bullet's
/// damage, saturating at zero; a hit that brings a living enemy to zero
/// health marks it and awards one kill — a further hit on an enemy already
/// at zero awards nothing, so each kill is counted once; a bullet that
/// touches nothing is kept.
pub open spec fn bullet_step(
    b: Bullet,
    kept: Seq<Bullet>,
    enemies: Seq<Enemy>,
    dead: Seq<bool>,
    kills: int,
) -> (Seq<Bullet>, Seq<Enemy>, Seq<bool>, int) {
    let adv = advanced_bullet(b);
    if bullet_expired(adv) {
        (kept, enemies, dead, kills)
    } else {
        match first_hit_from(adv, enemies, 0) {
            None => (kept.push(adv), enemies, dead, kills),
            Some(j) => {
                let struck = enemies[j];
                let h = damaged(struck.health, adv.damage);
                let enemies2 = enemies.update(j, Enemy { health: h, ..struck });
                if h == 0 && struck.health > 0 {
                    (kept, enemies2, dead.update(j, true), kills + 1)
                } else {
                    (kept, enemies2, dead, kills)
                }
            },
        }
    }
}

/// `bullet_step` folded over the bullets from index `i` on, in creation
/// order.
pub open spec fn bullets_pass(
    bullets: Seq<Bullet>,
    i: int,
    kept: Seq<Bullet>,
    enemies: Seq<Enemy>,
    dead: Seq<bool>,
    kills: int,
) -> (Seq<Bullet>, Seq<Enemy>, Seq<bool>, int)
    decreases bullets.len() - i,
{
    if i < 0 || i >= bullets.len() {
        (kept, enemies, dead, kills)
    } else {
        let s = bullet_step(bullets[i], kept, enemies, dead, kills);
        bullets_pass(bullets, i + 1, s.0, s.1, s.2, s.3)
    }
}

/// The enemies among the first `r` not marked dead, in storage order.
pub open spec fn alive_prefix(enemies: Seq<Enemy>, dead: Seq<bool>, r: int) -> Seq<Enemy>
    decreases r,
{
    if r <= 0 {
        Seq::empty()
    } else if 0 <= r - 1 < dead.len() && dead[r - 1] {
        alive_prefix(enemies, dead, r - 1)
    } else {
        alive_prefix(enemies, dead, r - 1).push(enemies[r - 1])
    }
}

/// The bullet phase of one tick: the kept bullets, the surviving enemies
/// (marked ones removed, order kept), and the kills awarded.
pub open spec fn collisions_spec(bullets: Seq<Bullet>, enemies: Seq<Enemy>) -> (
    Seq<Bullet>,
    Seq<Enemy>,
    int,
) {
    let s = bullets_pass(
        bullets,
        0,
        Seq::empty(),
        enemies,
        Seq::new(enemies.len(), |i: int| false),
        0,
    );
    (s.0, alive_prefix(s.1, s.2, s.1.len() as int), s.3)
}

/// The value a 32-bit counter takes for a mathematical sum: the sum, or
/// the integer limit when it does not fit.
pub open spec fn sat32(x: int) -> int {
    if x <= u32::MAX {
        x
    } else {
        u32::MAX as int
    }
}

/// `ni` is the first nearest enemy to `from`: no enemy is strictly closer,
/// and every earlier one is strictly farther.
pub open spec fn is_first_nearest(enemies: Seq<Enemy>, from: Vec2, ni: int) -> bool {
    &&& 0 <= ni < enemies.len()
    &&& forall|j: int|
        0 <= j < enemies.len() ==> dist_sq(from, (#[trigger] enemies[j]).position) >= dist_sq(
            from,
            enemies[ni].position,
        )
    &&& forall|j: int|
        0 <= j < ni ==> dist_sq(from, (#[trigger] enemies[j]).position) > dist_sq(
            from,
            enemies[ni].position,
        )
}

/// The whole tick as a relation between pre- and post-states, given the
/// two random draws of the spawn check (immaterial on a non-spawn tick):
/// the clock advances one tick; the spawn check runs; every enemy steps
/// toward the tower; the bullet phase resolves; ten score and five
/// currency per kill are awarded, saturating, and mirrored into the
/// snapshot together with the high score; then the tower fires at the
/// first nearest surviving enemy exactly when it can, appending the bullet.
pub open spec fn tick_rel(
    pre: Game,
    pre_tower: Tower,
    post: Game,
    post_tower: Tower,
    saved: bool,
    r_edge: u64,
    r_pos: u64,
) -> bool {
    let now = (pre.time + 1) as u64;
    let roster = moved_all(spawned_enemies(pre.enemies@, now, r_edge, r_pos), pre_tower.position);
    let s = collisions_spec(pre.bullets@, roster);
    let kept = s.0;
    let survivors = s.1;
    let kills = s.2;
    &&& post.time == now
    &&& post.enemies@ == survivors
    &&& post.score == sat32(pre.score + KILL_SCORE * kills)
    &&& post.currency == sat32(pre.currency + KILL_REWARD * kills)
    &&& saved == (kills > 0)
    &&& post.save_data == (if kills > 0 {
        SaveData {
            satoshis: post.currency,
            high_score: (if post.score > pre.save_data.high_score {
                post.score
            } else {
                pre.save_data.high_score
            }),
            ..pre.save_data
        }
    } else {
        pre.save_data
    })
    &&& (if survivors.len() == 0 {
        post.bullets@ == kept && post_tower == pre_tower
    } else {
        exists|ni: int|
            #[trigger] is_first_nearest(survivors, pre_tower.position, ni) && (if can_shoot(
                pre_tower,
                survivors[ni].position,
                now,
            ) {
                post.bullets@ == kept.push(fired_bullet(pre_tower, survivors[ni].position))
                    && post_tower == (Tower { last_shot: now, has_shot: true, ..pre_tower })
            } else {
                post.bullets@ == kept && post_tower == pre_tower
            })
    })
}

/// The spawn point two random draws pick: the first draw chooses one of
/// the four screen edges, the second the position along that edge.
pub open spec fn spec_spawn_point(r_edge: u64, r_pos: u64) -> Vec2 {
    if r_edge % 4 == 0 {
        Vec2 { x: 0, y: (r_pos % (CANVAS_HEIGHT as u64)) as i64 }
    } else if r_edge % 4 == 1 {
        Vec2 { x: CANVAS_WIDTH, y: (r_pos % (CANVAS_HEIGHT as u64)) as i64 }
    } else if r_edge % 4 == 2 {
        Vec2 { x: (r_pos % (CANVAS_WIDTH as u64)) as i64, y: 0 }
    } else {
        Vec2 { x: (r_pos % (CANVAS_WIDTH as u64)) as i64, y: CANVAS_HEIGHT }
    }
}

pub fn spawn_point(r_edge: u64, r_pos: u64) -> (p: Vec2)
    ensures
        p == spec_spawn_point(r_edge, r_pos),
        0 <= p.x <= CANVAS_WIDTH,
        0 <= p.y <= CANVAS_HEIGHT,
        in_bounds(p),
{
    let edge = r_edge % 4;
    if edge == 0 {
        Vec2 { x: 0, y: (r_pos % (CANVAS_HEIGHT as u64)) as i64 }
    } else if edge == 1 {
        Vec2 { x: CANVAS_WIDTH, y: (r_pos % (CANVAS_HEIGHT as u64)) as i64 }
    } else if edge == 2 {
        Vec2 { x: (r_pos % (CANVAS_WIDTH as u64)) as i64, y: 0 }
    } else {
        Vec2 { x: (r_pos % (CANVAS_WIDTH as u64)) as i64, y: CANVAS_HEIGHT }
    }
}

/// Adds `per` points for each of `count` events, saturating at the integer
/// limit.
fn saturating_scaled_add(base: u32, per: u32, count: u64) -> (r: u32)
    ensures
        r == if base + per * count <= u32::MAX {
            (base + per * count) as u32
        } else {
            u32::MAX
        },
        r >= base,
{
    proof {
        assert(0 <= per * count && per * count <= 0xFFFF_FFFFu64 * 0xFFFF_FFFF_FFFF_FFFFu64)
            by (nonlinear_arith)
            requires
                0 <= per <= 0xFFFF_FFFFu32,
                0 <= count <= 0xFFFF_FFFF_FFFF_FFFFu64,
        ;
    }
    let total = base as u128 + (per as u128) * (count as u128);
    if total > u32::MAX as u128 {
        u32::MAX
    } else {
        total as u32
    }
}

/// Moves every enemy one step toward `target`, in place.
fn move_enemies(enemies: &mut Vec<Enemy>, target: Vec2)
    requires
        forall|i: int| 0 <= i < old(enemies)@.len() ==> (#[trigger] old(enemies)@[i]).wf(),
        in_limit(target, TOWER_LIMIT),
    ensures
        final(enemies)@.len() == old(enemies)@.len(),
        forall|i: int|
            0 <= i < old(enemies)@.len() ==> final(enemies)@[i] == moved_enemy(
                #[trigger] old(enemies)@[i],
                target,
            ),
        forall|i: int| 0 <= i < final(enemies)@.len() ==> (#[trigger] final(enemies)@[i]).wf(),
{
    let n = enemies.len();
    let mut i: usize = 0;
    while i < n
        invariant
            n == enemies@.len(),
            enemies@.len() == old(enemies)@.len(),
            i <= n,
            in_limit(target, TOWER_LIMIT),
            forall|j: int| 0 <= j < old(enemies)@.len() ==> (#[trigger] old(enemies)@[j]).wf(),
            forall|j: int| i <= j < n ==> enemies@[j] == old(enemies)@[j],
            forall|j: int|
                0 <= j < i ==> enemies@[j] == moved_enemy(#[trigger] old(enemies)@[j], target),
            forall|j: int| 0 <= j < i ==> (#[trigger] enemies@[j]).wf(),
        decreases n - i,
    {
        let mut e = enemies[i];
        e.update_position(target);
        enemies.set(i, e);
        i = i + 1;
    }
}

/// Advances every bullet one tick and resolves collisions: a bullet past
/// its travel allowance expires; otherwise it damages the first enemy it
/// touches and is spent. Every hit that drops a living enemy to zero
/// health counts one kill — each killed enemy once — and the enemies so
/// marked are removed at the end, in a way that disturbs no other index.
fn resolve_collisions(bullets: &mut Vec<Bullet>, enemies: &mut Vec<Enemy>) -> (kills: u64)
    requires
        forall|i: int|
            0 <= i < old(bullets)@.len() ==> bullet_in_flight(#[trigger] old(bullets)@[i]),
        forall|i: int| 0 <= i < old(enemies)@.len() ==> (#[trigger] old(enemies)@[i]).wf(),
    ensures
        final(bullets)@ == collisions_spec(old(bullets)@, old(enemies)@).0,
        final(enemies)@ == collisions_spec(old(bullets)@, old(enemies)@).1,
        kills as int == collisions_spec(old(bullets)@, old(enemies)@).2,
        forall|i: int|
            0 <= i < final(bullets)@.len() ==> bullet_in_flight(#[trigger] final(bullets)@[i]),
        forall|i: int| 0 <= i < final(enemies)@.len() ==> (#[trigger] final(enemies)@[i]).wf(),
        final(bullets)@.len() <= old(bullets)@.len(),
        final(enemies)@.len() <= old(enemies)@.len(),
        kills <= old(bullets)@.len(),
        kills == 0 ==> final(enemies)@.len() == old(enemies)@.len(),
{
    let elen = enemies.len();
    let mut dead: Vec<bool> = Vec::new();
    let mut k: usize = 0;
    while k < elen
        invariant
            dead@.len() == k,
            k <= elen,
            forall|i: int| 0 <= i < k ==> !(#[trigger] dead@[i]),
        decreases elen - k,
    {
        dead.push(false);
        k = k + 1;
    }
    proof {
        assert(dead@ =~= Seq::new(old(enemies)@.len(), |i: int| false));
    }

    let ghost bullets0 = bullets@;
    let ghost enemies0 = enemies@;
    let ghost dead0 = dead@;
    let blen = bullets.len();
    let mut kept: Vec<Bullet> = Vec::new();
    let mut kills: u64 = 0;
    let mut bi: usize = 0;
    while bi < blen
        invariant
            blen == bullets@.len(),
            bullets@ == bullets0,
            enemies@.len() == elen,
            dead@.len() == elen,
            bi <= blen,
            kills <= bi,
            kept@.len() <= bi,
            forall|i: int| 0 <= i < blen ==> bullet_in_flight(#[trigger] bullets@[i]),
            forall|i: int| 0 <= i < elen ==> (#[trigger] enemies@[i]).wf(),
            forall|i: int| 0 <= i < kept@.len() ==> bullet_in_flight(#[trigger] kept@[i]),
            kills == 0 ==> forall|i: int| 0 <= i < elen ==> !(#[trigger] dead@[i]),
            bullets_pass(bullets0, bi as int, kept@, enemies@, dead@, kills as int)
                == bullets_pass(bullets0, 0, Seq::empty(), enemies0, dead0, 0),
        decreases blen - bi,
    {
        let ghost kept_e = kept@;
        let ghost enemies_e = enemies@;
        let ghost dead_e = dead@;
        let ghost kills_e = kills as int;
        let mut b = bullets[bi];
        b.update();
        proof {
            assert(b == advanced_bullet(bullets0[bi as int]));
        }
        let traveled = b.get_distance_traveled();
        if traveled <= BULLET_MAX_TRAVEL {
            proof {
                let dx = b.position.x - b.start_position.x;
                let dy = b.position.y - b.start_position.y;
                assert(dx * dx <= dx * dx + dy * dy && dy * dy <= dx * dx + dy * dy)
                    by (nonlinear_arith);
                lemma_component_within_root(
                    dist_sq(b.start_position, b.position),
                    traveled as int,
                    dx,
                );
                lemma_component_within_root(
                    dist_sq(b.start_position, b.position),
                    traveled as int,
                    dy,
                );
                assert((traveled + 1) * (traveled + 1) <= (BULLET_MAX_TRAVEL + 1) * (
                BULLET_MAX_TRAVEL + 1)) by (nonlinear_arith)
                    requires
                        0 <= traveled + 1 <= BULLET_MAX_TRAVEL + 1,
                ;
            }
            let ghost kills0 = kills;
            let ghost mut hit_j: int = 0;
            let mut hit = false;
            let mut j: usize = 0;
            while j < elen && !hit
                invariant
                    elen == enemies@.len(),
                    dead@.len() == elen,
                    j <= elen,
                    in_bounds(b.position),
                    forall|i: int| 0 <= i < elen ==> (#[trigger] enemies@[i]).wf(),
                    kills0 < u64::MAX,
                    kills0 == kills_e,
                    !hit ==> kills == kills0,
                    hit ==> kills0 <= kills <= kills0 + 1,
                    kills == 0 ==> forall|i: int| 0 <= i < elen ==> !(#[trigger] dead@[i]),
                    !hit ==> enemies@ == enemies_e && dead@ == dead_e && kills as int == kills_e,
                    !hit ==> first_hit_from(b, enemies_e, 0) == first_hit_from(
                        b,
                        enemies_e,
                        j as int,
                    ),
                    hit ==> {
                        &&& 0 <= hit_j < elen
                        &&& first_hit_from(b, enemies_e, 0) == Some(hit_j)
                        &&& enemies@ == enemies_e.update(
                            hit_j,
                            Enemy {
                                health: damaged(enemies_e[hit_j].health, b.damage),
                                ..enemies_e[hit_j]
                            },
                        )
                        &&& (if damaged(enemies_e[hit_j].health, b.damage) == 0
                            && enemies_e[hit_j].health > 0 {
                            dead@ == dead_e.update(hit_j, true) && kills as int == kills_e + 1
                        } else {
                            dead@ == dead_e && kills as int == kills_e
                        })
                    },
                decreases elen - j,
            {
                if b.check_collision(enemies[j].get_position()) {
                    let mut e = enemies[j];
                    let was_alive = e.get_health() > 0;
                    e.take_damage(b.get_damage());
                    enemies.set(j, e);
                    hit = true;
                    proof {
                        hit_j = j as int;
                    }
                    if was_alive && e.get_health() == 0 {
                        dead.set(j, true);
                        kills = kills + 1;
                    }
                } else {
                    proof {
                        assert(first_hit_from(b, enemies_e, j as int) == first_hit_from(
                            b,
                            enemies_e,
                            j as int + 1,
                        ));
                    }
                }
                j = j + 1;
            }
            if !hit {
                proof {
                    assert(first_hit_from(b, enemies_e, elen as int) is None);
                }
                kept.push(b);
            }
        }
        proof {
            let stepped = bullet_step(bullets0[bi as int], kept_e, enemies_e, dead_e, kills_e);
            assert(kept@ == stepped.0 && enemies@ == stepped.1 && dead@ == stepped.2 && kills as int
                == stepped.3);
            assert(bullets_pass(bullets0, bi as int, kept_e, enemies_e, dead_e, kills_e)
                == bullets_pass(bullets0, bi as int + 1, kept@, enemies@, dead@, kills as int));
        }
        bi = bi + 1;
    }
    *bullets = kept;

    let ghost pass = bullets_pass(bullets0, 0, Seq::empty(), enemies0, dead0, 0);
    proof {
        assert(pass == (bullets@, enemies@, dead@, kills as int));
    }
    let mut kept_enemies: Vec<Enemy> = Vec::new();
    let mut r: usize = 0;
    while r < elen
        invariant
            elen == enemies@.len(),
            dead@.len() == elen,
            r <= elen,
            kept_enemies@.len() <= r,
            forall|i: int| 0 <= i < elen ==> (#[trigger] enemies@[i]).wf(),
            forall|i: int| 0 <= i < kept_enemies@.len() ==> (#[trigger] kept_enemies@[i]).wf(),
            (forall|i: int| 0 <= i < elen ==> !(#[trigger] dead@[i])) ==> kept_enemies@.len() == r,
            kept_enemies@ == alive_prefix(enemies@, dead@, r as int),
        decreases elen - r,
    {
        if !dead[r] {
            kept_enemies.push(enemies[r]);
        }
        r = r + 1;
    }
    *enemies = kept_enemies;
    kills
}

/// Index of the enemy nearest the tower; on equal distances the earliest
/// one in storage order wins.
fn find_nearest(enemies: &Vec<Enemy>, tower_pos: Vec2) -> (r: Option<usize>)
    requires
        forall|i: int| 0 <= i < enemies@.len() ==> (#[trigger] enemies@[i]).wf(),
        in_limit(tower_pos, TOWER_LIMIT),
    ensures
        r is None <==> enemies@.len() == 0,
        r is Some ==> 0 <= r->Some_0 < enemies@.len(),
        r is Some ==> forall|j: int|
            0 <= j < enemies@.len() ==> dist_sq(tower_pos, (#[trigger] enemies@[j]).position)
                >= dist_sq(tower_pos, enemies@[r->Some_0 as int].position),
        r is Some ==> forall|j: int|
            0 <= j < r->Some_0 ==> dist_sq(tower_pos, (#[trigger] enemies@[j]).position) > dist_sq(
                tower_pos,
                enemies@[r->Some_0 as int].position,
            ),
{
    if enemies.len() == 0 {
        return None;
    }
    let mut best: usize = 0;
    let mut best_d = dist_sq_val(tower_pos, enemies[0].get_position());
    let mut j: usize = 1;
    while j < enemies.len()
        invariant
            0 < enemies@.len(),
            j <= enemies@.len(),
            best < j,
            in_limit(tower_pos, TOWER_LIMIT),
            forall|i: int| 0 <= i < enemies@.len() ==> (#[trigger] enemies@[i]).wf(),
            best_d == dist_sq(tower_pos, enemies@[best as int].position),
            forall|i: int|
                0 <= i < j ==> dist_sq(tower_pos, (#[trigger] enemies@[i]).position) >= best_d,
            forall|i: int|
                0 <= i < best ==> dist_sq(tower_pos, (#[trigger] enemies@[i]).position) > best_d,
        decreases enemies@.len() - j,
    {
        let d = dist_sq_val(tower_pos, enemies[j].get_position());
        if d < best_d {
            best = j;
            best_d = d;
        }
        j = j + 1;
    }
    Some(best)
}

/// The running simulation: every enemy and bullet, the economy counters,
/// the tick clock and the persistence snapshot.
#[derive(Debug)]
pub struct Game {
    pub enemies: Vec<Enemy>,
    pub bullets: Vec<Bullet>,
    pub score: u32,
    pub currency: u32,
    pub save_data: SaveData,
    pub time: u64,
}

impl Game {
    /// Every owned enemy and bullet is well formed.
    pub open spec fn wf(self) -> bool {
        &&& forall|i: int| 0 <= i < self.enemies@.len() ==> (#[trigger] self.enemies@[i]).wf()
        &&& forall|i: int|
            0 <= i < self.bullets@.len() ==> bullet_in_flight(#[trigger] self.bullets@[i])
    }

    /// A fresh game over a previously loaded snapshot; the snapshot's
    /// currency is carried into play.
    pub fn new(save_data: SaveData) -> (g: Game)
        ensures
            g.enemies@.len() == 0,
            g.bullets@.len() == 0,
            g.score == 0,
            g.currency == save_data.satoshis,
            g.save_data == save_data,
            g.time == 0,
            g.wf(),
    {
        Game {
            enemies: Vec::new(),
            bullets: Vec::new(),
            score: 0,
            currency: save_data.satoshis,
            save_data,
            time: 0,
        }
    }

    pub fn add_enemy(&mut self, enemy: Enemy)
        requires
            enemy.wf(),
        ensures
            final(self).enemies@ == old(self).enemies@.push(enemy),
            *final(self) == (Game { enemies: final(self).enemies, ..*old(self) }),
            old(self).wf() ==> final(self).wf(),
    {
        self.enemies.push(enemy);
    }

    pub fn get_enemies(&self) -> (r: &Vec<Enemy>)
        ensures
            r@ == self.enemies@,
    {
        &self.enemies
    }

    pub fn get_bullets(&self) -> (r: &Vec<Bullet>)
        ensures
            r@ == self.bullets@,
    {
        &self.bullets
    }

    pub fn get_score(&self) -> (r: u32)
        ensures
            r == self.score,
    {
        self.score
    }

    pub fn get_currency(&self) -> (r: u32)
        ensures
            r == self.currency,
    {
        self.currency
    }

    pub fn get_high_score(&self) -> (r: u32)
        ensures
            r == self.save_data.high_score,
    {
        self.save_data.high_score
    }

    /// The simulation clock, in ticks of one sixtieth of a time unit.
    pub fn get_time(&self) -> (r: u64)
        ensures
            r == self.time,
    {
        self.time
    }

    /// Adds to the score, saturating at the integer limit.
    pub fn increment_score(&mut self, points: u32)
        ensures
            final(self).score == if old(self).score + points <= u32::MAX {
                (old(self).score + points) as u32
            } else {
                u32::MAX
            },
            final(self).score >= old(self).score,
            *final(self) == (Game { score: final(self).score, ..*old(self) }),
    {
        if self.score <= u32::MAX - points {
            self.score = self.score + points;
        } else {
            self.score = u32::MAX;
        }
    }

    /// One fixed tick: the clock advances; every spawn period an enemy
    /// enters at a random screen edge; enemies home in on the tower;
    /// bullets fly, expire or strike; kills are awarded and mirrored into
    /// the snapshot; the tower fires at the nearest surviving enemy.
    /// Returns whether the snapshot changed and should be persisted.
    pub fn update(&mut self, tower: &mut Tower) -> (saved: bool)
        requires
            old(self).wf(),
            old(tower).wf(),
            old(self).time < u64::MAX,
        ensures
            final(self).wf(),
            final(tower).wf(),
            final(self).time == old(self).time + 1,
            final(self).score >= old(self).score,
            final(self).currency >= old(self).currency,
            final(self).save_data.damage_level == old(self).save_data.damage_level,
            final(self).save_data.fire_rate_level == old(self).save_data.fire_rate_level,
            saved ==> final(self).score > old(self).score || final(self).score == u32::MAX,
            saved ==> final(self).currency > old(self).currency || final(self).currency
                == u32::MAX,
            saved ==> final(self).save_data.satoshis == final(self).currency,
            saved ==> final(self).save_data.high_score == (if final(self).score > old(
                self,
            ).save_data.high_score {
                final(self).score
            } else {
                old(self).save_data.high_score
            }),
            !saved ==> final(self).save_data == old(self).save_data && final(self).score == old(
                self,
            ).score && final(self).currency == old(self).currency,
            *final(tower) == (Tower {
                last_shot: final(tower).last_shot,
                has_shot: final(tower).has_shot,
                ..*old(tower)
            }),
            final(tower).last_shot == old(tower).last_shot || final(tower).last_shot == old(
                self,
            ).time + 1,
            final(self).enemies@.len() <= old(self).enemies@.len() + 1,
            final(self).bullets@.len() <= old(self).bullets@.len() + 1,
            (old(self).time + 1) % (SPAWN_PERIOD as int) != 0 ==> final(self).enemies@.len() <= old(
                self,
            ).enemies@.len(),
            exists|r_edge: u64, r_pos: u64|
                #[trigger] tick_rel(
                    *old(self),
                    *old(tower),
                    *final(self),
                    *final(tower),
                    saved,
                    r_edge,
                    r_pos,
                ),
    {
        self.time = self.time + 1;

        let ghost mut re_g: u64 = 0;
        let ghost mut rp_g: u64 = 0;
        if self.time % SPAWN_PERIOD == 0 {
            let r_edge = random_u64();
            let r_pos = random_u64();
            proof {
                re_g = r_edge;
                rp_g = r_pos;
            }
            let p = spawn_point(r_edge, r_pos);
            let e = Enemy::new(SPAWNED_HEALTH, SPAWNED_SPEED, p);
            self.enemies.push(e);
        }
        let ghost after_spawn = spawned_enemies(old(self).enemies@, self.time, re_g, rp_g);
        proof {
            assert(self.enemies@ == after_spawn);
        }

        let tower_pos = tower.get_position();
        move_enemies(&mut self.enemies, tower_pos);
        let ghost roster = moved_all(after_spawn, old(tower).position);
        proof {
            assert forall|i: int| 0 <= i < self.enemies@.len() implies self.enemies@[i]
                == roster[i] by {
                assert(self.enemies@[i] == moved_enemy(after_spawn[i], tower_pos));
            }
            assert(self.enemies@ =~= roster);
        }

        let kills = resolve_collisions(&mut self.bullets, &mut self.enemies);
        let ghost cs = collisions_spec(old(self).bullets@, roster);
        proof {
            assert(self.bullets@ == cs.0 && self.enemies@ == cs.1 && kills as int == cs.2);
        }
        let mut saved = false;
        if kills > 0 {
            self.score = saturating_scaled_add(self.score, KILL_SCORE, kills);
            self.currency = saturating_scaled_add(self.currency, KILL_REWARD, kills);
            self.save_data.satoshis = self.currency;
            if self.score > self.save_data.high_score {
                self.save_data.high_score = self.score;
            }
            saved = true;
        }
        proof {
            assert(self.score == sat32(old(self).score + KILL_SCORE * cs.2));
            assert(self.currency == sat32(old(self).currency + KILL_REWARD * cs.2));
        }

        let nearest = find_nearest(&self.enemies, tower_pos);
        match nearest {
            Some(i) => {
                proof {
                    assert(is_first_nearest(cs.1, old(tower).position, i as int));
                }
                let target = self.enemies[i].get_position();
                match tower.shoot(target, self.time) {
                    Some(b) => {
                        proof {
                            assert(0int < 500_001 * 500_001) by (nonlinear_arith);
                        }
                        self.bullets.push(b);
                    },
                    None => {},
                }
            },
            None => {},
        }
        proof {
            assert(tick_rel(*old(self), *old(tower), *self, *tower, saved, re_g, rp_g));
        }
        saved
    }

    /// Buys a damage upgrade when the currency covers its cost; otherwise
    /// nothing changes. A purchase mirrors the new level and currency into
    /// the snapshot. Returns whether a purchase was made (and the snapshot
    /// should be persisted).
    pub fn try_upgrade_tower_damage(&mut self, tower: &mut Tower) -> (upgraded: bool)
        requires
            old(tower).wf(),
        ensures
            final(tower).wf(),
            upgraded <==> old(self).currency >= 20 * old(tower).damage_level,
            upgraded ==> final(self).currency == old(self).currency - 20 * old(
                tower,
            ).damage_level,
            upgraded ==> final(tower).damage_level == old(tower).damage_level + 1,
            upgraded ==> final(tower).damage == (if old(tower).damage + 5 <= u32::MAX {
                (old(tower).damage + 5) as u32
            } else {
                u32::MAX
            }),
            upgraded ==> *final(tower) == (Tower {
                damage_level: final(tower).damage_level,
                damage: final(tower).damage,
                ..*old(tower)
            }),
            upgraded ==> final(self).save_data == (SaveData {
                satoshis: final(self).currency,
                damage_level: final(tower).damage_level,
                ..old(self).save_data
            }),
            upgraded ==> *final(self) == (Game {
                currency: final(self).currency,
                save_data: final(self).save_data,
                ..*old(self)
            }),
            !upgraded ==> *final(self) == *old(self) && *final(tower) == *old(tower),
            old(self).wf() ==> final(self).wf(),
    {
        let cost = 20u64 * (tower.get_damage_level() as u64);
        if (self.currency as u64) >= cost {
            self.currency = self.currency - (cost as u32);
            tower.upgrade_damage();
            self.save_data.satoshis = self.currency;
            self.save_data.damage_level = tower.get_damage_level();
            true
        } else {
            false
        }
    }

    /// Buys a fire-rate upgrade when the currency covers its cost;
    /// otherwise nothing changes. A purchase mirrors the new level and
    /// currency into the snapshot. Returns whether a purchase was made.
    pub fn try_upgrade_tower_fire_rate(&mut self, tower: &mut Tower) -> (upgraded: bool)
        requires
            old(tower).wf(),
        ensures
            final(tower).wf(),
            upgraded <==> old(self).currency >= 25 * old(tower).fire_rate_level,
            upgraded ==> final(self).currency == old(self).currency - 25 * old(
                tower,
            ).fire_rate_level,
            upgraded ==> final(tower).fire_rate_level == old(tower).fire_rate_level + 1,
            upgraded ==> final(tower).shoot_cooldown == (if old(tower).shoot_cooldown * 4 / 5 >= 1 {
                old(tower).shoot_cooldown * 4 / 5
            } else {
                1int
            }),
            upgraded ==> *final(tower) == (Tower {
                fire_rate_level: final(tower).fire_rate_level,
                shoot_cooldown: final(tower).shoot_cooldown,
                ..*old(tower)
            }),
            upgraded ==> final(self).save_data == (SaveData {
                satoshis: final(self).currency,
                fire_rate_level: final(tower).fire_rate_level,
                ..old(self).save_data
            }),
            upgraded ==> *final(self) == (Game {
                currency: final(self).currency,
                save_data: final(self).save_data,
                ..*old(self)
            }),
            !upgraded ==> *final(self) == *old(self) && *final(tower) == *old(tower),
            old(self).wf() ==> final(self).wf(),
    {
        let cost = 25u64 * (tower.get_fire_rate_level() as u64);
        if (self.currency as u64) >= cost {
            self.currency = self.currency - (cost as u32);
            tower.upgrade_fire_rate();
            self.save_data.satoshis = self.currency;
            self.save_data.fire_rate_level = tower.get_fire_rate_level();
            true
        } else {
            false
        }
    }
}

} // verus!
