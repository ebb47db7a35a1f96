//! The weapon subsystem: cadences, damage models, projectile contact rules
//! and the per-kind fire patterns.

use vstd::prelude::*;
use crate::geom::{Vec2I, in_range, dist2, spec_segment_hits_circle, segment_hits_circle, dist_milli,
    MILLI, spec_floor_sqrt};
use crate::entity::{Entity, Variant, Weapon, WeaponKind, ParticleColor, HEALTH_SCALE, vadd,
    vec_cadd, clamp_coord, clamp_health, cadd, wf_entity};
use crate::store::Deferred;
use crate::rng::rand_in;

verus! {

/// Ticks a weapon's cooldown counter must exceed before it may fire again.
pub open spec fn spec_cooldown_threshold(k: WeaponKind) -> u32 {
    match k {
        WeaponKind::Knife(_) => 10,
        WeaponKind::Sniper => 30,
        WeaponKind::Gunner => 10,
        WeaponKind::Shotgun => 30,
        WeaponKind::Sprayer => 3,
        WeaponKind::Grenade => 70,
    }
}

pub fn cooldown_threshold(k: WeaponKind) -> (t: u32)
    ensures
        t == spec_cooldown_threshold(k),
{
    match k {
        WeaponKind::Knife(_) => 10,
        WeaponKind::Sniper => 30,
        WeaponKind::Gunner => 10,
        WeaponKind::Shotgun => 30,
        WeaponKind::Sprayer => 3,
        WeaponKind::Grenade => 70,
    }
}

/// Proximity radius of projectile contact, in sub-units (60 world units).
pub const CONTACT_RADIUS: i64 = 60_000;

/// Blast radius of a grenade, in sub-units (300 world units).
pub const BLAST_RADIUS: i64 = 300_000;

/// Age at which a grenade detonates.
pub const GRENADE_FUSE: u32 = 80;

/// Age at which a knife slash fades away.
pub const KNIFE_LIFE: u32 = 15;

/// Projectiles of the shooting kinds despawn once slower than this (5 units).
pub const PROJECTILE_MIN_SPEED: i64 = 5_000;

/// Flat damage of one bullet of the given kind, in health sub-units.
pub open spec fn spec_bullet_damage(k: WeaponKind) -> int {
    match k {
        WeaponKind::Sniper => 25 * HEALTH_SCALE as int,
        WeaponKind::Gunner => 8 * HEALTH_SCALE as int,
        WeaponKind::Shotgun => 3 * HEALTH_SCALE as int,
        WeaponKind::Sprayer => 7 * HEALTH_SCALE as int,
        _ => 0,
    }
}

pub fn bullet_damage(k: WeaponKind) -> (d: i64)
    ensures
        d == spec_bullet_damage(k),
        0 <= d <= 25 * HEALTH_SCALE,
{
    match k {
        WeaponKind::Sniper => 25 * HEALTH_SCALE,
        WeaponKind::Gunner => 8 * HEALTH_SCALE,
        WeaponKind::Shotgun => 3 * HEALTH_SCALE,
        WeaponKind::Sprayer => 7 * HEALTH_SCALE,
        WeaponKind::Knife(_) => 0,
        WeaponKind::Grenade => 0,
    }
}

/// Knife contact damage: 6 health points, falling by one sixtieth of a point
/// per tick of slash age.
pub open spec fn spec_knife_damage(age: u32) -> int {
    6 * HEALTH_SCALE as int - 5 * age as int
}

pub fn knife_damage(age: u32) -> (d: i64)
    ensures
        d == spec_knife_damage(age),
        -30_000_000_000 <= d <= 1800,
{
    6 * HEALTH_SCALE - 5 * (age as i64)
}

/// Knife contact damage starts at 6 health points and is monotonically
/// non-increasing in the age of the slash.
pub proof fn lemma_knife_damage_monotone(a1: u32, a2: u32)
    requires
        a1 <= a2,
    ensures
        spec_knife_damage(0) == 6 * HEALTH_SCALE,
        spec_knife_damage(a2) <= spec_knife_damage(a1),
{
}

/// Blast damage at `d` sub-units from a detonating grenade: 50 health points
/// at the center, falling linearly to nothing at the rim.
pub open spec fn spec_grenade_damage(d: int) -> int {
    50 * HEALTH_SCALE as int - d / 20
}

/// Blast knockback magnitude at `d` sub-units, in velocity sub-units.
pub open spec fn spec_grenade_knock(d: int) -> int {
    (BLAST_RADIUS as int - d) / 6
}

/// Grenade blast profile: full 50 points at the center, monotonically
/// falling with distance, and still positive anywhere strictly inside the
/// rim; outside the radius the blast does not apply at all (see
/// `projectile_contact`).
pub proof fn lemma_grenade_damage_profile(d1: int, d2: int)
    requires
        0 <= d1 <= d2 < BLAST_RADIUS,
    ensures
        spec_grenade_damage(0) == 50 * HEALTH_SCALE,
        spec_grenade_damage(d2) <= spec_grenade_damage(d1),
        spec_grenade_damage(d2) > 0,
{
}


/// The full effect of a detonating grenade at `proj_pos` on a combatant at
/// `target` strictly inside the blast radius: damage by the floor distance,
/// and a push directly away from the blast — none when the distance is
/// zero, there being no direction to push along.
pub open spec fn spec_blast_effect(proj_pos: Vec2I, target: Vec2I) -> ContactOutcome {
    let d = spec_floor_sqrt(dist2(proj_pos, target));
    ContactOutcome::Blast {
        damage: spec_grenade_damage(d) as i64,
        knockback: if d == 0 {
            Vec2I { x: 0, y: 0 }
        } else {
            spec_blast_knock(
                Vec2I { x: (proj_pos.x - target.x) as i64, y: (proj_pos.y - target.y) as i64 },
                d,
            )
        },
    }
}

/// Whether the snapshot entity `proj` makes contact this tick with the
/// combatant at `target`, entity index `target_index`: the spec-level form
/// of the conditions `projectile_contact` decides.
pub open spec fn spec_contact_hits(target_index: usize, target: Vec2I, proj: Entity) -> bool {
    match proj.variant {
        Variant::Projectile { kind, age, owner } => match kind {
            WeaponKind::Knife(_) => owner != Some(target_index) && dist2(proj.position, target)
                < CONTACT_RADIUS * CONTACT_RADIUS,
            WeaponKind::Grenade => age == GRENADE_FUSE && dist2(proj.position, target)
                < BLAST_RADIUS * BLAST_RADIUS,
            _ => {
                let swept_end = vec_cadd(proj.position, proj.velocity);
                owner != Some(target_index) && (dist2(proj.position, target) < CONTACT_RADIUS
                    * CONTACT_RADIUS || (proj.position != swept_end && spec_segment_hits_circle(
                    proj.position,
                    swept_end,
                    CONTACT_RADIUS as int,
                    target,
                )))
            },
        },
        _ => false,
    }
}

/// What one projectile from the start-of-tick snapshot does to the combatant
/// under update.
#[derive(Clone, Copy, Debug)]
pub enum ContactOutcome {
    /// No contact this tick.
    Miss,
    /// A knife slash: damage plus a strong velocity transfer, no deletion
    /// of the slash and no burst.
    KnifeHit { damage: i64, knockback: Vec2I },
    /// A shot projectile: damage, a slight velocity transfer, the projectile
    /// is spent and an impact burst appears.
    BulletHit { damage: i64, knockback: Vec2I },
    /// A grenade detonation caught this combatant in the blast.
    Blast { damage: i64, knockback: Vec2I },
}


/// One step of the contact resolution a combatant runs over the snapshot:
/// given the accumulated health, velocity, delete schedule and impact-burst
/// count, the effect of snapshot entry `hb` at index `idx`.  Knife and
/// bullet hits apply only while the projectile is not yet scheduled, and
/// schedule it; a blast applies unconditionally and schedules nothing.
pub open spec fn spec_contact_step(
    count: usize,
    pos: Vec2I,
    hb: Entity,
    idx: int,
    st: (int, Vec2I, Seq<usize>, int),
) -> (int, Vec2I, Seq<usize>, int) {
    if !spec_contact_hits(count, pos, hb) {
        st
    } else {
        match hb.variant {
            Variant::Projectile { kind, age, owner } => match kind {
                WeaponKind::Knife(_) => {
                    if st.2.contains(idx as usize) {
                        st
                    } else {
                        (
                            clamp_health(st.0 - spec_knife_damage(age) as i64),
                            vec_cadd(st.1, spec_vscale_div(hb.velocity, 3, 10)),
                            st.2.push(idx as usize),
                            st.3,
                        )
                    }
                },
                WeaponKind::Grenade => match spec_blast_effect(hb.position, pos) {
                    ContactOutcome::Blast { damage, knockback } => (
                        clamp_health(st.0 - damage),
                        vec_cadd(st.1, knockback),
                        st.2,
                        st.3,
                    ),
                    _ => st,
                },
                _ => {
                    if st.2.contains(idx as usize) {
                        st
                    } else {
                        (
                            clamp_health(st.0 - spec_bullet_damage(kind) as i64),
                            vec_cadd(st.1, spec_vscale_div(hb.velocity, 1, 60)),
                            st.2.push(idx as usize),
                            st.3 + 1,
                        )
                    }
                },
            },
            _ => st,
        }
    }
}

/// Health, velocity, delete schedule and impact-burst count of the
/// combatant at `pos`, entity index `count`, after resolving the first `n`
/// snapshot entries in order.
pub open spec fn spec_contact_fold(
    count: usize,
    pos: Vec2I,
    snap: Seq<Entity>,
    health: int,
    vel: Vec2I,
    dels: Seq<usize>,
    n: int,
) -> (int, Vec2I, Seq<usize>, int)
    decreases n,
{
    if n <= 0 {
        (health, vel, dels, 0)
    } else {
        let prev = spec_contact_fold(count, pos, snap, health, vel, dels, n - 1);
        spec_contact_step(count, pos, snap[n - 1], n - 1, prev)
    }
}

/// Truncating scale-down: `v * num / den` componentwise, rounding the
/// magnitude of each component toward zero.
pub open spec fn spec_vscale_div(v: Vec2I, num: int, den: int) -> Vec2I {
    Vec2I {
        x: (if v.x >= 0 { v.x * num / den } else { -((-v.x) * num / den) }) as i64,
        y: (if v.y >= 0 { v.y * num / den } else { -((-v.y) * num / den) }) as i64,
    }
}

/// Componentwise `v * num / den` for nonnegative `num`, truncated toward zero.
pub fn vscale_div(v: Vec2I, num: i64, den: i64) -> (r: Vec2I)
    requires
        in_range(v),
        0 <= num <= den,
        0 < den <= 1000,
    ensures
        r == spec_vscale_div(v, num as int, den as int),
        in_range(r),
{
    proof {
        assert(forall|a: int, nn: int|
            0 <= a <= 2_000_000_000 && 0 <= nn <= 1000 ==> 0 <= #[trigger] (a * nn)
                <= 2_000_000_000_000) by (nonlinear_arith);
        assert(forall|a: int, nn: int, dd: int|
            0 <= a <= 2_000_000_000 && 0 <= nn <= dd && 0 < dd <= 1000 ==> 0 <= #[trigger] (a * nn
                / dd) <= a) by (nonlinear_arith);
    }
    let x: i64 = if v.x >= 0 {
        v.x * num / den
    } else {
        let m: i64 = (-v.x) * num / den;
        -m
    };
    let y: i64 = if v.y >= 0 {
        v.y * num / den
    } else {
        let m: i64 = (-v.y) * num / den;
        -m
    };
    Vec2I { x, y }
}

/// Knockback of a blast on a combatant `delta` away from the detonation
/// point (`delta` points from the combatant to the grenade), with `dist`
/// the floor distance: the combatant is pushed directly away with magnitude
/// `spec_grenade_knock(dist)`.
pub open spec fn spec_blast_knock(delta: Vec2I, dist: int) -> Vec2I {
    let km = spec_grenade_knock(dist);
    Vec2I {
        x: (if delta.x >= 0 { -(delta.x * km / dist) } else { (-delta.x) * km / dist }) as i64,
        y: (if delta.y >= 0 { -(delta.y * km / dist) } else { (-delta.y) * km / dist }) as i64,
    }
}

fn blast_knock(delta: Vec2I, dist: i64) -> (r: Vec2I)
    requires
        delta.x * delta.x < (dist + 1) * (dist + 1),
        delta.y * delta.y < (dist + 1) * (dist + 1),
        0 < dist <= BLAST_RADIUS,
    ensures
        r == spec_blast_knock(delta, dist as int),
        in_range(r),
{
    let km: i64 = (BLAST_RADIUS - dist) / 6;
    proof {
        assert(-dist <= delta.x <= dist && -dist <= delta.y <= dist) by (nonlinear_arith)
            requires
                delta.x * delta.x < (dist + 1) * (dist + 1),
                delta.y * delta.y < (dist + 1) * (dist + 1),
                0 < dist,
        ;
        assert(forall|a: int, b: int|
            0 <= a <= 300_000 && 0 <= b <= 50_000 ==> 0 <= #[trigger] (a * b) <= 15_000_000_000)
            by (nonlinear_arith);
        assert(forall|a: int, b: int, dd: int|
            0 <= a <= dd && 0 <= b <= 50_000 && 0 < dd ==> 0 <= #[trigger] (a * b / dd) <= b)
            by (nonlinear_arith);
    }
    let x: i64 = if delta.x >= 0 {
        -(delta.x * km / dist)
    } else {
        (-delta.x) * km / dist
    };
    let y: i64 = if delta.y >= 0 {
        -(delta.y * km / dist)
    } else {
        (-delta.y) * km / dist
    };
    Vec2I { x, y }
}

/// Resolve what the projectile `proj` (as seen in the start-of-tick
/// snapshot) does to the combatant at `target`, entity index `target_index`.
///
/// - A knife slash hits on proximity alone, unless the combatant owns it.
/// - A grenade is inert except on its fuse tick, when every combatant
///   strictly inside the blast radius — its owner included — is damaged and
///   pushed away; a combatant exactly at the detonation point is damaged but
///   not pushed, there being no direction to push along.
/// - Every other kind hits on proximity or on its swept path, unless the
///   combatant owns it; a projectile at rest has no swept path.
pub fn projectile_contact(target_index: usize, target: Vec2I, proj: &Entity) -> (o: ContactOutcome)
    requires
        in_range(target),
        in_range(proj.position),
        in_range(proj.velocity),
        proj.variant matches Variant::Projectile { .. },
    ensures
        match proj.variant {
            Variant::Projectile { kind, age, owner } => {
                match kind {
                    WeaponKind::Knife(_) => {
                        if owner != Some(target_index) && dist2(proj.position, target)
                            < CONTACT_RADIUS * CONTACT_RADIUS {
                            o == (ContactOutcome::KnifeHit {
                                damage: spec_knife_damage(age) as i64,
                                knockback: spec_vscale_div(proj.velocity, 3, 10),
                            })
                        } else {
                            o is Miss
                        }
                    },
                    WeaponKind::Grenade => {
                        if age == GRENADE_FUSE && dist2(proj.position, target) < BLAST_RADIUS
                            * BLAST_RADIUS {
                            o == spec_blast_effect(proj.position, target)
                        } else {
                            o is Miss
                        }
                    },
                    _ => {
                        let swept_end = vec_cadd(proj.position, proj.velocity);
                        if owner != Some(target_index) && (dist2(proj.position, target)
                            < CONTACT_RADIUS * CONTACT_RADIUS || (proj.position != swept_end
                            && spec_segment_hits_circle(
                            proj.position,
                            swept_end,
                            CONTACT_RADIUS as int,
                            target,
                        ))) {
                            o == (ContactOutcome::BulletHit {
                                damage: spec_bullet_damage(kind) as i64,
                                knockback: spec_vscale_div(proj.velocity, 1, 60),
                            })
                        } else {
                            o is Miss
                        }
                    },
                }
            },
            _ => true,
        },
        (o is Miss) <==> !spec_contact_hits(target_index, target, *proj),
        match o {
            ContactOutcome::Miss => true,
            ContactOutcome::KnifeHit { damage, knockback } => -30_000_000_000 <= damage <= 1800
                && in_range(knockback),
            ContactOutcome::BulletHit { damage, knockback } => 0 <= damage <= 7500 && in_range(
                knockback,
            ),
            ContactOutcome::Blast { damage, knockback } => 0 <= damage <= 15_000 && in_range(
                knockback,
            ),
        },
{
    let (kind, age, owner) = match proj.variant {
        Variant::Projectile { kind, age, owner } => (kind, age, owner),
        _ => {
            return ContactOutcome::Miss;
        },
    };
    let owned = match owner {
        Some(ix) => ix == target_index,
        None => false,
    };
    match kind {
        WeaponKind::Knife(_) => {
            if !owned && within_contact_radius(proj.position, target, CONTACT_RADIUS) {
                ContactOutcome::KnifeHit {
                    damage: knife_damage(age),
                    knockback: vscale_div(proj.velocity, 3, 10),
                }
            } else {
                ContactOutcome::Miss
            }
        },
        WeaponKind::Grenade => {
            if age == GRENADE_FUSE && within_contact_radius(proj.position, target, BLAST_RADIUS) {
                let d: i64 = dist_milli(proj.position, target);
                proof {
                    assert(d < BLAST_RADIUS) by (nonlinear_arith)
                        requires
                            d * d <= dist2(proj.position, target),
                            dist2(proj.position, target) < BLAST_RADIUS * BLAST_RADIUS,
                            0 <= d,
                    ;
                }
                let knockback = if d == 0 {
                    Vec2I { x: 0, y: 0 }
                } else {
                    let delta = Vec2I { x: proj.position.x - target.x, y: proj.position.y - target.y };
                    proof {
                        let ghost s2 = dist2(proj.position, target);
                        assert(s2 == delta.x * delta.x + delta.y * delta.y) by (nonlinear_arith)
                            requires
                                s2 == (target.x - proj.position.x) * (target.x - proj.position.x) + (
                                target.y - proj.position.y) * (target.y - proj.position.y),
                                delta.x == proj.position.x - target.x,
                                delta.y == proj.position.y - target.y,
                        ;
                        assert(delta.x * delta.x < (d + 1) * (d + 1) && delta.y * delta.y < (d + 1)
                            * (d + 1)) by (nonlinear_arith)
                            requires
                                s2 == delta.x * delta.x + delta.y * delta.y,
                                s2 < (d + 1) * (d + 1),
                        ;
                    }
                    blast_knock(delta, d)
                };
                let res = ContactOutcome::Blast { damage: grenade_damage_at(d), knockback };
                proof {
                    assert(res == spec_blast_effect(proj.position, target));
                }
                res
            } else {
                ContactOutcome::Miss
            }
        },
        _ => {
            let swept_end = vadd(proj.position, proj.velocity);
            let near = within_contact_radius(proj.position, target, CONTACT_RADIUS);
            let swept = if proj.position.x != swept_end.x || proj.position.y != swept_end.y {
                segment_hits_circle(proj.position, swept_end, CONTACT_RADIUS, target)
            } else {
                false
            };
            if !owned && (near || swept) {
                ContactOutcome::BulletHit {
                    damage: bullet_damage(kind),
                    knockback: vscale_div(proj.velocity, 1, 60),
                }
            } else {
                ContactOutcome::Miss
            }
        },
    }
}

/// Whether two points are strictly within `radius` of one another, decided
/// exactly on squared distances.
pub fn within_contact_radius(a: Vec2I, b: Vec2I, radius: i64) -> (hit: bool)
    requires
        in_range(a),
        in_range(b),
        0 <= radius <= 1_000_000,
    ensures
        hit == (dist2(a, b) < radius * radius),
{
    let dx: i128 = (b.x - a.x) as i128;
    let dy: i128 = (b.y - a.y) as i128;
    proof {
        assert(forall|p: int, q: int| -2_000_000_000 <= p <= 2_000_000_000 && -2_000_000_000 <= q
            <= 2_000_000_000 ==> -4_000_000_000_000_000_000 <= #[trigger] (p * q)
                <= 4_000_000_000_000_000_000) by (nonlinear_arith);
    }
    dx * dx + dy * dy < (radius as i128) * (radius as i128)
}

/// Blast damage at floor distance `d`, in health sub-units.
pub fn grenade_damage_at(d: i64) -> (dmg: i64)
    requires
        0 <= d < BLAST_RADIUS,
    ensures
        dmg == spec_grenade_damage(d as int),
        0 < dmg <= 15_000,
{
    50 * HEALTH_SCALE - d / 20
}

/// Floor division by 1000, the fixed-point rescale after a rotation.
fn div_milli(a: i64) -> (q: i64)
    requires
        -4_100_000 <= a <= 4_100_000,
    ensures
        q == a as int / 1000,
{
    if a >= 0 {
        a / 1000
    } else {
        let q: i64 = -((999 - a) / 1000);
        proof {
            vstd::arithmetic::div_mod::lemma_fundamental_div_mod(a as int, 1000);
            vstd::arithmetic::div_mod::lemma_fundamental_div_mod(999 - a, 1000);
        }
        q
    }
}

/// Rotate `v` by the angle whose cosine and sine are `c` and `s`, all three
/// in sub-units of one; the result is rescaled by floor division.
pub open spec fn spec_rot(v: Vec2I, c: int, s: int) -> Vec2I {
    Vec2I {
        x: ((v.x * c - v.y * s) / 1000) as i64,
        y: ((v.x * s + v.y * c) / 1000) as i64,
    }
}

pub fn rot_milli(v: Vec2I, c: i64, s: i64) -> (r: Vec2I)
    requires
        -2000 <= v.x <= 2000,
        -2000 <= v.y <= 2000,
        -1000 <= c <= 1000,
        -1000 <= s <= 1000,
    ensures
        r == spec_rot(v, c as int, s as int),
        -4100 <= r.x <= 4100,
        -4100 <= r.y <= 4100,
{
    proof {
        assert(forall|a: int, b: int|
            -2000 <= a <= 2000 && -1000 <= b <= 1000 ==> -2_000_000 <= #[trigger] (a * b)
                <= 2_000_000) by (nonlinear_arith);
    }
    let nx: i64 = v.x * c - v.y * s;
    let ny: i64 = v.x * s + v.y * c;
    let r = Vec2I { x: div_milli(nx), y: div_milli(ny) };
    proof {
        vstd::arithmetic::div_mod::lemma_fundamental_div_mod(nx as int, 1000);
        vstd::arithmetic::div_mod::lemma_fundamental_div_mod(ny as int, 1000);
    }
    r
}

/// Cosine and sine of `k` thirtieths of a half turn (6-degree steps), in
/// sub-units, for the slash and pellet fans.
pub open spec fn spec_cs_pi30(k: int) -> (int, int) {
    let a = if k < 0 { -k } else { k };
    let c: int = if a == 0 { 1000 } else if a == 1 { 995 } else if a == 2 { 978 }
        else if a == 3 { 951 } else if a == 4 { 914 } else { 866 };
    let s0: int = if a == 0 { 0 } else if a == 1 { 105 } else if a == 2 { 208 }
        else if a == 3 { 309 } else if a == 4 { 407 } else { 500 };
    (c, if k < 0 { -s0 } else { s0 })
}

pub fn cs_pi30(k: i64) -> (cs: (i64, i64))
    requires
        -5 <= k <= 5,
    ensures
        cs.0 == spec_cs_pi30(k as int).0,
        cs.1 == spec_cs_pi30(k as int).1,
        -1000 <= cs.0 <= 1000,
        -1000 <= cs.1 <= 1000,
{
    let a: i64 = if k < 0 { -k } else { k };
    let c: i64 = match a { 0 => 1000, 1 => 995, 2 => 978, 3 => 951, 4 => 914, _ => 866 };
    let s0: i64 = match a { 0 => 0, 1 => 105, 2 => 208, 3 => 309, 4 => 407, _ => 500 };
    (c, if k < 0 { -s0 } else { s0 })
}

/// Cosine and sine of `k` tenths of a half turn (18-degree steps), in
/// sub-units, for the muzzle-flash fans.
pub open spec fn spec_cs_pi10(k: int) -> (int, int) {
    let a = if k < 0 { -k } else { k };
    let c: int = if a == 0 { 1000 } else if a == 1 { 951 } else if a == 2 { 809 }
        else if a == 3 { 588 } else if a == 4 { 309 } else { 0 };
    let s0: int = if a == 0 { 0 } else if a == 1 { 309 } else if a == 2 { 588 }
        else if a == 3 { 809 } else if a == 4 { 951 } else { 1000 };
    (c, if k < 0 { -s0 } else { s0 })
}

pub fn cs_pi10(k: i64) -> (cs: (i64, i64))
    requires
        -5 <= k <= 5,
    ensures
        cs.0 == spec_cs_pi10(k as int).0,
        cs.1 == spec_cs_pi10(k as int).1,
        -1000 <= cs.0 <= 1000,
        -1000 <= cs.1 <= 1000,
{
    let a: i64 = if k < 0 { -k } else { k };
    let c: i64 = match a { 0 => 1000, 1 => 951, 2 => 809, 3 => 588, 4 => 309, _ => 0 };
    let s0: i64 = match a { 0 => 0, 1 => 309, 2 => 588, 3 => 809, 4 => 951, _ => 1000 };
    (c, if k < 0 { -s0 } else { s0 })
}

/// Cosine and sine of `(j - 6)` steps of 3 degrees, covering the sprayer's
/// spread band of about a tenth of a half turn either way.
pub open spec fn spec_cs_spread(j: int) -> (int, int) {
    let k = j - 6;
    let a = if k < 0 { -k } else { k };
    let c: int = if a == 0 { 1000 } else if a == 1 { 999 } else if a == 2 { 995 }
        else if a == 3 { 988 } else if a == 4 { 978 } else if a == 5 { 966 } else { 951 };
    let s0: int = if a == 0 { 0 } else if a == 1 { 52 } else if a == 2 { 105 }
        else if a == 3 { 156 } else if a == 4 { 208 } else if a == 5 { 259 } else { 309 };
    (c, if k < 0 { -s0 } else { s0 })
}

pub fn cs_spread(j: i64) -> (cs: (i64, i64))
    requires
        0 <= j <= 12,
    ensures
        cs.0 == spec_cs_spread(j as int).0,
        cs.1 == spec_cs_spread(j as int).1,
        -1000 <= cs.0 <= 1000,
        -1000 <= cs.1 <= 1000,
{
    let k: i64 = j - 6;
    let a: i64 = if k < 0 { -k } else { k };
    let c: i64 = match a { 0 => 1000, 1 => 999, 2 => 995, 3 => 988, 4 => 978, 5 => 966, _ => 951 };
    let s0: i64 = match a { 0 => 0, 1 => 52, 2 => 105, 3 => 156, 4 => 208, 5 => 259, _ => 309 };
    (c, if k < 0 { -s0 } else { s0 })
}

/// Unit vector (in sub-units) at `k` fifteenths of a half turn (12-degree
/// steps), the directions of the radial bursts.
pub open spec fn spec_dir12(k: int) -> Vec2I
    decreases (if k >= 15 { 1int } else { 0int }),
{
    if k >= 15 && k < 30 {
        let d = spec_dir12(k - 15);
        Vec2I { x: (-d.x) as i64, y: (-d.y) as i64 }
    } else {
        let c: int = if k <= 0 { 1000 } else if k == 1 { 978 } else if k == 2 { 914 }
            else if k == 3 { 809 } else if k == 4 { 669 } else if k == 5 { 500 }
            else if k == 6 { 309 } else if k == 7 { 105 } else if k == 8 { -105 }
            else if k == 9 { -309 } else if k == 10 { -500 } else if k == 11 { -669 }
            else if k == 12 { -809 } else if k == 13 { -914 } else { -978 };
        let s: int = if k <= 0 { 0 } else if k == 1 { 208 } else if k == 2 { 407 }
            else if k == 3 { 588 } else if k == 4 { 743 } else if k == 5 { 866 }
            else if k == 6 { 951 } else if k == 7 { 995 } else if k == 8 { 995 }
            else if k == 9 { 951 } else if k == 10 { 866 } else if k == 11 { 743 }
            else if k == 12 { 588 } else if k == 13 { 407 } else { 208 };
        Vec2I { x: c as i64, y: s as i64 }
    }
}

pub fn dir12(k: u32) -> (d: Vec2I)
    requires
        k < 30,
    ensures
        d == spec_dir12(k as int),
        -1000 <= d.x <= 1000,
        -1000 <= d.y <= 1000,
{
    let (base, flip): (u32, bool) = if k >= 15 { (k - 15, true) } else { (k, false) };
    let c: i64 = match base {
        0 => 1000, 1 => 978, 2 => 914, 3 => 809, 4 => 669, 5 => 500, 6 => 309, 7 => 105,
        8 => -105, 9 => -309, 10 => -500, 11 => -669, 12 => -809, 13 => -914, _ => -978,
    };
    let s: i64 = match base {
        0 => 0, 1 => 208, 2 => 407, 3 => 588, 4 => 743, 5 => 866, 6 => 951, 7 => 995,
        8 => 995, 9 => 951, 10 => 866, 11 => 743, 12 => 588, 13 => 407, _ => 208,
    };
    proof {
        reveal_with_fuel(spec_dir12, 2);
    }
    if flip {
        Vec2I { x: -c, y: -s }
    } else {
        Vec2I { x: c, y: s }
    }
}

/// Exact componentwise scaling.
pub open spec fn spec_vscale(v: Vec2I, k: int) -> Vec2I {
    Vec2I { x: (v.x * k) as i64, y: (v.y * k) as i64 }
}

pub fn vscale(v: Vec2I, k: i64) -> (r: Vec2I)
    requires
        -10_000 <= v.x <= 10_000,
        -10_000 <= v.y <= 10_000,
        -1000 <= k <= 1000,
    ensures
        r == spec_vscale(v, k as int),
        in_range(r),
{
    proof {
        assert(forall|a: int, b: int|
            -10_000 <= a <= 10_000 && -1000 <= b <= 1000 ==> -10_000_000 <= #[trigger] (a * b)
                <= 10_000_000) by (nonlinear_arith);
    }
    Vec2I { x: v.x * k, y: v.y * k }
}

/// A projectile fired this tick by combatant `owner`.
pub open spec fn spec_projectile_ent(pos: Vec2I, vel: Vec2I, kind: WeaponKind, owner: usize) -> Entity {
    Entity { position: pos, velocity: vel, variant: Variant::Projectile { kind, age: 0, owner: Some(owner) } }
}

/// Slash segment `j` (of 10) of a knife swing: a short-lived projectile fan
/// spread a sixth of a half turn around the facing, 80 units out.
pub open spec fn spec_knife_slash(pos: Vec2I, vel: Vec2I, facing: Vec2I, side: bool, owner: usize, j: int) -> Entity {
    let cs = spec_cs_pi30(j - 5);
    let rv = spec_rot(facing, cs.0, cs.1);
    spec_projectile_ent(
        vec_cadd(pos, spec_vscale(rv, 80)),
        vec_cadd(vel, spec_vscale(rv, 2)),
        WeaponKind::Knife(side),
        owner,
    )
}

/// Pellet `j` (of 11) of a shotgun blast: all leave the same muzzle point,
/// fanned a sixth of a half turn around the facing at speed 70.
pub open spec fn spec_pellet(pos: Vec2I, vel: Vec2I, facing: Vec2I, owner: usize, j: int) -> Entity {
    let cs = spec_cs_pi30(j - 5);
    let rv = spec_rot(facing, cs.0, cs.1);
    spec_projectile_ent(
        vec_cadd(pos, spec_vscale(facing, 90)),
        vec_cadd(vel, spec_vscale(rv, 70)),
        WeaponKind::Shotgun,
        owner,
    )
}

/// Muzzle-flash particle `j` of a fan of `2 * half + 1`, placed `off` units
/// along the facing; both position offsets take the fan cosine, a deliberate
/// skew in the flare's look.
pub open spec fn spec_muzzle_flash(pos: Vec2I, vel: Vec2I, facing: Vec2I, off: int, half: int, j: int) -> Entity {
    let cs = spec_cs_pi10(j - half);
    let rv = spec_rot(facing, cs.0, cs.1);
    Entity {
        position: Vec2I {
            x: clamp_coord(pos.x + facing.x * off + rv.x * 10) as i64,
            y: clamp_coord(pos.y + facing.y * off + rv.x * 10) as i64,
        },
        velocity: vec_cadd(vel, spec_vscale(rv, 2)),
        variant: Variant::Particle { color: ParticleColor::Orange, life: 15 },
    }
}

/// Muzzle particle `j` (of 5) of a grenade throw: green, faster, offset by
/// the fan sine on both coordinates.
pub open spec fn spec_grenade_flash(pos: Vec2I, vel: Vec2I, facing: Vec2I, j: int) -> Entity {
    let cs = spec_cs_pi10(j - 2);
    let rv = spec_rot(facing, cs.0, cs.1);
    Entity {
        position: Vec2I {
            x: clamp_coord(pos.x + facing.x * 110 + rv.y * 10) as i64,
            y: clamp_coord(pos.y + facing.y * 110 + rv.y * 10) as i64,
        },
        velocity: vec_cadd(vel, spec_vscale(rv, 5)),
        variant: Variant::Particle { color: ParticleColor::Green, life: 15 },
    }
}

/// The sprayer's shot with spread draw `sj` (one of 13 steps across its
/// band): the muzzle point is straight ahead, the velocity follows the
/// spread direction at speed 90.
pub open spec fn spec_sprayer_shot(pos: Vec2I, vel: Vec2I, facing: Vec2I, owner: usize, sj: int) -> Entity {
    let cs = spec_cs_spread(sj);
    let rv = spec_rot(facing, cs.0, cs.1);
    spec_projectile_ent(
        vec_cadd(pos, spec_vscale(facing, 100)),
        vec_cadd(vel, spec_vscale(rv, 90)),
        WeaponKind::Sprayer,
        owner,
    )
}

/// Whether the kind fires on a held button (continuous fire) or only on a
/// fresh press.
pub open spec fn spec_fire_trigger(k: WeaponKind, pressed: bool, down: bool) -> bool {
    match k {
        WeaponKind::Gunner => down,
        WeaponKind::Sprayer => down,
        _ => pressed,
    }
}

/// A weapon fires exactly when its trigger condition holds and its cooldown
/// counter has passed the kind's threshold.
pub open spec fn spec_fires(w: Weapon, pressed: bool, down: bool) -> bool {
    spec_fire_trigger(w.kind, pressed, down) && w.cooldown > spec_cooldown_threshold(w.kind)
}

/// Self-effects of a shot on the firer, applied by the caller.
#[derive(Clone, Copy, Debug)]
pub struct FireDelta {
    pub fired: bool,
    /// Recoil added to the firer's velocity.
    pub vel_delta: Vec2I,
    /// Kick added to the firer's position (the sniper's only).
    pub pos_delta: Vec2I,
}

fn muzzle_flash(pos: Vec2I, vel: Vec2I, facing: Vec2I, off: i64, half: i64, j: i64) -> (e: Entity)
    requires
        in_range(pos),
        in_range(vel),
        -MILLI <= facing.x <= MILLI,
        -MILLI <= facing.y <= MILLI,
        0 <= off <= 200,
        0 <= half <= 5,
        0 <= j,
        -5 <= j - half <= 5,
    ensures
        e == spec_muzzle_flash(pos, vel, facing, off as int, half as int, j as int),
        wf_entity(e),
{
    proof {
        assert(forall|a: int, b: int|
            -1000 <= a <= 1000 && 0 <= b <= 200 ==> -200_000 <= #[trigger] (a * b) <= 200_000)
            by (nonlinear_arith);
    }
    let cs = cs_pi10(j - half);
    let rv = rot_milli(facing, cs.0, cs.1);
    let px: i64 = cadd(pos.x, facing.x * off + rv.x * 10);
    let py: i64 = cadd(pos.y, facing.y * off + rv.x * 10);
    Entity {
        position: Vec2I { x: px, y: py },
        velocity: vadd(vel, vscale(rv, 2)),
        variant: Variant::Particle { color: ParticleColor::Orange, life: 15 },
    }
}

fn grenade_flash(pos: Vec2I, vel: Vec2I, facing: Vec2I, j: i64) -> (e: Entity)
    requires
        in_range(pos),
        in_range(vel),
        -MILLI <= facing.x <= MILLI,
        -MILLI <= facing.y <= MILLI,
        0 <= j <= 4,
    ensures
        e == spec_grenade_flash(pos, vel, facing, j as int),
        wf_entity(e),
{
    proof {
        assert(forall|a: int, b: int|
            -1000 <= a <= 1000 && 0 <= b <= 200 ==> -200_000 <= #[trigger] (a * b) <= 200_000)
            by (nonlinear_arith);
    }
    let cs = cs_pi10(j - 2);
    let rv = rot_milli(facing, cs.0, cs.1);
    let px: i64 = cadd(pos.x, facing.x * 110 + rv.y * 10);
    let py: i64 = cadd(pos.y, facing.y * 110 + rv.y * 10);
    Entity {
        position: Vec2I { x: px, y: py },
        velocity: vadd(vel, vscale(rv, 5)),
        variant: Variant::Particle { color: ParticleColor::Green, life: 15 },
    }
}

/// The complete effect of one fire attempt: exactly when `spec_fires`
/// allows, the weapon's cooldown resets (and a knife flips side), the
/// kind's full spawn pattern extends the appends from `ap0` to `ap1`, and
/// the recoil comes back in `d`; otherwise nothing changes.
pub open spec fn spec_fire_post(
    w0: Weapon,
    pos: Vec2I,
    vel: Vec2I,
    facing: Vec2I,
    owner: usize,
    pressed: bool,
    down: bool,
    w1: Weapon,
    ap0: Seq<Entity>,
    ap1: Seq<Entity>,
    d: FireDelta,
) -> bool {
    &&& d.fired == spec_fires(w0, pressed, down)
    &&& (!d.fired ==> w1 == w0 && ap1 == ap0 && d.vel_delta == (Vec2I { x: 0, y: 0 })
        && d.pos_delta == (Vec2I { x: 0, y: 0 }))
    &&& (d.fired ==> w1.cooldown == 0 && match w0.kind {
                WeaponKind::Knife(side) => {
                    &&& w1.kind == WeaponKind::Knife(!side)
                    &&& ap1 == ap0 + Seq::new(10, |j: int| spec_knife_slash(pos, vel, facing, !side, owner, j))
                    &&& d.vel_delta == (Vec2I { x: 0, y: 0 })
                    &&& d.pos_delta == (Vec2I { x: 0, y: 0 })
                },
                WeaponKind::Sniper => {
                    &&& w1.kind == w0.kind
                    &&& ap1 == ap0.push(spec_projectile_ent(vec_cadd(pos, spec_vscale(facing, 90)), vec_cadd(vel, spec_vscale(facing, 150)), WeaponKind::Sniper, owner)) + Seq::new(11, |j: int| spec_muzzle_flash(pos, vel, facing, 100, 5, j))
                    &&& d.vel_delta == (Vec2I { x: 0, y: 0 })
                    &&& d.pos_delta == spec_vscale(facing, -10)
                },
                WeaponKind::Gunner => {
                    &&& w1.kind == w0.kind
                    &&& ap1 == ap0.push(spec_projectile_ent(vec_cadd(pos, spec_vscale(facing, 90)), vec_cadd(vel, spec_vscale(facing, 120)), WeaponKind::Gunner, owner)) + Seq::new(5, |j: int| spec_muzzle_flash(pos, vel, facing, 100, 2, j))
                    &&& d.vel_delta == spec_vscale(facing, -5)
                    &&& d.pos_delta == (Vec2I { x: 0, y: 0 })
                },
                WeaponKind::Shotgun => {
                    &&& w1.kind == w0.kind
                    &&& ap1 == ap0 + Seq::new(11, |j: int| spec_pellet(pos, vel, facing, owner, j)) + Seq::new(5, |j: int| spec_muzzle_flash(pos, vel, facing, 100, 2, j))
                    &&& d.vel_delta == spec_vscale(facing, -12)
                    &&& d.pos_delta == (Vec2I { x: 0, y: 0 })
                },
                WeaponKind::Sprayer => {
                    &&& w1.kind == w0.kind
                    &&& exists|sj: int| 0 <= sj < 13 && ap1 == ap0.push(spec_sprayer_shot(pos, vel, facing, owner, sj)) + Seq::new(5, |j: int| spec_muzzle_flash(pos, vel, facing, 110, 2, j))
                    &&& d.vel_delta == spec_vscale(facing, -2)
                    &&& d.pos_delta == (Vec2I { x: 0, y: 0 })
                },
                WeaponKind::Grenade => {
                    &&& w1.kind == w0.kind
                    &&& ap1 == ap0.push(spec_projectile_ent(vec_cadd(pos, spec_vscale(facing, 90)), vec_cadd(vel, spec_vscale(facing, 40)), WeaponKind::Grenade, owner)) + Seq::new(5, |j: int| spec_grenade_flash(pos, vel, facing, j))
                    &&& d.vel_delta == spec_vscale(facing, -10)
                    &&& d.pos_delta == (Vec2I { x: 0, y: 0 })
                },
            })
}

/// Attempt to fire the weapon of the combatant at `pos`/`vel` facing
/// `facing`, entity index `owner`.  Exactly when the trigger condition and
/// cooldown allow (`spec_fires`), the kind's full spawn pattern is appended,
/// the cooldown counter resets to zero, and the firer's recoil comes back as
/// a delta; otherwise nothing changes.  Nothing is ever scheduled for
/// deletion here.
#[verifier::loop_isolation(false)]
#[verifier::rlimit(50)]
pub fn fire_weapon(
    weapon: &mut Weapon,
    pos: Vec2I,
    vel: Vec2I,
    facing: Vec2I,
    owner: usize,
    pressed: bool,
    down: bool,
    defer: &mut Deferred,
) -> (d: FireDelta)
    requires
        in_range(pos),
        in_range(vel),
        -MILLI <= facing.x <= MILLI,
        -MILLI <= facing.y <= MILLI,
    ensures
        final(defer).deletes == old(defer).deletes,
        spec_fire_post(
            *old(weapon),
            pos,
            vel,
            facing,
            owner,
            pressed,
            down,
            *final(weapon),
            old(defer).appends@,
            final(defer).appends@,
            d,
        ),
        forall|i: int|
            old(defer).appends@.len() <= i < final(defer).appends@.len() ==> wf_entity(
                #[trigger] final(defer).appends@[i],
            ),
{
    let zero = Vec2I { x: 0, y: 0 };
    let trigger = match weapon.kind {
        WeaponKind::Gunner => down,
        WeaponKind::Sprayer => down,
        _ => pressed,
    };
    let thr = cooldown_threshold(weapon.kind);
    if !(trigger && weapon.cooldown > thr) {
        return FireDelta { fired: false, vel_delta: zero, pos_delta: zero };
    }
    let ghost ap0 = defer.appends@;
    let mut d = FireDelta { fired: true, vel_delta: zero, pos_delta: zero };
    match weapon.kind {
        WeaponKind::Knife(side) => {
            let nside = !side;
            weapon.kind = WeaponKind::Knife(nside);
            let mut j: u32 = 0;
            while j < 10
                invariant
                    j <= 10,
                    defer.deletes == old(defer).deletes,
                    defer.appends@ == ap0 + Seq::new(
                        j as nat,
                        |jj: int| spec_knife_slash(pos, vel, facing, nside, owner, jj),
                    ),
                    forall|i: int|
                        ap0.len() <= i < defer.appends@.len() ==> wf_entity(
                            #[trigger] defer.appends@[i],
                        ),
                decreases 10 - j,
            {
                let k: i64 = j as i64 - 5;
                let cs = cs_pi30(k);
                let rv = rot_milli(facing, cs.0, cs.1);
                let sp = vadd(pos, vscale(rv, 80));
                let sv = vadd(vel, vscale(rv, 2));
                defer.schedule_append(
                    Entity {
                        position: sp,
                        velocity: sv,
                        variant: Variant::Projectile {
                            kind: WeaponKind::Knife(nside),
                            age: 0,
                            owner: Some(owner),
                        },
                    },
                );
                proof {
                    assert(Seq::new(
                        (j + 1) as nat,
                        |jj: int| spec_knife_slash(pos, vel, facing, nside, owner, jj),
                    ) =~= Seq::new(
                        j as nat,
                        |jj: int| spec_knife_slash(pos, vel, facing, nside, owner, jj),
                    ).push(spec_knife_slash(pos, vel, facing, nside, owner, j as int)));
                }
                j = j + 1;
            }
        },
        WeaponKind::Sniper => {
            let proj = Entity {
                position: vadd(pos, vscale(facing, 90)),
                velocity: vadd(vel, vscale(facing, 150)),
                variant: Variant::Projectile {
                    kind: WeaponKind::Sniper,
                    age: 0,
                    owner: Some(owner),
                },
            };
            defer.schedule_append(proj);
            let mut j: u32 = 0;
            while j < 11
                invariant
                    j <= 11,
                    defer.deletes == old(defer).deletes,
                    defer.appends@ == ap0.push(proj) + Seq::new(
                        j as nat,
                        |jj: int| spec_muzzle_flash(pos, vel, facing, 100, 5, jj),
                    ),
                    forall|i: int|
                        ap0.len() <= i < defer.appends@.len() ==> wf_entity(
                            #[trigger] defer.appends@[i],
                        ),
                decreases 11 - j,
            {
                let e = muzzle_flash(pos, vel, facing, 100, 5, j as i64);
                defer.schedule_append(e);
                proof {
                    assert(Seq::new(
                        (j + 1) as nat,
                        |jj: int| spec_muzzle_flash(pos, vel, facing, 100, 5, jj),
                    ) =~= Seq::new(
                        j as nat,
                        |jj: int| spec_muzzle_flash(pos, vel, facing, 100, 5, jj),
                    ).push(spec_muzzle_flash(pos, vel, facing, 100, 5, j as int)));
                }
                j = j + 1;
            }
            d.pos_delta = vscale(facing, -10);
        },
        WeaponKind::Gunner => {
            let proj = Entity {
                position: vadd(pos, vscale(facing, 90)),
                velocity: vadd(vel, vscale(facing, 120)),
                variant: Variant::Projectile {
                    kind: WeaponKind::Gunner,
                    age: 0,
                    owner: Some(owner),
                },
            };
            defer.schedule_append(proj);
            let mut j: u32 = 0;
            while j < 5
                invariant
                    j <= 5,
                    defer.deletes == old(defer).deletes,
                    defer.appends@ == ap0.push(proj) + Seq::new(
                        j as nat,
                        |jj: int| spec_muzzle_flash(pos, vel, facing, 100, 2, jj),
                    ),
                    forall|i: int|
                        ap0.len() <= i < defer.appends@.len() ==> wf_entity(
                            #[trigger] defer.appends@[i],
                        ),
                decreases 5 - j,
            {
                let e = muzzle_flash(pos, vel, facing, 100, 2, j as i64);
                defer.schedule_append(e);
                proof {
                    assert(Seq::new(
                        (j + 1) as nat,
                        |jj: int| spec_muzzle_flash(pos, vel, facing, 100, 2, jj),
                    ) =~= Seq::new(
                        j as nat,
                        |jj: int| spec_muzzle_flash(pos, vel, facing, 100, 2, jj),
                    ).push(spec_muzzle_flash(pos, vel, facing, 100, 2, j as int)));
                }
                j = j + 1;
            }
            d.vel_delta = vscale(facing, -5);
        },
        WeaponKind::Shotgun => {
            let mut j: u32 = 0;
            while j < 11
                invariant
                    j <= 11,
                    defer.deletes == old(defer).deletes,
                    defer.appends@ == ap0 + Seq::new(
                        j as nat,
                        |jj: int| spec_pellet(pos, vel, facing, owner, jj),
                    ),
                    forall|i: int|
                        ap0.len() <= i < defer.appends@.len() ==> wf_entity(
                            #[trigger] defer.appends@[i],
                        ),
                decreases 11 - j,
            {
                let k: i64 = j as i64 - 5;
                let cs = cs_pi30(k);
                let rv = rot_milli(facing, cs.0, cs.1);
                let e = Entity {
                    position: vadd(pos, vscale(facing, 90)),
                    velocity: vadd(vel, vscale(rv, 70)),
                    variant: Variant::Projectile {
                        kind: WeaponKind::Shotgun,
                        age: 0,
                        owner: Some(owner),
                    },
                };
                defer.schedule_append(e);
                proof {
                    assert(Seq::new(
                        (j + 1) as nat,
                        |jj: int| spec_pellet(pos, vel, facing, owner, jj),
                    ) =~= Seq::new(
                        j as nat,
                        |jj: int| spec_pellet(pos, vel, facing, owner, jj),
                    ).push(spec_pellet(pos, vel, facing, owner, j as int)));
                }
                j = j + 1;
            }
            let ghost ap_mid = defer.appends@;
            let mut j2: u32 = 0;
            while j2 < 5
                invariant
                    j2 <= 5,
                    defer.deletes == old(defer).deletes,
                    defer.appends@ == ap_mid + Seq::new(
                        j2 as nat,
                        |jj: int| spec_muzzle_flash(pos, vel, facing, 100, 2, jj),
                    ),
                    ap_mid == ap0 + Seq::new(
                        11nat,
                        |jj: int| spec_pellet(pos, vel, facing, owner, jj),
                    ),
                    forall|i: int|
                        ap0.len() <= i < defer.appends@.len() ==> wf_entity(
                            #[trigger] defer.appends@[i],
                        ),
                decreases 5 - j2,
            {
                let e = muzzle_flash(pos, vel, facing, 100, 2, j2 as i64);
                defer.schedule_append(e);
                proof {
                    assert(Seq::new(
                        (j2 + 1) as nat,
                        |jj: int| spec_muzzle_flash(pos, vel, facing, 100, 2, jj),
                    ) =~= Seq::new(
                        j2 as nat,
                        |jj: int| spec_muzzle_flash(pos, vel, facing, 100, 2, jj),
                    ).push(spec_muzzle_flash(pos, vel, facing, 100, 2, j2 as int)));
                }
                j2 = j2 + 1;
            }
            d.vel_delta = vscale(facing, -12);
        },
        WeaponKind::Sprayer => {
            let sj = rand_in(0, 13);
            let cs = cs_spread(sj as i64);
            let rv = rot_milli(facing, cs.0, cs.1);
            let proj = Entity {
                position: vadd(pos, vscale(facing, 100)),
                velocity: vadd(vel, vscale(rv, 90)),
                variant: Variant::Projectile {
                    kind: WeaponKind::Sprayer,
                    age: 0,
                    owner: Some(owner),
                },
            };
            defer.schedule_append(proj);
            proof {
                assert(proj == spec_sprayer_shot(pos, vel, facing, owner, sj as int));
            }
            let mut j: u32 = 0;
            while j < 5
                invariant
                    j <= 5,
                    defer.deletes == old(defer).deletes,
                    defer.appends@ == ap0.push(proj) + Seq::new(
                        j as nat,
                        |jj: int| spec_muzzle_flash(pos, vel, facing, 110, 2, jj),
                    ),
                    forall|i: int|
                        ap0.len() <= i < defer.appends@.len() ==> wf_entity(
                            #[trigger] defer.appends@[i],
                        ),
                decreases 5 - j,
            {
                let e = muzzle_flash(pos, vel, facing, 110, 2, j as i64);
                defer.schedule_append(e);
                proof {
                    assert(Seq::new(
                        (j + 1) as nat,
                        |jj: int| spec_muzzle_flash(pos, vel, facing, 110, 2, jj),
                    ) =~= Seq::new(
                        j as nat,
                        |jj: int| spec_muzzle_flash(pos, vel, facing, 110, 2, jj),
                    ).push(spec_muzzle_flash(pos, vel, facing, 110, 2, j as int)));
                }
                j = j + 1;
            }
            proof {
                let ap1 = defer.appends@;
                assert(0 <= sj as int && (sj as int) < 13 && ap1 == ap0.push(
                    spec_sprayer_shot(pos, vel, facing, owner, sj as int),
                ) + Seq::new(5, |jj: int| spec_muzzle_flash(pos, vel, facing, 110, 2, jj)));
            }
            d.vel_delta = vscale(facing, -2);
        },
        WeaponKind::Grenade => {
            let proj = Entity {
                position: vadd(pos, vscale(facing, 90)),
                velocity: vadd(vel, vscale(facing, 40)),
                variant: Variant::Projectile {
                    kind: WeaponKind::Grenade,
                    age: 0,
                    owner: Some(owner),
                },
            };
            defer.schedule_append(proj);
            let mut j: u32 = 0;
            while j < 5
                invariant
                    j <= 5,
                    defer.deletes == old(defer).deletes,
                    defer.appends@ == ap0.push(proj) + Seq::new(
                        j as nat,
                        |jj: int| spec_grenade_flash(pos, vel, facing, jj),
                    ),
                    forall|i: int|
                        ap0.len() <= i < defer.appends@.len() ==> wf_entity(
                            #[trigger] defer.appends@[i],
                        ),
                decreases 5 - j,
            {
                let e = grenade_flash(pos, vel, facing, j as i64);
                defer.schedule_append(e);
                proof {
                    assert(Seq::new(
                        (j + 1) as nat,
                        |jj: int| spec_grenade_flash(pos, vel, facing, jj),
                    ) =~= Seq::new(
                        j as nat,
                        |jj: int| spec_grenade_flash(pos, vel, facing, jj),
                    ).push(spec_grenade_flash(pos, vel, facing, j as int)));
                }
                j = j + 1;
            }
            d.vel_delta = vscale(facing, -10);
        },
    }
    weapon.cooldown = 0;
    d
}

} // verus!
