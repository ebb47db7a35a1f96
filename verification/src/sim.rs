//! The entity state machine and tick driver: one synchronous pass per frame
//! over a snapshot of the arena, with all structural mutation deferred.

use vstd::prelude::*;
use crate::geom::{Vec2I, RectI, in_range, dist2, normalize_milli, spec_normalize, MILLI};
use crate::entity::{Entity, Variant, Weapon, WeaponKind, ParticleColor, HEALTH_CAP, HEALTH_FLOOR,
    HEALTH_SCALE, wf_entity, wf_variant, is_combatant, is_projectile, health_of, vadd, vec_cadd,
    cadd, clamp_coord, clamp_health, apply_damage, regen_health, drag};
use crate::grid::{TileGrid, Tile, wf_grid, MAP_W, MAP_H, ARENA_MILLI, CELL_MILLI, DENSITY_MAX};
use crate::combat::{spec_vscale, vscale, spec_dir12, dir12, spec_rot, rot_milli, fire_weapon,
    projectile_contact, ContactOutcome, spec_contact_fold, spec_fire_post, FireDelta, KNIFE_LIFE,
    GRENADE_FUSE, PROJECTILE_MIN_SPEED, within_contact_radius};
use crate::entity::{spec_regen, spec_drag};
use crate::store::{Deferred, apply_deferred, seq_extends, kept_seq, unique_indices,
    num_deleted_below};
use crate::rng::rand_in;

verus! {

/// Ticks of the death sequence after which the round is over.
pub const ROUND_OVER_AT: u16 = 400;

/// Attraction radius of a currency pickup, in sub-units (100 units).
pub const CURRENCY_ATTRACT: i64 = 100_000;

/// Consumption radius of a currency pickup, in sub-units (40 units).
pub const CURRENCY_PICKUP: i64 = 40_000;

/// Animation phase advance of a currency pickup per tick (0.1 rad).
pub const CURRENCY_PHASE_STEP: i64 = 100;

/// Process-local state for the locally controlled combatant.
pub struct PlayerContext {
    /// Index of the controlled combatant in the entity collection, kept
    /// valid across deletion compaction.
    pub index: usize,
    /// Currency collected so far.
    pub gold: u32,
    /// Camera rectangle for the presentation layer, in sub-units.
    pub camera: RectI,
    /// `None` while the combatant lives; once dead, ticks counted since.
    pub round_end: Option<u16>,
}

impl PlayerContext {
    pub fn new() -> (p: PlayerContext)
        ensures
            p.index == 0,
            p.gold == 0,
            p.round_end is None,
            p.camera == (RectI { x: 0, y: 0, w: 1000, h: 1000 }),
    {
        PlayerContext {
            index: 0,
            gold: 0,
            camera: RectI { x: 0, y: 0, w: 1000, h: 1000 },
            round_end: None,
        }
    }
}

/// Already-decoded input for one tick, handed in by the host layer.
pub struct InputState {
    /// Pointer offset from the screen center, in sub-units.
    pub pointer_delta: Vec2I,
    /// Pointer in normalized device coordinates, sub-units of `[-1, 1]`.
    pub pointer_norm: Vec2I,
    /// Screen size in sub-units.
    pub screen_w: i64,
    pub screen_h: i64,
    pub move_up: bool,
    pub move_down: bool,
    pub move_left: bool,
    pub move_right: bool,
    pub fire_pressed: bool,
    pub fire_down: bool,
    /// Weapon slot chosen by a number key this tick, 1 through 6.
    pub weapon_select: Option<u8>,
    /// The manual-respawn key.
    pub respawn: bool,
    /// The host window asked to quit.
    pub quit: bool,
}

pub open spec fn wf_input(i: &InputState) -> bool {
    &&& in_range(i.pointer_delta)
    &&& -MILLI <= i.pointer_norm.x <= MILLI
    &&& -MILLI <= i.pointer_norm.y <= MILLI
    &&& 0 < i.screen_w <= 100_000_000
    &&& 0 < i.screen_h <= 100_000_000
}

/// What every outcome of the random spawner satisfies: a well-formed
/// combatant at rest, a tile's margin inside the arena, full health and a
/// cold trigger.
pub open spec fn spec_spawned_combatant(e: Entity) -> bool {
    &&& wf_entity(e)
    &&& e.velocity == (Vec2I { x: 0, y: 0 })
    &&& 100_000 <= e.position.x <= ARENA_MILLI - 100_000
    &&& 100_000 <= e.position.y <= ARENA_MILLI - 100_000
    &&& match e.variant {
        Variant::Combatant { weapon, facing, health } => {
            &&& health == HEALTH_CAP
            &&& weapon.cooldown == 0
        },
        _ => false,
    }
}

/// A fresh combatant at a random spot well inside the arena, with a random
/// weapon and facing, full health and a cold trigger.
pub fn spawn_combatant() -> (e: Entity)
    ensures
        spec_spawned_combatant(e),
{
    let x = rand_in(100_000, 4_900_001);
    let y = rand_in(100_000, 4_900_001);
    let kind = match rand_in(0, 6) {
        0 => WeaponKind::Sniper,
        1 => WeaponKind::Gunner,
        2 => WeaponKind::Grenade,
        3 => WeaponKind::Shotgun,
        4 => WeaponKind::Sprayer,
        _ => WeaponKind::Knife(rand_in(0, 2) == 0),
    };
    let facing = dir12(rand_in(0, 30));
    Entity {
        position: Vec2I { x: x as i64, y: y as i64 },
        velocity: Vec2I { x: 0, y: 0 },
        variant: Variant::Combatant {
            weapon: Weapon { kind, cooldown: 0 },
            facing,
            health: HEALTH_CAP,
        },
    }
}

/// Particle `k` of a death burst: red, fast, radially outward.
pub open spec fn spec_death_particle(pos: Vec2I, k: int) -> Entity {
    Entity {
        position: pos,
        velocity: spec_vscale(spec_dir12(k), 15),
        variant: Variant::Particle { color: ParticleColor::Red, life: 20 },
    }
}

/// Currency drop `k` of a death burst, phased by its direction.
pub open spec fn spec_death_gold(pos: Vec2I, k: int) -> Entity {
    Entity {
        position: pos,
        velocity: spec_vscale(spec_dir12(k), 10),
        variant: Variant::Currency { phase: (209 * k) as i64 },
    }
}

/// The death burst: thirty red particles and thirty currency drops, paired
/// around the compass.
pub open spec fn spec_death_burst(pos: Vec2I, i: int) -> Entity {
    if i % 2 == 0 {
        spec_death_particle(pos, i / 2)
    } else {
        spec_death_gold(pos, i / 2)
    }
}

/// Inner particle `k` of a grenade detonation.
pub open spec fn spec_det_inner(pos: Vec2I, k: int) -> Entity {
    Entity {
        position: pos,
        velocity: spec_vscale(spec_dir12(k), 15),
        variant: Variant::Particle { color: ParticleColor::Red, life: 25 },
    }
}

/// Outer particle `k` of a grenade detonation, skewed a tenth of a radian.
pub open spec fn spec_det_outer(pos: Vec2I, k: int) -> Entity {
    Entity {
        position: pos,
        velocity: spec_vscale(spec_rot(spec_dir12(k), 995, 100), 17),
        variant: Variant::Particle { color: ParticleColor::Red, life: 20 },
    }
}

/// The detonation burst: thirty pairs of red particles.
pub open spec fn spec_det_burst(pos: Vec2I, i: int) -> Entity {
    if i % 2 == 0 {
        spec_det_inner(pos, i / 2)
    } else {
        spec_det_outer(pos, i / 2)
    }
}

/// Append the radial burst a dying combatant leaves: thirty red particles
/// and thirty currency drops.
#[verifier::loop_isolation(false)]
pub fn spawn_death_burst(pos: Vec2I, defer: &mut Deferred)
    requires
        in_range(pos),
    ensures
        final(defer).deletes == old(defer).deletes,
        final(defer).appends@ == old(defer).appends@ + Seq::new(
            60,
            |i: int| spec_death_burst(pos, i),
        ),
        forall|i: int|
            old(defer).appends@.len() <= i < final(defer).appends@.len() ==> wf_entity(
                #[trigger] final(defer).appends@[i],
            ),
{
    let ghost ap0 = defer.appends@;
    let mut k: u32 = 0;
    while k < 30
        invariant
            k <= 30,
            defer.deletes == old(defer).deletes,
            defer.appends@ == ap0 + Seq::new((2 * k) as nat, |i: int| spec_death_burst(pos, i)),
            forall|i: int|
                ap0.len() <= i < defer.appends@.len() ==> wf_entity(#[trigger] defer.appends@[i]),
        decreases 30 - k,
    {
        let d = dir12(k);
        defer.schedule_append(
            Entity {
                position: pos,
                velocity: vscale(d, 15),
                variant: Variant::Particle { color: ParticleColor::Red, life: 20 },
            },
        );
        defer.schedule_append(
            Entity {
                position: pos,
                velocity: vscale(d, 10),
                variant: Variant::Currency { phase: 209 * (k as i64) },
            },
        );
        proof {
            assert(Seq::new((2 * k + 2) as nat, |i: int| spec_death_burst(pos, i)) =~= Seq::new(
                (2 * k) as nat,
                |i: int| spec_death_burst(pos, i),
            ).push(spec_death_burst(pos, 2 * k as int)).push(
                spec_death_burst(pos, 2 * k as int + 1),
            ));
        }
        k = k + 1;
    }
}

/// Append the particle shower of a grenade detonation.
#[verifier::loop_isolation(false)]
pub fn spawn_detonation_burst(pos: Vec2I, defer: &mut Deferred)
    requires
        in_range(pos),
    ensures
        final(defer).deletes == old(defer).deletes,
        final(defer).appends@ == old(defer).appends@ + Seq::new(
            60,
            |i: int| spec_det_burst(pos, i),
        ),
        forall|i: int|
            old(defer).appends@.len() <= i < final(defer).appends@.len() ==> wf_entity(
                #[trigger] final(defer).appends@[i],
            ),
{
    let ghost ap0 = defer.appends@;
    let mut k: u32 = 0;
    while k < 30
        invariant
            k <= 30,
            defer.deletes == old(defer).deletes,
            defer.appends@ == ap0 + Seq::new((2 * k) as nat, |i: int| spec_det_burst(pos, i)),
            forall|i: int|
                ap0.len() <= i < defer.appends@.len() ==> wf_entity(#[trigger] defer.appends@[i]),
        decreases 30 - k,
    {
        let d = dir12(k);
        defer.schedule_append(
            Entity {
                position: pos,
                velocity: vscale(d, 15),
                variant: Variant::Particle { color: ParticleColor::Red, life: 25 },
            },
        );
        let skew = rot_milli(d, 995, 100);
        defer.schedule_append(
            Entity {
                position: pos,
                velocity: vscale(skew, 17),
                variant: Variant::Particle { color: ParticleColor::Red, life: 20 },
            },
        );
        proof {
            assert(Seq::new((2 * k + 2) as nat, |i: int| spec_det_burst(pos, i)) =~= Seq::new(
                (2 * k) as nat,
                |i: int| spec_det_burst(pos, i),
            ).push(spec_det_burst(pos, 2 * k as int)).push(spec_det_burst(pos, 2 * k as int + 1)));
        }
        k = k + 1;
    }
}

/// One tick of a particle: its life wanes by one, and at zero it is
/// scheduled for removal.
pub fn update_particle(count: usize, e: &mut Entity, defer: &mut Deferred)
    requires
        old(e).variant matches Variant::Particle { .. },
        wf_entity(*old(e)),
    ensures
        wf_entity(*final(e)),
        final(e).position == old(e).position,
        final(e).velocity == old(e).velocity,
        final(defer).appends == old(defer).appends,
        seq_extends(old(defer).deletes@, final(defer).deletes@),
        forall|j: int|
            old(defer).deletes@.len() <= j < final(defer).deletes@.len()
                ==> #[trigger] final(defer).deletes@[j] == count,
        match (old(e).variant, final(e).variant) {
            (
                Variant::Particle { color: c0, life: l0 },
                Variant::Particle { color: c1, life: l1 },
            ) => {
                &&& c1 == c0
                &&& l1 == (if l0 > 0 {
                    (l0 - 1) as u32
                } else {
                    0u32
                })
                &&& (l1 == 0 ==> final(defer).deletes@.contains(count))
                &&& (l1 != 0 ==> final(defer).deletes == old(defer).deletes)
            },
            _ => false,
        },
        forall|b: int| old(defer).wf(b) && (count as int) < b ==> final(defer).wf(b),
{
    let (color, life) = match e.variant {
        Variant::Particle { color, life } => (color, life),
        _ => (ParticleColor::Red, 0),
    };
    let nl: u32 = if life > 0 {
        life - 1
    } else {
        0
    };
    if nl == 0 {
        defer.schedule_delete(count);
    }
    e.variant = Variant::Particle { color, life: nl };
}

/// One tick of a projectile: it ages by one; a knife slash past its life is
/// removed, a grenade past its fuse detonates into a particle shower and is
/// removed, and any other kind is removed once it has slowed below the
/// despawn speed.
pub fn update_projectile(count: usize, e: &mut Entity, defer: &mut Deferred)
    requires
        old(e).variant matches Variant::Projectile { .. },
        wf_entity(*old(e)),
    ensures
        wf_entity(*final(e)),
        final(e).position == old(e).position,
        final(e).velocity == old(e).velocity,
        seq_extends(old(defer).deletes@, final(defer).deletes@),
        forall|j: int|
            old(defer).deletes@.len() <= j < final(defer).deletes@.len()
                ==> #[trigger] final(defer).deletes@[j] == count,
        match (old(e).variant, final(e).variant) {
            (
                Variant::Projectile { kind: k0, age: a0, owner: o0 },
                Variant::Projectile { kind: k1, age: a1, owner: o1 },
            ) => {
                &&& k1 == k0
                &&& o1 == o0
                &&& a1 == (if a0 < u32::MAX {
                    (a0 + 1) as u32
                } else {
                    a0
                })
                &&& match k0 {
                    WeaponKind::Knife(_) => {
                        &&& (a0 >= KNIFE_LIFE ==> final(defer).deletes@.contains(count))
                        &&& (a0 < KNIFE_LIFE ==> final(defer).deletes == old(defer).deletes)
                        &&& final(defer).appends == old(defer).appends
                    },
                    WeaponKind::Grenade => {
                        &&& (a0 >= GRENADE_FUSE ==> final(defer).deletes@.contains(count)
                            && final(defer).appends@ == old(defer).appends@ + Seq::new(
                            60,
                            |i: int| spec_det_burst(old(e).position, i),
                        ))
                        &&& (a0 < GRENADE_FUSE ==> final(defer).deletes == old(defer).deletes
                            && final(defer).appends == old(defer).appends)
                    },
                    _ => {
                        &&& final(defer).appends == old(defer).appends
                        &&& (final(defer).deletes@.contains(count) <==> (old(
                            defer,
                        ).deletes@.contains(count) || dist2(
                            Vec2I { x: 0, y: 0 },
                            old(e).velocity,
                        ) < PROJECTILE_MIN_SPEED * PROJECTILE_MIN_SPEED))
                        &&& (old(defer).deletes@.contains(count) || dist2(
                            Vec2I { x: 0, y: 0 },
                            old(e).velocity,
                        ) >= PROJECTILE_MIN_SPEED * PROJECTILE_MIN_SPEED) ==> final(defer).deletes
                            == old(defer).deletes
                    },
                }
            },
            _ => false,
        },
        forall|i: int|
            old(defer).appends@.len() <= i < final(defer).appends@.len() ==> wf_entity(
                #[trigger] final(defer).appends@[i],
            ),
        forall|b: int| old(defer).wf(b) && (count as int) < b ==> final(defer).wf(b),
{
    let (kind, age, owner) = match e.variant {
        Variant::Projectile { kind, age, owner } => (kind, age, owner),
        _ => (WeaponKind::Gunner, 0, None),
    };
    match kind {
        WeaponKind::Knife(_) => {
            if age >= KNIFE_LIFE {
                defer.schedule_delete(count);
            }
        },
        WeaponKind::Grenade => {
            if age >= GRENADE_FUSE {
                defer.schedule_delete(count);
                spawn_detonation_burst(e.position, defer);
            }
        },
        _ => {
            if !defer.is_scheduled(count) {
                let zero = Vec2I { x: 0, y: 0 };
                if within_contact_radius(zero, e.velocity, PROJECTILE_MIN_SPEED) {
                    defer.schedule_delete(count);
                }
            }
        },
    }
    let na: u32 = if age < u32::MAX {
        age + 1
    } else {
        age
    };
    e.variant = Variant::Projectile { kind, age: na, owner };
}

/// The velocity of a currency pickup at `pos` after steering toward the
/// first `n` snapshot entries: for every combatant within the attraction
/// radius (and not exactly at the pickup's own position), one unit vector
/// toward it is added, in snapshot order.
pub open spec fn spec_currency_steer(snap: Seq<Entity>, pos: Vec2I, vel: Vec2I, n: int) -> Vec2I
    decreases n,
{
    if n <= 0 {
        vel
    } else {
        let prev = spec_currency_steer(snap, pos, vel, n - 1);
        let hb = snap[n - 1];
        if is_combatant(hb) && dist2(hb.position, pos) < CURRENCY_ATTRACT * CURRENCY_ATTRACT
            && hb.position != pos {
            vec_cadd(
                prev,
                spec_normalize(
                    Vec2I { x: (hb.position.x - pos.x) as i64, y: (hb.position.y - pos.y) as i64 },
                ),
            )
        } else {
            prev
        }
    }
}

/// One tick of a currency pickup: its animation phase advances, it steers
/// toward every combatant within the attraction radius, and strictly within
/// the pickup radius of the locally controlled combatant it is consumed:
/// scheduled for removal (once) and credited to the player.
#[verifier::loop_isolation(false)]
pub fn update_currency(
    count: usize,
    e: &mut Entity,
    snapshot: &Vec<Entity>,
    player: &mut PlayerContext,
    defer: &mut Deferred,
)
    requires
        old(e).variant matches Variant::Currency { .. },
        wf_entity(*old(e)),
        forall|i: int| 0 <= i < snapshot@.len() ==> wf_entity(#[trigger] snapshot@[i]),
    ensures
        wf_entity(*final(e)),
        final(e).position == old(e).position,
        final(defer).appends == old(defer).appends,
        seq_extends(old(defer).deletes@, final(defer).deletes@),
        forall|j: int|
            old(defer).deletes@.len() <= j < final(defer).deletes@.len()
                ==> #[trigger] final(defer).deletes@[j] == count,
        final(player).index == old(player).index,
        final(player).round_end == old(player).round_end,
        final(player).camera == old(player).camera,
        final(player).gold >= old(player).gold,
        match old(e).variant {
            Variant::Currency { phase } => final(e).variant == (Variant::Currency {
                phase: clamp_coord(phase + CURRENCY_PHASE_STEP) as i64,
            }),
            _ => false,
        },
        final(e).velocity == spec_currency_steer(
            snapshot@,
            old(e).position,
            old(e).velocity,
            snapshot@.len() as int,
        ),
        ({
            let picked = (old(player).index as int) < snapshot@.len() && is_combatant(
                snapshot@[old(player).index as int],
            ) && dist2(snapshot@[old(player).index as int].position, old(e).position)
                < CURRENCY_PICKUP * CURRENCY_PICKUP;
            &&& (picked && !old(defer).deletes@.contains(count) ==> final(defer).deletes@.contains(
                count,
            ) && final(player).gold == (if old(player).gold < u32::MAX {
                old(player).gold + 1
            } else {
                old(player).gold as int
            }))
            &&& (!picked ==> final(defer).deletes == old(defer).deletes && final(player).gold
                == old(player).gold)
        }),
        forall|b: int| old(defer).wf(b) && (count as int) < b ==> final(defer).wf(b),
{
    let phase0 = match e.variant {
        Variant::Currency { phase } => phase,
        _ => 0,
    };
    e.variant = Variant::Currency { phase: cadd(phase0, CURRENCY_PHASE_STEP) };
    let mut vel = e.velocity;
    let mut i: usize = 0;
    while i < snapshot.len()
        invariant
            i <= snapshot@.len(),
            in_range(vel),
            *e == (Entity { position: old(e).position, velocity: old(e).velocity, variant: e.variant }),
            e.variant == (match old(e).variant {
                Variant::Currency { phase } => Variant::Currency {
                    phase: clamp_coord(phase + CURRENCY_PHASE_STEP) as i64,
                },
                _ => old(e).variant,
            }),
            wf_variant(e.variant),
            vel == spec_currency_steer(snapshot@, old(e).position, old(e).velocity, i as int),
            defer.appends == old(defer).appends,
            seq_extends(old(defer).deletes@, defer.deletes@),
            forall|j: int|
                old(defer).deletes@.len() <= j < defer.deletes@.len()
                    ==> #[trigger] defer.deletes@[j] == count,
            player.index == old(player).index,
            player.round_end == old(player).round_end,
            player.camera == old(player).camera,
            player.gold >= old(player).gold,
            ({
                let picked_pre = exists|j: int|
                    0 <= j < i && j == old(player).index as int && is_combatant(
                        #[trigger] snapshot@[j],
                    ) && dist2(snapshot@[j].position, old(e).position) < CURRENCY_PICKUP
                        * CURRENCY_PICKUP;
                &&& (picked_pre && !old(defer).deletes@.contains(count) ==> defer.deletes@.contains(
                    count,
                ) && player.gold == (if old(player).gold < u32::MAX {
                    old(player).gold + 1
                } else {
                    old(player).gold as int
                }))
                &&& (!picked_pre ==> defer.deletes == old(defer).deletes && player.gold == old(
                    player,
                ).gold)
            }),
            forall|b: int| old(defer).wf(b) && (count as int) < b ==> defer.wf(b),
        decreases snapshot@.len() - i,
    {
        let hb = &snapshot[i];
        let hb_is_combatant = match hb.variant {
            Variant::Combatant { .. } => true,
            _ => false,
        };
        if hb_is_combatant {
            if within_contact_radius(hb.position, e.position, CURRENCY_ATTRACT) {
                if !(hb.position.x == e.position.x && hb.position.y == e.position.y) {
                    let toward = normalize_milli(
                        Vec2I { x: hb.position.x - e.position.x, y: hb.position.y - e.position.y },
                    );
                    vel = vadd(vel, toward);
                }
                if i == player.index && within_contact_radius(
                    hb.position,
                    e.position,
                    CURRENCY_PICKUP,
                ) {
                    if !defer.is_scheduled(count) {
                        defer.schedule_delete(count);
                        if player.gold < u32::MAX {
                            player.gold = player.gold + 1;
                        }
                    }
                }
            }
        }
        i = i + 1;
    }
    e.velocity = vel;
}

/// The rectangle of the grid cell at column `cx`, row `cy`.
pub open spec fn spec_cell_rect(cx: int, cy: int) -> RectI {
    RectI {
        x: (cx * CELL_MILLI) as i64,
        y: (cy * CELL_MILLI) as i64,
        w: CELL_MILLI,
        h: CELL_MILLI,
    }
}

/// The bounce rule of a crossed solid cell: by the octant of the entity
/// relative to the cell's corner, the velocity keeps one axis and zeroes
/// the other, or reflects downward motion.
pub open spec fn spec_bounce_mask(dx: int, dy: int, vel: Vec2I) -> Vec2I {
    if dx > 0 {
        if dy < -dx {
            Vec2I { x: 0, y: vel.y }
        } else if dy < dx {
            Vec2I { x: vel.x, y: 0 }
        } else {
            Vec2I { x: 0, y: (-vel.y) as i64 }
        }
    } else if dx < 0 {
        if dy > -dx {
            Vec2I { x: 0, y: (-vel.y) as i64 }
        } else if dy > dx {
            Vec2I { x: vel.x, y: 0 }
        } else {
            Vec2I { x: 0, y: vel.y }
        }
    } else {
        Vec2I { x: 0, y: (-vel.y) as i64 }
    }
}

/// The effect of one cell on the moving entity: nothing unless the cell's
/// rectangle crosses the swept path; then the velocity is masked by the
/// bounce rule and the position takes one extra step.
pub open spec fn spec_bounce_cell(pos: Vec2I, vel: Vec2I, cx: int, cy: int) -> (Vec2I, Vec2I) {
    let rect = spec_cell_rect(cx, cy);
    if crate::geom::spec_segment_hits_rect(pos, vec_cadd(pos, vel), rect) {
        let nv = spec_bounce_mask(pos.x - rect.x, pos.y - rect.y, vel);
        (vec_cadd(pos, nv), nv)
    } else {
        (pos, vel)
    }
}

/// Position and velocity after bouncing off the solid cells among the
/// first `k` of the grid, visited in column-major scan order.
pub open spec fn spec_terrain_fold(cells: Seq<Tile>, pos: Vec2I, vel: Vec2I, k: int) -> (
    Vec2I,
    Vec2I,
)
    decreases k,
{
    if k <= 0 {
        (pos, vel)
    } else {
        let prev = spec_terrain_fold(cells, pos, vel, k - 1);
        if cells[k - 1].solid {
            spec_bounce_cell(prev.0, prev.1, (k - 1) / 100, (k - 1) % 100)
        } else {
            prev
        }
    }
}

/// Bounce a combatant off every solid tile its swept path crosses this
/// tick, in grid scan order: exactly the fold of the per-cell bounce rule.
/// An arena without solid tiles never changes anything.
#[verifier::loop_isolation(false)]
pub fn terrain_collide(map: &TileGrid, pos0: Vec2I, vel0: Vec2I) -> (r: (Vec2I, Vec2I))
    requires
        wf_grid(map),
        in_range(pos0),
        in_range(vel0),
    ensures
        in_range(r.0),
        in_range(r.1),
        r == spec_terrain_fold(map.cells@, pos0, vel0, map.cells@.len() as int),
        (forall|i: int| 0 <= i < map.cells@.len() ==> !(#[trigger] map.cells@[i]).solid) ==> r
            == (pos0, vel0),
{
    let ghost cells = map.cells@;
    let mut pos = pos0;
    let mut vel = vel0;
    let mut x: usize = 0;
    while x < MAP_W
        invariant
            x <= MAP_W,
            in_range(pos),
            in_range(vel),
            (pos, vel) == spec_terrain_fold(cells, pos0, vel0, x as int * 100),
            (forall|i: int| 0 <= i < cells.len() ==> !(#[trigger] cells[i]).solid) ==> (pos, vel)
                == (pos0, vel0),
        decreases MAP_W - x,
    {
        let mut y: usize = 0;
        while y < MAP_H
            invariant
                x < MAP_W,
                y <= MAP_H,
                in_range(pos),
                in_range(vel),
                (pos, vel) == spec_terrain_fold(cells, pos0, vel0, x as int * 100 + y as int),
                (forall|i: int| 0 <= i < cells.len() ==> !(#[trigger] cells[i]).solid) ==> (
                pos, vel) == (pos0, vel0),
            decreases MAP_H - y,
        {
            let ghost k: int = x as int * 100 + y as int;
            proof {
                vstd::arithmetic::div_mod::lemma_fundamental_div_mod_converse(
                    k,
                    100,
                    x as int,
                    y as int,
                );
            }
            if map.cells[x * 100 + y].solid {
                let rect = TileGrid::cell_rect(x, y);
                let swept_end = vadd(pos, vel);
                if crate::geom::segment_hits_rect(pos, swept_end, &rect) {
                    let dx: i64 = pos.x - rect.x;
                    let dy: i64 = pos.y - rect.y;
                    vel = if dx > 0 {
                        if dy < -dx {
                            Vec2I { x: 0, y: vel.y }
                        } else if dy < dx {
                            Vec2I { x: vel.x, y: 0 }
                        } else {
                            Vec2I { x: 0, y: -vel.y }
                        }
                    } else if dx < 0 {
                        if dy > -dx {
                            Vec2I { x: 0, y: -vel.y }
                        } else if dy > dx {
                            Vec2I { x: vel.x, y: 0 }
                        } else {
                            Vec2I { x: 0, y: vel.y }
                        }
                    } else {
                        Vec2I { x: 0, y: -vel.y }
                    };
                    pos = vadd(pos, vel);
                }
            }
            y = y + 1;
        }
        x = x + 1;
    }
    proof {
        assert(MAP_W as int * 100 == cells.len());
    }
    (pos, vel)
}

/// The combined movement-key impulse: one unit along each pressed axis,
/// diagonals scaled down to unit length.
pub open spec fn spec_movement(input: &InputState) -> Vec2I {
    let dx: int = (if input.move_right { 1int } else { 0int }) - (if input.move_left {
        1int
    } else {
        0int
    });
    let dy: int = (if input.move_down { 1int } else { 0int }) - (if input.move_up {
        1int
    } else {
        0int
    });
    let scale: int = if dx != 0 && dy != 0 {
        707
    } else {
        1000
    };
    Vec2I { x: (dx * scale) as i64, y: (dy * scale) as i64 }
}

pub fn movement_delta(input: &InputState) -> (m: Vec2I)
    ensures
        m == spec_movement(input),
        -MILLI <= m.x <= MILLI,
        -MILLI <= m.y <= MILLI,
{
    let dx: i64 = (if input.move_right { 1i64 } else { 0i64 }) - (if input.move_left {
        1i64
    } else {
        0i64
    });
    let dy: i64 = (if input.move_down { 1i64 } else { 0i64 }) - (if input.move_up {
        1i64
    } else {
        0i64
    });
    let scale: i64 = if dx != 0 && dy != 0 {
        707
    } else {
        1000
    };
    Vec2I { x: dx * scale, y: dy * scale }
}

/// The weapon after a number-key selection: the chosen kind on the same
/// cooldown counter, or the weapon unchanged when no key is down.
pub open spec fn spec_select_weapon(w: Weapon, sel: Option<u8>) -> Weapon {
    match sel {
        Some(1u8) => Weapon { kind: WeaponKind::Knife(true), cooldown: w.cooldown },
        Some(2u8) => Weapon { kind: WeaponKind::Gunner, cooldown: w.cooldown },
        Some(3u8) => Weapon { kind: WeaponKind::Grenade, cooldown: w.cooldown },
        Some(4u8) => Weapon { kind: WeaponKind::Shotgun, cooldown: w.cooldown },
        Some(5u8) => Weapon { kind: WeaponKind::Sprayer, cooldown: w.cooldown },
        Some(6u8) => Weapon { kind: WeaponKind::Sniper, cooldown: w.cooldown },
        _ => w,
    }
}

/// The complete effect of one tick on the locally controlled, live
/// combatant, with the fire attempt's intermediate weapon, recoil and
/// append segments as witnesses: contacts are resolved against the
/// snapshot, the pointer sets the facing, a number key switches the kind,
/// the weapon fires per `spec_fire_post`, movement and recoil accumulate,
/// terrain is bounced, leaving the arena costs a point, the cooldown
/// advances, and a death at or below zero health schedules removal, starts
/// the countdown and leaves the burst.
pub open spec fn spec_controlled_update(
    count: usize,
    e0: Entity,
    e1: Entity,
    snap: Seq<Entity>,
    cells: Seq<Tile>,
    input: &InputState,
    dels0: Seq<usize>,
    ap0: Seq<Entity>,
    ap_fin: Seq<Entity>,
    dels_fin: Seq<usize>,
    round_fin: Option<u16>,
    wmid: Weapon,
    fd: FireDelta,
    ap1: Seq<Entity>,
    ap2: Seq<Entity>,
) -> bool {
    match e0.variant {
        Variant::Combatant { weapon: vw, facing: vf, health: vh } => {
            let cf = spec_contact_fold(
                count,
                e0.position,
                snap,
                spec_regen(vh as int),
                e0.velocity,
                dels0,
                snap.len() as int,
            );
            let f1 = if input.pointer_delta == (Vec2I { x: 0, y: 0 }) {
                vf
            } else {
                spec_normalize(input.pointer_delta)
            };
            let w1 = spec_select_weapon(vw, input.weapon_select);
            let v2 = vec_cadd(vec_cadd(cf.1, fd.vel_delta), spec_movement(input));
            let p2 = vec_cadd(e0.position, fd.pos_delta);
            let tr = spec_terrain_fold(cells, p2, v2, cells.len() as int);
            let oob = tr.0.x > ARENA_MILLI || tr.0.y > ARENA_MILLI || tr.0.x < 0 || tr.0.y < 0;
            let h2 = if oob {
                clamp_health(cf.0 - HEALTH_SCALE)
            } else {
                cf.0
            };
            let wfin = Weapon {
                kind: wmid.kind,
                cooldown: (if wmid.cooldown < u32::MAX {
                    wmid.cooldown + 1
                } else {
                    wmid.cooldown as int
                }) as u32,
            };
            &&& ap1.len() == ap0.len() + cf.3
            &&& seq_extends(ap0, ap1)
            &&& spec_fire_post(
                w1,
                e0.position,
                cf.1,
                f1,
                count,
                input.fire_pressed,
                input.fire_down,
                wmid,
                ap1,
                ap2,
                fd,
            )
            &&& e1.position == tr.0
            &&& e1.velocity == tr.1
            &&& e1.variant == (Variant::Combatant { weapon: wfin, facing: f1, health: h2 as i64 })
            &&& (cf.0 > 0 ==> ap_fin == ap2)
            &&& (cf.0 <= 0 ==> ap_fin.len() == ap2.len() + 60 && seq_extends(ap2, ap_fin) && (
            forall|j: int|
                ap2.len() <= j < ap2.len() + 60 ==> #[trigger] ap_fin[j] == spec_death_burst(
                    p2,
                    j - ap2.len(),
                )))
            &&& (cf.0 <= 0 ==> round_fin == Some(0u16) && dels_fin.contains(count))
        },
        _ => false,
    }
}

/// One tick of a combatant: regenerate, take projectile contacts from the
/// start-of-tick snapshot, then — for the locally controlled combatant —
/// aim at the pointer, honor the quit request, switch and fire the weapon,
/// accumulate movement, and advance the cooldown; any combatant dying this
/// tick (health at or below zero) is scheduled for removal once and leaves
/// a burst of particles and currency, and the controlled combatant's death
/// starts the round-end countdown.  Terrain is bounced off and leaving the
/// arena costs one health point per tick.
#[verifier::loop_isolation(false)]
#[verifier::rlimit(100)]
pub fn update_combatant(
    count: usize,
    e: &mut Entity,
    snapshot: &Vec<Entity>,
    player: &mut PlayerContext,
    map: &TileGrid,
    input: &InputState,
    defer: &mut Deferred,
    scope: &mut bool,
)
    requires
        old(e).variant matches Variant::Combatant { .. },
        wf_entity(*old(e)),
        wf_input(input),
        wf_grid(map),
        count < snapshot@.len(),
        forall|i: int| 0 <= i < snapshot@.len() ==> wf_entity(#[trigger] snapshot@[i]),
        old(defer).wf(snapshot@.len() as int),
    ensures
        wf_entity(*final(e)),
        final(e).variant matches Variant::Combatant { .. },
        final(defer).wf(snapshot@.len() as int),
        final(player).index == old(player).index,
        final(player).gold == old(player).gold,
        final(player).camera == old(player).camera,
        final(player).round_end == old(player).round_end || (old(player).round_end is None
            && final(player).round_end == Some(0u16)),
        seq_extends(old(defer).appends@, final(defer).appends@),
        seq_extends(old(defer).deletes@, final(defer).deletes@),
        forall|j: int|
            old(defer).deletes@.len() <= j < final(defer).deletes@.len() ==> is_projectile(
                snapshot@[#[trigger] final(defer).deletes@[j] as int],
            ) || final(defer).deletes@[j] == count,
        forall|i: int|
            old(defer).appends@.len() <= i < final(defer).appends@.len() ==> wf_entity(
                #[trigger] final(defer).appends@[i],
            ),
        count == old(player).index && input.quit ==> final(defer).deletes@.contains(count),
        count == old(player).index ==> match final(e).variant {
            Variant::Combatant { facing: ffin, .. } => ffin == (if input.pointer_delta == (Vec2I {
                x: 0,
                y: 0,
            }) {
                match old(e).variant {
                    Variant::Combatant { facing, .. } => facing,
                    _ => ffin,
                }
            } else {
                spec_normalize(input.pointer_delta)
            }),
            _ => false,
        },
        count == old(player).index && old(player).round_end is None && (old(e).variant matches Variant::Combatant { .. }) ==> exists|
            wmid: Weapon,
            fd: FireDelta,
            ap1: Seq<Entity>,
            ap2: Seq<Entity>,
        |
            #[trigger] spec_controlled_update(
                count,
                *old(e),
                *final(e),
                snapshot@,
                map.cells@,
                input,
                old(defer).deletes@,
                old(defer).appends@,
                final(defer).appends@,
                final(defer).deletes@,
                final(player).round_end,
                wmid,
                fd,
                ap1,
                ap2,
            ),
        ({
            let cf = spec_contact_fold(
                count,
                old(e).position,
                snapshot@,
                spec_regen(health_of(*old(e))),
                old(e).velocity,
                old(defer).deletes@,
                snapshot@.len() as int,
            );
            let ap0 = old(defer).appends@;
            &&& final(defer).appends@.len() >= ap0.len() + cf.3
            &&& forall|j: int|
                ap0.len() <= j < ap0.len() + cf.3 ==> (#[trigger] final(defer).appends@[j]).position
                    == old(e).position && final(defer).appends@[j].variant == (Variant::Particle {
                    color: ParticleColor::Red,
                    life: 20,
                })
            &&& (count != old(player).index ==> match old(e).variant {
                Variant::Combatant { weapon: vw, facing: vf, health: vh } => {
                    let died = cf.0 <= 0;
                    let dels2 = if died && !cf.2.contains(count) {
                        cf.2.push(count)
                    } else {
                        cf.2
                    };
                    let tr = spec_terrain_fold(
                        map.cells@,
                        old(e).position,
                        cf.1,
                        map.cells@.len() as int,
                    );
                    let oob = tr.0.x > ARENA_MILLI || tr.0.y > ARENA_MILLI || tr.0.x < 0
                        || tr.0.y < 0;
                    let h2 = if oob {
                        clamp_health(cf.0 - HEALTH_SCALE)
                    } else {
                        cf.0
                    };
                    &&& final(e).position == tr.0
                    &&& final(e).velocity == tr.1
                    &&& final(e).variant == (Variant::Combatant {
                        weapon: vw,
                        facing: vf,
                        health: h2 as i64,
                    })
                    &&& final(defer).deletes@ == dels2
                    &&& final(defer).appends@.len() == ap0.len() + cf.3 + (if died {
                        60int
                    } else {
                        0int
                    })
                    &&& (died ==> forall|j: int|
                        ap0.len() + cf.3 <= j < ap0.len() + cf.3 + 60
                            ==> #[trigger] final(defer).appends@[j] == spec_death_burst(
                            old(e).position,
                            j - ap0.len() - cf.3,
                        ))
                },
                _ => true,
            })
        }),
{
    let (w0, f0, h0) = match e.variant {
        Variant::Combatant { weapon, facing, health } => (weapon, facing, health),
        _ => (Weapon { kind: WeaponKind::Gunner, cooldown: 0 }, Vec2I { x: 0, y: 0 }, 0),
    };
    let mut weapon = w0;
    let mut facing = f0;
    let mut health = regen_health(h0);
    let mut pos = e.position;
    let mut vel = e.velocity;

    let mut i: usize = 0;
    while i < snapshot.len()
        invariant
            i <= snapshot@.len(),
            pos == old(e).position,
            in_range(pos),
            in_range(vel),
            HEALTH_FLOOR <= health <= HEALTH_CAP,
            defer.wf(snapshot@.len() as int),
            seq_extends(old(defer).appends@, defer.appends@),
            seq_extends(old(defer).deletes@, defer.deletes@),
            forall|j: int|
                old(defer).deletes@.len() <= j < defer.deletes@.len() ==> is_projectile(
                    snapshot@[#[trigger] defer.deletes@[j] as int],
                ) || defer.deletes@[j] == count,
            *player == *old(player),
            forall|k: int|
                old(defer).appends@.len() <= k < defer.appends@.len() ==> wf_entity(
                    #[trigger] defer.appends@[k],
                ),
            ({
                let cf = spec_contact_fold(
                    count,
                    old(e).position,
                    snapshot@,
                    spec_regen(h0 as int),
                    old(e).velocity,
                    old(defer).deletes@,
                    i as int,
                );
                &&& health == cf.0
                &&& vel == cf.1
                &&& defer.deletes@ == cf.2
                &&& defer.appends@.len() == old(defer).appends@.len() + cf.3
            }),
            forall|k: int|
                old(defer).appends@.len() <= k < defer.appends@.len() ==> (#[trigger] defer.appends@[k]).position
                    == old(e).position && defer.appends@[k].variant == (Variant::Particle {
                    color: ParticleColor::Red,
                    life: 20,
                }),
        decreases snapshot@.len() - i,
    {
        let hb = &snapshot[i];
        let hb_is_projectile = match hb.variant {
            Variant::Projectile { .. } => true,
            _ => false,
        };
        if hb_is_projectile {
            let outcome = projectile_contact(count, pos, hb);
            match outcome {
                ContactOutcome::Miss => {},
                ContactOutcome::KnifeHit { damage, knockback } => {
                    if !defer.is_scheduled(i) {
                        health = damage_clamped(health, damage);
                        vel = vadd(vel, knockback);
                        defer.schedule_delete(i);
                    }
                },
                ContactOutcome::BulletHit { damage, knockback } => {
                    if !defer.is_scheduled(i) {
                        health = damage_clamped(health, damage);
                        vel = vadd(vel, knockback);
                        defer.schedule_delete(i);
                        let a = rand_in(0, 30);
                        let b = rand_in(0, 30);
                        defer.schedule_append(
                            Entity {
                                position: pos,
                                velocity: Vec2I { x: vscale(dir12(a), 15).x, y: vscale(
                                    dir12(b),
                                    15,
                                ).y },
                                variant: Variant::Particle { color: ParticleColor::Red, life: 20 },
                            },
                        );
                    }
                },
                ContactOutcome::Blast { damage, knockback } => {
                    health = damage_clamped(health, damage);
                    vel = vadd(vel, knockback);
                },
            }
        }
        i = i + 1;
    }

    let ghost ap_mid = defer.appends@;
    let ghost mut g_w1: Weapon = weapon;
    let ghost mut g_wmid: Weapon = weapon;
    let ghost mut g_ap2 = defer.appends@;
    let ghost mut g_fd = FireDelta {
        fired: false,
        vel_delta: Vec2I { x: 0, y: 0 },
        pos_delta: Vec2I { x: 0, y: 0 },
    };
    let ghost vel_at_fire = vel;
    if player.index == count {
        if !(input.pointer_delta.x == 0 && input.pointer_delta.y == 0) {
            facing = normalize_milli(input.pointer_delta);
        }
        if input.quit {
            defer.schedule_delete(count);
        }
        if player.round_end.is_none() {
            match input.weapon_select {
                Some(1) => weapon.kind = WeaponKind::Knife(true),
                Some(2) => weapon.kind = WeaponKind::Gunner,
                Some(3) => weapon.kind = WeaponKind::Grenade,
                Some(4) => weapon.kind = WeaponKind::Shotgun,
                Some(5) => weapon.kind = WeaponKind::Sprayer,
                Some(6) => weapon.kind = WeaponKind::Sniper,
                _ => {},
            }
            proof {
                g_w1 = weapon;
            }
            let sniper_held = match weapon.kind {
                WeaponKind::Sniper => true,
                _ => false,
            };
            if sniper_held {
                *scope = true;
            }
            let fd = fire_weapon(
                &mut weapon,
                pos,
                vel,
                facing,
                count,
                input.fire_pressed,
                input.fire_down,
                defer,
            );
            proof {
                g_wmid = weapon;
                g_ap2 = defer.appends@;
                g_fd = fd;
            }
            vel = vadd(vel, fd.vel_delta);
            pos = vadd(pos, fd.pos_delta);
            let m = movement_delta(input);
            vel = vadd(vel, m);
        }
        if weapon.cooldown < u32::MAX {
            weapon.cooldown = weapon.cooldown + 1;
        }
        if health <= 0 && player.round_end.is_none() {
            defer.schedule_delete(count);
            player.round_end = Some(0);
            spawn_death_burst(pos, defer);
        }
    } else {
        if health <= 0 {
            defer.schedule_delete(count);
            spawn_death_burst(pos, defer);
        }
    }

    let ghost pre_terrain_pos = pos;
    let ghost pre_terrain_vel = vel;
    let moved = terrain_collide(map, pos, vel);
    pos = moved.0;
    vel = moved.1;
    if pos.x > ARENA_MILLI || pos.y > ARENA_MILLI || pos.x < 0 || pos.y < 0 {
        health = apply_damage(health, HEALTH_SCALE);
    }

    e.position = pos;
    e.velocity = vel;
    e.variant = Variant::Combatant { weapon, facing, health };
    proof {
        if count == old(player).index && old(player).round_end is None {
            match old(e).variant {
                Variant::Combatant { weapon: vw, facing: vf, health: vh } => {
                    let cf = spec_contact_fold(
                        count,
                        old(e).position,
                        snapshot@,
                        spec_regen(vh as int),
                        old(e).velocity,
                        old(defer).deletes@,
                        snapshot@.len() as int,
                    );
                    let ap0 = old(defer).appends@;
                    let f1 = if input.pointer_delta == (Vec2I { x: 0, y: 0 }) {
                        vf
                    } else {
                        spec_normalize(input.pointer_delta)
                    };
                    let w1 = spec_select_weapon(vw, input.weapon_select);
                    assert(facing == f1);
                    assert(g_w1 == w1);
                    assert(vel_at_fire == cf.1);
                    assert(ap_mid.len() == ap0.len() + cf.3);
                    assert(seq_extends(ap0, ap_mid));
                    assert(spec_fire_post(
                        w1,
                        old(e).position,
                        cf.1,
                        f1,
                        count,
                        input.fire_pressed,
                        input.fire_down,
                        g_wmid,
                        ap_mid,
                        g_ap2,
                        g_fd,
                    ));
                    let v2 = vec_cadd(vec_cadd(cf.1, g_fd.vel_delta), spec_movement(input));
                    let p2 = vec_cadd(old(e).position, g_fd.pos_delta);
                    assert(pre_terrain_vel == v2);
                    assert(pre_terrain_pos == p2);
                    assert(spec_controlled_update(
                        count,
                        *old(e),
                        *e,
                        snapshot@,
                        map.cells@,
                        input,
                        old(defer).deletes@,
                        old(defer).appends@,
                        defer.appends@,
                        defer.deletes@,
                        player.round_end,
                        g_wmid,
                        g_fd,
                        ap_mid,
                        g_ap2,
                    ));
                },
                _ => {},
            }
        }
    }
}

/// Health after `dmg` (possibly negative) is taken, clamped to the
/// representable band.
fn damage_clamped(h: i64, dmg: i64) -> (r: i64)
    requires
        HEALTH_FLOOR <= h <= HEALTH_CAP,
        -1_000_000_000_000 <= dmg <= 1_000_000_000_000,
    ensures
        r == clamp_health(h - dmg),
        HEALTH_FLOOR <= r <= HEALTH_CAP,
{
    let sub: i64 = h - dmg;
    if sub < HEALTH_FLOOR {
        HEALTH_FLOOR
    } else if sub > HEALTH_CAP {
        HEALTH_CAP
    } else {
        sub
    }
}

/// The despawn conditions the pass owes the deferred batch: a knife slash
/// at or past its life, a grenade at or past its fuse, any other
/// projectile below the despawn speed, a particle on its last tick.
pub open spec fn spec_due_despawn(e: Entity) -> bool {
    match e.variant {
        Variant::Particle { color, life } => life <= 1,
        Variant::Projectile { kind, age, owner } => match kind {
            WeaponKind::Knife(_) => age >= KNIFE_LIFE,
            WeaponKind::Grenade => age >= GRENADE_FUSE,
            _ => dist2(Vec2I { x: 0, y: 0 }, e.velocity) < PROJECTILE_MIN_SPEED
                * PROJECTILE_MIN_SPEED,
        },
        _ => false,
    }
}

/// One entity's transition through its per-variant update and the shared
/// integration (position plus velocity, then nine-tenths drag).  Particles,
/// projectiles and currency are pinned exactly; a combatant's full
/// transition is `update_combatant`'s contract.
pub open spec fn spec_entity_transition(a: Entity, b: Entity, snap: Seq<Entity>) -> bool {
    match a.variant {
        Variant::Combatant { weapon, facing, health } => is_combatant(b),
        Variant::Currency { phase } => {
            let sv = spec_currency_steer(snap, a.position, a.velocity, snap.len() as int);
            b == (Entity {
                position: vec_cadd(a.position, sv),
                velocity: spec_drag(sv),
                variant: Variant::Currency {
                    phase: clamp_coord(phase + CURRENCY_PHASE_STEP) as i64,
                },
            })
        },
        Variant::Particle { color, life } => b == (Entity {
            position: vec_cadd(a.position, a.velocity),
            velocity: spec_drag(a.velocity),
            variant: Variant::Particle {
                color,
                life: if life > 0 {
                    (life - 1) as u32
                } else {
                    0u32
                },
            },
        }),
        Variant::Projectile { kind, age, owner } => b == (Entity {
            position: vec_cadd(a.position, a.velocity),
            velocity: spec_drag(a.velocity),
            variant: Variant::Projectile {
                kind,
                age: if age < u32::MAX {
                    (age + 1) as u32
                } else {
                    age
                },
                owner,
            },
        }),
    }
}

/// What a click on the weapon-slot strip may change in the committed
/// collection: nothing, or the controlled combatant's weapon kind alone.
pub open spec fn spec_same_but_weapon_kind(a: Entity, b: Entity) -> bool {
    &&& b.position == a.position
    &&& b.velocity == a.velocity
    &&& (b.variant == a.variant || match (a.variant, b.variant) {
        (
            Variant::Combatant { weapon: wa, facing: fa, health: ha },
            Variant::Combatant { weapon: wb, facing: fb, health: hb },
        ) => wb.cooldown == wa.cooldown && fb == fa && hb == ha,
        _ => false,
    })
}

/// The player's currency after the pass: one credit, saturating, for every
/// currency pickup in the snapshot strictly within the pickup radius of the
/// locally controlled combatant.
pub open spec fn spec_gold_after(snap: Seq<Entity>, idx: int, gold: int, n: int) -> int
    decreases n,
{
    if n <= 0 {
        gold
    } else {
        let prev = spec_gold_after(snap, idx, gold, n - 1);
        if (snap[n - 1].variant matches Variant::Currency { .. }) && 0 <= idx < snap.len()
            && is_combatant(snap[idx]) && dist2(snap[idx].position, snap[n - 1].position)
            < CURRENCY_PICKUP * CURRENCY_PICKUP {
            if prev < u32::MAX {
                prev + 1
            } else {
                prev
            }
        } else {
            prev
        }
    }
}

/// One full pass, related to its commit: `mid` is the start-of-tick
/// collection after the per-entity updates and integration, `dels` and
/// `apps` the deferred batch of the pass.  The final collection is the
/// kept survivors in order plus the appends (with at most the controlled
/// combatant's weapon kind changed by the slot strip), its size obeys the
/// commit equation, the tracked index shifts by the deletions below it,
/// every entity stepped by its variant's transition, and everything due to
/// despawn was scheduled.
pub open spec fn spec_tick_commit(
    snap: Seq<Entity>,
    mid: Seq<Entity>,
    dels: Seq<usize>,
    apps: Seq<Entity>,
    fin: Seq<Entity>,
    idx0: int,
    idx1: int,
) -> bool {
    let committed = kept_seq(mid, dels) + apps;
    &&& mid.len() == snap.len()
    &&& unique_indices(dels)
    &&& (forall|i: int| 0 <= i < dels.len() ==> (#[trigger] dels[i] as int) < snap.len())
    &&& fin.len() == committed.len()
    &&& fin.len() == snap.len() - dels.len() + apps.len()
    &&& idx1 == idx0 - num_deleted_below(dels, idx0)
    &&& (forall|i: int| 0 <= i < fin.len() && i != idx1 ==> fin[i] == #[trigger] committed[i])
    &&& (0 <= idx1 < fin.len() ==> spec_same_but_weapon_kind(committed[idx1], fin[idx1]))
    &&& (forall|i: int|
        0 <= i < snap.len() ==> spec_entity_transition(snap[i], #[trigger] mid[i], snap))
    &&& (forall|i: int|
        0 <= i < snap.len() && spec_due_despawn(#[trigger] snap[i]) ==> dels.contains(i as usize))
}

/// The whole simulation: the terrain, the live entities, and the local
/// player's context.
pub struct Game {
    pub map: TileGrid,
    pub entities: Vec<Entity>,
    pub player: PlayerContext,
}

pub open spec fn wf_game(g: &Game) -> bool {
    &&& wf_grid(&g.map)
    &&& forall|i: int| 0 <= i < g.entities@.len() ==> wf_entity(#[trigger] g.entities@[i])
}

impl Game {
    /// A fresh round: seeded terrain, two combatants at random spots, and a
    /// reset player context tracking the first of them.
    pub fn init() -> (g: Game)
        ensures
            wf_game(&g),
            g.entities@.len() == 2,
            g.player.index == 0,
            g.player.gold == 0,
            g.player.round_end is None,
            g.player.camera == (RectI { x: 0, y: 0, w: 1000, h: 1000 }),
            forall|i: int| 0 <= i < 2 ==> spec_spawned_combatant(#[trigger] g.entities@[i]),
            forall|i: int|
                0 <= i < g.map.cells@.len() ==> !(#[trigger] g.map.cells@[i]).solid
                    && g.map.cells@[i].density < DENSITY_MAX,
    {
        let map = TileGrid::new_seeded();
        let mut entities: Vec<Entity> = Vec::new();
        entities.push(spawn_combatant());
        entities.push(spawn_combatant());
        Game { map, entities, player: PlayerContext::new() }
    }

    /// Advance the simulation one frame.
    ///
    /// The pass snapshots the entities, updates each one against the
    /// snapshot (deferring every structural change), commits the deferred
    /// deletions and appends in one step, refreshes the camera and the
    /// weapon-slot strip, and finally advances the round-end countdown.
    /// The result is `true` exactly once per round: on the frame whose
    /// countdown had already passed `ROUND_OVER_AT`.
    #[verifier::loop_isolation(false)]
    #[verifier::rlimit(100)]
    pub fn tick(&mut self, input: &InputState) -> (over: bool)
        requires
            wf_game(&*old(self)),
            wf_input(input),
        ensures
            wf_game(&*final(self)),
            final(self).map == old(self).map,
            forall|i: int|
                0 <= i < final(self).entities@.len() ==> health_of(
                    #[trigger] final(self).entities@[i],
                ) <= HEALTH_CAP,
            exists|mid: Seq<Entity>, dels: Seq<usize>, apps: Seq<Entity>|
                #[trigger] spec_tick_commit(
                    old(self).entities@,
                    mid,
                    dels,
                    apps,
                    final(self).entities@,
                    old(self).player.index as int,
                    final(self).player.index as int,
                ),
            over == (match old(self).player.round_end {
                Some(t) => t > ROUND_OVER_AT,
                None => false,
            }),
            final(self).player.gold >= old(self).player.gold,
            final(self).player.gold == spec_gold_after(
                old(self).entities@,
                old(self).player.index as int,
                old(self).player.gold as int,
                old(self).entities@.len() as int,
            ),
            match old(self).player.round_end {
                Some(t) => final(self).player.round_end == (if t > ROUND_OVER_AT {
                    Some(t)
                } else {
                    Some((t + 1) as u16)
                }),
                None => final(self).player.round_end is None || final(self).player.round_end
                    == Some(1u16),
            },
    {
        let n = self.entities.len();
        let mut defer = Deferred::new();
        let mut scope = false;
        if input.respawn {
            defer.schedule_append(spawn_combatant());
        }

        let mut snapshot: Vec<Entity> = Vec::new();
        let mut c: usize = 0;
        while c < n
            invariant
                c <= n,
                n == self.entities@.len(),
                *self == *old(self),
                snapshot@ == self.entities@.subrange(0, c as int),
            decreases n - c,
        {
            snapshot.push(self.entities[c]);
            c = c + 1;
        }
        proof {
            assert(self.entities@.subrange(0, n as int) =~= self.entities@);
        }

        let mut i: usize = 0;
        while i < n
            invariant
                i <= n,
                n == self.entities@.len(),
                snapshot@ == old(self).entities@,
                self.map == old(self).map,
                forall|k: int| 0 <= k < n ==> wf_entity(#[trigger] self.entities@[k]),
                forall|k: int| i <= k < n ==> self.entities@[k] == snapshot@[k],
                forall|k: int|
                    0 <= k < i ==> spec_entity_transition(
                        snapshot@[k],
                        #[trigger] self.entities@[k],
                        snapshot@,
                    ),
                forall|k: int|
                    0 <= k < i && spec_due_despawn(#[trigger] snapshot@[k])
                        ==> defer.deletes@.contains(k as usize),
                defer.wf(n as int),
                forall|k: int|
                    0 <= k < defer.appends@.len() ==> wf_entity(#[trigger] defer.appends@[k]),
                self.player.index == old(self).player.index,
                self.player.gold >= old(self).player.gold,
                self.player.gold == spec_gold_after(
                    snapshot@,
                    old(self).player.index as int,
                    old(self).player.gold as int,
                    i as int,
                ),
                forall|k: int|
                    i <= k < n && ((#[trigger] snapshot@[k]).variant matches Variant::Currency {
                        ..
                    }) ==> !defer.deletes@.contains(k as usize),
                self.player.round_end == old(self).player.round_end || (old(
                    self,
                ).player.round_end is None && self.player.round_end == Some(0u16)),
            decreases n - i,
        {
            let mut e = self.entities[i];
            let ghost ap_pre = defer.appends@;
            let ghost del_pre = defer.deletes@;
            match e.variant {
                Variant::Combatant { .. } => {
                    update_combatant(
                        i,
                        &mut e,
                        &snapshot,
                        &mut self.player,
                        &self.map,
                        input,
                        &mut defer,
                        &mut scope,
                    );
                },
                Variant::Currency { .. } => {
                    update_currency(i, &mut e, &snapshot, &mut self.player, &mut defer);
                },
                Variant::Particle { .. } => {
                    update_particle(i, &mut e, &mut defer);
                },
                Variant::Projectile { .. } => {
                    update_projectile(i, &mut e, &mut defer);
                },
            }
            proof {
                assert forall|k: int| 0 <= k < defer.appends@.len() implies wf_entity(
                    defer.appends@[k],
                ) by {
                    if k < ap_pre.len() {
                        assert(defer.appends@[k] == ap_pre[k]);
                    }
                }
            }
            e.position = vadd(e.position, e.velocity);
            e.velocity = drag(e.velocity);
            self.entities[i] = e;
            proof {
                assert(spec_entity_transition(
                    snapshot@[i as int],
                    self.entities@[i as int],
                    snapshot@,
                ));
                assert forall|k: int|
                    0 <= k < i + 1 && spec_due_despawn(snapshot@[k]) implies defer.deletes@.contains(
                    k as usize,
                ) by {
                    if k < i {
                        let jj = choose|jj: int|
                            0 <= jj < del_pre.len() && del_pre[jj] == k as usize;
                        assert(defer.deletes@[jj] == k as usize);
                    }
                }
                assert forall|k: int|
                    i + 1 <= k < n && ((#[trigger] snapshot@[k]).variant matches Variant::Currency {
                        ..
                    }) implies !defer.deletes@.contains(k as usize) by {
                    if defer.deletes@.contains(k as usize) {
                        let jj = choose|jj: int|
                            0 <= jj < defer.deletes@.len() && defer.deletes@[jj] == k as usize;
                        if jj < del_pre.len() {
                            assert(del_pre[jj] == k as usize);
                        }
                    }
                }
            }
            i = i + 1;
        }

        let ghost pre_commit = self.entities@;
        let ghost dels = defer.deletes@;
        let ghost apps = defer.appends@;
        apply_deferred(&mut self.entities, &defer, &mut self.player.index);
        let ghost committed = self.entities@;
        proof {
            crate::store::lemma_kept_seq_all(pre_commit, dels, |ent: Entity| wf_entity(ent));
            assert(forall|k: int|
                0 <= k < self.entities@.len() ==> wf_entity(#[trigger] self.entities@[k]));
        }

        let sw = input.screen_w;
        let sh = input.screen_h;
        proof {
            assert(forall|a: int, b: int|
                0 < a <= b ==> 0 <= #[trigger] (a * 1_600_000 / b) <= 1_600_000)
                by (nonlinear_arith);
        }
        let (sw0, sh0): (i64, i64) = if sh > sw {
            (sw * 1_600_000 / sh, 1_600_000)
        } else {
            (1_600_000, sh * 1_600_000 / sw)
        };
        assert(0 <= sw0 <= 1_600_000 && 0 <= sh0 <= 1_600_000);
        proof {
            assert(forall|a: int, b: int|
                0 <= a <= 1000 && 0 <= b <= 1_600_000 ==> 0 <= #[trigger] (a * b)
                    <= 1_600_000_000) by (nonlinear_arith);
        }
        let mx: i64 = (input.pointer_norm.x + 1000) / 2 * sw0 / 1000;
        let my: i64 = (input.pointer_norm.y + 1000) / 2 * sh0 / 1000;
        let (sw1, sh1): (i64, i64) = if scope {
            (sw0 * 11 / 10, sh0 * 11 / 10)
        } else {
            (sw0, sh0)
        };
        if self.player.index < self.entities.len() {
            let target = self.entities[self.player.index];
            self.player.camera = RectI {
                x: target.position.x - sw1 / 2,
                y: target.position.y - sh1 / 2,
                w: sw1,
                h: sh1,
            };
            if input.fire_pressed && my > sh1 - 90_000 {
                let mut slot: u8 = 0;
                let mut idx: i64 = 1;
                while idx <= 6
                    invariant
                        1 <= idx <= 7,
                        slot <= 6,
                        -2_000_000 <= sw1 <= 2_000_000,
                    decreases 7 - idx,
                {
                    if mx > sw1 / 2 - 375_000 + idx * 100_000 && mx < sw1 / 2 - 295_000 + idx
                        * 100_000 {
                        slot = idx as u8;
                    }
                    idx = idx + 1;
                }
                if slot >= 1 {
                    let mut t = target;
                    match t.variant {
                        Variant::Combatant { weapon, facing, health } => {
                            let nk = match slot {
                                1 => WeaponKind::Knife(true),
                                2 => WeaponKind::Gunner,
                                3 => WeaponKind::Grenade,
                                4 => WeaponKind::Shotgun,
                                5 => WeaponKind::Sprayer,
                                _ => WeaponKind::Sniper,
                            };
                            t.variant = Variant::Combatant {
                                weapon: Weapon { kind: nk, cooldown: weapon.cooldown },
                                facing,
                                health,
                            };
                            let pi = self.player.index;
                            self.entities[pi] = t;
                        },
                        _ => {},
                    }
                }
            }
        }

        let over: bool = match self.player.round_end {
            Some(t) => {
                if t > ROUND_OVER_AT {
                    true
                } else {
                    self.player.round_end = Some(t + 1);
                    false
                }
            },
            None => false,
        };
        proof {
            let idx1 = self.player.index as int;
            assert(forall|ii: int|
                0 <= ii < self.entities@.len() && ii != idx1 ==> #[trigger] self.entities@[ii]
                    == committed[ii]);
            assert(0 <= idx1 < self.entities@.len() ==> spec_same_but_weapon_kind(
                committed[idx1],
                self.entities@[idx1],
            ));
            assert(spec_tick_commit(
                old(self).entities@,
                pre_commit,
                dels,
                apps,
                self.entities@,
                old(self).player.index as int,
                idx1,
            ));
        }
        over
    }
}

} // verus!
