//! The entity model: combatants, currency pickups, particles and projectiles,
//! with the clamped fixed-point arithmetic their updates use.

use vstd::prelude::*;
use crate::geom::{Vec2I, COORD_LIMIT, MILLI, in_range};

verus! {

/// Health fixed point: sub-units per health point.  The scale is chosen so
/// that both the per-tick regeneration (0.02 health) and the knife damage
/// falloff (one sixtieth of a health point per tick of age) are integers.
pub const HEALTH_SCALE: i64 = 300;

/// Full health: 100 points.
pub const HEALTH_CAP: i64 = 30_000;

/// Lower bound of the representation; health has no meaningful floor, this
/// only keeps the arithmetic total.
pub const HEALTH_FLOOR: i64 = -1_000_000_000;

/// Regeneration per tick: 0.02 health points.
pub const REGEN_STEP: i64 = 6;

#[derive(Clone, Copy, PartialEq, Eq, Structural, Debug)]
pub enum WeaponKind {
    /// The flag is the side the next slash swings from.
    Knife(bool),
    Sniper,
    Gunner,
    Shotgun,
    Sprayer,
    Grenade,
}

/// A weapon and its firing cadence: `cooldown` counts ticks since the last
/// shot and must exceed a kind-specific threshold before the next one.
#[derive(Clone, Copy, PartialEq, Eq, Structural, Debug)]
pub struct Weapon {
    pub kind: WeaponKind,
    pub cooldown: u32,
}

#[derive(Clone, Copy, PartialEq, Eq, Structural, Debug)]
pub enum ParticleColor {
    Red,
    Orange,
    Green,
}

#[derive(Clone, Copy, Debug)]
pub enum Variant {
    Combatant {
        weapon: Weapon,
        /// Unit facing vector in sub-units (components within one `MILLI`).
        facing: Vec2I,
        /// Health in `HEALTH_SCALE` sub-units, at most `HEALTH_CAP`.
        health: i64,
    },
    Currency {
        /// Animation phase in milliradians, advanced each tick.
        phase: i64,
    },
    Particle {
        color: ParticleColor,
        /// Remaining ticks of life; opacity fades over the last 30.
        life: u32,
    },
    Projectile {
        kind: WeaponKind,
        /// Ticks since the projectile was fired.
        age: u32,
        /// Index of the firing combatant, excluded from most contact rules;
        /// `None` marks a non-attributable effect.
        owner: Option<usize>,
    },
}

#[derive(Clone, Copy, Debug)]
pub struct Entity {
    pub position: Vec2I,
    pub velocity: Vec2I,
    pub variant: Variant,
}

pub open spec fn wf_variant(v: Variant) -> bool {
    match v {
        Variant::Combatant { weapon, facing, health } => {
            &&& HEALTH_FLOOR <= health <= HEALTH_CAP
            &&& -MILLI <= facing.x <= MILLI
            &&& -MILLI <= facing.y <= MILLI
        },
        Variant::Currency { phase } => -COORD_LIMIT <= phase <= COORD_LIMIT,
        Variant::Particle { color, life } => true,
        Variant::Projectile { kind, age, owner } => true,
    }
}

pub open spec fn wf_entity(e: Entity) -> bool {
    &&& in_range(e.position)
    &&& in_range(e.velocity)
    &&& wf_variant(e.variant)
}

pub open spec fn is_combatant(e: Entity) -> bool {
    e.variant matches Variant::Combatant { .. }
}

pub open spec fn is_projectile(e: Entity) -> bool {
    e.variant matches Variant::Projectile { .. }
}

pub open spec fn health_of(e: Entity) -> int {
    match e.variant {
        Variant::Combatant { health, .. } => health as int,
        _ => 0,
    }
}

/// Coordinates are confined to `[-COORD_LIMIT, COORD_LIMIT]`; additions
/// saturate there, far outside any reachable play area.
pub open spec fn clamp_coord(v: int) -> int {
    if v < -COORD_LIMIT as int {
        -COORD_LIMIT as int
    } else if v > COORD_LIMIT as int {
        COORD_LIMIT as int
    } else {
        v
    }
}

/// Clamped coordinate addition.
pub fn cadd(a: i64, b: i64) -> (r: i64)
    requires
        -COORD_LIMIT <= a <= COORD_LIMIT,
        -1_000_000_000_000_000 <= b <= 1_000_000_000_000_000,
    ensures
        r == clamp_coord(a + b),
        -COORD_LIMIT <= r <= COORD_LIMIT,
{
    let s: i64 = a + b;
    if s < -COORD_LIMIT {
        -COORD_LIMIT
    } else if s > COORD_LIMIT {
        COORD_LIMIT
    } else {
        s
    }
}

pub open spec fn vec_cadd(a: Vec2I, b: Vec2I) -> Vec2I {
    Vec2I { x: clamp_coord(a.x + b.x) as i64, y: clamp_coord(a.y + b.y) as i64 }
}

/// Clamped vector addition, the one way positions and velocities move.
pub fn vadd(a: Vec2I, b: Vec2I) -> (r: Vec2I)
    requires
        in_range(a),
        in_range(b),
    ensures
        r == vec_cadd(a, b),
        in_range(r),
{
    Vec2I { x: cadd(a.x, b.x), y: cadd(a.y, b.y) }
}

/// Health clamped into its representable band; the cap is the regeneration
/// ceiling, the floor only keeps subtraction total.
pub open spec fn clamp_health(h: int) -> int {
    if h < HEALTH_FLOOR as int {
        HEALTH_FLOOR as int
    } else if h > HEALTH_CAP as int {
        HEALTH_CAP as int
    } else {
        h
    }
}

/// Damage application: health drops by `dmg`, saturating at the floor.
pub fn apply_damage(h: i64, dmg: i64) -> (r: i64)
    requires
        HEALTH_FLOOR <= h <= HEALTH_CAP,
        0 <= dmg <= 1_000_000_000,
    ensures
        r == clamp_health(h - dmg),
        r <= h,
{
    let s: i64 = h - dmg;
    if s < HEALTH_FLOOR {
        HEALTH_FLOOR
    } else {
        s
    }
}

/// One tick of regeneration: while below the cap, health rises by
/// `REGEN_STEP` and never beyond `HEALTH_CAP`.
pub open spec fn spec_regen(h: int) -> int {
    if h < HEALTH_CAP as int {
        if h + REGEN_STEP > HEALTH_CAP as int {
            HEALTH_CAP as int
        } else {
            h + REGEN_STEP
        }
    } else {
        h
    }
}

pub fn regen_health(h: i64) -> (r: i64)
    requires
        HEALTH_FLOOR <= h <= HEALTH_CAP,
    ensures
        r == spec_regen(h as int),
        HEALTH_FLOOR <= r <= HEALTH_CAP,
        h <= r,
        h < HEALTH_CAP ==> h < r,
{
    if h < HEALTH_CAP {
        if h + REGEN_STEP > HEALTH_CAP {
            HEALTH_CAP
        } else {
            h + REGEN_STEP
        }
    } else {
        h
    }
}

/// Health can only climb while below the cap and stalls exactly at it:
/// absent damage it regenerates toward 100 from any lower value.
pub proof fn lemma_regen_approaches_cap(h: int)
    requires
        HEALTH_FLOOR <= h <= HEALTH_CAP,
    ensures
        spec_regen(h) <= HEALTH_CAP,
        h < HEALTH_CAP ==> h < spec_regen(h),
        h == HEALTH_CAP ==> spec_regen(h) == h,
        HEALTH_CAP - spec_regen(h) <= if HEALTH_CAP - h - REGEN_STEP >= 0 {
            HEALTH_CAP - h - REGEN_STEP
        } else {
            0
        },
{
}

/// Opacity of a particle, in sub-units of one: full until the last 30 ticks
/// of life, then falling linearly to zero.
pub open spec fn spec_particle_alpha(life: u32) -> int {
    if life >= 30 {
        1000
    } else {
        life as int * 1000 / 30
    }
}

pub fn particle_alpha(life: u32) -> (a: u32)
    ensures
        a == spec_particle_alpha(life),
        a <= 1000,
{
    if life >= 30 {
        1000
    } else {
        life * 1000 / 30
    }
}

/// One component of the uniform drag: nine tenths, truncated toward zero.
pub open spec fn spec_drag_comp(c: int) -> int {
    if c >= 0 {
        c * 9 / 10
    } else {
        -((-c) * 9 / 10)
    }
}

pub open spec fn spec_drag(v: Vec2I) -> Vec2I {
    Vec2I { x: spec_drag_comp(v.x as int) as i64, y: spec_drag_comp(v.y as int) as i64 }
}

/// The per-tick damping every entity's velocity suffers after integration.
pub fn drag(v: Vec2I) -> (r: Vec2I)
    requires
        in_range(v),
    ensures
        r == spec_drag(v),
        in_range(r),
{
    proof {
        assert(forall|a: int|
            0 <= a <= 1_000_000_000 ==> 0 <= #[trigger] (a * 9) / 10 <= a) by (nonlinear_arith);
    }
    let x: i64 = if v.x >= 0 {
        v.x * 9 / 10
    } else {
        let m: i64 = (-v.x) * 9 / 10;
        -m
    };
    let y: i64 = if v.y >= 0 {
        v.y * 9 / 10
    } else {
        let m: i64 = (-v.y) * 9 / 10;
        -m
    };
    Vec2I { x, y }
}

} // verus!
