use arena_sim::combat::{knife_damage, grenade_damage_at, bullet_damage, cooldown_threshold,
    projectile_contact, ContactOutcome, fire_weapon};
use arena_sim::entity::{Entity, Variant, Weapon, WeaponKind, HEALTH_SCALE};
use arena_sim::geom::Vec2I;
use arena_sim::store::Deferred;

fn v(x: i64, y: i64) -> Vec2I {
    Vec2I { x, y }
}

fn projectile(kind: WeaponKind, age: u32, owner: usize, pos: Vec2I, vel: Vec2I) -> Entity {
    Entity { position: pos, velocity: vel, variant: Variant::Projectile { kind, age, owner: Some(owner) } }
}

#[test]
fn knife_damage_starts_at_six_and_decays() {
    assert_eq!(knife_damage(0), 6 * HEALTH_SCALE);
    // 6 - 14/60 health points, exactly representable at scale 300
    assert_eq!(knife_damage(14), 1730);
    let mut last = knife_damage(0);
    for age in 1..=15u32 {
        let d = knife_damage(age);
        assert!(d <= last);
        last = d;
    }
}

#[test]
fn bullet_damage_table() {
    assert_eq!(bullet_damage(WeaponKind::Sniper), 25 * HEALTH_SCALE);
    assert_eq!(bullet_damage(WeaponKind::Gunner), 8 * HEALTH_SCALE);
    assert_eq!(bullet_damage(WeaponKind::Shotgun), 3 * HEALTH_SCALE);
    assert_eq!(bullet_damage(WeaponKind::Sprayer), 7 * HEALTH_SCALE);
}

#[test]
fn cooldown_thresholds() {
    assert_eq!(cooldown_threshold(WeaponKind::Knife(false)), 10);
    assert_eq!(cooldown_threshold(WeaponKind::Sniper), 30);
    assert_eq!(cooldown_threshold(WeaponKind::Gunner), 10);
    assert_eq!(cooldown_threshold(WeaponKind::Shotgun), 30);
    assert_eq!(cooldown_threshold(WeaponKind::Sprayer), 3);
    assert_eq!(cooldown_threshold(WeaponKind::Grenade), 70);
}

#[test]
fn grenade_is_inert_before_its_fuse() {
    let target = v(1_000_000, 1_000_000);
    for age in [0u32, 1, 40, 79] {
        let g = projectile(WeaponKind::Grenade, age, 0, target, v(0, 0));
        assert!(matches!(projectile_contact(1, target, &g), ContactOutcome::Miss));
    }
}

#[test]
fn grenade_blast_damage_at_center_and_rim() {
    assert_eq!(grenade_damage_at(0), 50 * HEALTH_SCALE);
    // just inside the rim the damage has decayed to almost nothing
    assert_eq!(grenade_damage_at(299_999), 1);
    let target = v(1_000_000, 1_000_000);
    // distance zero on the fuse tick: full 50 points of damage
    let g = projectile(WeaponKind::Grenade, 80, 1, target, v(0, 0));
    match projectile_contact(1, target, &g) {
        ContactOutcome::Blast { damage, knockback } => {
            assert_eq!(damage, 50 * HEALTH_SCALE);
            assert_eq!(knockback, v(0, 0));
        },
        _ => panic!("expected a blast at distance zero"),
    }
    // exactly at the rim (300 units): outside the strict radius, nothing
    let far = projectile(WeaponKind::Grenade, 80, 1, v(1_300_000, 1_000_000), v(0, 0));
    assert!(matches!(projectile_contact(1, target, &far), ContactOutcome::Miss));
}

#[test]
fn grenade_blast_hits_its_own_thrower() {
    let target = v(1_000_000, 1_000_000);
    let g = projectile(WeaponKind::Grenade, 80, 1, v(1_000_600, 1_000_000), v(0, 0));
    // owner exclusion does not apply to the blast
    match projectile_contact(1, target, &g) {
        ContactOutcome::Blast { damage, .. } => {
            assert_eq!(damage, 50 * HEALTH_SCALE - 600 / 20);
        },
        _ => panic!("expected the thrower to be caught in the blast"),
    }
}

#[test]
fn owner_is_excluded_from_bullet_contact() {
    let target = v(1_000_000, 1_000_000);
    let own = projectile(WeaponKind::Sniper, 0, 1, v(1_010_000, 1_000_000), v(50_000, 0));
    assert!(matches!(projectile_contact(1, target, &own), ContactOutcome::Miss));
    let other = projectile(WeaponKind::Sniper, 0, 0, v(1_010_000, 1_000_000), v(50_000, 0));
    assert!(matches!(projectile_contact(1, target, &other), ContactOutcome::BulletHit { .. }));
}

#[test]
fn knife_contact_is_proximity_only() {
    let target = v(1_000_000, 1_000_000);
    let near = projectile(WeaponKind::Knife(false), 3, 0, v(1_050_000, 1_000_000), v(10_000, 0));
    match projectile_contact(1, target, &near) {
        ContactOutcome::KnifeHit { damage, knockback } => {
            assert_eq!(damage, knife_damage(3));
            // knockback is three tenths of the slash velocity
            assert_eq!(knockback, v(3_000, 0));
        },
        _ => panic!("expected a knife hit inside 60 units"),
    }
    let far = projectile(WeaponKind::Knife(false), 3, 0, v(1_060_000, 1_000_000), v(10_000, 0));
    assert!(matches!(projectile_contact(1, target, &far), ContactOutcome::Miss));
}

#[test]
fn gunner_shot_spawns_one_projectile_with_recoil() {
    // cooldown counter 11 has passed the gunner threshold of 10
    let mut weapon = Weapon { kind: WeaponKind::Gunner, cooldown: 11 };
    let pos = v(1_000_000, 1_000_000);
    let vel = v(0, 0);
    let facing = v(1000, 0);
    let mut defer = Deferred { deletes: Vec::new(), appends: Vec::new() };
    let d = fire_weapon(&mut weapon, pos, vel, facing, 0, false, true, &mut defer);
    assert!(d.fired);
    assert_eq!(weapon.cooldown, 0);
    // recoil: velocity decremented by the facing direction times 5
    assert_eq!(d.vel_delta, v(-5_000, 0));
    assert_eq!(d.pos_delta, v(0, 0));
    // exactly one projectile, followed by its five muzzle particles
    let projectiles: Vec<&Entity> = defer
        .appends
        .iter()
        .filter(|e| matches!(e.variant, Variant::Projectile { .. }))
        .collect();
    assert_eq!(projectiles.len(), 1);
    assert_eq!(defer.appends.len(), 6);
    let shot = projectiles[0];
    // velocity = firer velocity + facing unit vector x 120
    assert_eq!(shot.velocity, v(120_000, 0));
    assert_eq!(shot.position, v(1_090_000, 1_000_000));
    match shot.variant {
        Variant::Projectile { kind, age, owner } => {
            assert!(matches!(kind, WeaponKind::Gunner));
            assert_eq!(age, 0);
            assert_eq!(owner, Some(0));
        },
        _ => unreachable!(),
    }
}

#[test]
fn gunner_holds_fire_until_past_threshold() {
    let mut weapon = Weapon { kind: WeaponKind::Gunner, cooldown: 10 };
    let mut defer = Deferred { deletes: Vec::new(), appends: Vec::new() };
    let d = fire_weapon(&mut weapon, v(0, 0), v(0, 0), v(1000, 0), 0, false, true, &mut defer);
    assert!(!d.fired);
    assert_eq!(weapon.cooldown, 10);
    assert_eq!(defer.appends.len(), 0);
}

#[test]
fn shotgun_fires_eleven_pellets() {
    let mut weapon = Weapon { kind: WeaponKind::Shotgun, cooldown: 31 };
    let mut defer = Deferred { deletes: Vec::new(), appends: Vec::new() };
    let d = fire_weapon(
        &mut weapon,
        v(1_000_000, 1_000_000),
        v(0, 0),
        v(1000, 0),
        0,
        true,
        false,
        &mut defer,
    );
    assert!(d.fired);
    let pellets = defer
        .appends
        .iter()
        .filter(|e| matches!(e.variant, Variant::Projectile { kind: WeaponKind::Shotgun, .. }))
        .count();
    assert_eq!(pellets, 11);
    assert_eq!(d.vel_delta, v(-12_000, 0));
}

#[test]
fn knife_swing_alternates_side() {
    let mut weapon = Weapon { kind: WeaponKind::Knife(false), cooldown: 11 };
    let mut defer = Deferred { deletes: Vec::new(), appends: Vec::new() };
    let d = fire_weapon(
        &mut weapon,
        v(1_000_000, 1_000_000),
        v(0, 0),
        v(1000, 0),
        0,
        true,
        false,
        &mut defer,
    );
    assert!(d.fired);
    assert!(matches!(weapon.kind, WeaponKind::Knife(true)));
    // the swing is a fan of ten short-lived knife projectiles
    assert_eq!(defer.appends.len(), 10);
    for e in defer.appends.iter() {
        assert!(matches!(e.variant, Variant::Projectile { kind: WeaponKind::Knife(true), .. }));
    }
}
