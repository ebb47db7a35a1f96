use arena_sim::entity::{Entity, Variant, Weapon, WeaponKind, ParticleColor, HEALTH_CAP,
    HEALTH_SCALE, regen_health, particle_alpha, drag};
use arena_sim::geom::Vec2I;
use arena_sim::grid::TileGrid;
use arena_sim::sim::{Game, InputState, PlayerContext, update_combatant, update_currency,
    update_particle, update_projectile, spawn_combatant, ROUND_OVER_AT};
use arena_sim::store::{Deferred, apply_deferred};

fn v(x: i64, y: i64) -> Vec2I {
    Vec2I { x, y }
}

fn combatant(pos: Vec2I, kind: WeaponKind, health: i64) -> Entity {
    Entity {
        position: pos,
        velocity: v(0, 0),
        variant: Variant::Combatant {
            weapon: Weapon { kind, cooldown: 0 },
            facing: v(1000, 0),
            health,
        },
    }
}

fn neutral_input() -> InputState {
    InputState {
        pointer_delta: v(0, 0),
        pointer_norm: v(0, 0),
        screen_w: 1_280_000,
        screen_h: 720_000,
        move_up: false,
        move_down: false,
        move_left: false,
        move_right: false,
        fire_pressed: false,
        fire_down: false,
        weapon_select: None,
        respawn: false,
        quit: false,
    }
}

fn empty_defer() -> Deferred {
    Deferred { deletes: Vec::new(), appends: Vec::new() }
}

#[test]
fn regen_approaches_the_cap_and_never_passes_it() {
    assert_eq!(regen_health(HEALTH_CAP), HEALTH_CAP);
    assert_eq!(regen_health(HEALTH_CAP - 1), HEALTH_CAP);
    assert_eq!(regen_health(0), 6);
    let mut h: i64 = 50 * HEALTH_SCALE;
    for _ in 0..100_000 {
        let nh = regen_health(h);
        assert!(nh <= HEALTH_CAP);
        assert!(nh >= h);
        h = nh;
    }
    assert_eq!(h, HEALTH_CAP);
}

#[test]
fn deferred_commit_size_and_order() {
    let mut entities = vec![
        combatant(v(0, 0), WeaponKind::Gunner, HEALTH_CAP),
        combatant(v(1_000, 0), WeaponKind::Sniper, HEALTH_CAP),
        combatant(v(2_000, 0), WeaponKind::Grenade, HEALTH_CAP),
    ];
    let appended = combatant(v(3_000, 0), WeaponKind::Sprayer, HEALTH_CAP);
    let ops = Deferred { deletes: vec![2, 0], appends: vec![appended] };
    let mut followed: usize = 2;
    apply_deferred(&mut entities, &ops, &mut followed);
    // previous size - |deletes| + |appends|
    assert_eq!(entities.len(), 3 - 2 + 1);
    // the survivor is the old middle entity, then the append
    assert_eq!(entities[0].position, v(1_000, 0));
    assert_eq!(entities[1].position, v(3_000, 0));
    // one deletion below the tracked index shifts it down by one
    assert_eq!(followed, 1);
}

#[test]
fn deferred_delete_is_idempotent() {
    let mut ops = empty_defer();
    ops.schedule_delete(4);
    ops.schedule_delete(4);
    ops.schedule_delete(4);
    assert_eq!(ops.deletes.len(), 1);
    assert!(ops.is_scheduled(4));
    assert!(!ops.is_scheduled(3));
}

#[test]
fn sniper_swept_hit_scenario() {
    // combatant 1 sits beside the sniper round's swept path, past proximity
    // range but within 60 units of the path itself
    let shooter = combatant(v(100_000, 100_000), WeaponKind::Sniper, HEALTH_CAP);
    let target = combatant(v(900_000, 55_000), WeaponKind::Gunner, HEALTH_CAP);
    let round = Entity {
        position: v(800_000, 0),
        velocity: v(150_000, 0),
        variant: Variant::Projectile { kind: WeaponKind::Sniper, age: 0, owner: Some(0) },
    };
    let snapshot = vec![shooter, target, round];
    let mut e = snapshot[1];
    let mut player = PlayerContext::new();
    let map = TileGrid::new_seeded();
    let input = neutral_input();
    let mut defer = empty_defer();
    let mut scope = false;
    update_combatant(1, &mut e, &snapshot, &mut player, &map, &input, &mut defer, &mut scope);
    // health reduced by exactly 25 points
    match e.variant {
        Variant::Combatant { health, .. } => assert_eq!(health, HEALTH_CAP - 25 * HEALTH_SCALE),
        _ => panic!("still a combatant"),
    }
    // the projectile (snapshot index 2) is scheduled for deletion
    assert_eq!(defer.deletes, vec![2]);
    // one red particle appended at the impact
    assert_eq!(defer.appends.len(), 1);
    match defer.appends[0].variant {
        Variant::Particle { color, life } => {
            assert!(matches!(color, ParticleColor::Red));
            assert_eq!(life, 20);
        },
        _ => panic!("expected a particle"),
    }
    // velocity transfer of one sixtieth of the round's velocity
    assert_eq!(e.velocity, v(2_500, 0));
}

#[test]
fn currency_pickup_within_forty_units() {
    let player_body = combatant(v(1_000_000, 1_000_000), WeaponKind::Gunner, HEALTH_CAP);
    let coin = Entity {
        position: v(1_030_000, 1_000_000),
        velocity: v(0, 0),
        variant: Variant::Currency { phase: 0 },
    };
    let snapshot = vec![player_body, coin];
    let mut e = snapshot[1];
    let mut player = PlayerContext::new();
    let mut defer = empty_defer();
    update_currency(1, &mut e, &snapshot, &mut player, &mut defer);
    // scheduled for removal and credited exactly once that tick
    assert_eq!(player.gold, 1);
    assert_eq!(defer.deletes, vec![1]);
    // and it was steered toward the combatant
    assert_eq!(e.velocity, v(-1000, 0));
}

#[test]
fn currency_out_of_pickup_range_only_attracts() {
    let player_body = combatant(v(1_000_000, 1_000_000), WeaponKind::Gunner, HEALTH_CAP);
    let coin = Entity {
        position: v(1_050_000, 1_000_000),
        velocity: v(0, 0),
        variant: Variant::Currency { phase: 0 },
    };
    let snapshot = vec![player_body, coin];
    let mut e = snapshot[1];
    let mut player = PlayerContext::new();
    let mut defer = empty_defer();
    update_currency(1, &mut e, &snapshot, &mut player, &mut defer);
    assert_eq!(player.gold, 0);
    assert!(defer.deletes.is_empty());
    assert_eq!(e.velocity, v(-1000, 0));
}

#[test]
fn particle_fades_and_expires() {
    let mut e = Entity {
        position: v(0, 0),
        velocity: v(0, 0),
        variant: Variant::Particle { color: ParticleColor::Orange, life: 2 },
    };
    let mut defer = empty_defer();
    update_particle(0, &mut e, &mut defer);
    assert!(matches!(e.variant, Variant::Particle { life: 1, .. }));
    assert!(defer.deletes.is_empty());
    update_particle(0, &mut e, &mut defer);
    assert!(matches!(e.variant, Variant::Particle { life: 0, .. }));
    assert_eq!(defer.deletes, vec![0]);
    assert_eq!(particle_alpha(30), 1000);
    assert_eq!(particle_alpha(15), 500);
    assert_eq!(particle_alpha(0), 0);
}

#[test]
fn knife_slash_despawns_by_age_fifteen() {
    let mut defer = empty_defer();
    let mut e = Entity {
        position: v(0, 0),
        velocity: v(0, 0),
        variant: Variant::Projectile { kind: WeaponKind::Knife(true), age: 15, owner: Some(0) },
    };
    update_projectile(0, &mut e, &mut defer);
    assert_eq!(defer.deletes, vec![0]);
    let mut young = Entity {
        position: v(0, 0),
        velocity: v(0, 0),
        variant: Variant::Projectile { kind: WeaponKind::Knife(true), age: 14, owner: Some(0) },
    };
    let mut defer2 = empty_defer();
    update_projectile(1, &mut young, &mut defer2);
    assert!(defer2.deletes.is_empty());
    assert!(matches!(young.variant, Variant::Projectile { age: 15, .. }));
}

#[test]
fn grenade_detonates_at_its_fuse() {
    let mut defer = empty_defer();
    let mut e = Entity {
        position: v(500_000, 500_000),
        velocity: v(0, 0),
        variant: Variant::Projectile { kind: WeaponKind::Grenade, age: 80, owner: Some(0) },
    };
    update_projectile(3, &mut e, &mut defer);
    assert_eq!(defer.deletes, vec![3]);
    // the shower: sixty red particles
    assert_eq!(defer.appends.len(), 60);
    for p in defer.appends.iter() {
        assert!(matches!(p.variant, Variant::Particle { color: ParticleColor::Red, .. }));
    }
}

#[test]
fn slow_rounds_despawn() {
    let mut defer = empty_defer();
    let mut slow = Entity {
        position: v(0, 0),
        velocity: v(4_999, 0),
        variant: Variant::Projectile { kind: WeaponKind::Gunner, age: 5, owner: Some(0) },
    };
    update_projectile(0, &mut slow, &mut defer);
    assert_eq!(defer.deletes, vec![0]);
    let mut fast = Entity {
        position: v(0, 0),
        velocity: v(5_000, 0),
        variant: Variant::Projectile { kind: WeaponKind::Gunner, age: 5, owner: Some(0) },
    };
    let mut defer2 = empty_defer();
    update_projectile(0, &mut fast, &mut defer2);
    assert!(defer2.deletes.is_empty());
}

#[test]
fn drag_damps_toward_rest() {
    assert_eq!(drag(v(1000, -1000)), v(900, -900));
    assert_eq!(drag(v(5, -5)), v(4, -4));
    assert_eq!(drag(v(0, 0)), v(0, 0));
}

#[test]
fn spawned_combatants_are_inside_the_arena() {
    for _ in 0..50 {
        let e = spawn_combatant();
        assert!(e.position.x >= 100_000 && e.position.x <= 4_900_000);
        assert!(e.position.y >= 100_000 && e.position.y <= 4_900_000);
        match e.variant {
            Variant::Combatant { health, weapon, .. } => {
                assert_eq!(health, HEALTH_CAP);
                assert_eq!(weapon.cooldown, 0);
            },
            _ => panic!("expected a combatant"),
        }
    }
}

#[test]
fn fresh_round_has_two_combatants() {
    let g = Game::init();
    assert_eq!(g.entities.len(), 2);
    assert_eq!(g.player.gold, 0);
    assert_eq!(g.player.index, 0);
    assert!(g.player.round_end.is_none());
    for e in g.entities.iter() {
        assert!(matches!(e.variant, Variant::Combatant { .. }));
    }
}

#[test]
fn tick_respawn_key_appends_a_combatant() {
    let mut g = Game::init();
    let mut input = neutral_input();
    input.respawn = true;
    let over = g.tick(&input);
    assert!(!over);
    assert_eq!(g.entities.len(), 3);
}

#[test]
fn tick_signals_round_over_exactly_past_the_threshold() {
    let mut g = Game::init();
    g.player.round_end = Some(ROUND_OVER_AT);
    assert!(!g.tick(&neutral_input()));
    assert_eq!(g.player.round_end, Some(ROUND_OVER_AT + 1));
    assert!(g.tick(&neutral_input()));
    assert_eq!(g.player.round_end, Some(ROUND_OVER_AT + 1));
}

#[test]
fn quitting_removes_the_controlled_combatant() {
    let mut g = Game::init();
    let mut input = neutral_input();
    input.quit = true;
    g.tick(&input);
    assert_eq!(g.entities.len(), 1);
}

#[test]
fn health_never_exceeds_the_cap_across_ticks() {
    let mut g = Game::init();
    let input = neutral_input();
    for _ in 0..50 {
        g.tick(&input);
        for e in g.entities.iter() {
            if let Variant::Combatant { health, .. } = e.variant {
                assert!(health <= HEALTH_CAP);
            }
        }
    }
}

#[test]
fn movement_keys_accelerate_the_controlled_combatant() {
    let mut g = Game::init();
    let mut input = neutral_input();
    input.move_right = true;
    g.tick(&input);
    // one unit of impulse, then the uniform drag of nine tenths
    assert_eq!(g.entities[g.player.index].velocity, v(900, 0));
    let mut g2 = Game::init();
    let mut diag = neutral_input();
    diag.move_right = true;
    diag.move_down = true;
    g2.tick(&diag);
    // diagonals are normalized before the drag
    assert_eq!(g2.entities[g2.player.index].velocity, v(636, 636));
}

#[test]
fn weapon_select_key_switches_the_kind() {
    let mut g = Game::init();
    let mut input = neutral_input();
    input.weapon_select = Some(3);
    g.tick(&input);
    match g.entities[g.player.index].variant {
        Variant::Combatant { weapon, .. } => assert!(matches!(weapon.kind, WeaponKind::Grenade)),
        _ => panic!("expected the controlled combatant"),
    }
}

#[test]
fn clicking_a_weapon_slot_switches_the_kind() {
    let mut g = Game::init();
    // pin the weapon: a sniper would zoom the view and move the strip
    let pos = g.entities[0].position;
    g.entities[0] = combatant(pos, WeaponKind::Gunner, HEALTH_CAP);
    let mut input = neutral_input();
    // aim the pointer at the first slot of the strip along the bottom edge
    input.fire_pressed = true;
    input.pointer_norm = v(-312, 900);
    g.tick(&input);
    match g.entities[g.player.index].variant {
        Variant::Combatant { weapon, .. } => {
            assert!(matches!(weapon.kind, WeaponKind::Knife(true)))
        },
        _ => panic!("expected the controlled combatant"),
    }
}

#[test]
fn grenade_blast_through_a_full_tick() {
    let mut g = Game::init();
    let pos = g.entities[0].position;
    g.entities[1] = Entity {
        position: pos,
        velocity: v(0, 0),
        variant: Variant::Projectile { kind: WeaponKind::Grenade, age: 80, owner: Some(0) },
    };
    g.tick(&neutral_input());
    // at distance zero the blast takes 50 of the 100 points
    match g.entities[g.player.index].variant {
        Variant::Combatant { health, .. } => assert_eq!(health, 50 * HEALTH_SCALE),
        _ => panic!("expected the controlled combatant"),
    }
    // the grenade is gone and its shower of sixty particles arrived
    assert_eq!(g.entities.len(), 1 + 60);
}

#[test]
fn pickup_through_a_full_tick() {
    let mut g = Game::init();
    let pos = g.entities[0].position;
    g.entities[1] = Entity {
        position: v(pos.x + 30_000, pos.y),
        velocity: v(0, 0),
        variant: Variant::Currency { phase: 0 },
    };
    let over = g.tick(&neutral_input());
    assert!(!over);
    // credited exactly once and consumed
    assert_eq!(g.player.gold, 1);
    assert_eq!(g.entities.len(), 1);
}
