use redeemer::hud::PlayerStats;
use redeemer::raycasts::{
    apply_melee_damage_to_player_stats, damaged_health, despawn_ray_on_attack_end,
    emit_hits_from_rays, find_defense, is_facing_right, keep_ray_facing_correctly,
    mitigated_damage, spawn_ray_on_attack_start, AlreadyHit, Child, MeleeRaycastHit,
    MeleeRaycastSpec, PlayerTarget, RayHit,
};
use redeemer::units::Vec2;

fn spec(once_per_swing: bool) -> MeleeRaycastSpec {
    MeleeRaycastSpec {
        offset: Vec2 { x: 18_000, y: 8_000 },
        length: 46_000,
        max_hits: 3,
        damage: 20,
        filter: 4,
        solid: false,
        once_per_swing,
    }
}

fn contact(entity: u64, distance: i32) -> RayHit {
    RayHit { entity, distance, normal: Vec2 { x: -1000, y: 0 } }
}

fn hit_on(target: u64, damage: i32) -> MeleeRaycastHit {
    MeleeRaycastHit { attacker: 1, target, distance: 0, normal: Vec2 { x: 0, y: 0 }, damage }
}

#[test]
fn facing_comes_from_sprite_then_scale_then_right() {
    assert!(is_facing_right(Some(false), Some(-1)));
    assert!(!is_facing_right(Some(true), Some(1)));
    assert!(is_facing_right(None, Some(0)));
    assert!(!is_facing_right(None, Some(-1)));
    assert!(is_facing_right(None, None));
}

#[test]
fn ray_points_the_way_the_actor_looks() {
    let (right, already) = spawn_ray_on_attack_start(&spec(true), true);
    assert!(already.0.is_empty());
    assert_eq!(right.origin, Vec2 { x: 18_000, y: 8_000 });
    assert_eq!(right.direction, 1);
    assert_eq!(right.max_distance, 46_000);
    assert_eq!(right.max_hits, 3);
    assert!(right.ignore_self);
    assert!(!right.solid);
    assert_eq!(right.filter, 4);
    let (left, already) = spawn_ray_on_attack_start(&spec(true), false);
    assert!(already.0.is_empty());
    assert_eq!(left.origin, Vec2 { x: -18_000, y: 8_000 });
    assert_eq!(left.direction, -1);
}

#[test]
fn live_ray_is_turned_with_its_actor() {
    let mut ray = spawn_ray_on_attack_start(&spec(true), true).0;
    keep_ray_facing_correctly(&mut ray, &spec(true), false);
    assert_eq!(ray, spawn_ray_on_attack_start(&spec(true), false).0);
    keep_ray_facing_correctly(&mut ray, &spec(true), true);
    assert_eq!(ray, spawn_ray_on_attack_start(&spec(true), true).0);
}

#[test]
fn mirroring_the_smallest_offset_does_not_overflow() {
    let s = MeleeRaycastSpec { offset: Vec2 { x: i32::MIN, y: 1 }, ..spec(true) };
    assert_eq!(spawn_ray_on_attack_start(&s, false).0.origin, Vec2 { x: i32::MAX, y: 1 });
}

#[test]
fn only_rays_are_despawned_when_a_swing_ends() {
    let children = vec![
        Child { entity: 5, is_ray: false },
        Child { entity: 6, is_ray: true },
        Child { entity: 7, is_ray: true },
        Child { entity: 8, is_ray: false },
    ];
    let mut already = AlreadyHit::new();
    assert_eq!(despawn_ray_on_attack_end(&children, &mut already), vec![6, 7]);
    assert_eq!(despawn_ray_on_attack_end(&vec![], &mut already), Vec::<u64>::new());
}

#[test]
fn the_end_of_a_swing_forgets_the_targets_it_hit() {
    let (_, mut already) = spawn_ray_on_attack_start(&spec(true), true);
    assert_eq!(emit_hits_from_rays(1, &spec(true), &vec![contact(9, 1), contact(8, 2)], &mut already).len(), 2);
    assert_eq!(already.0.len(), 2);
    despawn_ray_on_attack_end(&vec![], &mut already);
    assert!(already.0.is_empty());
    assert_eq!(emit_hits_from_rays(1, &spec(true), &vec![contact(9, 1)], &mut already).len(), 1);
}

#[test]
fn a_swing_begins_with_no_target_hit() {
    for right in [false, true] {
        let (_, mut already) = spawn_ray_on_attack_start(&spec(true), right);
        assert!(already.0.is_empty());
        assert_eq!(emit_hits_from_rays(1, &spec(true), &vec![contact(9, 1)], &mut already).len(), 1);
    }
}

#[test]
fn continuous_overlap_hits_once_per_swing() {
    let mut already = AlreadyHit::new();
    let mut total = 0;
    for _ in 0..50 {
        let events = emit_hits_from_rays(1, &spec(true), &vec![contact(9, 10_000)], &mut already);
        total += events.iter().filter(|e| e.attacker == 1 && e.target == 9).count();
    }
    assert_eq!(total, 1);
    assert!(already.0.contains(&9));
    assert_eq!(already.0.len(), 1);
}

#[test]
fn first_tick_emits_the_event_with_the_rays_damage() {
    let mut already = AlreadyHit::new();
    let events = emit_hits_from_rays(1, &spec(true), &vec![contact(9, 10_000)], &mut already);
    assert_eq!(
        events,
        vec![MeleeRaycastHit {
            attacker: 1,
            target: 9,
            distance: 10_000,
            normal: Vec2 { x: -1000, y: 0 },
            damage: 20,
        }]
    );
}

#[test]
fn a_new_swing_may_hit_the_same_target_again() {
    let mut first = AlreadyHit::new();
    assert_eq!(emit_hits_from_rays(1, &spec(true), &vec![contact(9, 1)], &mut first).len(), 1);
    assert_eq!(emit_hits_from_rays(1, &spec(true), &vec![contact(9, 1)], &mut first).len(), 0);
    let mut second = AlreadyHit::new();
    assert_eq!(emit_hits_from_rays(1, &spec(true), &vec![contact(9, 1)], &mut second).len(), 1);
}

#[test]
fn several_targets_each_hit_once_in_reported_order() {
    let mut already = AlreadyHit::new();
    let hits = vec![contact(3, 1), contact(4, 2), contact(3, 3), contact(5, 4)];
    let events = emit_hits_from_rays(1, &spec(true), &hits, &mut already);
    let targets: Vec<u64> = events.iter().map(|e| e.target).collect();
    assert_eq!(targets, vec![3, 4, 5]);
    let events = emit_hits_from_rays(1, &spec(true), &vec![contact(5, 1), contact(6, 2)], &mut already);
    let targets: Vec<u64> = events.iter().map(|e| e.target).collect();
    assert_eq!(targets, vec![6]);
}

#[test]
fn without_once_per_swing_every_contact_hits_every_tick() {
    let mut already = AlreadyHit::new();
    let hits = vec![contact(3, 1), contact(3, 2)];
    for _ in 0..4 {
        assert_eq!(emit_hits_from_rays(1, &spec(false), &hits, &mut already).len(), 2);
    }
    assert!(already.0.is_empty());
}

#[test]
fn no_contacts_no_events() {
    let mut already = AlreadyHit::new();
    assert!(emit_hits_from_rays(1, &spec(true), &vec![], &mut already).is_empty());
    assert!(already.0.is_empty());
}

#[test]
fn half_defense_halves_twenty_to_ten() {
    assert_eq!(mitigated_damage(20, 500), 10);
    assert_eq!(damaged_health(40, 20, 500), 30);
}

#[test]
fn no_defense_lets_twenty_through_and_health_stops_at_zero() {
    assert_eq!(mitigated_damage(20, 0), 20);
    assert_eq!(damaged_health(10, 20, 0), 0);
}

#[test]
fn mitigated_damage_rounds_up() {
    assert_eq!(mitigated_damage(1, 950), 1);
    assert_eq!(mitigated_damage(3, 500), 2);
    assert_eq!(mitigated_damage(7, 333), 5);
    assert_eq!(mitigated_damage(1000, 1), 999);
    assert_eq!(mitigated_damage(i32::MAX, 0), i32::MAX as u32);
}

#[test]
fn defense_counts_only_between_nothing_and_its_cap() {
    assert_eq!(mitigated_damage(100, -400), 100);
    assert_eq!(mitigated_damage(100, 950), 5);
    assert_eq!(mitigated_damage(100, 951), 5);
    assert_eq!(mitigated_damage(100, i32::MAX), 5);
}

#[test]
fn raw_damage_of_nothing_or_less_does_nothing() {
    assert_eq!(mitigated_damage(0, 0), 0);
    assert_eq!(mitigated_damage(-50, 0), 0);
    assert_eq!(damaged_health(7, -50, 0), 7);
}

#[test]
fn more_defense_never_means_more_damage() {
    for raw in [1, 2, 3, 19, 20, 21, 999, 12_345] {
        let mut last = u32::MAX;
        for defense in (-100..1100).step_by(7) {
            let now = mitigated_damage(raw, defense);
            assert!(now <= last);
            last = now;
        }
    }
}

#[test]
fn player_takes_hits_on_its_targets_only() {
    let mut stats = PlayerStats { health: 100, max_health: 100, stamina: 5, max_stamina: 9 };
    let targets = vec![
        PlayerTarget { entity: 7, defense: Some(500) },
        PlayerTarget { entity: 8, defense: None },
    ];
    let hits = vec![hit_on(7, 20), hit_on(99, 50), hit_on(8, 20)];
    apply_melee_damage_to_player_stats(&mut stats, &hits, &targets);
    assert_eq!(stats, PlayerStats { health: 70, max_health: 100, stamina: 5, max_stamina: 9 });
}

#[test]
fn player_health_stops_at_zero() {
    let mut stats = PlayerStats { health: 15, max_health: 100, stamina: 0, max_stamina: 0 };
    let targets = vec![PlayerTarget { entity: 7, defense: Some(0) }];
    apply_melee_damage_to_player_stats(&mut stats, &vec![hit_on(7, 10), hit_on(7, 10)], &targets);
    assert_eq!(stats.health, 0);
    apply_melee_damage_to_player_stats(&mut stats, &vec![hit_on(7, 10)], &targets);
    assert_eq!(stats.health, 0);
}

#[test]
fn defense_lookup_takes_the_first_entry_of_an_entity() {
    let targets = vec![
        PlayerTarget { entity: 7, defense: Some(100) },
        PlayerTarget { entity: 7, defense: Some(900) },
        PlayerTarget { entity: 8, defense: None },
    ];
    assert_eq!(find_defense(&targets, 7), Some(100));
    assert_eq!(find_defense(&targets, 8), Some(0));
    assert_eq!(find_defense(&targets, 9), None);
}
