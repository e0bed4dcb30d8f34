use redeemer::class::{Attributes, BaseStats, ClassFile};
use redeemer::hud::{sync_player_stats_from_class, HudClassSyncState, PlayerStats};

fn class(id: &str, max_health: u32, stamina_max: i32) -> ClassFile {
    ClassFile {
        id: id.to_string(),
        display_name: String::new(),
        tags: vec!["melee".to_string()],
        attribute_start: Attributes { might: 1, agility: 2, focus: 3, grit: 4 },
        base_stats: BaseStats {
            max_health,
            defense: 0,
            knockback_resist: 0,
            melee_power: 0,
            spell_power: 0,
            knockback: 0,
            move_speed: 0,
            crit_chance: 0,
            crit_multiplier: 0,
            attack_cooldown_reduction: 0,
            projectile_speed: 0,
            stamina_max,
            stamina_regen_per_s: 0,
        },
    }
}

#[test]
fn pools_start_full_at_a_hundred() {
    let stats = PlayerStats::default();
    assert_eq!(stats, PlayerStats { health: 100, max_health: 100, stamina: 100_000, max_stamina: 100_000 });
}

#[test]
fn a_new_class_refills_the_pools_once() {
    let mut stats = PlayerStats::default();
    let mut sync = HudClassSyncState { last_class_id: None };
    let knight = class("knight", 150, 80_000);
    sync_player_stats_from_class(&mut stats, &mut sync, Some(&knight));
    assert_eq!(stats, PlayerStats { health: 150, max_health: 150, stamina: 80_000, max_stamina: 80_000 });
    assert_eq!(sync.last_class_id.as_deref(), Some("knight"));
    stats.health = 20;
    sync_player_stats_from_class(&mut stats, &mut sync, Some(&knight));
    assert_eq!(stats.health, 20);
    let rogue = class("rogue", 90, 120_000);
    sync_player_stats_from_class(&mut stats, &mut sync, Some(&rogue));
    assert_eq!(stats, PlayerStats { health: 90, max_health: 90, stamina: 120_000, max_stamina: 120_000 });
    assert_eq!(sync.last_class_id.as_deref(), Some("rogue"));
}

#[test]
fn without_a_class_the_last_one_is_forgotten() {
    let mut stats = PlayerStats::default();
    let mut sync = HudClassSyncState { last_class_id: None };
    let knight = class("knight", 150, 80_000);
    sync_player_stats_from_class(&mut stats, &mut sync, Some(&knight));
    stats.health = 20;
    sync_player_stats_from_class(&mut stats, &mut sync, None);
    assert_eq!(sync.last_class_id, None);
    assert_eq!(stats.health, 20);
    sync_player_stats_from_class(&mut stats, &mut sync, Some(&knight));
    assert_eq!(stats.health, 150);
}

#[test]
fn health_bar_fill_is_per_mille_rounded_down() {
    let stats = |health, max_health| PlayerStats { health, max_health, stamina: 0, max_stamina: 0 };
    assert_eq!(stats(100, 100).update_health_bar(), 1000);
    assert_eq!(stats(30, 40).update_health_bar(), 750);
    assert_eq!(stats(1, 3).update_health_bar(), 333);
    assert_eq!(stats(0, 40).update_health_bar(), 0);
    assert_eq!(stats(50, 40).update_health_bar(), 1000);
    assert_eq!(stats(0, 0).update_health_bar(), 0);
    assert_eq!(stats(1, 0).update_health_bar(), 1000);
    assert_eq!(stats(u32::MAX, 1).update_health_bar(), 1000);
}

#[test]
fn shown_health_is_never_above_the_maximum() {
    let stats = |health, max_health| PlayerStats { health, max_health, stamina: 0, max_stamina: 0 };
    assert_eq!(stats(30, 40).update_health_text(), 30);
    assert_eq!(stats(50, 40).update_health_text(), 40);
}
