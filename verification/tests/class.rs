use redeemer::class::{
    attach_class_to_targets, maybe_spawn_debug_holder, ClassPlugin, ClassPluginConfig, ClassSlot,
};
use redeemer::enemy_class::{
    attach_enemy_class_to_targets, EnemyClassPlugin, EnemyClassPluginConfig, EnemyClassSlot,
};

#[test]
fn class_plugin_remembers_its_path_and_spawns_a_holder_by_default() {
    let plugin = ClassPlugin::new("assets/class_unknown.json");
    assert_eq!(plugin.config().path, "assets/class_unknown.json");
    assert!(plugin.config().spawn_debug_holder_if_missing);
}

#[test]
fn class_plugin_holder_can_be_switched() {
    let plugin = ClassPlugin::new("a.json").spawn_debug_holder(false);
    assert_eq!(plugin.config().path, "a.json");
    assert!(!plugin.config().spawn_debug_holder_if_missing);
    assert!(plugin.spawn_debug_holder(true).config().spawn_debug_holder_if_missing);
}

#[test]
fn enemy_class_plugin_remembers_its_path_and_switch() {
    let plugin = EnemyClassPlugin::new("assets/enemy.json");
    assert_eq!(plugin.config().path, "assets/enemy.json");
    assert!(plugin.config().spawn_debug_holder_if_missing);
    let plugin = plugin.spawn_debug_holder(false);
    assert_eq!(plugin.config().path, "assets/enemy.json");
    assert!(!plugin.config().spawn_debug_holder_if_missing);
}

#[test]
fn holder_is_spawned_only_when_wanted_and_no_target_exists() {
    let on = ClassPluginConfig { path: String::new(), spawn_debug_holder_if_missing: true };
    let off = ClassPluginConfig { path: String::new(), spawn_debug_holder_if_missing: false };
    assert!(maybe_spawn_debug_holder(&on, 0));
    assert!(!maybe_spawn_debug_holder(&on, 1));
    assert!(!maybe_spawn_debug_holder(&off, 0));
    let enemy_on = EnemyClassPluginConfig { path: String::new(), spawn_debug_holder_if_missing: true };
    assert!(redeemer::enemy_class::maybe_spawn_debug_holder(&enemy_on, 0));
    assert!(!redeemer::enemy_class::maybe_spawn_debug_holder(&enemy_on, 2));
}

#[test]
fn class_goes_to_the_targets_that_lack_it_once_it_is_loaded() {
    let targets = vec![
        ClassSlot { entity: 1, has_class: false },
        ClassSlot { entity: 2, has_class: true },
        ClassSlot { entity: 3, has_class: false },
    ];
    assert_eq!(attach_class_to_targets(true, &targets), vec![1, 3]);
    assert_eq!(attach_class_to_targets(false, &targets), Vec::<u64>::new());
    let enemies = vec![
        EnemyClassSlot { entity: 4, has_class: true },
        EnemyClassSlot { entity: 5, has_class: false },
    ];
    assert_eq!(attach_enemy_class_to_targets(true, &enemies), vec![5]);
    assert_eq!(attach_enemy_class_to_targets(false, &enemies), Vec::<u64>::new());
}
