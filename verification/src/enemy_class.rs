//! The enemies' class data and the settings of its loader.

use vstd::prelude::*;

verus! {

/// A class as its file describes it.
#[derive(Clone, Debug)]
pub struct EnemyClassFile {
    pub id: String,
    pub display_name: String,
    pub tags: Vec<String>,
    pub attribute_start: EnemyAttributes,
    pub base_stats: EnemyBaseStats,
}

/// The attributes a class starts with.
#[derive(Clone, Copy, Debug, PartialEq, Eq, Structural)]
pub struct EnemyAttributes {
    pub might: u32,
    pub agility: u32,
    pub focus: u32,
    pub grit: u32,
}

/// The base stats of a class. Health is counted in whole points; every
/// other stat is in thousandths, fractions per mille.
#[derive(Clone, Copy, Debug, PartialEq, Eq, Structural)]
pub struct EnemyBaseStats {
    pub max_health: u32,
    pub defense: i32,
    pub knockback_resist: i32,
    pub melee_power: i32,
    pub spell_power: i32,
    pub knockback: i32,
    pub move_speed: i32,
    pub crit_chance: i32,
    pub crit_multiplier: i32,
    pub attack_cooldown_reduction: i32,
    pub projectile_speed: i32,
    pub stamina_max: i32,
    pub stamina_regen_per_s: i32,
}

/// Tag of an entity that the class is to be attached to.
#[derive(Clone, Copy, Debug, Default, PartialEq, Eq)]
pub struct EnemyClassAttachTarget;

/// The class attached to an entity.
#[derive(Clone, Debug)]
pub struct EnemyClass(pub EnemyClassFile);

/// Where the class file lies, and whether an entity is made to hold the
/// class when no target exists.
#[derive(Clone, Debug)]
pub struct EnemyClassPluginConfig {
    pub path: String,
    pub spawn_debug_holder_if_missing: bool,
}

/// The loader of the class file.
#[derive(Clone, Debug)]
pub struct EnemyClassPlugin {
    config: EnemyClassPluginConfig,
}

impl EnemyClassPlugin {
    /// The path of the class file.
    pub closed spec fn path(self) -> Seq<char> {
        self.config.path@
    }

    /// Whether a holder is made when no target exists.
    pub closed spec fn spawns_debug_holder(self) -> bool {
        self.config.spawn_debug_holder_if_missing
    }

    /// A loader for the file at `path` that makes a holder when no target
    /// exists.
    pub fn new(path: &str) -> (plugin: EnemyClassPlugin)
        ensures
            plugin.path() == path@,
            plugin.spawns_debug_holder(),
    {
        EnemyClassPlugin {
            config: EnemyClassPluginConfig {
                path: String::from_str(path),
                spawn_debug_holder_if_missing: true,
            },
        }
    }

    /// The same loader with the making of a holder switched on or off.
    pub fn spawn_debug_holder(self, enabled: bool) -> (plugin: EnemyClassPlugin)
        ensures
            plugin.path() == self.path(),
            plugin.spawns_debug_holder() == enabled,
    {
        let mut plugin = self;
        plugin.config.spawn_debug_holder_if_missing = enabled;
        plugin
    }

    /// The settings of the loader.
    pub fn config(&self) -> (config: &EnemyClassPluginConfig)
        ensures
            config.path@ == self.path(),
            config.spawn_debug_holder_if_missing == self.spawns_debug_holder(),
    {
        &self.config
    }
}

/// Whether to make a holder for the class: only when that is switched on and
/// no target exists.
pub fn maybe_spawn_debug_holder(config: &EnemyClassPluginConfig, targets: usize) -> (spawn: bool)
    ensures
        spawn == (config.spawn_debug_holder_if_missing && targets == 0),
{
    config.spawn_debug_holder_if_missing && targets == 0
}

/// A target of the class, and whether the class is attached to it.
#[derive(Clone, Copy, Debug, PartialEq, Eq)]
pub struct EnemyClassSlot {
    pub entity: u64,
    pub has_class: bool,
}

/// The targets that still lack the class, in order.
pub open spec fn lacking(targets: Seq<EnemyClassSlot>) -> Seq<u64>
    decreases targets.len(),
{
    if targets.len() == 0 {
        Seq::empty()
    } else if targets.last().has_class {
        lacking(targets.drop_last())
    } else {
        lacking(targets.drop_last()).push(targets.last().entity)
    }
}

/// The targets to attach the class to: none while the class file is not
/// loaded, else those that lack it.
pub fn attach_enemy_class_to_targets(loaded: bool, targets: &Vec<EnemyClassSlot>) -> (attach: Vec<u64>)
    ensures
        attach@ == (if loaded {
            lacking(targets@)
        } else {
            Seq::empty()
        }),
{
    let mut attach: Vec<u64> = Vec::new();
    if !loaded {
        return attach;
    }
    let mut i: usize = 0;
    while i < targets.len()
        invariant
            i <= targets.len(),
            attach@ == lacking(targets@.subrange(0, i as int)),
        decreases targets.len() - i,
    {
        proof {
            let grown = targets@.subrange(0, i + 1);
            assert(grown.drop_last() == targets@.subrange(0, i as int));
        }
        if !targets[i].has_class {
            attach.push(targets[i].entity);
        }
        i += 1;
    }
    proof {
        assert(targets@.subrange(0, targets.len() as int) == targets@);
    }
    attach
}

} // verus!
