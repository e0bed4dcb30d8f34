//! The player's health and stamina pools.

use crate::class::ClassFile;
use crate::units::clamp_int;
use vstd::prelude::*;

verus! {

/// The player's pools. Health is counted in whole points, stamina in
/// thousandths of a point.
#[derive(Clone, Copy, Debug, PartialEq, Eq)]
pub struct PlayerStats {
    pub health: u32,
    pub max_health: u32,
    pub stamina: i32,
    pub max_stamina: i32,
}

impl PlayerStats {
    /// Health never exceeds its maximum.
    pub open spec fn wf(self) -> bool {
        self.health <= self.max_health
    }

    /// Full pools of a hundred points each.
    pub open spec fn full() -> PlayerStats {
        PlayerStats { health: 100, max_health: 100, stamina: 100_000, max_stamina: 100_000 }
    }
}

impl Default for PlayerStats {
    fn default() -> (stats: PlayerStats)
        ensures
            stats == PlayerStats::full(),
            stats.wf(),
    {
        PlayerStats { health: 100, max_health: 100, stamina: 100_000, max_stamina: 100_000 }
    }
}

/// The class whose stats the pools were last filled from.
#[derive(Debug)]
pub struct HudClassSyncState {
    pub last_class_id: Option<String>,
}

impl HudClassSyncState {
    /// Whether the pools were last filled from the class with this id.
    pub open spec fn filled_from(self, id: Seq<char>) -> bool {
        self.last_class_id matches Some(last) && last@ == id
    }
}

impl PlayerStats {
    /// Both pools filled to the maxima of the class.
    pub open spec fn refilled(class: ClassFile) -> PlayerStats {
        PlayerStats {
            health: class.base_stats.max_health,
            max_health: class.base_stats.max_health,
            stamina: class.base_stats.stamina_max,
            max_stamina: class.base_stats.stamina_max,
        }
    }

    /// How much of the health bar is filled, per mille, rounded down. An
    /// empty pool of no size shows an empty bar.
    pub open spec fn health_fill_spec(self) -> int {
        if self.max_health == 0 {
            if self.health > 0 {
                1000
            } else {
                0
            }
        } else {
            clamp_int(self.health * 1000 / (self.max_health as int), 0, 1000)
        }
    }

    /// The health to show: the health, but no more than the maximum.
    pub open spec fn shown_health_spec(self) -> u32 {
        if self.health > self.max_health {
            self.max_health
        } else {
            self.health
        }
    }

    /// Computes [`PlayerStats::health_fill_spec`].
    pub fn update_health_bar(&self) -> (fill: u32)
        ensures
            fill == self.health_fill_spec(),
    {
        if self.max_health == 0 {
            if self.health > 0 {
                1000
            } else {
                0
            }
        } else {
            let ratio: u64 = self.health as u64 * 1000 / self.max_health as u64;
            if ratio > 1000 {
                1000
            } else {
                ratio as u32
            }
        }
    }

    /// Computes [`PlayerStats::shown_health_spec`].
    pub fn update_health_text(&self) -> (shown: u32)
        ensures
            shown == self.shown_health_spec(),
    {
        if self.health > self.max_health {
            self.max_health
        } else {
            self.health
        }
    }
}

/// Fills the player's pools from its class when the class is new: with one
/// class attached whose id is not the one last filled from, both pools are
/// set to the class's maxima; with the same class again nothing changes.
/// Without exactly one class, the class last filled from is forgotten.
pub fn sync_player_stats_from_class(
    stats: &mut PlayerStats,
    sync: &mut HudClassSyncState,
    class: Option<&ClassFile>,
)
    ensures
        (class is None) ==> *final(stats) == *old(stats) && (final(sync).last_class_id is None),
        class matches Some(c) ==> final(sync).filled_from(c.id@) && *final(stats) == (if old(
            sync,
        ).filled_from(c.id@) {
            *old(stats)
        } else {
            PlayerStats::refilled(*c)
        }),
{
    match class {
        Some(c) => {
            let same = match &sync.last_class_id {
                Some(last) => *last == c.id,
                None => false,
            };
            if !same {
                stats.max_health = c.base_stats.max_health;
                stats.health = stats.max_health;
                stats.max_stamina = c.base_stats.stamina_max;
                stats.stamina = stats.max_stamina;
                sync.last_class_id = Some(c.id.clone());
            }
        },
        None => {
            sync.last_class_id = None;
        },
    }
}

} // verus!
