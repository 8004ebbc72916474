//! Per-element tuning configuration. Every field is optional; a mandatory
//! default record fills any gap, and a hard-coded record stands in when no
//! configuration was loaded at all. Time fields are in ticks, ratio fields
//! in hundredths (see the model module).
use crate::model::{Ally, AllyElement};
use vstd::prelude::*;

verus! {

#[derive(Clone, Copy, Debug)]
pub struct AllyConfig {
    pub atk: Option<usize>,
    pub range: Option<usize>,
    pub aoe_range: Option<usize>,
    pub level: Option<usize>,
    pub atk_speed: Option<u64>,
    pub attack_cooldown: Option<u64>,
    pub levelup_ratio: Option<u64>,
    pub special_value: Option<u64>,
}

#[derive(Clone, Copy, Debug)]
pub struct ConfigFile {
    pub default: AllyConfig,
    pub basic: Option<AllyConfig>,
    pub slow: Option<AllyConfig>,
    pub aoe: Option<AllyConfig>,
    pub dot: Option<AllyConfig>,
    pub critical: Option<AllyConfig>,
}

/// The hard-coded fallback record: attack 10, range 2, area radius 0,
/// level 1, attack period 1 second, no initial cooldown, level-up ratio
/// 1.5, special magnitude 2.0.
pub open spec fn default_ally_config_spec() -> AllyConfig {
    AllyConfig {
        atk: Some(10),
        range: Some(2),
        aoe_range: Some(0),
        level: Some(1),
        atk_speed: Some(60),
        attack_cooldown: Some(0),
        levelup_ratio: Some(150),
        special_value: Some(200),
    }
}

pub open spec fn default_config_file_spec() -> ConfigFile {
    ConfigFile {
        default: default_ally_config_spec(),
        basic: Some(default_ally_config_spec()),
        slow: Some(default_ally_config_spec()),
        aoe: Some(default_ally_config_spec()),
        dot: Some(default_ally_config_spec()),
        critical: Some(default_ally_config_spec()),
    }
}

/// The per-element record used for an element, falling back to the
/// configuration's default record where the element has none.
pub open spec fn config_for_element(c: ConfigFile, e: AllyElement) -> AllyConfig {
    let chosen = match e {
        AllyElement::Basic => c.basic,
        AllyElement::Slow => c.slow,
        AllyElement::Aoe => c.aoe,
        AllyElement::Dot => c.dot,
        AllyElement::Critical => c.critical,
    };
    match chosen {
        Some(ac) => ac,
        None => c.default,
    }
}

/// The level-1 ally a purchase creates for element `e` under configuration
/// `c`: each missing field takes a hard fallback value.
pub open spec fn purchased_ally_spec(c: ConfigFile, e: AllyElement) -> Ally {
    let ac = config_for_element(c, e);
    Ally {
        element: e,
        second_element: None,
        atk: if ac.atk is Some {
            ac.atk->0
        } else {
            10
        },
        range: if ac.range is Some {
            ac.range->0
        } else {
            1
        },
        aoe_range: if ac.aoe_range is Some {
            ac.aoe_range->0
        } else {
            0
        },
        level: if ac.level is Some {
            ac.level->0
        } else {
            1
        },
        atk_speed: if ac.atk_speed is Some {
            ac.atk_speed->0
        } else {
            60
        },
        attack_cooldown: if ac.attack_cooldown is Some {
            ac.attack_cooldown->0
        } else {
            0
        },
        levelup_ratio: if ac.levelup_ratio is Some {
            ac.levelup_ratio->0
        } else {
            150
        },
        special_value: if ac.special_value is Some {
            ac.special_value->0
        } else {
            150
        },
    }
}

impl ConfigFile {
    /// The built-in configuration used when no file could be loaded.
    pub fn default_config_file() -> (r: ConfigFile)
        ensures
            r == default_config_file_spec(),
    {
        let default_ally_config = AllyConfig {
            atk: Some(10),
            range: Some(2),
            aoe_range: Some(0),
            level: Some(1),
            atk_speed: Some(60),
            attack_cooldown: Some(0),
            levelup_ratio: Some(150),
            special_value: Some(200),
        };
        ConfigFile {
            default: default_ally_config,
            basic: Some(default_ally_config),
            slow: Some(default_ally_config),
            aoe: Some(default_ally_config),
            dot: Some(default_ally_config),
            critical: Some(default_ally_config),
        }
    }

    /// Builds the ally a purchase creates for element `e`. The result is
    /// always a well-formed single-element ally.
    pub fn purchased_ally(&self, e: AllyElement) -> (r: Ally)
        ensures
            r == purchased_ally_spec(*self, e),
            r.wf(),
    {
        let chosen = match e {
            AllyElement::Basic => self.basic,
            AllyElement::Slow => self.slow,
            AllyElement::Aoe => self.aoe,
            AllyElement::Dot => self.dot,
            AllyElement::Critical => self.critical,
        };
        let ac = match chosen {
            Some(ac) => ac,
            None => self.default,
        };
        Ally {
            element: e,
            second_element: None,
            atk: ac.atk.unwrap_or(10),
            range: ac.range.unwrap_or(1),
            aoe_range: ac.aoe_range.unwrap_or(0),
            level: ac.level.unwrap_or(1),
            atk_speed: ac.atk_speed.unwrap_or(60),
            attack_cooldown: ac.attack_cooldown.unwrap_or(0),
            levelup_ratio: ac.levelup_ratio.unwrap_or(150),
            special_value: ac.special_value.unwrap_or(150),
        }
    }
}

} // verus!
