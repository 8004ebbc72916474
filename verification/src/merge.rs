//! Ally merge engine: a pure rule combining two allies into an upgraded or
//! hybrid ally, or refusing the merge.
//!
//! - Equal level and identical element pair: upgrade. Same element pair
//!   with the secondary dropped, level raised by one, cooldown reset, and
//!   the stats combined symmetrically — each is the elementwise maximum of
//!   the two inputs, scaled by the larger level-up ratio (truncating,
//!   saturating at the type's maximum) — so that merging commutes.
//! - Equal level, neither input with a secondary element: hybrid. The
//!   lower-ordered element becomes primary, the other secondary; `atk`,
//!   `range` and `aoe_range` take the elementwise maximum, the remaining
//!   scaled stats the truncating average; level unchanged, cooldown reset.
//! - Anything else: no merge.
use crate::game::Game;
use crate::model::{elem_rank, Ally, AllyElement, RATIO_SCALE};
use vstd::prelude::*;

verus! {

/// `x * ratio / RATIO_SCALE`, truncating, saturating at `usize::MAX`.
pub open spec fn scale_usize_spec(x: usize, ratio: u64) -> int {
    let v = (x * ratio) / (RATIO_SCALE as int);
    if v > usize::MAX {
        usize::MAX as int
    } else {
        v
    }
}

/// `x * ratio / RATIO_SCALE`, truncating, saturating at `u64::MAX`.
pub open spec fn scale_u64_spec(x: u64, ratio: u64) -> int {
    let v = (x * ratio) / (RATIO_SCALE as int);
    if v > u64::MAX {
        u64::MAX as int
    } else {
        v
    }
}

/// Truncating average of two values.
pub open spec fn avg_u64_spec(a: u64, b: u64) -> int {
    (a + b) / 2
}

pub open spec fn max_usize_spec(a: usize, b: usize) -> usize {
    if a >= b {
        a
    } else {
        b
    }
}

pub open spec fn max_u64_spec(a: u64, b: u64) -> u64 {
    if a >= b {
        a
    } else {
        b
    }
}

/// The upgraded ally a same-element, same-level merge produces: the two
/// inputs' stats are combined as elementwise maxima and scaled by the
/// larger level-up ratio, so the result does not depend on the order of
/// the inputs.
pub open spec fn upgrade_spec(a: Ally, b: Ally) -> Ally {
    let ratio = max_u64_spec(a.levelup_ratio, b.levelup_ratio);
    Ally {
        element: a.element,
        second_element: None,
        atk: scale_usize_spec(max_usize_spec(a.atk, b.atk), ratio) as usize,
        range: scale_usize_spec(max_usize_spec(a.range, b.range), ratio) as usize,
        aoe_range: scale_usize_spec(max_usize_spec(a.aoe_range, b.aoe_range), ratio) as usize,
        level: if a.level == usize::MAX {
            usize::MAX
        } else {
            (a.level + 1) as usize
        },
        atk_speed: scale_u64_spec(max_u64_spec(a.atk_speed, b.atk_speed), ratio) as u64,
        attack_cooldown: 0,
        levelup_ratio: ratio,
        special_value: scale_u64_spec(max_u64_spec(a.special_value, b.special_value), ratio) as u64,
    }
}

/// The hybrid ally a merge of two secondary-free allies produces: the
/// element pair in ascending order, so the result does not depend on the
/// order of the inputs.
pub open spec fn hybrid_spec(a: Ally, b: Ally) -> Ally {
    let (e0, e1) = if elem_rank(a.element) < elem_rank(b.element) {
        (a.element, b.element)
    } else {
        (b.element, a.element)
    };
    Ally {
        element: e0,
        second_element: Some(e1),
        atk: max_usize_spec(a.atk, b.atk),
        range: max_usize_spec(a.range, b.range),
        aoe_range: max_usize_spec(a.aoe_range, b.aoe_range),
        level: a.level,
        atk_speed: avg_u64_spec(a.atk_speed, b.atk_speed) as u64,
        attack_cooldown: 0,
        levelup_ratio: avg_u64_spec(a.levelup_ratio, b.levelup_ratio) as u64,
        special_value: avg_u64_spec(a.special_value, b.special_value) as u64,
    }
}

/// True when two allies meet the upgrade branch: equal level and identical
/// (primary, secondary) element pairs.
pub open spec fn upgrade_case(a: Ally, b: Ally) -> bool {
    a.level == b.level && a.element == b.element && a.second_element == b.second_element
}

/// True when two allies meet the hybrid branch: equal level, not the
/// upgrade case, and neither with a secondary element.
pub open spec fn hybrid_case(a: Ally, b: Ally) -> bool {
    &&& a.level == b.level
    &&& !upgrade_case(a, b)
    &&& a.second_element is None
    &&& b.second_element is None
}

/// What merging two allies yields, if anything.
pub open spec fn merge_spec(a: Ally, b: Ally) -> Option<Ally> {
    if a.level != b.level {
        None
    } else if a.element == b.element && a.second_element == b.second_element {
        Some(upgrade_spec(a, b))
    } else if a.second_element is None && b.second_element is None {
        Some(hybrid_spec(a, b))
    } else {
        None
    }
}

fn scale_usize(x: usize, ratio: u64) -> (r: usize)
    ensures
        r as int == scale_usize_spec(x, ratio),
{
    let xw: u128 = x as u128;
    let rw: u128 = ratio as u128;
    proof {
        assert(xw * rw <= u128::MAX) by (nonlinear_arith)
            requires
                xw <= u64::MAX,
                rw <= u64::MAX,
        ;
    }
    let wide: u128 = xw * rw / (RATIO_SCALE as u128);
    if wide > usize::MAX as u128 {
        usize::MAX
    } else {
        wide as usize
    }
}

fn scale_u64(x: u64, ratio: u64) -> (r: u64)
    ensures
        r as int == scale_u64_spec(x, ratio),
{
    let xw: u128 = x as u128;
    let rw: u128 = ratio as u128;
    proof {
        assert(xw * rw <= u128::MAX) by (nonlinear_arith)
            requires
                xw <= u64::MAX,
                rw <= u64::MAX,
        ;
    }
    let wide: u128 = xw * rw / (RATIO_SCALE as u128);
    if wide > u64::MAX as u128 {
        u64::MAX
    } else {
        wide as u64
    }
}

fn avg_u64(a: u64, b: u64) -> (r: u64)
    ensures
        r as int == avg_u64_spec(a, b),
{
    let wide: u128 = ((a as u128) + (b as u128)) / 2;
    assert(wide <= u64::MAX as u128) by {
        assert((a as int + b as int) / 2 <= if a >= b {
            a as int
        } else {
            b as int
        });
    }
    wide as u64
}

fn max_usize(a: usize, b: usize) -> (r: usize)
    ensures
        r == max_usize_spec(a, b),
{
    if a >= b {
        a
    } else {
        b
    }
}

fn max_u64(a: u64, b: u64) -> (r: u64)
    ensures
        r == max_u64_spec(a, b),
{
    if a >= b {
        a
    } else {
        b
    }
}

fn opt_elem_eq(a: Option<AllyElement>, b: Option<AllyElement>) -> (r: bool)
    ensures
        r == (a == b),
{
    match (a, b) {
        (None, None) => true,
        (Some(x), Some(y)) => x == y,
        _ => false,
    }
}

impl Game {
    /// Merges two allies under the fixed rules, leaving the game untouched;
    /// `None` means the caller must leave both allies in place. The result,
    /// when there is one, keeps its element pair in canonical order.
    pub fn ally_merge(&mut self, ally1: Ally, ally2: Ally) -> (r: Option<Ally>)
        requires
            ally1.wf(),
            ally2.wf(),
        ensures
            r == merge_spec(ally1, ally2),
            *final(self) == *old(self),
            r matches Some(m) ==> m.wf(),
    {
        if ally1.level != ally2.level {
            return None;
        }
        if ally1.element == ally2.element && opt_elem_eq(ally1.second_element, ally2.second_element) {
            let level_up = if ally1.level == usize::MAX {
                usize::MAX
            } else {
                ally1.level + 1
            };
            let ratio = max_u64(ally1.levelup_ratio, ally2.levelup_ratio);
            Some(
                Ally {
                    element: ally1.element,
                    second_element: None,
                    atk: scale_usize(max_usize(ally1.atk, ally2.atk), ratio),
                    range: scale_usize(max_usize(ally1.range, ally2.range), ratio),
                    aoe_range: scale_usize(max_usize(ally1.aoe_range, ally2.aoe_range), ratio),
                    level: level_up,
                    atk_speed: scale_u64(max_u64(ally1.atk_speed, ally2.atk_speed), ratio),
                    attack_cooldown: 0,
                    levelup_ratio: ratio,
                    special_value: scale_u64(
                        max_u64(ally1.special_value, ally2.special_value),
                        ratio,
                    ),
                },
            )
        } else if ally1.second_element.is_none() && ally2.second_element.is_none() {
            let (e0, e1) = if ally1.element.rank() < ally2.element.rank() {
                (ally1.element, ally2.element)
            } else {
                (ally2.element, ally1.element)
            };
            Some(
                Ally {
                    element: e0,
                    second_element: Some(e1),
                    atk: max_usize(ally1.atk, ally2.atk),
                    range: max_usize(ally1.range, ally2.range),
                    aoe_range: max_usize(ally1.aoe_range, ally2.aoe_range),
                    level: ally1.level,
                    atk_speed: avg_u64(ally1.atk_speed, ally2.atk_speed),
                    attack_cooldown: 0,
                    levelup_ratio: avg_u64(ally1.levelup_ratio, ally2.levelup_ratio),
                    special_value: avg_u64(ally1.special_value, ally2.special_value),
                },
            )
        } else {
            None
        }
    }
}

/// Merging is commutative, in both branches: the hybrid branch owes this
/// to the ascending element assignment and to taking maxima and averages,
/// the upgrade branch to combining the two inputs' stats as elementwise
/// maxima before scaling.
pub proof fn lemma_merge_commutative(a: Ally, b: Ally)
    ensures
        merge_spec(a, b) == merge_spec(b, a),
{
    if a.level == b.level {
        if a.element == b.element && a.second_element == b.second_element {
            assert(upgrade_spec(a, b) == upgrade_spec(b, a));
        } else if a.second_element is None && b.second_element is None {
            assert(hybrid_spec(a, b) == hybrid_spec(b, a));
        }
    }
}

/// Merging an ally with an equal copy of itself always upgrades: the level
/// rises by one (saturating only at the type's maximum) and the stats are
/// scaled by exactly `levelup_ratio`, truncating.
pub proof fn lemma_merge_upgrade_deterministic(a: Ally)
    ensures
        merge_spec(a, a) == Some(upgrade_spec(a, a)),
        a.level < usize::MAX ==> merge_spec(a, a)->0.level == a.level + 1,
        merge_spec(a, a)->0.atk == scale_usize_spec(a.atk, a.levelup_ratio),
        merge_spec(a, a)->0.range == scale_usize_spec(a.range, a.levelup_ratio),
        merge_spec(a, a)->0.aoe_range == scale_usize_spec(a.aoe_range, a.levelup_ratio),
        merge_spec(a, a)->0.atk_speed == scale_u64_spec(a.atk_speed, a.levelup_ratio),
        merge_spec(a, a)->0.special_value == scale_u64_spec(a.special_value, a.levelup_ratio),
        merge_spec(a, a)->0.attack_cooldown == 0,
        merge_spec(a, a)->0.element == a.element,
        merge_spec(a, a)->0.second_element is None,
{
}

} // verus!
