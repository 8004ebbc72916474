use tower_defense::model::{Ally, AllyElement};
use tower_defense::game::Game;

fn ally(element: AllyElement, second: Option<AllyElement>, atk: usize, level: usize) -> Ally {
    Ally {
        element,
        second_element: second,
        atk,
        range: 2,
        aoe_range: 0,
        level,
        atk_speed: 60,
        attack_cooldown: 0,
        levelup_ratio: 150,
        special_value: 200,
    }
}

#[test]
fn merge_equal_allies_upgrades() {
    let mut g = Game::new();
    let a = ally(AllyElement::Basic, None, 10, 1);
    let merged = g.ally_merge(a, a).expect("equal allies must merge");
    assert_eq!(merged.level, 2);
    assert_eq!(merged.atk, 15);
    assert_eq!(merged.range, 3);
    assert_eq!(merged.aoe_range, 0);
    assert_eq!(merged.atk_speed, 90);
    assert_eq!(merged.attack_cooldown, 0);
    assert_eq!(merged.levelup_ratio, 150);
    assert_eq!(merged.special_value, 300);
    assert_eq!(merged.element, AllyElement::Basic);
    assert!(merged.second_element.is_none());
}

#[test]
fn merge_upgrade_truncates_scaled_stats() {
    let mut g = Game::new();
    let a = ally(AllyElement::Dot, None, 5, 3);
    let merged = g.ally_merge(a, a).expect("equal allies must merge");
    // 5 * 1.5 = 7.5, truncated toward zero.
    assert_eq!(merged.atk, 7);
    assert_eq!(merged.level, 4);
}

#[test]
fn merge_two_basic_level_one_allies_is_hybrid() {
    // Two level-1 allies without secondary elements and different primaries
    // merge into a hybrid: ascending element order, max attack, level kept,
    // cooldown reset.
    let mut g = Game::new();
    let a = ally(AllyElement::Slow, None, 12, 1);
    let mut b = ally(AllyElement::Basic, None, 7, 1);
    b.atk_speed = 120;
    b.attack_cooldown = 33;
    let merged = g.ally_merge(a, b).expect("hybrid merge must succeed");
    assert_eq!(merged.element, AllyElement::Basic);
    assert_eq!(merged.second_element, Some(AllyElement::Slow));
    assert_eq!(merged.atk, 12);
    assert_eq!(merged.level, 1);
    assert_eq!(merged.attack_cooldown, 0);
    assert_eq!(merged.atk_speed, (60 + 120) / 2);
}

#[test]
fn merge_is_commutative_on_hybrids() {
    let mut g = Game::new();
    let a = ally(AllyElement::Critical, None, 3, 2);
    let b = ally(AllyElement::Aoe, None, 9, 2);
    let m1 = g.ally_merge(a, b).expect("hybrid merge must succeed");
    let m2 = g.ally_merge(b, a).expect("hybrid merge must succeed");
    assert_eq!(m1.element, m2.element);
    assert_eq!(m1.second_element, m2.second_element);
    assert_eq!(m1.atk, m2.atk);
    assert_eq!(m1.range, m2.range);
    assert_eq!(m1.aoe_range, m2.aoe_range);
    assert_eq!(m1.level, m2.level);
    assert_eq!(m1.atk_speed, m2.atk_speed);
    assert_eq!(m1.levelup_ratio, m2.levelup_ratio);
    assert_eq!(m1.special_value, m2.special_value);
    assert_eq!(m1.element, AllyElement::Aoe);
    assert_eq!(m1.second_element, Some(AllyElement::Critical));
}

#[test]
fn merge_is_commutative_on_upgrades_with_unequal_stats() {
    // The upgrade branch combines the two inputs symmetrically: elementwise
    // maxima scaled by the larger level-up ratio, so argument order never
    // matters.
    let mut g = Game::new();
    let mut a = ally(AllyElement::Basic, None, 10, 1);
    a.atk_speed = 60;
    a.levelup_ratio = 100;
    a.special_value = 200;
    let mut b = ally(AllyElement::Basic, None, 20, 1);
    b.atk_speed = 120;
    b.levelup_ratio = 150;
    b.special_value = 100;
    let m1 = g.ally_merge(a, b).expect("upgrade merge must succeed");
    let m2 = g.ally_merge(b, a).expect("upgrade merge must succeed");
    assert_eq!(m1.atk, m2.atk);
    assert_eq!(m1.range, m2.range);
    assert_eq!(m1.aoe_range, m2.aoe_range);
    assert_eq!(m1.level, m2.level);
    assert_eq!(m1.atk_speed, m2.atk_speed);
    assert_eq!(m1.levelup_ratio, m2.levelup_ratio);
    assert_eq!(m1.special_value, m2.special_value);
    // max(10, 20) scaled by the larger ratio 1.5.
    assert_eq!(m1.atk, 30);
    assert_eq!(m1.atk_speed, 180);
    assert_eq!(m1.levelup_ratio, 150);
    assert_eq!(m1.special_value, 300);
    assert_eq!(m1.level, 2);
}

#[test]
fn merge_refused_on_level_mismatch() {
    let mut g = Game::new();
    let a = ally(AllyElement::Basic, None, 10, 1);
    let b = ally(AllyElement::Basic, None, 10, 2);
    assert!(g.ally_merge(a, b).is_none());
}

#[test]
fn merge_refused_when_a_hybrid_meets_another_element() {
    let mut g = Game::new();
    let a = ally(AllyElement::Basic, Some(AllyElement::Slow), 10, 1);
    let b = ally(AllyElement::Dot, None, 10, 1);
    assert!(g.ally_merge(a, b).is_none());
}

#[test]
fn merge_upgrades_hybrids_with_identical_pairs() {
    let mut g = Game::new();
    let a = ally(AllyElement::Basic, Some(AllyElement::Critical), 10, 2);
    let merged = g.ally_merge(a, a).expect("identical hybrids must merge");
    assert_eq!(merged.level, 3);
    assert!(merged.second_element.is_none());
    assert_eq!(merged.element, AllyElement::Basic);
}
