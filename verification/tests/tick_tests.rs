use tower_defense::config::ConfigFile;
use tower_defense::game::Game;
use tower_defense::model::{Ally, AllyElement, Debuff, Enemy, GameState};

fn enemy_at(position: u64, hp: usize, move_speed: u64) -> Enemy {
    Enemy { hp, move_speed, position, dot_list: Vec::new(), slow_list: Vec::new() }
}

fn ally(element: AllyElement, atk: usize, range: usize) -> Ally {
    Ally {
        element,
        second_element: None,
        atk,
        range,
        aoe_range: 0,
        level: 1,
        atk_speed: 60,
        attack_cooldown: 0,
        levelup_ratio: 150,
        special_value: 200,
    }
}

#[test]
fn enemy_advances_one_tick_near_the_wrap() {
    // 23.9 path-units is 14340 subunits; one tick at one path-unit per
    // second adds 10 subunits.
    let mut g = Game::new();
    g.board.enemies.push(enemy_at(14340, 100, 600));
    g.update();
    assert_eq!(g.board.enemies.len(), 1);
    assert_eq!(g.board.enemies[0].position, 14350);
    assert!(matches!(g.game_state, GameState::Running));
}

#[test]
fn enemy_position_wraps_exactly_at_the_perimeter() {
    let mut g = Game::new();
    g.board.enemies.push(enemy_at(14395, 100, 600));
    g.update();
    // 14395 + 10 = 14405, and 14405 mod 14400 = 5: back on the top edge.
    assert_eq!(g.board.enemies[0].position, 5);
    assert_eq!(g.board.enemies[0].grid_position(), (5, 0));
}

#[test]
fn enemy_reaching_the_perimeter_end_lands_back_at_the_origin() {
    let mut g = Game::new();
    g.board.enemies.push(enemy_at(14390, 100, 600));
    g.update();
    // 14390 + 10 lands exactly on the 24-unit mark, which wraps to 0: the
    // seam of the left and top segments projects to the origin corner.
    assert_eq!(g.board.enemies[0].position, 0);
    assert_eq!(g.board.enemies[0].grid_position(), (0, 0));
}

#[test]
fn projection_covers_all_four_segments() {
    assert_eq!(enemy_at(300, 1, 600).grid_position(), (300, 0));
    assert_eq!(enemy_at(5000, 1, 600).grid_position(), (4800, 200));
    assert_eq!(enemy_at(8000, 1, 600).grid_position(), (800, 7200));
    assert_eq!(enemy_at(14390, 1, 600).grid_position(), (0, 2390));
}

#[test]
fn critical_ally_kills_enemy_and_earns_bounty() {
    // Attack 10 with a Critical element deals 20: an enemy with 15 hit
    // points drops to zero, is removed, and pays 10 coins.
    let mut g = Game::new();
    g.board.ally_grid[0] = Some(ally(AllyElement::Critical, 10, 2));
    g.board.enemies.push(enemy_at(0, 15, 600));
    g.update();
    assert!(g.board.enemies.is_empty());
    assert_eq!(g.coin, 110);
    assert!(matches!(g.game_state, GameState::End));
}

#[test]
fn plain_ally_deals_unmodified_damage() {
    let mut g = Game::new();
    g.board.ally_grid[0] = Some(ally(AllyElement::Basic, 10, 2));
    g.board.enemies.push(enemy_at(0, 15, 0));
    g.update();
    assert_eq!(g.board.enemies.len(), 1);
    assert_eq!(g.board.enemies[0].hp, 5);
    assert_eq!(g.coin, 100);
}

#[test]
fn slow_ally_applies_a_stacking_debuff() {
    let mut g = Game::new();
    g.board.ally_grid[0] = Some(ally(AllyElement::Slow, 1, 2));
    g.board.enemies.push(enemy_at(0, 100, 600));
    g.update();
    let e = &g.board.enemies[0];
    assert_eq!(e.hp, 99);
    assert_eq!(e.slow_list.len(), 1);
    assert_eq!(e.slow_list[0].value, 1);
    // Applied at 60 ticks and already decayed by this tick's pass.
    assert_eq!(e.slow_list[0].cooldown, 59);
    // The fresh slow halves this tick's movement: 10 subunits become 5.
    assert_eq!(e.position, 5);
}

#[test]
fn dot_debuff_burns_and_expires() {
    let mut g = Game::new();
    let mut e = enemy_at(0, 50, 0);
    e.dot_list.push(Debuff { value: 2, cooldown: 2 });
    g.board.enemies.push(e);
    g.update();
    assert_eq!(g.board.enemies[0].hp, 48);
    assert_eq!(g.board.enemies[0].dot_list.len(), 1);
    assert_eq!(g.board.enemies[0].dot_list[0].cooldown, 1);
    g.update();
    assert_eq!(g.board.enemies[0].hp, 46);
    assert!(g.board.enemies[0].dot_list.is_empty());
    g.update();
    assert_eq!(g.board.enemies[0].hp, 46);
}

#[test]
fn damage_saturates_at_zero_hit_points() {
    let mut g = Game::new();
    g.board.ally_grid[0] = Some(ally(AllyElement::Critical, 1000, 3));
    g.board.enemies.push(enemy_at(0, 15, 0));
    g.update();
    // 2000 damage against 15 hit points: the enemy bottoms out at zero and
    // is removed, never negative.
    assert!(g.board.enemies.is_empty());
    assert_eq!(g.coin, 110);
}

#[test]
fn ready_ally_resets_its_cooldown_to_the_attack_period() {
    let mut g = Game::new();
    let mut a = ally(AllyElement::Basic, 10, 2);
    a.atk_speed = 120;
    a.attack_cooldown = 0;
    g.board.ally_grid[0] = Some(a);
    g.update();
    assert_eq!(g.board.ally_grid[0].unwrap().attack_cooldown, 120);
    g.update();
    assert_eq!(g.board.ally_grid[0].unwrap().attack_cooldown, 119);
}

#[test]
fn spawn_happens_the_tick_the_countdown_reaches_zero() {
    let mut g = Game::new();
    g.board.enemy_ready2spawn.push((enemy_at(0, 100, 600), 1));
    g.board.enemy_ready2spawn.push((enemy_at(0, 100, 600), 3));
    g.update();
    assert_eq!(g.board.enemies.len(), 1);
    assert_eq!(g.board.enemy_ready2spawn.len(), 1);
    assert_eq!(g.board.enemy_ready2spawn[0].1, 2);
    // The enemy spawned this tick already moved its 10 subunits.
    assert_eq!(g.board.enemies[0].position, 10);
}

#[test]
fn equidistant_enemies_tie_break_to_the_first_index() {
    // The ally in the corner cell stands at world (600, 600); the path
    // origin (0, 0) and the top-edge point (1200, 0) are equidistant from
    // it, and the linear minimum scan keeps the first minimal element.
    let mut g = Game::new();
    g.board.ally_grid[0] = Some(ally(AllyElement::Basic, 10, 2));
    g.board.enemies.push(enemy_at(0, 50, 0));
    g.board.enemies.push(enemy_at(1200, 50, 0));
    g.update();
    assert_eq!(g.board.enemies[0].hp, 40);
    assert_eq!(g.board.enemies[1].hp, 50);
}

#[test]
fn aoe_ally_hits_everyone_near_the_target() {
    let mut g = Game::new();
    let mut a = ally(AllyElement::Aoe, 10, 3);
    a.aoe_range = 2;
    g.board.ally_grid[0] = Some(a);
    // Nearest target at the corner; a second enemy one path-unit along the
    // top edge is within the 2-unit area radius of the target.
    g.board.enemies.push(enemy_at(0, 50, 0));
    g.board.enemies.push(enemy_at(600, 50, 0));
    g.update();
    assert_eq!(g.board.enemies[0].hp, 40);
    assert_eq!(g.board.enemies[1].hp, 40);
}

#[test]
fn enemy_totals_never_grow_over_a_round() {
    let mut g = Game::new();
    g.init_game(ConfigFile::default_config_file());
    let mut sweeper = ally(AllyElement::Critical, 200, 15);
    sweeper.atk_speed = 1;
    g.board.ally_grid[0] = Some(sweeper);
    let mut total = g.board.enemies.len() + g.board.enemy_ready2spawn.len();
    assert_eq!(total, 10);
    for _ in 0..400 {
        g.update();
        let now = g.board.enemies.len() + g.board.enemy_ready2spawn.len();
        assert!(now <= total, "active + pending enemies must never grow");
        total = now;
    }
    // 400 ticks cover every delay (at most 100) and every kill at this
    // attack power, so the round is over.
    assert_eq!(total, 0);
    assert!(matches!(g.game_state, GameState::End));
}
