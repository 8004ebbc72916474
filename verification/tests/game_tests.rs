use tower_defense::config::ConfigFile;
use tower_defense::game::Game;
use tower_defense::model::{AllyElement, GameState};

#[test]
fn new_game_defaults() {
    let g = Game::new();
    assert_eq!(g.coin, 100);
    assert_eq!(g.level, 1);
    assert_eq!(g.cursor, (0, 0));
    assert!(g.selected.is_none());
    assert!(matches!(g.game_state, GameState::Init));
    assert_eq!(g.board.ally_grid.len(), 21);
    assert!(g.board.ally_grid.iter().all(|c| c.is_none()));
    assert!(g.board.enemies.is_empty());
    assert!(g.board.enemy_ready2spawn.is_empty());
    assert!(g.config.is_none());
}

#[test]
fn ten_purchases_on_a_fresh_game_fill_ten_cells() {
    // Fresh game, 100 coins: ten purchases never lack coins and end with an
    // empty purse and exactly ten occupied cells of the 21.
    let mut g = Game::new();
    for n in 0..10 {
        assert!(g.coin >= 10, "purchase {} must still be affordable", n);
        g.buy_ally();
    }
    assert_eq!(g.coin, 0);
    let occupied = g.board.ally_grid.iter().filter(|c| c.is_some()).count();
    assert_eq!(occupied, 10);
    for cell in g.board.ally_grid.iter() {
        if let Some(a) = cell {
            assert_eq!(a.level, 1);
            assert!(a.second_element.is_none());
        }
    }
}

#[test]
fn purchase_without_coins_changes_nothing() {
    let mut g = Game::new();
    g.coin = 9;
    g.buy_ally();
    assert_eq!(g.coin, 9);
    assert!(g.board.ally_grid.iter().all(|c| c.is_none()));
}

#[test]
fn purchase_on_a_full_grid_still_costs() {
    let mut g = Game::new();
    let cfg = ConfigFile::default_config_file();
    for k in 0..21 {
        g.board.ally_grid[k] = Some(cfg.purchased_ally(AllyElement::Basic));
    }
    g.buy_ally();
    assert_eq!(g.coin, 90);
    let occupied = g.board.ally_grid.iter().filter(|c| c.is_some()).count();
    assert_eq!(occupied, 21);
}

#[test]
fn init_game_enqueues_ten_baseline_enemies() {
    let mut g = Game::new();
    g.init_game(ConfigFile::default_config_file());
    assert!(g.config.is_some());
    assert_eq!(g.board.enemy_ready2spawn.len(), 10);
    for (enemy, delay) in g.board.enemy_ready2spawn.iter() {
        assert_eq!(enemy.hp, 100);
        assert_eq!(enemy.move_speed, 600);
        assert_eq!(enemy.position, 0);
        assert!(enemy.dot_list.is_empty());
        assert!(enemy.slow_list.is_empty());
        assert!(*delay <= 100);
    }
    assert!(g.board.enemies.is_empty());
}

#[test]
fn purchased_ally_takes_configured_and_fallback_values() {
    let cfg = ConfigFile::default_config_file();
    let a = cfg.purchased_ally(AllyElement::Critical);
    assert_eq!(a.element, AllyElement::Critical);
    assert!(a.second_element.is_none());
    assert_eq!(a.atk, 10);
    assert_eq!(a.range, 2);
    assert_eq!(a.aoe_range, 0);
    assert_eq!(a.level, 1);
    assert_eq!(a.atk_speed, 60);
    assert_eq!(a.attack_cooldown, 0);
    assert_eq!(a.levelup_ratio, 150);
    assert_eq!(a.special_value, 200);
}

#[test]
fn ally_names_follow_the_element_pair() {
    let cfg = ConfigFile::default_config_file();
    let basic = cfg.purchased_ally(AllyElement::Basic);
    assert_eq!(basic.name(), "Tung Tung Tung Sahur");
    assert_eq!(basic.avatar_path(), "assets/avatars/basic.png");
    let mut hybrid = cfg.purchased_ally(AllyElement::Basic);
    hybrid.second_element = Some(AllyElement::Slow);
    assert_eq!(hybrid.name(), "Tralatung Sahurrissimo");
    assert_eq!(hybrid.avatar_path(), "assets/avatars/basic_slow.png");
}
