use tower_defense::game::Game;
use tower_defense::model::{Ally, AllyElement, Direction, GRID_COLS};

fn sample_ally(element: AllyElement) -> Ally {
    Ally {
        element,
        second_element: None,
        atk: 10,
        range: 2,
        aoe_range: 0,
        level: 1,
        atk_speed: 60,
        attack_cooldown: 0,
        levelup_ratio: 150,
        special_value: 200,
    }
}

#[test]
fn cursor_wraps_on_both_axes() {
    let mut g = Game::new();
    assert_eq!(g.cursor, (0, 0));
    g.cursor_move(Direction::Up);
    assert_eq!(g.cursor, (2, 0));
    g.cursor_move(Direction::Down);
    assert_eq!(g.cursor, (0, 0));
    g.cursor_move(Direction::Left);
    assert_eq!(g.cursor, (0, 6));
    g.cursor_move(Direction::Right);
    assert_eq!(g.cursor, (0, 0));
    g.cursor = (0, 6);
    g.cursor_move(Direction::Right);
    assert_eq!(g.cursor, (0, 0));
}

#[test]
fn cursor_moves_one_cell_inside_the_grid() {
    let mut g = Game::new();
    g.cursor = (1, 3);
    g.cursor_move(Direction::Up);
    assert_eq!(g.cursor, (0, 3));
    g.cursor_move(Direction::Down);
    g.cursor_move(Direction::Down);
    assert_eq!(g.cursor, (2, 3));
    g.cursor_move(Direction::Left);
    assert_eq!(g.cursor, (2, 2));
}

#[test]
fn toggle_on_empty_cell_selects_nothing() {
    let mut g = Game::new();
    g.cursor_select();
    assert!(g.selected.is_none());
}

#[test]
fn toggle_selects_occupied_cell() {
    let mut g = Game::new();
    g.board.ally_grid[0] = Some(sample_ally(AllyElement::Basic));
    g.cursor_select();
    assert_eq!(g.selected, Some((0, 0)));
    let held = g.board.cell(0, 0).expect("cell (0, 0) is occupied");
    assert_eq!(held.element, AllyElement::Basic);
    assert!(g.board.cell(2, 6).is_none());
}

#[test]
fn drop_on_own_cell_changes_nothing() {
    // Dropping a selected ally onto its own cursor coordinate is a no-op.
    let mut g = Game::new();
    g.board.ally_grid[0] = Some(sample_ally(AllyElement::Dot));
    g.cursor_select();
    assert_eq!(g.selected, Some((0, 0)));
    let coin_before = g.coin;
    g.cursor_select();
    assert_eq!(g.selected, Some((0, 0)));
    assert_eq!(g.coin, coin_before);
    assert_eq!(g.cursor, (0, 0));
    let a = g.board.ally_grid[0].expect("the ally must still stand");
    assert_eq!(a.element, AllyElement::Dot);
    assert_eq!(a.atk, 10);
    for k in 1..21 {
        assert!(g.board.ally_grid[k].is_none());
    }
}

#[test]
fn drop_from_an_emptied_cell_only_clears_the_selection() {
    let mut g = Game::new();
    g.selected = Some((1, 1));
    g.cursor = (0, 0);
    g.cursor_select();
    assert!(g.selected.is_none());
    assert!(g.board.ally_grid.iter().all(|c| c.is_none()));
}

#[test]
fn drop_moves_ally_to_empty_cell() {
    let mut g = Game::new();
    g.board.ally_grid[0] = Some(sample_ally(AllyElement::Slow));
    g.cursor_select();
    g.cursor_move(Direction::Right);
    g.cursor_select();
    assert!(g.selected.is_none());
    assert!(g.board.ally_grid[0].is_none());
    let moved = g.board.ally_grid[1].expect("ally must have moved");
    assert_eq!(moved.element, AllyElement::Slow);
}

#[test]
fn drop_merges_with_occupied_cell() {
    let mut g = Game::new();
    g.board.ally_grid[0] = Some(sample_ally(AllyElement::Basic));
    g.board.ally_grid[1] = Some(sample_ally(AllyElement::Basic));
    g.cursor_select();
    g.cursor_move(Direction::Right);
    g.cursor_select();
    assert!(g.selected.is_none());
    assert!(g.board.ally_grid[0].is_none());
    let merged = g.board.ally_grid[1].expect("merge must place the result");
    assert_eq!(merged.level, 2);
    assert_eq!(merged.atk, 15);
}

#[test]
fn failed_merge_restores_ally_and_keeps_selection() {
    let mut g = Game::new();
    let mut low = sample_ally(AllyElement::Basic);
    low.level = 1;
    let mut high = sample_ally(AllyElement::Basic);
    high.level = 2;
    g.board.ally_grid[0] = Some(low);
    g.board.ally_grid[GRID_COLS] = Some(high);
    g.cursor_select();
    g.cursor_move(Direction::Down);
    g.cursor_select();
    assert_eq!(g.selected, Some((0, 0)));
    assert_eq!(g.board.ally_grid[0].expect("source kept").level, 1);
    assert_eq!(g.board.ally_grid[GRID_COLS].expect("target kept").level, 2);
}
