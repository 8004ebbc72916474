//! Game controller: lifecycle state, coin balance, cursor and selection,
//! and the per-tick orchestration.
use crate::combat::{cell_after_combat, combat_enemies};
use crate::config::{default_config_file_spec, purchased_ally_spec, ConfigFile};
use crate::lifecycle::{alive_of, credit_coin, dead_count, pending_keep, spawned_of, ticked};
use crate::model::enemies_view;
use crate::model::{
    lemma_occupied_fill, occupied_count, Ally, AllyElement, Board, Enemy, GameState, ALLY_COST,
    ENEMY_BASE_HP, ENEMY_BASE_SPEED, GRID_CELLS, GRID_COLS, GRID_ROWS, SPAWN_BATCH,
    SPAWN_DELAY_MAX,
};
use crate::rng::rand_below;
use vstd::prelude::*;

verus! {

/// The element a random draw `k` of `0..5` buys, in the fixed element order.
pub open spec fn element_of(k: int) -> AllyElement {
    if k == 0 {
        AllyElement::Basic
    } else if k == 1 {
        AllyElement::Slow
    } else if k == 2 {
        AllyElement::Aoe
    } else if k == 3 {
        AllyElement::Dot
    } else {
        AllyElement::Critical
    }
}

pub open spec fn has_empty_cell(grid: Seq<Option<Ally>>) -> bool {
    exists|k: int| 0 <= k < grid.len() && grid[k] is None
}

/// A pending entry made by initialization: the baseline enemy (100 hit
/// points, one path-unit per second, at the path origin, no debuffs) with
/// a spawn delay of at most 100 ticks.
pub open spec fn baseline_pending_entry(e: (Enemy, usize)) -> bool {
    &&& e.0.hp == ENEMY_BASE_HP
    &&& e.0.move_speed == ENEMY_BASE_SPEED
    &&& e.0.position == 0
    &&& e.0.dot_list@.len() == 0
    &&& e.0.slow_list@.len() == 0
    &&& e.1 <= SPAWN_DELAY_MAX
}

/// The configuration a purchase draws from: the loaded one, or the
/// built-in default when none was loaded.
pub open spec fn effective_config(g: Game) -> ConfigFile {
    match g.config {
        Some(c) => c,
        None => default_config_file_spec(),
    }
}

#[derive(Debug)]
pub struct Game {
    pub level: usize,
    pub game_state: GameState,
    pub board: Board,
    pub cursor: (usize, usize),
    pub selected: Option<(usize, usize)>,
    pub coin: usize,
    pub config: Option<ConfigFile>,
}

impl Game {
    /// Cursor and selection stay on the grid; the board keeps its shape and
    /// its allies their canonical element order.
    pub open spec fn wf(self) -> bool {
        &&& self.board.wf()
        &&& self.cursor.0 < GRID_ROWS
        &&& self.cursor.1 < GRID_COLS
        &&& match self.selected {
            Some(s) => s.0 < GRID_ROWS && s.1 < GRID_COLS,
            None => true,
        }
    }

    /// A fresh game: 100 coins, level 1, cursor at the origin, nothing
    /// selected, an empty 3x7 grid, no enemies, no configuration loaded.
    pub fn new() -> (g: Game)
        ensures
            g.wf(),
            g.level == 1,
            g.game_state == GameState::Init,
            g.cursor == (0usize, 0usize),
            g.selected is None,
            g.coin == 100,
            g.config is None,
            g.board.ally_grid@.len() == GRID_CELLS,
            forall|k: int| 0 <= k < GRID_CELLS ==> g.board.ally_grid@[k] is None,
            g.board.enemies@.len() == 0,
            g.board.enemy_ready2spawn@.len() == 0,
    {
        let mut grid: Vec<Option<Ally>> = Vec::new();
        let mut k: usize = 0;
        while k < GRID_CELLS
            invariant
                k <= GRID_CELLS,
                grid@.len() == k,
                forall|m: int| 0 <= m < k ==> grid@[m] is None,
            decreases GRID_CELLS - k,
        {
            grid.push(None);
            k = k + 1;
        }
        Game {
            level: 1,
            cursor: (0, 0),
            selected: None,
            coin: 100,
            game_state: GameState::Init,
            board: Board { ally_grid: grid, enemies: Vec::new(), enemy_ready2spawn: Vec::new() },
            config: None,
        }
    }

    /// Enqueues the fixed initialization batch: ten baseline enemies, each
    /// with an independent random spawn delay of at most 100 ticks,
    /// appended after any entries already pending.
    fn enemy_spawn(&mut self)
        requires
            old(self).wf(),
            old(self).board.enemy_ready2spawn@.len() + SPAWN_BATCH <= usize::MAX,
        ensures
            final(self).wf(),
            final(self).board.enemy_ready2spawn@.len() == old(self).board.enemy_ready2spawn@.len()
                + SPAWN_BATCH,
            forall|k: int|
                0 <= k < old(self).board.enemy_ready2spawn@.len() ==> final(self).board.enemy_ready2spawn@[k] == old(self).board.enemy_ready2spawn@[k],
            forall|k: int|
                old(self).board.enemy_ready2spawn@.len() <= k < final(self).board.enemy_ready2spawn@.len() ==> baseline_pending_entry(
                    #[trigger] final(self).board.enemy_ready2spawn@[k],
                ),
            final(self).board.ally_grid == old(self).board.ally_grid,
            final(self).board.enemies == old(self).board.enemies,
            final(self).coin == old(self).coin,
            final(self).level == old(self).level,
            final(self).game_state == old(self).game_state,
            final(self).cursor == old(self).cursor,
            final(self).selected == old(self).selected,
            final(self).config == old(self).config,
    {
        let ghost orig = self.board.enemy_ready2spawn@;
        let mut n: usize = 0;
        while n < SPAWN_BATCH
            invariant
                n <= SPAWN_BATCH,
                orig.len() + SPAWN_BATCH <= usize::MAX,
                self.wf(),
                self.board.enemy_ready2spawn@.len() == orig.len() + n,
                forall|k: int|
                    0 <= k < orig.len() ==> self.board.enemy_ready2spawn@[k] == orig[k],
                forall|k: int|
                    orig.len() <= k < self.board.enemy_ready2spawn@.len()
                        ==> baseline_pending_entry(#[trigger] self.board.enemy_ready2spawn@[k]),
                self.board.ally_grid == old(self).board.ally_grid,
                self.board.enemies == old(self).board.enemies,
                self.coin == old(self).coin,
                self.level == old(self).level,
                self.game_state == old(self).game_state,
                self.cursor == old(self).cursor,
                self.selected == old(self).selected,
                self.config == old(self).config,
            decreases SPAWN_BATCH - n,
        {
            let enemy = Enemy {
                hp: ENEMY_BASE_HP,
                move_speed: ENEMY_BASE_SPEED,
                position: 0,
                dot_list: Vec::new(),
                slow_list: Vec::new(),
            };
            let spawn_time = rand_below(SPAWN_DELAY_MAX + 1);
            self.board.enemy_ready2spawn.push((enemy, spawn_time));
            n = n + 1;
        }
    }

    /// Starts a game round: enqueues the spawn batch and installs the
    /// tuning configuration the host loaded (or the built-in default).
    pub fn init_game(&mut self, config: ConfigFile)
        requires
            old(self).wf(),
            old(self).board.enemy_ready2spawn@.len() + SPAWN_BATCH <= usize::MAX,
        ensures
            final(self).wf(),
            final(self).config == Some(config),
            final(self).board.enemy_ready2spawn@.len() == old(self).board.enemy_ready2spawn@.len()
                + SPAWN_BATCH,
            forall|k: int|
                0 <= k < old(self).board.enemy_ready2spawn@.len() ==> final(self).board.enemy_ready2spawn@[k] == old(self).board.enemy_ready2spawn@[k],
            forall|k: int|
                old(self).board.enemy_ready2spawn@.len() <= k < final(self).board.enemy_ready2spawn@.len() ==> baseline_pending_entry(
                    #[trigger] final(self).board.enemy_ready2spawn@[k],
                ),
            final(self).board.ally_grid == old(self).board.ally_grid,
            final(self).board.enemies == old(self).board.enemies,
            final(self).coin == old(self).coin,
            final(self).level == old(self).level,
            final(self).game_state == old(self).game_state,
            final(self).cursor == old(self).cursor,
            final(self).selected == old(self).selected,
    {
        self.enemy_spawn();
        self.config = Some(config);
    }

    /// Places a level-1 ally of a random element on a random empty cell;
    /// with no empty cell, nothing happens.
    fn ally_spawn(&mut self)
        requires
            old(self).wf(),
        ensures
            final(self).wf(),
            !has_empty_cell(old(self).board.ally_grid@) ==> *final(self) == *old(self),
            has_empty_cell(old(self).board.ally_grid@) ==> exists|k: int, d: int|
                {
                    &&& 0 <= k < GRID_CELLS
                    &&& 0 <= d < 5
                    &&& old(self).board.ally_grid@[k] is None
                    &&& final(self).board.ally_grid@ == old(self).board.ally_grid@.update(
                        k,
                        Some(purchased_ally_spec(effective_config(*old(self)), element_of(d))),
                    )
                },
            has_empty_cell(old(self).board.ally_grid@) ==> occupied_count(
                final(self).board.ally_grid@,
            ) == occupied_count(old(self).board.ally_grid@) + 1,
            final(self).board.enemies == old(self).board.enemies,
            final(self).board.enemy_ready2spawn == old(self).board.enemy_ready2spawn,
            final(self).coin == old(self).coin,
            final(self).level == old(self).level,
            final(self).game_state == old(self).game_state,
            final(self).cursor == old(self).cursor,
            final(self).selected == old(self).selected,
            final(self).config == old(self).config,
    {
        let mut empty_cells: Vec<usize> = Vec::new();
        let mut k: usize = 0;
        while k < GRID_CELLS
            invariant
                k <= GRID_CELLS,
                self.board.ally_grid@.len() == GRID_CELLS,
                forall|m: int|
                    0 <= m < empty_cells@.len() ==> (#[trigger] empty_cells@[m]) < GRID_CELLS
                        && self.board.ally_grid@[empty_cells@[m] as int] is None,
                (exists|c: int| 0 <= c < k && self.board.ally_grid@[c] is None) <==> empty_cells@.len()
                    > 0,
            decreases GRID_CELLS - k,
        {
            if self.board.ally_grid[k].is_none() {
                empty_cells.push(k);
            }
            k = k + 1;
        }
        if empty_cells.len() == 0 {
            assert(!has_empty_cell(self.board.ally_grid@));
            return ;
        }
        let cell = empty_cells[rand_below(empty_cells.len())];
        let draw = rand_below(5);
        let config = match self.config {
            Some(c) => c,
            None => ConfigFile::default_config_file(),
        };
        let ally = config.purchased_ally(element_from_draw(draw));
        proof {
            lemma_occupied_fill(self.board.ally_grid@, cell as int, ally);
        }
        self.board.ally_grid.set(cell, Some(ally));
    }

    /// A purchase: with at least 10 coins, deducts 10 and places a random
    /// ally on a random empty cell (the deduction stands even on a full
    /// grid); with fewer, a rejected operation that changes nothing.
    pub fn buy_ally(&mut self)
        requires
            old(self).wf(),
        ensures
            final(self).wf(),
            old(self).coin < ALLY_COST ==> *final(self) == *old(self),
            old(self).coin >= ALLY_COST ==> final(self).coin == old(self).coin - ALLY_COST,
            old(self).coin >= ALLY_COST && !has_empty_cell(old(self).board.ally_grid@) ==> final(self).board == old(self).board,
            old(self).coin >= ALLY_COST && has_empty_cell(old(self).board.ally_grid@) ==> (exists|
                k: int,
                d: int,
            |
                {
                    &&& 0 <= k < GRID_CELLS
                    &&& 0 <= d < 5
                    &&& old(self).board.ally_grid@[k] is None
                    &&& final(self).board.ally_grid@ == old(self).board.ally_grid@.update(
                        k,
                        Some(purchased_ally_spec(effective_config(*old(self)), element_of(d))),
                    )
                }),
            old(self).coin >= ALLY_COST && has_empty_cell(old(self).board.ally_grid@)
                ==> occupied_count(final(self).board.ally_grid@) == occupied_count(
                old(self).board.ally_grid@,
            ) + 1,
            final(self).board.enemies == old(self).board.enemies,
            final(self).board.enemy_ready2spawn == old(self).board.enemy_ready2spawn,
            final(self).level == old(self).level,
            final(self).game_state == old(self).game_state,
            final(self).cursor == old(self).cursor,
            final(self).selected == old(self).selected,
            final(self).config == old(self).config,
    {
        if self.coin >= ALLY_COST {
            self.coin = self.coin - ALLY_COST;
            self.ally_spawn();
        }
    }

    /// One simulation tick at the fixed 1/60-second step: combat
    /// resolution, then the enemy lifecycle (spawning, damage-over-time,
    /// decay, movement, removal with bounty), then the win check. The sum
    /// of active and pending enemies never grows, every enemy left has
    /// positive hit points, and the round ends exactly when both
    /// collections are empty.
    pub fn update(&mut self)
        requires
            old(self).wf(),
        ensures
            final(self).wf(),
            final(self).board.ally_grid@.len() == GRID_CELLS,
            forall|m: int|
                0 <= m < GRID_CELLS ==> final(self).board.ally_grid@[m] == cell_after_combat(
                    old(self).board.ally_grid@[m],
                ),
            final(self).board.enemy_ready2spawn@ == pending_keep(
                old(self).board.enemy_ready2spawn@,
            ),
            enemies_view(final(self).board.enemies@) == alive_of(
                ticked(
                    combat_enemies(
                        old(self).board.ally_grid@,
                        enemies_view(old(self).board.enemies@),
                    ) + enemies_view(spawned_of(old(self).board.enemy_ready2spawn@)),
                ),
            ),
            final(self).coin as nat == credit_coin(
                old(self).coin as nat,
                dead_count(
                    ticked(
                        combat_enemies(
                            old(self).board.ally_grid@,
                            enemies_view(old(self).board.enemies@),
                        ) + enemies_view(spawned_of(old(self).board.enemy_ready2spawn@)),
                    ),
                ),
            ),
            final(self).board.enemies@.len() + final(self).board.enemy_ready2spawn@.len() <= old(self).board.enemies@.len() + old(self).board.enemy_ready2spawn@.len(),
            forall|q: int|
                0 <= q < final(self).board.enemies@.len() ==> (#[trigger] final(self).board.enemies@[q]).hp > 0,
            final(self).game_state == (if final(self).board.enemies@.len() == 0 && final(self).board.enemy_ready2spawn@.len() == 0 {
                GameState::End
            } else if old(self).game_state == GameState::Init {
                GameState::Running
            } else {
                old(self).game_state
            }),
            final(self).coin >= old(self).coin,
            final(self).level == old(self).level,
            final(self).cursor == old(self).cursor,
            final(self).selected == old(self).selected,
            final(self).config == old(self).config,
    {
        self.ally_update();
        self.enemy_update();
        if self.state_checkwin() {
            self.game_state = GameState::End;
        } else if self.game_state == GameState::Init {
            self.game_state = GameState::Running;
        }
    }

    /// The win check: the round is over exactly when no enemy is active
    /// and none is pending.
    fn state_checkwin(&self) -> (r: bool)
        ensures
            r == (self.board.enemy_ready2spawn@.len() == 0 && self.board.enemies@.len() == 0),
    {
        self.board.enemy_ready2spawn.is_empty() && self.board.enemies.is_empty()
    }
}

/// The element bought for a random draw below 5.
fn element_from_draw(k: usize) -> (r: AllyElement)
    requires
        k < 5,
    ensures
        r == element_of(k as int),
{
    if k == 0 {
        AllyElement::Basic
    } else if k == 1 {
        AllyElement::Slow
    } else if k == 2 {
        AllyElement::Aoe
    } else if k == 3 {
        AllyElement::Dot
    } else {
        AllyElement::Critical
    }
}

} // verus!
