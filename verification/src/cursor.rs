//! Cursor and selection state machine: directional movement with
//! wraparound on both axes, and a toggle that selects the ally under the
//! cursor or drops a selected ally (move, or merge) onto the cursor cell.
use crate::game::Game;
use crate::merge::merge_spec;
use crate::model::{cell_index, Direction, GRID_COLS, GRID_ROWS};
use vstd::prelude::*;

verus! {

/// Where one directional input moves the cursor: rows wrap modulo 3,
/// columns modulo 7.
pub open spec fn cursor_move_spec(c: (usize, usize), d: Direction) -> (int, int) {
    match d {
        Direction::Up => (if c.0 == 0 {
            GRID_ROWS - 1
        } else {
            c.0 - 1
        }, c.1 as int),
        Direction::Down => (if c.0 == GRID_ROWS - 1 {
            0
        } else {
            c.0 + 1
        }, c.1 as int),
        Direction::Left => (c.0 as int, if c.1 == 0 {
            GRID_COLS - 1
        } else {
            c.1 - 1
        }),
        Direction::Right => (c.0 as int, if c.1 == GRID_COLS - 1 {
            0
        } else {
            c.1 + 1
        }),
    }
}

impl Game {
    /// Moves the cursor one cell, wrapping at the grid edges; nothing else
    /// changes.
    pub fn cursor_move(&mut self, direction: Direction)
        requires
            old(self).wf(),
        ensures
            final(self).wf(),
            (final(self).cursor.0 as int, final(self).cursor.1 as int) == cursor_move_spec(
                old(self).cursor,
                direction,
            ),
            final(self).board == old(self).board,
            final(self).selected == old(self).selected,
            final(self).coin == old(self).coin,
            final(self).level == old(self).level,
            final(self).game_state == old(self).game_state,
            final(self).config == old(self).config,
    {
        match direction {
            Direction::Up => {
                if self.cursor.0 == 0 {
                    self.cursor.0 = GRID_ROWS - 1;
                } else {
                    self.cursor.0 = self.cursor.0 - 1;
                }
            },
            Direction::Down => {
                if self.cursor.0 == GRID_ROWS - 1 {
                    self.cursor.0 = 0;
                } else {
                    self.cursor.0 = self.cursor.0 + 1;
                }
            },
            Direction::Left => {
                if self.cursor.1 == 0 {
                    self.cursor.1 = GRID_COLS - 1;
                } else {
                    self.cursor.1 = self.cursor.1 - 1;
                }
            },
            Direction::Right => {
                if self.cursor.1 == GRID_COLS - 1 {
                    self.cursor.1 = 0;
                } else {
                    self.cursor.1 = self.cursor.1 + 1;
                }
            },
        }
    }

    /// Toggle input. With no selection, selects the ally under the cursor
    /// (a no-op on an empty cell); with a selection, performs the drop:
    /// dropping onto the selected cell itself changes nothing, dropping
    /// onto an empty cell moves the ally, dropping onto an occupied cell
    /// merges when the merge rules allow it and otherwise leaves everything
    /// in place with the selection kept.
    pub fn cursor_select(&mut self)
        requires
            old(self).wf(),
        ensures
            final(self).wf(),
            final(self).cursor == old(self).cursor,
            final(self).coin == old(self).coin,
            final(self).level == old(self).level,
            final(self).game_state == old(self).game_state,
            final(self).config == old(self).config,
            final(self).board.enemies == old(self).board.enemies,
            final(self).board.enemy_ready2spawn == old(self).board.enemy_ready2spawn,
            old(self).selected is None ==> {
                &&& final(self).board == old(self).board
                &&& final(self).selected == (if old(self).board.ally_grid@[cell_index(
                    old(self).cursor.0 as int,
                    old(self).cursor.1 as int,
                )] is Some {
                    Some(old(self).cursor)
                } else {
                    None::<(usize, usize)>
                })
            },
            old(self).selected == Some(old(self).cursor) ==> *final(self) == *old(self),
            drop_spec_holds(*old(self), *final(self)),
    {
        if self.selected.is_some() {
            self.cursor_drop();
            return ;
        }
        let (i, j) = self.cursor;
        if self.board.ally_grid[i * GRID_COLS + j].is_some() {
            self.selected = Some((i, j));
        } else {
            self.selected = None;
        }
    }

    /// Drop of the selected ally onto the cursor cell.
    fn cursor_drop(&mut self)
        requires
            old(self).wf(),
            old(self).selected is Some,
        ensures
            final(self).wf(),
            final(self).cursor == old(self).cursor,
            final(self).coin == old(self).coin,
            final(self).level == old(self).level,
            final(self).game_state == old(self).game_state,
            final(self).config == old(self).config,
            final(self).board.enemies == old(self).board.enemies,
            final(self).board.enemy_ready2spawn == old(self).board.enemy_ready2spawn,
            old(self).selected == Some(old(self).cursor) ==> *final(self) == *old(self),
            drop_spec_holds(*old(self), *final(self)),
    {
        if let Some((si, sj)) = self.selected {
            let (ci, cj) = self.cursor;
            if si == ci && sj == cj {
                return ;
            }
            let sel_idx = si * GRID_COLS + sj;
            let cur_idx = ci * GRID_COLS + cj;
            match self.board.ally_grid[sel_idx] {
                None => {
                    self.selected = None;
                },
                Some(ally1) => {
                    match self.board.ally_grid[cur_idx] {
                        Some(ally2) => {
                            match self.ally_merge(ally1, ally2) {
                                Some(merged) => {
                                    self.board.ally_grid.set(sel_idx, None);
                                    self.board.ally_grid.set(cur_idx, Some(merged));
                                    self.selected = None;
                                },
                                None => {},
                            }
                        },
                        None => {
                            self.board.ally_grid.set(sel_idx, None);
                            self.board.ally_grid.set(cur_idx, Some(ally1));
                            self.selected = None;
                        },
                    }
                },
            }
        }
    }
}

/// Relation between the state before and after a drop of a selection
/// `Some(sel)` with `sel != cursor` (every other toggle case is stated
/// directly on `cursor_select`): a missing source ally only clears the
/// selection; a move carries the ally to the empty cursor cell; a merge
/// replaces both inputs by the merged ally at the cursor; a refused merge
/// changes nothing and keeps the selection.
pub open spec fn drop_spec_holds(g: Game, h: Game) -> bool {
    match g.selected {
        Some(sel) => sel != g.cursor ==> {
            let sel_idx = cell_index(sel.0 as int, sel.1 as int);
            let cur_idx = cell_index(g.cursor.0 as int, g.cursor.1 as int);
            let grid = g.board.ally_grid@;
            match grid[sel_idx] {
                None => h.board == g.board && h.selected is None,
                Some(a1) => match grid[cur_idx] {
                    None => h.board.ally_grid@ == grid.update(sel_idx, None).update(
                        cur_idx,
                        Some(a1),
                    ) && h.selected is None,
                    Some(a2) => match merge_spec(a1, a2) {
                        Some(m) => h.board.ally_grid@ == grid.update(sel_idx, None).update(
                            cur_idx,
                            Some(m),
                        ) && h.selected is None,
                        None => h.board == g.board && h.selected == g.selected,
                    },
                },
            }
        },
        None => true,
    }
}

} // verus!
