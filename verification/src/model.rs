//! Entity and board model for the tower-defense core.
//!
//! All quantities are integers:
//! - time is counted in ticks of 1/60 second (`TICKS_PER_SECOND` per second);
//! - path positions and world coordinates are counted in subunits of
//!   1/600 path-unit (`POS_SCALE` subunits per path-unit), so the 24-unit
//!   perimeter loop is `PERIMETER` subunits long and a grid cell is one
//!   path-unit wide;
//! - enemy movement speed is counted in subunits per second;
//! - the level-up ratio and the special-effect magnitude are counted in
//!   hundredths (`RATIO_SCALE` hundredths are 1.0).
use vstd::prelude::*;

verus! {

pub const GRID_ROWS: usize = 3;

pub const GRID_COLS: usize = 7;

pub const GRID_CELLS: usize = 21;

/// Subunits per path-unit (and per grid cell side).
pub const POS_SCALE: u64 = 600;

/// Length of the perimeter loop in subunits: 24 path-units.
pub const PERIMETER: u64 = 14400;

pub const TICKS_PER_SECOND: u64 = 60;

/// Hundredths scale for `levelup_ratio` and `special_value`.
pub const RATIO_SCALE: u64 = 100;

/// Magnitude of one slow debuff stack.
pub const SLOW_DEBUFF_VALUE: usize = 1;

/// Duration of one slow debuff: 1 second.
pub const SLOW_DEBUFF_TICKS: u64 = 60;

/// Magnitude of one damage-over-time debuff stack.
pub const DOT_DEBUFF_VALUE: usize = 2;

/// Duration of one damage-over-time debuff: 2 seconds.
pub const DOT_DEBUFF_TICKS: u64 = 120;

/// Coins credited for each enemy removed at zero hit points.
pub const ENEMY_KILL_REWARD: usize = 10;

/// Coin cost of one ally purchase.
pub const ALLY_COST: usize = 10;

/// Enemies enqueued by one game initialization.
pub const SPAWN_BATCH: usize = 10;

/// Largest spawn delay, in ticks, that initialization may draw.
pub const SPAWN_DELAY_MAX: usize = 100;

pub const ENEMY_BASE_HP: usize = 100;

/// Baseline enemy speed: 1 path-unit per second, in subunits per second.
pub const ENEMY_BASE_SPEED: u64 = 600;

#[derive(Clone, Copy, Debug, PartialEq, Eq, Structural)]
pub enum GameState {
    Init,
    Running,
    Pause,
    End,
}

#[derive(Clone, Copy, Debug, PartialEq, Eq, Structural)]
pub enum AllyElement {
    Basic,
    Slow,
    Aoe,
    Dot,
    Critical,
}

#[derive(Clone, Copy, Debug)]
pub enum Direction {
    Up,
    Down,
    Left,
    Right,
}

/// A timed magnitude effect attached to an enemy; `cooldown` is the
/// remaining duration in ticks.
#[derive(Clone, Copy, Debug, PartialEq, Eq, Structural)]
pub struct Debuff {
    pub value: usize,
    pub cooldown: u64,
}

/// A placed unit. `atk_speed` is the attack period in ticks (the value the
/// cooldown is reset to after an attack), `attack_cooldown` the remaining
/// ticks until the next attack.
#[derive(Clone, Copy, Debug)]
pub struct Ally {
    pub element: AllyElement,
    pub second_element: Option<AllyElement>,
    pub atk: usize,
    pub range: usize,
    pub aoe_range: usize,
    pub level: usize,
    pub atk_speed: u64,
    pub attack_cooldown: u64,
    pub levelup_ratio: u64,
    pub special_value: u64,
}

/// An enemy on the perimeter path. `position` is in subunits, kept in
/// `[0, PERIMETER)`; `move_speed` is in subunits per second.
#[derive(Clone, Debug)]
pub struct Enemy {
    pub hp: usize,
    pub move_speed: u64,
    pub position: u64,
    pub dot_list: Vec<Debuff>,
    pub slow_list: Vec<Debuff>,
}

/// The 3x7 ally grid (row-major: cell (i, j) is at index `i * GRID_COLS + j`),
/// the active enemies, and the pending enemies with their spawn countdowns
/// in ticks.
#[derive(Clone, Debug)]
pub struct Board {
    pub ally_grid: Vec<Option<Ally>>,
    pub enemies: Vec<Enemy>,
    pub enemy_ready2spawn: Vec<(Enemy, usize)>,
}

/// Total order on elements used to canonicalize hybrid pairs:
/// Basic < Slow < Aoe < Dot < Critical.
pub open spec fn elem_rank(e: AllyElement) -> int {
    match e {
        AllyElement::Basic => 0,
        AllyElement::Slow => 1,
        AllyElement::Aoe => 2,
        AllyElement::Dot => 3,
        AllyElement::Critical => 4,
    }
}

impl AllyElement {
    /// Position of the element in the fixed order Basic < Slow < Aoe < Dot < Critical.
    pub fn rank(self) -> (r: u8)
        ensures
            r as int == elem_rank(self),
    {
        match self {
            AllyElement::Basic => 0,
            AllyElement::Slow => 1,
            AllyElement::Aoe => 2,
            AllyElement::Dot => 3,
            AllyElement::Critical => 4,
        }
    }
}

impl Ally {
    /// A hybrid ally's element pair is stored in ascending element order,
    /// so the pair names the merge that formed it unambiguously.
    pub open spec fn wf(self) -> bool {
        match self.second_element {
            Some(s) => elem_rank(self.element) < elem_rank(s),
            None => true,
        }
    }
}

impl Enemy {
    pub open spec fn wf(self) -> bool {
        self.position < PERIMETER
    }
}

/// The display name an ally carries for its element pair (hybrid pairs in
/// canonical ascending order; any other pair falls back to the empty name,
/// which no well-formed ally reaches).
pub open spec fn ally_name_spec(e: AllyElement, s: Option<AllyElement>) -> Seq<char> {
    match (e, s) {
        (AllyElement::Basic, None) => "Tung Tung Tung Sahur"@,
        (AllyElement::Slow, None) => "Tralalero Tralala"@,
        (AllyElement::Aoe, None) => "Bombardiro Crocodilo"@,
        (AllyElement::Dot, None) => "Lirili Larila"@,
        (AllyElement::Critical, None) => "Capuccino Assassino"@,
        (AllyElement::Basic, Some(AllyElement::Slow)) => "Tralatung Sahurrissimo"@,
        (AllyElement::Basic, Some(AllyElement::Aoe)) => "Bombatung Croco Sahurrissimo"@,
        (AllyElement::Basic, Some(AllyElement::Dot)) => "Liritung Sahurilla"@,
        (AllyElement::Basic, Some(AllyElement::Critical)) => "Caputung Sahurricinissimo"@,
        (AllyElement::Slow, Some(AllyElement::Aoe)) => "Tralalero Bombocodilo Bombo"@,
        (AllyElement::Slow, Some(AllyElement::Dot)) => "Tralili Larilalero Lala"@,
        (AllyElement::Slow, Some(AllyElement::Critical)) => "Tralacino Tralassino Cino"@,
        (AllyElement::Aoe, Some(AllyElement::Dot)) => "Bombilì Larilocodilo Lari"@,
        (AllyElement::Aoe, Some(AllyElement::Critical)) => "Bombacino Crocossino Assa"@,
        (AllyElement::Dot, Some(AllyElement::Critical)) => "Liricino Assalila Cappu"@,
        _ => ""@,
    }
}

/// The avatar asset path for an ally's element pair, with the same
/// fallback as the name.
pub open spec fn avatar_path_spec(e: AllyElement, s: Option<AllyElement>) -> Seq<char> {
    match (e, s) {
        (AllyElement::Basic, None) => "assets/avatars/basic.png"@,
        (AllyElement::Slow, None) => "assets/avatars/slow.png"@,
        (AllyElement::Aoe, None) => "assets/avatars/aoe.png"@,
        (AllyElement::Dot, None) => "assets/avatars/dot.png"@,
        (AllyElement::Critical, None) => "assets/avatars/critical.png"@,
        (AllyElement::Basic, Some(AllyElement::Slow)) => "assets/avatars/basic_slow.png"@,
        (AllyElement::Basic, Some(AllyElement::Aoe)) => "assets/avatars/basic_aoe.png"@,
        (AllyElement::Basic, Some(AllyElement::Dot)) => "assets/avatars/basic_dot.png"@,
        (AllyElement::Basic, Some(AllyElement::Critical)) => "assets/avatars/basic_critical.png"@,
        (AllyElement::Slow, Some(AllyElement::Aoe)) => "assets/avatars/slow_aoe.png"@,
        (AllyElement::Slow, Some(AllyElement::Dot)) => "assets/avatars/slow_dot.png"@,
        (AllyElement::Slow, Some(AllyElement::Critical)) => "assets/avatars/slow_critical.png"@,
        (AllyElement::Aoe, Some(AllyElement::Dot)) => "assets/avatars/aoe_dot.png"@,
        (AllyElement::Aoe, Some(AllyElement::Critical)) => "assets/avatars/aoe_critical.png"@,
        (AllyElement::Dot, Some(AllyElement::Critical)) => "assets/avatars/dot_critical.png"@,
        _ => ""@,
    }
}

impl Ally {
    /// The ally's display name, decided by its element pair. A
    /// non-canonical pair is a caller bug: the precondition rejects it, so
    /// every caller must show the pair well-formed.
    pub fn name(&self) -> (r: &'static str)
        requires
            self.wf(),
        ensures
            r@ == ally_name_spec(self.element, self.second_element),
    {
        match (self.element, self.second_element) {
            (AllyElement::Basic, None) => "Tung Tung Tung Sahur",
            (AllyElement::Slow, None) => "Tralalero Tralala",
            (AllyElement::Aoe, None) => "Bombardiro Crocodilo",
            (AllyElement::Dot, None) => "Lirili Larila",
            (AllyElement::Critical, None) => "Capuccino Assassino",
            (AllyElement::Basic, Some(AllyElement::Slow)) => "Tralatung Sahurrissimo",
            (AllyElement::Basic, Some(AllyElement::Aoe)) => "Bombatung Croco Sahurrissimo",
            (AllyElement::Basic, Some(AllyElement::Dot)) => "Liritung Sahurilla",
            (AllyElement::Basic, Some(AllyElement::Critical)) => "Caputung Sahurricinissimo",
            (AllyElement::Slow, Some(AllyElement::Aoe)) => "Tralalero Bombocodilo Bombo",
            (AllyElement::Slow, Some(AllyElement::Dot)) => "Tralili Larilalero Lala",
            (AllyElement::Slow, Some(AllyElement::Critical)) => "Tralacino Tralassino Cino",
            (AllyElement::Aoe, Some(AllyElement::Dot)) => "Bombilì Larilocodilo Lari",
            (AllyElement::Aoe, Some(AllyElement::Critical)) => "Bombacino Crocossino Assa",
            (AllyElement::Dot, Some(AllyElement::Critical)) => "Liricino Assalila Cappu",
            _ => "",
        }
    }

    /// The ally's avatar asset path, decided by its element pair; as for
    /// the name, a non-canonical pair is rejected by the precondition.
    pub fn avatar_path(&self) -> (r: &'static str)
        requires
            self.wf(),
        ensures
            r@ == avatar_path_spec(self.element, self.second_element),
    {
        match (self.element, self.second_element) {
            (AllyElement::Basic, None) => "assets/avatars/basic.png",
            (AllyElement::Slow, None) => "assets/avatars/slow.png",
            (AllyElement::Aoe, None) => "assets/avatars/aoe.png",
            (AllyElement::Dot, None) => "assets/avatars/dot.png",
            (AllyElement::Critical, None) => "assets/avatars/critical.png",
            (AllyElement::Basic, Some(AllyElement::Slow)) => "assets/avatars/basic_slow.png",
            (AllyElement::Basic, Some(AllyElement::Aoe)) => "assets/avatars/basic_aoe.png",
            (AllyElement::Basic, Some(AllyElement::Dot)) => "assets/avatars/basic_dot.png",
            (AllyElement::Basic, Some(AllyElement::Critical)) => "assets/avatars/basic_critical.png",
            (AllyElement::Slow, Some(AllyElement::Aoe)) => "assets/avatars/slow_aoe.png",
            (AllyElement::Slow, Some(AllyElement::Dot)) => "assets/avatars/slow_dot.png",
            (AllyElement::Slow, Some(AllyElement::Critical)) => "assets/avatars/slow_critical.png",
            (AllyElement::Aoe, Some(AllyElement::Dot)) => "assets/avatars/aoe_dot.png",
            (AllyElement::Aoe, Some(AllyElement::Critical)) => "assets/avatars/aoe_critical.png",
            (AllyElement::Dot, Some(AllyElement::Critical)) => "assets/avatars/dot_critical.png",
            _ => "",
        }
    }
}

pub open spec fn cell_index(i: int, j: int) -> int {
    i * GRID_COLS + j
}

pub open spec fn grid_wf(g: Seq<Option<Ally>>) -> bool {
    &&& g.len() == GRID_CELLS
    &&& forall|k: int|
        0 <= k < g.len() ==> (#[trigger] g[k] matches Some(a) ==> a.wf())
}

impl Board {
    pub open spec fn wf(self) -> bool {
        &&& grid_wf(self.ally_grid@)
        &&& forall|k: int| 0 <= k < self.enemies@.len() ==> (#[trigger] self.enemies@[k]).wf()
        &&& forall|k: int|
            0 <= k < self.enemy_ready2spawn@.len() ==> (
            #[trigger] self.enemy_ready2spawn@[k]).0.wf()
    }

    /// Contents of grid cell (i, j).
    pub fn cell(&self, i: usize, j: usize) -> (r: Option<Ally>)
        requires
            i < GRID_ROWS,
            j < GRID_COLS,
            self.ally_grid@.len() == GRID_CELLS,
        ensures
            r == self.ally_grid@[cell_index(i as int, j as int)],
    {
        self.ally_grid[i * GRID_COLS + j]
    }
}

/// Number of occupied cells in a grid prefix-by-prefix.
pub open spec fn occupied_count(g: Seq<Option<Ally>>) -> nat
    decreases g.len(),
{
    if g.len() == 0 {
        0
    } else {
        occupied_count(g.drop_last()) + if g.last() is Some {
            1nat
        } else {
            0nat
        }
    }
}

/// The mathematical view of an enemy: plain numbers and sequences, so that
/// contracts can build and compare enemy states.
pub ghost struct EnemyModel {
    pub hp: nat,
    pub move_speed: nat,
    pub position: nat,
    pub dots: Seq<Debuff>,
    pub slows: Seq<Debuff>,
}

impl View for Enemy {
    type V = EnemyModel;

    open spec fn view(&self) -> EnemyModel {
        EnemyModel {
            hp: self.hp as nat,
            move_speed: self.move_speed as nat,
            position: self.position as nat,
            dots: self.dot_list@,
            slows: self.slow_list@,
        }
    }
}

/// The views of a sequence of enemies, index by index.
pub open spec fn enemies_view(es: Seq<Enemy>) -> Seq<EnemyModel> {
    Seq::new(es.len(), |i: int| es[i]@)
}

/// Filling one empty cell raises the occupied count by exactly one.
pub proof fn lemma_occupied_fill(g: Seq<Option<Ally>>, k: int, a: Ally)
    requires
        0 <= k < g.len(),
        g[k] is None,
    ensures
        occupied_count(g.update(k, Some(a))) == occupied_count(g) + 1,
    decreases g.len(),
{
    let g2 = g.update(k, Some(a));
    if k == g.len() - 1 {
        assert(g2.drop_last() =~= g.drop_last());
    } else {
        assert(g2.drop_last() =~= g.drop_last().update(k, Some(a)));
        lemma_occupied_fill(g.drop_last(), k, a);
        assert(g2.last() == g.last());
    }
}

/// Projection of a path position (in subunits) onto the world grid:
/// top edge, then right, bottom and left; anything outside the perimeter
/// falls back to the origin.
pub open spec fn grid_pos_spec(pos: int) -> (int, int) {
    if pos < 0 {
        (0, 0)
    } else if pos < 8 * POS_SCALE {
        (pos, 0)
    } else if pos < 12 * POS_SCALE {
        (8 * POS_SCALE as int, pos - 8 * POS_SCALE)
    } else if pos < 20 * POS_SCALE {
        (pos - 12 * POS_SCALE, 12 * POS_SCALE as int)
    } else if pos < 24 * POS_SCALE {
        (0, pos - 20 * POS_SCALE)
    } else {
        (0, 0)
    }
}

/// Both projected coordinates lie on the bounded world rectangle.
pub proof fn lemma_grid_pos_bounds(pos: int)
    ensures
        0 <= grid_pos_spec(pos).0 <= 8 * POS_SCALE,
        0 <= grid_pos_spec(pos).1 <= 12 * POS_SCALE,
{
}

/// Squared Euclidean distance between two world points, in subunits squared.
pub open spec fn dist2(a: (int, int), b: (int, int)) -> int {
    (a.0 - b.0) * (a.0 - b.0) + (a.1 - b.1) * (a.1 - b.1)
}

/// World coordinate of the ally in grid cell (i, j): (j + 1, i + 1)
/// path-units, in subunits.
pub open spec fn ally_world_pos(i: int, j: int) -> (int, int) {
    ((j + 1) * POS_SCALE, (i + 1) * POS_SCALE)
}

impl Enemy {
    /// Projects the enemy's path position onto the world grid.
    pub fn grid_position(&self) -> (r: (u64, u64))
        ensures
            (r.0 as int, r.1 as int) == grid_pos_spec(self.position as int),
    {
        if self.position < 8 * POS_SCALE {
            (self.position, 0)
        } else if self.position < 12 * POS_SCALE {
            (8 * POS_SCALE, self.position - 8 * POS_SCALE)
        } else if self.position < 20 * POS_SCALE {
            (self.position - 12 * POS_SCALE, 12 * POS_SCALE)
        } else if self.position < 24 * POS_SCALE {
            (0, self.position - 20 * POS_SCALE)
        } else {
            (0, 0)
        }
    }
}

} // verus!
