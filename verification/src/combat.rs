//! Combat resolution engine. Once per tick every occupied cell's cooldown
//! drops by one tick (clamped at zero); allies whose cooldown has reached
//! zero attack in row-major cell order, then have their cooldown reset to
//! their attack period. An attack targets the nearest enemy within range
//! (ties broken in favour of the earlier index: the linear minimum scan
//! keeps the first minimal element); single-target attacks hit only that
//! enemy, area attacks hit every enemy within the area radius of the
//! target's grid position. Damage is the ally's attack power, doubled
//! (saturating) when either element is Critical; Slow and Dot elements each
//! append their debuff to the victim, primary and secondary independently.
use crate::game::Game;
use crate::model::{
    dist2, enemies_view, grid_pos_spec, Ally, AllyElement, Debuff, EnemyModel, DOT_DEBUFF_TICKS,
    DOT_DEBUFF_VALUE, GRID_CELLS, GRID_COLS, POS_SCALE, SLOW_DEBUFF_TICKS, SLOW_DEBUFF_VALUE,
};
use crate::model::Enemy;
use vstd::prelude::*;

verus! {

/// The fields of an ally that decide what its attack does. An attack never
/// depends on the cooldown bookkeeping, so two allies with equal profiles
/// attack alike.
pub ghost struct AttackProfile {
    pub atk: usize,
    pub range: usize,
    pub aoe_range: usize,
    pub element: AllyElement,
    pub second_element: Option<AllyElement>,
}

pub open spec fn attack_profile(a: Ally) -> AttackProfile {
    AttackProfile {
        atk: a.atk,
        range: a.range,
        aoe_range: a.aoe_range,
        element: a.element,
        second_element: a.second_element,
    }
}

/// Damage dealt by one hit: the attack power, doubled when either element
/// is Critical, saturating at `usize::MAX`.
pub open spec fn damage_of(p: AttackProfile) -> nat {
    if p.element == AllyElement::Critical || p.second_element == Some(AllyElement::Critical) {
        if 2 * p.atk > usize::MAX {
            usize::MAX as nat
        } else {
            (2 * p.atk) as nat
        }
    } else {
        p.atk as nat
    }
}

pub open spec fn slow_debuff() -> Debuff {
    Debuff { value: SLOW_DEBUFF_VALUE, cooldown: SLOW_DEBUFF_TICKS }
}

pub open spec fn dot_debuff() -> Debuff {
    Debuff { value: DOT_DEBUFF_VALUE, cooldown: DOT_DEBUFF_TICKS }
}

/// Slow debuffs one hit appends: one for a Slow primary, one for a Slow
/// secondary, in that order (they stack, never refresh).
pub open spec fn applied_slows(e: AllyElement, s: Option<AllyElement>) -> Seq<Debuff> {
    (if e == AllyElement::Slow {
        seq![slow_debuff()]
    } else {
        Seq::empty()
    }) + (if s == Some(AllyElement::Slow) {
        seq![slow_debuff()]
    } else {
        Seq::empty()
    })
}

/// Damage-over-time debuffs one hit appends, as for the slow list.
pub open spec fn applied_dots(e: AllyElement, s: Option<AllyElement>) -> Seq<Debuff> {
    (if e == AllyElement::Dot {
        seq![dot_debuff()]
    } else {
        Seq::empty()
    }) + (if s == Some(AllyElement::Dot) {
        seq![dot_debuff()]
    } else {
        Seq::empty()
    })
}

/// Hit points after damage: saturating subtraction, never negative.
pub open spec fn sat_sub_hp(hp: nat, dmg: nat) -> nat {
    if dmg >= hp {
        0
    } else {
        (hp - dmg) as nat
    }
}

/// The saturating subtraction law: hit points after any damage are the
/// maximum of zero and the difference, so they never go negative. Every
/// hit-point reduction in the library (hits and damage-over-time) goes
/// through `sat_sub_hp`.
pub proof fn lemma_hp_saturates(hp: nat, dmg: nat)
    ensures
        sat_sub_hp(hp, dmg) == (if hp >= dmg {
            hp - dmg
        } else {
            0
        }),
        sat_sub_hp(hp, dmg) >= 0,
        sat_sub_hp(hp, dmg) <= hp,
{
}

/// What one hit does to one enemy: saturating damage and the appended
/// debuffs; position and speed untouched.
pub open spec fn hit_model(m: EnemyModel, p: AttackProfile) -> EnemyModel {
    EnemyModel {
        hp: sat_sub_hp(m.hp, damage_of(p)),
        move_speed: m.move_speed,
        position: m.position,
        dots: m.dots + applied_dots(p.element, p.second_element),
        slows: m.slows + applied_slows(p.element, p.second_element),
    }
}

pub open spec fn sq(x: int) -> int {
    x * x
}

/// Whether an enemy's projected position is within `range` path-units of a
/// world point, by comparing squared distances.
pub open spec fn in_range_spec(apos: (int, int), m: EnemyModel, range: usize) -> bool {
    dist2(apos, grid_pos_spec(m.position as int)) <= sq(range * (POS_SCALE as int))
}

/// The target among the first `n` enemies: the nearest one in range, the
/// earlier index winning ties.
pub open spec fn nearest_upto(
    ms: Seq<EnemyModel>,
    apos: (int, int),
    range: usize,
    n: int,
) -> Option<int>
    decreases n,
{
    if n <= 0 {
        None
    } else {
        let prev = nearest_upto(ms, apos, range, n - 1);
        if in_range_spec(apos, ms[n - 1], range) {
            match prev {
                None => Some(n - 1),
                Some(p) => if dist2(apos, grid_pos_spec(ms[n - 1].position as int)) < dist2(
                    apos,
                    grid_pos_spec(ms[p].position as int),
                ) {
                    Some(n - 1)
                } else {
                    Some(p)
                },
            }
        } else {
            prev
        }
    }
}

/// The primary target of an attack from `apos` with reach `range`.
pub open spec fn nearest_enemy_spec(ms: Seq<EnemyModel>, apos: (int, int), range: usize) -> Option<
    int,
> {
    nearest_upto(ms, apos, range, ms.len() as int)
}

/// A chosen target index is a real index of an enemy in range.
pub proof fn lemma_nearest_in_bounds(ms: Seq<EnemyModel>, apos: (int, int), range: usize, n: int)
    requires
        n <= ms.len(),
        nearest_upto(ms, apos, range, n) is Some,
    ensures
        0 <= nearest_upto(ms, apos, range, n)->0 < n,
        in_range_spec(apos, ms[nearest_upto(ms, apos, range, n)->0], range),
    decreases n,
{
    if n > 0 {
        if nearest_upto(ms, apos, range, n - 1) is Some {
            lemma_nearest_in_bounds(ms, apos, range, n - 1);
        }
    }
}

/// World position of the ally in flat grid cell `k`: cell (i, j) sits at
/// (j + 1, i + 1) path-units.
pub open spec fn ally_pos_of_cell(k: int) -> (int, int) {
    ((k % (GRID_COLS as int) + 1) * (POS_SCALE as int), (k / (GRID_COLS as int) + 1) * (
    POS_SCALE as int))
}

/// A single-target attack: the nearest enemy in range takes the hit; with
/// no enemy in range nothing happens.
pub open spec fn single_attack_spec(
    p: AttackProfile,
    apos: (int, int),
    ms: Seq<EnemyModel>,
) -> Seq<EnemyModel> {
    match nearest_enemy_spec(ms, apos, p.range) {
        None => ms,
        Some(t) => ms.update(t, hit_model(ms[t], p)),
    }
}

/// An area attack: every enemy within the area radius of the nearest
/// target's grid position takes the hit (the target itself among them);
/// with no enemy in range nothing happens, whatever the radius.
pub open spec fn aoe_attack_spec(p: AttackProfile, apos: (int, int), ms: Seq<EnemyModel>) -> Seq<
    EnemyModel,
> {
    match nearest_enemy_spec(ms, apos, p.range) {
        None => ms,
        Some(t) => {
            let center = grid_pos_spec(ms[t].position as int);
            Seq::new(
                ms.len(),
                |q: int|
                    if dist2(center, grid_pos_spec(ms[q].position as int)) <= sq(
                        p.aoe_range * (POS_SCALE as int),
                    ) {
                        hit_model(ms[q], p)
                    } else {
                        ms[q]
                    },
            )
        },
    }
}

/// Hit points never go negative under combat: any attack leaves every
/// enemy's hit points either untouched or reduced by the saturating law
/// `hp' == max(0, hp - damage)`, so they only ever shrink, and never below
/// zero.
pub proof fn lemma_attack_hp_law(p: AttackProfile, apos: (int, int), ms: Seq<EnemyModel>)
    ensures
        attack_spec(p, apos, ms).len() == ms.len(),
        forall|q: int|
            0 <= q < ms.len() ==> (#[trigger] attack_spec(p, apos, ms)[q]).hp == ms[q].hp || attack_spec(
                p,
                apos,
                ms,
            )[q].hp == sat_sub_hp(ms[q].hp, damage_of(p)),
        forall|q: int| 0 <= q < ms.len() ==> (#[trigger] attack_spec(p, apos, ms)[q]).hp <= ms[q].hp,
{
    if nearest_enemy_spec(ms, apos, p.range) is Some {
        lemma_nearest_in_bounds(ms, apos, p.range, ms.len() as int);
    }
}

/// Area resolution is used when Aoe is the primary or the secondary element.
pub open spec fn is_aoe(p: AttackProfile) -> bool {
    p.element == AllyElement::Aoe || p.second_element == Some(AllyElement::Aoe)
}

/// What one ready ally's attack does to the enemies.
pub open spec fn attack_spec(p: AttackProfile, apos: (int, int), ms: Seq<EnemyModel>) -> Seq<
    EnemyModel,
> {
    if is_aoe(p) {
        aoe_attack_spec(p, apos, ms)
    } else {
        single_attack_spec(p, apos, ms)
    }
}

/// A grid cell after the cooldown pass alone.
pub open spec fn stepped_cell(c: Option<Ally>) -> Option<Ally> {
    match c {
        None => None,
        Some(a) => Some(cooldown_step(a)),
    }
}

/// One cooldown tick: a positive cooldown drops by one, zero stays zero.
pub open spec fn cooldown_step(a: Ally) -> Ally {
    Ally {
        attack_cooldown: if a.attack_cooldown > 0 {
            (a.attack_cooldown - 1) as u64
        } else {
            0
        },
        ..a
    }
}

/// Ready this tick: the cooldown reaches zero after the tick's decrement.
pub open spec fn ready_after_step(a: Ally) -> bool {
    a.attack_cooldown <= 1
}

/// A grid cell after the combat phase: the cooldown ticks down, and a
/// ready ally's cooldown is reset to its attack period.
pub open spec fn cell_after_combat(c: Option<Ally>) -> Option<Ally> {
    match c {
        None => None,
        Some(a) => Some(
            if ready_after_step(a) {
                Ally { attack_cooldown: a.atk_speed, ..a }
            } else {
                cooldown_step(a)
            },
        ),
    }
}

/// The enemies after the ready allies of the first `n` cells have attacked,
/// in ascending cell order.
pub open spec fn attacks_up_to(g: Seq<Option<Ally>>, ms: Seq<EnemyModel>, n: int) -> Seq<
    EnemyModel,
>
    decreases n,
{
    if n <= 0 {
        ms
    } else {
        let prev = attacks_up_to(g, ms, n - 1);
        match g[n - 1] {
            Some(a) => if ready_after_step(a) {
                attack_spec(attack_profile(a), ally_pos_of_cell(n - 1), prev)
            } else {
                prev
            },
            None => prev,
        }
    }
}

/// The enemies after the whole combat phase of one tick.
pub open spec fn combat_enemies(g: Seq<Option<Ally>>, ms: Seq<EnemyModel>) -> Seq<EnemyModel> {
    attacks_up_to(g, ms, g.len() as int)
}

proof fn lemma_sq_le(x: int, b: int)
    requires
        0 <= x <= b,
    ensures
        x * x <= b * b,
{
    assert(x * x <= b * b) by (nonlinear_arith)
        requires
            0 <= x <= b,
    ;
}

proof fn lemma_abs_sq(a: int, b: int, d: int)
    requires
        d == if a >= b {
            a - b
        } else {
            b - a
        },
    ensures
        (a - b) * (a - b) == d * d,
{
    assert((a - b) * (a - b) == d * d) by (nonlinear_arith)
        requires
            d == a - b || d == b - a,
    ;
}

/// Squared distance between two projected world points, exactly.
fn dist2_ex(ax: u64, ay: u64, ex: u64, ey: u64) -> (r: u64)
    requires
        ax <= 8 * POS_SCALE,
        ay <= 12 * POS_SCALE,
        ex <= 8 * POS_SCALE,
        ey <= 12 * POS_SCALE,
    ensures
        r as int == dist2((ax as int, ay as int), (ex as int, ey as int)),
        r <= 74_880_000,
{
    let dx = if ax >= ex {
        ax - ex
    } else {
        ex - ax
    };
    let dy = if ay >= ey {
        ay - ey
    } else {
        ey - ay
    };
    proof {
        lemma_abs_sq(ax as int, ex as int, dx as int);
        lemma_abs_sq(ay as int, ey as int, dy as int);
        lemma_sq_le(dx as int, 4800);
        lemma_sq_le(dy as int, 7200);
    }
    dx * dx + dy * dy
}

/// Whether the point (ex, ey) lies within `range` path-units of (ax, ay).
/// Projected coordinates never exceed 8161 subunits of distance, so every
/// range of 15 or more path-units covers the whole board and the squared
/// comparison can clamp there without changing the answer.
fn within_range(ax: u64, ay: u64, ex: u64, ey: u64, range: usize) -> (r: bool)
    requires
        ax <= 8 * POS_SCALE,
        ay <= 12 * POS_SCALE,
        ex <= 8 * POS_SCALE,
        ey <= 12 * POS_SCALE,
    ensures
        r == (dist2((ax as int, ay as int), (ex as int, ey as int)) <= sq(
            range * (POS_SCALE as int),
        )),
{
    let d2 = dist2_ex(ax, ay, ex, ey);
    if range >= 15 {
        proof {
            lemma_sq_le(9000, range * (POS_SCALE as int));
        }
        true
    } else {
        let rs: u64 = (range as u64) * POS_SCALE;
        proof {
            lemma_sq_le(rs as int, 8400);
        }
        d2 <= rs * rs
    }
}

/// Damage one hit deals: attack power, doubled (saturating) on a Critical
/// primary or secondary element.
fn damage_value(atk: usize, element: AllyElement, second: Option<AllyElement>) -> (r: usize)
    ensures
        r as nat == damage_of(
            AttackProfile { atk, range: 0, aoe_range: 0, element, second_element: second },
        ),
{
    let crit = element == AllyElement::Critical || match second {
        Some(AllyElement::Critical) => true,
        _ => false,
    };
    if crit {
        if atk > usize::MAX / 2 {
            usize::MAX
        } else {
            atk * 2
        }
    } else {
        atk
    }
}

/// Applies one hit to one enemy: debuffs appended (primary first), then
/// saturating damage.
fn apply_hit(e: &mut Enemy, dmg: usize, element: AllyElement, second: Option<AllyElement>)
    ensures
        final(e)@ == (EnemyModel {
            hp: sat_sub_hp(old(e)@.hp, dmg as nat),
            move_speed: old(e)@.move_speed,
            position: old(e)@.position,
            dots: old(e)@.dots + applied_dots(element, second),
            slows: old(e)@.slows + applied_slows(element, second),
        }),
{
    let ghost slows0 = e.slow_list@;
    let ghost dots0 = e.dot_list@;
    match element {
        AllyElement::Slow => {
            e.slow_list.push(Debuff { value: SLOW_DEBUFF_VALUE, cooldown: SLOW_DEBUFF_TICKS });
        },
        AllyElement::Dot => {
            e.dot_list.push(Debuff { value: DOT_DEBUFF_VALUE, cooldown: DOT_DEBUFF_TICKS });
        },
        _ => {},
    }
    match second {
        Some(AllyElement::Slow) => {
            e.slow_list.push(Debuff { value: SLOW_DEBUFF_VALUE, cooldown: SLOW_DEBUFF_TICKS });
        },
        Some(AllyElement::Dot) => {
            e.dot_list.push(Debuff { value: DOT_DEBUFF_VALUE, cooldown: DOT_DEBUFF_TICKS });
        },
        _ => {},
    }
    if dmg >= e.hp {
        e.hp = 0;
    } else {
        e.hp = e.hp - dmg;
    }
    proof {
        assert(e.slow_list@ =~= slows0 + applied_slows(element, second));
        assert(e.dot_list@ =~= dots0 + applied_dots(element, second));
    }
}

impl Game {
    /// The primary target: index of the nearest enemy whose projected
    /// position is within `range` of (ax, ay), the earlier index on ties.
    fn find_nearest(&self, ax: u64, ay: u64, range: usize) -> (r: Option<usize>)
        requires
            ax <= 8 * POS_SCALE,
            ay <= 12 * POS_SCALE,
        ensures
            (r is None) == (nearest_enemy_spec(
                enemies_view(self.board.enemies@),
                (ax as int, ay as int),
                range,
            ) is None),
            r matches Some(t) ==> t < self.board.enemies@.len() && nearest_enemy_spec(
                enemies_view(self.board.enemies@),
                (ax as int, ay as int),
                range,
            ) == Some(t as int),
    {
        let ghost ms = enemies_view(self.board.enemies@);
        let ghost apos = (ax as int, ay as int);
        let mut best: Option<usize> = None;
        let mut best_d2: u64 = 0;
        let n = self.board.enemies.len();
        let mut k: usize = 0;
        while k < n
            invariant
                n == self.board.enemies@.len(),
                ms == enemies_view(self.board.enemies@),
                apos == (ax as int, ay as int),
                ax <= 8 * POS_SCALE,
                ay <= 12 * POS_SCALE,
                k <= n,
                match best {
                    None => nearest_upto(ms, apos, range, k as int) is None,
                    Some(b) => b < k && nearest_upto(ms, apos, range, k as int) == Some(b as int)
                        && best_d2 as int == dist2(apos, grid_pos_spec(ms[b as int].position as int)),
                },
            decreases n - k,
        {
            let ep = self.board.enemies[k].grid_position();
            proof {
                crate::model::lemma_grid_pos_bounds(self.board.enemies@[k as int].position as int);
                assert(ms[k as int] == self.board.enemies@[k as int]@);
            }
            if within_range(ax, ay, ep.0, ep.1, range) {
                let d2 = dist2_ex(ax, ay, ep.0, ep.1);
                match best {
                    None => {
                        best = Some(k);
                        best_d2 = d2;
                    },
                    Some(_) => {
                        if d2 < best_d2 {
                            best = Some(k);
                            best_d2 = d2;
                        }
                    },
                }
            }
            k = k + 1;
        }
        best
    }

    /// Single-target resolution for the ready ally in cell `k`: the nearest
    /// enemy within range takes one hit; with none in range, nothing
    /// happens this tick.
    fn ally_damage(&mut self, k: usize)
        requires
            old(self).wf(),
            k < GRID_CELLS,
            old(self).board.ally_grid@[k as int] is Some,
        ensures
            final(self).wf(),
            enemies_view(final(self).board.enemies@) == single_attack_spec(
                attack_profile(old(self).board.ally_grid@[k as int]->0),
                ally_pos_of_cell(k as int),
                enemies_view(old(self).board.enemies@),
            ),
            final(self).board.enemies@.len() == old(self).board.enemies@.len(),
            final(self).board.ally_grid == old(self).board.ally_grid,
            final(self).board.enemy_ready2spawn == old(self).board.enemy_ready2spawn,
            final(self).coin == old(self).coin,
            final(self).level == old(self).level,
            final(self).game_state == old(self).game_state,
            final(self).cursor == old(self).cursor,
            final(self).selected == old(self).selected,
            final(self).config == old(self).config,
    {
        let ghost ms0 = enemies_view(self.board.enemies@);
        let ally = self.board.ally_grid[k].unwrap();
        let j = k % GRID_COLS;
        let i = k / GRID_COLS;
        let ax = (j as u64 + 1) * POS_SCALE;
        let ay = (i as u64 + 1) * POS_SCALE;
        match self.find_nearest(ax, ay, ally.range) {
            None => {},
            Some(t) => {
                proof {
                    lemma_nearest_in_bounds(
                        ms0,
                        (ax as int, ay as int),
                        ally.range,
                        ms0.len() as int,
                    );
                }
                let dmg = damage_value(ally.atk, ally.element, ally.second_element);
                let mut e = self.board.enemies.remove(t);
                apply_hit(&mut e, dmg, ally.element, ally.second_element);
                let ghost mid = self.board.enemies@;
                self.board.enemies.insert(t, e);
                proof {
                    assert(self.board.enemies@ =~= old(self).board.enemies@.update(t as int, e));
                    assert(e@ == hit_model(ms0[t as int], attack_profile(ally)));
                    assert(enemies_view(self.board.enemies@) =~= ms0.update(
                        t as int,
                        hit_model(ms0[t as int], attack_profile(ally)),
                    ));
                }
            },
        }
    }

    /// Area resolution for the ready ally in cell `k`: every enemy within
    /// the area radius of the nearest target's grid position takes one
    /// hit; with no enemy within range, nothing happens at all.
    fn ally_aoe_damage(&mut self, k: usize)
        requires
            old(self).wf(),
            k < GRID_CELLS,
            old(self).board.ally_grid@[k as int] is Some,
        ensures
            final(self).wf(),
            enemies_view(final(self).board.enemies@) == aoe_attack_spec(
                attack_profile(old(self).board.ally_grid@[k as int]->0),
                ally_pos_of_cell(k as int),
                enemies_view(old(self).board.enemies@),
            ),
            final(self).board.enemies@.len() == old(self).board.enemies@.len(),
            final(self).board.ally_grid == old(self).board.ally_grid,
            final(self).board.enemy_ready2spawn == old(self).board.enemy_ready2spawn,
            final(self).coin == old(self).coin,
            final(self).level == old(self).level,
            final(self).game_state == old(self).game_state,
            final(self).cursor == old(self).cursor,
            final(self).selected == old(self).selected,
            final(self).config == old(self).config,
    {
        let ghost ms0 = enemies_view(self.board.enemies@);
        let ally = self.board.ally_grid[k].unwrap();
        let ghost p = attack_profile(ally);
        let j = k % GRID_COLS;
        let i = k / GRID_COLS;
        let ax = (j as u64 + 1) * POS_SCALE;
        let ay = (i as u64 + 1) * POS_SCALE;
        match self.find_nearest(ax, ay, ally.range) {
            None => {},
            Some(t) => {
                proof {
                    lemma_nearest_in_bounds(
                        ms0,
                        (ax as int, ay as int),
                        ally.range,
                        ms0.len() as int,
                    );
                }
                let center = self.board.enemies[t].grid_position();
                proof {
                    crate::model::lemma_grid_pos_bounds(ms0[t as int].position as int);
                }
                let dmg = damage_value(ally.atk, ally.element, ally.second_element);
                let n = self.board.enemies.len();
                let mut q: usize = 0;
                while q < n
                    invariant
                        n == ms0.len(),
                        q <= n,
                        ms0 == enemies_view(old(self).board.enemies@),
                        p == attack_profile(old(self).board.ally_grid@[k as int]->0),
                        self.board.enemies@.len() == n,
                        (center.0 as int, center.1 as int) == grid_pos_spec(
                            ms0[t as int].position as int,
                        ),
                        center.0 <= 8 * POS_SCALE,
                        center.1 <= 12 * POS_SCALE,
                        dmg as nat == damage_of(p),
                        p.element == ally.element,
                        p.second_element == ally.second_element,
                        p.aoe_range == ally.aoe_range,
                        forall|m: int|
                            q <= m < n ==> #[trigger] self.board.enemies@[m] == old(
                                self,
                            ).board.enemies@[m],
                        forall|m: int|
                            0 <= m < q ==> (#[trigger] self.board.enemies@[m])@ == (if dist2(
                                (center.0 as int, center.1 as int),
                                grid_pos_spec(ms0[m].position as int),
                            ) <= sq(p.aoe_range * (POS_SCALE as int)) {
                                hit_model(ms0[m], p)
                            } else {
                                ms0[m]
                            }),
                        self.board.ally_grid == old(self).board.ally_grid,
                        self.board.enemy_ready2spawn == old(self).board.enemy_ready2spawn,
                        self.coin == old(self).coin,
                        self.level == old(self).level,
                        self.game_state == old(self).game_state,
                        self.cursor == old(self).cursor,
                        self.selected == old(self).selected,
                        self.config == old(self).config,
                    decreases n - q,
                {
                    proof {
                        assert(ms0[q as int] == old(self).board.enemies@[q as int]@);
                        crate::model::lemma_grid_pos_bounds(ms0[q as int].position as int);
                    }
                    let ep = self.board.enemies[q].grid_position();
                    if within_range(center.0, center.1, ep.0, ep.1, ally.aoe_range) {
                        let ghost pre = self.board.enemies@;
                        let mut e = self.board.enemies.remove(q);
                        apply_hit(&mut e, dmg, ally.element, ally.second_element);
                        self.board.enemies.insert(q, e);
                        proof {
                            assert(self.board.enemies@ =~= pre.update(q as int, e));
                            assert(e@ == hit_model(ms0[q as int], p));
                        }
                    }
                    q = q + 1;
                }
                proof {
                    assert(enemies_view(self.board.enemies@) =~= aoe_attack_spec(p, (
                        ax as int,
                        ay as int,
                    ), ms0));
                }
            },
        }
    }

    /// Dispatch for one ready ally: area resolution when Aoe is among its
    /// elements, single-target resolution otherwise.
    fn ally_attack(&mut self, k: usize)
        requires
            old(self).wf(),
            k < GRID_CELLS,
            old(self).board.ally_grid@[k as int] is Some,
        ensures
            final(self).wf(),
            enemies_view(final(self).board.enemies@) == attack_spec(
                attack_profile(old(self).board.ally_grid@[k as int]->0),
                ally_pos_of_cell(k as int),
                enemies_view(old(self).board.enemies@),
            ),
            final(self).board.enemies@.len() == old(self).board.enemies@.len(),
            final(self).board.ally_grid == old(self).board.ally_grid,
            final(self).board.enemy_ready2spawn == old(self).board.enemy_ready2spawn,
            final(self).coin == old(self).coin,
            final(self).level == old(self).level,
            final(self).game_state == old(self).game_state,
            final(self).cursor == old(self).cursor,
            final(self).selected == old(self).selected,
            final(self).config == old(self).config,
    {
        let ally = self.board.ally_grid[k].unwrap();
        let second_aoe = match ally.second_element {
            Some(AllyElement::Aoe) => true,
            _ => false,
        };
        if ally.element == AllyElement::Aoe || second_aoe {
            self.ally_aoe_damage(k);
        } else {
            self.ally_damage(k);
        }
    }

    /// The combat phase of one tick: every occupied cell's cooldown drops
    /// one tick, then each ready ally attacks in row-major order and has
    /// its cooldown reset to its attack period.
    pub(crate) fn ally_update(&mut self)
        requires
            old(self).wf(),
        ensures
            final(self).wf(),
            final(self).board.ally_grid@.len() == GRID_CELLS,
            forall|m: int|
                0 <= m < GRID_CELLS ==> final(self).board.ally_grid@[m] == cell_after_combat(
                    old(self).board.ally_grid@[m],
                ),
            enemies_view(final(self).board.enemies@) == combat_enemies(
                old(self).board.ally_grid@,
                enemies_view(old(self).board.enemies@),
            ),
            final(self).board.enemies@.len() == old(self).board.enemies@.len(),
            final(self).board.enemy_ready2spawn == old(self).board.enemy_ready2spawn,
            final(self).coin == old(self).coin,
            final(self).level == old(self).level,
            final(self).game_state == old(self).game_state,
            final(self).cursor == old(self).cursor,
            final(self).selected == old(self).selected,
            final(self).config == old(self).config,
    {
        let ghost g0 = self.board.ally_grid@;
        let ghost ms0 = enemies_view(self.board.enemies@);
        let mut k: usize = 0;
        while k < GRID_CELLS
            invariant
                k <= GRID_CELLS,
                self.wf(),
                self.board.ally_grid@.len() == GRID_CELLS,
                g0.len() == GRID_CELLS,
                g0 == old(self).board.ally_grid@,
                forall|m: int| 0 <= m < k ==> self.board.ally_grid@[m] == stepped_cell(g0[m]),
                forall|m: int|
                    k <= m < GRID_CELLS ==> self.board.ally_grid@[m] == g0[m],
                self.board.enemies == old(self).board.enemies,
                self.board.enemy_ready2spawn == old(self).board.enemy_ready2spawn,
                self.coin == old(self).coin,
                self.level == old(self).level,
                self.game_state == old(self).game_state,
                self.cursor == old(self).cursor,
                self.selected == old(self).selected,
                self.config == old(self).config,
            decreases GRID_CELLS - k,
        {
            match self.board.ally_grid[k] {
                Some(a) => {
                    let cd = if a.attack_cooldown > 0 {
                        a.attack_cooldown - 1
                    } else {
                        0
                    };
                    self.board.ally_grid.set(k, Some(Ally { attack_cooldown: cd, ..a }));
                },
                None => {},
            }
            k = k + 1;
        }
        let mut k: usize = 0;
        while k < GRID_CELLS
            invariant
                k <= GRID_CELLS,
                self.wf(),
                self.board.ally_grid@.len() == GRID_CELLS,
                g0.len() == GRID_CELLS,
                g0 == old(self).board.ally_grid@,
                ms0 == enemies_view(old(self).board.enemies@),
                forall|m: int|
                    0 <= m < k ==> self.board.ally_grid@[m] == cell_after_combat(g0[m]),
                forall|m: int|
                    k <= m < GRID_CELLS ==> self.board.ally_grid@[m] == stepped_cell(g0[m]),
                enemies_view(self.board.enemies@) == attacks_up_to(g0, ms0, k as int),
                self.board.enemies@.len() == ms0.len(),
                self.board.enemy_ready2spawn == old(self).board.enemy_ready2spawn,
                self.coin == old(self).coin,
                self.level == old(self).level,
                self.game_state == old(self).game_state,
                self.cursor == old(self).cursor,
                self.selected == old(self).selected,
                self.config == old(self).config,
            decreases GRID_CELLS - k,
        {
            match self.board.ally_grid[k] {
                Some(a) => {
                    if a.attack_cooldown == 0 {
                        proof {
                            let a0 = g0[k as int]->0;
                            assert(a == cooldown_step(a0));
                            assert(ready_after_step(a0));
                            assert(attack_profile(a) == attack_profile(a0));
                        }
                        self.ally_attack(k);
                        self.board.ally_grid.set(
                            k,
                            Some(Ally { attack_cooldown: a.atk_speed, ..a }),
                        );
                    }
                },
                None => {},
            }
            k = k + 1;
        }
    }
}

} // verus!
