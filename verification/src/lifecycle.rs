//! Enemy lifecycle and movement, run once per tick after combat:
//! 1. every pending spawn countdown drops by one tick (clamped at zero) and
//!    the entries that reach zero join the active enemies, in index order;
//! 2. every active enemy takes the sum of its active damage-over-time
//!    magnitudes as one saturating hit, its debuff durations drop one tick
//!    and spent debuffs are discarded;
//! 3. each enemy advances by `move_speed` halved once per active slow
//!    stack, scaled to one tick, wrapping around the perimeter;
//! 4. enemies at exactly zero hit points are removed, each crediting the
//!    coin balance (saturating).
use crate::combat::sat_sub_hp;
use crate::game::Game;
use crate::model::{
    enemies_view, Debuff, Enemy, EnemyModel, PERIMETER, TICKS_PER_SECOND,
};
use vstd::prelude::*;

verus! {

/// The pending entries still counting down after one tick: those with more
/// than one tick left, each one tick shorter.
pub open spec fn pending_keep(p: Seq<(Enemy, usize)>) -> Seq<(Enemy, usize)>
    decreases p.len(),
{
    if p.len() == 0 {
        Seq::empty()
    } else {
        pending_keep(p.drop_last()) + (if p.last().1 > 1 {
            seq![(p.last().0, (p.last().1 - 1) as usize)]
        } else {
            Seq::empty()
        })
    }
}

/// The enemies whose countdown reaches zero this tick, in index order.
pub open spec fn spawned_of(p: Seq<(Enemy, usize)>) -> Seq<Enemy>
    decreases p.len(),
{
    if p.len() == 0 {
        Seq::empty()
    } else {
        spawned_of(p.drop_last()) + (if p.last().1 <= 1 {
            seq![p.last().0]
        } else {
            Seq::empty()
        })
    }
}

/// Every pending entry either spawns or stays.
pub proof fn lemma_pending_partition(p: Seq<(Enemy, usize)>)
    ensures
        pending_keep(p).len() + spawned_of(p).len() == p.len(),
    decreases p.len(),
{
    if p.len() > 0 {
        lemma_pending_partition(p.drop_last());
    }
}

/// A debuff list after one tick: the entries with more than one tick left,
/// each one tick shorter, in order.
pub open spec fn step_debuffs(ds: Seq<Debuff>) -> Seq<Debuff>
    decreases ds.len(),
{
    if ds.len() == 0 {
        Seq::empty()
    } else {
        step_debuffs(ds.drop_last()) + (if ds.last().cooldown > 1 {
            seq![Debuff { value: ds.last().value, cooldown: (ds.last().cooldown - 1) as u64 }]
        } else {
            Seq::empty()
        })
    }
}

pub open spec fn sat_add_usize(a: nat, b: nat) -> nat {
    if a + b > usize::MAX {
        usize::MAX as nat
    } else {
        a + b
    }
}

/// Sum of the magnitudes of the debuffs still active (positive remaining
/// duration), saturating at `usize::MAX`.
pub open spec fn active_sum(ds: Seq<Debuff>) -> nat
    decreases ds.len(),
{
    if ds.len() == 0 {
        0
    } else {
        sat_add_usize(
            active_sum(ds.drop_last()),
            if ds.last().cooldown > 0 {
                ds.last().value as nat
            } else {
                0
            },
        )
    }
}

/// `x` halved `k` times, truncating: the integer form of scaling by 0.5 to
/// the `k`-th power.
pub open spec fn half_k(x: nat, k: nat) -> nat
    decreases k,
{
    if k == 0 {
        x
    } else {
        half_k(x, (k - 1) as nat) / 2
    }
}

pub proof fn lemma_half_k_le(x: nat, k: nat)
    ensures
        half_k(x, k) <= x,
    decreases k,
{
    if k > 0 {
        lemma_half_k_le(x, (k - 1) as nat);
    }
}

pub proof fn lemma_half_k_zero(x: nat, i: nat, j: nat)
    requires
        i <= j,
        half_k(x, i) == 0,
    ensures
        half_k(x, j) == 0,
    decreases j,
{
    if j > i {
        lemma_half_k_zero(x, i, (j - 1) as nat);
    }
}

/// How far an enemy moves in one tick, in subunits: its speed scaled to
/// one tick, halved once per active slow stack.
pub open spec fn advance_of(speed: nat, stacks: nat) -> nat {
    half_k(speed / (TICKS_PER_SECOND as nat), stacks)
}

/// One lifecycle tick of one enemy: damage-over-time applied (saturating
/// at zero), both debuff lists stepped, and the position advanced under
/// the slow factor, wrapping around the perimeter.
pub open spec fn tick_enemy_model(m: EnemyModel) -> EnemyModel {
    EnemyModel {
        hp: sat_sub_hp(m.hp, active_sum(m.dots)),
        move_speed: m.move_speed,
        position: (m.position + advance_of(m.move_speed, active_sum(m.slows))) % (
        PERIMETER as nat),
        dots: step_debuffs(m.dots),
        slows: step_debuffs(m.slows),
    }
}

pub open spec fn ticked(ms: Seq<EnemyModel>) -> Seq<EnemyModel> {
    Seq::new(ms.len(), |i: int| tick_enemy_model(ms[i]))
}

/// Hit points never go negative under damage-over-time either: one
/// lifecycle tick reduces them by exactly the saturating law
/// `hp' == max(0, hp - active damage)`.
pub proof fn lemma_tick_hp_law(m: EnemyModel)
    ensures
        tick_enemy_model(m).hp == sat_sub_hp(m.hp, active_sum(m.dots)),
        tick_enemy_model(m).hp <= m.hp,
{
}

/// The enemies that survive the tick, in order.
pub open spec fn alive_of(ms: Seq<EnemyModel>) -> Seq<EnemyModel>
    decreases ms.len(),
{
    if ms.len() == 0 {
        Seq::empty()
    } else {
        alive_of(ms.drop_last()) + (if ms.last().hp > 0 {
            seq![ms.last()]
        } else {
            Seq::empty()
        })
    }
}

pub open spec fn dead_count(ms: Seq<EnemyModel>) -> nat
    decreases ms.len(),
{
    if ms.len() == 0 {
        0
    } else {
        dead_count(ms.drop_last()) + if ms.last().hp == 0 {
            1nat
        } else {
            0nat
        }
    }
}

/// Every enemy either survives or is counted dead.
pub proof fn lemma_alive_partition(ms: Seq<EnemyModel>)
    ensures
        alive_of(ms).len() + dead_count(ms) == ms.len(),
    decreases ms.len(),
{
    if ms.len() > 0 {
        lemma_alive_partition(ms.drop_last());
    }
}

/// Every survivor has strictly positive hit points.
pub proof fn lemma_alive_positive(ms: Seq<EnemyModel>)
    ensures
        forall|q: int| 0 <= q < alive_of(ms).len() ==> (#[trigger] alive_of(ms)[q]).hp > 0,
    decreases ms.len(),
{
    if ms.len() > 0 {
        lemma_alive_positive(ms.drop_last());
        let prev = alive_of(ms.drop_last());
        assert forall|q: int| 0 <= q < alive_of(ms).len() implies (#[trigger] alive_of(
            ms,
        )[q]).hp > 0 by {
            if q < prev.len() {
                assert(alive_of(ms)[q] == prev[q]);
            } else {
                assert(alive_of(ms)[q] == ms.last());
            }
        }
    }
}

/// The survivors of a sequence of enemies, in order.
pub open spec fn alive_enemies(es: Seq<Enemy>) -> Seq<Enemy>
    decreases es.len(),
{
    if es.len() == 0 {
        Seq::empty()
    } else {
        alive_enemies(es.drop_last()) + (if es.last().hp > 0 {
            seq![es.last()]
        } else {
            Seq::empty()
        })
    }
}

pub open spec fn dead_count_enemies(es: Seq<Enemy>) -> nat
    decreases es.len(),
{
    if es.len() == 0 {
        0
    } else {
        dead_count_enemies(es.drop_last()) + if es.last().hp == 0 {
            1nat
        } else {
            0nat
        }
    }
}

/// Filtering the enemies and filtering their views agree.
pub proof fn lemma_alive_enemies_view(es: Seq<Enemy>)
    ensures
        enemies_view(alive_enemies(es)) == alive_of(enemies_view(es)),
        dead_count_enemies(es) == dead_count(enemies_view(es)),
    decreases es.len(),
{
    if es.len() > 0 {
        lemma_alive_enemies_view(es.drop_last());
        assert(enemies_view(es).drop_last() =~= enemies_view(es.drop_last()));
        assert(enemies_view(es).last() == es.last()@);
        if es.last().hp > 0 {
            assert(enemies_view(alive_enemies(es)) =~= enemies_view(alive_enemies(es.drop_last()))
                + seq![es.last()@]);
            assert(alive_of(enemies_view(es)) =~= alive_of(enemies_view(es.drop_last())) + seq![
                es.last()@,
            ]);
        } else {
            assert(enemies_view(alive_enemies(es)) =~= enemies_view(
                alive_enemies(es.drop_last()),
            ));
        }
    } else {
        assert(enemies_view(es) =~= Seq::<EnemyModel>::empty());
        assert(enemies_view(alive_enemies(es)) =~= Seq::<EnemyModel>::empty());
    }
}

/// The coin balance after crediting the bounty for the removed enemies,
/// saturating at `usize::MAX`.
pub open spec fn credit_coin(coin: nat, dead: nat) -> nat {
    if coin + 10 * dead > usize::MAX {
        usize::MAX as nat
    } else {
        coin + 10 * dead
    }
}

/// Steps a debuff list one tick and returns the saturating sum of the
/// magnitudes that were active.
fn step_debuff_list(list: &mut Vec<Debuff>) -> (sum: usize)
    ensures
        final(list)@ == step_debuffs(old(list)@),
        sum as nat == active_sum(old(list)@),
{
    let ghost ds0 = list@;
    let mut out: Vec<Debuff> = Vec::new();
    let mut sum: usize = 0;
    let n = list.len();
    let mut k: usize = 0;
    while k < n
        invariant
            n == ds0.len(),
            list@ == ds0,
            k <= n,
            out@ == step_debuffs(ds0.take(k as int)),
            sum as nat == active_sum(ds0.take(k as int)),
        decreases n - k,
    {
        let d = list[k];
        proof {
            assert(ds0.take(k + 1 as int).drop_last() =~= ds0.take(k as int));
            assert(ds0.take(k + 1 as int).last() == ds0[k as int]);
        }
        if d.cooldown > 0 {
            sum = if d.value > usize::MAX - sum {
                usize::MAX
            } else {
                sum + d.value
            };
            if d.cooldown > 1 {
                out.push(Debuff { value: d.value, cooldown: d.cooldown - 1 });
            }
        }
        k = k + 1;
    }
    proof {
        assert(ds0.take(n as int) =~= ds0);
    }
    *list = out;
    sum
}

/// The distance one enemy covers this tick.
fn advance_amount(speed: u64, stacks: usize) -> (r: u64)
    ensures
        r as nat == advance_of(speed as nat, stacks as nat),
        r <= speed / TICKS_PER_SECOND,
{
    let base = speed / TICKS_PER_SECOND;
    let mut a = base;
    let mut i: usize = 0;
    while i < stacks && a > 0
        invariant
            i <= stacks,
            a as nat == half_k(base as nat, i as nat),
        decreases stacks - i,
    {
        a = a / 2;
        i = i + 1;
    }
    proof {
        if i < stacks {
            lemma_half_k_zero(base as nat, i as nat, stacks as nat);
        }
        lemma_half_k_le(base as nat, stacks as nat);
    }
    a
}

/// One lifecycle tick of one enemy, in place.
fn tick_enemy(e: &mut Enemy)
    requires
        old(e).position < PERIMETER,
    ensures
        final(e)@ == tick_enemy_model(old(e)@),
        final(e).position < PERIMETER,
{
    let dot_dmg = step_debuff_list(&mut e.dot_list);
    if dot_dmg >= e.hp {
        e.hp = 0;
    } else {
        e.hp = e.hp - dot_dmg;
    }
    let stacks = step_debuff_list(&mut e.slow_list);
    let adv = advance_amount(e.move_speed, stacks);
    e.position = (e.position + adv) % PERIMETER;
}

impl Game {
    /// Spawn scheduler transition: every countdown drops one tick (clamped
    /// at zero) and the entries that reach zero leave the queue, in index
    /// order, for the field.
    fn spawn_transition(&mut self)
        requires
            old(self).wf(),
        ensures
            final(self).wf(),
            final(self).board.enemy_ready2spawn@ == pending_keep(
                old(self).board.enemy_ready2spawn@,
            ),
            final(self).board.enemies@ == old(self).board.enemies@ + spawned_of(
                old(self).board.enemy_ready2spawn@,
            ),
            final(self).board.ally_grid == old(self).board.ally_grid,
            final(self).coin == old(self).coin,
            final(self).level == old(self).level,
            final(self).game_state == old(self).game_state,
            final(self).cursor == old(self).cursor,
            final(self).selected == old(self).selected,
            final(self).config == old(self).config,
    {
        let ghost es0 = self.board.enemies@;
        let mut pending: Vec<(Enemy, usize)> = Vec::new();
        core::mem::swap(&mut pending, &mut self.board.enemy_ready2spawn);
        let ghost p0 = pending@;
        while pending.len() > 0
            invariant
                p0 == old(self).board.enemy_ready2spawn@,
                es0 == old(self).board.enemies@,
                old(self).wf(),
                pending@.len() <= p0.len(),
                pending@ == p0.subrange(p0.len() - pending@.len(), p0.len() as int),
                self.board.enemy_ready2spawn@ == pending_keep(
                    p0.take(p0.len() - pending@.len()),
                ),
                self.board.enemies@ == es0 + spawned_of(p0.take(p0.len() - pending@.len())),
                forall|m: int|
                    0 <= m < self.board.enemies@.len() ==> (
                    #[trigger] self.board.enemies@[m]).wf(),
                forall|m: int|
                    0 <= m < self.board.enemy_ready2spawn@.len() ==> (
                    #[trigger] self.board.enemy_ready2spawn@[m]).0.wf(),
                self.board.ally_grid == old(self).board.ally_grid,
                self.coin == old(self).coin,
                self.level == old(self).level,
                self.game_state == old(self).game_state,
                self.cursor == old(self).cursor,
                self.selected == old(self).selected,
                self.config == old(self).config,
            decreases pending@.len(),
        {
            let ghost done = p0.len() - pending@.len();
            let (enemy, timer) = pending.remove(0);
            proof {
                assert(p0.take(done + 1).drop_last() =~= p0.take(done as int));
                assert(p0.take(done + 1).last() == p0[done as int]);
                assert(p0[done as int] == (enemy, timer));
            }
            let t2 = if timer > 0 {
                timer - 1
            } else {
                0
            };
            if t2 == 0 {
                self.board.enemies.push(enemy);
            } else {
                self.board.enemy_ready2spawn.push((enemy, t2));
            }
            proof {
                assert(pending@ =~= p0.subrange(p0.len() - pending@.len(), p0.len() as int));
            }
        }
        proof {
            assert(p0.take(p0.len() as int) =~= p0);
        }
    }

    /// One lifecycle tick of every enemy on the field, in order.
    fn tick_all_enemies(&mut self)
        requires
            old(self).wf(),
        ensures
            final(self).wf(),
            final(self).board.enemies@.len() == old(self).board.enemies@.len(),
            enemies_view(final(self).board.enemies@) == ticked(
                enemies_view(old(self).board.enemies@),
            ),
            final(self).board.enemy_ready2spawn == old(self).board.enemy_ready2spawn,
            final(self).board.ally_grid == old(self).board.ally_grid,
            final(self).coin == old(self).coin,
            final(self).level == old(self).level,
            final(self).game_state == old(self).game_state,
            final(self).cursor == old(self).cursor,
            final(self).selected == old(self).selected,
            final(self).config == old(self).config,
    {
        let ghost es_mid = self.board.enemies@;
        let n = self.board.enemies.len();
        let mut k: usize = 0;
        while k < n
            invariant
                n == es_mid.len(),
                k <= n,
                es_mid == old(self).board.enemies@,
                old(self).wf(),
                self.board.enemies@.len() == n,
                forall|m: int| k <= m < n ==> #[trigger] self.board.enemies@[m] == es_mid[m],
                forall|m: int|
                    0 <= m < k ==> (#[trigger] self.board.enemies@[m])@ == tick_enemy_model(
                        es_mid[m]@,
                    ),
                forall|m: int|
                    0 <= m < k ==> (#[trigger] self.board.enemies@[m]).position < PERIMETER,
                self.board.ally_grid == old(self).board.ally_grid,
                self.board.enemy_ready2spawn == old(self).board.enemy_ready2spawn,
                self.coin == old(self).coin,
                self.level == old(self).level,
                self.game_state == old(self).game_state,
                self.cursor == old(self).cursor,
                self.selected == old(self).selected,
                self.config == old(self).config,
            decreases n - k,
        {
            let ghost pre = self.board.enemies@;
            let mut e = self.board.enemies.remove(k);
            tick_enemy(&mut e);
            self.board.enemies.insert(k, e);
            proof {
                assert(self.board.enemies@ =~= pre.update(k as int, e));
            }
            k = k + 1;
        }
        proof {
            assert(enemies_view(self.board.enemies@) =~= ticked(enemies_view(es_mid)));
        }
    }

    /// Removes every enemy at exactly zero hit points, in order, crediting
    /// the bounty; every enemy left has positive hit points.
    fn remove_dead(&mut self)
        requires
            old(self).wf(),
        ensures
            final(self).wf(),
            enemies_view(final(self).board.enemies@) == alive_of(
                enemies_view(old(self).board.enemies@),
            ),
            final(self).coin as nat == credit_coin(
                old(self).coin as nat,
                dead_count(enemies_view(old(self).board.enemies@)),
            ),
            final(self).board.enemies@.len() + dead_count(
                enemies_view(old(self).board.enemies@),
            ) == old(self).board.enemies@.len(),
            forall|q: int|
                0 <= q < final(self).board.enemies@.len() ==> (#[trigger] final(self).board.enemies@[q]).hp > 0,
            final(self).board.enemy_ready2spawn == old(self).board.enemy_ready2spawn,
            final(self).board.ally_grid == old(self).board.ally_grid,
            final(self).level == old(self).level,
            final(self).game_state == old(self).game_state,
            final(self).cursor == old(self).cursor,
            final(self).selected == old(self).selected,
            final(self).config == old(self).config,
    {
        let ghost es_t = self.board.enemies@;
        let total = self.board.enemies.len();
        let mut k: usize = 0;
        let mut dead: usize = 0;
        while k < self.board.enemies.len()
            invariant
                es_t.len() == total,
                k + dead <= es_t.len(),
                es_t == old(self).board.enemies@,
                old(self).wf(),
                k == alive_enemies(es_t.take((k + dead) as int)).len(),
                dead as nat == dead_count_enemies(es_t.take((k + dead) as int)),
                forall|m: int|
                    0 <= m < self.board.enemies@.len() ==> (
                    #[trigger] self.board.enemies@[m]).position < PERIMETER,
                self.board.enemies@ == alive_enemies(es_t.take((k + dead) as int)) + es_t.subrange(
                    (k + dead) as int,
                    es_t.len() as int,
                ),
                self.board.ally_grid == old(self).board.ally_grid,
                self.board.enemy_ready2spawn == old(self).board.enemy_ready2spawn,
                self.coin == old(self).coin,
                self.level == old(self).level,
                self.game_state == old(self).game_state,
                self.cursor == old(self).cursor,
                self.selected == old(self).selected,
                self.config == old(self).config,
            decreases es_t.len() - (k + dead),
        {
            let ghost done = (k + dead) as int;
            proof {
                assert(self.board.enemies@.len() == k + (es_t.len() - done));
                assert(es_t.take(done + 1).drop_last() =~= es_t.take(done));
                assert(es_t.take(done + 1).last() == es_t[done]);
                assert(self.board.enemies@[k as int] == es_t[done]);
            }
            if self.board.enemies[k].hp == 0 {
                proof {
                    assert(done < es_t.len());
                }
                self.board.enemies.remove(k);
                dead = dead + 1;
                proof {
                    assert(self.board.enemies@ =~= alive_enemies(es_t.take(done + 1))
                        + es_t.subrange(done + 1, es_t.len() as int));
                }
            } else {
                k = k + 1;
                proof {
                    assert(self.board.enemies@ =~= alive_enemies(es_t.take(done + 1))
                        + es_t.subrange(done + 1, es_t.len() as int));
                }
            }
        }
        proof {
            assert(es_t.take(es_t.len() as int) =~= es_t);
            assert(self.board.enemies@ =~= alive_enemies(es_t));
            lemma_alive_enemies_view(es_t);
            lemma_alive_partition(enemies_view(es_t));
            lemma_alive_positive(enemies_view(es_t));
            assert(forall|q: int|
                0 <= q < self.board.enemies@.len() ==> (#[trigger] self.board.enemies@[q])@
                    == alive_of(enemies_view(es_t))[q]);
        }
        let wide: u128 = self.coin as u128 + 10u128 * (dead as u128);
        self.coin = if wide > usize::MAX as u128 {
            usize::MAX
        } else {
            wide as usize
        };
    }

    /// The lifecycle phase of one tick: spawn countdowns advance and ripe
    /// entries join the field, every enemy suffers its damage-over-time,
    /// debuffs decay, everyone moves under its slow factor, and the dead
    /// are removed for a saturating 10-coin bounty each.
    pub(crate) fn enemy_update(&mut self)
        requires
            old(self).wf(),
        ensures
            final(self).wf(),
            final(self).board.enemy_ready2spawn@ == pending_keep(
                old(self).board.enemy_ready2spawn@,
            ),
            enemies_view(final(self).board.enemies@) == alive_of(
                ticked(
                    enemies_view(old(self).board.enemies@) + enemies_view(
                        spawned_of(old(self).board.enemy_ready2spawn@),
                    ),
                ),
            ),
            final(self).coin as nat == credit_coin(
                old(self).coin as nat,
                dead_count(
                    ticked(
                        enemies_view(old(self).board.enemies@) + enemies_view(
                            spawned_of(old(self).board.enemy_ready2spawn@),
                        ),
                    ),
                ),
            ),
            final(self).board.enemies@.len() + final(self).board.enemy_ready2spawn@.len() <= old(self).board.enemies@.len() + old(self).board.enemy_ready2spawn@.len(),
            forall|q: int|
                0 <= q < final(self).board.enemies@.len() ==> (#[trigger] final(self).board.enemies@[q]).hp > 0,
            final(self).board.ally_grid == old(self).board.ally_grid,
            final(self).level == old(self).level,
            final(self).game_state == old(self).game_state,
            final(self).cursor == old(self).cursor,
            final(self).selected == old(self).selected,
            final(self).config == old(self).config,
    {
        let ghost es0 = self.board.enemies@;
        let ghost p0 = self.board.enemy_ready2spawn@;
        self.spawn_transition();
        proof {
            assert(enemies_view(self.board.enemies@) =~= enemies_view(es0) + enemies_view(
                spawned_of(p0),
            ));
        }
        self.tick_all_enemies();
        proof {
            assert(enemies_view(self.board.enemies@) =~= ticked(
                enemies_view(es0) + enemies_view(spawned_of(p0)),
            ));
        }
        self.remove_dead();
        proof {
            lemma_pending_partition(p0);
            lemma_alive_partition(ticked(enemies_view(es0) + enemies_view(spawned_of(p0))));
        }
    }
}

} // verus!
