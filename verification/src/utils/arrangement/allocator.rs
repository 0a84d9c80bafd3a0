//! Sharing a budget of characters among the columns that are still without a
//! width.
//!
//! Every such column brings a [`Demand`]: the width it would like, the width
//! it must have, and the weight by which it takes part in the sharing. The
//! budget is shared in rounds. In each round every column still in the pool
//! is offered its share of what is left, in proportion to its weight. A
//! column whose share falls below what it must have is pinned to that
//! minimum and leaves the pool; what it takes is no longer there to be
//! shared. The rounds end when a round pins nobody. A column left in the
//! pool then gets its share, though never more than it would like.

use vstd::prelude::*;

verus! {

/// What one column asks of the allocation.
#[derive(Clone, Copy, Debug)]
pub struct Demand {
    /// The column's part in the sharing: the width of its widest content.
    pub weight: u16,
    /// The width the column must have, whatever the budget.
    pub floor: u32,
    /// The width the column gets where the budget does not matter. Sharing
    /// gives it no more.
    pub wanted: u32,
}

/// The pool at the start: every column that brings a demand.
pub open spec fn everyone(demands: Seq<Option<Demand>>) -> Seq<bool> {
    Seq::new(demands.len(), |i: int| demands[i] is Some)
}

/// How many of the first `n` columns are in the pool.
pub open spec fn pool_size(pool: Seq<bool>, n: int) -> nat
    decreases n,
{
    if n <= 0 {
        0
    } else {
        pool_size(pool, n - 1) + (if pool[n - 1] { 1nat } else { 0 })
    }
}

/// The weights of the first `n` columns that are in the pool, added up.
pub open spec fn pool_weight(demands: Seq<Option<Demand>>, pool: Seq<bool>, n: int) -> int
    decreases n,
{
    if n <= 0 {
        0
    } else {
        pool_weight(demands, pool, n - 1) + (match demands[n - 1] {
            Some(demand) => if pool[n - 1] { demand.weight as int } else { 0 },
            None => 0,
        })
    }
}

/// The minimum widths of the first `n` columns that are pinned, added up. A
/// column is pinned when it brings a demand and is not in the pool.
pub open spec fn pinned_width(demands: Seq<Option<Demand>>, pool: Seq<bool>, n: int) -> int
    decreases n,
{
    if n <= 0 {
        0
    } else {
        pinned_width(demands, pool, n - 1) + (match demands[n - 1] {
            Some(demand) => if pool[n - 1] { 0 } else { demand.floor as int },
            None => 0,
        })
    }
}

/// The part of `rest` that falls to a column of the given weight when the
/// pool weighs `total_weight`, rounded down. Nothing is shared out of an
/// overdrawn budget, nor among columns without weight.
pub open spec fn share(rest: int, total_weight: int, weight: int) -> int {
    if rest <= 0 || total_weight <= 0 {
        0
    } else {
        rest * weight / total_weight
    }
}

/// What the pinned columns leave of the budget. It is negative when they
/// take more than there is.
pub open spec fn rest_of(demands: Seq<Option<Demand>>, pool: Seq<bool>, budget: int) -> int {
    budget - pinned_width(demands, pool, demands.len() as int)
}

/// The share that column `i` is offered while the pool is `pool`.
pub open spec fn offer(demands: Seq<Option<Demand>>, pool: Seq<bool>, budget: int, i: int) -> int {
    match demands[i] {
        Some(demand) => share(
            rest_of(demands, pool, budget),
            pool_weight(demands, pool, demands.len() as int),
            demand.weight as int,
        ),
        None => 0,
    }
}

/// Whether column `i` is in the pool and is offered less than it must have.
pub open spec fn starves(demands: Seq<Option<Demand>>, pool: Seq<bool>, budget: int, i: int) -> bool {
    &&& pool[i]
    &&& demands[i] matches Some(demand)
    &&& offer(demands, pool, budget, i) < demand.floor
}

/// The pool after one round: whoever starved has left.
pub open spec fn after_round(demands: Seq<Option<Demand>>, pool: Seq<bool>, budget: int) -> Seq<bool> {
    Seq::new(pool.len(), |i: int| pool[i] && !starves(demands, pool, budget, i))
}

/// The pool after as many rounds as it takes until a round pins nobody.
pub open spec fn settled(demands: Seq<Option<Demand>>, pool: Seq<bool>, budget: int) -> Seq<bool>
    decreases pool_size(pool, pool.len() as int),
{
    let next = after_round(demands, pool, budget);
    if pool_size(next, next.len() as int) < pool_size(pool, pool.len() as int) {
        settled(demands, next, budget)
    } else {
        pool
    }
}

/// The width that column `i` is granted out of `budget`: its minimum if it
/// was pinned in some round, else its share of what the pinned columns left,
/// capped at what it would like. A column without a demand is granted
/// nothing.
pub open spec fn granted(demands: Seq<Option<Demand>>, budget: int, i: int) -> int {
    let pool = settled(demands, everyone(demands), budget);
    match demands[i] {
        Some(demand) => if pool[i] {
            let offered = offer(demands, pool, budget, i);
            if offered < demand.wanted {
                offered
            } else {
                demand.wanted as int
            }
        } else {
            demand.floor as int
        },
        None => 0,
    }
}

/// The combined weight of the pool and the combined minimum of the pinned
/// columns.
fn totals(demands: &Vec<Option<Demand>>, pool: &Vec<bool>) -> (sums: (u128, u128))
    requires
        pool@.len() == demands@.len(),
    ensures
        sums.0 == pool_weight(demands@, pool@, demands@.len() as int),
        sums.1 == pinned_width(demands@, pool@, demands@.len() as int),
{
    let mut weight: u128 = 0;
    let mut pinned: u128 = 0;
    let mut i: usize = 0;
    while i < demands.len()
        invariant
            i <= demands@.len(),
            pool@.len() == demands@.len(),
            weight == pool_weight(demands@, pool@, i as int),
            pinned == pinned_width(demands@, pool@, i as int),
            weight <= i * 0xffff,
            pinned <= i * 0xffff_ffff,
        decreases demands@.len() - i,
    {
        match demands[i] {
            Some(demand) => {
                if pool[i] {
                    weight = weight + demand.weight as u128;
                } else {
                    pinned = pinned + demand.floor as u128;
                }
            },
            None => {},
        }
        i = i + 1;
    }
    (weight, pinned)
}

/// The share of `rest` for a column of the given weight.
fn share_of(rest: usize, total_weight: u128, weight: u16) -> (part: u128)
    ensures
        part == share(rest as int, total_weight as int, weight as int),
{
    if rest == 0 || total_weight == 0 {
        0
    } else {
        assert(rest * weight <= 0xffff_ffff_ffff_ffff * 0xffff) by (nonlinear_arith)
            requires
                0 <= rest <= 0xffff_ffff_ffff_ffff,
                0 <= weight <= 0xffff,
        ;
        rest as u128 * weight as u128 / total_weight
    }
}

/// `amount`, or nothing where it is negative.
pub open spec fn positive_part(amount: int) -> int {
    if amount > 0 {
        amount
    } else {
        0
    }
}

/// What is left of `budget` once `pinned` is taken, and nothing if that is
/// more than the budget.
fn left_of(budget: usize, pinned: u128) -> (rest: usize)
    ensures
        rest == positive_part(budget - pinned),
{
    if (budget as u128) > pinned {
        (budget as u128 - pinned) as usize
    } else {
        0
    }
}

/// Shares `budget` among the columns that bring a demand, and returns the
/// width granted to each column, in the columns' order.
pub fn distribute(demands: &Vec<Option<Demand>>, budget: usize) -> (widths: Vec<u32>)
    ensures
        widths@.len() == demands@.len(),
        forall|i: int| 0 <= i < widths@.len() ==> widths@[i] == granted(demands@, budget as int, i),
{
    let n = demands.len();
    let mut pool: Vec<bool> = Vec::new();
    let mut i: usize = 0;
    while i < n
        invariant
            n == demands@.len(),
            i <= n,
            pool@.len() == i,
            forall|j: int| 0 <= j < i ==> pool@[j] == (demands@[j] is Some),
        decreases n - i,
    {
        pool.push(demands[i].is_some());
        i = i + 1;
    }
    assert(pool@ =~= everyone(demands@));

    let mut weight: u128 = 0;
    let mut rest: usize = 0;
    loop
        invariant_except_break
            n == demands@.len(),
            pool@.len() == n,
            settled(demands@, pool@, budget as int) == settled(demands@, everyone(demands@), budget as int),
        ensures
            n == demands@.len(),
            pool@.len() == n,
            pool@ == settled(demands@, everyone(demands@), budget as int),
            weight == pool_weight(demands@, pool@, n as int),
            rest == positive_part(rest_of(demands@, pool@, budget as int)),
        decreases pool_size(pool@, n as int),
    {
        let sums = totals(demands, &pool);
        weight = sums.0;
        rest = left_of(budget, sums.1);
        let ghost round = after_round(demands@, pool@, budget as int);
        let mut next: Vec<bool> = Vec::new();
        let mut pinned_now: usize = 0;
        let mut k: usize = 0;
        while k < n
            invariant
                n == demands@.len(),
                pool@.len() == n,
                k <= n,
                next@.len() == k,
                pinned_now <= k,
                round == after_round(demands@, pool@, budget as int),
                weight == pool_weight(demands@, pool@, n as int),
                rest == positive_part(rest_of(demands@, pool@, budget as int)),
                forall|j: int| 0 <= j < k ==> next@[j] == round[j],
                pool_size(round, k as int) + pinned_now == pool_size(pool@, k as int),
            decreases n - k,
        {
            let stays = pool[k] && match demands[k] {
                Some(demand) => share_of(rest, weight, demand.weight) >= demand.floor as u128,
                None => true,
            };
            if pool[k] && !stays {
                pinned_now = pinned_now + 1;
            }
            next.push(stays);
            k = k + 1;
        }
        assert(next@ =~= round);
        if pinned_now == 0 {
            break;
        }
        pool = next;
    }

    let mut widths: Vec<u32> = Vec::new();
    let mut i: usize = 0;
    while i < n
        invariant
            n == demands@.len(),
            pool@.len() == n,
            i <= n,
            widths@.len() == i,
            pool@ == settled(demands@, everyone(demands@), budget as int),
            weight == pool_weight(demands@, pool@, n as int),
            rest == positive_part(rest_of(demands@, pool@, budget as int)),
            forall|j: int| 0 <= j < i ==> widths@[j] == granted(demands@, budget as int, j),
        decreases n - i,
    {
        let width: u32 = match demands[i] {
            Some(demand) => {
                if pool[i] {
                    let offered = share_of(rest, weight, demand.weight);
                    if offered < demand.wanted as u128 {
                        offered as u32
                    } else {
                        demand.wanted
                    }
                } else {
                    demand.floor
                }
            },
            None => 0,
        };
        widths.push(width);
        i = i + 1;
    }
    widths
}

/// The minimum widths of the first `n` columns that bring a demand, added up.
pub open spec fn floor_total(demands: Seq<Option<Demand>>, n: int) -> int
    decreases n,
{
    if n <= 0 {
        0
    } else {
        floor_total(demands, n - 1) + (match demands[n - 1] {
            Some(demand) => demand.floor as int,
            None => 0,
        })
    }
}

/// The widths granted to the first `n` columns, added up.
pub open spec fn granted_total(demands: Seq<Option<Demand>>, budget: int, n: int) -> int
    decreases n,
{
    if n <= 0 {
        0
    } else {
        granted_total(demands, budget, n - 1) + granted(demands, budget, n - 1)
    }
}

/// Whether every demand asks for a width that it may have: no column must
/// have more than it would like.
pub open spec fn sound(demands: Seq<Option<Demand>>) -> bool {
    forall|i: int|
        0 <= i < demands.len() ==> (#[trigger] demands[i] matches Some(demand) ==> demand.floor <= demand.wanted)
}

/// A pool that has lost nobody is as large as before, and one that is as
/// large as before has lost nobody.
proof fn smaller_pool(pool: Seq<bool>, next: Seq<bool>, n: int)
    requires
        0 <= n <= pool.len(),
        next.len() == pool.len(),
        forall|j: int| 0 <= j < n ==> (next[j] ==> pool[j]),
    ensures
        pool_size(next, n) <= pool_size(pool, n),
        pool_size(next, n) == pool_size(pool, n) ==> forall|j: int| 0 <= j < n ==> next[j] == pool[j],
    decreases n,
{
    if n > 0 {
        smaller_pool(pool, next, n - 1);
    }
}

/// Rounds only ever pin columns, and when they end nobody starves: every
/// column left in the pool is offered at least what it must have.
pub proof fn settled_pool_is_stable(demands: Seq<Option<Demand>>, pool: Seq<bool>, budget: int)
    requires
        pool.len() == demands.len(),
    ensures
        settled(demands, pool, budget).len() == pool.len(),
        forall|i: int| 0 <= i < pool.len() ==> (settled(demands, pool, budget)[i] ==> pool[i]),
        forall|i: int| 0 <= i < pool.len() ==> !starves(demands, settled(demands, pool, budget), budget, i),
    decreases pool_size(pool, pool.len() as int),
{
    let next = after_round(demands, pool, budget);
    smaller_pool(pool, next, pool.len() as int);
    if pool_size(next, next.len() as int) < pool_size(pool, pool.len() as int) {
        settled_pool_is_stable(demands, next, budget);
        assert forall|i: int| 0 <= i < pool.len() && settled(demands, pool, budget)[i] implies pool[i] by {
            assert(settled(demands, next, budget)[i]);
            assert(next[i]);
        }
    } else {
        assert forall|i: int| 0 <= i < pool.len() implies !starves(demands, pool, budget, i) by {
            assert(next[i] == pool[i]);
        }
    }
}

/// Whatever the budget, a column is granted at least what it must have and
/// at most what it would like.
pub proof fn granted_within_demand(demands: Seq<Option<Demand>>, budget: int, i: int)
    requires
        0 <= i < demands.len(),
        demands[i] matches Some(demand) && demand.floor <= demand.wanted,
    ensures
        demands[i]->0.floor <= granted(demands, budget, i) <= demands[i]->0.wanted,
{
    assert(everyone(demands).len() == demands.len());
    settled_pool_is_stable(demands, everyone(demands), budget);
    let pool = settled(demands, everyone(demands), budget);
    assert(!starves(demands, pool, budget, i));
}

/// The pinned columns take no more than all minimum widths together.
proof fn pinned_is_part_of_floors(demands: Seq<Option<Demand>>, pool: Seq<bool>, n: int)
    requires
        0 <= n <= demands.len(),
        pool.len() == demands.len(),
    ensures
        0 <= pinned_width(demands, pool, n) <= floor_total(demands, n),
    decreases n,
{
    if n > 0 {
        pinned_is_part_of_floors(demands, pool, n - 1);
    }
}

/// A pool that has lost columns weighs no more than before.
proof fn lighter_pool(demands: Seq<Option<Demand>>, pool: Seq<bool>, next: Seq<bool>, n: int)
    requires
        0 <= n <= demands.len(),
        pool.len() == demands.len(),
        next.len() == demands.len(),
        forall|j: int| 0 <= j < n ==> (next[j] ==> pool[j]),
    ensures
        0 <= pool_weight(demands, next, n) <= pool_weight(demands, pool, n),
    decreases n,
{
    if n > 0 {
        lighter_pool(demands, pool, next, n - 1);
    }
}

/// What the first `n` columns in the pool are offered, added up.
pub open spec fn offered_total(demands: Seq<Option<Demand>>, pool: Seq<bool>, budget: int, n: int) -> int
    decreases n,
{
    if n <= 0 {
        0
    } else {
        offered_total(demands, pool, budget, n - 1) + (if pool[n - 1] {
            offer(demands, pool, budget, n - 1)
        } else {
            0
        })
    }
}

/// The offers made to the pool never add up to more than their part of
/// what is left: rounding down only ever loses characters.
proof fn offers_fit(demands: Seq<Option<Demand>>, pool: Seq<bool>, budget: int, n: int)
    requires
        0 <= n <= demands.len(),
        pool.len() == demands.len(),
        rest_of(demands, pool, budget) >= 0,
    ensures
        0 <= offered_total(demands, pool, budget, n),
        offered_total(demands, pool, budget, n) * pool_weight(demands, pool, demands.len() as int) <= rest_of(
            demands,
            pool,
            budget,
        ) * pool_weight(demands, pool, n),
    decreases n,
{
    let rest = rest_of(demands, pool, budget);
    let weight = pool_weight(demands, pool, demands.len() as int);
    lighter_pool(demands, pool, pool, demands.len() as int);
    if n > 0 {
        offers_fit(demands, pool, budget, n - 1);
        lighter_pool(demands, pool, pool, n - 1);
        let before = offered_total(demands, pool, budget, n - 1);
        let before_weight = pool_weight(demands, pool, n - 1);
        match demands[n - 1] {
            Some(demand) => {
                if pool[n - 1] {
                    let part = offer(demands, pool, budget, n - 1);
                    let w = demand.weight as int;
                    assert(0 <= part && part * weight <= rest * w) by (nonlinear_arith)
                        requires
                            part == share(rest, weight, w),
                            rest >= 0,
                            weight >= 0,
                            w >= 0,
                    ;
                    assert((before + part) * weight <= rest * (before_weight + w)) by (nonlinear_arith)
                        requires
                            before * weight <= rest * before_weight,
                            part * weight <= rest * w,
                    ;
                }
            },
            None => {
                if pool[n - 1] {
                    assert(offer(demands, pool, budget, n - 1) == 0);
                }
            },
        }
    } else {
        assert(0 * weight == 0) by (nonlinear_arith);
        assert(rest * 0 == 0) by (nonlinear_arith);
    }
}

/// The widths granted to the first `n` columns are no more than what the
/// pinned among them must have and the others are offered.
proof fn granted_is_pinned_or_offered(demands: Seq<Option<Demand>>, budget: int, n: int)
    requires
        0 <= n <= demands.len(),
    ensures
        granted_total(demands, budget, n) <= pinned_width(
            demands,
            settled(demands, everyone(demands), budget),
            n,
        ) + offered_total(demands, settled(demands, everyone(demands), budget), budget, n),
    decreases n,
{
    if n > 0 {
        granted_is_pinned_or_offered(demands, budget, n - 1);
    }
}

/// A budget that covers what the columns must have is kept: the granted
/// widths add up to no more than the budget.
pub proof fn covered_budget_is_kept(demands: Seq<Option<Demand>>, budget: int)
    requires
        floor_total(demands, demands.len() as int) <= budget,
    ensures
        granted_total(demands, budget, demands.len() as int) <= budget,
{
    let n = demands.len() as int;
    assert(everyone(demands).len() == demands.len());
    settled_pool_is_stable(demands, everyone(demands), budget);
    let pool = settled(demands, everyone(demands), budget);
    let rest = rest_of(demands, pool, budget);
    let weight = pool_weight(demands, pool, n);
    pinned_is_part_of_floors(demands, pool, n);
    offers_fit(demands, pool, budget, n);
    granted_is_pinned_or_offered(demands, budget, n);
    let offered = offered_total(demands, pool, budget, n);
    lighter_pool(demands, pool, pool, n);
    if weight > 0 {
        assert(offered <= rest) by (nonlinear_arith)
            requires
                offered * weight <= rest * weight,
                weight > 0,
        ;
    } else {
        nothing_offered_without_weight(demands, pool, budget, n);
    }
}

/// A pool without weight is offered nothing.
proof fn nothing_offered_without_weight(demands: Seq<Option<Demand>>, pool: Seq<bool>, budget: int, n: int)
    requires
        0 <= n <= demands.len(),
        pool.len() == demands.len(),
        pool_weight(demands, pool, demands.len() as int) <= 0,
    ensures
        offered_total(demands, pool, budget, n) == 0,
    decreases n,
{
    if n > 0 {
        nothing_offered_without_weight(demands, pool, budget, n - 1);
    }
}

} // verus!
