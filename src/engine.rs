use vstd::prelude::*;
use crate::graph::{
    cost, deepest, lemma_agree_below, lemma_step_congruent, least, GraphModel, NO_SOURCE_RARITY,
};

verus! {

/// Why a catalog was refused at startup.
#[derive(Clone, Copy, Debug, PartialEq, Eq, Structural)]
pub enum CatalogError {
    /// The crafting requirements form a cycle.
    Cycle,
    /// Some rarity number does not fit in a `u64`.
    Overflow,
    /// A recipe names an unknown item, is empty or asks for zero of an item, or
    /// a drop interval is zero.
    Malformed,
}

/// A crafting graph over the items `0..recipes.len()`.
pub struct CraftingGraph {
    /// For each item, its recipe as (ingredient, quantity) pairs, if it has one.
    pub recipes: Vec<Option<Vec<(usize, u64)>>>,
    /// For each item, the expected ticks per drop of every occupation that yields it.
    pub drops: Vec<Vec<u64>>,
}

/// A recipe as a sequence.
pub open spec fn recipe_view(r: Option<Vec<(usize, u64)>>) -> Option<Seq<(usize, u64)>> {
    match r {
        Some(b) => Some(b@),
        None => None,
    }
}

impl View for CraftingGraph {
    type V = GraphModel;

    open spec fn view(&self) -> GraphModel {
        GraphModel {
            recipes: self.recipes@.map_values(|r: Option<Vec<(usize, u64)>>| recipe_view(r)),
            drops: self.drops@.map_values(|d: Vec<u64>| d@),
        }
    }
}

/// `order` lists every item once, each after its ingredients, and `pos` is its inverse.
pub open spec fn is_schedule(g: GraphModel, order: Seq<usize>, pos: Seq<usize>) -> bool {
    &&& pos.len() == g.len()
    &&& order.len() <= g.len()
    &&& forall|i: int| 0 <= i < g.len() ==> #[trigger] pos[i] < order.len() && order[pos[i] as int] == i
    &&& forall|p: int| 0 <= p < order.len() ==> #[trigger] order[p] < g.len() && pos[order[p] as int] == p
    &&& forall|i: int, k: int|
        0 <= i < g.len() && 0 <= k < g.ingredients(i).len() ==> pos[(
        #[trigger] g.ingredients(i)[k]).0 as int] < pos[i]
}

/// Item `j` has an ingredient that is not placed yet (marked by `g.len()`).
pub open spec fn blocked(g: GraphModel, pos: Seq<usize>, j: int) -> bool {
    exists|k: int| 0 <= k < g.ingredients(j).len() && pos[(#[trigger] g.ingredients(j)[k]).0 as int] == g.len()
}

proof fn lemma_distinct_bounded(s: Seq<usize>, n: nat)
    requires
        s.no_duplicates(),
        forall|k: int| 0 <= k < s.len() ==> #[trigger] s[k] < n,
    ensures
        s.len() <= n,
    decreases n,
{
    if n == 0 {
        if s.len() > 0 {
            assert(s[0] < n);
        }
    } else if exists|j: int| 0 <= j < s.len() && s[j] == n - 1 {
        let j = choose|j: int| 0 <= j < s.len() && s[j] == n - 1;
        let r = s.remove(j);
        assert forall|k: int| 0 <= k < r.len() implies #[trigger] r[k] < n - 1 by {
            if k < j {
                assert(r[k] == s[k]);
            } else {
                assert(r[k] == s[k + 1]);
            }
        }
        assert forall|a: int, b: int| 0 <= a < r.len() && 0 <= b < r.len() && a != b implies r[a]
            != r[b] by {
            let sa = if a < j { a } else { a + 1 };
            let sb = if b < j { b } else { b + 1 };
            assert(r[a] == s[sa]);
            assert(r[b] == s[sb]);
        }
        lemma_distinct_bounded(r, (n - 1) as nat);
    } else {
        lemma_distinct_bounded(s, (n - 1) as nat);
    }
}

proof fn lemma_blocked_rank(g: GraphModel, pos: Seq<usize>, rank: Seq<nat>, m: nat)
    requires
        g.wf(),
        g.is_ranking(rank),
        pos.len() == g.len(),
        forall|j: int| 0 <= j < g.len() && pos[j] == g.len() ==> #[trigger] blocked(g, pos, j),
    ensures
        forall|j: int| 0 <= j < g.len() && pos[j] == g.len() ==> #[trigger] rank[j] > m,
    decreases m,
{
    if m > 0 {
        lemma_blocked_rank(g, pos, rank, (m - 1) as nat);
    }
    assert forall|j: int| 0 <= j < g.len() && pos[j] == g.len() implies #[trigger] rank[j] > m by {
        assert(blocked(g, pos, j));
        let k = choose|k: int|
            0 <= k < g.ingredients(j).len() && pos[(#[trigger] g.ingredients(j)[k]).0 as int]
                == g.len();
        let d = g.ingredients(j)[k].0 as int;
        assert(rank[d] < rank[j]);
    }
}

/// When every unplaced item waits on an unplaced ingredient, and some item is
/// unplaced, the graph has a cycle.
proof fn lemma_blocked_cycle(g: GraphModel, pos: Seq<usize>, j0: int)
    requires
        g.wf(),
        pos.len() == g.len(),
        0 <= j0 < g.len(),
        pos[j0] == g.len(),
        forall|j: int| 0 <= j < g.len() && pos[j] == g.len() ==> #[trigger] blocked(g, pos, j),
    ensures
        !g.acyclic(),
{
    if g.acyclic() {
        let rank = choose|rank: Seq<nat>| g.is_ranking(rank);
        lemma_blocked_rank(g, pos, rank, rank[j0]);
    }
}

/// A schedule's positions rank the items.
proof fn lemma_schedule_ranks(g: GraphModel, order: Seq<usize>, pos: Seq<usize>)
    requires
        g.wf(),
        is_schedule(g, order, pos),
    ensures
        g.is_ranking(pos.map_values(|x: usize| x as nat)),
        g.acyclic(),
{
    let rank = pos.map_values(|x: usize| x as nat);
    assert forall|i: int, k: int|
        0 <= i < g.len() && 0 <= k < g.ingredients(i).len() implies rank[(
    #[trigger] g.ingredients(i)[k]).0 as int] < rank[i] by {
        assert(pos[g.ingredients(i)[k].0 as int] < pos[i]);
    }
    assert(g.is_ranking(rank));
}

/// Whether every ingredient of item `i` is placed.
fn ready(g: &CraftingGraph, pos: &Vec<usize>, i: usize) -> (r: bool)
    requires
        g@.wf(),
        i < g@.len(),
        pos@.len() == g@.len(),
    ensures
        r == forall|k: int|
            0 <= k < g@.ingredients(i as int).len() ==> pos@[(
            #[trigger] g@.ingredients(i as int)[k]).0 as int] < g@.len(),
{
    let n = g.recipes.len();
    assert(g@.recipes[i as int] == recipe_view(g.recipes@[i as int]));
    match &g.recipes[i] {
        None => true,
        Some(b) => {
            let mut k: usize = 0;
            while k < b.len()
                invariant
                    g@.wf(),
                    i < g@.len(),
                    n == g@.len(),
                    pos@.len() == g@.len(),
                    b@ == g@.ingredients(i as int),
                    k <= b@.len(),
                    forall|j: int| 0 <= j < k ==> pos@[(#[trigger] b@[j]).0 as int] < n,
                decreases b.len() - k,
            {
                let d = b[k].0;
                assert(b@[k as int] == g@.ingredients(i as int)[k as int]);
                if pos[d] >= n {
                    return false;
                }
                k = k + 1;
            }
            true
        },
    }
}

/// Orders the items so that each comes after its ingredients, or finds that
/// no such order exists.
fn schedule(g: &CraftingGraph) -> (r: Option<(Vec<usize>, Vec<usize>)>)
    requires
        g@.wf(),
    ensures
        match r {
            Some((order, pos)) => is_schedule(g@, order@, pos@),
            None => !g@.acyclic(),
        },
{
    let n = g.recipes.len();
    let mut pos: Vec<usize> = Vec::new();
    while pos.len() < n
        invariant
            pos@.len() <= n,
            forall|j: int| 0 <= j < pos@.len() ==> #[trigger] pos@[j] == n,
        decreases n - pos.len(),
    {
        pos.push(n);
    }
    let mut order: Vec<usize> = Vec::new();
    loop
        invariant
            g@.wf(),
            n == g@.len(),
            pos@.len() == n,
            order@.len() <= n,
            forall|i: int|
                0 <= i < n ==> #[trigger] pos@[i] == n || (pos@[i] < order@.len() && order@[pos@[i] as int]
                    == i),
            forall|p: int| 0 <= p < order@.len() ==> #[trigger] order@[p] < n && pos@[order@[p] as int] == p,
            forall|i: int, k: int|
                0 <= i < n && pos@[i] != n && 0 <= k < g@.ingredients(i).len() ==> pos@[(
                #[trigger] g@.ingredients(i)[k]).0 as int] < pos@[i],
        decreases n - order.len(),
    {
        let before = order.len();
        let mut i: usize = 0;
        while i < n
            invariant
                g@.wf(),
                n == g@.len(),
                pos@.len() == n,
                order@.len() <= n,
                before <= order@.len(),
                i <= n,
                forall|i: int|
                    0 <= i < n ==> #[trigger] pos@[i] == n || (pos@[i] < order@.len()
                        && order@[pos@[i] as int] == i),
                forall|p: int|
                    0 <= p < order@.len() ==> #[trigger] order@[p] < n && pos@[order@[p] as int] == p,
                forall|i: int, k: int|
                    0 <= i < n && pos@[i] != n && 0 <= k < g@.ingredients(i).len() ==> pos@[(
                    #[trigger] g@.ingredients(i)[k]).0 as int] < pos@[i],
                order@.len() == before ==> forall|j: int|
                    0 <= j < i && pos@[j] == n ==> #[trigger] blocked(g@, pos@, j),
            decreases n - i,
        {
            if pos[i] == n && ready(g, &pos, i) {
                let m = order.len();
                proof {
                    let s = order@.push(i);
                    assert forall|k: int| 0 <= k < s.len() implies #[trigger] s[k] < n by {
                        if k < m {
                            assert(s[k] == order@[k]);
                        }
                    }
                    assert forall|a: int, b: int|
                        0 <= a < s.len() && 0 <= b < s.len() && a != b implies s[a] != s[b] by {
                        if a < m && b < m {
                            assert(pos@[order@[a] as int] == a);
                            assert(pos@[order@[b] as int] == b);
                        } else if a < m {
                            assert(pos@[order@[a] as int] == a);
                        } else if b < m {
                            assert(pos@[order@[b] as int] == b);
                        }
                    }
                    assert(s.no_duplicates());
                    lemma_distinct_bounded(s, n as nat);
                }
                let ghost pos0 = pos@;
                pos.set(i, m);
                order.push(i);
                proof {
                    assert forall|j: int, k: int|
                        0 <= j < n && pos@[j] != n && 0 <= k < g@.ingredients(j).len() implies pos@[(
                        #[trigger] g@.ingredients(j)[k]).0 as int] < pos@[j] by {
                        let d = g@.ingredients(j)[k].0 as int;
                        if j == i {
                            assert(pos0[d] < n);
                        }
                    }
                }
            } else {
                proof {
                    if pos@[i as int] == n {
                        let k = choose|k: int|
                            !(0 <= k < g@.ingredients(i as int).len() ==> pos@[(
                            #[trigger] g@.ingredients(i as int)[k]).0 as int] < n);
                        let d = g@.ingredients(i as int)[k].0 as int;
                        assert(pos@[d] == n || pos@[d] < order@.len());
                        assert(blocked(g@, pos@, i as int));
                    }
                }
            }
            i = i + 1;
        }
        if order.len() == before {
            let mut j: usize = 0;
            while j < n
                invariant
                    g@.wf(),
                    n == g@.len(),
                    pos@.len() == n,
                    j <= n,
                    forall|q: int| 0 <= q < n && pos@[q] == n ==> #[trigger] blocked(g@, pos@, q),
                    forall|q: int| 0 <= q < j ==> #[trigger] pos@[q] != n,
                decreases n - j,
            {
                if pos[j] == n {
                    proof {
                        lemma_blocked_cycle(g@, pos@, j as int);
                    }
                    return None;
                }
                j = j + 1;
            }
            return Some((order, pos));
        }
    }
}


proof fn lemma_deepest_bounded(b: Seq<(usize, u64)>, t: Seq<u64>, bound: nat)
    requires
        forall|k: int| 0 <= k < b.len() ==> t[(#[trigger] b[k]).0 as int] <= bound,
    ensures
        deepest(b, t) <= bound,
    decreases b.len(),
{
    if b.len() > 0 {
        lemma_deepest_bounded(b.drop_last(), t, bound);
        assert(b[b.len() - 1] == b.last());
    }
}

proof fn lemma_cost_prefix(b: Seq<(usize, u64)>, t: Seq<u64>, j: int)
    requires
        0 <= j <= b.len(),
    ensures
        cost(b.take(j), t) <= cost(b, t),
    decreases b.len(),
{
    if j == b.len() {
        assert(b.take(j) =~= b);
    } else {
        lemma_cost_prefix(b.drop_last(), t, j);
        assert(b.drop_last().take(j) =~= b.take(j));
    }
}

/// The largest table entry among the ingredients in `b`.
fn deepest_of(b: &Vec<(usize, u64)>, t: &Vec<u64>) -> (r: u64)
    requires
        forall|k: int| 0 <= k < b@.len() ==> (#[trigger] b@[k]).0 < t@.len(),
    ensures
        r as nat == deepest(b@, t@),
{
    let mut acc: u64 = 0;
    let mut k: usize = 0;
    while k < b.len()
        invariant
            k <= b@.len(),
            forall|k: int| 0 <= k < b@.len() ==> (#[trigger] b@[k]).0 < t@.len(),
            acc as nat == deepest(b@.take(k as int), t@),
        decreases b.len() - k,
    {
        assert(b@.take(k + 1).drop_last() =~= b@.take(k as int));
        let x = t[b[k].0];
        if x > acc {
            acc = x;
        }
        k = k + 1;
    }
    assert(b@.take(k as int) =~= b@);
    acc
}

/// The cost of the recipe `b` at the prices `t`, or `None` when it exceeds `u64::MAX`.
fn cost_of(b: &Vec<(usize, u64)>, t: &Vec<u64>) -> (r: Option<u64>)
    requires
        forall|k: int| 0 <= k < b@.len() ==> (#[trigger] b@[k]).0 < t@.len(),
    ensures
        match r {
            Some(c) => c as nat == cost(b@, t@),
            None => cost(b@, t@) > u64::MAX,
        },
{
    let mut acc: u64 = 0;
    let mut k: usize = 0;
    while k < b.len()
        invariant
            k <= b@.len(),
            forall|k: int| 0 <= k < b@.len() ==> (#[trigger] b@[k]).0 < t@.len(),
            acc as nat == cost(b@.take(k as int), t@),
        decreases b.len() - k,
    {
        assert(b@.take(k + 1).drop_last() =~= b@.take(k as int));
        let (d, q) = b[k];
        let x = t[d];
        proof {
            lemma_cost_prefix(b@, t@, k + 1);
        }
        match q.checked_mul(x) {
            None => {
                return None;
            },
            Some(term) => match acc.checked_add(term) {
                None => {
                    return None;
                },
                Some(next) => {
                    acc = next;
                },
            },
        }
        k = k + 1;
    }
    assert(b@.take(k as int) =~= b@);
    Some(acc)
}

/// The smallest element of a non-empty vector.
fn least_of(s: &Vec<u64>) -> (r: u64)
    requires
        s@.len() > 0,
    ensures
        r as nat == least(s@),
{
    let mut acc: u64 = s[0];
    let mut k: usize = 1;
    assert(s@.take(1) =~= seq![s@[0]]);
    while k < s.len()
        invariant
            1 <= k <= s@.len(),
            acc as nat == least(s@.take(k as int)),
        decreases s.len() - k,
    {
        assert(s@.take(k + 1).drop_last() =~= s@.take(k as int));
        if s[k] < acc {
            acc = s[k];
        }
        k = k + 1;
    }
    assert(s@.take(k as int) =~= s@);
    acc
}

/// Crafting depth of item `i` from the depths `t` of its ingredients.
fn depth_of(g: &CraftingGraph, i: usize, t: &Vec<u64>) -> (r: u64)
    requires
        g@.wf(),
        i < g@.len(),
        t@.len() == g@.len(),
        forall|k: int|
            0 <= k < g@.ingredients(i as int).len() ==> t@[(
            #[trigger] g@.ingredients(i as int)[k]).0 as int] < u64::MAX,
    ensures
        r as nat == g@.depth_step(i as int, t@),
{
    assert(g@.recipes[i as int] == recipe_view(g.recipes@[i as int]));
    match &g.recipes[i] {
        None => 0,
        Some(b) => {
            proof {
                assert forall|k: int| 0 <= k < b@.len() implies (#[trigger] b@[k]).0 < t@.len() by {
                    assert(b@[k] == g@.ingredients(i as int)[k]);
                }
                let bound = (u64::MAX - 1) as nat;
                assert forall|k: int| 0 <= k < b@.len() implies t@[(#[trigger] b@[k]).0 as int]
                    <= bound by {
                    assert(b@[k] == g@.ingredients(i as int)[k]);
                }
                lemma_deepest_bounded(b@, t@, bound);
            }
            1 + deepest_of(b, t)
        },
    }
}

/// Rarity number of item `i` from the rarity numbers `t` of its ingredients, or
/// `None` when it exceeds `u64::MAX`.
fn rarity_of(g: &CraftingGraph, i: usize, t: &Vec<u64>) -> (r: Option<u64>)
    requires
        g@.wf(),
        i < g@.len(),
        t@.len() == g@.len(),
    ensures
        match r {
            Some(x) => x as nat == g@.rarity_step(i as int, t@),
            None => g@.rarity_step(i as int, t@) > u64::MAX,
        },
{
    assert(g@.recipes[i as int] == recipe_view(g.recipes@[i as int]));
    assert(g@.drops[i as int] == g.drops@[i as int]@);
    let drops = &g.drops[i];
    let dropped: Option<u64> = if drops.len() > 0 {
        Some(least_of(drops))
    } else {
        None
    };
    match &g.recipes[i] {
        None => match dropped {
            Some(x) => Some(x),
            None => Some(NO_SOURCE_RARITY),
        },
        Some(b) => {
            proof {
                assert forall|k: int| 0 <= k < b@.len() implies (#[trigger] b@[k]).0 < t@.len() by {
                    assert(b@[k] == g@.ingredients(i as int)[k]);
                }
            }
            match (dropped, cost_of(b, t)) {
                (Some(x), Some(c)) => if x < c {
                    Some(x)
                } else {
                    Some(c)
                },
                (Some(x), None) => Some(x),
                (None, Some(c)) => Some(c),
                (None, None) => None,
            }
        },
    }
}

/// Fills the depth and rarity tables in schedule order, each item once.
fn evaluate(g: &CraftingGraph, order: &Vec<usize>, pos: &Vec<usize>) -> (r: Result<
    (Vec<u64>, Vec<u64>),
    CatalogError,
>)
    requires
        g@.wf(),
        is_schedule(g@, order@, pos@),
    ensures
        match r {
            Ok((d, t)) => {
                &&& g@.is_depth_table(d@)
                &&& g@.is_rarity_table(t@)
                &&& forall|i: int| 0 <= i < g@.len() ==> #[trigger] d@[i] < g@.len()
            },
            Err(e) => e == CatalogError::Overflow && !exists|t: Seq<u64>| g@.is_rarity_table(t),
        },
{
    let n = g.recipes.len();
    let mut depths: Vec<u64> = Vec::new();
    let mut rarities: Vec<u64> = Vec::new();
    while depths.len() < n
        invariant
            depths@.len() <= n,
            rarities@.len() == depths@.len(),
        decreases n - depths.len(),
    {
        depths.push(0);
        rarities.push(0);
    }
    let mut p: usize = 0;
    while p < order.len()
        invariant
            g@.wf(),
            n == g@.len(),
            is_schedule(g@, order@, pos@),
            depths@.len() == n,
            rarities@.len() == n,
            forall|j: int|
                0 <= j < n && pos@[j] < p ==> {
                    &&& #[trigger] depths@[j] as nat == g@.depth_step(j, depths@)
                    &&& rarities@[j] as nat == g@.rarity_step(j, rarities@)
                    &&& depths@[j] <= pos@[j]
                },
        decreases order.len() - p,
    {
        let i = order[p];
        assert(pos@[i as int] == p);
        proof {
            assert forall|k: int|
                0 <= k < g@.ingredients(i as int).len() implies depths@[(
            #[trigger] g@.ingredients(i as int)[k]).0 as int] < u64::MAX by {
                let d = g@.ingredients(i as int)[k].0 as int;
                assert(pos@[d] < pos@[i as int]);
                assert(depths@[d] <= pos@[d]);
            }
        }
        let depth = depth_of(g, i, &depths);
        proof {
            if g@.craftable(i as int) {
                assert forall|k: int|
                    0 <= k < g@.ingredients(i as int).len() implies depths@[(
                #[trigger] g@.ingredients(i as int)[k]).0 as int] <= (p - 1) as nat by {
                    let d = g@.ingredients(i as int)[k].0 as int;
                    assert(pos@[d] < pos@[i as int]);
                    assert(depths@[d] <= pos@[d]);
                }
                lemma_deepest_bounded(g@.ingredients(i as int), depths@, (p - 1) as nat);
            }
        }
        let rarity = match rarity_of(g, i, &rarities) {
            Some(x) => x,
            None => {
                proof {
                    assert forall|t: Seq<u64>| !g@.is_rarity_table(t) by {
                        if g@.is_rarity_table(t) {
                            let rank = pos@.map_values(|x: usize| x as nat);
                            lemma_schedule_ranks(g@, order@, pos@);
                            assert forall|j: int| 0 <= j < g@.len() && rank[j] < p implies rarities@[j] as nat
                                == #[trigger] g@.step(false, j, rarities@) by {
                                assert(rank[j] == pos@[j] as nat);
                                assert(depths@[j] as nat == g@.depth_step(j, depths@));
                            }
                            assert forall|j: int| 0 <= j < g@.len() && rank[j] < p implies t[j] as nat
                                == #[trigger] g@.step(false, j, t) by {}
                            lemma_agree_below(g@, rank, false, rarities@, t, p as nat, p as nat);
                            assert forall|k: int|
                                0 <= k < g@.ingredients(i as int).len() implies rarities@[(
                            #[trigger] g@.ingredients(i as int)[k]).0 as int] == t[g@.ingredients(
                                i as int,
                            )[k].0 as int] by {
                                let d = g@.ingredients(i as int)[k].0 as int;
                                assert(pos@[d] < pos@[i as int]);
                                assert(rank[d] == pos@[d]);
                            }
                            lemma_step_congruent(g@, false, i as int, rarities@, t);
                            assert(t[i as int] as nat == g@.rarity_step(i as int, t));
                        }
                    }
                }
                return Err(CatalogError::Overflow);
            },
        };
        let ghost d0 = depths@;
        let ghost r0 = rarities@;
        depths.set(i, depth);
        rarities.set(i, rarity);
        proof {
            assert forall|j: int|
                0 <= j < n && pos@[j] <= p implies {
                &&& #[trigger] depths@[j] as nat == g@.depth_step(j, depths@)
                &&& rarities@[j] as nat == g@.rarity_step(j, rarities@)
                &&& depths@[j] <= pos@[j]
            } by {
                assert forall|k: int| 0 <= k < g@.ingredients(j).len() implies d0[(
                #[trigger] g@.ingredients(j)[k]).0 as int] == depths@[g@.ingredients(j)[k].0 as int]
                    && r0[g@.ingredients(j)[k].0 as int] == rarities@[g@.ingredients(j)[k].0 as int] by {
                    let d = g@.ingredients(j)[k].0 as int;
                    assert(pos@[d] < pos@[j]);
                    assert(d != i);
                }
                lemma_step_congruent(g@, true, j, d0, depths@);
                lemma_step_congruent(g@, false, j, r0, rarities@);
                if j != i {
                    assert(pos@[j] < p);
                    assert(d0[j] as nat == g@.depth_step(j, d0));
                    assert(depths@[j] == d0[j]);
                    assert(rarities@[j] == r0[j]);
                } else {
                    assert(depths@[j] == depth);
                    assert(rarities@[j] == rarity);
                }
            }
        }
        p = p + 1;
    }
    assert forall|j: int| 0 <= j < n implies #[trigger] depths@[j] as nat == g@.depth_step(j, depths@)
        && depths@[j] < n by {
        assert(pos@[j] < order@.len());
    }
    assert forall|j: int| 0 <= j < n implies #[trigger] rarities@[j] as nat == g@.rarity_step(
        j,
        rarities@,
    ) by {
        assert(pos@[j] < order@.len());
        assert(depths@[j] as nat == g@.depth_step(j, depths@));
    }
    Ok((depths, rarities))
}


/// Whether item `i`'s recipe and drop intervals are well formed.
fn item_wf(g: &CraftingGraph, i: usize) -> (r: bool)
    requires
        i < g@.len(),
        g@.drops.len() == g@.len(),
    ensures
        r == {
            &&& forall|k: int| 0 <= k < g@.drops[i as int].len() ==> #[trigger] g@.drops[i as int][k] > 0
            &&& g@.craftable(i as int) ==> g@.ingredients(i as int).len() > 0
            &&& forall|k: int|
                0 <= k < g@.ingredients(i as int).len() ==> {
                    &&& (#[trigger] g@.ingredients(i as int)[k]).0 < g@.len()
                    &&& g@.ingredients(i as int)[k].1 > 0
                }
        },
{
    let n = g.recipes.len();
    assert(g@.recipes[i as int] == recipe_view(g.recipes@[i as int]));
    assert(g@.drops[i as int] == g.drops@[i as int]@);
    let drops = &g.drops[i];
    let mut k: usize = 0;
    while k < drops.len()
        invariant
            i < g@.len(),
            g@.drops.len() == g@.len(),
            drops@ == g@.drops[i as int],
            k <= drops@.len(),
            forall|j: int| 0 <= j < k ==> #[trigger] drops@[j] > 0,
        decreases drops.len() - k,
    {
        if drops[k] == 0 {
            assert(g@.drops[i as int][k as int] == 0);
            return false;
        }
        k = k + 1;
    }
    match &g.recipes[i] {
        None => true,
        Some(b) => {
            if b.len() == 0 {
                assert(g@.craftable(i as int));
                return false;
            }
            let mut k: usize = 0;
            while k < b.len()
                invariant
                    k <= b@.len(),
                    n == g@.len(),
                    b@ == g@.ingredients(i as int),
                    forall|j: int| 0 <= j < k ==> (#[trigger] b@[j]).0 < n && b@[j].1 > 0,
                decreases b.len() - k,
            {
                if b[k].0 >= n || b[k].1 == 0 {
                    assert(b@[k as int] == g@.ingredients(i as int)[k as int]);
                    return false;
                }
                k = k + 1;
            }
            true
        },
    }
}

/// Whether the graph is well formed.
fn graph_wf(g: &CraftingGraph) -> (r: bool)
    ensures
        r == g@.wf(),
{
    if g.drops.len() != g.recipes.len() {
        return false;
    }
    let mut i: usize = 0;
    while i < g.recipes.len()
        invariant
            i <= g@.len(),
            g@.drops.len() == g@.len(),
            forall|j: int, k: int|
                0 <= j < i && 0 <= k < g@.drops[j].len() ==> #[trigger] g@.drops[j][k] > 0,
            forall|j: int| 0 <= j < i && #[trigger] g@.craftable(j) ==> g@.ingredients(j).len() > 0,
            forall|j: int, k: int|
                0 <= j < i && 0 <= k < g@.ingredients(j).len() ==> {
                    &&& (#[trigger] g@.ingredients(j)[k]).0 < g@.len()
                    &&& g@.ingredients(j)[k].1 > 0
                },
        decreases g.recipes.len() - i,
    {
        if !item_wf(g, i) {
            return false;
        }
        i = i + 1;
    }
    true
}

/// A validated crafting graph together with the crafting depth and the rarity
/// number of each of its items, each computed once.
pub struct Valuation {
    graph: CraftingGraph,
    depths: Vec<u64>,
    rarities: Vec<u64>,
}

impl Valuation {
    #[verifier::type_invariant]
    spec fn inv(self) -> bool {
        &&& self.graph@.wf()
        &&& self.graph@.acyclic()
        &&& self.graph@.is_depth_table(self.depths@)
        &&& self.graph@.is_rarity_table(self.rarities@)
        &&& forall|i: int| 0 <= i < self.graph@.len() ==> #[trigger] self.depths@[i] < self.graph@.len()
    }

    /// The graph that was validated.
    pub closed spec fn model(&self) -> GraphModel {
        self.graph@
    }

    /// The crafting depth of each item.
    pub closed spec fn depth_table(&self) -> Seq<u64> {
        self.depths@
    }

    /// The rarity number of each item.
    pub closed spec fn rarity_table(&self) -> Seq<u64> {
        self.rarities@
    }

    /// The facts that every valuation carries.
    pub open spec fn valid(&self) -> bool {
        &&& self.model().wf()
        &&& self.model().acyclic()
        &&& self.model().is_depth_table(self.depth_table())
        &&& self.model().is_rarity_table(self.rarity_table())
        &&& forall|i: int| 0 <= i < self.model().len() ==> #[trigger] self.depth_table()[i] < self.model().len()
    }

    /// Validates `graph` and computes the depth and rarity tables in one pass
    /// over a topological order of its items.
    pub fn new(graph: CraftingGraph) -> (r: Result<Valuation, CatalogError>)
        ensures
            match r {
                Ok(v) => v.model() == graph@ && v.valid(),
                Err(CatalogError::Malformed) => !graph@.wf(),
                Err(CatalogError::Cycle) => graph@.wf() && !graph@.acyclic(),
                Err(CatalogError::Overflow) => {
                    &&& graph@.wf()
                    &&& graph@.acyclic()
                    &&& !exists|t: Seq<u64>| graph@.is_rarity_table(t)
                },
            },
    {
        if !graph_wf(&graph) {
            return Err(CatalogError::Malformed);
        }
        match schedule(&graph) {
            None => Err(CatalogError::Cycle),
            Some((order, pos)) => {
                proof {
                    lemma_schedule_ranks(graph@, order@, pos@);
                }
                match evaluate(&graph, &order, &pos) {
                    Err(e) => Err(e),
                    Ok((depths, rarities)) => Ok(Valuation { graph, depths, rarities }),
                }
            },
        }
    }

    /// Number of items.
    pub fn len(&self) -> (r: usize)
        ensures
            r == self.model().len(),
            self.valid(),
    {
        proof {
            use_type_invariant(self);
        }
        self.graph.recipes.len()
    }

    /// Crafting depth of item `i`.
    pub fn depth(&self, i: usize) -> (r: u64)
        requires
            i < self.model().len(),
        ensures
            r == self.depth_table()[i as int],
            self.valid(),
    {
        proof {
            use_type_invariant(self);
        }
        self.depths[i]
    }

    /// Rarity number of item `i`.
    pub fn rarity(&self, i: usize) -> (r: u64)
        requires
            i < self.model().len(),
        ensures
            r == self.rarity_table()[i as int],
            self.valid(),
    {
        proof {
            use_type_invariant(self);
        }
        self.rarities[i]
    }
}

} // verus!
