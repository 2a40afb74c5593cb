use vstd::prelude::*;

verus! {

/// Rarity number of an item that can neither drop nor be crafted.
pub const NO_SOURCE_RARITY: u64 = 25000;

/// Mathematical model of a crafting graph over the items `0..len()`.
pub struct GraphModel {
    /// For each item, its recipe as (ingredient, quantity) pairs, if it has one.
    pub recipes: Seq<Option<Seq<(usize, u64)>>>,
    /// For each item, the expected ticks per drop of every occupation that yields it.
    pub drops: Seq<Seq<u64>>,
}

/// The larger of the table entries of the ingredients in `b` (zero when `b` is empty).
pub open spec fn deepest(b: Seq<(usize, u64)>, t: Seq<u64>) -> nat
    decreases b.len(),
{
    if b.len() == 0 {
        0
    } else {
        let rest = deepest(b.drop_last(), t);
        let last = t[b.last().0 as int] as nat;
        if last > rest {
            last
        } else {
            rest
        }
    }
}

/// The sum of quantity times table entry over the ingredients in `b`.
pub open spec fn cost(b: Seq<(usize, u64)>, t: Seq<u64>) -> nat
    decreases b.len(),
{
    if b.len() == 0 {
        0
    } else {
        cost(b.drop_last(), t) + b.last().1 as nat * t[b.last().0 as int] as nat
    }
}

/// The smallest element of a non-empty sequence.
pub open spec fn least(s: Seq<u64>) -> nat
    decreases s.len(),
{
    if s.len() <= 1 {
        if s.len() == 0 {
            0
        } else {
            s[0] as nat
        }
    } else {
        let rest = least(s.drop_last());
        if (s.last() as nat) < rest {
            s.last() as nat
        } else {
            rest
        }
    }
}

impl GraphModel {
    /// Number of items.
    pub open spec fn len(self) -> nat {
        self.recipes.len()
    }

    /// Item `i` has a recipe.
    pub open spec fn craftable(self, i: int) -> bool {
        self.recipes[i] is Some
    }

    /// The recipe of item `i`, empty when it has none.
    pub open spec fn ingredients(self, i: int) -> Seq<(usize, u64)> {
        match self.recipes[i] {
            Some(b) => b,
            None => Seq::empty(),
        }
    }

    /// Every ingredient is an item of the graph with a positive quantity, every
    /// recipe has an ingredient, and every drop interval is positive.
    pub open spec fn wf(self) -> bool {
        &&& self.drops.len() == self.recipes.len()
        &&& forall|i: int, k: int|
            0 <= i < self.len() && 0 <= k < self.drops[i].len() ==> #[trigger] self.drops[i][k] > 0
        &&& forall|i: int| 0 <= i < self.len() && #[trigger] self.craftable(i) ==> self.ingredients(i).len() > 0
        &&& forall|i: int, k: int|
            0 <= i < self.len() && 0 <= k < self.ingredients(i).len() ==> {
                &&& (#[trigger] self.ingredients(i)[k]).0 < self.len()
                &&& self.ingredients(i)[k].1 > 0
            }
    }

    /// `rank` gives each item a number above the numbers of all its ingredients.
    pub open spec fn is_ranking(self, rank: Seq<nat>) -> bool {
        &&& rank.len() == self.len()
        &&& forall|i: int, k: int|
            0 <= i < self.len() && 0 <= k < self.ingredients(i).len() ==> rank[(
            #[trigger] self.ingredients(i)[k]).0 as int] < rank[i]
    }

    /// No item requires itself, directly or through other recipes.
    pub open spec fn acyclic(self) -> bool {
        exists|rank: Seq<nat>| self.is_ranking(rank)
    }

    /// Crafting depth of item `i`, given the depths `t` of its ingredients.
    pub open spec fn depth_step(self, i: int, t: Seq<u64>) -> nat {
        if self.craftable(i) {
            1 + deepest(self.ingredients(i), t)
        } else {
            0
        }
    }

    /// Rarity number of item `i`, given the rarity numbers `t` of its ingredients:
    /// the least of its drop intervals and its recipe's cost.
    pub open spec fn rarity_step(self, i: int, t: Seq<u64>) -> nat {
        let drops = self.drops[i];
        if self.craftable(i) {
            let c = cost(self.ingredients(i), t);
            if drops.len() > 0 && least(drops) < c {
                least(drops)
            } else {
                c
            }
        } else if drops.len() > 0 {
            least(drops)
        } else {
            NO_SOURCE_RARITY as nat
        }
    }

    /// The depth step when `depth` holds, else the rarity step.
    pub open spec fn step(self, depth: bool, i: int, t: Seq<u64>) -> nat {
        if depth {
            self.depth_step(i, t)
        } else {
            self.rarity_step(i, t)
        }
    }

    /// `t` holds the crafting depth of every item.
    pub open spec fn is_depth_table(self, t: Seq<u64>) -> bool {
        &&& t.len() == self.len()
        &&& forall|i: int| 0 <= i < self.len() ==> #[trigger] t[i] as nat == self.depth_step(i, t)
    }

    /// `t` holds the rarity number of every item.
    pub open spec fn is_rarity_table(self, t: Seq<u64>) -> bool {
        &&& t.len() == self.len()
        &&& forall|i: int| 0 <= i < self.len() ==> #[trigger] t[i] as nat == self.rarity_step(i, t)
    }

    /// `t` is the depth table when `depth` holds, else the rarity table.
    pub open spec fn is_table(self, depth: bool, t: Seq<u64>) -> bool {
        if depth {
            self.is_depth_table(t)
        } else {
            self.is_rarity_table(t)
        }
    }
}

proof fn lemma_deepest_congruent(b: Seq<(usize, u64)>, t1: Seq<u64>, t2: Seq<u64>)
    requires
        forall|k: int| 0 <= k < b.len() ==> t1[(#[trigger] b[k]).0 as int] == t2[b[k].0 as int],
    ensures
        deepest(b, t1) == deepest(b, t2),
    decreases b.len(),
{
    if b.len() > 0 {
        lemma_deepest_congruent(b.drop_last(), t1, t2);
    }
}

proof fn lemma_cost_congruent(b: Seq<(usize, u64)>, t1: Seq<u64>, t2: Seq<u64>)
    requires
        forall|k: int| 0 <= k < b.len() ==> t1[(#[trigger] b[k]).0 as int] == t2[b[k].0 as int],
    ensures
        cost(b, t1) == cost(b, t2),
    decreases b.len(),
{
    if b.len() > 0 {
        lemma_cost_congruent(b.drop_last(), t1, t2);
    }
}

/// The step of item `i` reads only the entries of its ingredients.
pub(crate) proof fn lemma_step_congruent(g: GraphModel, depth: bool, i: int, t1: Seq<u64>, t2: Seq<u64>)
    requires
        forall|k: int|
            0 <= k < g.ingredients(i).len() ==> t1[(#[trigger] g.ingredients(i)[k]).0 as int]
                == t2[g.ingredients(i)[k].0 as int],
    ensures
        g.step(depth, i, t1) == g.step(depth, i, t2),
{
    lemma_deepest_congruent(g.ingredients(i), t1, t2);
    lemma_cost_congruent(g.ingredients(i), t1, t2);
}

/// Two tables that both satisfy the equations on the items ranked below `bound`
/// agree on the items ranked at most `m` below it.
pub(crate) proof fn lemma_agree_below(
    g: GraphModel,
    rank: Seq<nat>,
    depth: bool,
    t1: Seq<u64>,
    t2: Seq<u64>,
    bound: nat,
    m: nat,
)
    requires
        g.wf(),
        g.is_ranking(rank),
        t1.len() == g.len(),
        t2.len() == g.len(),
        forall|i: int|
            0 <= i < g.len() && rank[i] < bound ==> t1[i] as nat == #[trigger] g.step(depth, i, t1),
        forall|i: int|
            0 <= i < g.len() && rank[i] < bound ==> t2[i] as nat == #[trigger] g.step(depth, i, t2),
    ensures
        forall|i: int| 0 <= i < g.len() && rank[i] < bound && rank[i] <= m ==> #[trigger] t1[i] == t2[i],
    decreases m,
{
    if m > 0 {
        lemma_agree_below(g, rank, depth, t1, t2, bound, (m - 1) as nat);
    }
    assert forall|i: int| 0 <= i < g.len() && rank[i] < bound && rank[i] <= m implies #[trigger] t1[i]
        == t2[i] by {
        assert forall|k: int| 0 <= k < g.ingredients(i).len() implies t1[(
        #[trigger] g.ingredients(i)[k]).0 as int] == t2[g.ingredients(i)[k].0 as int] by {
            let d = g.ingredients(i)[k].0 as int;
            assert(rank[d] < rank[i]);
        }
        lemma_step_congruent(g, depth, i, t1, t2);
        assert(t1[i] as nat == g.step(depth, i, t1));
        assert(t2[i] as nat == g.step(depth, i, t2));
    }
}

/// On an acyclic graph the crafting depths and the rarity numbers are each
/// determined by the graph alone: two tables that satisfy the equations are equal.
pub proof fn lemma_tables_unique(g: GraphModel, depth: bool, t1: Seq<u64>, t2: Seq<u64>)
    requires
        g.wf(),
        g.acyclic(),
        g.is_table(depth, t1),
        g.is_table(depth, t2),
    ensures
        t1 == t2,
{
    let rank = choose|rank: Seq<nat>| g.is_ranking(rank);
    assert forall|i: int| 0 <= i < g.len() implies t1[i] == t2[i] by {
        lemma_agree_below(g, rank, depth, t1, t2, rank[i] + 1, rank[i]);
    }
    assert(t1 =~= t2);
}


/// Crafting depth is zero exactly for the items without a recipe.
pub proof fn lemma_depth_zero_iff_uncraftable(g: GraphModel, t: Seq<u64>, i: int)
    requires
        g.is_depth_table(t),
        0 <= i < g.len(),
    ensures
        t[i] == 0 <==> !g.craftable(i),
{
    assert(t[i] as nat == g.depth_step(i, t));
}

proof fn lemma_least_positive(s: Seq<u64>)
    requires
        s.len() > 0,
        forall|k: int| 0 <= k < s.len() ==> #[trigger] s[k] > 0,
    ensures
        least(s) >= 1,
    decreases s.len(),
{
    if s.len() > 1 {
        lemma_least_positive(s.drop_last());
    }
}

proof fn lemma_cost_positive(b: Seq<(usize, u64)>, t: Seq<u64>)
    requires
        b.len() > 0,
        forall|k: int| 0 <= k < b.len() ==> (#[trigger] b[k]).1 > 0 && t[b[k].0 as int] > 0,
    ensures
        cost(b, t) >= 1,
    decreases b.len(),
{
    if b.len() > 1 {
        lemma_cost_positive(b.drop_last(), t);
    }
    let last = b.last();
    assert(b[b.len() - 1] == last);
    assert(last.1 as nat * t[last.0 as int] as nat >= 1) by (nonlinear_arith)
        requires
            last.1 > 0,
            t[last.0 as int] > 0,
    ;
}

proof fn lemma_rarity_positive_below(g: GraphModel, rank: Seq<nat>, t: Seq<u64>, m: nat)
    requires
        g.wf(),
        g.is_ranking(rank),
        g.is_rarity_table(t),
    ensures
        forall|i: int| 0 <= i < g.len() && rank[i] <= m ==> #[trigger] t[i] >= 1,
    decreases m,
{
    if m > 0 {
        lemma_rarity_positive_below(g, rank, t, (m - 1) as nat);
    }
    assert forall|i: int| 0 <= i < g.len() && rank[i] <= m implies #[trigger] t[i] >= 1 by {
        let drops = g.drops[i];
        if drops.len() > 0 {
            assert forall|k: int| 0 <= k < drops.len() implies #[trigger] drops[k] > 0 by {
                assert(g.drops[i][k] > 0);
            }
            lemma_least_positive(drops);
        }
        if g.craftable(i) {
            let b = g.ingredients(i);
            assert forall|k: int| 0 <= k < b.len() implies (#[trigger] b[k]).1 > 0 && t[b[k].0 as int]
                > 0 by {
                assert(g.ingredients(i)[k].1 > 0);
                assert(rank[b[k].0 as int] < rank[i]);
            }
            lemma_cost_positive(b, t);
        }
        assert(t[i] as nat == g.rarity_step(i, t));
    }
}

/// Every rarity number is at least one.
pub proof fn lemma_rarity_positive(g: GraphModel, t: Seq<u64>, i: int)
    requires
        g.wf(),
        g.acyclic(),
        g.is_rarity_table(t),
        0 <= i < g.len(),
    ensures
        t[i] >= 1,
{
    let rank = choose|rank: Seq<nat>| g.is_ranking(rank);
    lemma_rarity_positive_below(g, rank, t, rank[i]);
}


/// Two items that each require the other form a cycle, so a graph holding them
/// is not acyclic and its validation fails.
pub proof fn lemma_mutual_requirement_is_cycle(g: GraphModel, x: int, y: int, kx: int, ky: int)
    requires
        0 <= x < g.len(),
        0 <= y < g.len(),
        0 <= kx < g.ingredients(x).len(),
        0 <= ky < g.ingredients(y).len(),
        g.ingredients(x)[kx].0 == y,
        g.ingredients(y)[ky].0 == x,
    ensures
        !g.acyclic(),
{
    if g.acyclic() {
        let rank = choose|rank: Seq<nat>| g.is_ranking(rank);
        assert(rank[y] < rank[x]);
        assert(rank[x] < rank[y]);
    }
}

} // verus!
