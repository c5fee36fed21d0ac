//! The aggregator: applies updates in arrival order, last write wins per id,
//! and renders the bar after each one.
use vstd::prelude::*;
use crate::bar::{assemble_bar, fragments, ids_of, render};
use crate::results::ResultsMap;

verus! {

/// The latest value of one monitor, as sent by its loop.
pub struct Update {
    pub id: String,
    pub value: String,
}

/// The map after applying updates `us` (id, value) to `m`, one after another.
pub open spec fn apply_all(m: Map<Seq<char>, Seq<char>>, us: Seq<(Seq<char>, Seq<char>)>) -> Map<
    Seq<char>,
    Seq<char>,
>
    decreases us.len(),
{
    if us.len() == 0 {
        m
    } else {
        apply_all(m, us.drop_last()).insert(us.last().0, us.last().1)
    }
}

/// The values carried by the updates of `us` whose id is `k`, in arrival order.
pub open spec fn values_for(us: Seq<(Seq<char>, Seq<char>)>, k: Seq<char>) -> Seq<Seq<char>>
    decreases us.len(),
{
    if us.len() == 0 {
        Seq::empty()
    } else if us.last().0 == k {
        values_for(us.drop_last(), k).push(us.last().1)
    } else {
        values_for(us.drop_last(), k)
    }
}

/// `order` with every occurrence of `k` left out.
pub open spec fn without(order: Seq<Seq<char>>, k: Seq<char>) -> Seq<Seq<char>>
    decreases order.len(),
{
    if order.len() == 0 {
        order
    } else if order.last() == k {
        without(order.drop_last(), k)
    } else {
        without(order.drop_last(), k).push(order.last())
    }
}

/// After a sequence of updates, an id holds the value of its latest update;
/// an id that no update names keeps what it held before.
pub proof fn lemma_latest_value(
    m: Map<Seq<char>, Seq<char>>,
    us: Seq<(Seq<char>, Seq<char>)>,
    k: Seq<char>,
)
    ensures
        apply_all(m, us).contains_key(k) == (m.contains_key(k) || values_for(us, k).len() > 0),
        values_for(us, k).len() > 0 ==> apply_all(m, us)[k] == values_for(us, k).last(),
        values_for(us, k).len() == 0 && m.contains_key(k) ==> apply_all(m, us)[k] == m[k],
    decreases us.len(),
{
    if us.len() > 0 {
        lemma_latest_value(m, us.drop_last(), k);
    }
}

/// The rendered bar depends on the updates of each id and their order among
/// themselves only: interleaving the updates of distinct ids differently
/// renders the same bar.
pub proof fn lemma_render_independent_of_interleaving(
    order: Seq<Seq<char>>,
    m: Map<Seq<char>, Seq<char>>,
    us1: Seq<(Seq<char>, Seq<char>)>,
    us2: Seq<(Seq<char>, Seq<char>)>,
)
    requires
        forall|k: Seq<char>| #[trigger] values_for(us1, k) == values_for(us2, k),
    ensures
        apply_all(m, us1) == apply_all(m, us2),
        render(order, apply_all(m, us1)) == render(order, apply_all(m, us2)),
{
    assert forall|k: Seq<char>|
        #![trigger apply_all(m, us1).contains_key(k)]
        #![trigger apply_all(m, us2).contains_key(k)]
        apply_all(m, us1).contains_key(k) == apply_all(m, us2).contains_key(k) && (apply_all(
            m,
            us1,
        ).contains_key(k) ==> apply_all(m, us1)[k] == apply_all(m, us2)[k]) by {
        lemma_latest_value(m, us1, k);
        lemma_latest_value(m, us2, k);
        assert(values_for(us1, k) == values_for(us2, k));
    }
    assert(apply_all(m, us1) =~= apply_all(m, us2));
}

/// Delivering the same update twice in a row renders the same bar as
/// delivering it once.
pub proof fn lemma_redelivery_idempotent(
    order: Seq<Seq<char>>,
    m: Map<Seq<char>, Seq<char>>,
    us: Seq<(Seq<char>, Seq<char>)>,
    u: (Seq<char>, Seq<char>),
)
    ensures
        apply_all(m, us.push(u).push(u)) == apply_all(m, us.push(u)),
        render(order, apply_all(m, us.push(u).push(u))) == render(order, apply_all(m, us.push(u))),
{
    assert(us.push(u).push(u).drop_last() =~= us.push(u));
    assert(us.push(u).drop_last() =~= us);
    assert(apply_all(m, us.push(u)).insert(u.0, u.1) =~= apply_all(m, us.push(u)));
}

/// An id without a value contributes nothing: the bar is the one rendered
/// as if that id were not in the order at all.
pub proof fn lemma_absent_id_not_rendered(
    order: Seq<Seq<char>>,
    m: Map<Seq<char>, Seq<char>>,
    k: Seq<char>,
)
    requires
        !m.contains_key(k),
    ensures
        fragments(order, m) == fragments(without(order, k), m),
        render(order, m) == render(without(order, k), m),
    decreases order.len(),
{
    if order.len() > 0 {
        lemma_absent_id_not_rendered(order.drop_last(), m, k);
        if order.last() != k {
            let w = without(order, k);
            assert(w.drop_last() =~= without(order.drop_last(), k));
        }
    }
}

/// A monitor that sends no update is never shown: if no update names `k`
/// and `k` held no value, the bar is rendered as if `k` were not in the order.
pub proof fn lemma_silent_monitor_never_rendered(
    order: Seq<Seq<char>>,
    m: Map<Seq<char>, Seq<char>>,
    us: Seq<(Seq<char>, Seq<char>)>,
    k: Seq<char>,
)
    requires
        !m.contains_key(k),
        forall|i: int| 0 <= i < us.len() ==> (#[trigger] us[i]).0 != k,
    ensures
        !apply_all(m, us).contains_key(k),
        render(order, apply_all(m, us)) == render(without(order, k), apply_all(m, us)),
    decreases us.len(),
{
    if us.len() > 0 {
        assert forall|i: int| 0 <= i < us.drop_last().len() implies (
        #[trigger] us.drop_last()[i]).0 != k by {
            assert(us.drop_last()[i] == us[i]);
        }
        lemma_silent_monitor_never_rendered(order, m, us.drop_last(), k);
        assert(us[us.len() - 1].0 != k);
    }
    lemma_absent_id_not_rendered(order, apply_all(m, us), k);
}

/// The single consumer of updates: holds the priority order and the latest
/// value of each id.
pub struct Aggregator {
    order: Vec<String>,
    results: ResultsMap,
}

impl Aggregator {
    /// The priority order, as character sequences.
    pub closed spec fn order(&self) -> Seq<Seq<char>> {
        ids_of(self.order@)
    }

    /// The latest value of each id that has reported.
    pub closed spec fn results(&self) -> Map<Seq<char>, Seq<char>> {
        self.results@
    }

    pub closed spec fn wf(&self) -> bool {
        self.results.wf()
    }

    /// An aggregator for priority order `order`, in which nothing has reported.
    pub fn new(order: Vec<String>) -> (r: Aggregator)
        ensures
            r.wf(),
            r.order() == ids_of(order@),
            r.results() == Map::<Seq<char>, Seq<char>>::empty(),
    {
        Aggregator { order, results: ResultsMap::new() }
    }

    /// The bar for the values received so far.
    pub fn render(&self) -> (r: String)
        requires
            self.wf(),
        ensures
            r@ == render(self.order(), self.results()),
    {
        assemble_bar(&self.order, &self.results)
    }

    /// Records `update` as the latest value of its id, an empty value
    /// included, and returns the bar rendered after it.
    pub fn apply(&mut self, update: Update) -> (r: String)
        requires
            old(self).wf(),
        ensures
            final(self).wf(),
            final(self).order() == old(self).order(),
            final(self).results() == old(self).results().insert(update.id@, update.value@),
            r@ == render(final(self).order(), final(self).results()),
    {
        self.results.insert(update.id, update.value);
        assemble_bar(&self.order, &self.results)
    }
}

} // verus!
