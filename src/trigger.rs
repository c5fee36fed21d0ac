//! Manual triggers: a file created in the trigger directory names the
//! monitor to re-run. Names outside the priority order are dropped, and one
//! debounced batch of file events wakes each monitor at most once.
use vstd::prelude::*;
use crate::bar::ids_of;

verus! {

/// The ids that one batch of file names `names` wakes: each name of `order`,
/// once, in the order of its first appearance in the batch.
pub open spec fn batch_targets(order: Seq<Seq<char>>, names: Seq<Seq<char>>) -> Seq<Seq<char>>
    decreases names.len(),
{
    if names.len() == 0 {
        Seq::empty()
    } else {
        let prev = batch_targets(order, names.drop_last());
        let n = names.last();
        if order.contains(n) && !prev.contains(n) {
            prev.push(n)
        } else {
            prev
        }
    }
}

/// The monitor id that a trigger file named `name` addresses: `name` itself
/// when it is an id of `order`, and nothing otherwise.
pub fn trigger_target(order: &Vec<String>, name: &String) -> (r: Option<String>)
    ensures
        r is Some <==> ids_of(order@).contains(name@),
        r matches Some(t) ==> t@ == name@,
{
    let ghost ids = ids_of(order@);
    let mut i: usize = 0;
    while i < order.len()
        invariant
            i <= order@.len(),
            ids == ids_of(order@),
            forall|j: int| 0 <= j < i ==> #[trigger] ids[j] != name@,
        decreases order@.len() - i,
    {
        if order[i] == *name {
            assert(ids[i as int] == name@);
            return Some(order[i].clone());
        }
        i = i + 1;
    }
    assert(!ids.contains(name@));
    None
}

/// Whether `ids` holds an entry equal to `id`.
fn contains_id(ids: &Vec<String>, id: &String) -> (r: bool)
    ensures
        r == ids_of(ids@).contains(id@),
{
    let ghost v = ids_of(ids@);
    let mut i: usize = 0;
    while i < ids.len()
        invariant
            i <= ids@.len(),
            v == ids_of(ids@),
            forall|j: int| 0 <= j < i ==> #[trigger] v[j] != id@,
        decreases ids@.len() - i,
    {
        if ids[i] == *id {
            assert(v[i as int] == id@);
            return true;
        }
        i = i + 1;
    }
    false
}

/// The monitor ids to wake for one debounced batch of created file names:
/// names that are not ids of `order` are dropped, and each id is woken once
/// however often its file appeared in the batch.
pub fn coalesce_batch(order: &Vec<String>, names: &Vec<String>) -> (r: Vec<String>)
    ensures
        ids_of(r@) == batch_targets(ids_of(order@), ids_of(names@)),
{
    let ghost ord = ids_of(order@);
    let ghost ns = ids_of(names@);
    let mut out: Vec<String> = Vec::new();
    let mut i: usize = 0;
    assert(ns.take(0) =~= Seq::<Seq<char>>::empty());
    assert(ids_of(out@) =~= Seq::<Seq<char>>::empty());
    while i < names.len()
        invariant
            i <= names@.len(),
            ord == ids_of(order@),
            ns == ids_of(names@),
            ids_of(out@) == batch_targets(ord, ns.take(i as int)),
        decreases names@.len() - i,
    {
        assert(ns.take(i + 1).drop_last() =~= ns.take(i as int));
        match trigger_target(order, &names[i]) {
            Some(t) => {
                if !contains_id(&out, &t) {
                    let ghost before = out@;
                    out.push(t);
                    assert(ids_of(out@) =~= ids_of(before).push(ns[i as int]));
                }
            },
            None => {},
        }
        i = i + 1;
    }
    assert(ns.take(names@.len() as int) =~= ns);
    out
}

/// A batch wakes only ids of the order that appear in the batch, each at
/// most once, and wakes every id of the order that appears in it; names
/// outside the order wake nothing.
pub proof fn lemma_batch_targets(order: Seq<Seq<char>>, names: Seq<Seq<char>>)
    ensures
        batch_targets(order, names).no_duplicates(),
        forall|i: int|
            0 <= i < batch_targets(order, names).len() ==> order.contains(
                #[trigger] batch_targets(order, names)[i],
            ) && names.contains(batch_targets(order, names)[i]),
        forall|j: int|
            0 <= j < names.len() && order.contains(#[trigger] names[j]) ==> batch_targets(
                order,
                names,
            ).contains(names[j]),
    decreases names.len(),
{
    if names.len() > 0 {
        let prev = names.drop_last();
        lemma_batch_targets(order, prev);
        let b = batch_targets(order, names);
        let pb = batch_targets(order, prev);
        assert forall|i: int| 0 <= i < b.len() implies order.contains(#[trigger] b[i]) && names.contains(
            b[i],
        ) by {
            if i < pb.len() {
                assert(b[i] == pb[i]);
                let j = choose|j: int| 0 <= j < prev.len() && prev[j] == pb[i];
                assert(names[j] == prev[j]);
            } else {
                assert(names[names.len() - 1] == names.last());
            }
        }
        assert forall|j: int| 0 <= j < names.len() && order.contains(#[trigger] names[j]) implies b.contains(
            names[j],
        ) by {
            if j < prev.len() {
                assert(prev[j] == names[j]);
                let k = choose|k: int| 0 <= k < pb.len() && pb[k] == prev[j];
                assert(b[k] == pb[k]);
            } else if pb.contains(names[j]) {
                let k = choose|k: int| 0 <= k < pb.len() && pb[k] == names[j];
                assert(b[k] == pb[k]);
            } else {
                assert(b[b.len() - 1] == names[j]);
            }
        }
    }
}

/// A burst in which the file of one id of the order was created any number
/// of times wakes that id exactly once.
pub proof fn lemma_burst_wakes_once(order: Seq<Seq<char>>, names: Seq<Seq<char>>, n: Seq<char>)
    requires
        names.len() > 0,
        order.contains(n),
        forall|i: int| 0 <= i < names.len() ==> #[trigger] names[i] == n,
    ensures
        batch_targets(order, names) == seq![n],
    decreases names.len(),
{
    let prev = names.drop_last();
    if prev.len() == 0 {
        assert(batch_targets(order, prev) =~= Seq::<Seq<char>>::empty());
        assert(batch_targets(order, names) =~= seq![n]);
    } else {
        assert forall|i: int| 0 <= i < prev.len() implies #[trigger] prev[i] == n by {
            assert(prev[i] == names[i]);
        }
        lemma_burst_wakes_once(order, prev, n);
        assert(names.last() == names[names.len() - 1]);
        assert(seq![n].contains(n)) by {
            assert(seq![n][0] == n);
        }
    }
}

} // verus!
