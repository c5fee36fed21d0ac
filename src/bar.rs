//! Rendering of the bar: the visible fragments, in priority order, joined by
//! a separator and padded with one space on each side.
use vstd::prelude::*;
use vstd::string::StringExecFns;
use crate::results::ResultsMap;

verus! {

/// The text placed between two visible fragments.
pub open spec fn separator() -> Seq<char> {
    seq![' ', '|', ' ']
}

/// The ids of `order` as character sequences.
pub open spec fn ids_of(order: Seq<String>) -> Seq<Seq<char>> {
    order.map_values(|s: String| s@)
}

/// The fragments shown for `order`: the value of each id in turn, kept when
/// the id has reported and its value is not empty.
pub open spec fn fragments(order: Seq<Seq<char>>, m: Map<Seq<char>, Seq<char>>) -> Seq<Seq<char>>
    decreases order.len(),
{
    if order.len() == 0 {
        Seq::empty()
    } else {
        let prev = fragments(order.drop_last(), m);
        let id = order.last();
        if m.contains_key(id) && m[id].len() > 0 {
            prev.push(m[id])
        } else {
            prev
        }
    }
}

/// `parts` joined by `sep`.
pub open spec fn join(parts: Seq<Seq<char>>, sep: Seq<char>) -> Seq<char>
    decreases parts.len(),
{
    if parts.len() == 0 {
        Seq::empty()
    } else if parts.len() == 1 {
        parts[0]
    } else {
        join(parts.drop_last(), sep) + sep + parts.last()
    }
}

/// The bar for priority order `order` and latest values `m`.
pub open spec fn render(order: Seq<Seq<char>>, m: Map<Seq<char>, Seq<char>>) -> Seq<char> {
    seq![' '] + join(fragments(order, m), separator()) + seq![' ']
}

/// Renders the bar: the non-empty latest values of the ids of `order`, in
/// that order, joined by `" | "`, with one leading and one trailing space.
pub fn assemble_bar(order: &Vec<String>, results: &ResultsMap) -> (r: String)
    requires
        results.wf(),
    ensures
        r@ == render(ids_of(order@), results@),
{
    let ghost ids = ids_of(order@);
    let mut body = String::new();
    let mut count: usize = 0;
    let mut i: usize = 0;
    proof {
        reveal_strlit(" | ");
        reveal_strlit(" ");
        assert(ids.take(0) =~= Seq::<Seq<char>>::empty());
    }
    while i < order.len()
        invariant
            i <= order@.len(),
            ids == ids_of(order@),
            results.wf(),
            count == fragments(ids.take(i as int), results@).len(),
            count <= i,
            body@ == join(fragments(ids.take(i as int), results@), separator()),
            " | "@ == separator(),
        decreases order@.len() - i,
    {
        let ghost before = fragments(ids.take(i as int), results@);
        assert(ids.take(i + 1).drop_last() =~= ids.take(i as int));
        match results.get(&order[i]) {
            Some(v) => {
                if !v.as_str().is_empty() {
                    if count > 0 {
                        body.append(" | ");
                    }
                    body.append(v.as_str());
                    count = count + 1;
                    proof {
                        assert(before.push(v@).drop_last() =~= before);
                    }
                }
            },
            None => {},
        }
        i = i + 1;
    }
    assert(ids.take(order@.len() as int) =~= ids);
    let mut out = String::from_str(" ");
    out.append(body.as_str());
    out.append(" ");
    assert(out@ =~= render(ids, results@));
    out
}

} // verus!
