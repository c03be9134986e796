//! The rules of the SQL functions that build Python containers from their
//! arguments.
use vstd::prelude::*;

verus! {

/// The items of a list of pairs, each pair's key followed by its value.
pub open spec fn flatten_pairs<A>(pairs: Seq<(A, A)>) -> Seq<A>
    decreases pairs.len(),
{
    if pairs.len() == 0 {
        Seq::empty()
    } else {
        flatten_pairs(pairs.drop_last()).push(pairs.last().0).push(pairs.last().1)
    }
}

/// `pairs` takes the items of `items` two by two: key, then value.
pub open spec fn pairs_of<A>(items: Seq<A>, pairs: Seq<(A, A)>) -> bool {
    &&& items.len() == 2 * pairs.len()
    &&& forall|i: int|
        0 <= i < pairs.len() ==> #[trigger] pairs[i] == (items[2 * i], items[2 * i + 1])
}

/// The arguments of `py_dict(k1, v1, k2, v2, ...)` taken as key/value pairs,
/// in order. An odd number of arguments is not handled.
pub fn pair_entries<T>(items: Vec<T>) -> (r: Vec<(T, T)>)
    requires
        items@.len() % 2 == 0,
    ensures
        pairs_of(items@, r@),
{
    let ghost all = items@;
    let mut r: Vec<(T, T)> = Vec::new();
    let mut key: Option<T> = None;
    for x in it: items.into_iter()
        invariant
            it.seq() == all,
            all.len() % 2 == 0,
            it.index() % 2 == 0 ==> key is None && r@.len() * 2 == it.index(),
            it.index() % 2 == 1 ==> key == Some(all[it.index() - 1]) && r@.len() * 2 + 1
                == it.index(),
            forall|i: int|
                0 <= i < r@.len() ==> #[trigger] r@[i] == (all[2 * i], all[2 * i + 1]),
    {
        match key {
            Some(k) => {
                r.push((k, x));
                key = None;
            },
            None => {
                key = Some(x);
            },
        }
    }
    r
}

/// Pairing loses and adds nothing: the pairs, key then value, give back the
/// items in their order.
pub proof fn law_pairs_flatten_back<A>(items: Seq<A>, pairs: Seq<(A, A)>)
    requires
        pairs_of(items, pairs),
    ensures
        flatten_pairs(pairs) == items,
    decreases pairs.len(),
{
    if pairs.len() > 0 {
        let n = pairs.len();
        let front = items.subrange(0, 2 * (n - 1));
        assert(pairs_of(front, pairs.drop_last()));
        law_pairs_flatten_back(front, pairs.drop_last());
        assert(items =~= front.push(items[2 * (n - 1)]).push(items[2 * (n - 1) + 1]));
    } else {
        assert(items =~= Seq::<A>::empty());
    }
}

} // verus!
