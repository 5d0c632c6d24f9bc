//! Converting, keeping and cloning the items of lists.

use vstd::prelude::*;

use crate::catalog::missing;
use crate::convert::{clone_first, convert_all, convert_refs, keep_successes, successes};

verus! {

/// `places` are the places of the chosen ones among `items`: of all of them, of
/// no others, and in order.
pub open spec fn places_of<A>(places: Seq<int>, items: Seq<A>, chosen: spec_fn(A) -> bool) -> bool {
    &&& forall|k: int|
        0 <= k < places.len() ==> 0 <= #[trigger] places[k] < items.len() && chosen(
            items[places[k]],
        )
    &&& forall|k: int, l: int| 0 <= k < l < places.len() ==> places[k] < places[l]
    &&& forall|i: int| 0 <= i < items.len() && chosen(#[trigger] items[i]) ==> places.contains(i)
}

proof fn lemma_one_more_place<A>(
    places: Seq<int>,
    items: Seq<A>,
    chosen: spec_fn(A) -> bool,
) -> (more: Seq<int>)
    requires
        items.len() > 0,
        places_of(places, items.drop_last(), chosen),
    ensures
        places_of(more, items, chosen),
        more == if chosen(items.last()) {
            places.push(items.len() - 1)
        } else {
            places
        },
{
    let last = items.len() - 1;
    let before = items.drop_last();
    let more = if chosen(items.last()) {
        places.push(last)
    } else {
        places
    };
    assert forall|k: int| 0 <= k < more.len() implies 0 <= #[trigger] more[k] < items.len()
        && chosen(items[more[k]]) by {
        if k < places.len() {
            assert(more[k] == places[k]);
            assert(before[places[k]] == items[places[k]]);
        }
    }
    assert forall|i: int| 0 <= i < items.len() && chosen(#[trigger] items[i]) implies more.contains(
        i,
    ) by {
        if i < last {
            assert(before[i] == items[i]);
            let k = choose|k: int| 0 <= k < places.len() && places[k] == i;
            assert(more[k] == i);
        } else {
            assert(more[places.len() as int] == i);
        }
    }
    more
}

/// The successes among results are those at their places, in the order of the
/// results.
pub proof fn law_successes_keep_their_order<T, E>(results: Seq<Result<T, E>>) -> (places: Seq<int>)
    ensures
        places_of(places, results, |r: Result<T, E>| r is Ok),
        successes(results).len() == places.len(),
        forall|k: int|
            0 <= k < places.len() ==> results[#[trigger] places[k]] == Ok::<T, E>(
                successes(results)[k],
            ),
    decreases results.len(),
{
    if results.len() == 0 {
        Seq::empty()
    } else {
        let before = results.drop_last();
        let places = law_successes_keep_their_order(before);
        let more = lemma_one_more_place(places, results, |r: Result<T, E>| r is Ok);
        assert forall|k: int| 0 <= k < more.len() implies results[#[trigger] more[k]] == Ok::<
            T,
            E,
        >(successes(results)[k]) by {
            if k < places.len() {
                assert(more[k] == places[k]);
                assert(before[places[k]] == results[places[k]]);
            }
        }
        more
    }
}

/// The paths reported missing are those at the places of the failures, in the
/// order of the results.
pub proof fn law_missing_paths_keep_their_order<P, T, E>(
    paths: Seq<P>,
    results: Seq<Result<T, E>>,
) -> (places: Seq<int>)
    ensures
        places_of(places, results, |r: Result<T, E>| r is Err),
        missing(paths, results).len() == places.len(),
        forall|k: int|
            0 <= k < places.len() ==> missing(paths, results)[k] == paths[#[trigger] places[k]],
    decreases results.len(),
{
    if results.len() == 0 {
        Seq::empty()
    } else {
        let before = results.drop_last();
        let places = law_missing_paths_keep_their_order(paths, before);
        let more = lemma_one_more_place(places, results, |r: Result<T, E>| r is Err);
        assert forall|k: int| 0 <= k < more.len() implies missing(paths, results)[k]
            == paths[#[trigger] more[k]] by {
            if k < places.len() {
                assert(more[k] == places[k]);
            }
        }
        more
    }
}

/// What is kept of two lists of results, one behind the other, is what is kept
/// of the first followed by what is kept of the second. One success keeps its
/// value, and one failure keeps nothing.
pub proof fn law_keeping_goes_item_by_item<T, E>(
    some: Vec<Result<T, E>>,
    others: Vec<Result<T, E>>,
    all: Vec<Result<T, E>>,
    kept_of_some: Vec<T>,
    kept_of_others: Vec<T>,
    kept: Vec<T>,
)
    requires
        call_ensures(keep_successes::<T, E>, (some,), kept_of_some),
        call_ensures(keep_successes::<T, E>, (others,), kept_of_others),
        call_ensures(keep_successes::<T, E>, (all,), kept),
        all@ == some@ + others@,
    ensures
        kept@ == kept_of_some@ + kept_of_others@,
        some@.len() == 1 ==> kept_of_some@ == match some@[0] {
            Ok(value) => seq![value],
            Err(_) => Seq::<T>::empty(),
        },
        some@.len() == 0 ==> kept_of_some@.len() == 0,
{
    lemma_successes_add(some@, others@);
    reveal_with_fuel(successes, 2);
}

proof fn lemma_successes_add<T, E>(some: Seq<Result<T, E>>, others: Seq<Result<T, E>>)
    ensures
        successes(some + others) == successes(some) + successes(others),
    decreases others.len(),
{
    if others.len() == 0 {
        assert(some + others == some);
        assert(successes(some) + successes(others) == successes(some));
    } else {
        lemma_successes_add(some, others.drop_last());
        assert((some + others).drop_last() == some + others.drop_last());
        assert(successes(some + others) =~= successes(some) + successes(others));
    }
}

/// What is kept of a list of results are the values of its successes, all of
/// them, in order.
pub proof fn law_successes_are_kept<T, E>(results: Vec<Result<T, E>>, kept: Vec<T>) -> (places: Seq<
    int,
>)
    requires
        call_ensures(keep_successes::<T, E>, (results,), kept),
    ensures
        places_of(places, results@, |r: Result<T, E>| r is Ok),
        kept@.len() == places.len(),
        forall|k: int|
            0 <= k < places.len() ==> results@[#[trigger] places[k]] == Ok::<T, E>(kept@[k]),
{
    law_successes_keep_their_order(results@)
}

/// Every item of a list is converted, in its place.
pub proof fn law_every_item_is_converted<T, U: From<T>, W: for<'a> From<&'a T>>(
    values: Vec<T>,
    wires: Vec<U>,
    from_refs: Vec<W>,
    i: int,
)
    requires
        call_ensures(convert_all::<T, U>, (values,), wires),
        call_ensures(convert_refs::<T, W>, (&values,), from_refs),
    ensures
        wires@.len() == values@.len(),
        from_refs@.len() == values@.len(),
        0 <= i < values@.len() ==> call_ensures(<U as From<T>>::from, (values@[i],), wires@[i])
            && call_ensures(<W as From<&T>>::from, (&values@[i],), from_refs@[i]),
{
    if 0 <= i < values@.len() {
        assert(crate::convert::converts(values@[i], wires@[i]));
    }
}

/// As many items are cloned as there are, but no more than the limit, from the
/// front and in order.
pub proof fn law_first_items_are_cloned<T: Clone>(
    values: Vec<T>,
    limit: usize,
    copies: Vec<T>,
    i: int,
)
    requires
        call_ensures(clone_first::<T>, (&values, limit), copies),
    ensures
        copies@.len() == if values@.len() <= limit {
            values@.len()
        } else {
            limit as nat
        },
        0 <= i < copies@.len() ==> cloned(values@[i], copies@[i]),
{
}

} // verus!
