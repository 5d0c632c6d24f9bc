//! Turning lists of domain values into lists of wire values.

use vstd::prelude::*;

verus! {

/// `wire` is what converting `value` gives.
pub open spec fn converts<T, U: From<T>>(value: T, wire: U) -> bool {
    call_ensures(<U as From<T>>::from, (value,), wire)
}

/// `wires` is what converting `values` one by one, in order, gives.
pub open spec fn converts_all<T, U: From<T>>(values: Seq<T>, wires: Seq<U>) -> bool {
    &&& wires.len() == values.len()
    &&& forall|i: int| 0 <= i < values.len() ==> converts(values[i], #[trigger] wires[i])
}

/// The successes among `results`, in order.
pub open spec fn successes<T, E>(results: Seq<Result<T, E>>) -> Seq<T>
    decreases results.len(),
{
    if results.len() == 0 {
        Seq::empty()
    } else {
        match results.last() {
            Ok(value) => successes(results.drop_last()).push(value),
            Err(_) => successes(results.drop_last()),
        }
    }
}

/// Converts every value, in order.
pub fn convert_all<T, U: From<T>>(values: Vec<T>) -> (wires: Vec<U>)
    ensures
        converts_all(values@, wires@),
{
    let mut wires: Vec<U> = Vec::new();
    for value in it: values.into_iter()
        invariant
            it.seq() == values@,
            wires@.len() == it.index(),
            forall|i: int| 0 <= i < it.index() ==> converts(values@[i], #[trigger] wires@[i]),
    {
        wires.push(U::from(value));
    }
    wires
}

/// Keeps the successes among `results`, in order, and drops the failures.
pub fn keep_successes<T, E>(results: Vec<Result<T, E>>) -> (values: Vec<T>)
    ensures
        values@ == successes(results@),
{
    let mut values: Vec<T> = Vec::new();
    for result in it: results.into_iter()
        invariant
            it.seq() == results@,
            values@ == successes(results@.take(it.index() as int)),
    {
        proof {
            assert(results@.take(it.index() + 1).drop_last() == results@.take(it.index() as int));
        }
        if let Ok(value) = result {
            values.push(value);
        }
    }
    proof {
        assert(results@.take(results@.len() as int) == results@);
    }
    values
}

/// `copies` is what cloning `values` one by one, in order, gives.
pub open spec fn clones_all<T: Clone>(values: Seq<T>, copies: Seq<T>) -> bool {
    &&& copies.len() == values.len()
    &&& forall|i: int| 0 <= i < values.len() ==> cloned(values[i], #[trigger] copies[i])
}

/// `wires` is what converting references to `values`, in order, gives.
pub open spec fn converts_refs<T, U: for<'a> From<&'a T>>(values: Seq<T>, wires: Seq<U>) -> bool {
    &&& wires.len() == values.len()
    &&& forall|i: int|
        0 <= i < values.len() ==> call_ensures(
            <U as From<&T>>::from,
            (&values[i],),
            #[trigger] wires[i],
        )
}

/// Converts a reference to every value, in order.
pub fn convert_refs<T, U: for<'a> From<&'a T>>(values: &Vec<T>) -> (wires: Vec<U>)
    ensures
        converts_refs(values@, wires@),
{
    let mut wires: Vec<U> = Vec::new();
    let mut i: usize = 0;
    while i < values.len()
        invariant
            i <= values@.len(),
            wires@.len() == i,
            forall|j: int|
                0 <= j < i ==> call_ensures(
                    <U as From<&T>>::from,
                    (&values@[j],),
                    #[trigger] wires@[j],
                ),
        decreases values@.len() - i,
    {
        wires.push(U::from(&values[i]));
        i = i + 1;
    }
    wires
}

/// Clones the values before the `limit`th, in order.
pub fn clone_first<T: Clone>(values: &Vec<T>, limit: usize) -> (copies: Vec<T>)
    ensures
        clones_all(first(values@, limit as nat), copies@),
{
    let mut copies: Vec<T> = Vec::new();
    let mut i: usize = 0;
    while i < values.len() && i < limit
        invariant
            i <= values@.len(),
            i <= limit,
            copies@.len() == i,
            forall|j: int| 0 <= j < i ==> cloned(values@[j], #[trigger] copies@[j]),
        decreases values@.len() - i,
    {
        copies.push(values[i].clone());
        i = i + 1;
    }
    copies
}

/// At most `limit` values of `values`, from the front.
pub open spec fn first<T>(values: Seq<T>, limit: nat) -> Seq<T> {
    if values.len() <= limit {
        values
    } else {
        values.take(limit as int)
    }
}

/// Where a conversion is a function, converting a list is mapping it.
pub proof fn law_converting_is_mapping<T, U: From<T>>(values: Seq<T>, wires: Seq<U>)
    requires
        converts_all(values, wires),
        <U as vstd::std_specs::convert::FromSpec<T>>::obeys_from_spec(),
    ensures
        wires == values.map_values(
            |value: T| <U as vstd::std_specs::convert::FromSpec<T>>::from_spec(value),
        ),
{
    assert forall|i: int| 0 <= i < wires.len() implies wires[i] == <U as vstd::std_specs::convert::FromSpec<
        T,
    >>::from_spec(values[i]) by {
        assert(converts(values[i], wires[i]));
    }
}

/// A clone is equal to what it was cloned from.
pub open spec fn clones_are_equal<T: Clone>() -> bool {
    forall|a: T, b: T| #[trigger] cloned(a, b) ==> a == b
}

/// Converting a value gives one and the same wire value every time.
pub open spec fn is_function<T, U: From<T>>() -> bool {
    forall|value: T, a: U, b: U| #[trigger]
        converts(value, a) && #[trigger] converts(value, b) ==> a == b
}

/// Converting a reference to a value gives one and the same wire value every
/// time.
pub open spec fn is_function_of_refs<T, U: for<'a> From<&'a T>>() -> bool {
    forall|value: T, a: U, b: U| #[trigger]
        call_ensures(<U as From<&T>>::from, (&value,), a) && #[trigger] call_ensures(
            <U as From<&T>>::from,
            (&value,),
            b,
        ) ==> a == b
}

/// A conversion that obeys its specification is a function.
pub proof fn law_specified_conversion_is_function<T, U: From<T>>()
    requires
        <U as vstd::std_specs::convert::FromSpec<T>>::obeys_from_spec(),
    ensures
        is_function::<T, U>(),
{
}

/// Where a conversion is a function, equal lists convert to equal lists.
pub proof fn law_equal_lists_convert_equally<T, U: From<T>>(values: Seq<T>, a: Seq<U>, b: Seq<U>)
    requires
        is_function::<T, U>(),
        converts_all(values, a),
        converts_all(values, b),
    ensures
        a == b,
{
    assert forall|i: int| 0 <= i < values.len() implies a[i] == b[i] by {
        assert(converts(values[i], a[i]) && converts(values[i], b[i]));
    }
}

/// Where a conversion of references is a function, references to equal lists
/// convert to equal lists.
pub proof fn law_equal_refs_convert_equally<T, U: for<'a> From<&'a T>>(
    values: Seq<T>,
    a: Seq<U>,
    b: Seq<U>,
)
    requires
        is_function_of_refs::<T, U>(),
        converts_refs(values, a),
        converts_refs(values, b),
    ensures
        a == b,
{
    assert forall|i: int| 0 <= i < values.len() implies a[i] == b[i] by {
        assert(call_ensures(<U as From<&T>>::from, (&values[i],), a[i]));
        assert(call_ensures(<U as From<&T>>::from, (&values[i],), b[i]));
    }
}

/// There are no more successes than results, and a list without failures is
/// kept whole.
pub proof fn law_successes<T, E>(results: Seq<Result<T, E>>)
    ensures
        successes(results).len() <= results.len(),
        (forall|i: int| 0 <= i < results.len() ==> #[trigger] results[i] is Ok)
            ==> successes(results) == results.map_values(|r: Result<T, E>| r->Ok_0),
    decreases results.len(),
{
    if results.len() > 0 {
        let before = results.drop_last();
        law_successes(before);
        if forall|i: int| 0 <= i < results.len() ==> #[trigger] results[i] is Ok {
            assert(forall|i: int| 0 <= i < before.len() ==> before[i] == results[i]);
            assert(results[results.len() - 1] is Ok);
            assert(successes(results) =~= results.map_values(|r: Result<T, E>| r->Ok_0));
        }
    }
}

} // verus!
