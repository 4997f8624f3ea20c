//! Small pieces of mathematics that the other modules share.

use vstd::prelude::*;

verus! {

/// The views of the items of a sequence, in order.
pub open spec fn views<T: View>(items: Seq<T>) -> Seq<T::V> {
    Seq::new(items.len(), |i: int| items[i]@)
}

/// The view of an outcome: the view of the value, or the view of the error.
pub open spec fn outcome<T: View, E: View>(result: Result<T, E>) -> Result<T::V, E::V> {
    match result {
        Ok(value) => Ok(value@),
        Err(error) => Err(error@),
    }
}

/// Compares two texts character by character.
pub fn same_text(a: &str, b: &str) -> (same: bool)
    ensures
        same == (a@ == b@),
{
    a.to_owned() == b.to_owned()
}

/// `at` is the first position at which `flags` holds.
pub open spec fn is_first_true(flags: Seq<bool>, at: int) -> bool {
    &&& 0 <= at < flags.len()
    &&& flags[at]
    &&& forall|j: int| 0 <= j < at ==> !flags[j]
}

/// The first position at which `flags` holds, if there is one.
pub open spec fn first_true(flags: Seq<bool>) -> Option<int> {
    if exists|at: int| is_first_true(flags, at) {
        Some(choose|at: int| is_first_true(flags, at))
    } else {
        None
    }
}

/// A position that is first is the first.
pub proof fn lemma_first_true_is(flags: Seq<bool>, at: int)
    requires
        is_first_true(flags, at),
    ensures
        first_true(flags) == Some(at),
{
    let chosen = choose|k: int| is_first_true(flags, k);
    assert(is_first_true(flags, chosen));
    if chosen < at {
        assert(!flags[chosen]);
    } else if at < chosen {
        assert(!flags[at]);
    }
}

/// Where `flags` holds nowhere, there is no first position.
pub proof fn lemma_first_true_none(flags: Seq<bool>)
    requires
        forall|k: int| 0 <= k < flags.len() ==> !flags[k],
    ensures
        first_true(flags) is None,
{
}

/// Where `flags` holds somewhere, there is a first position, and it is no
/// later.
pub proof fn lemma_first_true_exists(flags: Seq<bool>, at: int)
    requires
        0 <= at < flags.len(),
        flags[at],
    ensures
        first_true(flags) matches Some(first) && first <= at && is_first_true(flags, first),
    decreases at,
{
    if exists|j: int| 0 <= j < at && flags[j] {
        let j = choose|j: int| 0 <= j < at && flags[j];
        lemma_first_true_exists(flags, j);
    } else {
        assert(is_first_true(flags, at));
        lemma_first_true_is(flags, at);
    }
}

/// What `first_true` returns is a first position.
pub proof fn lemma_first_true_some(flags: Seq<bool>)
    ensures
        first_true(flags) matches Some(first) ==> is_first_true(flags, first),
        first_true(flags) is None ==> forall|k: int| 0 <= k < flags.len() ==> !#[trigger] flags[k],
{
    if first_true(flags) is None {
        assert forall|k: int| 0 <= k < flags.len() implies !#[trigger] flags[k] by {
            if flags[k] {
                lemma_first_true_exists(flags, k);
            }
        }
    }
}

/// For each step, whether it failed.
pub open spec fn failures<T, E>(steps: Seq<Result<T, E>>) -> Seq<bool> {
    Seq::new(steps.len(), |k: int| steps[k] is Err)
}

/// All or nothing: the values of all the steps, in order, where every step
/// succeeded; else the error of the first step that failed.
pub open spec fn collect<T, E>(steps: Seq<Result<T, E>>) -> Result<Seq<T>, E> {
    match first_true(failures(steps)) {
        Some(k) => Err(steps[k]->Err_0),
        None => Ok(Seq::new(steps.len(), |k: int| steps[k]->Ok_0)),
    }
}

/// Where the first `at` steps succeeded and step `at` failed, the whole
/// fails with that step's error.
pub proof fn lemma_collect_fails<T, E>(steps: Seq<Result<T, E>>, at: int)
    requires
        0 <= at < steps.len(),
        steps[at] is Err,
        forall|j: int| 0 <= j < at ==> steps[j] is Ok,
    ensures
        collect(steps) == Err::<Seq<T>, E>(steps[at]->Err_0),
{
    assert(is_first_true(failures(steps), at));
    lemma_first_true_is(failures(steps), at);
}

/// Where every step succeeded, the whole succeeds with all the values.
pub proof fn lemma_collect_succeeds<T, E>(steps: Seq<Result<T, E>>)
    requires
        forall|j: int| 0 <= j < steps.len() ==> steps[j] is Ok,
    ensures
        collect(steps) == Ok::<Seq<T>, E>(Seq::new(steps.len(), |k: int| steps[k]->Ok_0)),
{
    lemma_first_true_none(failures(steps));
}

/// The whole succeeds exactly where every step does, and then holds one
/// value for each step.
pub proof fn lemma_collect_all_or_nothing<T, E>(steps: Seq<Result<T, E>>)
    ensures
        collect(steps) is Ok <==> forall|j: int| 0 <= j < steps.len() ==> (#[trigger] steps[j]) is Ok,
        collect(steps) matches Ok(values) ==> values.len() == steps.len() && forall|j: int|
            0 <= j < steps.len() ==> steps[j] == Ok::<T, E>(#[trigger] values[j]),
        collect(steps) matches Err(error) ==> exists|k: int|
            0 <= k < steps.len() && #[trigger] steps[k] == Err::<T, E>(error),
{
    lemma_first_true_some(failures(steps));
    match first_true(failures(steps)) {
        Some(k) => {
            assert(failures(steps)[k]);
            assert(steps[k] is Err);
        },
        None => {
            assert forall|j: int| 0 <= j < steps.len() implies (#[trigger] steps[j]) is Ok by {
                assert(!failures(steps)[j]);
            }
        },
    }
}

} // verus!
