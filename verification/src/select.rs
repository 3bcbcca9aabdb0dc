//! The first and the last item of a sequence that is of a wanted kind.

use vstd::prelude::*;

verus! {

/// The first of `items` that is `wanted`, if any is.
pub open spec fn first_where<T>(items: Seq<T>, wanted: spec_fn(T) -> bool) -> Option<T>
    decreases items.len(),
{
    if items.len() == 0 {
        None
    } else {
        match first_where(items.drop_last(), wanted) {
            Some(found) => Some(found),
            None => if wanted(items.last()) {
                Some(items.last())
            } else {
                None
            },
        }
    }
}

/// The last of `items` that is `wanted`, if any is.
pub open spec fn last_where<T>(items: Seq<T>, wanted: spec_fn(T) -> bool) -> Option<T>
    decreases items.len(),
{
    if items.len() == 0 {
        None
    } else if wanted(items.last()) {
        Some(items.last())
    } else {
        last_where(items.drop_last(), wanted)
    }
}

/// What was found first in a beginning of a sequence is found first in the
/// whole sequence.
pub proof fn lemma_first_where_stays<T>(
    beginning: Seq<T>,
    whole: Seq<T>,
    wanted: spec_fn(T) -> bool,
)
    requires
        beginning.is_prefix_of(whole),
        first_where(beginning, wanted) is Some,
    ensures
        first_where(whole, wanted) == first_where(beginning, wanted),
    decreases whole.len(),
{
    if beginning.len() < whole.len() {
        assert(beginning.is_prefix_of(whole.drop_last()));
        lemma_first_where_stays(beginning, whole.drop_last(), wanted);
    } else {
        assert(beginning =~= whole);
    }
}

/// What is found first is an item of the sequence, is wanted, and has nothing
/// wanted before it; nothing is found only where nothing is wanted.
pub proof fn lemma_first_where_is_first<T>(items: Seq<T>, wanted: spec_fn(T) -> bool)
    ensures
        match first_where(items, wanted) {
            Some(found) => exists|at: int|
                0 <= at < items.len() && #[trigger] items[at] == found && wanted(found) && forall|
                    before: int,
                | 0 <= before < at ==> !wanted(#[trigger] items[before]),
            None => forall|at: int| 0 <= at < items.len() ==> !wanted(#[trigger] items[at]),
        },
    decreases items.len(),
{
    if items.len() > 0 {
        let front = items.drop_last();
        lemma_first_where_is_first(front, wanted);
        match first_where(front, wanted) {
            Some(found) => {
                let at = choose|at: int|
                    0 <= at < front.len() && #[trigger] front[at] == found && wanted(found)
                        && forall|before: int|
                        0 <= before < at ==> !wanted(#[trigger] front[before]);
                assert forall|before: int| 0 <= before < at implies !wanted(
                    #[trigger] items[before],
                ) by {
                    assert(front[before] == items[before]);
                }
            },
            None => {
                assert forall|before: int| 0 <= before < items.len() - 1 implies !wanted(
                    #[trigger] items[before],
                ) by {
                    assert(front[before] == items[before]);
                }
            },
        }
    }
}

/// What is found last is an item of the sequence, is wanted, and has nothing
/// wanted after it; nothing is found only where nothing is wanted.
pub proof fn lemma_last_where_is_last<T>(items: Seq<T>, wanted: spec_fn(T) -> bool)
    ensures
        match last_where(items, wanted) {
            Some(found) => exists|at: int|
                0 <= at < items.len() && #[trigger] items[at] == found && wanted(found) && forall|
                    after: int,
                | at < after < items.len() ==> !wanted(#[trigger] items[after]),
            None => forall|at: int| 0 <= at < items.len() ==> !wanted(#[trigger] items[at]),
        },
    decreases items.len(),
{
    if items.len() > 0 {
        let front = items.drop_last();
        if !wanted(items.last()) {
            lemma_last_where_is_last(front, wanted);
            match last_where(front, wanted) {
                Some(found) => {
                    let at = choose|at: int|
                        0 <= at < front.len() && #[trigger] front[at] == found && wanted(found)
                            && forall|after: int|
                            at < after < front.len() ==> !wanted(#[trigger] front[after]);
                    assert forall|after: int| at < after < items.len() implies !wanted(
                        #[trigger] items[after],
                    ) by {
                        if after < front.len() {
                            assert(front[after] == items[after]);
                        }
                    }
                },
                None => {
                    assert forall|at: int| 0 <= at < items.len() implies !wanted(
                        #[trigger] items[at],
                    ) by {
                        if at < front.len() {
                            assert(front[at] == items[at]);
                        }
                    }
                },
            }
        }
    }
}

} // verus!
