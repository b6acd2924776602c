//! What holds of every update of labels.

use vstd::prelude::*;
use crate::patch::{labels_added, labels_removed};

verus! {

/// Adding keeps the current labels in front, as they were.
pub proof fn lemma_added_keeps_current(current: Seq<Seq<char>>, requested: Seq<Seq<char>>)
    ensures
        current.len() <= labels_added(current, requested).len(),
        labels_added(current, requested).subrange(0, current.len() as int) == current,
    decreases requested.len(),
{
    if requested.len() == 0 {
        assert(current.subrange(0, current.len() as int) =~= current);
    } else {
        lemma_added_keeps_current(current, requested.drop_last());
        let before = labels_added(current, requested.drop_last());
        assert(labels_added(current, requested).subrange(0, current.len() as int)
            =~= before.subrange(0, current.len() as int));
    }
}

/// After adding, the labels are the current and the requested ones, and no
/// others.
pub proof fn lemma_added_holds_union(
    current: Seq<Seq<char>>,
    requested: Seq<Seq<char>>,
    label: Seq<char>,
)
    ensures
        labels_added(current, requested).contains(label) <==> (current.contains(label)
            || requested.contains(label)),
    decreases requested.len(),
{
    if requested.len() > 0 {
        let rest = requested.drop_last();
        let before = labels_added(current, rest);
        let after = labels_added(current, requested);
        lemma_added_holds_union(current, rest, label);
        if requested.contains(label) {
            let i = choose|i: int| 0 <= i < requested.len() && requested[i] == label;
            if i < rest.len() {
                assert(rest[i] == label);
            }
        }
        if rest.contains(label) {
            let i = choose|i: int| 0 <= i < rest.len() && rest[i] == label;
            assert(requested[i] == label);
        }
        assert(requested[requested.len() - 1] == requested.last());
        if !before.contains(requested.last()) {
            assert(after[before.len() as int] == requested.last());
            if before.contains(label) {
                let i = choose|i: int| 0 <= i < before.len() && before[i] == label;
                assert(after[i] == label);
            }
            if after.contains(label) {
                let i = choose|i: int| 0 <= i < after.len() && after[i] == label;
                if i < before.len() {
                    assert(before[i] == label);
                }
            }
        }
    }
}

/// Adding to labels without a repetition gives labels without a repetition.
pub proof fn lemma_added_no_duplicates(current: Seq<Seq<char>>, requested: Seq<Seq<char>>)
    requires
        current.no_duplicates(),
    ensures
        labels_added(current, requested).no_duplicates(),
    decreases requested.len(),
{
    if requested.len() > 0 {
        lemma_added_no_duplicates(current, requested.drop_last());
    }
}

/// Adding labels that the issue bears already changes nothing.
pub proof fn lemma_add_present_changes_nothing(current: Seq<Seq<char>>, requested: Seq<Seq<char>>)
    requires
        forall|i: int| 0 <= i < requested.len() ==> current.contains(#[trigger] requested[i]),
    ensures
        labels_added(current, requested) == current,
    decreases requested.len(),
{
    if requested.len() > 0 {
        lemma_add_present_changes_nothing(current, requested.drop_last());
    }
}

/// Adding the same labels a second time changes nothing.
pub proof fn lemma_add_twice(current: Seq<Seq<char>>, requested: Seq<Seq<char>>)
    ensures
        labels_added(labels_added(current, requested), requested) == labels_added(
            current,
            requested,
        ),
{
    let once = labels_added(current, requested);
    assert forall|i: int| 0 <= i < requested.len() implies once.contains(
        #[trigger] requested[i],
    ) by {
        lemma_added_holds_union(current, requested, requested[i]);
    }
    lemma_add_present_changes_nothing(once, requested);
}

/// After removing, the labels are the current ones that were not requested.
pub proof fn lemma_removed_holds_difference(
    current: Seq<Seq<char>>,
    requested: Seq<Seq<char>>,
    label: Seq<char>,
)
    ensures
        labels_removed(current, requested).contains(label) <==> (current.contains(label)
            && !requested.contains(label)),
    decreases current.len(),
{
    if current.len() > 0 {
        let rest = current.drop_last();
        let before = labels_removed(rest, requested);
        let after = labels_removed(current, requested);
        lemma_removed_holds_difference(rest, requested, label);
        assert(current[current.len() - 1] == current.last());
        if current.contains(label) {
            let i = choose|i: int| 0 <= i < current.len() && current[i] == label;
            if i < rest.len() {
                assert(rest[i] == label);
            }
        }
        if rest.contains(label) {
            let i = choose|i: int| 0 <= i < rest.len() && rest[i] == label;
            assert(current[i] == label);
        }
        if !requested.contains(current.last()) {
            assert(after[before.len() as int] == current.last());
            if before.contains(label) {
                let i = choose|i: int| 0 <= i < before.len() && before[i] == label;
                assert(after[i] == label);
            }
            if after.contains(label) {
                let i = choose|i: int| 0 <= i < after.len() && after[i] == label;
                if i < before.len() {
                    assert(before[i] == label);
                }
            }
        }
    }
}

} // verus!
