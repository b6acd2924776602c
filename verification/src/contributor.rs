//! The contributors of a note: the assignees of its issues and the extra
//! contributors of the configuration, each once, in lexicographic order.

use vstd::prelude::*;
use crate::issue::{Issue, IssueView, issue_views};
use crate::lexical::{
    lemma_text_lt_asymmetric, lemma_text_lt_irreflexive, lemma_text_lt_total,
    lemma_text_lt_transitive, text_less, text_lt,
};
use crate::text::texts;

verus! {

/// Whether each name comes strictly before every later one: the list is in
/// lexicographic order and holds no name twice.
pub open spec fn strictly_sorted(names: Seq<Seq<char>>) -> bool {
    forall|i: int, j: int| 0 <= i < j < names.len() ==> text_lt(names[i], names[j])
}

/// Whether `name` is an assignee of one of the issues.
pub open spec fn is_assignee(issues: Seq<IssueView>, name: Seq<char>) -> bool {
    exists|k: int| 0 <= k < issues.len() && (#[trigger] issues[k]).assignees.contains(name)
}

/// Whether `name` belongs in the note's list of contributors.
pub open spec fn is_contributor(
    issues: Seq<IssueView>,
    extra: Option<Seq<Seq<char>>>,
    name: Seq<char>,
) -> bool {
    is_assignee(issues, name) || (extra matches Some(names) && names.contains(name))
}

/// Whether `names` is the list of a note's contributors: sorted, without
/// repetition, and holding exactly the contributors.
pub open spec fn is_contributor_list(
    names: Seq<Seq<char>>,
    issues: Seq<IssueView>,
    extra: Option<Seq<Seq<char>>>,
) -> bool {
    &&& strictly_sorted(names)
    &&& forall|name: Seq<char>|
        #![trigger names.contains(name)]
        #![trigger is_contributor(issues, extra, name)]
        names.contains(name) <==> is_contributor(issues, extra, name)
}

/// The list of a note's contributors. There is exactly one such list.
pub open spec fn contributors_of(issues: Seq<IssueView>, extra: Option<Seq<Seq<char>>>) -> Seq<
    Seq<char>,
> {
    choose|names: Seq<Seq<char>>| is_contributor_list(names, issues, extra)
}

/// Puts `name` into a sorted list at its place, unless the list holds it
/// already.
pub fn insert_sorted(list: &mut Vec<String>, name: &String)
    requires
        strictly_sorted(texts(old(list)@)),
    ensures
        strictly_sorted(texts(final(list)@)),
        forall|other: Seq<char>|
            #![trigger texts(final(list)@).contains(other)]
            #![trigger texts(old(list)@).contains(other)]
            texts(final(list)@).contains(other) <==> (texts(old(list)@).contains(other) || other
                == name@),
        texts(final(list)@).contains(name@),
{
    let ghost before = texts(list@);
    let mut place: usize = 0;
    while place < list.len() && text_less(list[place].as_str(), name.as_str())
        invariant
            place <= list.len(),
            *list == *old(list),
            before == texts(list@),
            forall|j: int| 0 <= j < place ==> text_lt(#[trigger] before[j], name@),
        decreases list.len() - place,
    {
        assert(before[place as int] == list[place as int]@);
        place += 1;
    }
    if place < list.len() && list[place] == *name {
        assert(before[place as int] == name@);
        return ;
    }
    proof {
        if place < list.len() {
            assert(before[place as int] == list[place as int]@);
            lemma_text_lt_total(before[place as int], name@);
        }
        assert forall|j: int| place <= j < before.len() implies text_lt(name@, #[trigger] before[j]) by {
            if j > place {
                lemma_text_lt_transitive(name@, before[place as int], before[j]);
            }
        }
        assert forall|j: int| 0 <= j < before.len() implies #[trigger] before[j] != name@ by {
            lemma_text_lt_irreflexive(name@);
        }
    }
    list.insert(place, name.clone());
    proof {
        let after = texts(list@);
        assert(after =~= before.insert(place as int, name@));
        assert(after[place as int] == name@);
        assert forall|other: Seq<char>| after.contains(other) <==> (before.contains(other) || other
            == name@) by {
            if after.contains(other) {
                let i = choose|i: int| 0 <= i < after.len() && after[i] == other;
                if i < place {
                    assert(before[i] == other);
                } else if i > place {
                    assert(before[i - 1] == other);
                }
            }
            if before.contains(other) {
                let i = choose|i: int| 0 <= i < before.len() && before[i] == other;
                if i < place {
                    assert(after[i] == other);
                } else {
                    assert(after[i + 1] == other);
                }
            }
        }
        assert forall|i: int, j: int| 0 <= i < j < after.len() implies text_lt(
            after[i],
            after[j],
        ) by {
            if j < place {
                assert(after[i] == before[i] && after[j] == before[j]);
            } else if j == place {
                assert(after[i] == before[i]);
            } else if i < place {
                assert(after[i] == before[i] && after[j] == before[j - 1]);
            } else if i == place {
                assert(after[j] == before[j - 1]);
            } else {
                assert(after[i] == before[i - 1] && after[j] == before[j - 1]);
            }
        }
    }
}

/// Puts every name of `names` into the sorted list.
pub fn insert_all_sorted(list: &mut Vec<String>, names: &Vec<String>)
    requires
        strictly_sorted(texts(old(list)@)),
    ensures
        strictly_sorted(texts(final(list)@)),
        forall|other: Seq<char>|
            #![trigger texts(final(list)@).contains(other)]
            #![trigger texts(old(list)@).contains(other)]
            #![trigger texts(names@).contains(other)]
            texts(final(list)@).contains(other) <==> (texts(old(list)@).contains(other) || texts(
                names@,
            ).contains(other)),
{
    let mut i: usize = 0;
    while i < names.len()
        invariant
            i <= names.len(),
            strictly_sorted(texts(list@)),
            forall|other: Seq<char>|
                texts(list@).contains(other) <==> (texts(old(list)@).contains(other) || texts(
                    names@,
                ).subrange(0, i as int).contains(other)),
        decreases names.len() - i,
    {
        let ghost before = texts(list@);
        insert_sorted(list, &names[i]);
        proof {
            let done = texts(names@).subrange(0, i as int);
            let next = texts(names@).subrange(0, i + 1);
            assert(next =~= done.push(names[i as int]@));
            assert forall|other: Seq<char>| next.contains(other) <==> (done.contains(other) || other
                == names[i as int]@) by {
                if done.contains(other) {
                    let j = choose|j: int| 0 <= j < done.len() && done[j] == other;
                    assert(next[j] == other);
                }
                if other == names[i as int]@ {
                    assert(next[i as int] == other);
                }
            }
        }
        i += 1;
    }
    assert(texts(names@).subrange(0, names.len() as int) =~= texts(names@));
}

/// The contributors of a note: every assignee of an issue and every extra
/// contributor, each once, in lexicographic order.
pub fn collect_contributors(issues: &Vec<Issue>, extra: &Option<Vec<String>>) -> (names: Vec<
    String,
>)
    ensures
        is_contributor_list(texts(names@), issue_views(issues@), crate::text::opt_texts(*extra)),
        texts(names@) == contributors_of(issue_views(issues@), crate::text::opt_texts(*extra)),
{
    let mut names: Vec<String> = Vec::new();
    let mut k: usize = 0;
    while k < issues.len()
        invariant
            k <= issues.len(),
            strictly_sorted(texts(names@)),
            forall|name: Seq<char>|
                texts(names@).contains(name) <==> is_assignee(
                    issue_views(issues@).subrange(0, k as int),
                    name,
                ),
        decreases issues.len() - k,
    {
        let ghost before = texts(names@);
        insert_all_sorted(&mut names, &issues[k].assignees);
        proof {
            let done = issue_views(issues@).subrange(0, k as int);
            let next = issue_views(issues@).subrange(0, k + 1);
            assert(next[k as int].assignees == texts(issues[k as int].assignees@));
            assert forall|name: Seq<char>| is_assignee(next, name) <==> (is_assignee(done, name)
                || texts(issues[k as int].assignees@).contains(name)) by {
                if is_assignee(done, name) {
                    let j = choose|j: int|
                        0 <= j < done.len() && (#[trigger] done[j]).assignees.contains(name);
                    assert(next[j].assignees.contains(name));
                }
                if is_assignee(next, name) {
                    let j = choose|j: int|
                        0 <= j < next.len() && (#[trigger] next[j]).assignees.contains(name);
                    if j < k {
                        assert(done[j].assignees.contains(name));
                    }
                }
            }
        }
        k += 1;
    }
    assert(issue_views(issues@).subrange(0, issues.len() as int) =~= issue_views(issues@));
    let ghost assigned = texts(names@);
    assert(forall|name: Seq<char>|
        assigned.contains(name) <==> is_assignee(issue_views(issues@), name));
    match extra {
        Some(more) => {
            insert_all_sorted(&mut names, more);
            assert(forall|name: Seq<char>|
                texts(names@).contains(name) <==> (assigned.contains(name) || texts(
                    more@,
                ).contains(name)));
        },
        None => {},
    }
    proof {
        let shown = issue_views(issues@);
        let more = crate::text::opt_texts(*extra);
        assert(is_contributor_list(texts(names@), shown, more));
        let chosen = contributors_of(shown, more);
        assert forall|name: Seq<char>| texts(names@).contains(name) <==> chosen.contains(
            name,
        ) by {
            assert(chosen.contains(name) <==> is_contributor(shown, more, name));
        }
        lemma_sorted_names_unique(texts(names@), chosen);
    }
    names
}

/// A sorted list without repetition is fixed by the names that it holds:
/// two such lists with the same names are the same list.
pub proof fn lemma_sorted_names_unique(a: Seq<Seq<char>>, b: Seq<Seq<char>>)
    requires
        strictly_sorted(a),
        strictly_sorted(b),
        forall|name: Seq<char>| a.contains(name) <==> b.contains(name),
    ensures
        a == b,
    decreases a.len(),
{
    if a.len() == 0 {
        if b.len() > 0 {
            assert(b.contains(b[0]));
        }
        assert(a =~= b);
    } else {
        assert(a.contains(a[0]));
        let j = choose|j: int| 0 <= j < b.len() && b[j] == a[0];
        assert(b.contains(b[0]));
        let i = choose|i: int| 0 <= i < a.len() && a[i] == b[0];
        if j > 0 {
            assert(text_lt(b[0], b[j]));
            if i > 0 {
                lemma_text_lt_asymmetric(a[0], a[i]);
            } else {
                lemma_text_lt_irreflexive(a[0]);
            }
        }
        assert(a[0] == b[0]);
        let ra = a.skip(1);
        let rb = b.skip(1);
        assert forall|name: Seq<char>| ra.contains(name) <==> rb.contains(name) by {
            if ra.contains(name) {
                let p = choose|p: int| 0 <= p < ra.len() && ra[p] == name;
                assert(a[p + 1] == name);
                assert(a.contains(name));
                let q = choose|q: int| 0 <= q < b.len() && b[q] == name;
                if q == 0 {
                    assert(text_lt(a[0], a[p + 1]));
                    lemma_text_lt_irreflexive(a[0]);
                }
                assert(rb[q - 1] == name);
            }
            if rb.contains(name) {
                let q = choose|q: int| 0 <= q < rb.len() && rb[q] == name;
                assert(b[q + 1] == name);
                assert(b.contains(name));
                let p = choose|p: int| 0 <= p < a.len() && a[p] == name;
                if p == 0 {
                    assert(text_lt(b[0], b[q + 1]));
                    lemma_text_lt_irreflexive(b[0]);
                }
                assert(ra[p - 1] == name);
            }
        }
        assert forall|x: int, y: int| 0 <= x < y < ra.len() implies text_lt(ra[x], ra[y]) by {
            assert(text_lt(a[x + 1], a[y + 1]));
        }
        assert forall|x: int, y: int| 0 <= x < y < rb.len() implies text_lt(rb[x], rb[y]) by {
            assert(text_lt(b[x + 1], b[y + 1]));
        }
        lemma_sorted_names_unique(ra, rb);
        assert(a =~= seq![a[0]] + ra);
        assert(b =~= seq![b[0]] + rb);
    }
}

} // verus!
