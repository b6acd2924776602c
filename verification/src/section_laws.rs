//! What holds of the sections of every note.

use vstd::prelude::*;
use crate::config::HighlightLabelView;
use crate::issue::IssueView;
use crate::section::{
    IssueSectionView, MISC_INDEX, group, highlight_section, highlight_sections,
    lemma_first_match_from, misc_section, note_sections, slot_of, summary_of,
};

verus! {

/// The index of the section that holds the issues of `slot`.
pub open spec fn index_of_slot(configs: Seq<HighlightLabelView>, slot: int) -> u64 {
    if slot < configs.len() {
        slot as u64
    } else {
        MISC_INDEX
    }
}

/// The number of issues in a list of sections.
pub open spec fn total_issues(sections: Seq<IssueSectionView>) -> nat
    decreases sections.len(),
{
    if sections.len() == 0 {
        0
    } else {
        total_issues(sections.drop_last()) + sections.last().issues.len()
    }
}

/// The number of issues whose slot is below `count`.
pub open spec fn issues_below(
    issues: Seq<IssueView>,
    configs: Seq<HighlightLabelView>,
    count: int,
) -> nat
    decreases count,
{
    if count <= 0 {
        0
    } else {
        issues_below(issues, configs, count - 1) + group(issues, configs, count - 1).len()
    }
}

/// Every issue has a slot: that of a highlight label, or that of the
/// overflow section.
pub proof fn lemma_slot_in_range(labels: Seq<Seq<char>>, configs: Seq<HighlightLabelView>)
    ensures
        0 <= slot_of(labels, configs) <= configs.len(),
{
    lemma_first_match_from(labels, configs, 0);
}

/// One more issue adds one to the count below `count` if its slot is below
/// `count`, and nothing otherwise.
proof fn lemma_issues_below_step(
    issues: Seq<IssueView>,
    configs: Seq<HighlightLabelView>,
    count: int,
)
    requires
        issues.len() > 0,
        0 <= count,
    ensures
        issues_below(issues, configs, count) == issues_below(issues.drop_last(), configs, count)
            + if slot_of(issues.last().labels, configs) < count {
            1nat
        } else {
            0nat
        },
    decreases count,
{
    lemma_slot_in_range(issues.last().labels, configs);
    if count > 0 {
        lemma_issues_below_step(issues, configs, count - 1);
    }
}

/// The groups of all slots together hold as many summaries as there are
/// issues.
pub proof fn lemma_groups_hold_all(issues: Seq<IssueView>, configs: Seq<HighlightLabelView>)
    ensures
        issues_below(issues, configs, configs.len() as int + 1) == issues.len(),
    decreases issues.len(),
{
    if issues.len() == 0 {
        assert(issues =~= Seq::empty());
        lemma_issues_below_empty(configs, configs.len() as int + 1);
    } else {
        lemma_groups_hold_all(issues.drop_last(), configs);
        lemma_issues_below_step(issues, configs, configs.len() as int + 1);
        lemma_slot_in_range(issues.last().labels, configs);
    }
}

/// Without issues every group is empty.
proof fn lemma_issues_below_empty(configs: Seq<HighlightLabelView>, count: int)
    ensures
        issues_below(Seq::<IssueView>::empty(), configs, count) == 0,
    decreases count,
{
    if count > 0 {
        lemma_issues_below_empty(configs, count - 1);
    }
}

/// The sections of the first `count` highlight labels hold the issues whose
/// slot is below `count`, none is empty, and their indices are below `count`
/// and increase.
proof fn lemma_highlight_sections(
    issues: Seq<IssueView>,
    configs: Seq<HighlightLabelView>,
    count: int,
)
    requires
        0 <= count <= configs.len(),
        configs.len() <= MISC_INDEX,
    ensures
        total_issues(highlight_sections(issues, configs, count)) == issues_below(
            issues,
            configs,
            count,
        ),
        forall|i: int|
            0 <= i < highlight_sections(issues, configs, count).len() ==> {
                let section = #[trigger] highlight_sections(issues, configs, count)[i];
                &&& section.index < count
                &&& section.issues.len() > 0
                &&& section == highlight_section(
                    configs,
                    section.index as int,
                    group(issues, configs, section.index as int),
                )
            },
        forall|i: int, j: int|
            0 <= i < j < highlight_sections(issues, configs, count).len() ==> (
            #[trigger] highlight_sections(issues, configs, count)[i]).index < (
            #[trigger] highlight_sections(issues, configs, count)[j]).index,
        forall|slot: int|
            0 <= slot < count && group(issues, configs, slot).len() > 0 ==> highlight_sections(
                issues,
                configs,
                count,
            ).contains(#[trigger] highlight_section(configs, slot, group(issues, configs, slot))),
    decreases count,
{
    if count > 0 {
        lemma_highlight_sections(issues, configs, count - 1);
        let before = highlight_sections(issues, configs, count - 1);
        let found = group(issues, configs, count - 1);
        if found.len() > 0 {
            let added = highlight_section(configs, count - 1, found);
            let now = highlight_sections(issues, configs, count);
            assert(now == before.push(added));
            assert(now.drop_last() =~= before);
            assert(now.last() == added);
            assert(now[before.len() as int] == added);
            assert forall|slot: int|
                0 <= slot < count && group(issues, configs, slot).len() > 0 implies now.contains(
                #[trigger] highlight_section(configs, slot, group(issues, configs, slot)),
            ) by {
                if slot < count - 1 {
                    let section = highlight_section(configs, slot, group(issues, configs, slot));
                    let i = choose|i: int| 0 <= i < before.len() && before[i] == section;
                    assert(now[i] == section);
                }
            }
        }
    }
}

/// The sections of a note are ordered by their index, and no two have the
/// same index.
pub proof fn lemma_sections_ordered(issues: Seq<IssueView>, configs: Seq<HighlightLabelView>)
    requires
        configs.len() <= MISC_INDEX,
    ensures
        forall|i: int, j: int|
            0 <= i < j < note_sections(issues, configs).len() ==> (#[trigger] note_sections(
                issues,
                configs,
            )[i]).index < (#[trigger] note_sections(issues, configs)[j]).index,
{
    lemma_highlight_sections(issues, configs, configs.len() as int);
}

/// No section of a note is empty.
pub proof fn lemma_sections_not_empty(issues: Seq<IssueView>, configs: Seq<HighlightLabelView>)
    requires
        configs.len() <= MISC_INDEX,
    ensures
        forall|i: int|
            0 <= i < note_sections(issues, configs).len() ==> (#[trigger] note_sections(
                issues,
                configs,
            )[i]).issues.len() > 0,
{
    lemma_highlight_sections(issues, configs, configs.len() as int);
}

/// The sections of a note hold as many summaries as there are issues: with
/// `lemma_issue_in_its_section`, no issue is left out and none stands in
/// two sections.
pub proof fn lemma_sections_hold_every_issue_once(
    issues: Seq<IssueView>,
    configs: Seq<HighlightLabelView>,
)
    requires
        configs.len() <= MISC_INDEX,
    ensures
        total_issues(note_sections(issues, configs)) == issues.len(),
{
    lemma_highlight_sections(issues, configs, configs.len() as int);
    lemma_groups_hold_all(issues, configs);
    let head = highlight_sections(issues, configs, configs.len() as int);
    let misc = group(issues, configs, configs.len() as int);
    if misc.len() > 0 {
        assert(note_sections(issues, configs).drop_last() =~= head);
    }
}

/// The group of an issue's slot holds the issue's summary.
proof fn lemma_group_holds(issues: Seq<IssueView>, configs: Seq<HighlightLabelView>, k: int)
    requires
        0 <= k < issues.len(),
    ensures
        group(issues, configs, slot_of(issues[k].labels, configs)).contains(summary_of(issues[k])),
    decreases issues.len(),
{
    let slot = slot_of(issues[k].labels, configs);
    let whole = group(issues, configs, slot);
    if k == issues.len() - 1 {
        assert(whole.last() == summary_of(issues[k]));
    } else {
        lemma_group_holds(issues.drop_last(), configs, k);
        let rest = group(issues.drop_last(), configs, slot);
        let i = choose|i: int| 0 <= i < rest.len() && rest[i] == summary_of(issues[k]);
        assert(whole[i] == summary_of(issues[k]));
    }
}

/// Every issue stands in the section of its slot: the section of the first
/// highlight label that it bears, or the overflow section if it bears none.
pub proof fn lemma_issue_in_its_section(
    issues: Seq<IssueView>,
    configs: Seq<HighlightLabelView>,
    k: int,
)
    requires
        0 <= k < issues.len(),
        configs.len() <= MISC_INDEX,
    ensures
        exists|i: int|
            0 <= i < note_sections(issues, configs).len() && (#[trigger] note_sections(
                issues,
                configs,
            )[i]).index == index_of_slot(configs, slot_of(issues[k].labels, configs))
                && note_sections(issues, configs)[i].issues.contains(summary_of(issues[k])),
{
    let slot = slot_of(issues[k].labels, configs);
    lemma_slot_in_range(issues[k].labels, configs);
    lemma_group_holds(issues, configs, k);
    lemma_highlight_sections(issues, configs, configs.len() as int);
    let head = highlight_sections(issues, configs, configs.len() as int);
    let all = note_sections(issues, configs);
    if slot < configs.len() {
        let section = highlight_section(configs, slot, group(issues, configs, slot));
        let i = choose|i: int| 0 <= i < head.len() && head[i] == section;
        assert(all[i] == section);
    } else {
        let misc = group(issues, configs, configs.len() as int);
        assert(all[head.len() as int] == misc_section(misc));
    }
}

} // verus!
