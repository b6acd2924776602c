//! Sections of a release note: the issues under one highlight label, and the
//! overflow section for the rest.

use vstd::prelude::*;
use crate::config::{HighlightLabelConfig, HighlightLabelView, highlight_views};
use crate::issue::{Issue, IssueView, issue_views};
use crate::text::{texts, contains_text, clone_texts};

verus! {

/// What a note shows of one issue.
#[derive(Debug)]
pub struct IssueSummary {
    /// The issue's number.
    pub id: u64,
    /// The issue's title.
    pub title: String,
    /// The address of the issue's page.
    pub url: String,
    /// The logins of the issue's assignees.
    pub assignees: Vec<String>,
}

/// What a summary is: its fields, with every string as its characters.
pub ghost struct IssueSummaryView {
    pub id: u64,
    pub title: Seq<char>,
    pub url: Seq<char>,
    pub assignees: Seq<Seq<char>>,
}

impl View for IssueSummary {
    type V = IssueSummaryView;

    open spec fn view(&self) -> IssueSummaryView {
        IssueSummaryView {
            id: self.id,
            title: self.title@,
            url: self.url@,
            assignees: texts(self.assignees@),
        }
    }
}

/// The views of a list of summaries, in order.
pub open spec fn summary_views(list: Seq<IssueSummary>) -> Seq<IssueSummaryView> {
    Seq::new(list.len(), |i: int| list[i]@)
}

/// One titled section of a note.
#[derive(Debug)]
pub struct IssueSection {
    /// The section's place in the note: sections are ordered by it.
    pub index: u64,
    /// The section's heading.
    pub title: String,
    /// The line under the heading.
    pub description: String,
    /// The section's issues, in the order in which they were met.
    pub issues: Vec<IssueSummary>,
}

/// What a section is: its fields, with every string as its characters.
pub ghost struct IssueSectionView {
    pub index: u64,
    pub title: Seq<char>,
    pub description: Seq<char>,
    pub issues: Seq<IssueSummaryView>,
}

impl View for IssueSection {
    type V = IssueSectionView;

    open spec fn view(&self) -> IssueSectionView {
        IssueSectionView {
            index: self.index,
            title: self.title@,
            description: self.description@,
            issues: summary_views(self.issues@),
        }
    }
}

/// The views of a list of sections, in order.
pub open spec fn section_views(list: Seq<IssueSection>) -> Seq<IssueSectionView> {
    Seq::new(list.len(), |i: int| list[i]@)
}

/// The index of the overflow section: it is greater than the index of any
/// section of a highlight label, so the overflow section comes last.
pub const MISC_INDEX: u64 = 0xffff_ffff_ffff_ffff;

/// What a note shows of an issue.
pub open spec fn summary_of(issue: IssueView) -> IssueSummaryView {
    IssueSummaryView {
        id: issue.number,
        title: issue.title,
        url: issue.html_url,
        assignees: issue.assignees,
    }
}

/// The first place from `from` on at which `configs` names one of `labels`;
/// the length of `configs` if there is none.
pub open spec fn first_match_from(
    labels: Seq<Seq<char>>,
    configs: Seq<HighlightLabelView>,
    from: int,
) -> int
    decreases configs.len() - from,
{
    if from < 0 || from >= configs.len() {
        configs.len() as int
    } else if labels.contains(configs[from].label) {
        from
    } else {
        first_match_from(labels, configs, from + 1)
    }
}

/// The slot of an issue with these labels: the place of the first highlight
/// label that the issue bears, or the number of highlight labels if it bears
/// none of them, which is the slot of the overflow section.
pub open spec fn slot_of(labels: Seq<Seq<char>>, configs: Seq<HighlightLabelView>) -> int {
    first_match_from(labels, configs, 0)
}

/// The slot of an issue is the least place whose highlight label it bears.
pub proof fn lemma_first_match_from(
    labels: Seq<Seq<char>>,
    configs: Seq<HighlightLabelView>,
    from: int,
)
    requires
        0 <= from <= configs.len(),
    ensures
        from <= first_match_from(labels, configs, from) <= configs.len(),
        first_match_from(labels, configs, from) < configs.len() ==> labels.contains(
            configs[first_match_from(labels, configs, from)].label,
        ),
        forall|j: int|
            from <= j < first_match_from(labels, configs, from) ==> !labels.contains(
                (#[trigger] configs[j]).label,
            ),
    decreases configs.len() - from,
{
    if from < configs.len() && !labels.contains(configs[from].label) {
        lemma_first_match_from(labels, configs, from + 1);
    }
}

/// The summaries of the issues whose slot is `slot`, in the order of the
/// issues.
pub open spec fn group(issues: Seq<IssueView>, configs: Seq<HighlightLabelView>, slot: int) -> Seq<
    IssueSummaryView,
>
    decreases issues.len(),
{
    if issues.len() == 0 {
        Seq::empty()
    } else if slot_of(issues.last().labels, configs) == slot {
        group(issues.drop_last(), configs, slot).push(summary_of(issues.last()))
    } else {
        group(issues.drop_last(), configs, slot)
    }
}

/// The text of an optional string: empty where there is none.
pub open spec fn text_or_empty(text: Option<Seq<char>>) -> Seq<char> {
    match text {
        Some(t) => t,
        None => Seq::empty(),
    }
}

/// The section of the highlight label at `slot`, holding `issues`.
pub open spec fn highlight_section(
    configs: Seq<HighlightLabelView>,
    slot: int,
    issues: Seq<IssueSummaryView>,
) -> IssueSectionView {
    IssueSectionView {
        index: slot as u64,
        title: text_or_empty(configs[slot].title),
        description: text_or_empty(configs[slot].description),
        issues,
    }
}

/// The overflow section, holding `issues`.
pub open spec fn misc_section(issues: Seq<IssueSummaryView>) -> IssueSectionView {
    IssueSectionView { index: MISC_INDEX, title: "Misc"@, description: Seq::empty(), issues }
}

/// The sections of the first `count` highlight labels: one for each label
/// that is the first match of some issue, in the order of the labels.
pub open spec fn highlight_sections(
    issues: Seq<IssueView>,
    configs: Seq<HighlightLabelView>,
    count: int,
) -> Seq<IssueSectionView>
    decreases count,
{
    if count <= 0 {
        Seq::empty()
    } else if group(issues, configs, count - 1).len() == 0 {
        highlight_sections(issues, configs, count - 1)
    } else {
        highlight_sections(issues, configs, count - 1).push(
            highlight_section(configs, count - 1, group(issues, configs, count - 1)),
        )
    }
}

/// The sections of a note: those of the highlight labels, then the overflow
/// section if some issue bears no highlight label.
pub open spec fn note_sections(issues: Seq<IssueView>, configs: Seq<HighlightLabelView>) -> Seq<
    IssueSectionView,
> {
    let misc = group(issues, configs, configs.len() as int);
    if misc.len() == 0 {
        highlight_sections(issues, configs, configs.len() as int)
    } else {
        highlight_sections(issues, configs, configs.len() as int).push(misc_section(misc))
    }
}

/// The slot of an issue among the highlight labels.
pub fn section_slot(issue: &Issue, configs: &Vec<HighlightLabelConfig>) -> (slot: usize)
    ensures
        slot as int == slot_of(issue@.labels, highlight_views(configs@)),
        slot <= configs.len(),
{
    let mut i: usize = 0;
    while i < configs.len()
        invariant
            i <= configs.len(),
            slot_of(issue@.labels, highlight_views(configs@)) == first_match_from(
                issue@.labels,
                highlight_views(configs@),
                i as int,
            ),
        decreases configs.len() - i,
    {
        if contains_text(&issue.labels, &configs[i].label) {
            assert(highlight_views(configs@)[i as int].label == configs[i as int].label@);
            return i;
        }
        assert(highlight_views(configs@)[i as int].label == configs[i as int].label@);
        i += 1;
    }
    i
}

/// What a note shows of an issue.
pub fn summarize(issue: &Issue) -> (summary: IssueSummary)
    ensures
        summary@ == summary_of(issue@),
{
    IssueSummary {
        id: issue.number,
        title: issue.title.clone(),
        url: issue.html_url.clone(),
        assignees: clone_texts(&issue.assignees),
    }
}

/// The slots of the issues, in order.
fn section_slots(issues: &Vec<Issue>, configs: &Vec<HighlightLabelConfig>) -> (slots: Vec<usize>)
    ensures
        slots.len() == issues.len(),
        forall|k: int|
            0 <= k < issues.len() ==> slots[k] as int == slot_of(
                (#[trigger] issues[k])@.labels,
                highlight_views(configs@),
            ),
{
    let mut slots: Vec<usize> = Vec::new();
    let mut k: usize = 0;
    while k < issues.len()
        invariant
            k <= issues.len(),
            slots.len() == k,
            forall|j: int|
                0 <= j < k ==> slots[j] as int == slot_of(
                    (#[trigger] issues[j])@.labels,
                    highlight_views(configs@),
                ),
        decreases issues.len() - k,
    {
        let slot = section_slot(&issues[k], configs);
        slots.push(slot);
        k += 1;
    }
    slots
}

/// The summaries of the issues whose slot is `slot`.
fn collect_group(
    issues: &Vec<Issue>,
    slots: &Vec<usize>,
    slot: usize,
    Ghost(configs): Ghost<Seq<HighlightLabelView>>,
) -> (found: Vec<IssueSummary>)
    requires
        slots.len() == issues.len(),
        forall|k: int|
            0 <= k < issues.len() ==> slots[k] as int == slot_of(
                (#[trigger] issues[k])@.labels,
                configs,
            ),
    ensures
        summary_views(found@) == group(issue_views(issues@), configs, slot as int),
{
    let mut found: Vec<IssueSummary> = Vec::new();
    let mut k: usize = 0;
    assert(issue_views(issues@).subrange(0, 0) =~= Seq::empty());
    assert(summary_views(found@) =~= Seq::empty());
    while k < issues.len()
        invariant
            k <= issues.len(),
            slots.len() == issues.len(),
            forall|j: int|
                0 <= j < issues.len() ==> slots[j] as int == slot_of(
                    (#[trigger] issues[j])@.labels,
                    configs,
                ),
            summary_views(found@) == group(
                issue_views(issues@).subrange(0, k as int),
                configs,
                slot as int,
            ),
        decreases issues.len() - k,
    {
        let ghost before = issue_views(issues@).subrange(0, k as int);
        let ghost after = issue_views(issues@).subrange(0, k + 1);
        assert(after.drop_last() =~= before);
        assert(after.last() == issues[k as int]@);
        if slots[k] == slot {
            let ghost shown = summary_views(found@);
            let summary = summarize(&issues[k]);
            found.push(summary);
            assert(summary_views(found@) =~= shown.push(summary_of(issues[k as int]@)));
        }
        k += 1;
    }
    assert(issue_views(issues@).subrange(0, issues.len() as int) =~= issue_views(issues@));
    found
}

/// A copy of an optional text, empty where there is none.
fn text_or_default(text: &Option<String>) -> (copy: String)
    ensures
        copy@ == text_or_empty(crate::text::opt_text(*text)),
{
    match text {
        Some(t) => t.clone(),
        None => String::new(),
    }
}

/// Groups the issues into the sections of a note.
///
/// Each issue goes to the section of the first highlight label that it
/// bears, or to the overflow section if it bears none. A section exists only
/// if it holds an issue. The sections come in the order of the highlight
/// labels, the overflow section last, so their indices increase and no two
/// sections share one; within a section the issues keep their order.
pub fn build_sections(issues: &Vec<Issue>, configs: &Vec<HighlightLabelConfig>) -> (sections: Vec<
    IssueSection,
>)
    ensures
        section_views(sections@) == note_sections(issue_views(issues@), highlight_views(configs@)),
{
    let ghost shown = issue_views(issues@);
    let ghost labels = highlight_views(configs@);
    let slots = section_slots(issues, configs);
    let mut sections: Vec<IssueSection> = Vec::new();
    let mut slot: usize = 0;
    assert(section_views(sections@) =~= highlight_sections(shown, labels, 0));
    while slot < configs.len()
        invariant
            slot <= configs.len(),
            shown == issue_views(issues@),
            labels == highlight_views(configs@),
            slots.len() == issues.len(),
            forall|k: int|
                0 <= k < issues.len() ==> slots[k] as int == slot_of(
                    (#[trigger] issues[k])@.labels,
                    labels,
                ),
            section_views(sections@) == highlight_sections(shown, labels, slot as int),
        decreases configs.len() - slot,
    {
        let found = collect_group(issues, &slots, slot, Ghost(labels));
        if found.len() > 0 {
            let ghost before = section_views(sections@);
            let section = IssueSection {
                index: slot as u64,
                title: text_or_default(&configs[slot].title),
                description: text_or_default(&configs[slot].description),
                issues: found,
            };
            assert(section@ == highlight_section(labels, slot as int, summary_views(found@)));
            sections.push(section);
            assert(section_views(sections@) =~= before.push(section@));
        }
        slot += 1;
    }
    let misc = collect_group(issues, &slots, slot, Ghost(labels));
    if misc.len() > 0 {
        let ghost before = section_views(sections@);
        let section = IssueSection {
            index: MISC_INDEX,
            title: String::from_str("Misc"),
            description: String::new(),
            issues: misc,
        };
        sections.push(section);
        assert(section_views(sections@) =~= before.push(section@));
    }
    sections
}

} // verus!
