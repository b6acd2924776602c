//! The filter that decides which found issues are kept.
//!
//! An issue without a milestone is never kept, whether or not the
//! configuration names a milestone: a note speaks of what a milestone
//! delivered.

use vstd::prelude::*;
use crate::config::{NoteConfig, NoteConfigView};
use crate::issue::{Issue, IssueView};
use crate::text::{contains_text, texts};

verus! {

/// Whether the configuration leaves the issue out by its number.
pub open spec fn excluded_by_number(issue: IssueView, config: NoteConfigView) -> bool {
    config.exclude_issues matches Some(numbers) && numbers.contains(issue.number)
}

/// Whether the issue belongs to a milestone, and to the configured one
/// where the configuration names one.
pub open spec fn milestone_matches(issue: IssueView, config: NoteConfigView) -> bool {
    issue.milestone matches Some(milestone) && (config.milestone matches Some(title)
        ==> milestone.title == title)
}

/// Whether the issue bears one of the labels in `excluded`.
pub open spec fn bears_any(labels: Seq<Seq<char>>, excluded: Seq<Seq<char>>) -> bool {
    exists|i: int| 0 <= i < labels.len() && excluded.contains(#[trigger] labels[i])
}

/// Whether the issue bears a label that the configuration excludes.
pub open spec fn excluded_by_label(issue: IssueView, config: NoteConfigView) -> bool {
    config.exclude_labels matches Some(excluded) && bears_any(issue.labels, excluded)
}

/// Whether the configuration keeps the issue: it is not excluded by its
/// number, it belongs to a milestone (the configured one, if one is
/// configured), and it bears no excluded label.
pub open spec fn accepts(issue: IssueView, config: NoteConfigView) -> bool {
    &&& !excluded_by_number(issue, config)
    &&& milestone_matches(issue, config)
    &&& !excluded_by_label(issue, config)
}

/// Whether `number` occurs in `numbers`.
pub fn contains_number(numbers: &Vec<u64>, number: u64) -> (found: bool)
    ensures
        found == numbers@.contains(number),
{
    let mut i: usize = 0;
    while i < numbers.len()
        invariant
            i <= numbers.len(),
            forall|j: int| 0 <= j < i ==> numbers[j] != number,
        decreases numbers.len() - i,
    {
        if numbers[i] == number {
            return true;
        }
        i += 1;
    }
    false
}

/// Whether one of `labels` occurs in `excluded`.
pub fn bears_any_label(labels: &Vec<String>, excluded: &Vec<String>) -> (found: bool)
    ensures
        found == bears_any(texts(labels@), texts(excluded@)),
{
    let mut i: usize = 0;
    while i < labels.len()
        invariant
            i <= labels.len(),
            forall|j: int| 0 <= j < i ==> !texts(excluded@).contains(#[trigger] texts(labels@)[j]),
        decreases labels.len() - i,
    {
        if contains_text(excluded, &labels[i]) {
            assert(texts(excluded@).contains(texts(labels@)[i as int]));
            return true;
        }
        i += 1;
    }
    false
}

/// Decides whether a found issue is kept.
pub fn filter_issue(config: &NoteConfig, issue: &Issue) -> (kept: bool)
    ensures
        kept == accepts(issue@, config@),
{
    if let Some(numbers) = &config.exclude_issues {
        if contains_number(numbers, issue.number) {
            return false;
        }
    }
    match &issue.milestone {
        Some(milestone) => {
            if let Some(title) = &config.milestone {
                if milestone.title != *title {
                    return false;
                }
            }
        },
        None => {
            return false;
        },
    }
    if let Some(excluded) = &config.exclude_labels {
        if bears_any_label(&issue.labels, excluded) {
            return false;
        }
    }
    true
}

/// An issue without a milestone is never kept.
pub proof fn lemma_no_milestone_rejected(issue: IssueView, config: NoteConfigView)
    requires
        issue.milestone is None,
    ensures
        !accepts(issue, config),
{
}

/// An issue that bears an excluded label is never kept, whatever else holds
/// of it.
pub proof fn lemma_excluded_label_rejected(
    issue: IssueView,
    config: NoteConfigView,
    label: Seq<char>,
)
    requires
        issue.labels.contains(label),
        config.exclude_labels matches Some(excluded) && excluded.contains(label),
    ensures
        !accepts(issue, config),
{
    let i = choose|i: int| 0 <= i < issue.labels.len() && issue.labels[i] == label;
    assert(config.exclude_labels->0.contains(issue.labels[i]));
}

} // verus!
