//! Patches for bulk edits: what an issue is to become, computed from the
//! issue as it was found.

use vstd::prelude::*;
use crate::error::NoteError;
use crate::issue::{Issue, IssueView, Milestone, MilestoneView, clone_opt_text, issue_views};
use crate::text::{clone_texts, contains_text, lemma_texts_push, opt_text, opt_texts, texts};

verus! {

/// The milestone number that takes an issue out of its milestone.
pub const NO_MILESTONE: u64 = 0;

/// What an issue is to become. A patch replaces the issue's title, body,
/// assignees, milestone, labels and state as a whole.
#[derive(Debug)]
pub struct IssuePatch {
    pub title: String,
    pub body: Option<String>,
    pub assignee: Option<String>,
    pub assignees: Option<Vec<String>>,
    pub milestone: Option<u64>,
    pub labels: Vec<String>,
    pub state: String,
}

/// What a patch is: its fields, with every string as its characters.
pub ghost struct IssuePatchView {
    pub title: Seq<char>,
    pub body: Option<Seq<char>>,
    pub assignee: Option<Seq<char>>,
    pub assignees: Option<Seq<Seq<char>>>,
    pub milestone: Option<u64>,
    pub labels: Seq<Seq<char>>,
    pub state: Seq<char>,
}

impl View for IssuePatch {
    type V = IssuePatchView;

    open spec fn view(&self) -> IssuePatchView {
        IssuePatchView {
            title: self.title@,
            body: opt_text(self.body),
            assignee: opt_text(self.assignee),
            assignees: opt_texts(self.assignees),
            milestone: self.milestone,
            labels: texts(self.labels@),
            state: self.state@,
        }
    }
}

/// Whether labels are added to the issues or removed from them.
#[derive(Debug, Clone, Copy, PartialEq, Eq, Structural)]
pub enum IssueLabelUpdateType {
    Add,
    Remove,
}

/// The labels after adding `requested` to `current`: those of `current`,
/// then each requested label that is not there yet, once.
pub open spec fn labels_added(current: Seq<Seq<char>>, requested: Seq<Seq<char>>) -> Seq<Seq<char>>
    decreases requested.len(),
{
    if requested.len() == 0 {
        current
    } else {
        let before = labels_added(current, requested.drop_last());
        if before.contains(requested.last()) {
            before
        } else {
            before.push(requested.last())
        }
    }
}

/// The labels after removing `requested` from `current`: those of `current`
/// that are not requested, in their order.
pub open spec fn labels_removed(current: Seq<Seq<char>>, requested: Seq<Seq<char>>) -> Seq<
    Seq<char>,
>
    decreases current.len(),
{
    if current.len() == 0 {
        Seq::empty()
    } else if requested.contains(current.last()) {
        labels_removed(current.drop_last(), requested)
    } else {
        labels_removed(current.drop_last(), requested).push(current.last())
    }
}

/// The labels of an issue after an update of its labels.
pub open spec fn labels_updated(
    current: Seq<Seq<char>>,
    requested: Seq<Seq<char>>,
    update_type: IssueLabelUpdateType,
) -> Seq<Seq<char>> {
    match update_type {
        IssueLabelUpdateType::Add => labels_added(current, requested),
        IssueLabelUpdateType::Remove => labels_removed(current, requested),
    }
}

/// The number of an issue's milestone, if it has one.
pub open spec fn milestone_number(milestone: Option<MilestoneView>) -> Option<u64> {
    match milestone {
        Some(m) => Some(m.number),
        None => None,
    }
}

/// The patch that keeps an issue's title, body, assignees and state, and
/// sets its labels and its milestone.
pub open spec fn patch_of(issue: IssueView, labels: Seq<Seq<char>>, milestone: Option<u64>)
    -> IssuePatchView {
    IssuePatchView {
        title: issue.title,
        body: issue.body,
        assignee: None,
        assignees: Some(issue.assignees),
        milestone,
        labels,
        state: issue.state,
    }
}

/// The patch that updates an issue's labels and keeps everything else.
pub open spec fn label_patch_of(
    issue: IssueView,
    requested: Seq<Seq<char>>,
    update_type: IssueLabelUpdateType,
) -> IssuePatchView {
    patch_of(
        issue,
        labels_updated(issue.labels, requested, update_type),
        milestone_number(issue.milestone),
    )
}

/// The patch that sets an issue's milestone and keeps everything else.
pub open spec fn milestone_patch_of(issue: IssueView, milestone: u64) -> IssuePatchView {
    patch_of(issue, issue.labels, Some(milestone))
}

/// The views of a list of updates: each issue's number with its patch.
pub open spec fn update_views(updates: Seq<(u64, IssuePatch)>) -> Seq<(u64, IssuePatchView)> {
    Seq::new(updates.len(), |i: int| (updates[i].0, updates[i].1@))
}

/// Adds the requested labels to the current ones, none twice.
pub fn add_labels(current: &Vec<String>, requested: &Vec<String>) -> (labels: Vec<String>)
    ensures
        texts(labels@) == labels_added(texts(current@), texts(requested@)),
{
    let mut labels = clone_texts(current);
    let mut i: usize = 0;
    assert(texts(requested@).subrange(0, 0) =~= Seq::<Seq<char>>::empty());
    while i < requested.len()
        invariant
            i <= requested.len(),
            texts(labels@) == labels_added(
                texts(current@),
                texts(requested@).subrange(0, i as int),
            ),
        decreases requested.len() - i,
    {
        let ghost done = texts(requested@).subrange(0, i as int);
        let ghost next = texts(requested@).subrange(0, i + 1);
        assert(next.drop_last() =~= done);
        assert(next.last() == requested[i as int]@);
        if !contains_text(&labels, &requested[i]) {
            proof {
                lemma_texts_push(labels@, requested[i as int]);
            }
            labels.push(requested[i].clone());
        }
        i += 1;
    }
    assert(texts(requested@).subrange(0, requested.len() as int) =~= texts(requested@));
    labels
}

/// Removes the requested labels from the current ones.
pub fn remove_labels(current: &Vec<String>, requested: &Vec<String>) -> (labels: Vec<String>)
    ensures
        texts(labels@) == labels_removed(texts(current@), texts(requested@)),
{
    let mut labels: Vec<String> = Vec::new();
    let mut i: usize = 0;
    assert(texts(current@).subrange(0, 0) =~= Seq::<Seq<char>>::empty());
    assert(texts(labels@) =~= Seq::<Seq<char>>::empty());
    while i < current.len()
        invariant
            i <= current.len(),
            texts(labels@) == labels_removed(
                texts(current@).subrange(0, i as int),
                texts(requested@),
            ),
        decreases current.len() - i,
    {
        let ghost done = texts(current@).subrange(0, i as int);
        let ghost next = texts(current@).subrange(0, i + 1);
        assert(next.drop_last() =~= done);
        assert(next.last() == current[i as int]@);
        if !contains_text(requested, &current[i]) {
            proof {
                lemma_texts_push(labels@, current[i as int]);
            }
            labels.push(current[i].clone());
        }
        i += 1;
    }
    assert(texts(current@).subrange(0, current.len() as int) =~= texts(current@));
    labels
}

/// The patch that keeps the issue's title, body, assignees and state, and
/// sets its labels and its milestone.
pub fn make_patch(issue: &Issue, labels: Vec<String>, milestone: Option<u64>) -> (patch: IssuePatch)
    ensures
        patch@ == patch_of(issue@, texts(labels@), milestone),
{
    IssuePatch {
        title: issue.title.clone(),
        body: clone_opt_text(&issue.body),
        assignee: None,
        assignees: Some(clone_texts(&issue.assignees)),
        milestone,
        labels,
        state: issue.state.clone(),
    }
}

/// The label updates of a list of issues: for each issue its number and the
/// patch that updates its labels.
pub open spec fn label_updates_of(
    issues: Seq<IssueView>,
    requested: Seq<Seq<char>>,
    update_type: IssueLabelUpdateType,
) -> Seq<(u64, IssuePatchView)> {
    Seq::new(
        issues.len(),
        |i: int| (issues[i].number, label_patch_of(issues[i], requested, update_type)),
    )
}

/// Computes the label updates of the issues: to each issue the requested
/// labels are added, none twice, or from each they are removed.
pub fn create_issues_info_to_update(
    issues: &Vec<Issue>,
    filtered_labels: &Vec<String>,
    update_type: &IssueLabelUpdateType,
) -> (updates: Vec<(u64, IssuePatch)>)
    ensures
        update_views(updates@) == label_updates_of(
            issue_views(issues@),
            texts(filtered_labels@),
            *update_type,
        ),
{
    let mut updates: Vec<(u64, IssuePatch)> = Vec::new();
    let mut i: usize = 0;
    while i < issues.len()
        invariant
            i <= issues.len(),
            updates.len() == i,
            forall|j: int|
                0 <= j < i ==> (#[trigger] updates[j]).0 == issues[j].number && updates[j].1@
                    == label_patch_of(issues[j]@, texts(filtered_labels@), *update_type),
        decreases issues.len() - i,
    {
        let issue = &issues[i];
        let labels = match update_type {
            IssueLabelUpdateType::Add => add_labels(&issue.labels, filtered_labels),
            IssueLabelUpdateType::Remove => remove_labels(&issue.labels, filtered_labels),
        };
        let milestone = match &issue.milestone {
            Some(m) => Some(m.number),
            None => None,
        };
        updates.push((issue.number, make_patch(issue, labels, milestone)));
        i += 1;
    }
    assert(update_views(updates@) =~= label_updates_of(
        issue_views(issues@),
        texts(filtered_labels@),
        *update_type,
    ));
    updates
}

/// The milestone updates of a list of issues: for each issue its number and
/// the patch that sets its milestone.
pub open spec fn milestone_updates_of(issues: Seq<IssueView>, milestone: u64) -> Seq<
    (u64, IssuePatchView),
> {
    Seq::new(issues.len(), |i: int| (issues[i].number, milestone_patch_of(issues[i], milestone)))
}

/// Computes the updates that set the milestone of each issue to the one of
/// number `milestone` and keep everything else.
pub fn create_milestone_updates(issues: &Vec<Issue>, milestone: u64) -> (updates: Vec<
    (u64, IssuePatch),
>)
    ensures
        update_views(updates@) == milestone_updates_of(issue_views(issues@), milestone),
{
    let mut updates: Vec<(u64, IssuePatch)> = Vec::new();
    let mut i: usize = 0;
    while i < issues.len()
        invariant
            i <= issues.len(),
            updates.len() == i,
            forall|j: int|
                0 <= j < i ==> (#[trigger] updates[j]).0 == issues[j].number && updates[j].1@
                    == milestone_patch_of(issues[j]@, milestone),
        decreases issues.len() - i,
    {
        let issue = &issues[i];
        let labels = clone_texts(&issue.labels);
        updates.push((issue.number, make_patch(issue, labels, Some(milestone))));
        i += 1;
    }
    assert(update_views(updates@) =~= milestone_updates_of(issue_views(issues@), milestone));
    updates
}

/// The views of a list of milestones.
pub open spec fn milestone_views(milestones: Seq<Milestone>) -> Seq<MilestoneView> {
    Seq::new(milestones.len(), |i: int| milestones[i]@)
}

/// Whether `at` is the first place of a milestone with this title.
pub open spec fn first_with_title(milestones: Seq<MilestoneView>, title: Seq<char>, at: int)
    -> bool {
    &&& 0 <= at < milestones.len()
    &&& milestones[at].title == title
    &&& forall|j: int| 0 <= j < at ==> (#[trigger] milestones[j]).title != title
}

/// Whether some milestone has this title.
pub open spec fn has_title(milestones: Seq<MilestoneView>, title: Seq<char>) -> bool {
    exists|j: int| 0 <= j < milestones.len() && (#[trigger] milestones[j]).title == title
}

/// Finds the milestone with exactly this title among the repository's
/// milestones: the first one, if there are several. Where there is none,
/// the error names the title.
pub fn get_milestone(milestones: &Vec<Milestone>, title: &str) -> (result: Result<
    Milestone,
    NoteError,
>)
    ensures
        match result {
            Ok(found) => exists|at: int|
                first_with_title(milestone_views(milestones@), title@, at) && found@
                    == milestone_views(milestones@)[at],
            Err(error) => !has_title(milestone_views(milestones@), title@) && (
            error matches NoteError::MilestoneNotFound(named) && named@ == title@),
        },
{
    let wanted = String::from_str(title);
    let mut i: usize = 0;
    while i < milestones.len()
        invariant
            i <= milestones.len(),
            wanted@ == title@,
            forall|j: int|
                0 <= j < i ==> (#[trigger] milestone_views(milestones@)[j]).title != title@,
        decreases milestones.len() - i,
    {
        if milestones[i].title == wanted {
            let found = milestones[i].clone();
            assert(first_with_title(milestone_views(milestones@), title@, i as int));
            return Ok(found);
        }
        i += 1;
    }
    Err(NoteError::MilestoneNotFound(wanted))
}

} // verus!
