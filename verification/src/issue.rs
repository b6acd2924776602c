//! The issue record that the library reads, and its mathematical view.

use vstd::prelude::*;
use crate::text::{texts, opt_text, clone_texts};

verus! {

/// A milestone that an issue can belong to.
#[derive(Debug)]
pub struct Milestone {
    /// The milestone's number within its repository.
    pub number: u64,
    /// The milestone's title.
    pub title: String,
}

/// What a milestone is: its number and the characters of its title.
pub ghost struct MilestoneView {
    pub number: u64,
    pub title: Seq<char>,
}

impl View for Milestone {
    type V = MilestoneView;

    open spec fn view(&self) -> MilestoneView {
        MilestoneView { number: self.number, title: self.title@ }
    }
}

impl Clone for Milestone {
    fn clone(&self) -> (copy: Milestone)
        ensures
            copy == *self,
    {
        Milestone { number: self.number, title: self.title.clone() }
    }
}

/// The view of an optional milestone.
pub open spec fn opt_milestone(m: Option<Milestone>) -> Option<MilestoneView> {
    match m {
        Some(milestone) => Some(milestone@),
        None => None,
    }
}

/// One issue of the tracker, as far as the library reads it.
#[derive(Debug)]
pub struct Issue {
    /// The issue's number, stable within its repository.
    pub number: u64,
    /// The issue's title.
    pub title: String,
    /// The issue's free-text body, if it has one.
    pub body: Option<String>,
    /// `open` or `closed`.
    pub state: String,
    /// The address of the issue's page.
    pub html_url: String,
    /// The names of the issue's labels, in the tracker's order.
    pub labels: Vec<String>,
    /// The logins of the issue's assignees.
    pub assignees: Vec<String>,
    /// The milestone that the issue belongs to, if any.
    pub milestone: Option<Milestone>,
    /// When the issue was created.
    pub created_at: String,
    /// When the issue was last updated.
    pub updated_at: String,
    /// When the issue was closed, if it was.
    pub closed_at: Option<String>,
}

/// What an issue is: its fields, with every string as its characters.
pub ghost struct IssueView {
    pub number: u64,
    pub title: Seq<char>,
    pub body: Option<Seq<char>>,
    pub state: Seq<char>,
    pub html_url: Seq<char>,
    pub labels: Seq<Seq<char>>,
    pub assignees: Seq<Seq<char>>,
    pub milestone: Option<MilestoneView>,
    pub created_at: Seq<char>,
    pub updated_at: Seq<char>,
    pub closed_at: Option<Seq<char>>,
}

impl View for Issue {
    type V = IssueView;

    open spec fn view(&self) -> IssueView {
        IssueView {
            number: self.number,
            title: self.title@,
            body: opt_text(self.body),
            state: self.state@,
            html_url: self.html_url@,
            labels: texts(self.labels@),
            assignees: texts(self.assignees@),
            milestone: opt_milestone(self.milestone),
            created_at: self.created_at@,
            updated_at: self.updated_at@,
            closed_at: opt_text(self.closed_at),
        }
    }
}

/// The views of a list of issues, in order.
pub open spec fn issue_views(issues: Seq<Issue>) -> Seq<IssueView> {
    Seq::new(issues.len(), |i: int| issues[i]@)
}

/// A copy of an optional string.
pub fn clone_opt_text(s: &Option<String>) -> (copy: Option<String>)
    ensures
        copy == *s,
{
    match s {
        Some(text) => Some(text.clone()),
        None => None,
    }
}

impl Clone for Issue {
    fn clone(&self) -> (copy: Issue)
        ensures
            copy@ == self@,
    {
        let milestone = match &self.milestone {
            Some(m) => Some(m.clone()),
            None => None,
        };
        Issue {
            number: self.number,
            title: self.title.clone(),
            body: clone_opt_text(&self.body),
            state: self.state.clone(),
            html_url: self.html_url.clone(),
            labels: clone_texts(&self.labels),
            assignees: clone_texts(&self.assignees),
            milestone,
            created_at: self.created_at.clone(),
            updated_at: self.updated_at.clone(),
            closed_at: clone_opt_text(&self.closed_at),
        }
    }
}

} // verus!
