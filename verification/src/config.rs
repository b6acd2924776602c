//! The configuration of a search and of a note.

use vstd::prelude::*;
use crate::text::{opt_text, opt_texts};

verus! {

/// The direction in which found issues are ordered by creation time.
#[derive(Debug, Clone, Copy, PartialEq, Eq, Structural)]
pub enum IssueSort {
    /// Oldest first.
    Asc,
    /// Newest first.
    Desc,
}

/// A label whose issues get a section of their own.
#[derive(Debug)]
pub struct HighlightLabelConfig {
    /// The label's name.
    pub label: String,
    /// The section's heading; none stands for an empty heading.
    pub title: Option<String>,
    /// The line under the heading; none stands for an empty line.
    pub description: Option<String>,
}

/// What a highlight label is: its fields, with every string as its characters.
pub ghost struct HighlightLabelView {
    pub label: Seq<char>,
    pub title: Option<Seq<char>>,
    pub description: Option<Seq<char>>,
}

impl View for HighlightLabelConfig {
    type V = HighlightLabelView;

    open spec fn view(&self) -> HighlightLabelView {
        HighlightLabelView {
            label: self.label@,
            title: opt_text(self.title),
            description: opt_text(self.description),
        }
    }
}

impl Default for HighlightLabelConfig {
    fn default() -> (config: HighlightLabelConfig)
        ensures
            config@ == (HighlightLabelView { label: Seq::empty(), title: None, description: None }),
    {
        HighlightLabelConfig { label: String::new(), title: None, description: None }
    }
}

/// The views of a list of highlight labels, in order.
pub open spec fn highlight_views(list: Seq<HighlightLabelConfig>) -> Seq<HighlightLabelView> {
    Seq::new(list.len(), |i: int| list[i]@)
}

/// The views of an optional list of highlight labels.
pub open spec fn opt_highlight_views(list: Option<Vec<HighlightLabelConfig>>) -> Option<
    Seq<HighlightLabelView>,
> {
    match list {
        Some(labels) => Some(highlight_views(labels@)),
        None => None,
    }
}

/// What to search for and how to lay out the note.
#[derive(Debug)]
pub struct NoteConfig {
    /// The repository's owner.
    pub owner: String,
    /// The repository's name.
    pub repo: String,
    /// The access token; handed on, never read.
    pub token: String,
    /// `open`, `closed`, or anything else for both.
    pub state: String,
    /// The text of the outer template, which holds `{content}`.
    pub note: Option<String>,
    /// Only issues of the milestone with this title are kept.
    pub milestone: Option<String>,
    /// Only issues updated since this time are searched for; without it,
    /// those updated since the latest release.
    pub since: Option<String>,
    /// Whether the note lists contributors.
    pub show_contributor: bool,
    /// Contributors to list besides the assignees.
    pub extra_contributors: Option<Vec<String>>,
    /// Numbers of issues to leave out.
    pub exclude_issues: Option<Vec<u64>>,
    /// The order of the found issues by creation time.
    pub sort: Option<IssueSort>,
    /// Labels that a found issue must all bear.
    pub labels: Option<Vec<String>>,
    /// Labels of which each is searched for by itself.
    pub any_labels: Option<Vec<String>>,
    /// Labels that a kept issue must not bear.
    pub exclude_labels: Option<Vec<String>>,
    /// The labels with a section of their own, in the order of the sections.
    pub highlight_labels: Option<Vec<HighlightLabelConfig>>,
}

/// What a configuration is: its fields, with every string as its characters.
pub ghost struct NoteConfigView {
    pub owner: Seq<char>,
    pub repo: Seq<char>,
    pub token: Seq<char>,
    pub state: Seq<char>,
    pub note: Option<Seq<char>>,
    pub milestone: Option<Seq<char>>,
    pub since: Option<Seq<char>>,
    pub show_contributor: bool,
    pub extra_contributors: Option<Seq<Seq<char>>>,
    pub exclude_issues: Option<Seq<u64>>,
    pub sort: Option<IssueSort>,
    pub labels: Option<Seq<Seq<char>>>,
    pub any_labels: Option<Seq<Seq<char>>>,
    pub exclude_labels: Option<Seq<Seq<char>>>,
    pub highlight_labels: Option<Seq<HighlightLabelView>>,
}

/// The numbers of an optional list.
pub open spec fn opt_numbers(list: Option<Vec<u64>>) -> Option<Seq<u64>> {
    match list {
        Some(numbers) => Some(numbers@),
        None => None,
    }
}

impl View for NoteConfig {
    type V = NoteConfigView;

    open spec fn view(&self) -> NoteConfigView {
        NoteConfigView {
            owner: self.owner@,
            repo: self.repo@,
            token: self.token@,
            state: self.state@,
            note: opt_text(self.note),
            milestone: opt_text(self.milestone),
            since: opt_text(self.since),
            show_contributor: self.show_contributor,
            extra_contributors: opt_texts(self.extra_contributors),
            exclude_issues: opt_numbers(self.exclude_issues),
            sort: self.sort,
            labels: opt_texts(self.labels),
            any_labels: opt_texts(self.any_labels),
            exclude_labels: opt_texts(self.exclude_labels),
            highlight_labels: opt_highlight_views(self.highlight_labels),
        }
    }
}

/// The configuration in which every text is empty and nothing else is set.
pub open spec fn empty_config() -> NoteConfigView {
    NoteConfigView {
        owner: Seq::empty(),
        repo: Seq::empty(),
        token: Seq::empty(),
        state: Seq::empty(),
        note: None,
        milestone: None,
        since: None,
        show_contributor: false,
        extra_contributors: None,
        exclude_issues: None,
        sort: None,
        labels: None,
        any_labels: None,
        exclude_labels: None,
        highlight_labels: None,
    }
}

impl Default for NoteConfig {
    fn default() -> (config: NoteConfig)
        ensures
            config@ == empty_config(),
    {
        NoteConfig {
            owner: String::new(),
            repo: String::new(),
            token: String::new(),
            state: String::new(),
            note: None,
            milestone: None,
            since: None,
            show_contributor: false,
            extra_contributors: None,
            exclude_issues: None,
            sort: None,
            labels: None,
            any_labels: None,
            exclude_labels: None,
            highlight_labels: None,
        }
    }
}

impl NoteConfig {
    /// The configuration of a repository: owner, name and token as given,
    /// everything else as in the default.
    pub fn new(owner: &str, repo: &str, token: &str) -> (config: NoteConfig)
        ensures
            config@ == (NoteConfigView {
                owner: owner@,
                repo: repo@,
                token: token@,
                ..empty_config()
            }),
    {
        let mut config = NoteConfig::default();
        config.owner = String::from_str(owner);
        config.repo = String::from_str(repo);
        config.token = String::from_str(token);
        config
    }

    /// Replaces the token, the owner and the repository by those given, and
    /// leaves the rest as it is.
    pub fn override_with(
        &mut self,
        token: Option<String>,
        owner: Option<String>,
        repo: Option<String>,
    )
        ensures
            final(self)@ == (NoteConfigView {
                token: if token is Some { token->0@ } else { old(self)@.token },
                owner: if owner is Some { owner->0@ } else { old(self)@.owner },
                repo: if repo is Some { repo->0@ } else { old(self)@.repo },
                ..old(self)@
            }),
    {
        if let Some(value) = token {
            self.token = value;
        }
        if let Some(value) = owner {
            self.owner = value;
        }
        if let Some(value) = repo {
            self.repo = value;
        }
    }
}

} // verus!
