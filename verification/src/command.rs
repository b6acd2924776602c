//! The commands of the tool, by name.

use vstd::prelude::*;
use crate::config::{HighlightLabelConfig, HighlightLabelView, NoteConfig, NoteConfigView, empty_config};
use crate::error::NoteError;
use crate::issue::{Issue, Milestone, issue_views};
use crate::note::{body_of, is_note_result, note_of, render_note};
use crate::patch::{
    IssueLabelUpdateType, IssuePatch, NO_MILESTONE, create_issues_info_to_update,
    create_milestone_updates, first_with_title, get_milestone, has_title, label_updates_of,
    milestone_updates_of, milestone_views, update_views,
};
use crate::query::{search_query, search_query_text};
use crate::text::texts;

verus! {

/// The configuration that the tool prints for a user to start from: every
/// field empty, and one highlight label with nothing filled in.
pub open spec fn starting_config() -> NoteConfigView {
    NoteConfigView {
        highlight_labels: Some(
            seq![HighlightLabelView { label: Seq::empty(), title: None, description: None }],
        ),
        ..empty_config()
    }
}

/// Makes the configuration to start from.
pub fn example_config() -> (config: NoteConfig)
    ensures
        config@ == starting_config(),
{
    let mut config = NoteConfig::default();
    let mut labels: Vec<HighlightLabelConfig> = Vec::new();
    labels.push(HighlightLabelConfig::default());
    assert(crate::config::highlight_views(labels@) =~= seq![
        HighlightLabelView { label: Seq::empty(), title: None, description: None },
    ]);
    config.highlight_labels = Some(labels);
    config
}

/// Adds labels to the issues that a query finds.
#[derive(Debug, Clone, Copy, PartialEq, Eq, Structural)]
pub struct AddLabelCommand;

impl AddLabelCommand {
    pub fn new() -> (command: Self)
        ensures
            command == AddLabelCommand,
    {
        AddLabelCommand
    }

    /// The name by which the command is called.
    pub fn name(&self) -> (name: &'static str)
        ensures
            name@ == "add-label"@,
    {
        "add-label"
    }

    /// The updates that add `labels` to each issue, none twice.
    pub fn updates(&self, issues: &Vec<Issue>, labels: &Vec<String>) -> (updates: Vec<
        (u64, IssuePatch),
    >)
        ensures
            update_views(updates@) == label_updates_of(
                issue_views(issues@),
                texts(labels@),
                IssueLabelUpdateType::Add,
            ),
    {
        create_issues_info_to_update(issues, labels, &IssueLabelUpdateType::Add)
    }
}

/// Removes labels from the issues that a query finds.
#[derive(Debug, Clone, Copy, PartialEq, Eq, Structural)]
pub struct RemoveLabelCommand;

impl RemoveLabelCommand {
    pub fn new() -> (command: Self)
        ensures
            command == RemoveLabelCommand,
    {
        RemoveLabelCommand
    }

    /// The name by which the command is called.
    pub fn name(&self) -> (name: &'static str)
        ensures
            name@ == "remove-label"@,
    {
        "remove-label"
    }

    /// The updates that remove `labels` from each issue.
    pub fn updates(&self, issues: &Vec<Issue>, labels: &Vec<String>) -> (updates: Vec<
        (u64, IssuePatch),
    >)
        ensures
            update_views(updates@) == label_updates_of(
                issue_views(issues@),
                texts(labels@),
                IssueLabelUpdateType::Remove,
            ),
    {
        create_issues_info_to_update(issues, labels, &IssueLabelUpdateType::Remove)
    }
}

/// Assigns the issues that a query finds to a milestone.
#[derive(Debug, Clone, Copy, PartialEq, Eq, Structural)]
pub struct AssignMilestoneCommand;

impl AssignMilestoneCommand {
    pub fn new() -> (command: Self)
        ensures
            command == AssignMilestoneCommand,
    {
        AssignMilestoneCommand
    }

    /// The name by which the command is called.
    pub fn name(&self) -> (name: &'static str)
        ensures
            name@ == "assign-milestone"@,
    {
        "assign-milestone"
    }

    /// The updates that assign each issue to the milestone of this title,
    /// which is looked up among the repository's milestones. Where no
    /// milestone has the title, the error names it.
    pub fn updates(&self, issues: &Vec<Issue>, milestones: &Vec<Milestone>, title: &str) -> (result:
        Result<Vec<(u64, IssuePatch)>, NoteError>)
        ensures
            match result {
                Ok(updates) => exists|at: int|
                    first_with_title(milestone_views(milestones@), title@, at) && update_views(
                        updates@,
                    ) == milestone_updates_of(
                        issue_views(issues@),
                        milestone_views(milestones@)[at].number,
                    ),
                Err(error) => !has_title(milestone_views(milestones@), title@) && (
                error matches NoteError::MilestoneNotFound(named) && named@ == title@),
            },
    {
        match get_milestone(milestones, title) {
            Ok(milestone) => Ok(create_milestone_updates(issues, milestone.number)),
            Err(error) => Err(error),
        }
    }
}

/// Takes the issues that a query finds out of their milestone.
#[derive(Debug, Clone, Copy, PartialEq, Eq, Structural)]
pub struct UnassignMilestoneCommand;

impl UnassignMilestoneCommand {
    pub fn new() -> (command: Self)
        ensures
            command == UnassignMilestoneCommand,
    {
        UnassignMilestoneCommand
    }

    /// The name by which the command is called.
    pub fn name(&self) -> (name: &'static str)
        ensures
            name@ == "unassign-milestone"@,
    {
        "unassign-milestone"
    }

    /// The updates that take each issue out of its milestone.
    pub fn updates(&self, issues: &Vec<Issue>) -> (updates: Vec<(u64, IssuePatch)>)
        ensures
            update_views(updates@) == milestone_updates_of(issue_views(issues@), NO_MILESTONE),
    {
        create_milestone_updates(issues, NO_MILESTONE)
    }
}

/// Lists the issues that a query finds.
#[derive(Debug, Clone, Copy, PartialEq, Eq, Structural)]
pub struct SearchIssueCommand;

impl SearchIssueCommand {
    pub fn new() -> (command: Self)
        ensures
            command == SearchIssueCommand,
    {
        SearchIssueCommand
    }

    /// The name by which the command is called.
    pub fn name(&self) -> (name: &'static str)
        ensures
            name@ == "search"@,
    {
        "search"
    }

    /// The text of the search: the caller's query and the filters of the
    /// configuration.
    pub fn query(&self, config: &NoteConfig, query: &str) -> (text: String)
        ensures
            text@ == search_query_text(config@, query@),
    {
        search_query(config, query)
    }
}

/// Creates the release note.
#[derive(Debug, Clone, Copy, PartialEq, Eq, Structural)]
pub struct CreateNoteCommand;

impl CreateNoteCommand {
    pub fn new() -> (command: Self)
        ensures
            command == CreateNoteCommand,
    {
        CreateNoteCommand
    }

    /// The name by which the command is called.
    pub fn name(&self) -> (name: &'static str)
        ensures
            name@ == "create"@,
    {
        "create"
    }

    /// The note for the found issues.
    pub fn note(&self, config: &NoteConfig, issues: &Vec<Issue>) -> (result: Result<
        String,
        NoteError,
    >)
        ensures
            is_note_result(
                result,
                body_of(config@, issue_views(issues@)),
                note_of(config@, issue_views(issues@)),
            ),
    {
        render_note(config, issues)
    }
}

/// Prints a note configuration to start from.
#[derive(Debug, Clone, Copy, PartialEq, Eq, Structural)]
pub struct NodeConfigCommand;

impl NodeConfigCommand {
    pub fn new() -> (command: Self)
        ensures
            command == NodeConfigCommand,
    {
        NodeConfigCommand
    }

    /// The name by which the command is called.
    pub fn name(&self) -> (name: &'static str)
        ensures
            name@ == "config"@,
    {
        "config"
    }

    /// A configuration to start from: every field empty, with one empty
    /// highlight label to fill in.
    pub fn config(&self) -> (config: NoteConfig)
        ensures
            config@ == starting_config(),
    {
        example_config()
    }
}

/// Prints a search configuration to start from.
#[derive(Debug, Clone, Copy, PartialEq, Eq, Structural)]
pub struct GenerateTemplateCommand;

impl GenerateTemplateCommand {
    pub fn new() -> (command: Self)
        ensures
            command == GenerateTemplateCommand,
    {
        GenerateTemplateCommand
    }

    /// The name by which the command is called.
    pub fn name(&self) -> (name: &'static str)
        ensures
            name@ == "template"@,
    {
        "template"
    }

    /// A configuration to start from: every field empty, with one empty
    /// highlight label to fill in.
    pub fn config(&self) -> (config: NoteConfig)
        ensures
            config@ == starting_config(),
    {
        example_config()
    }
}

/// A command of the issue group.
#[derive(Debug, Clone, Copy, PartialEq, Eq, Structural)]
pub enum IssueCommandKind {
    AddLabel,
    RemoveLabel,
    AssignMilestone,
    UnassignMilestone,
    Search,
}

/// The command of the issue group that is called by this name.
pub open spec fn issue_command_named(name: Seq<char>) -> Option<IssueCommandKind> {
    if name == "add-label"@ {
        Some(IssueCommandKind::AddLabel)
    } else if name == "remove-label"@ {
        Some(IssueCommandKind::RemoveLabel)
    } else if name == "assign-milestone"@ {
        Some(IssueCommandKind::AssignMilestone)
    } else if name == "unassign-milestone"@ {
        Some(IssueCommandKind::UnassignMilestone)
    } else if name == "search"@ {
        Some(IssueCommandKind::Search)
    } else {
        None
    }
}

/// Whether `name` is `wanted`.
fn is_named(name: &String, wanted: &str) -> (same: bool)
    ensures
        same == (name@ == wanted@),
{
    *name == String::from_str(wanted)
}

/// The group of the commands on issues.
#[derive(Debug, Clone, Copy, PartialEq, Eq, Structural)]
pub struct IssueCommand;

impl IssueCommand {
    pub fn new() -> (command: Self)
        ensures
            command == IssueCommand,
    {
        IssueCommand
    }

    /// The name by which the group is called.
    pub fn name(&self) -> (name: &'static str)
        ensures
            name@ == "issue"@,
    {
        "issue"
    }

    /// The command of the group that is called by this name, if there is
    /// one.
    pub fn find(&self, name: &str) -> (found: Option<IssueCommandKind>)
        ensures
            found == issue_command_named(name@),
    {
        let name = String::from_str(name);
        if is_named(&name, AddLabelCommand::new().name()) {
            Some(IssueCommandKind::AddLabel)
        } else if is_named(&name, RemoveLabelCommand::new().name()) {
            Some(IssueCommandKind::RemoveLabel)
        } else if is_named(&name, AssignMilestoneCommand::new().name()) {
            Some(IssueCommandKind::AssignMilestone)
        } else if is_named(&name, UnassignMilestoneCommand::new().name()) {
            Some(IssueCommandKind::UnassignMilestone)
        } else if is_named(&name, SearchIssueCommand::new().name()) {
            Some(IssueCommandKind::Search)
        } else {
            None
        }
    }

    /// Checks what a command of the group needs before it runs: the owner,
    /// the repository and the token must all be given.
    pub fn validate(&self, has_owner: bool, has_repo: bool, has_token: bool) -> (result: Result<
        (),
        NoteError,
    >)
        ensures
            result is Ok <==> (has_owner && has_repo && has_token),
            result matches Err(error) ==> error is MissingGithubArgs,
    {
        if has_owner && has_repo && has_token {
            Ok(())
        } else {
            Err(NoteError::MissingGithubArgs)
        }
    }
}

/// A command of the note group.
#[derive(Debug, Clone, Copy, PartialEq, Eq, Structural)]
pub enum NoteCommandKind {
    Create,
    Config,
}

/// The command of the note group that is called by this name.
pub open spec fn note_command_named(name: Seq<char>) -> Option<NoteCommandKind> {
    if name == "create"@ {
        Some(NoteCommandKind::Create)
    } else if name == "config"@ {
        Some(NoteCommandKind::Config)
    } else {
        None
    }
}

/// The group of the commands on notes.
#[derive(Debug, Clone, Copy, PartialEq, Eq, Structural)]
pub struct NoteCommand;

impl NoteCommand {
    pub fn new() -> (command: Self)
        ensures
            command == NoteCommand,
    {
        NoteCommand
    }

    /// The name by which the group is called.
    pub fn name(&self) -> (name: &'static str)
        ensures
            name@ == "note"@,
    {
        "note"
    }

    /// The command of the group that is called by this name, if there is
    /// one.
    pub fn find(&self, name: &str) -> (found: Option<NoteCommandKind>)
        ensures
            found == note_command_named(name@),
    {
        let name = String::from_str(name);
        if is_named(&name, CreateNoteCommand::new().name()) {
            Some(NoteCommandKind::Create)
        } else if is_named(&name, NodeConfigCommand::new().name()) {
            Some(NoteCommandKind::Config)
        } else {
            None
        }
    }

    /// Checks what a command of the group needs before it runs: nothing,
    /// since a note's configuration comes from its file.
    pub fn validate(&self, has_owner: bool, has_repo: bool, has_token: bool) -> (result: Result<
        (),
        NoteError,
    >)
        ensures
            result is Ok,
    {
        Ok(())
    }
}

} // verus!
