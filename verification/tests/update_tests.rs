use gh_notes::command::{
    example_config, AddLabelCommand, AssignMilestoneCommand, CreateNoteCommand,
    GenerateTemplateCommand, IssueCommand, IssueCommandKind, NodeConfigCommand, NoteCommand,
    NoteCommandKind, RemoveLabelCommand, SearchIssueCommand, UnassignMilestoneCommand,
};
use gh_notes::config::NoteConfig;
use gh_notes::error::NoteError;
use gh_notes::issue::{Issue, Milestone};
use gh_notes::patch::{
    add_labels, create_issues_info_to_update, create_milestone_updates, get_milestone,
    make_patch, remove_labels, IssueLabelUpdateType, IssuePatch, NO_MILESTONE,
};
use gh_notes::update::UpdateRun;

fn strings(items: &[&str]) -> Vec<String> {
    items.iter().map(|it| it.to_string()).collect()
}

fn issue(number: u64, labels: &[&str], milestone: Option<u64>) -> Issue {
    Issue {
        number,
        title: format!("Issue {}", number),
        body: Some(format!("Body {}", number)),
        state: "open".to_string(),
        html_url: format!("https://example.com/issues/{}", number),
        labels: strings(labels),
        assignees: strings(&["alice", "bob"]),
        milestone: milestone.map(|it| Milestone { number: it, title: format!("v{}", it) }),
        created_at: "2024-01-01T00:00:00Z".to_string(),
        updated_at: "2024-01-02T00:00:00Z".to_string(),
        closed_at: None,
    }
}

fn milestones(titles: &[&str]) -> Vec<Milestone> {
    let mut number: u64 = 10;
    let mut list = Vec::new();
    for title in titles {
        number += 1;
        list.push(Milestone { number, title: title.to_string() });
    }
    list
}

fn check_kept(patch: &IssuePatch, from: &Issue) {
    assert_eq!(patch.title, from.title);
    assert_eq!(patch.body, from.body);
    assert_eq!(patch.assignee, None);
    assert_eq!(patch.assignees, Some(from.assignees.clone()));
    assert_eq!(patch.state, from.state);
}

#[test]
fn added_label_comes_after_the_current_ones() {
    assert_eq!(add_labels(&strings(&["bug"]), &strings(&["priority"])), strings(&["bug", "priority"]));
}

#[test]
fn adding_a_present_label_changes_nothing() {
    let once = add_labels(&strings(&["bug"]), &strings(&["priority"]));
    assert_eq!(add_labels(&once, &strings(&["bug"])), strings(&["bug", "priority"]));
    assert_eq!(add_labels(&once, &strings(&["priority"])), strings(&["bug", "priority"]));
}

#[test]
fn a_label_requested_twice_is_added_once() {
    assert_eq!(add_labels(&vec![], &strings(&["a", "b", "a"])), strings(&["a", "b"]));
    assert_eq!(add_labels(&strings(&["x"]), &vec![]), strings(&["x"]));
}

#[test]
fn removed_labels_leave_the_rest_in_order() {
    assert_eq!(remove_labels(&strings(&["a", "b", "c", "b"]), &strings(&["b"])), strings(&["a", "c"]));
    assert_eq!(remove_labels(&strings(&["a", "b"]), &strings(&["x"])), strings(&["a", "b"]));
    assert_eq!(remove_labels(&strings(&["a", "b"]), &vec![]), strings(&["a", "b"]));
    assert!(remove_labels(&strings(&["a", "b"]), &strings(&["b", "a"])).is_empty());
    assert!(remove_labels(&vec![], &strings(&["a"])).is_empty());
}

#[test]
fn label_updates_keep_everything_but_the_labels() {
    let issues = vec![issue(1, &["bug"], Some(3)), issue(2, &["priority", "ui"], None)];
    let updates = create_issues_info_to_update(&issues, &strings(&["priority"]), &IssueLabelUpdateType::Add);
    assert_eq!(updates.len(), 2);
    assert_eq!(updates[0].0, 1);
    assert_eq!(updates[0].1.labels, strings(&["bug", "priority"]));
    assert_eq!(updates[0].1.milestone, Some(3));
    check_kept(&updates[0].1, &issues[0]);
    assert_eq!(updates[1].0, 2);
    assert_eq!(updates[1].1.labels, strings(&["priority", "ui"]));
    assert_eq!(updates[1].1.milestone, None);
    check_kept(&updates[1].1, &issues[1]);
    let updates = create_issues_info_to_update(&issues, &strings(&["priority"]), &IssueLabelUpdateType::Remove);
    assert_eq!(updates[0].1.labels, strings(&["bug"]));
    assert_eq!(updates[1].1.labels, strings(&["ui"]));
    assert_eq!(updates[1].0, 2);
    check_kept(&updates[1].1, &issues[1]);
    assert!(create_issues_info_to_update(&vec![], &strings(&["x"]), &IssueLabelUpdateType::Add).is_empty());
}

#[test]
fn milestone_updates_keep_everything_but_the_milestone() {
    let issues = vec![issue(1, &["bug"], Some(3)), issue(2, &[], None)];
    let updates = create_milestone_updates(&issues, 7);
    assert_eq!(updates.len(), 2);
    assert_eq!(updates[0].0, 1);
    assert_eq!(updates[0].1.milestone, Some(7));
    assert_eq!(updates[0].1.labels, strings(&["bug"]));
    check_kept(&updates[0].1, &issues[0]);
    assert_eq!(updates[1].0, 2);
    assert_eq!(updates[1].1.milestone, Some(7));
    assert!(updates[1].1.labels.is_empty());
    check_kept(&updates[1].1, &issues[1]);
}

#[test]
fn patch_is_made_from_the_issue() {
    let from = issue(1, &["bug"], Some(3));
    let patch = make_patch(&from, strings(&["x"]), None);
    check_kept(&patch, &from);
    assert_eq!(patch.labels, strings(&["x"]));
    assert_eq!(patch.milestone, None);
}

#[test]
fn milestone_is_found_by_its_exact_title() {
    let list = milestones(&["v1.0", "v1.1", "v1.0"]);
    let found = get_milestone(&list, "v1.1").unwrap();
    assert_eq!(found.number, 12);
    assert_eq!(found.title, "v1.1");
    assert_eq!(get_milestone(&list, "v1.0").unwrap().number, 11);
}

#[test]
fn missing_milestone_is_named_in_the_error() {
    let list = milestones(&["v1.0"]);
    match get_milestone(&list, "v9.9") {
        Err(NoteError::MilestoneNotFound(title)) => assert_eq!(title, "v9.9"),
        _ => panic!("the milestone is not there"),
    }
    assert_eq!(get_milestone(&list, "v9.9").unwrap_err().message(), "milestone v9.9 not found");
    assert!(get_milestone(&list, "V1.0").is_err());
    assert!(get_milestone(&list, "v1.0 ").is_err());
    assert!(get_milestone(&vec![], "v1.0").is_err());
}

#[test]
fn assign_command_resolves_the_milestone() {
    let issues = vec![issue(1, &["bug"], None)];
    let command = AssignMilestoneCommand::new();
    let updates = command.updates(&issues, &milestones(&["v1.0", "v2.0"]), "v2.0").unwrap();
    assert_eq!(updates.len(), 1);
    assert_eq!(updates[0].0, 1);
    assert_eq!(updates[0].1.milestone, Some(12));
    match command.updates(&issues, &milestones(&["v1.0"]), "v9.9") {
        Err(error) => assert_eq!(error.message(), "milestone v9.9 not found"),
        Ok(_) => panic!("the milestone is not there"),
    }
}

#[test]
fn unassign_command_clears_the_milestone() {
    let issues = vec![issue(1, &["bug"], Some(5))];
    let updates = UnassignMilestoneCommand::new().updates(&issues);
    assert_eq!(updates[0].0, 1);
    assert_eq!(updates[0].1.milestone, Some(NO_MILESTONE));
    assert_eq!(NO_MILESTONE, 0);
    assert_eq!(updates[0].1.labels, strings(&["bug"]));
}

#[test]
fn label_commands_add_and_remove() {
    let issues = vec![issue(1, &["bug"], None)];
    let added = AddLabelCommand::new().updates(&issues, &strings(&["priority", "bug"]));
    assert_eq!(added[0].1.labels, strings(&["bug", "priority"]));
    let removed = RemoveLabelCommand::new().updates(&issues, &strings(&["bug"]));
    assert!(removed[0].1.labels.is_empty());
}

#[test]
fn commands_have_their_names() {
    assert_eq!(AddLabelCommand::new().name(), "add-label");
    assert_eq!(RemoveLabelCommand::new().name(), "remove-label");
    assert_eq!(AssignMilestoneCommand::new().name(), "assign-milestone");
    assert_eq!(UnassignMilestoneCommand::new().name(), "unassign-milestone");
    assert_eq!(SearchIssueCommand::new().name(), "search");
    assert_eq!(CreateNoteCommand::new().name(), "create");
    assert_eq!(NodeConfigCommand::new().name(), "config");
    assert_eq!(GenerateTemplateCommand::new().name(), "template");
}

#[test]
fn search_command_makes_the_query() {
    let config = NoteConfig::new("acme", "rocket", "SECRET-REDACTED");
    assert_eq!(SearchIssueCommand::new().query(&config, "is:pr"), "is:pr repo:acme/rocket");
}

#[test]
fn create_command_renders_the_note() {
    let config = NoteConfig::new("acme", "rocket", "SECRET-REDACTED");
    let note = CreateNoteCommand::new().note(&config, &vec![]).unwrap();
    assert_eq!(note, "\n\n## Contributors\n\nN/A\n");
}

#[test]
fn config_commands_give_a_configuration_to_fill_in() {
    for config in [NodeConfigCommand::new().config(), GenerateTemplateCommand::new().config(), example_config()] {
        assert_eq!(config.owner, "");
        assert_eq!(config.state, "");
        assert!(config.labels.is_none());
        let labels = config.highlight_labels.unwrap();
        assert_eq!(labels.len(), 1);
        assert_eq!(labels[0].label, "");
        assert!(labels[0].title.is_none());
        assert!(labels[0].description.is_none());
    }
}

#[test]
fn updates_are_submitted_one_after_the_other() {
    let issues = vec![issue(1, &[], None), issue(2, &[], None), issue(3, &[], None)];
    let mut run = UpdateRun::start(create_milestone_updates(&issues, 4));
    assert!(!run.is_complete());
    assert!(run.updated().is_empty());
    assert_eq!(run.next_update().unwrap().0, 1);
    assert_eq!(run.next_update().unwrap().0, 1);
    run.report(true);
    assert_eq!(run.next_update().unwrap().0, 2);
    assert_eq!(run.next_update().unwrap().1.milestone, Some(4));
    run.report(true);
    assert_eq!(run.updated(), vec![1, 2]);
    run.report(true);
    assert!(run.next_update().is_none());
    assert!(run.is_complete());
    assert!(!run.has_failed());
    assert_eq!(run.updated(), vec![1, 2, 3]);
    run.report(false);
    assert!(run.is_complete());
}

#[test]
fn first_failure_ends_the_run() {
    let issues = vec![issue(1, &[], None), issue(2, &[], None), issue(3, &[], None)];
    let mut run = UpdateRun::start(create_milestone_updates(&issues, 4));
    run.report(true);
    run.report(false);
    assert!(run.has_failed());
    assert!(!run.is_complete());
    assert!(run.next_update().is_none());
    assert_eq!(run.updated(), vec![1]);
    run.report(true);
    assert!(run.has_failed());
    assert_eq!(run.updated(), vec![1]);
}

#[test]
fn run_without_updates_is_complete() {
    let run = UpdateRun::start(vec![]);
    assert!(run.is_complete());
    assert!(run.next_update().is_none());
    assert!(run.updated().is_empty());
}

#[test]
fn issue_group_finds_its_commands_by_name() {
    let group = IssueCommand::new();
    assert_eq!(group.name(), "issue");
    assert_eq!(group.find("add-label"), Some(IssueCommandKind::AddLabel));
    assert_eq!(group.find("remove-label"), Some(IssueCommandKind::RemoveLabel));
    assert_eq!(group.find("assign-milestone"), Some(IssueCommandKind::AssignMilestone));
    assert_eq!(group.find("unassign-milestone"), Some(IssueCommandKind::UnassignMilestone));
    assert_eq!(group.find("search"), Some(IssueCommandKind::Search));
    assert_eq!(group.find("create"), None);
    assert_eq!(group.find(""), None);
    assert_eq!(group.find("Search"), None);
}

#[test]
fn note_group_finds_its_commands_by_name() {
    let group = NoteCommand::new();
    assert_eq!(group.name(), "note");
    assert_eq!(group.find("create"), Some(NoteCommandKind::Create));
    assert_eq!(group.find("config"), Some(NoteCommandKind::Config));
    assert_eq!(group.find("template"), None);
    assert_eq!(group.find("search"), None);
}

#[test]
fn issue_commands_need_owner_repo_and_token() {
    let group = IssueCommand::new();
    assert!(group.validate(true, true, true).is_ok());
    for (owner, repo, token) in [(false, true, true), (true, false, true), (true, true, false), (false, false, false)] {
        match group.validate(owner, repo, token) {
            Err(error) => {
                assert!(matches!(error, NoteError::MissingGithubArgs));
                assert_eq!(error.message(), "GitHub owner, repo, and token are mandatory");
            }
            Ok(()) => panic!("an argument is missing"),
        }
    }
    assert!(NoteCommand::new().validate(false, false, false).is_ok());
}
