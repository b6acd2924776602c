use gh_notes::config::{HighlightLabelConfig, NoteConfig};
use gh_notes::contributor::{collect_contributors, insert_sorted};
use gh_notes::error::NoteError;
use gh_notes::issue::{Issue, Milestone};
use gh_notes::note::{render, render_note};
use gh_notes::render::{
    assignees_str, render_sections, rendering_result, section_values, summary_values,
    ISSUE_SECTION_TEMPLATE,
};
use gh_notes::section::{build_sections, section_slot, summarize, IssueSection, IssueSummary, MISC_INDEX};
use gh_notes::template::{find_first, finish_note, merge_note, CONTENT_PLACEHOLDER};
use gh_notes::text::chars_of;
use gh_notes::lexical::text_less;

fn strings(items: &[&str]) -> Vec<String> {
    items.iter().map(|it| it.to_string()).collect()
}

fn issue(number: u64, labels: &[&str], assignees: &[&str]) -> Issue {
    Issue {
        number,
        title: format!("Issue {}", number),
        body: None,
        state: "closed".to_string(),
        html_url: format!("https://example.com/issues/{}", number),
        labels: strings(labels),
        assignees: strings(assignees),
        milestone: Some(Milestone { number: 1, title: "v1.0".to_string() }),
        created_at: "2024-01-01T00:00:00Z".to_string(),
        updated_at: "2024-01-02T00:00:00Z".to_string(),
        closed_at: None,
    }
}

fn highlight(label: &str, title: Option<&str>, description: Option<&str>) -> HighlightLabelConfig {
    HighlightLabelConfig {
        label: label.to_string(),
        title: title.map(|it| it.to_string()),
        description: description.map(|it| it.to_string()),
    }
}

fn summary(id: u64, title: &str, assignees: &[&str]) -> IssueSummary {
    IssueSummary {
        id,
        title: title.to_string(),
        url: format!("https://example.com/issues/{}", id),
        assignees: strings(assignees),
    }
}

fn ids(section: &IssueSection) -> Vec<u64> {
    section.issues.iter().map(|it| it.id).collect()
}

#[test]
fn issues_are_grouped_by_first_highlight_label() {
    let configs = vec![highlight("bug", Some("Bugs"), None), highlight("enhancement", None, Some("New things"))];
    let issues = vec![issue(1, &["bug"], &[]), issue(2, &["enhancement"], &[]), issue(3, &[], &[])];
    let sections = build_sections(&issues, &configs);
    assert_eq!(sections.len(), 3);
    assert_eq!(sections[0].index, 0);
    assert_eq!(sections[0].title, "Bugs");
    assert_eq!(sections[0].description, "");
    assert_eq!(ids(&sections[0]), vec![1]);
    assert_eq!(sections[1].index, 1);
    assert_eq!(sections[1].title, "");
    assert_eq!(sections[1].description, "New things");
    assert_eq!(ids(&sections[1]), vec![2]);
    assert_eq!(sections[2].index, MISC_INDEX);
    assert_eq!(sections[2].title, "Misc");
    assert_eq!(sections[2].description, "");
    assert_eq!(ids(&sections[2]), vec![3]);
}

#[test]
fn first_matching_highlight_label_wins() {
    let configs = vec![highlight("bug", None, None), highlight("enhancement", None, None)];
    let both = issue(7, &["enhancement", "bug"], &[]);
    assert_eq!(section_slot(&both, &configs), 0);
    assert_eq!(section_slot(&issue(8, &["enhancement"], &[]), &configs), 1);
    assert_eq!(section_slot(&issue(9, &["docs"], &[]), &configs), 2);
    let sections = build_sections(&vec![both], &configs);
    assert_eq!(sections.len(), 1);
    assert_eq!(sections[0].index, 0);
    assert_eq!(ids(&sections[0]), vec![7]);
}

#[test]
fn sections_follow_the_highlight_labels_not_the_issues() {
    let configs = vec![highlight("bug", None, None), highlight("enhancement", None, None)];
    let issues = vec![
        issue(1, &[], &[]),
        issue(2, &["enhancement"], &[]),
        issue(3, &["bug"], &[]),
        issue(4, &["enhancement"], &[]),
        issue(5, &["bug", "enhancement"], &[]),
    ];
    let sections = build_sections(&issues, &configs);
    let indices: Vec<u64> = sections.iter().map(|it| it.index).collect();
    assert_eq!(indices, vec![0, 1, MISC_INDEX]);
    assert_eq!(ids(&sections[0]), vec![3, 5]);
    assert_eq!(ids(&sections[1]), vec![2, 4]);
    assert_eq!(ids(&sections[2]), vec![1]);
    let total: usize = sections.iter().map(|it| it.issues.len()).sum();
    assert_eq!(total, issues.len());
}

#[test]
fn label_without_issues_gets_no_section() {
    let configs = vec![highlight("bug", None, None), highlight("enhancement", None, None)];
    let sections = build_sections(&vec![issue(2, &["enhancement"], &[])], &configs);
    assert_eq!(sections.len(), 1);
    assert_eq!(sections[0].index, 1);
    assert!(build_sections(&vec![], &configs).is_empty());
}

#[test]
fn an_issue_found_twice_is_listed_twice() {
    let configs = vec![highlight("bug", None, None)];
    let sections = build_sections(&vec![issue(1, &["bug"], &[]), issue(1, &["bug"], &[])], &configs);
    assert_eq!(ids(&sections[0]), vec![1, 1]);
}

#[test]
fn grouping_is_the_same_each_time() {
    let configs = vec![highlight("bug", None, None), highlight("enhancement", None, None)];
    let issues = vec![issue(1, &["bug"], &["alice"]), issue(2, &["x"], &[]), issue(3, &["enhancement", "bug"], &[])];
    let first = build_sections(&issues, &configs);
    let second = build_sections(&issues, &configs);
    assert_eq!(format!("{:?}", first), format!("{:?}", second));
}

#[test]
fn summary_takes_number_title_url_and_assignees() {
    let found = summarize(&issue(12, &["bug"], &["alice", "bob"]));
    assert_eq!(found.id, 12);
    assert_eq!(found.title, "Issue 12");
    assert_eq!(found.url, "https://example.com/issues/12");
    assert_eq!(found.assignees, strings(&["alice", "bob"]));
}

#[test]
fn contributors_are_merged_sorted_and_unique() {
    let issues = vec![issue(1, &[], &["alice"]), issue(2, &[], &["bob"])];
    let names = collect_contributors(&issues, &Some(strings(&["alice", "carol"])));
    assert_eq!(names, strings(&["alice", "bob", "carol"]));
}

#[test]
fn contributors_without_extra_ones() {
    let issues = vec![issue(1, &[], &["zoe", "bob"]), issue(2, &[], &["bob", "adam"])];
    assert_eq!(collect_contributors(&issues, &None), strings(&["adam", "bob", "zoe"]));
    assert!(collect_contributors(&vec![], &None).is_empty());
    assert_eq!(collect_contributors(&vec![], &Some(strings(&["b", "a", "b"]))), strings(&["a", "b"]));
}

#[test]
fn contributors_are_ordered_by_code_point() {
    let issues = vec![issue(1, &[], &["bob", "Bob", "bo", "b\u{e9}a", "bz"])];
    assert_eq!(
        collect_contributors(&issues, &None),
        strings(&["Bob", "bo", "bob", "bz", "b\u{e9}a"])
    );
    let mut expected = strings(&["bob", "Bob", "bo", "b\u{e9}a", "bz"]);
    expected.sort();
    assert_eq!(collect_contributors(&issues, &None), expected);
}

#[test]
fn insert_sorted_keeps_order_and_skips_known_names() {
    let mut names = strings(&["bob", "dave"]);
    insert_sorted(&mut names, &"carol".to_string());
    assert_eq!(names, strings(&["bob", "carol", "dave"]));
    insert_sorted(&mut names, &"carol".to_string());
    assert_eq!(names, strings(&["bob", "carol", "dave"]));
    insert_sorted(&mut names, &"alice".to_string());
    insert_sorted(&mut names, &"eve".to_string());
    assert_eq!(names, strings(&["alice", "bob", "carol", "dave", "eve"]));
}

#[test]
fn text_order_is_lexicographic() {
    assert!(text_less("a", "b"));
    assert!(!text_less("b", "a"));
    assert!(!text_less("a", "a"));
    assert!(text_less("", "a"));
    assert!(!text_less("a", ""));
    assert!(!text_less("", ""));
    assert!(text_less("ab", "abc"));
    assert!(text_less("abc", "abd"));
    assert!(text_less("Z", "a"));
    assert!(text_less("z", "\u{e9}"));
}

#[test]
fn chars_of_gives_each_character() {
    assert_eq!(chars_of("a\u{e9}b"), vec!['a', '\u{e9}', 'b']);
    assert!(chars_of("").is_empty());
}

#[test]
fn assignees_are_joined_with_at_signs() {
    assert_eq!(assignees_str(&vec![]), "");
    assert_eq!(assignees_str(&strings(&["alice"])), "@alice");
    assert_eq!(assignees_str(&strings(&["alice", "bob"])), "@alice @bob");
    assert_eq!(assignees_str(&strings(&["a", "", "c"])), "@a @ @c");
}

#[test]
fn section_with_issues_is_rendered() {
    let sections = vec![IssueSection {
        index: 0,
        title: "Bugs".to_string(),
        description: "Fixed bugs".to_string(),
        issues: vec![summary(1, "Crash on start", &["alice", "bob"]), summary(2, "Typo", &[])],
    }];
    let text = render_sections(&sections, &strings(&["alice", "bob"])).unwrap();
    assert_eq!(
        text,
        "\n\n## Bugs\n  Fixed bugs\n  - Crash on start (#1)(https://example.com/issues/1) - @alice @bob\n  - Typo (#2)(https://example.com/issues/2) - \n  \n## Contributors\n\n- @alice\n- @bob\n"
    );
}

#[test]
fn empty_section_is_rendered_as_not_available() {
    let sections = vec![IssueSection {
        index: 0,
        title: "Bugs".to_string(),
        description: "Fixed bugs".to_string(),
        issues: vec![],
    }];
    let text = render_sections(&sections, &strings(&["alice"])).unwrap();
    assert_eq!(text, "\n\n## Bugs\n  Fixed bugs\n  N/A\n\n## Contributors\n\n- @alice\n");
}

#[test]
fn no_contributors_are_rendered_as_not_available() {
    let text = render_sections(&vec![], &vec![]).unwrap();
    assert_eq!(text, "\n\n## Contributors\n\nN/A\n");
}

#[test]
fn several_sections_are_rendered_in_their_order() {
    let sections = vec![
        IssueSection { index: 0, title: "A".to_string(), description: "".to_string(), issues: vec![summary(1, "x", &["u"])] },
        IssueSection { index: MISC_INDEX, title: "Misc".to_string(), description: "".to_string(), issues: vec![summary(2, "y", &[])] },
    ];
    let text = render_sections(&sections, &vec![]).unwrap();
    assert_eq!(
        text,
        "\n\n## A\n  \n  - x (#1)(https://example.com/issues/1) - @u\n  \n## Misc\n  \n  - y (#2)(https://example.com/issues/2) - \n  \n## Contributors\n\nN/A\n"
    );
}

#[test]
fn text_is_not_escaped() {
    let sections = vec![IssueSection {
        index: 0,
        title: "<b> & \"q\"".to_string(),
        description: "{{ x }}".to_string(),
        issues: vec![summary(1, "a < b", &["<x>"])],
    }];
    let text = render_sections(&sections, &strings(&["a&b"])).unwrap();
    assert_eq!(
        text,
        "\n\n## <b> & \"q\"\n  {{ x }}\n  - a < b (#1)(https://example.com/issues/1) - @<x>\n  \n## Contributors\n\n- @a&b\n"
    );
}

#[test]
fn rendering_twice_gives_the_same_text() {
    let sections = vec![IssueSection {
        index: 3,
        title: "T".to_string(),
        description: "D".to_string(),
        issues: vec![summary(5, "five", &["e", "f"])],
    }];
    let names = strings(&["e", "f"]);
    let first = render_sections(&sections, &names).unwrap();
    let second = render_sections(&sections, &names).unwrap();
    assert_eq!(first, second);
}

#[test]
fn values_are_made_one_for_each_item() {
    let summaries = vec![summary(1, "one", &["a"]), summary(2, "two", &[])];
    let values = summary_values(&summaries);
    assert_eq!(values.len(), 2);
    assert_eq!(values[0]["id"], 1);
    assert_eq!(values[0]["title"], "one");
    assert_eq!(values[0]["url"], "https://example.com/issues/1");
    assert_eq!(values[0]["assignees"][0], "a");
    assert_eq!(values[1]["id"], 2);
    assert_eq!(values[1]["assignees"].as_array().unwrap().len(), 0);
    let sections = vec![IssueSection { index: 4, title: "T".to_string(), description: "D".to_string(), issues: summaries }];
    let values = section_values(&sections);
    assert_eq!(values.len(), 1);
    assert_eq!(values[0]["index"], 4);
    assert_eq!(values[0]["title"], "T");
    assert_eq!(values[0]["description"], "D");
    assert_eq!(values[0]["issues"][1]["title"], "two");
    assert_eq!(values[0].as_object().unwrap().len(), 4);
    assert_eq!(values[0]["issues"][0].as_object().unwrap().len(), 4);
}

#[test]
fn template_names_sections_and_contributors() {
    assert!(ISSUE_SECTION_TEMPLATE.contains("## {{ section.title }}"));
    assert!(ISSUE_SECTION_TEMPLATE.contains("## Contributors"));
    assert_eq!(CONTENT_PLACEHOLDER, "{content}");
}

#[test]
fn body_takes_the_place_of_the_placeholder() {
    assert_eq!(merge_note("# Notes\n{content}\nBye", "BODY").unwrap(), "# Notes\nBODY\nBye");
    assert_eq!(merge_note("{content}", "BODY").unwrap(), "BODY");
    assert_eq!(merge_note("a{content}", "").unwrap(), "a");
    assert_eq!(merge_note("\u{e9}{content}\u{e8}", "\u{ea}").unwrap(), "\u{e9}\u{ea}\u{e8}");
}

#[test]
fn only_the_first_placeholder_is_replaced() {
    assert_eq!(merge_note("{content} and {content}", "B").unwrap(), "B and {content}");
    assert_eq!(merge_note("{{content}}", "B").unwrap(), "{B}");
    assert_eq!(merge_note("{content", "B").err().map(|it| it.message()), Some("the note template lacks {content}".to_string()));
}

#[test]
fn body_with_a_placeholder_is_put_in_as_it_is() {
    assert_eq!(merge_note("<{content}>", "{content}").unwrap(), "<{content}>");
}

#[test]
fn template_without_placeholder_is_an_error() {
    assert!(matches!(merge_note("no place", "B"), Err(NoteError::MissingPlaceholder)));
    assert!(matches!(merge_note("", "B"), Err(NoteError::MissingPlaceholder)));
    assert!(matches!(merge_note("{Content}", "B"), Err(NoteError::MissingPlaceholder)));
}

#[test]
fn first_occurrence_is_found() {
    let text: Vec<char> = "abcabc".chars().collect();
    assert_eq!(find_first(&text, &"bc".chars().collect()), Some(1));
    assert_eq!(find_first(&text, &"abc".chars().collect()), Some(0));
    assert_eq!(find_first(&text, &"c".chars().collect()), Some(2));
    assert_eq!(find_first(&text, &"cb".chars().collect()), None);
    assert_eq!(find_first(&text, &"abcabcd".chars().collect()), None);
    assert_eq!(find_first(&text, &vec![]), Some(0));
    assert_eq!(find_first(&vec![], &vec![]), Some(0));
    assert_eq!(find_first(&vec![], &vec!['a']), None);
    assert_eq!(find_first(&text, &"abcabc".chars().collect()), Some(0));
}

#[test]
fn note_without_template_is_the_body() {
    assert_eq!(finish_note(&None, "BODY".to_string()).unwrap(), "BODY");
    assert_eq!(finish_note(&Some("".to_string()), "BODY".to_string()).unwrap(), "BODY");
    assert_eq!(finish_note(&Some("[{content}]".to_string()), "BODY".to_string()).unwrap(), "[BODY]");
    assert!(matches!(
        finish_note(&Some("nothing".to_string()), "BODY".to_string()),
        Err(NoteError::MissingPlaceholder)
    ));
}

#[test]
fn note_is_rendered_from_issues() {
    let mut config = NoteConfig::new("owner", "repo", "SECRET-REDACTED");
    config.highlight_labels = Some(vec![highlight("bug", Some("Bugs"), Some("What was fixed"))]);
    config.extra_contributors = Some(strings(&["carol"]));
    config.note = Some("# Release\n{content}\n-- end".to_string());
    let issues = vec![issue(1, &["bug"], &["alice"]), issue(2, &[], &["bob", "alice"])];
    let note = render_note(&config, &issues).unwrap();
    assert_eq!(
        note,
        "# Release\n\n\n## Bugs\n  What was fixed\n  - Issue 1 (#1)(https://example.com/issues/1) - @alice\n  \n## Misc\n  \n  - Issue 2 (#2)(https://example.com/issues/2) - @bob @alice\n  \n## Contributors\n\n- @alice\n- @bob\n- @carol\n\n-- end"
    );
}

#[test]
fn note_without_highlight_labels_has_only_the_overflow_section() {
    let config = NoteConfig::new("owner", "repo", "SECRET-REDACTED");
    let note = render_note(&config, &vec![issue(4, &["bug"], &[])]).unwrap();
    assert_eq!(
        note,
        "\n\n## Misc\n  \n  - Issue 4 (#4)(https://example.com/issues/4) - \n  \n## Contributors\n\nN/A\n"
    );
}

#[test]
fn note_with_a_template_that_lacks_the_placeholder_fails() {
    let mut config = NoteConfig::new("owner", "repo", "SECRET-REDACTED");
    config.note = Some("no placeholder here".to_string());
    assert!(matches!(render_note(&config, &vec![]), Err(NoteError::MissingPlaceholder)));
}

#[test]
fn error_messages_name_what_went_wrong() {
    assert_eq!(NoteError::MilestoneNotFound("v9.9".to_string()).message(), "milestone v9.9 not found");
    assert_eq!(NoteError::MissingPlaceholder.message(), "the note template lacks {content}");
    assert_eq!(NoteError::Template("bad".to_string()).message(), "failed to render the note: bad");
}

#[test]
fn sections_are_rendered_into_the_outer_template() {
    let sections = vec![IssueSection {
        index: 0,
        title: "Bugs".to_string(),
        description: "".to_string(),
        issues: vec![],
    }];
    let names = strings(&["zed"]);
    assert_eq!(
        render(&sections, &names, &Some("<<{content}>>".to_string())).unwrap(),
        "<<\n\n## Bugs\n  \n  N/A\n\n## Contributors\n\n- @zed\n>>"
    );
    assert_eq!(
        render(&sections, &names, &None).unwrap(),
        "\n\n## Bugs\n  \n  N/A\n\n## Contributors\n\n- @zed\n"
    );
    assert!(matches!(
        render(&sections, &names, &Some("none".to_string())),
        Err(NoteError::MissingPlaceholder)
    ));
}

#[test]
fn engine_failure_becomes_a_template_error() {
    match rendering_result(Err(tera::Error::msg("boom"))) {
        Err(NoteError::Template(text)) => assert_eq!(text, "boom"),
        _ => panic!("the engine failed"),
    }
    assert_eq!(
        rendering_result(Err(tera::Error::msg("boom"))).unwrap_err().message(),
        "failed to render the note: boom"
    );
    assert_eq!(rendering_result(Ok("text".to_string())).unwrap(), "text");
}
