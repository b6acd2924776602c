//! The release note: sections and contributors of the found issues,
//! rendered and put into the outer template.

use vstd::prelude::*;
use crate::config::{HighlightLabelConfig, HighlightLabelView, NoteConfig, NoteConfigView};
use crate::contributor::{collect_contributors, contributors_of};
use crate::error::NoteError;
use crate::issue::{Issue, IssueView, issue_views};
use crate::render::{note_body, render_sections};
use crate::section::{IssueSection, IssueSectionView, build_sections, note_sections, section_views};
use crate::template::{finish_note, finished};
use crate::text::{opt_text, texts};

verus! {

/// The note of these sections and contributors: their rendered body, put
/// into the outer template if one is given and not empty.
pub open spec fn rendered_note(
    sections: Seq<IssueSectionView>,
    contributors: Seq<Seq<char>>,
    template: Option<Seq<char>>,
) -> Option<Seq<char>> {
    match note_body(sections, contributors) {
        Some(body) => finished(template, body),
        None => None,
    }
}

/// Whether `result` is the outcome of making a note whose body is `body`
/// and whose text is `note`: the text where there is one, a template error
/// where the body could not be rendered, and the error of the missing
/// placeholder where the body could not be put into the outer template.
pub open spec fn is_note_result(
    result: Result<String, NoteError>,
    body: Option<Seq<char>>,
    note: Option<Seq<char>>,
) -> bool {
    match result {
        Ok(text) => note == Some(text@),
        Err(NoteError::Template(_)) => body is None,
        Err(NoteError::MissingPlaceholder) => body is Some && note is None,
        Err(_) => false,
    }
}

/// Renders sections and contributors into a note: for each section its
/// heading, its description and its issues, then the contributors; the
/// whole takes the place of `{content}` in the outer template, if one is
/// given and not empty.
pub fn render(
    sections: &Vec<IssueSection>,
    contributors: &Vec<String>,
    template: &Option<String>,
) -> (result: Result<String, NoteError>)
    ensures
        is_note_result(
            result,
            note_body(section_views(sections@), texts(contributors@)),
            rendered_note(section_views(sections@), texts(contributors@), opt_text(*template)),
        ),
{
    match render_sections(sections, contributors) {
        Ok(body) => finish_note(template, body),
        Err(error) => Err(error),
    }
}

/// The configured highlight labels: none where none are configured.
pub open spec fn highlights_of(config: NoteConfigView) -> Seq<HighlightLabelView> {
    match config.highlight_labels {
        Some(labels) => labels,
        None => Seq::empty(),
    }
}

/// The body of the note for these issues: what the template engine makes of
/// their sections and contributors.
pub open spec fn body_of(config: NoteConfigView, issues: Seq<IssueView>) -> Option<Seq<char>> {
    note_body(
        note_sections(issues, highlights_of(config)),
        contributors_of(issues, config.extra_contributors),
    )
}

/// The note for these issues: the body, put into the outer template if one
/// is configured.
pub open spec fn note_of(config: NoteConfigView, issues: Seq<IssueView>) -> Option<Seq<char>> {
    rendered_note(
        note_sections(issues, highlights_of(config)),
        contributors_of(issues, config.extra_contributors),
        config.note,
    )
}

/// Renders the note for the found issues.
///
/// The issues are grouped into sections by the configured highlight labels,
/// their assignees and the extra contributors are listed, both are rendered
/// through the template engine, and the result takes the place of
/// `{content}` in the outer template, if one is configured and not empty.
/// `config.note` is the text of that template.
pub fn render_note(config: &NoteConfig, issues: &Vec<Issue>) -> (result: Result<String, NoteError>)
    ensures
        is_note_result(
            result,
            body_of(config@, issue_views(issues@)),
            note_of(config@, issue_views(issues@)),
        ),
{
    let sections = match &config.highlight_labels {
        Some(labels) => build_sections(issues, labels),
        None => {
            let none: Vec<HighlightLabelConfig> = Vec::new();
            assert(crate::config::highlight_views(none@) =~= Seq::empty());
            build_sections(issues, &none)
        },
    };
    let contributors = collect_contributors(issues, &config.extra_contributors);
    render(&sections, &contributors, &config.note)
}

} // verus!
