//! Rendering of sections and contributors through the template engine.

use vstd::prelude::*;
use std::collections::HashMap;
use crate::error::NoteError;
use crate::section::{
    IssueSection, IssueSectionView, IssueSummary, IssueSummaryView, section_views, summary_views,
};
use crate::text::texts;

verus! {

/// The error of the template engine.
#[verifier::external_type_specification]
#[verifier::external_body]
pub struct ExTemplateError(tera::Error);

/// A value of the template engine's data model.
#[verifier::external_type_specification]
#[verifier::external_body]
pub struct ExTemplateValue(tera::Value);

/// The data model of the template engine: a tree of plain values.
pub ghost enum Json {
    Null,
    Bool(bool),
    Number(int),
    Text(Seq<char>),
    List(Seq<Json>),
    Object(Map<Seq<char>, Json>),
}

/// The tree that a value of the template engine holds.
pub uninterp spec fn json_of(value: tera::Value) -> Json;

/// The trees of a list of values, in order.
pub open spec fn jsons_of(values: Seq<tera::Value>) -> Seq<Json> {
    Seq::new(values.len(), |i: int| json_of(values[i]))
}

/// A list of strings as a tree.
pub open spec fn text_list_json(list: Seq<Seq<char>>) -> Json {
    Json::List(Seq::new(list.len(), |i: int| Json::Text(list[i])))
}

/// An issue summary as a tree: an object of its four fields.
pub open spec fn summary_json(summary: IssueSummaryView) -> Json {
    Json::Object(
        Map::<Seq<char>, Json>::empty().insert("id"@, Json::Number(summary.id as int)).insert(
            "title"@,
            Json::Text(summary.title),
        ).insert("url"@, Json::Text(summary.url)).insert(
            "assignees"@,
            text_list_json(summary.assignees),
        ),
    )
}

/// `tera::Context::into_json`, on a context made by `tera::Context::new`
/// and `tera::Context::insert`: builds the object that holds the summary's
/// number under `id`, its title under `title`, its address under `url` and
/// the list of its assignees under `assignees`.
#[verifier::external_body]
fn summary_value(summary: &IssueSummary) -> (value: tera::Value)
    ensures
        json_of(value) == summary_json(summary@),
{
    let mut fields = tera::Context::new();
    fields.insert("id", &summary.id);
    fields.insert("title", &summary.title);
    fields.insert("url", &summary.url);
    fields.insert("assignees", &summary.assignees);
    fields.into_json()
}

/// The values of a list of summaries, in order.
pub fn summary_values(summaries: &Vec<IssueSummary>) -> (values: Vec<tera::Value>)
    ensures
        jsons_of(values@) == summary_jsons(summary_views(summaries@)),
{
    let mut values: Vec<tera::Value> = Vec::new();
    let mut i: usize = 0;
    while i < summaries.len()
        invariant
            i <= summaries.len(),
            values.len() == i,
            forall|j: int| 0 <= j < i ==> json_of(values[j]) == summary_json(summaries[j]@),
        decreases summaries.len() - i,
    {
        let value = summary_value(&summaries[i]);
        values.push(value);
        i += 1;
    }
    assert(jsons_of(values@) =~= summary_jsons(summary_views(summaries@)));
    values
}

/// The trees of a list of summaries, in order.
pub open spec fn summary_jsons(summaries: Seq<IssueSummaryView>) -> Seq<Json> {
    Seq::new(summaries.len(), |i: int| summary_json(summaries[i]))
}

/// A section as a tree: an object of its index, its title, its description
/// and the list of its issues.
pub open spec fn section_json(
    index: u64,
    title: Seq<char>,
    description: Seq<char>,
    issues: Seq<Json>,
) -> Json {
    Json::Object(
        Map::<Seq<char>, Json>::empty().insert("index"@, Json::Number(index as int)).insert(
            "title"@,
            Json::Text(title),
        ).insert("description"@, Json::Text(description)).insert("issues"@, Json::List(issues)),
    )
}

/// The tree of a section.
pub open spec fn section_tree(section: IssueSectionView) -> Json {
    section_json(
        section.index,
        section.title,
        section.description,
        summary_jsons(section.issues),
    )
}

/// The trees of a list of sections, in order.
pub open spec fn section_trees(sections: Seq<IssueSectionView>) -> Seq<Json> {
    Seq::new(sections.len(), |i: int| section_tree(sections[i]))
}

/// `tera::Context::into_json`, on a context made by `tera::Context::new`
/// and `tera::Context::insert`: builds the object that holds the index under
/// `index`, the title under `title`, the description under `description` and
/// the list of the given values under `issues`.
#[verifier::external_body]
fn section_value(index: u64, title: &str, description: &str, issues: &Vec<tera::Value>) -> (value:
    tera::Value)
    ensures
        json_of(value) == section_json(index, title@, description@, jsons_of(issues@)),
{
    let mut fields = tera::Context::new();
    fields.insert("index", &index);
    fields.insert("title", title);
    fields.insert("description", description);
    fields.insert("issues", issues);
    fields.into_json()
}

/// The values of a list of sections, in order.
pub fn section_values(sections: &Vec<IssueSection>) -> (values: Vec<tera::Value>)
    ensures
        jsons_of(values@) == section_trees(section_views(sections@)),
{
    let mut values: Vec<tera::Value> = Vec::new();
    let mut i: usize = 0;
    while i < sections.len()
        invariant
            i <= sections.len(),
            values.len() == i,
            forall|j: int| 0 <= j < i ==> json_of(values[j]) == section_tree(sections[j]@),
        decreases sections.len() - i,
    {
        let issues = summary_values(&sections[i].issues);
        let value = section_value(
            sections[i].index,
            sections[i].title.as_str(),
            sections[i].description.as_str(),
            &issues,
        );
        values.push(value);
        i += 1;
    }
    assert(jsons_of(values@) =~= section_trees(section_views(sections@)));
    values
}

/// The text that the template helper makes of a list of names: each name
/// behind an `@`, with a space between two of them.
pub open spec fn assignees_text(names: Seq<Seq<char>>) -> Seq<char>
    decreases names.len(),
{
    if names.len() == 0 {
        Seq::empty()
    } else if names.len() == 1 {
        seq!['@'] + names[0]
    } else {
        assignees_text(names.drop_last()) + seq![' ', '@'] + names.last()
    }
}

/// The template helper: formats a list of assignees as `@name` items
/// separated by one space.
pub fn assignees_str(names: &Vec<String>) -> (text: String)
    ensures
        text@ == assignees_text(texts(names@)),
{
    let mut text = String::new();
    let mut i: usize = 0;
    assert(texts(names@).subrange(0, 0) =~= Seq::<Seq<char>>::empty());
    while i < names.len()
        invariant
            i <= names.len(),
            text@ == assignees_text(texts(names@).subrange(0, i as int)),
        decreases names.len() - i,
    {
        let ghost done = texts(names@).subrange(0, i as int);
        let ghost next = texts(names@).subrange(0, i + 1);
        proof {
            reveal_strlit("@");
            reveal_strlit(" @");
            assert(next.drop_last() =~= done);
            assert(next.last() == names[i as int]@);
            assert("@"@ =~= seq!['@']);
            assert(" @"@ =~= seq![' ', '@']);
        }
        if i == 0 {
            text.append("@");
            assert(text@ =~= seq!['@'] + names[i as int]@.subrange(0, 0));
        } else {
            text.append(" @");
        }
        text.append(names[i].as_str());
        assert(text@ =~= assignees_text(next));
        i += 1;
    }
    assert(texts(names@).subrange(0, names.len() as int) =~= texts(names@));
    text
}

/// The template of a note's body: a heading, a description and a list of
/// issues for each section, then the contributors. An empty list shows as
/// `N/A`.
pub const ISSUE_SECTION_TEMPLATE: &'static str = r#"
{% for section in sections %}
## {{ section.title }}
  {{ section.description }}
  {% for issue in section.issues -%}
  - {{ issue.title }} (#{{ issue.id }})({{ issue.url }}) - {{ assignees_str(value=issue.assignees) }}
  {% endfor -%}
{% if not section.issues -%}
N/A
{% endif -%}
{% endfor %}
## Contributors

{% for assignee in assignees -%}
  - @{{ assignee }}
{% endfor -%}
{% if not assignees -%}
N/A
{% endif -%}
"#;

/// What the template engine makes of a template, a list of sections and a
/// list of contributors: the rendered text, or nothing where it fails.
pub uninterp spec fn template_output(
    template: Seq<char>,
    sections: Seq<Json>,
    contributors: Seq<Seq<char>>,
) -> Option<Seq<char>>;

/// The text of a rendering that succeeded.
pub open spec fn rendered_text(outcome: Result<String, tera::Error>) -> Option<Seq<char>> {
    match outcome {
        Ok(text) => Some(text@),
        Err(_) => None,
    }
}

/// `tera::Tera::render`, on an engine made by `tera::Tera::default`,
/// `tera::Tera::add_raw_template` and `tera::Tera::register_function` and a
/// context made by `tera::Context::new` and `tera::Context::insert`: renders
/// the note's template with the given values under `sections` and the given
/// names under `assignees`, with `assignees_str` of this module as the
/// template's helper of that name. Whether it succeeds and what text it
/// gives depends on these three arguments alone: the note's template reads
/// nothing else.
#[verifier::external_body]
fn render_template(template: &str, sections: &Vec<tera::Value>, contributors: &Vec<String>) -> (outcome:
    Result<String, tera::Error>)
    requires
        template@ == ISSUE_SECTION_TEMPLATE@,
    ensures
        rendered_text(outcome) == template_output(
            template@,
            jsons_of(sections@),
            texts(contributors@),
        ),
{
    let mut engine = tera::Tera::default();
    engine.add_raw_template("issue-sections", template)?;
    engine.register_function("assignees_str", |args: &HashMap<String, tera::Value>| {
        match args.get("value").map(|v| tera::from_value::<Vec<String>>(v.clone())) {
            Some(Ok(names)) => tera::to_value(assignees_str(&names)).map_err(tera::Error::json),
            _ => Err(tera::Error::msg("")),
        }
    });
    let mut context = tera::Context::new();
    context.insert("sections", sections);
    context.insert("assignees", contributors);
    engine.render("issue-sections", &context)
}

/// `ToString::to_string` on `tera::Error`: the engine's own words for its
/// error. Nothing is claimed of them.
#[verifier::external_body]
fn template_error_text(error: &tera::Error) -> (text: String) {
    error.to_string()
}

/// The body of a note: what the template engine makes of the note's
/// template with these sections and contributors.
pub open spec fn note_body(sections: Seq<IssueSectionView>, contributors: Seq<Seq<char>>) -> Option<
    Seq<char>,
> {
    template_output(ISSUE_SECTION_TEMPLATE@, section_trees(sections), contributors)
}

/// Whether `result` is the rendering of `expected`: the expected text, or a
/// template error where the engine gives none.
pub open spec fn rendered_as(result: Result<String, NoteError>, expected: Option<Seq<char>>) -> bool {
    match result {
        Ok(text) => expected == Some(text@),
        Err(error) => expected is None && error is Template,
    }
}

/// The text of a result, if it has one.
pub open spec fn text_of(result: Result<String, NoteError>) -> Option<Seq<char>> {
    match result {
        Ok(text) => Some(text@),
        Err(_) => None,
    }
}

/// Rendering is repeatable: two renderings of the same sections and
/// contributors give the same text, character by character, or fail both.
pub proof fn lemma_rendering_repeatable(
    first: Result<String, NoteError>,
    second: Result<String, NoteError>,
    sections: Seq<IssueSectionView>,
    contributors: Seq<Seq<char>>,
)
    requires
        rendered_as(first, note_body(sections, contributors)),
        rendered_as(second, note_body(sections, contributors)),
    ensures
        text_of(first) == text_of(second),
{
}

/// Turns the outcome of the template engine into the library's result.
pub fn rendering_result(outcome: Result<String, tera::Error>) -> (result: Result<String, NoteError>)
    ensures
        match result {
            Ok(text) => outcome matches Ok(rendered) && text == rendered,
            Err(error) => outcome is Err && error is Template,
        },
{
    match outcome {
        Ok(text) => Ok(text),
        Err(error) => Err(NoteError::Template(template_error_text(&error))),
    }
}

/// Renders the body of a note: for each section its heading, its
/// description and its issues, then the contributors.
///
/// The text is that of the template engine on the note's template. Where
/// the engine fails, the error carries its words.
pub fn render_sections(sections: &Vec<IssueSection>, contributors: &Vec<String>) -> (result:
    Result<String, NoteError>)
    ensures
        rendered_as(result, note_body(section_views(sections@), texts(contributors@))),
{
    let values = section_values(sections);
    let outcome = render_template(ISSUE_SECTION_TEMPLATE, &values, contributors);
    rendering_result(outcome)
}

} // verus!
