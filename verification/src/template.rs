//! The outer template of a note: a text that holds the placeholder
//! `{content}`, which the note's body takes the place of.

use vstd::prelude::*;
use crate::error::NoteError;
use crate::text::chars_of;

verus! {

/// The placeholder that stands for the note's body in an outer template.
pub const CONTENT_PLACEHOLDER: &'static str = "{content}";

/// Whether `token` stands in `text` at `at`.
pub open spec fn occurs_at(text: Seq<char>, token: Seq<char>, at: int) -> bool {
    0 <= at && at + token.len() <= text.len() && text.subrange(at, at + token.len()) == token
}

/// The first place from `from` on at which `token` stands in `text`, if
/// there is one.
pub open spec fn first_occurrence_from(text: Seq<char>, token: Seq<char>, from: int) -> Option<int>
    decreases text.len() - from + 1,
{
    if from < 0 || from + token.len() > text.len() {
        None
    } else if occurs_at(text, token, from) {
        Some(from)
    } else {
        first_occurrence_from(text, token, from + 1)
    }
}

/// The first place at which `token` stands in `text`, if there is one.
pub open spec fn first_occurrence(text: Seq<char>, token: Seq<char>) -> Option<int> {
    first_occurrence_from(text, token, 0)
}

/// The first occurrence is an occurrence, and none comes before it; where
/// there is no first occurrence, there is none at all.
pub proof fn lemma_first_occurrence_from(text: Seq<char>, token: Seq<char>, from: int)
    requires
        0 <= from,
    ensures
        match first_occurrence_from(text, token, from) {
            Some(at) => from <= at && occurs_at(text, token, at) && forall|i: int|
                from <= i < at ==> !occurs_at(text, token, i),
            None => forall|i: int| from <= i ==> !occurs_at(text, token, i),
        },
    decreases text.len() - from + 1,
{
    if from + token.len() <= text.len() && !occurs_at(text, token, from) {
        lemma_first_occurrence_from(text, token, from + 1);
    }
}

/// The outer template with the body in the place of the first placeholder;
/// nothing where the template holds no placeholder.
pub open spec fn merged(template: Seq<char>, body: Seq<char>) -> Option<Seq<char>> {
    match first_occurrence(template, CONTENT_PLACEHOLDER@) {
        Some(at) => Some(
            template.subrange(0, at) + body + template.subrange(
                at + CONTENT_PLACEHOLDER@.len(),
                template.len() as int,
            ),
        ),
        None => None,
    }
}

/// Whether `token` stands in `text` at `at`.
fn stands_at(text: &Vec<char>, token: &Vec<char>, at: usize) -> (found: bool)
    requires
        at + token.len() <= text.len(),
    ensures
        found == occurs_at(text@, token@, at as int),
{
    let mut i: usize = 0;
    while i < token.len()
        invariant
            i <= token.len(),
            at + token.len() <= text.len(),
            forall|j: int| 0 <= j < i ==> text[at + j] == token[j],
        decreases token.len() - i,
    {
        if text[at + i] != token[i] {
            assert(text@.subrange(at as int, at + token.len())[i as int] != token@[i as int]);
            return false;
        }
        i += 1;
    }
    assert(text@.subrange(at as int, at + token.len()) =~= token@);
    true
}

/// Finds the first place at which `token` stands in `text`.
pub fn find_first(text: &Vec<char>, token: &Vec<char>) -> (place: Option<usize>)
    ensures
        match place {
            Some(at) => first_occurrence(text@, token@) == Some(at as int),
            None => first_occurrence(text@, token@) is None,
        },
{
    if token.len() > text.len() {
        return None;
    }
    let last: usize = text.len() - token.len();
    let mut at: usize = 0;
    while at < last
        invariant
            at <= last,
            last == text.len() - token.len(),
            first_occurrence(text@, token@) == first_occurrence_from(text@, token@, at as int),
        decreases last - at,
    {
        if stands_at(text, token, at) {
            return Some(at);
        }
        at += 1;
    }
    if stands_at(text, token, last) {
        Some(last)
    } else {
        assert(first_occurrence_from(text@, token@, last + 1) is None);
        None
    }
}

/// Puts the body of a note into an outer template, in the place of the
/// first `{content}`. Everything else of the template stays as it is. A
/// template without the placeholder is an error.
pub fn merge_note(template: &str, body: &str) -> (result: Result<String, NoteError>)
    ensures
        match result {
            Ok(text) => merged(template@, body@) == Some(text@),
            Err(error) => merged(template@, body@) is None && error is MissingPlaceholder,
        },
{
    let text = chars_of(template);
    let token = chars_of(CONTENT_PLACEHOLDER);
    match find_first(&text, &token) {
        Some(at) => {
            proof {
                lemma_first_occurrence_from(template@, CONTENT_PLACEHOLDER@, 0);
                assert(at + token.len() <= text.len());
            }
            let before = template.substring_char(0, at);
            let after = template.substring_char(at + token.len(), text.len());
            let mut note = String::from_str(before);
            note.append(body);
            note.append(after);
            Ok(note)
        },
        None => Err(NoteError::MissingPlaceholder),
    }
}

/// The note for a body and an optional outer template: the body itself
/// where no template is given or the template is empty, otherwise the
/// template with the body in the place of its placeholder.
pub open spec fn finished(template: Option<Seq<char>>, body: Seq<char>) -> Option<Seq<char>> {
    match template {
        Some(outer) => if outer.len() == 0 {
            Some(body)
        } else {
            merged(outer, body)
        },
        None => Some(body),
    }
}

/// Finishes a note: puts its body into the outer template, if one is given
/// and not empty.
pub fn finish_note(template: &Option<String>, body: String) -> (result: Result<String, NoteError>)
    ensures
        match result {
            Ok(text) => finished(crate::text::opt_text(*template), body@) == Some(text@),
            Err(error) => finished(crate::text::opt_text(*template), body@) is None
                && error is MissingPlaceholder,
        },
{
    match template {
        Some(outer) => {
            if outer.as_str().unicode_len() == 0 {
                Ok(body)
            } else {
                merge_note(outer.as_str(), body.as_str())
            }
        },
        None => Ok(body),
    }
}

/// A template that holds the placeholder exactly once, between `before` and
/// `after`, becomes `before`, the body, and `after`: every other character
/// stays as it is.
pub proof fn lemma_merge_round_trip(before: Seq<char>, after: Seq<char>, body: Seq<char>)
    requires
        forall|at: int|
            occurs_at(before + CONTENT_PLACEHOLDER@ + after, CONTENT_PLACEHOLDER@, at) ==> at
                == before.len(),
    ensures
        merged(before + CONTENT_PLACEHOLDER@ + after, body) == Some(before + body + after),
{
    let template = before + CONTENT_PLACEHOLDER@ + after;
    let token = CONTENT_PLACEHOLDER@;
    lemma_first_occurrence_from(template, token, 0);
    assert(template.subrange(before.len() as int, before.len() as int + token.len()) =~= token);
    assert(occurs_at(template, token, before.len() as int));
    let at = first_occurrence(template, token)->0;
    assert(at == before.len());
    assert(template.subrange(0, at) =~= before);
    assert(template.subrange(at + token.len(), template.len() as int) =~= after);
}

} // verus!
