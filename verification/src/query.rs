//! The text of a free-text search: the caller's own query, followed by the
//! filters that the configuration stands for, with one space between two
//! words.

use vstd::prelude::*;
use crate::config::{NoteConfig, NoteConfigView};
use crate::text::{lemma_texts_push, texts};

verus! {

/// The words joined by one space between each two of them.
pub open spec fn joined(words: Seq<Seq<char>>) -> Seq<char>
    decreases words.len(),
{
    if words.len() == 0 {
        Seq::empty()
    } else if words.len() == 1 {
        words[0]
    } else {
        joined(words.drop_last()) + " "@ + words.last()
    }
}

/// Joins the words by one space between each two of them.
pub fn join_words(words: &Vec<String>) -> (text: String)
    ensures
        text@ == joined(texts(words@)),
{
    let mut text = String::new();
    let mut i: usize = 0;
    assert(texts(words@).subrange(0, 0) =~= Seq::<Seq<char>>::empty());
    while i < words.len()
        invariant
            i <= words.len(),
            text@ == joined(texts(words@).subrange(0, i as int)),
        decreases words.len() - i,
    {
        let ghost done = texts(words@).subrange(0, i as int);
        let ghost next = texts(words@).subrange(0, i + 1);
        proof {
            assert(next.drop_last() =~= done);
            assert(next.last() == words[i as int]@);
        }
        if i > 0 {
            text.append(" ");
        }
        text.append(words[i].as_str());
        assert(text@ =~= joined(next)) by {
            if i == 0 {
                assert(next[0] == words[i as int]@);
            }
        }
        i += 1;
    }
    assert(texts(words@).subrange(0, words.len() as int) =~= texts(words@));
    text
}

/// A filter of the query: its name, a colon, its value.
pub open spec fn filter_word(name: Seq<char>, value: Seq<char>) -> Seq<char> {
    name + ":"@ + value
}

/// One filter of name `name` for each value.
pub open spec fn filter_words(name: Seq<char>, values: Seq<Seq<char>>) -> Seq<Seq<char>> {
    Seq::new(values.len(), |i: int| filter_word(name, values[i]))
}

/// The values of an optional list: none where there is no list.
pub open spec fn listed(values: Option<Seq<Seq<char>>>) -> Seq<Seq<char>> {
    match values {
        Some(list) => list,
        None => Seq::empty(),
    }
}

/// The caller's query as a word, if it is not empty.
pub open spec fn own_words(query: Seq<char>) -> Seq<Seq<char>> {
    if query.len() == 0 {
        Seq::empty()
    } else {
        seq![query]
    }
}

/// The filter for the configured milestone, if one is configured.
pub open spec fn milestone_words(config: NoteConfigView) -> Seq<Seq<char>> {
    match config.milestone {
        Some(title) => seq![filter_word("milestone"@, title)],
        None => Seq::empty(),
    }
}

/// The filter for the configured state, if it is not empty.
pub open spec fn state_words(config: NoteConfigView) -> Seq<Seq<char>> {
    if config.state.len() == 0 {
        Seq::empty()
    } else {
        seq![filter_word("is"@, config.state)]
    }
}

/// The words of a search: the caller's query, the repository, the
/// milestone, the state, the labels to bear and the labels not to bear.
pub open spec fn query_words(config: NoteConfigView, query: Seq<char>) -> Seq<Seq<char>> {
    own_words(query) + seq![filter_word("repo"@, config.owner + "/"@ + config.repo)]
        + milestone_words(config) + state_words(config) + filter_words(
        "label"@,
        listed(config.labels),
    ) + filter_words("-label"@, listed(config.exclude_labels))
}

/// The text of a search.
pub open spec fn search_query_text(config: NoteConfigView, query: Seq<char>) -> Seq<char> {
    joined(query_words(config, query))
}

/// Appends the filter of `name` and `value` to the words.
fn push_filter(words: &mut Vec<String>, name: &str, value: &str)
    ensures
        texts(final(words)@) == texts(old(words)@).push(filter_word(name@, value@)),
{
    let mut word = String::from_str(name);
    word.append(":");
    word.append(value);
    proof {
        lemma_texts_push(words@, word);
    }
    words.push(word);
}

/// Appends one filter of `name` for each value to the words.
fn push_filters(words: &mut Vec<String>, name: &str, values: &Option<Vec<String>>)
    ensures
        texts(final(words)@) == texts(old(words)@) + filter_words(
            name@,
            listed(crate::text::opt_texts(*values)),
        ),
{
    let ghost start = texts(words@);
    match values {
        Some(list) => {
            let ghost all = filter_words(name@, texts(list@));
            let mut i: usize = 0;
            assert(texts(words@) =~= start + all.subrange(0, 0));
            while i < list.len()
                invariant
                    i <= list.len(),
                    all == filter_words(name@, texts(list@)),
                    texts(words@) == start + all.subrange(0, i as int),
                decreases list.len() - i,
            {
                push_filter(words, name, list[i].as_str());
                assert(start + all.subrange(0, i + 1) =~= (start + all.subrange(
                    0,
                    i as int,
                )).push(filter_word(name@, list[i as int]@)));
                i += 1;
            }
            assert(all.subrange(0, list.len() as int) =~= all);
        },
        None => {
            assert(texts(words@) =~= start + Seq::<Seq<char>>::empty());
        },
    }
}

/// Makes the text of a free-text search from the caller's own query and the
/// configuration: the repository, the milestone if one is configured, the
/// state if it is not empty, each label to bear and each label not to bear.
pub fn search_query(config: &NoteConfig, query: &str) -> (text: String)
    ensures
        text@ == search_query_text(config@, query@),
{
    let mut words: Vec<String> = Vec::new();
    if query.unicode_len() > 0 {
        words.push(String::from_str(query));
    }
    assert(texts(words@) =~= own_words(query@));
    let mut repository = config.owner.clone();
    repository.append("/");
    repository.append(config.repo.as_str());
    push_filter(&mut words, "repo", repository.as_str());
    let ghost with_repo = texts(words@);
    if let Some(title) = &config.milestone {
        push_filter(&mut words, "milestone", title.as_str());
    }
    assert(texts(words@) =~= with_repo + milestone_words(config@));
    let ghost with_milestone = texts(words@);
    if config.state.as_str().unicode_len() > 0 {
        push_filter(&mut words, "is", config.state.as_str());
    }
    assert(texts(words@) =~= with_milestone + state_words(config@));
    push_filters(&mut words, "label", &config.labels);
    push_filters(&mut words, "-label", &config.exclude_labels);
    assert(texts(words@) =~= query_words(config@, query@));
    join_words(&words)
}

} // verus!
