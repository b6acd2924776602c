//! What to ask the issue tracker for: the searches by label and the text of
//! a free-text query, and which of the found issues to keep.

use vstd::prelude::*;
use crate::config::{IssueSort, NoteConfig, NoteConfigView};
use crate::filter::{accepts, filter_issue};
use crate::issue::{Issue, IssueView};
use crate::text::{clone_texts, texts};

verus! {

/// The state of the issues that a search asks for.
#[derive(Debug, Clone, Copy, PartialEq, Eq, Structural)]
pub enum IssueState {
    Open,
    Closed,
    All,
}

/// The state that a configured text stands for: `open`, `closed`, and
/// anything else for both.
pub open spec fn issue_state_of(state: Seq<char>) -> IssueState {
    if state == "open"@ {
        IssueState::Open
    } else if state == "closed"@ {
        IssueState::Closed
    } else {
        IssueState::All
    }
}

/// The state that a configured text stands for.
pub fn to_issue_state(state: &str) -> (found: IssueState)
    ensures
        found == issue_state_of(state@),
{
    let text = String::from_str(state);
    if text == String::from_str("open") {
        IssueState::Open
    } else if text == String::from_str("closed") {
        IssueState::Closed
    } else {
        IssueState::All
    }
}

/// The search for the issues that bear all configured labels: one search
/// if such labels are configured, none otherwise.
pub open spec fn all_labels_query(config: NoteConfigView) -> Seq<Seq<Seq<char>>> {
    match config.labels {
        Some(labels) => if labels.len() > 0 {
            seq![labels]
        } else {
            Seq::empty()
        },
        None => Seq::empty(),
    }
}

/// The searches for the labels of which one is enough: one search for each
/// of them, by that label alone.
pub open spec fn any_label_queries(config: NoteConfigView) -> Seq<Seq<Seq<char>>> {
    match config.any_labels {
        Some(labels) => Seq::new(labels.len(), |i: int| seq![labels[i]]),
        None => Seq::empty(),
    }
}

/// The label sets to search for, in the order of the searches.
pub open spec fn label_queries(config: NoteConfigView) -> Seq<Seq<Seq<char>>> {
    all_labels_query(config) + any_label_queries(config)
}

/// The character sequences of a list of label sets.
pub open spec fn query_texts(queries: Seq<Vec<String>>) -> Seq<Seq<Seq<char>>> {
    Seq::new(queries.len(), |i: int| texts(queries[i]@))
}

/// Plans the searches by label: one for the labels that an issue must all
/// bear, if there are any, then one for each label of which one is enough.
pub fn plan_label_queries(config: &NoteConfig) -> (queries: Vec<Vec<String>>)
    ensures
        query_texts(queries@) == label_queries(config@),
{
    let mut queries: Vec<Vec<String>> = Vec::new();
    if let Some(labels) = &config.labels {
        if labels.len() > 0 {
            queries.push(clone_texts(labels));
        }
    }
    assert(query_texts(queries@) =~= all_labels_query(config@));
    if let Some(labels) = &config.any_labels {
        let mut i: usize = 0;
        while i < labels.len()
            invariant
                i <= labels.len(),
                config.any_labels == Some(*labels),
                query_texts(queries@) == all_labels_query(config@) + any_label_queries(
                    config@,
                ).subrange(0, i as int),
            decreases labels.len() - i,
        {
            let ghost before = query_texts(queries@);
            let mut one: Vec<String> = Vec::new();
            one.push(labels[i].clone());
            assert(texts(one@) =~= seq![labels[i as int]@]);
            queries.push(one);
            assert(query_texts(queries@) =~= before.push(seq![labels[i as int]@]));
            assert(any_label_queries(config@).subrange(0, i + 1) =~= any_label_queries(
                config@,
            ).subrange(0, i as int).push(seq![labels[i as int]@]));
            assert(query_texts(queries@) =~= all_labels_query(config@) + any_label_queries(
                config@,
            ).subrange(0, i + 1));
            i += 1;
        }
        assert(any_label_queries(config@).subrange(0, labels.len() as int) =~= any_label_queries(
            config@,
        ));
    } else {
        assert(query_texts(queries@) =~= label_queries(config@));
    }
    queries
}

/// One search of the tracker by labels. The found issues are ordered by
/// their creation time.
#[derive(Debug)]
pub struct LabelSearch {
    /// The labels that a found issue bears, all of them.
    pub labels: Vec<String>,
    /// The state of the issues to find.
    pub state: IssueState,
    /// Only issues updated since this time are found.
    pub since: String,
    /// Oldest first if true, newest first otherwise.
    pub ascending: bool,
}

/// What a search by labels is.
pub ghost struct LabelSearchView {
    pub labels: Seq<Seq<char>>,
    pub state: IssueState,
    pub since: Seq<char>,
    pub ascending: bool,
}

impl View for LabelSearch {
    type V = LabelSearchView;

    open spec fn view(&self) -> LabelSearchView {
        LabelSearchView {
            labels: texts(self.labels@),
            state: self.state,
            since: self.since@,
            ascending: self.ascending,
        }
    }
}

/// The time since which issues are searched for: the configured one, or
/// else the creation time of the latest release.
pub open spec fn since_of(config: NoteConfigView, latest_release: Seq<char>) -> Seq<char> {
    match config.since {
        Some(time) => time,
        None => latest_release,
    }
}

/// The search for `labels` under a configuration: oldest first only if the
/// configuration asks for it, newest first otherwise.
pub open spec fn label_search_of(
    config: NoteConfigView,
    labels: Seq<Seq<char>>,
    latest_release: Seq<char>,
) -> LabelSearchView {
    LabelSearchView {
        labels,
        state: issue_state_of(config.state),
        since: since_of(config, latest_release),
        ascending: config.sort == Some(IssueSort::Asc),
    }
}

/// Whether a search needs the creation time of the latest release: it does
/// unless the configuration says since when to search.
pub fn needs_latest_release(config: &NoteConfig) -> (needed: bool)
    ensures
        needed == (config@.since is None),
{
    config.since.is_none()
}

/// Makes the search for `labels`. `latest_release` is the creation time of
/// the latest release; it is used only where the configuration does not say
/// since when to search.
pub fn label_search(config: &NoteConfig, labels: &Vec<String>, latest_release: &str) -> (search:
    LabelSearch)
    ensures
        search@ == label_search_of(config@, texts(labels@), latest_release@),
{
    let since = match &config.since {
        Some(time) => time.clone(),
        None => String::from_str(latest_release),
    };
    let ascending = match config.sort {
        Some(IssueSort::Asc) => true,
        _ => false,
    };
    LabelSearch {
        labels: clone_texts(labels),
        state: to_issue_state(config.state.as_str()),
        since,
        ascending,
    }
}

/// The view of a found record: nothing for one that could not be read.
pub open spec fn record_view(record: Option<Issue>) -> Option<IssueView> {
    match record {
        Some(issue) => Some(issue@),
        None => None,
    }
}

/// The views of a list of found records.
pub open spec fn record_views(records: Seq<Option<Issue>>) -> Seq<Option<IssueView>> {
    Seq::new(records.len(), |i: int| record_view(records[i]))
}

/// The issues of a batch that are kept: those that could be read and that
/// the filter accepts, in the order of the batch.
pub open spec fn kept(records: Seq<Option<IssueView>>, config: NoteConfigView) -> Seq<IssueView>
    decreases records.len(),
{
    if records.len() == 0 {
        Seq::empty()
    } else {
        match records.last() {
            Some(issue) => if accepts(issue, config) {
                kept(records.drop_last(), config).push(issue)
            } else {
                kept(records.drop_last(), config)
            },
            None => kept(records.drop_last(), config),
        }
    }
}

/// Every kept issue is one that the filter accepts.
pub proof fn lemma_kept_accepted(records: Seq<Option<IssueView>>, config: NoteConfigView)
    ensures
        forall|i: int|
            0 <= i < kept(records, config).len() ==> accepts(
                #[trigger] kept(records, config)[i],
                config,
            ),
    decreases records.len(),
{
    if records.len() > 0 {
        lemma_kept_accepted(records.drop_last(), config);
        let before = kept(records.drop_last(), config);
        assert forall|i: int| 0 <= i < kept(records, config).len() implies accepts(
            #[trigger] kept(records, config)[i],
            config,
        ) by {
            if i < before.len() {
                assert(kept(records, config)[i] == before[i]);
            }
        }
    }
}

/// Appends to `issues` the issues of a batch that are kept. A record that
/// could not be read, given as `None`, is passed over.
pub fn keep_accepted(config: &NoteConfig, records: Vec<Option<Issue>>, issues: &mut Vec<Issue>)
    ensures
        crate::issue::issue_views(final(issues)@) == crate::issue::issue_views(old(issues)@)
            + kept(record_views(records@), config@),
{
    let ghost start = crate::issue::issue_views(issues@);
    let ghost all = record_views(records@);
    let mut records = records;
    let mut i: usize = 0;
    let count = records.len();
    assert(all.subrange(0, 0) =~= Seq::empty());
    assert(crate::issue::issue_views(issues@) =~= start + kept(all.subrange(0, 0), config@));
    while i < count
        invariant
            i <= count,
            count == records.len(),
            all.len() == count,
            forall|j: int| i <= j < count ==> record_view(#[trigger] records[j]) == all[j],
            crate::issue::issue_views(issues@) == start + kept(
                all.subrange(0, i as int),
                config@,
            ),
        decreases count - i,
    {
        let ghost shown = crate::issue::issue_views(issues@);
        let ghost done = all.subrange(0, i as int);
        let ghost next = all.subrange(0, i + 1);
        assert(next.drop_last() =~= done);
        assert(next.last() == all[i as int]);
        let mut record: Option<Issue> = None;
        std::mem::swap(&mut records[i], &mut record);
        if let Some(issue) = record {
            if filter_issue(config, &issue) {
                issues.push(issue);
                assert(crate::issue::issue_views(issues@) =~= shown.push(issue@));
                assert(start + kept(done, config@).push(issue@) =~= (start + kept(
                    done,
                    config@,
                )).push(issue@));
            }
        }
        i += 1;
    }
    assert(all.subrange(0, count as int) =~= all);
}

} // verus!
