//! The listing of a note's issues, step by step: the library says what to
//! ask the tracker next, the caller asks and hands back what it found.

use vstd::prelude::*;
use crate::config::{NoteConfig, NoteConfigView};
use crate::issue::{Issue, IssueView, issue_views};
use crate::search::{
    LabelSearch, LabelSearchView, keep_accepted, kept, label_queries, label_search,
    label_search_of, plan_label_queries, query_texts, record_views,
};

verus! {

/// What the caller does next.
#[derive(Debug)]
pub enum ListStep {
    /// Ask for the latest release and hand back its creation time.
    FetchLatestRelease,
    /// Run this search and hand back the batch that it found.
    Search(LabelSearch),
    /// Nothing: every search has been run.
    Finish,
}

/// What a step is.
pub ghost enum ListStepView {
    FetchLatestRelease,
    Search(LabelSearchView),
    Finish,
}

impl View for ListStep {
    type V = ListStepView;

    open spec fn view(&self) -> ListStepView {
        match self {
            ListStep::FetchLatestRelease => ListStepView::FetchLatestRelease,
            ListStep::Search(search) => ListStepView::Search(search@),
            ListStep::Finish => ListStepView::Finish,
        }
    }
}

/// A listing in progress.
#[derive(Debug)]
pub struct IssueListing {
    queries: Vec<Vec<String>>,
    position: usize,
    release: Option<String>,
    issues: Vec<Issue>,
}

/// What a listing is: the label sets to search for, how many of them have
/// been searched for, the creation time of the latest release if it is
/// known for the next search, and the issues kept so far.
pub ghost struct IssueListingView {
    pub queries: Seq<Seq<Seq<char>>>,
    pub position: nat,
    pub release: Option<Seq<char>>,
    pub issues: Seq<IssueView>,
}

/// The step that follows a state: to finish when every search has been run;
/// else to search, since the configured time or since the latest release;
/// else, where neither is known, to ask for the latest release.
pub open spec fn next_step_of(listing: IssueListingView, config: NoteConfigView) -> ListStepView {
    if listing.position >= listing.queries.len() {
        ListStepView::Finish
    } else if config.since is Some {
        ListStepView::Search(
            label_search_of(config, listing.queries[listing.position as int], Seq::empty()),
        )
    } else {
        match listing.release {
            Some(time) => ListStepView::Search(
                label_search_of(config, listing.queries[listing.position as int], time),
            ),
            None => ListStepView::FetchLatestRelease,
        }
    }
}

/// The state after a batch was handed back: its kept issues are appended
/// and the next search is due, for which the latest release is asked for
/// anew. A batch that no search was due for changes nothing.
pub open spec fn after_batch(
    listing: IssueListingView,
    config: NoteConfigView,
    batch: Seq<Option<IssueView>>,
) -> IssueListingView {
    if listing.position >= listing.queries.len() {
        listing
    } else {
        IssueListingView {
            queries: listing.queries,
            position: listing.position + 1,
            release: None,
            issues: listing.issues + kept(batch, config),
        }
    }
}

impl View for IssueListing {
    type V = IssueListingView;

    closed spec fn view(&self) -> IssueListingView {
        IssueListingView {
            queries: query_texts(self.queries@),
            position: self.position as nat,
            release: crate::text::opt_text(self.release),
            issues: issue_views(self.issues@),
        }
    }
}

impl IssueListing {
    /// Starts a listing: plans the searches, none of which has been run.
    pub fn start(config: &NoteConfig) -> (listing: IssueListing)
        ensures
            listing@ == (IssueListingView {
                queries: label_queries(config@),
                position: 0,
                release: None,
                issues: Seq::empty(),
            }),
    {
        let listing = IssueListing {
            queries: plan_label_queries(config),
            position: 0,
            release: None,
            issues: Vec::new(),
        };
        assert(issue_views(listing.issues@) =~= Seq::empty());
        listing
    }

    /// Says what the caller does next.
    pub fn next_step(&self, config: &NoteConfig) -> (step: ListStep)
        ensures
            step@ == next_step_of(self@, config@),
    {
        if self.position >= self.queries.len() {
            return ListStep::Finish;
        }
        let labels = &self.queries[self.position];
        if config.since.is_some() {
            ListStep::Search(label_search(config, labels, ""))
        } else {
            match &self.release {
                Some(time) => ListStep::Search(label_search(config, labels, time.as_str())),
                None => ListStep::FetchLatestRelease,
            }
        }
    }

    /// Takes the creation time of the latest release.
    pub fn release_found(&mut self, created_at: String)
        ensures
            final(self)@ == (IssueListingView { release: Some(created_at@), ..old(self)@ }),
    {
        self.release = Some(created_at);
    }

    /// Takes the batch that the search found: keeps what the filter accepts
    /// and passes over the records that could not be read, given as `None`.
    pub fn batch_found(&mut self, config: &NoteConfig, batch: Vec<Option<Issue>>)
        ensures
            final(self)@ == after_batch(old(self)@, config@, record_views(batch@)),
    {
        if self.position < self.queries.len() {
            keep_accepted(config, batch, &mut self.issues);
            self.position = self.position + 1;
            self.release = None;
        }
    }

    /// Whether every search has been run.
    pub fn is_finished(&self) -> (finished: bool)
        ensures
            finished == (self@.position >= self@.queries.len()),
    {
        self.position >= self.queries.len()
    }

    /// The issues kept so far, in the order in which they were found.
    pub fn issues(&self) -> (issues: &Vec<Issue>)
        ensures
            issue_views(issues@) == self@.issues,
    {
        &self.issues
    }

    /// Ends the listing and hands out the issues kept.
    pub fn into_issues(self) -> (issues: Vec<Issue>)
        ensures
            issue_views(issues@) == self@.issues,
    {
        self.issues
    }
}

/// The issues of a finished listing: the kept issues of the batches, batch
/// after batch in the order of the searches.
pub open spec fn kept_of_all(batches: Seq<Seq<Option<IssueView>>>, config: NoteConfigView) -> Seq<
    IssueView,
>
    decreases batches.len(),
{
    if batches.len() == 0 {
        Seq::empty()
    } else {
        kept_of_all(batches.drop_last(), config) + kept(batches.last(), config)
    }
}

/// The state after the first `count` batches were handed back, one for each
/// search in turn.
pub open spec fn after_batches(
    start: IssueListingView,
    config: NoteConfigView,
    batches: Seq<Seq<Option<IssueView>>>,
    count: nat,
) -> IssueListingView
    decreases count,
{
    if count == 0 {
        start
    } else {
        after_batch(
            after_batches(start, config, batches, (count - 1) as nat),
            config,
            batches[count - 1],
        )
    }
}

/// A listing that got one batch for each of its searches holds the kept
/// issues of all batches, in the order of the searches, and is finished.
pub proof fn lemma_listing_concatenates(
    config: NoteConfigView,
    batches: Seq<Seq<Option<IssueView>>>,
    count: nat,
)
    requires
        count <= batches.len(),
        batches.len() == label_queries(config).len(),
    ensures
        after_batches(
            IssueListingView {
                queries: label_queries(config),
                position: 0,
                release: None,
                issues: Seq::empty(),
            },
            config,
            batches,
            count,
        ) == (IssueListingView {
            queries: label_queries(config),
            position: count,
            release: None,
            issues: kept_of_all(batches.subrange(0, count as int), config),
        }),
    decreases count,
{
    let start = IssueListingView {
        queries: label_queries(config),
        position: 0,
        release: None,
        issues: Seq::empty(),
    };
    if count == 0 {
        assert(batches.subrange(0, 0) =~= Seq::empty());
    } else {
        lemma_listing_concatenates(config, batches, (count - 1) as nat);
        let done = batches.subrange(0, count - 1);
        let next = batches.subrange(0, count as int);
        assert(next.drop_last() =~= done);
        assert(next.last() == batches[count - 1]);
    }
}

} // verus!
