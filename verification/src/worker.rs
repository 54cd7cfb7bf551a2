//! The polling loop of one site, as a state machine. The worker decides;
//! whoever drives it sleeps, fetches and stores, and reports back what
//! happened.

use vstd::prelude::*;
use crate::extract::{
    article_views, articles_of_page, get_collections, text_of, ArticlePulled, ArticleView,
};
use crate::site::{SelectorSet, SiteConfig};

verus! {

/// The first sleep of a worker, in milliseconds: short, so that the first
/// poll comes soon, and not zero, so that sites started together do not all
/// fetch at once.
pub const WARM_UP_MILLIS: u64 = 500;

/// Where a worker stands in its cycle.
#[derive(Debug, Clone, Copy, PartialEq, Eq, Structural)]
pub enum WorkerState {
    /// Waiting for that many milliseconds, or for the stop signal.
    Sleeping(u64),
    /// Waiting for the page.
    Fetching,
    /// Reading the articles out of the page.
    Extracting,
    /// Waiting for the articles to be stored.
    Persisting,
    /// Done for good.
    Stopped,
}

/// One article as it is stored: the article, the site it was found on and
/// the time it was found at.
#[derive(Debug)]
pub struct ArticleRecord {
    pub site_id: i64,
    pub date: u32,
    pub title: String,
    pub link: String,
    pub description: Option<String>,
    pub image: Option<String>,
    pub comments: Option<String>,
}

/// A stored article as plain values.
pub struct RecordView {
    pub site_id: i64,
    pub date: u32,
    pub article: ArticleView,
}

impl View for ArticleRecord {
    type V = RecordView;

    open spec fn view(&self) -> RecordView {
        RecordView {
            site_id: self.site_id,
            date: self.date,
            article: ArticleView {
                href: self.link@,
                title: self.title@,
                description: text_of(self.description),
                image: text_of(self.image),
                comments: text_of(self.comments),
            },
        }
    }
}

/// The records of a list, each as plain values.
pub open spec fn record_views(records: Seq<ArticleRecord>) -> Seq<RecordView> {
    records.map_values(|r: ArticleRecord| r@)
}

/// The time that a record carries for a clock reading in seconds since the
/// epoch: the reading's low 32 bits.
pub open spec fn record_date(now: u64) -> u32 {
    (now % 0x1_0000_0000) as u32
}

/// The records for the articles of one poll: each article with the site
/// and the time of discovery, in the articles' order.
pub open spec fn stamped(articles: Seq<ArticleView>, site_id: i64, now: u64) -> Seq<RecordView> {
    articles.map_values(
        |article: ArticleView| RecordView { site_id, date: record_date(now), article },
    )
}

/// Makes the record of one article.
pub fn stamp(article: ArticlePulled, site_id: i64, now: u64) -> (r: ArticleRecord)
    ensures
        r@ == (RecordView { site_id, date: record_date(now), article: article@ }),
{
    ArticleRecord {
        site_id,
        date: (now % 0x1_0000_0000) as u32,
        title: article.title,
        link: article.href,
        description: article.description,
        image: article.image,
        comments: article.comments,
    }
}

/// Makes the records of the articles of one poll.
pub fn stamp_all(articles: Vec<ArticlePulled>, site_id: i64, now: u64) -> (r: Vec<ArticleRecord>)
    ensures
        record_views(r@) == stamped(article_views(articles@), site_id, now),
{
    let mut records: Vec<ArticleRecord> = Vec::new();
    let ghost all = articles@;
    for article in it: articles
        invariant
            it.seq() == all,
            record_views(records@) =~= stamped(
                article_views(all.subrange(0, it.index() as int)),
                site_id,
                now,
            ),
    {
        let ghost before = records@;
        records.push(stamp(article, site_id, now));
        assert(all.subrange(0, it.index() + 1) =~= all.subrange(0, it.index() as int).push(
            article,
        ));
        assert(record_views(records@) =~= record_views(before).push(records@.last()@));
    }
    assert(all.subrange(0, all.len() as int) =~= all);
    records
}

/// What the driver of a worker reports to it.
#[derive(Debug)]
pub enum WorkerEvent {
    /// The sleep is over: the timer ran out, the stop signal came, or both.
    Woke { timer_elapsed: bool, cancelled: bool },
    /// The fetch failed, for whatever reason.
    FetchFailed,
    /// The fetch returned this page.
    Fetched(String),
    /// The page held these articles, read at this time (seconds since the
    /// epoch).
    Extracted { articles: Vec<ArticlePulled>, now: u64 },
    /// The batch was stored, whatever became of its single rows.
    Persisted,
}

/// An event as plain values.
pub enum WorkerEventView {
    Woke { timer_elapsed: bool, cancelled: bool },
    FetchFailed,
    Fetched(Seq<char>),
    Extracted { articles: Seq<ArticleView>, now: u64 },
    Persisted,
}

impl View for WorkerEvent {
    type V = WorkerEventView;

    open spec fn view(&self) -> WorkerEventView {
        match *self {
            WorkerEvent::Woke { timer_elapsed, cancelled } => WorkerEventView::Woke {
                timer_elapsed,
                cancelled,
            },
            WorkerEvent::FetchFailed => WorkerEventView::FetchFailed,
            WorkerEvent::Fetched(page) => WorkerEventView::Fetched(page@),
            WorkerEvent::Extracted { articles, now } => WorkerEventView::Extracted {
                articles: article_views(articles@),
                now,
            },
            WorkerEvent::Persisted => WorkerEventView::Persisted,
        }
    }
}

/// What a worker asks its driver to do next.
#[derive(Debug)]
pub enum WorkerAction {
    /// Wait until that many milliseconds have passed or the stop signal
    /// comes, whichever is first, and report `Woke`.
    Sleep(u64),
    /// Fetch the site's page and report `Fetched` or `FetchFailed`.
    Fetch,
    /// Read the articles out of this page and report `Extracted`.
    Extract(String),
    /// Store these records in one batch, insert-or-ignore each, and report
    /// `Persisted`.
    Persist(Vec<ArticleRecord>),
    /// Leave the loop: the worker has stopped.
    Exit,
    /// The event does not belong to the worker's state: nothing has
    /// changed, go on as before.
    Ignored,
}

/// An action as plain values.
pub enum WorkerActionView {
    Sleep(u64),
    Fetch,
    Extract(Seq<char>),
    Persist(Seq<RecordView>),
    Exit,
    Ignored,
}

impl View for WorkerAction {
    type V = WorkerActionView;

    open spec fn view(&self) -> WorkerActionView {
        match *self {
            WorkerAction::Sleep(millis) => WorkerActionView::Sleep(millis),
            WorkerAction::Fetch => WorkerActionView::Fetch,
            WorkerAction::Extract(page) => WorkerActionView::Extract(page@),
            WorkerAction::Persist(records) => WorkerActionView::Persist(record_views(records@)),
            WorkerAction::Exit => WorkerActionView::Exit,
            WorkerAction::Ignored => WorkerActionView::Ignored,
        }
    }
}

/// The state that follows `state` on `event`, and the action that goes with
/// it, for a worker of site `site_id` that polls every `interval`
/// milliseconds.
///
/// A stop signal that is there when the sleep ends wins over the timer. A
/// failed fetch costs one cycle and no more. A stopped worker stays
/// stopped.
pub open spec fn transition(
    state: WorkerState,
    event: WorkerEventView,
    site_id: i64,
    interval: u64,
) -> (WorkerState, WorkerActionView) {
    match (state, event) {
        (WorkerState::Stopped, _) => (WorkerState::Stopped, WorkerActionView::Exit),
        (WorkerState::Sleeping(millis), WorkerEventView::Woke { timer_elapsed, cancelled }) => {
            if cancelled {
                (WorkerState::Stopped, WorkerActionView::Exit)
            } else if timer_elapsed {
                (WorkerState::Fetching, WorkerActionView::Fetch)
            } else {
                (WorkerState::Sleeping(millis), WorkerActionView::Sleep(millis))
            }
        },
        (WorkerState::Fetching, WorkerEventView::FetchFailed) => (
            WorkerState::Sleeping(interval),
            WorkerActionView::Sleep(interval),
        ),
        (WorkerState::Fetching, WorkerEventView::Fetched(page)) => (
            WorkerState::Extracting,
            WorkerActionView::Extract(page),
        ),
        (WorkerState::Extracting, WorkerEventView::Extracted { articles, now }) => (
            WorkerState::Persisting,
            WorkerActionView::Persist(stamped(articles, site_id, now)),
        ),
        (WorkerState::Persisting, WorkerEventView::Persisted) => (
            WorkerState::Sleeping(interval),
            WorkerActionView::Sleep(interval),
        ),
        (state, _) => (state, WorkerActionView::Ignored),
    }
}

/// One step of a worker's loop: the next state and what to do in it.
pub fn next_step(state: WorkerState, event: WorkerEvent, site_id: i64, interval: u64) -> (r: (
    WorkerState,
    WorkerAction,
))
    ensures
        (r.0, r.1@) == transition(state, event@, site_id, interval),
{
    match state {
        WorkerState::Stopped => (WorkerState::Stopped, WorkerAction::Exit),
        WorkerState::Sleeping(millis) => match event {
            WorkerEvent::Woke { timer_elapsed, cancelled } => {
                if cancelled {
                    (WorkerState::Stopped, WorkerAction::Exit)
                } else if timer_elapsed {
                    (WorkerState::Fetching, WorkerAction::Fetch)
                } else {
                    (WorkerState::Sleeping(millis), WorkerAction::Sleep(millis))
                }
            },
            _ => (state, WorkerAction::Ignored),
        },
        WorkerState::Fetching => match event {
            WorkerEvent::FetchFailed => (
                WorkerState::Sleeping(interval),
                WorkerAction::Sleep(interval),
            ),
            WorkerEvent::Fetched(page) => (WorkerState::Extracting, WorkerAction::Extract(page)),
            _ => (state, WorkerAction::Ignored),
        },
        WorkerState::Extracting => match event {
            WorkerEvent::Extracted { articles, now } => (
                WorkerState::Persisting,
                WorkerAction::Persist(stamp_all(articles, site_id, now)),
            ),
            _ => (state, WorkerAction::Ignored),
        },
        WorkerState::Persisting => match event {
            WorkerEvent::Persisted => (
                WorkerState::Sleeping(interval),
                WorkerAction::Sleep(interval),
            ),
            _ => (state, WorkerAction::Ignored),
        },
    }
}

/// The time between two polls of a site, in milliseconds, for the seconds
/// that its configuration gives: at least one second, and as long as fits
/// where the configuration asks for more.
pub open spec fn interval_millis(every_seconds: i64) -> u64 {
    if every_seconds < 1 {
        1000
    } else if every_seconds * 1000 > u64::MAX {
        u64::MAX
    } else {
        (every_seconds * 1000) as u64
    }
}

/// Computes the time between two polls of a site.
pub fn poll_interval(every_seconds: i64) -> (r: u64)
    ensures
        r == interval_millis(every_seconds),
        r >= 1000,
{
    if every_seconds < 1 {
        1000
    } else {
        let seconds: u64 = every_seconds as u64;
        if seconds > u64::MAX / 1000 {
            u64::MAX
        } else {
            seconds * 1000
        }
    }
}

/// The worker of one site: what it polls, how, and where it stands.
pub struct SiteWorker {
    site_id: i64,
    site_title: String,
    url: url::Url,
    interval: u64,
    selectors: SelectorSet,
    state: WorkerState,
    handle: u64,
}

/// A worker as plain values.
pub struct WorkerView {
    pub site_id: i64,
    pub site_title: Seq<char>,
    pub url: url::Url,
    pub interval: u64,
    pub selectors: SelectorSet,
    pub state: WorkerState,
    pub handle: u64,
}

impl View for SiteWorker {
    type V = WorkerView;

    closed spec fn view(&self) -> WorkerView {
        WorkerView {
            site_id: self.site_id,
            site_title: self.site_title@,
            url: self.url,
            interval: self.interval,
            selectors: self.selectors,
            state: self.state,
            handle: self.handle,
        }
    }
}

impl SiteWorker {
    /// A worker for a site whose address and selectors have been compiled,
    /// to be stopped by `handle`. It begins asleep, for the warm-up time.
    pub fn new(
        config: &SiteConfig,
        url: url::Url,
        selectors: SelectorSet,
        handle: u64,
    ) -> (r: SiteWorker)
        ensures
            r@ == (WorkerView {
                site_id: config.id,
                site_title: config.site_title@,
                url,
                interval: interval_millis(config.every_seconds),
                selectors,
                state: WorkerState::Sleeping(WARM_UP_MILLIS),
                handle,
            }),
    {
        SiteWorker {
            site_id: config.id,
            site_title: config.site_title.clone(),
            url,
            interval: poll_interval(config.every_seconds),
            selectors,
            state: WorkerState::Sleeping(WARM_UP_MILLIS),
            handle,
        }
    }

    /// The handle under which the registry holds the worker.
    pub fn handle(&self) -> (r: u64)
        ensures
            r == self@.handle,
    {
        self.handle
    }

    /// The site that the worker polls.
    pub fn site_id(&self) -> (r: i64)
        ensures
            r == self@.site_id,
    {
        self.site_id
    }

    /// The title of the site.
    pub fn site_title(&self) -> (r: &str)
        ensures
            r@ == self@.site_title,
    {
        self.site_title.as_str()
    }

    /// The address that the worker fetches.
    pub fn url(&self) -> (r: &url::Url)
        ensures
            *r == self@.url,
    {
        &self.url
    }

    /// The time between two polls, in milliseconds.
    pub fn interval(&self) -> (r: u64)
        ensures
            r == self@.interval,
    {
        self.interval
    }

    /// Where the worker stands.
    pub fn state(&self) -> (r: WorkerState)
        ensures
            r == self@.state,
    {
        self.state
    }

    /// What a newly made worker asks for first: the warm-up sleep.
    pub fn first_action(&self) -> (r: WorkerAction)
        ensures
            r@ == WorkerActionView::Sleep(WARM_UP_MILLIS),
    {
        WorkerAction::Sleep(WARM_UP_MILLIS)
    }

    /// Takes one event and moves on: the worker's state changes as
    /// `transition` says, nothing else of it changes, and the result is the
    /// action that the driver is to perform next.
    pub fn step(&mut self, event: WorkerEvent) -> (r: WorkerAction)
        ensures
            (final(self)@.state, r@) == transition(
                old(self)@.state,
                event@,
                old(self)@.site_id,
                old(self)@.interval,
            ),
            final(self)@ == (WorkerView { state: final(self)@.state, ..old(self)@ }),
    {
        let (state, action) = next_step(self.state, event, self.site_id, self.interval);
        self.state = state;
        action
    }

    /// Reads the articles out of a fetched page with the site's selectors.
    pub fn extract(&self, page: &str) -> (r: Vec<ArticlePulled>)
        ensures
            article_views(r@) == articles_of_page(
                page@,
                self@.url,
                self@.selectors.articles,
                self@.selectors.inner(),
            ),
    {
        let found = get_collections(
            Some(page),
            &self.url,
            &self.selectors.articles,
            &self.selectors.link,
            &self.selectors.title,
            self.selectors.description.as_ref(),
            self.selectors.image.as_ref(),
            self.selectors.comments.as_ref(),
        );
        match found {
            Some(articles) => articles,
            None => Vec::new(),
        }
    }
}

/// A stopped worker stays stopped, whatever is reported to it, and asks
/// for nothing but to leave the loop.
pub proof fn lemma_stopped_is_final(event: WorkerEventView, site_id: i64, interval: u64)
    ensures
        transition(WorkerState::Stopped, event, site_id, interval) == (
            WorkerState::Stopped,
            WorkerActionView::Exit,
        ),
{
}

/// A stop signal that is there when a sleep ends stops the worker, whether
/// or not the timer has run out too, and no fetch follows.
pub proof fn lemma_stop_signal_wins(millis: u64, timer_elapsed: bool, site_id: i64, interval: u64)
    ensures
        transition(
            WorkerState::Sleeping(millis),
            WorkerEventView::Woke { timer_elapsed, cancelled: true },
            site_id,
            interval,
        ) == (WorkerState::Stopped, WorkerActionView::Exit),
{
}

/// Only a sleeping worker is stopped by the signal: while it fetches,
/// extracts or stores, a wake-up changes nothing.
pub proof fn lemma_busy_worker_finishes_its_step(
    state: WorkerState,
    timer_elapsed: bool,
    cancelled: bool,
    site_id: i64,
    interval: u64,
)
    requires
        state is Fetching || state is Extracting || state is Persisting,
    ensures
        transition(
            state,
            WorkerEventView::Woke { timer_elapsed, cancelled },
            site_id,
            interval,
        ) == (state, WorkerActionView::Ignored),
{
}

/// A failed fetch costs one cycle and no more: the worker sleeps for the
/// site's interval, as after a poll that went well, and fetches again when
/// the timer runs out.
pub proof fn lemma_failed_fetch_is_isolated(site_id: i64, interval: u64)
    ensures
        transition(WorkerState::Fetching, WorkerEventView::FetchFailed, site_id, interval) == (
            WorkerState::Sleeping(interval),
            WorkerActionView::Sleep(interval),
        ),
        transition(
            WorkerState::Sleeping(interval),
            WorkerEventView::Woke { timer_elapsed: true, cancelled: false },
            site_id,
            interval,
        ) == (WorkerState::Fetching, WorkerActionView::Fetch),
{
}

/// One poll that goes well leads from sleep back to sleep, for the site's
/// interval, through a fetch, an extraction and one batch that holds a
/// record for every article, in order.
pub proof fn lemma_poll_returns_to_sleep(
    millis: u64,
    page: Seq<char>,
    articles: Seq<ArticleView>,
    now: u64,
    site_id: i64,
    interval: u64,
)
    ensures
        ({
            let woke = transition(
                WorkerState::Sleeping(millis),
                WorkerEventView::Woke { timer_elapsed: true, cancelled: false },
                site_id,
                interval,
            );
            let fetched = transition(woke.0, WorkerEventView::Fetched(page), site_id, interval);
            let extracted = transition(
                fetched.0,
                WorkerEventView::Extracted { articles, now },
                site_id,
                interval,
            );
            let stored = transition(extracted.0, WorkerEventView::Persisted, site_id, interval);
            &&& woke.1 == WorkerActionView::Fetch
            &&& fetched.1 == WorkerActionView::Extract(page)
            &&& extracted.1 == WorkerActionView::Persist(stamped(articles, site_id, now))
            &&& stamped(articles, site_id, now).len() == articles.len()
            &&& stored == (WorkerState::Sleeping(interval), WorkerActionView::Sleep(interval))
        }),
{
}

/// A fetch is asked for only when a sleep has run its full time without a
/// stop signal: never before the timer runs out, never after a signal, and
/// never from another state.
pub proof fn lemma_fetch_only_after_sleep(
    state: WorkerState,
    event: WorkerEventView,
    site_id: i64,
    interval: u64,
)
    ensures
        transition(state, event, site_id, interval).1 is Fetch <==> state is Sleeping && event
            == (WorkerEventView::Woke { timer_elapsed: true, cancelled: false }),
{
}

/// The sleeps of a worker: the warm-up at first, the site's interval ever
/// after.
pub open spec fn sleeps_as_configured(state: WorkerState, interval: u64) -> bool {
    state matches WorkerState::Sleeping(millis) ==> millis == WARM_UP_MILLIS || millis == interval
}

/// A worker only ever sleeps for the warm-up or for the site's interval:
/// that holds of a new worker, and every step keeps it.
pub proof fn lemma_sleeps_stay_as_configured(
    state: WorkerState,
    event: WorkerEventView,
    site_id: i64,
    interval: u64,
)
    requires
        sleeps_as_configured(state, interval),
    ensures
        sleeps_as_configured(WorkerState::Sleeping(WARM_UP_MILLIS), interval),
        sleeps_as_configured(transition(state, event, site_id, interval).0, interval),
        transition(state, event, site_id, interval).1 matches WorkerActionView::Sleep(millis)
            ==> millis == WARM_UP_MILLIS || millis == interval,
{
}

} // verus!
