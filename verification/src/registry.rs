//! The registry of running workers: for each site that is being polled,
//! the handle by which its worker is stopped. It is the one place where
//! workers are started and stopped, and it holds at most one per site.

use vstd::prelude::*;
use crate::links::{parse_url, parsed_url};
use crate::site::{SelectorField, SelectorSet, SiteConfig};
use crate::worker::{interval_millis, SiteWorker, WorkerState, WorkerView, WARM_UP_MILLIS};

verus! {

/// `imbl::OrdMap`, an ordered map. Opaque to the verifier: what a map holds
/// is given by `handles`.
#[verifier::external_type_specification]
#[verifier::external_body]
#[verifier::reject_recursive_types(K)]
#[verifier::reject_recursive_types(V)]
pub struct ExOrdMap<K, V>(imbl::OrdMap<K, V>);

/// What a map from site to handle holds.
pub uninterp spec fn handles(map: imbl::OrdMap<i64, u64>) -> Map<i64, u64>;

/// Calls `imbl::OrdMap::new`: the map that holds nothing.
#[verifier::external_body]
fn empty_map() -> (r: imbl::OrdMap<i64, u64>)
    ensures
        handles(r) =~= Map::empty(),
{
    imbl::OrdMap::new()
}

/// Calls `imbl::OrdMap::get` and copies the value out: the handle that is
/// held for the site, if there is one.
#[verifier::external_body]
fn map_get(map: &imbl::OrdMap<i64, u64>, site_id: i64) -> (r: Option<u64>)
    ensures
        r == (if handles(*map).contains_key(site_id) {
            Some(handles(*map)[site_id])
        } else {
            None
        }),
{
    map.get(&site_id).copied()
}

/// Calls `imbl::OrdMap::insert`: afterwards the map holds the handle for
/// the site and is otherwise as before; the result is what it held for the
/// site before.
#[verifier::external_body]
fn map_insert(map: &mut imbl::OrdMap<i64, u64>, site_id: i64, handle: u64) -> (r: Option<u64>)
    ensures
        handles(*final(map)) == handles(*old(map)).insert(site_id, handle),
        r == (if handles(*old(map)).contains_key(site_id) {
            Some(handles(*old(map))[site_id])
        } else {
            None
        }),
    no_unwind
{
    map.insert(site_id, handle)
}

/// Calls `imbl::OrdMap::remove`: afterwards the map holds nothing for the
/// site and is otherwise as before; the result is what it held for the
/// site before.
#[verifier::external_body]
fn map_remove(map: &mut imbl::OrdMap<i64, u64>, site_id: i64) -> (r: Option<u64>)
    ensures
        handles(*final(map)) == handles(*old(map)).remove(site_id),
        r == (if handles(*old(map)).contains_key(site_id) {
            Some(handles(*old(map))[site_id])
        } else {
            None
        }),
    no_unwind
{
    map.remove(&site_id)
}

/// Calls `imbl::OrdMap::len`: the number of sites that the map holds a
/// handle for.
#[verifier::external_body]
fn map_len(map: &imbl::OrdMap<i64, u64>) -> (r: usize)
    requires
        handles(*map).dom().finite(),
    ensures
        r == handles(*map).dom().len(),
{
    map.len()
}

/// Why a site's worker was not started.
#[derive(Debug, Clone, Copy, PartialEq, Eq, Structural)]
pub enum StartError {
    /// There is no such site, or it belongs to someone else.
    NotFound,
    /// The site's address is no address.
    InvalidUrl,
    /// The text of this selector of the site is no selector.
    InvalidSelector(SelectorField),
    /// The site has a worker already: stop it first.
    AlreadyRunning,
}

/// A registry as plain values: for each site that has a worker, the
/// worker's handle; and the handle that the next worker will get.
pub struct RegistryView {
    pub workers: Map<i64, u64>,
    pub next_handle: u64,
}

impl RegistryView {
    /// The registry that holds no worker and has given out no handle.
    pub open spec fn empty() -> RegistryView {
        RegistryView { workers: Map::empty(), next_handle: 0 }
    }

    /// A registry is sound where it holds finitely many workers, every
    /// handle in it was given out before, and no two sites share one.
    pub open spec fn wf(self) -> bool {
        &&& self.workers.dom().finite()
        &&& forall|site: i64| #[trigger]
            self.workers.contains_key(site) ==> self.workers[site] < self.next_handle
        &&& forall|a: i64, b: i64|
            #![trigger self.workers[a], self.workers[b]]
            self.workers.contains_key(a) && self.workers.contains_key(b) && a != b
                ==> self.workers[a] != self.workers[b]
    }

    /// Whether a start is refused, and why, for a site whose configuration
    /// was looked up, and whose address and selectors were compiled where
    /// it was found. The first of these that holds decides: the site was
    /// not found or is not the caller's; its address is invalid; one of
    /// its selectors is; it has a worker already.
    pub open spec fn refusal(
        self,
        site_id: i64,
        user_id: i64,
        site: Option<SiteConfig>,
        url: Option<url::Url>,
        selectors: Result<SelectorSet, SelectorField>,
    ) -> Option<StartError> {
        if !found(site_id, user_id, site) {
            Some(StartError::NotFound)
        } else if url is None {
            Some(StartError::InvalidUrl)
        } else if selectors is Err {
            Some(StartError::InvalidSelector(selectors->Err_0))
        } else if self.workers.contains_key(site_id) {
            Some(StartError::AlreadyRunning)
        } else {
            None
        }
    }

    /// The registry after a start that was not refused: the site holds the
    /// next handle, and the handle after it is next.
    pub open spec fn started(self, site_id: i64) -> RegistryView {
        RegistryView {
            workers: self.workers.insert(site_id, self.next_handle),
            next_handle: (self.next_handle + 1) as u64,
        }
    }

    /// The registry after a stop: the site holds no worker, whether it had
    /// one or not.
    pub open spec fn stopped(self, site_id: i64) -> RegistryView {
        RegistryView { workers: self.workers.remove(site_id), next_handle: self.next_handle }
    }

    /// The handle that a stop takes out: the site's, if it had a worker.
    pub open spec fn handle_of(self, site_id: i64) -> Option<u64> {
        if self.workers.contains_key(site_id) {
            Some(self.workers[site_id])
        } else {
            None
        }
    }
}

/// The worker that a start hands out for a site: it polls the site as
/// configured, holds the handle, and is asleep for its warm-up.
pub open spec fn started_worker(
    config: SiteConfig,
    url: url::Url,
    selectors: SelectorSet,
    handle: u64,
) -> WorkerView {
    WorkerView {
        site_id: config.id,
        site_title: config.site_title@,
        url,
        interval: interval_millis(config.every_seconds),
        selectors,
        state: WorkerState::Sleeping(WARM_UP_MILLIS),
        handle,
    }
}

/// The address of a looked-up site, compiled; none where there is no site
/// or its address is no address.
pub open spec fn site_url(site: Option<SiteConfig>) -> Option<url::Url> {
    match site {
        Some(config) => parsed_url(config.url@),
        None => None,
    }
}

/// The selectors of a looked-up site, compiled.
pub open spec fn site_selectors(site: Option<SiteConfig>) -> Result<SelectorSet, SelectorField> {
    match site {
        Some(config) => config.compiled(),
        None => Err(SelectorField::Articles),
    }
}

/// What starting every site of a list, in order, on an empty registry comes
/// to: the registry in which each has a worker, or the refusal of the first
/// site that is refused.
pub open spec fn bootstrapped(sites: Seq<SiteConfig>) -> Result<RegistryView, StartError>
    decreases sites.len(),
{
    if sites.len() == 0 {
        Ok(RegistryView::empty())
    } else {
        let site = sites.last();
        match bootstrapped(sites.drop_last()) {
            Err(error) => Err(error),
            Ok(registry) => match registry.refusal(
                site.id,
                site.user_id,
                Some(site),
                site_url(Some(site)),
                site_selectors(Some(site)),
            ) {
                Some(error) => Err(error),
                None => Ok(registry.started(site.id)),
            },
        }
    }
}

/// A looked-up configuration counts as found where there is one and it is
/// that of the site asked for, owned by the user who asks.
pub open spec fn found(site_id: i64, user_id: i64, site: Option<SiteConfig>) -> bool {
    site matches Some(config) && config.id == site_id && config.user_id == user_id
}

/// The registry of running workers.
pub struct Scraper {
    scrappers: imbl::OrdMap<i64, u64>,
    next_handle: u64,
}

impl View for Scraper {
    type V = RegistryView;

    closed spec fn view(&self) -> RegistryView {
        RegistryView { workers: handles(self.scrappers), next_handle: self.next_handle }
    }
}

impl Scraper {
    #[verifier::type_invariant]
    spec fn sound(self) -> bool {
        self@.wf()
    }

    /// The registry at startup: starts a worker for every configured site,
    /// in the order of the list, and returns the registry with the workers
    /// for the caller to run. The first site that is refused ends it, and
    /// that refusal is the result.
    pub fn new(sites: Vec<SiteConfig>) -> (r: Result<(Scraper, Vec<SiteWorker>), StartError>)
        ensures
            match bootstrapped(sites@) {
                Err(error) => r == Err::<(Scraper, Vec<SiteWorker>), StartError>(error),
                Ok(registry) => {
                    &&& r is Ok
                    &&& r->Ok_0.0@ == registry
                    &&& registry.wf()
                    &&& r->Ok_0.1@.len() == sites@.len()
                    &&& forall|i: int|
                        0 <= i < sites@.len() ==> (#[trigger] r->Ok_0.1@[i])@ == started_worker(
                            sites@[i],
                            site_url(Some(sites@[i]))->0,
                            site_selectors(Some(sites@[i]))->Ok_0,
                            i as u64,
                        )
                },
            },
    {
        let mut registry = Scraper::empty();
        let mut workers: Vec<SiteWorker> = Vec::new();
        let ghost all = sites@;
        let count = sites.len();
        assert(all.subrange(0, 0) =~= Seq::empty());
        for config in it: sites
            invariant
                it.seq() == all,
                all.len() == count,
                bootstrapped(all.subrange(0, it.index() as int)) == Ok::<
                    RegistryView,
                    StartError,
                >(registry@),
                registry@.next_handle == it.index(),
                registry@.wf(),
                workers@.len() == it.index(),
                forall|i: int|
                    0 <= i < it.index() ==> (#[trigger] workers@[i])@ == started_worker(
                        all[i],
                        site_url(Some(all[i]))->0,
                        site_selectors(Some(all[i]))->Ok_0,
                        i as u64,
                    ),
        {
            let ghost upto = all.subrange(0, it.index() + 1);
            assert(upto.drop_last() =~= all.subrange(0, it.index() as int));
            assert(upto.last() == config);
            let site_id = config.id;
            let user_id = config.user_id;
            match registry.scrape_site(site_id, user_id, Some(config)) {
                Ok(worker) => {
                    workers.push(worker);
                },
                Err(error) => {
                    proof {
                        lemma_bootstrap_stays_refused(all, it.index() + 1);
                    }
                    return Err(error);
                },
            }
        }
        assert(all.subrange(0, all.len() as int) =~= all);
        Ok((registry, workers))
    }

    /// A registry without workers.
    pub fn empty() -> (r: Scraper)
        ensures
            r@ == RegistryView::empty(),
            r@.wf(),
    {
        Scraper { scrappers: empty_map(), next_handle: 0 }
    }

    /// Whether the site has a worker.
    pub fn is_running(&self, site_id: i64) -> (r: bool)
        ensures
            r == self@.workers.contains_key(site_id),
    {
        map_get(&self.scrappers, site_id).is_some()
    }

    /// The number of workers.
    pub fn len(&self) -> (r: usize)
        ensures
            self@.wf(),
            r == self@.workers.dom().len(),
    {
        proof {
            use_type_invariant(self);
        }
        map_len(&self.scrappers)
    }

    /// Whether another worker can be started: the handles are not used up.
    pub fn has_capacity(&self) -> (r: bool)
        ensures
            r == (self@.next_handle < u64::MAX),
    {
        self.next_handle < u64::MAX
    }

    /// Starts a worker for a site, given what was found of it: refuses as
    /// `refusal` says and then changes nothing, else registers the site
    /// under a handle that was never given out before and returns the
    /// worker, asleep for its warm-up, for the caller to run.
    pub fn register(
        &mut self,
        site_id: i64,
        user_id: i64,
        site: Option<SiteConfig>,
        url: Option<url::Url>,
        selectors: Result<SelectorSet, SelectorField>,
    ) -> (r: Result<SiteWorker, StartError>)
        requires
            old(self)@.next_handle < u64::MAX,
        ensures
            final(self)@.wf(),
            match old(self)@.refusal(site_id, user_id, site, url, selectors) {
                Some(error) => r == Err::<SiteWorker, StartError>(error) && final(self)@ == old(
                    self,
                )@,
                None => r is Ok && final(self)@ == old(self)@.started(site_id) && r->Ok_0@
                    == started_worker(site->0, url->0, selectors->Ok_0, old(self)@.next_handle),
            },
    {
        proof {
            use_type_invariant(&*self);
        }
        let config = match site {
            Some(config) => config,
            None => { return Err(StartError::NotFound); },
        };
        if config.id != site_id || config.user_id != user_id {
            return Err(StartError::NotFound);
        }
        let url = match url {
            Some(url) => url,
            None => { return Err(StartError::InvalidUrl); },
        };
        let selectors = match selectors {
            Ok(selectors) => selectors,
            Err(field) => { return Err(StartError::InvalidSelector(field)); },
        };
        if map_get(&self.scrappers, site_id).is_some() {
            return Err(StartError::AlreadyRunning);
        }
        let handle = self.next_handle;
        proof {
            lemma_started_is_sound(self@, site_id);
        }
        self.next_handle = handle + 1;
        map_insert(&mut self.scrappers, site_id, handle);
        Ok(SiteWorker::new(&config, url, selectors, handle))
    }

    /// Starts a worker for a site, given what the store holds of it (`None`
    /// where it holds nothing for this site and user). Compiles the site's
    /// address and selectors, then goes on as `register` does.
    pub fn scrape_site(&mut self, site_id: i64, user_id: i64, site: Option<SiteConfig>) -> (r:
        Result<SiteWorker, StartError>)
        requires
            old(self)@.next_handle < u64::MAX,
        ensures
            final(self)@.wf(),
            !found(site_id, user_id, site) ==> r == Err::<SiteWorker, StartError>(
                StartError::NotFound,
            ),
            match old(self)@.refusal(
                site_id,
                user_id,
                site,
                site_url(site),
                site_selectors(site),
            ) {
                Some(error) => r == Err::<SiteWorker, StartError>(error) && final(self)@ == old(
                    self,
                )@,
                None => r is Ok && final(self)@ == old(self)@.started(site_id) && r->Ok_0@
                    == started_worker(
                    site->0,
                    site_url(site)->0,
                    site_selectors(site)->Ok_0,
                    old(self)@.next_handle,
                ),
            },
    {
        match site {
            Some(config) => {
                if config.id == site_id && config.user_id == user_id {
                    let url = parse_url(config.url.as_str());
                    let selectors = config.compile();
                    self.register(site_id, user_id, Some(config), url, selectors)
                } else {
                    self.register(site_id, user_id, Some(config), None, Err(SelectorField::Articles))
                }
            },
            None => self.register(site_id, user_id, None, None, Err(SelectorField::Articles)),
        }
    }

    /// Stops the worker of a site: takes the site out of the registry and
    /// returns the handle by which its worker is told to stop. Where the
    /// site has no worker, nothing changes and there is no handle.
    pub fn remove_scraper(&mut self, id: i64) -> (r: Option<u64>)
        ensures
            final(self)@.wf(),
            final(self)@ == old(self)@.stopped(id),
            r == old(self)@.handle_of(id),
            r is None ==> final(self)@ == old(self)@,
    {
        proof {
            use_type_invariant(&*self);
        }
        let ghost before = self@;
        proof {
            lemma_stopped_is_sound(before, id);
        }
        let removed = map_remove(&mut self.scrappers, id);
        proof {
            if removed is None {
                assert(before.workers.remove(id) =~= before.workers);
            }
        }
        removed
    }
}

/// A start keeps a registry sound, as long as a handle is left to give.
pub proof fn lemma_started_is_sound(registry: RegistryView, site_id: i64)
    requires
        registry.wf(),
        registry.next_handle < u64::MAX,
    ensures
        registry.started(site_id).wf(),
{
    let after = registry.started(site_id);
    assert forall|a: i64, b: i64|
        after.workers.contains_key(a) && after.workers.contains_key(b) && a != b implies
        #[trigger] after.workers[a] != #[trigger] after.workers[b] by {
        if a != site_id {
            assert(registry.workers.contains_key(a));
        }
        if b != site_id {
            assert(registry.workers.contains_key(b));
        }
    }
}

/// A handle is given out once: the handle of a new worker is held by no
/// worker that is registered, and by none that is registered later.
pub proof fn lemma_handle_is_fresh(registry: RegistryView, site_id: i64, other: i64)
    requires
        registry.wf(),
        registry.next_handle < u64::MAX,
        registry.workers.contains_key(other),
    ensures
        registry.workers[other] != registry.next_handle,
        registry.started(site_id).next_handle > registry.next_handle,
{
}

/// A stop keeps a registry sound.
pub proof fn lemma_stopped_is_sound(registry: RegistryView, site_id: i64)
    requires
        registry.wf(),
    ensures
        registry.stopped(site_id).wf(),
{
    let after = registry.stopped(site_id);
    assert forall|a: i64, b: i64|
        after.workers.contains_key(a) && after.workers.contains_key(b) && a != b implies
        #[trigger] after.workers[a] != #[trigger] after.workers[b] by {
        assert(registry.workers.contains_key(a));
        assert(registry.workers.contains_key(b));
    }
}

/// Once a site of a list is refused, the whole list is: the sites after it
/// are not tried.
pub proof fn lemma_bootstrap_stays_refused(sites: Seq<SiteConfig>, n: int)
    requires
        0 <= n <= sites.len(),
        bootstrapped(sites.subrange(0, n)) is Err,
    ensures
        bootstrapped(sites) == bootstrapped(sites.subrange(0, n)),
    decreases sites.len() - n,
{
    if n == sites.len() {
        assert(sites.subrange(0, n) =~= sites);
    } else {
        let longer = sites.subrange(0, n + 1);
        assert(longer.drop_last() =~= sites.subrange(0, n));
        lemma_bootstrap_stays_refused(sites, n + 1);
    }
}

/// A start for a site that the store does not hold, or holds for another
/// user, is refused as not found, whatever else is the case.
pub proof fn lemma_unknown_site_is_not_found(
    registry: RegistryView,
    site_id: i64,
    user_id: i64,
    site: Option<SiteConfig>,
    url: Option<url::Url>,
    selectors: Result<SelectorSet, SelectorField>,
)
    requires
        site matches Some(config) ==> config.id != site_id || config.user_id != user_id,
    ensures
        registry.refusal(site_id, user_id, site, url, selectors) == Some(StartError::NotFound),
{
}

/// Starting two valid sites with different ids on an empty registry, and
/// then stopping both, in either order, leaves the registry without
/// workers. Neither start is refused, and the two get different handles.
pub proof fn lemma_start_both_stop_both(
    a: SiteConfig,
    b: SiteConfig,
    url_a: url::Url,
    url_b: url::Url,
    selectors_a: SelectorSet,
    selectors_b: SelectorSet,
)
    requires
        a.id != b.id,
    ensures
        ({
            let idle = RegistryView::empty();
            let one = idle.started(a.id);
            let both = one.started(b.id);
            &&& idle.refusal(a.id, a.user_id, Some(a), Some(url_a), Ok(selectors_a)) is None
            &&& one.refusal(b.id, b.user_id, Some(b), Some(url_b), Ok(selectors_b)) is None
            &&& both.workers[a.id] != both.workers[b.id]
            &&& both.stopped(a.id).stopped(b.id).workers == Map::<i64, u64>::empty()
            &&& both.stopped(b.id).stopped(a.id).workers == Map::<i64, u64>::empty()
        }),
{
    let both = RegistryView::empty().started(a.id).started(b.id);
    assert(both.stopped(a.id).stopped(b.id).workers =~= Map::<i64, u64>::empty());
    assert(both.stopped(b.id).stopped(a.id).workers =~= Map::<i64, u64>::empty());
}

/// A site has at most one worker: a second start for a site that is
/// running is refused, where nothing else is wrong, as already running,
/// and a start after a stop is not.
pub proof fn lemma_one_worker_per_site(
    registry: RegistryView,
    config: SiteConfig,
    url: url::Url,
    selectors: SelectorSet,
)
    ensures
        registry.started(config.id).refusal(
            config.id,
            config.user_id,
            Some(config),
            Some(url),
            Ok(selectors),
        ) == Some(StartError::AlreadyRunning),
        registry.stopped(config.id).refusal(
            config.id,
            config.user_id,
            Some(config),
            Some(url),
            Ok(selectors),
        ) is None,
{
}

} // verus!
