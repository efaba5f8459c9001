//! The traversal controller's decisions.
//!
//! A run visits pages depth first: it records a visit before fetching,
//! admits the links found on the page, visits the admitted ones, and marks
//! the page complete only when every child succeeded. Fetching, parsing,
//! storage and the worker pool are the caller's; this module decides, step
//! by step, and keeps the run's bookkeeping: the seen set, the log of
//! visited keys that doubles as the page budget, and the keys marked
//! complete.

use vstd::prelude::*;
use crate::admission::{is_valid_site, site_allowed, SeenSet};
use crate::canonical::{canonical_key, format_url_for_storage};
use crate::config::Config;
use crate::text::same_text;
use crate::web_url::parsed_url;

verus! {

/// The referrer recorded for the seed of a run.
pub const ROOT_REFERRER: &'static str = "ROOT";

/// One visit, as the store records it: the page's canonical key, the
/// canonical key of the page that led to it, and when it was visited
/// (seconds since the Unix epoch).
pub struct VisitedSite {
    url: String,
    referrer: String,
    visited_at: i64,
}

impl VisitedSite {
    /// A visit record.
    pub fn new(url: String, referrer: String, visited_at: i64) -> (r: VisitedSite)
        ensures
            r.url_view() == url@,
            r.referrer_view() == referrer@,
            r.visited_at_view() == visited_at,
    {
        VisitedSite { url, referrer, visited_at }
    }

    /// The page's canonical key.
    pub closed spec fn url_view(&self) -> Seq<char> {
        self.url@
    }

    /// The referrer's canonical key.
    pub closed spec fn referrer_view(&self) -> Seq<char> {
        self.referrer@
    }

    /// The time of the visit.
    pub closed spec fn visited_at_view(&self) -> i64 {
        self.visited_at
    }

    /// The page's canonical key.
    pub fn url(&self) -> (r: &String)
        ensures
            r@ == self.url_view(),
    {
        &self.url
    }

    /// The referrer's canonical key.
    pub fn referrer(&self) -> (r: &String)
        ensures
            r@ == self.referrer_view(),
    {
        &self.referrer
    }

    /// The time of the visit, in seconds since the Unix epoch.
    pub fn visited_at(&self) -> (r: i64)
        ensures
            r == self.visited_at_view(),
    {
        self.visited_at
    }
}

/// A link under admission: its absolute URL and its canonical key.
pub struct Candidate {
    pub url: String,
    pub key: String,
}

/// Where admission of a link stands.
pub enum Admission {
    /// Not to be scheduled.
    Rejected,
    /// To be scheduled; its key is claimed in the seen set.
    Admitted(Candidate),
    /// Ask the store whether the key is already complete, then call
    /// [`Crawler::completion_checked`].
    CheckCompleted(Candidate),
    /// Ask robots.txt whether the URL is disallowed, then call
    /// [`Crawler::robots_checked`].
    CheckRobots(Candidate),
}

/// [`Admission`] over views: URL, then key.
pub enum AdmissionView {
    Rejected,
    Admitted(Seq<char>, Seq<char>),
    CheckCompleted(Seq<char>, Seq<char>),
    CheckRobots(Seq<char>, Seq<char>),
}

impl View for Admission {
    type V = AdmissionView;

    open spec fn view(&self) -> AdmissionView {
        match self {
            Admission::Rejected => AdmissionView::Rejected,
            Admission::Admitted(c) => AdmissionView::Admitted(c.url@, c.key@),
            Admission::CheckCompleted(c) => AdmissionView::CheckCompleted(c.url@, c.key@),
            Admission::CheckRobots(c) => AdmissionView::CheckRobots(c.url@, c.key@),
        }
    }
}

/// The first admission step: the URL must parse and pass the domain
/// policy; a link from the root is admitted without dedup; any other is
/// rejected when its key was seen this run, and otherwise waits for the
/// store's completion flag.
pub open spec fn begin_outcome(
    config: Config,
    seen: Set<Seq<char>>,
    candidate: Seq<char>,
    from_root: bool,
) -> AdmissionView {
    match parsed_url(candidate) {
        None => AdmissionView::Rejected,
        Some(u) => if !site_allowed(config, u) {
            AdmissionView::Rejected
        } else if from_root {
            AdmissionView::Admitted(u, canonical_key(u))
        } else if seen.contains(canonical_key(u)) {
            AdmissionView::Rejected
        } else {
            AdmissionView::CheckCompleted(u, canonical_key(u))
        },
    }
}

/// Claiming `key`: admitted iff nobody claimed it before; claimed after.
pub open spec fn claim_outcome(seen: Set<Seq<char>>, url: Seq<char>, key: Seq<char>) -> (
    AdmissionView,
    Set<Seq<char>>,
) {
    (
        if seen.contains(key) {
            AdmissionView::Rejected
        } else {
            AdmissionView::Admitted(url, key)
        },
        seen.insert(key),
    )
}

/// The step after the completion query: a complete page is settled (seen,
/// rejected); otherwise robots.txt is asked when it is respected, and the
/// key is claimed when it is not.
pub open spec fn completion_outcome(
    config: Config,
    seen: Set<Seq<char>>,
    url: Seq<char>,
    key: Seq<char>,
    completed: bool,
) -> (AdmissionView, Set<Seq<char>>) {
    if completed {
        (AdmissionView::Rejected, seen.insert(key))
    } else if config.respect_robots {
        (AdmissionView::CheckRobots(url, key), seen)
    } else {
        claim_outcome(seen, url, key)
    }
}

/// The step after the robots.txt check: a disallowed page is settled (seen,
/// rejected); an allowed one is claimed.
pub open spec fn robots_outcome(
    seen: Set<Seq<char>>,
    url: Seq<char>,
    key: Seq<char>,
    blocked: bool,
) -> (AdmissionView, Set<Seq<char>>) {
    if blocked {
        (AdmissionView::Rejected, seen.insert(key))
    } else {
        claim_outcome(seen, url, key)
    }
}

/// How the work on a visited page ended.
#[derive(Clone, Copy, PartialEq, Eq, Structural)]
pub enum VisitOutcome {
    /// The page could not be fetched, parsed or scanned for links.
    FetchFailed,
    /// The page's admitted links were visited; `true` iff all succeeded.
    Explored(bool),
}

/// What a finished visit reports: to its parent, and to the store.
pub struct VisitEnd {
    /// The page and everything admitted beneath it finished within budget.
    pub success: bool,
    /// The page is to be marked complete.
    pub mark_complete: bool,
}

/// The state of a run.
pub struct RunView {
    /// Keys scheduled or settled this run.
    pub seen: Set<Seq<char>>,
    /// Keys of the visits started this run, in order.
    pub visited: Seq<Seq<char>>,
    /// Keys marked complete this run.
    pub completed: Set<Seq<char>>,
    /// The page budget.
    pub budget: nat,
    /// The number of workers.
    pub threads: nat,
}

/// A visit ends successfully unless budget ran out beneath it; the page is
/// marked complete iff it was explored, every child succeeded, and its visit
/// was recorded this run. A page that could not be fetched is a leaf.
pub open spec fn visit_end(run: RunView, key: Seq<char>, outcome: VisitOutcome) -> (bool, bool) {
    match outcome {
        VisitOutcome::FetchFailed => (true, false),
        VisitOutcome::Explored(ok) => (ok, ok && run.visited.contains(key)),
    }
}

/// The run after a visit ends.
pub open spec fn after_end(run: RunView, key: Seq<char>, outcome: VisitOutcome) -> RunView {
    if visit_end(run, key, outcome).1 {
        RunView { completed: run.completed.insert(key), ..run }
    } else {
        run
    }
}

/// The run after a visit of `target` starts, or `None` when the budget is
/// spent.
pub open spec fn after_begin(run: RunView, target: Seq<char>) -> Option<RunView> {
    if run.visited.len() >= run.budget {
        None
    } else {
        Some(RunView { visited: run.visited.push(canonical_key(target)), ..run })
    }
}

/// What holds of every run: no more visits than the budget, and only
/// visited pages complete.
pub open spec fn run_wf(run: RunView) -> bool {
    &&& run.visited.len() <= run.budget
    &&& run.completed.subset_of(run.visited.to_set())
}

/// The views of a list of strings.
pub open spec fn key_views(v: Seq<String>) -> Seq<Seq<char>> {
    v.map_values(|s: String| s@)
}

/// One crawl run's decision state.
pub struct Crawler {
    config: Config,
    seen: SeenSet,
    visited: Vec<String>,
    completed: Ghost<Set<Seq<char>>>,
}

impl View for Crawler {
    type V = RunView;

    closed spec fn view(&self) -> RunView {
        RunView {
            seen: self.seen@,
            visited: key_views(self.visited@),
            completed: self.completed@,
            budget: self.config.max_urls_to_visit as nat,
            threads: self.config.max_threads as nat,
        }
    }
}

impl Crawler {
    /// The configuration of the run.
    pub closed spec fn config_view(&self) -> Config {
        self.config
    }

    /// A fresh run: nothing seen, visited or complete.
    pub fn new(config: Config) -> (r: Crawler)
        ensures
            r.config_view() == config,
            r@.seen == Set::<Seq<char>>::empty(),
            r@.visited == Seq::<Seq<char>>::empty(),
            r@.completed == Set::<Seq<char>>::empty(),
            run_wf(r@),
    {
        let r = Crawler {
            config,
            seen: SeenSet::new(),
            visited: Vec::new(),
            completed: Ghost(Set::empty()),
        };
        assert(key_views(r.visited@) =~= Seq::<Seq<char>>::empty());
        r
    }

    /// The configuration of the run.
    pub fn config(&self) -> (r: &Config)
        ensures
            *r == self.config_view(),
    {
        &self.config
    }

    /// The first admission step for `candidate`, found on the page
    /// `referrer` (see [`begin_outcome`]; the root sentinel as referrer
    /// bypasses dedup).
    pub fn begin_admission(&self, candidate: &str, referrer: &str) -> (r: Admission)
        ensures
            r@ == begin_outcome(self.config_view(), self@.seen, candidate@, referrer@ == ROOT_REFERRER@),
    {
        let (parsed, ok) = is_valid_site(&self.config, candidate);
        if !ok {
            return Admission::Rejected;
        }
        match parsed {
            None => Admission::Rejected,
            Some(u) => {
                let url = String::from_str(u.as_str());
                let key = format_url_for_storage(String::from_str(u.as_str()));
                if same_text(referrer, ROOT_REFERRER) {
                    Admission::Admitted(Candidate { url, key })
                } else if self.seen.contains(key.as_str()) {
                    Admission::Rejected
                } else {
                    Admission::CheckCompleted(Candidate { url, key })
                }
            },
        }
    }

    /// The admission step after the store answered whether the candidate's
    /// key is already complete (see [`completion_outcome`]).
    pub fn completion_checked(&mut self, c: Candidate, completed: bool) -> (r: Admission)
        ensures
            (r@, final(self)@.seen) == completion_outcome(
                old(self).config_view(),
                old(self)@.seen,
                c.url@,
                c.key@,
                completed,
            ),
            final(self)@ == (RunView { seen: final(self)@.seen, ..old(self)@ }),
            final(self).config_view() == old(self).config_view(),
            run_wf(old(self)@) ==> run_wf(final(self)@),
    {
        if completed {
            self.seen.insert(c.key);
            Admission::Rejected
        } else if self.config.respect_robots {
            Admission::CheckRobots(c)
        } else {
            self.claim(c)
        }
    }

    /// The admission step after robots.txt answered whether the candidate
    /// is disallowed (see [`robots_outcome`]).
    pub fn robots_checked(&mut self, c: Candidate, blocked: bool) -> (r: Admission)
        ensures
            (r@, final(self)@.seen) == robots_outcome(old(self)@.seen, c.url@, c.key@, blocked),
            final(self)@ == (RunView { seen: final(self)@.seen, ..old(self)@ }),
            final(self).config_view() == old(self).config_view(),
            run_wf(old(self)@) ==> run_wf(final(self)@),
    {
        if blocked {
            self.seen.insert(c.key);
            Admission::Rejected
        } else {
            self.claim(c)
        }
    }

    /// Claims the candidate's key in the seen set.
    fn claim(&mut self, c: Candidate) -> (r: Admission)
        ensures
            (r@, final(self)@.seen) == claim_outcome(old(self)@.seen, c.url@, c.key@),
            final(self)@ == (RunView { seen: final(self)@.seen, ..old(self)@ }),
            final(self).config_view() == old(self).config_view(),
    {
        let key = c.key.clone();
        if self.seen.claim(key) {
            Admission::Admitted(c)
        } else {
            Admission::Rejected
        }
    }

    /// Starts a run at `seed`: the seed is admitted as a link from the root
    /// (domain policy only, no dedup, no completion check) and its key is
    /// put in the seen set. `None` where the seed does not parse or its
    /// domain is not allowed.
    pub fn start_run(&mut self, seed: &str) -> (r: Option<Candidate>)
        ensures
            final(self).config_view() == old(self).config_view(),
            match begin_outcome(old(self).config_view(), old(self)@.seen, seed@, true) {
                AdmissionView::Admitted(u, k) => r matches Some(c) && c.url@ == u && c.key@ == k
                    && final(self)@ == (RunView { seen: old(self)@.seen.insert(k), ..old(self)@ }),
                _ => r is None && final(self)@ == old(self)@,
            },
            run_wf(old(self)@) ==> run_wf(final(self)@),
    {
        match self.begin_admission(seed, ROOT_REFERRER) {
            Admission::Admitted(c) => {
                self.seen.insert(c.key.clone());
                Some(c)
            },
            _ => None,
        }
    }

    /// Starts the visit of `target`, reached from `referrer`, at time `now`:
    /// `None` when the page budget is spent; otherwise the visit is counted
    /// and logged, and its record (canonical keys of both pages) is
    /// returned for the store, before any fetch.
    pub fn begin_visit(&mut self, target: &str, referrer: &str, now: i64) -> (r: Option<VisitedSite>)
        ensures
            final(self).config_view() == old(self).config_view(),
            match after_begin(old(self)@, target@) {
                None => r is None && final(self)@ == old(self)@,
                Some(run) => r matches Some(v) && final(self)@ == run && v.url_view()
                    == canonical_key(target@) && v.referrer_view() == canonical_key(referrer@)
                    && v.visited_at_view() == now,
            },
            run_wf(old(self)@) ==> run_wf(final(self)@),
    {
        if self.visited.len() >= self.config.max_urls_to_visit {
            return None;
        }
        let key = format_url_for_storage(String::from_str(target));
        let referrer_key = format_url_for_storage(String::from_str(referrer));
        let ghost before = key_views(self.visited@);
        self.visited.push(key.clone());
        proof {
            assert(key_views(self.visited@) =~= before.push(key@));
            assert forall|x: Seq<char>|
                run_wf(old(self)@) && self.completed@.contains(x) implies key_views(
                self.visited@,
            ).to_set().contains(x) by {
                assert(before.to_set().contains(x));
                let i = choose|i: int| 0 <= i < before.len() && before[i] == x;
                assert(key_views(self.visited@)[i] == x);
            }
        }
        Some(VisitedSite::new(key, referrer_key, now))
    }

    /// Whether a visit of `key` was started this run.
    fn was_visited(&self, key: &str) -> (r: bool)
        ensures
            r == self@.visited.contains(key@),
    {
        let target = String::from_str(key);
        let mut i: usize = 0;
        while i < self.visited.len()
            invariant
                i <= self.visited@.len(),
                target@ == key@,
                forall|j: int| 0 <= j < i ==> #[trigger] self.visited@[j]@ != key@,
            decreases self.visited@.len() - i,
        {
            if self.visited[i] == target {
                assert(key_views(self.visited@)[i as int] == key@);
                return true;
            }
            i = i + 1;
        }
        assert forall|j: int| 0 <= j < key_views(self.visited@).len() implies key_views(
            self.visited@,
        )[j] != key@ by {
            assert(self.visited@[j]@ != key@);
        }
        false
    }

    /// Ends the visit of the page `key` (see [`visit_end`]).
    pub fn end_visit(&mut self, key: &str, outcome: VisitOutcome) -> (r: VisitEnd)
        ensures
            (r.success, r.mark_complete) == visit_end(old(self)@, key@, outcome),
            final(self)@ == after_end(old(self)@, key@, outcome),
            final(self).config_view() == old(self).config_view(),
            run_wf(old(self)@) ==> run_wf(final(self)@),
    {
        match outcome {
            VisitOutcome::FetchFailed => VisitEnd { success: true, mark_complete: false },
            VisitOutcome::Explored(ok) => {
                let mark = ok && self.was_visited(key);
                if mark {
                    self.completed = Ghost(self.completed@.insert(key@));
                    assert(key_views(self.visited@).to_set().contains(key@));
                }
                VisitEnd { success: ok, mark_complete: mark }
            },
        }
    }

    /// The number of visits started this run.
    pub fn visited_count(&self) -> (r: usize)
        ensures
            r == self@.visited.len(),
    {
        self.visited.len()
    }
}

/// Only pages visited in a run are marked complete in it: no more pages
/// are complete than were visited.
pub proof fn lemma_completed_within_visited(run: RunView)
    requires
        run_wf(run),
    ensures
        run.completed.finite(),
        run.completed.len() <= run.visited.len(),
{
    run.visited.lemma_cardinality_of_set();
    vstd::seq_lib::seq_to_set_is_finite(run.visited);
    vstd::set_lib::lemma_len_subset(run.completed, run.visited.to_set());
}

/// A run never starts more visits, and so never fetches more pages, than
/// its budget, and so stays within the budget plus one less than the
/// number of workers.
pub proof fn lemma_visits_within_budget(run: RunView)
    requires
        run_wf(run),
    ensures
        run.visited.len() <= run.budget,
        run.threads >= 1 ==> run.visited.len() <= run.budget + run.threads - 1,
{
}

/// A page whose fetch fails is still recorded as visited, ends as a
/// successful leaf without being marked complete, and admits nothing: the
/// seen set is as before the visit.
pub proof fn lemma_failed_fetch_is_leaf(run: RunView, target: Seq<char>)
    requires
        run.visited.len() < run.budget,
    ensures
        after_begin(run, target) matches Some(r1) && r1.visited.contains(canonical_key(target))
            && visit_end(r1, canonical_key(target), VisitOutcome::FetchFailed) == (true, false)
            && after_end(r1, canonical_key(target), VisitOutcome::FetchFailed).seen == run.seen
            && after_end(r1, canonical_key(target), VisitOutcome::FetchFailed).completed
            == run.completed,
{
    let r1 = after_begin(run, target)->Some_0;
    assert(r1.visited[run.visited.len() as int] == canonical_key(target));
}

/// The seed of a run is admitted even when its page is already complete
/// (the root bypasses dedup and the completion check), while the same URL
/// found as a link mid-run is rejected once the store reports it complete.
pub proof fn lemma_seed_bypasses_completion(config: Config, seen: Set<Seq<char>>, url: Seq<char>)
    requires
        parsed_url(url) matches Some(u) && site_allowed(config, u),
    ensures
        begin_outcome(config, seen, url, true) is Admitted,
        ({
            let u = parsed_url(url)->Some_0;
            let k = canonical_key(u);
            begin_outcome(config, seen, url, false) is Rejected || (begin_outcome(
                config,
                seen,
                url,
                false,
            ) == AdmissionView::CheckCompleted(u, k) && completion_outcome(
                config,
                seen,
                u,
                k,
                true,
            ).0 is Rejected)
        }),
{
}

/// Two admissions of one key through the seen set never both succeed; the
/// first succeeds iff the key was not seen before.
pub proof fn lemma_claims_are_exclusive(
    seen: Set<Seq<char>>,
    url1: Seq<char>,
    url2: Seq<char>,
    key: Seq<char>,
)
    ensures
        ({
            let (a, s1) = claim_outcome(seen, url1, key);
            let (b, s2) = claim_outcome(s1, url2, key);
            &&& !(a is Admitted && b is Admitted)
            &&& (a is Admitted <==> !seen.contains(key))
            &&& b is Rejected
        }),
{
}

} // verus!
