//! Admission: which resolved links are worth scheduling.
//!
//! The checks run cheapest first: the domain policy and the in-run seen set,
//! then the store's completion flag, then robots.txt. The last two need
//! outside answers, so admission is a short series of steps; the caller
//! performs the query or fetch that a step asks for and hands its answer to
//! the next step.

use vstd::prelude::*;
use crate::config::Config;
use crate::web_url::{parse_url, parsed_url, url_domain, WebUrl};

verus! {

/// `d` is one of the domains in `list`.
pub open spec fn domain_listed(list: Seq<String>, d: Seq<char>) -> bool {
    exists|i: int| 0 <= i < list.len() && #[trigger] list[i]@ == d
}

/// The domain policy: permitted (or crawling is free) and not blacklisted.
pub open spec fn domain_allowed(config: Config, d: Seq<char>) -> bool {
    (config.free_crawl || domain_listed(config.permitted_domains@, d)) && !domain_listed(
        config.blacklist_domains@,
        d,
    )
}

/// The URL serialized as `u` has a domain, and the policy allows it.
pub open spec fn site_allowed(config: Config, u: Seq<char>) -> bool {
    match url_domain(u) {
        Some(d) => domain_allowed(config, d),
        None => false,
    }
}

/// Whether `d` is one of the domains in `list`.
pub fn is_listed(list: &Vec<String>, d: &str) -> (r: bool)
    ensures
        r == domain_listed(list@, d@),
{
    let target = String::from_str(d);
    let mut i: usize = 0;
    while i < list.len()
        invariant
            i <= list@.len(),
            target@ == d@,
            forall|j: int| 0 <= j < i ==> #[trigger] list@[j]@ != d@,
        decreases list@.len() - i,
    {
        if list[i] == target {
            return true;
        }
        i = i + 1;
    }
    false
}

/// Whether the domain policy of `config` allows `domain`.
pub fn is_domain_allowed(config: &Config, domain: &str) -> (r: bool)
    ensures
        r == domain_allowed(*config, domain@),
{
    (config.free_crawl || is_listed(&config.permitted_domains, domain)) && !is_listed(
        &config.blacklist_domains,
        domain,
    )
}

/// Parses `url` as an absolute URL and applies the domain policy; the flag
/// is `true` iff it parses, has a domain, and the policy allows it.
pub fn is_valid_site(config: &Config, url: &str) -> (r: (Option<WebUrl>, bool))
    ensures
        match r.0 {
            Some(u) => parsed_url(url@) == Some(u@),
            None => parsed_url(url@) is None,
        },
        r.1 == match parsed_url(url@) {
            Some(u) => site_allowed(*config, u),
            None => false,
        },
{
    match parse_url(url) {
        Some(u) => {
            let ok = match u.domain() {
                Some(d) => is_domain_allowed(config, d.as_str()),
                None => false,
            };
            (Some(u), ok)
        },
        None => (None, false),
    }
}

/// The canonical keys scheduled or settled during one run.
pub struct SeenSet {
    keys: Vec<String>,
}

impl View for SeenSet {
    type V = Set<Seq<char>>;

    closed spec fn view(&self) -> Set<Seq<char>> {
        Set::new(|k: Seq<char>| exists|i: int| 0 <= i < self.keys@.len() && #[trigger] self.keys@[i]@ == k)
    }
}

impl SeenSet {
    /// An empty set.
    pub fn new() -> (r: SeenSet)
        ensures
            r@ == Set::<Seq<char>>::empty(),
    {
        let r = SeenSet { keys: Vec::new() };
        assert(r@ =~= Set::<Seq<char>>::empty());
        r
    }

    /// Whether `key` is in the set.
    pub fn contains(&self, key: &str) -> (r: bool)
        ensures
            r == self@.contains(key@),
    {
        let target = String::from_str(key);
        let mut i: usize = 0;
        while i < self.keys.len()
            invariant
                i <= self.keys@.len(),
                target@ == key@,
                forall|j: int| 0 <= j < i ==> #[trigger] self.keys@[j]@ != key@,
            decreases self.keys@.len() - i,
        {
            if self.keys[i] == target {
                assert(self.keys@[i as int]@ == key@);
                return true;
            }
            i = i + 1;
        }
        false
    }

    /// Adds `key`.
    pub fn insert(&mut self, key: String)
        ensures
            final(self)@ == old(self)@.insert(key@),
    {
        let ghost before = self.keys@;
        self.keys.push(key);
        assert(self@ =~= old(self)@.insert(key@)) by {
            assert forall|k: Seq<char>| #[trigger] self@.contains(k) == old(self)@.insert(key@).contains(k) by {
                if old(self)@.contains(k) {
                    let i = choose|i: int| 0 <= i < before.len() && #[trigger] before[i]@ == k;
                    assert(self.keys@[i]@ == k);
                }
                if k == key@ {
                    assert(self.keys@[before.len() as int]@ == k);
                }
                if self@.contains(k) {
                    let i = choose|i: int| 0 <= i < self.keys@.len() && #[trigger] self.keys@[i]@ == k;
                    if i < before.len() {
                        assert(before[i]@ == k);
                    }
                }
            }
        }
    }

    /// Claims `key` for one admission: adds it, and answers whether it was
    /// absent before. Membership test and insertion are one step, so two
    /// claims of one key never both succeed.
    pub fn claim(&mut self, key: String) -> (r: bool)
        ensures
            r == !old(self)@.contains(key@),
            final(self)@ == old(self)@.insert(key@),
    {
        if self.contains(key.as_str()) {
            assert(self@.insert(key@) =~= self@);
            false
        } else {
            self.insert(key);
            true
        }
    }
}

} // verus!
