//! The robots.txt layer: a per-run cache of robots.txt documents by domain,
//! where they are fetched from, and the fail-open rules.

use vstd::prelude::*;
use crate::text::opt_view;
use crate::web_url::{parse_url, parsed_url, url_domain};

verus! {

/// The map that a list of entries builds when each entry overrides earlier
/// ones with the same key.
pub open spec fn entries_map(entries: Seq<(String, String)>) -> Map<Seq<char>, Seq<char>>
    decreases entries.len(),
{
    if entries.len() == 0 {
        Map::empty()
    } else {
        entries_map(entries.drop_last()).insert(entries.last().0@, entries.last().1@)
    }
}

/// A string-to-string cache; a later `set` of a key overrides an earlier one.
pub struct InMemoryCache {
    entries: Vec<(String, String)>,
}

impl View for InMemoryCache {
    type V = Map<Seq<char>, Seq<char>>;

    closed spec fn view(&self) -> Map<Seq<char>, Seq<char>> {
        entries_map(self.entries@)
    }
}

impl InMemoryCache {
    /// An empty cache.
    pub fn new() -> (r: InMemoryCache)
        ensures
            r@ == Map::<Seq<char>, Seq<char>>::empty(),
    {
        InMemoryCache { entries: Vec::new() }
    }

    /// The value cached under `key`, if any.
    pub fn get(&self, key: &str) -> (r: Option<String>)
        ensures
            opt_view(r) == (if self@.contains_key(key@) {
                Some(self@[key@])
            } else {
                None
            }),
    {
        let target = String::from_str(key);
        let mut k: usize = self.entries.len();
        assert(self.entries@.subrange(0, k as int) =~= self.entries@);
        while k > 0
            invariant
                k <= self.entries@.len(),
                target@ == key@,
                entries_map(self.entries@.subrange(0, k as int)).contains_key(key@)
                    == self@.contains_key(key@),
                self@.contains_key(key@) ==> self@[key@] == entries_map(
                    self.entries@.subrange(0, k as int),
                )[key@],
            decreases k,
        {
            let ghost es = self.entries@.subrange(0, k as int);
            assert(es.drop_last() =~= self.entries@.subrange(0, k - 1));
            if self.entries[k - 1].0 == target {
                return Some(self.entries[k - 1].1.clone());
            }
            k = k - 1;
        }
        None
    }

    /// Caches `value` under `key`.
    pub fn set(&mut self, key: String, value: String)
        ensures
            final(self)@ == old(self)@.insert(key@, value@),
    {
        self.entries.push((key, value));
        assert(self.entries@.drop_last() =~= old(self).entries@);
    }
}

/// Where robots.txt of `domain` is fetched from, over https or http.
pub open spec fn robots_location(domain: Seq<char>, secure: bool) -> Seq<char> {
    (if secure {
        "https://"@
    } else {
        "http://"@
    }) + domain + "/robots.txt"@
}

/// Where robots.txt of `domain` is fetched from, over https or http.
pub fn robots_txt_url(domain: &str, secure: bool) -> (r: String)
    ensures
        r@ == robots_location(domain@, secure),
{
    let mut r = if secure {
        String::from_str("https://")
    } else {
        String::from_str("http://")
    };
    r.append(domain);
    r.append("/robots.txt");
    r
}

/// The domain whose robots.txt governs `url`: `None` where `url` does not
/// parse or has no domain.
pub fn robots_domain(url: &str) -> (r: Option<String>)
    ensures
        opt_view(r) == match parsed_url(url@) {
            Some(u) => url_domain(u),
            None => None,
        },
{
    match parse_url(url) {
        Some(u) => u.domain(),
        None => None,
    }
}

/// The document to cache for a domain, from the https attempt and the http
/// fallback (each `None` where the fetch or the read failed): the first
/// that succeeded, else an empty document, which permits everything.
pub fn robots_document(https_body: Option<String>, http_body: Option<String>) -> (r: String)
    ensures
        r@ == match (opt_view(https_body), opt_view(http_body)) {
            (Some(b), _) => b,
            (None, Some(b)) => b,
            (None, None) => Seq::<char>::empty(),
        },
{
    match https_body {
        Some(b) => b,
        None => match http_body {
            Some(b) => b,
            None => String::new(),
        },
    }
}

/// Whether robots.txt blocks a URL, from the matcher's verdict (`None`
/// where the matcher failed on the document): only an explicit
/// disallowance blocks.
pub fn blocked_by_verdict(allowed: Option<bool>) -> (r: bool)
    ensures
        r == (allowed == Some(false)),
{
    match allowed {
        Some(a) => !a,
        None => false,
    }
}

} // verus!
