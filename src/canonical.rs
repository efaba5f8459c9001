//! Canonical keys: the stable identity of a page, used both as the storage
//! key of its visit record and as the in-run dedup key.

use vstd::prelude::*;
use crate::text::{after, cut_at, lemma_trim_end_char_idempotent, starts_with, strip_prefix, take_until, trim_end_char, trim_end_matches};

verus! {

/// What follows `http://` or `https://` at the start of `s`, if either is there.
pub open spec fn after_scheme(s: Seq<char>) -> Option<Seq<char>> {
    if starts_with(s, "https://"@) {
        Some(after(s, "https://"@))
    } else if starts_with(s, "http://"@) {
        Some(after(s, "http://"@))
    } else {
        None
    }
}

/// `s` without one leading `www.`.
pub open spec fn drop_www(s: Seq<char>) -> Seq<char> {
    if starts_with(s, "www."@) {
        after(s, "www."@)
    } else {
        s
    }
}

/// The canonical key of a URL: for an `http`/`https` URL, the text after the
/// scheme and an optional `www.`, up to the first `?`; any other text as it
/// is. Trailing slashes are removed in both cases.
pub open spec fn canonical_key(url: Seq<char>) -> Seq<char> {
    let body = match after_scheme(url) {
        Some(rest) => take_until(drop_www(rest), '?'),
        None => url,
    };
    trim_end_char(body, '/')
}

/// Whether `s` still begins with an `http`/`https` scheme.
pub open spec fn has_web_scheme(s: Seq<char>) -> bool {
    after_scheme(s) is Some
}

/// Maps an absolute URL to its canonical key (see [`canonical_key`]).
pub fn format_url_for_storage(url: String) -> (r: String)
    ensures
        r@ == canonical_key(url@),
{
    let rest = match strip_prefix(url.as_str(), "https://") {
        Some(rest) => Some(rest),
        None => strip_prefix(url.as_str(), "http://"),
    };
    match rest {
        Some(rest) => {
            let host = match strip_prefix(rest.as_str(), "www.") {
                Some(h) => h,
                None => rest,
            };
            let body = cut_at(host.as_str(), '?');
            trim_end_matches(body.as_str(), '/')
        },
        None => trim_end_matches(url.as_str(), '/'),
    }
}

/// Canonicalizing twice is canonicalizing once, for every URL whose key
/// does not itself begin with `http://` or `https://` (a key such as
/// `https://a.com` comes from `http://https://a.com`, and shortens again).
pub proof fn lemma_canonical_key_idempotent(url: Seq<char>)
    requires
        !has_web_scheme(canonical_key(url)),
    ensures
        canonical_key(canonical_key(url)) == canonical_key(url),
{
    let body = match after_scheme(url) {
        Some(rest) => take_until(drop_www(rest), '?'),
        None => url,
    };
    lemma_trim_end_char_idempotent(body, '/');
}

} // verus!
