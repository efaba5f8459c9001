//! Absolute URLs, parsed and edited by the `url` crate.
//!
//! WHATWG URL parsing takes pages to state, so what the crate returns is
//! named here, as a function of the text it was given, rather than spelled
//! out. A parsed URL is identified by its serialization.

use vstd::prelude::*;
use crate::text::{chars_of, last_index, last_index_of, lemma_last_index_at_least, slice_of, starts_with};

verus! {

#[verifier::external_type_specification]
#[verifier::external_body]
pub struct ExUrl(url::Url);

/// The serialization of `url::Url::parse(s)`, or `None` where it fails.
pub uninterp spec fn parsed_url(s: Seq<char>) -> Option<Seq<char>>;

/// `url::Url::domain` of the URL serialized as `u`.
pub uninterp spec fn url_domain(u: Seq<char>) -> Option<Seq<char>>;

/// `url::Url::path` of the URL serialized as `u`.
pub uninterp spec fn url_path(u: Seq<char>) -> Seq<char>;

/// The serialization after `url::Url::set_path(p)` on the URL serialized as `u`.
pub uninterp spec fn url_with_path(u: Seq<char>, p: Seq<char>) -> Seq<char>;

/// An absolute URL together with its serialization.
pub struct WebUrl {
    url: url::Url,
    text: String,
}

impl View for WebUrl {
    type V = Seq<char>;

    closed spec fn view(&self) -> Seq<char> {
        self.text@
    }
}

/// Relies on `url::Url::parse` and `url::Url::as_str`: the URL that `s`
/// parses to, kept with its serialization.
#[verifier::external_body]
pub(crate) fn parse_url(s: &str) -> (r: Option<WebUrl>)
    ensures
        match r {
            Some(u) => parsed_url(s@) == Some(u@),
            None => parsed_url(s@) is None,
        },
{
    match url::Url::parse(s) {
        Ok(url) => Some(WebUrl { text: url.as_str().to_string(), url }),
        Err(_) => None,
    }
}

impl WebUrl {
    /// The serialization.
    pub fn as_str(&self) -> (r: &str)
        ensures
            r@ == self@,
    {
        self.text.as_str()
    }

    /// Relies on `url::Url::domain`: the host, when it is a domain name.
    #[verifier::external_body]
    pub(crate) fn domain(&self) -> (r: Option<String>)
        ensures
            match r {
                Some(d) => url_domain(self@) == Some(d@),
                None => url_domain(self@) is None,
            },
    {
        match self.url.domain() {
            Some(d) => Some(d.to_string()),
            None => None,
        }
    }

    /// Relies on `url::Url::path`: the percent-encoded path.
    #[verifier::external_body]
    pub(crate) fn path(&self) -> (r: String)
        ensures
            r@ == url_path(self@),
    {
        self.url.path().to_string()
    }

    /// Relies on `url::Url::set_path` and `url::Url::as_str`: replaces the
    /// path, keeping scheme, host, query and fragment.
    #[verifier::external_body]
    pub(crate) fn set_path(&mut self, p: &str)
        ensures
            final(self)@ == url_with_path(old(self)@, p@),
    {
        self.url.set_path(p);
        self.text = self.url.as_str().to_string();
    }

    /// The last segment of the path, as `url::Url::path_segments` splits it:
    /// what follows its last `/`, or `None` when the path does not begin
    /// with `/`.
    pub fn last_path_segment(&self) -> (r: Option<String>)
        ensures
            match r {
                Some(s) => starts_with(url_path(self@), "/"@) && s@ == last_segment(url_path(self@)),
                None => !starts_with(url_path(self@), "/"@),
            },
    {
        let p = self.path();
        let v = chars_of(p.as_str());
        proof {
            reveal_strlit("/");
        }
        if v.len() == 0 || v[0] != '/' {
            proof {
                if v@.len() > 0 {
                    assert(v@.subrange(0, 1)[0] == v@[0]);
                }
            }
            return None;
        }
        assert(v@.subrange(0, 1) =~= "/"@);
        proof {
            lemma_last_index_at_least(v@, '/', 0);
        }
        match last_index_of(&v, '/') {
            Some(i) => Some(slice_of(p.as_str(), i + 1, v.len())),
            None => None,
        }
    }
}

/// What follows the last `/` of `p`.
pub open spec fn last_segment(p: Seq<char>) -> Seq<char> {
    p.subrange(last_index(p, '/') + 1, p.len() as int)
}

} // verus!
