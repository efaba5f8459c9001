//! Link resolution: from a raw `href`/`src` token found on a page to an
//! absolute URL, or a rejection.

use vstd::prelude::*;
use crate::text::{
    after, chars_of, contains, cut_at, ends_with, has_infix, has_prefix, has_suffix, last_index,
    last_index_of, prefix_count, slice_of, starts_with, strip_prefix, strip_prefix_all, take_until,
    trim, trim_end_char, trim_end_matches, trim_space, trim_start_matches, opt_view,
};
use crate::web_url::{parse_url, parsed_url, url_domain, url_path, url_with_path, WebUrl};

verus! {

/// What a token asks for, before the referrer is consulted.
pub enum LinkShape {
    /// Not a navigable link.
    Rejected,
    /// Already absolute: used as it is.
    Absolute(Seq<char>),
    /// Appended to the referrer's domain.
    DomainRelative(Seq<char>),
    /// So many directories up from the referrer's directory, then the rest.
    ParentRelative(nat, Seq<char>),
    /// Against the referrer's directory.
    Relative(Seq<char>),
}

/// A classified link token.
pub enum LinkForm {
    Rejected,
    Absolute(String),
    DomainRelative(String),
    ParentRelative(usize, String),
    Relative(String),
}

impl View for LinkForm {
    type V = LinkShape;

    open spec fn view(&self) -> LinkShape {
        match self {
            LinkForm::Rejected => LinkShape::Rejected,
            LinkForm::Absolute(s) => LinkShape::Absolute(s@),
            LinkForm::DomainRelative(s) => LinkShape::DomainRelative(s@),
            LinkForm::ParentRelative(n, s) => LinkShape::ParentRelative(*n as nat, s@),
            LinkForm::Relative(s) => LinkShape::Relative(s@),
        }
    }
}

/// The token without surrounding white space and without its `#fragment`.
pub open spec fn clean_token(t: Seq<char>) -> Seq<char> {
    trim_space(take_until(trim_space(t), '#'))
}

/// Tokens that lead nowhere: empty, `/`, `#`, a bare query, and two stray
/// fragments seen in the wild.
pub open spec fn is_noop_token(t: Seq<char>) -> bool {
    t.len() == 0 || t == "/"@ || t == "#"@ || starts_with(t, "?"@) || t == "\\\""@ || t
        == "..//"@
}

/// Tokens with a scheme that no page fetch can follow.
pub open spec fn is_non_navigable(t: Seq<char>) -> bool {
    starts_with(t, "mailto:"@) || starts_with(t, "tel:"@) || starts_with(t, "sms:"@)
        || starts_with(t, "facetime:"@) || starts_with(t, "skype:"@) || starts_with(t, "slack:"@)
        || starts_with(t, "zoom:"@) || starts_with(t, "whatsapp:"@) || starts_with(
        t,
        "fb-messenger:"@,
    ) || starts_with(t, "javascript:"@) || starts_with(t, "vbscript:"@) || starts_with(
        t,
        "itms:"@,
    ) || starts_with(t, "market:"@) || contains(t, ":invalid"@) || starts_with(t, "data:image"@)
}

/// The shape of a raw token, by the first rule that applies.
pub open spec fn link_shape(t: Seq<char>) -> LinkShape {
    let c = clean_token(t);
    if is_noop_token(c) || is_non_navigable(c) {
        LinkShape::Rejected
    } else if starts_with(c, "clkn/http/"@) {
        LinkShape::Absolute("http://"@ + strip_prefix_all(c, "clkn/http/"@))
    } else if starts_with(c, "clkn/rel/"@) {
        LinkShape::DomainRelative(strip_prefix_all(c, "clkn/rel/"@))
    } else if starts_with(c, "www"@) || starts_with(c, "http"@) {
        LinkShape::Absolute(c)
    } else if starts_with(c, "//"@) {
        LinkShape::Absolute("https:"@ + c)
    } else if starts_with(c, "/"@) {
        LinkShape::DomainRelative(c)
    } else if starts_with(c, "../"@) || starts_with(c, "./../"@) {
        let d = if starts_with(c, "./"@) {
            after(c, "./"@)
        } else {
            c
        };
        LinkShape::ParentRelative(prefix_count(d, "../"@), strip_prefix_all(d, "../"@))
    } else if starts_with(c, "./"@) {
        LinkShape::Relative(strip_prefix_all(c, "./"@))
    } else {
        LinkShape::Relative(c)
    }
}

/// Whether a cleaned token leads nowhere.
fn is_noop(c: &str) -> (r: bool)
    ensures
        r == is_noop_token(c@),
{
    let n = c.unicode_len();
    let eq_slash = has_prefix(c, "/") && has_suffix(c, "/") && n == "/".unicode_len();
    let eq_hash = has_prefix(c, "#") && n == "#".unicode_len();
    let eq_quote = has_prefix(c, "\\\"") && n == "\\\"".unicode_len();
    let eq_dots = has_prefix(c, "..//") && n == "..//".unicode_len();
    proof {
        assert(starts_with(c@, "/"@) && c@.len() == "/"@.len() ==> c@ == "/"@) by {
            if starts_with(c@, "/"@) && c@.len() == "/"@.len() {
                assert(c@.subrange(0, c@.len() as int) =~= c@);
            }
        }
        assert(starts_with(c@, "#"@) && c@.len() == "#"@.len() ==> c@ == "#"@) by {
            if starts_with(c@, "#"@) && c@.len() == "#"@.len() {
                assert(c@.subrange(0, c@.len() as int) =~= c@);
            }
        }
        assert(starts_with(c@, "\\\""@) && c@.len() == "\\\""@.len() ==> c@ == "\\\""@) by {
            if starts_with(c@, "\\\""@) && c@.len() == "\\\""@.len() {
                assert(c@.subrange(0, c@.len() as int) =~= c@);
            }
        }
        assert(starts_with(c@, "..//"@) && c@.len() == "..//"@.len() ==> c@ == "..//"@) by {
            if starts_with(c@, "..//"@) && c@.len() == "..//"@.len() {
                assert(c@.subrange(0, c@.len() as int) =~= c@);
            }
        }
        assert(c@ == "/"@ ==> starts_with(c@, "/"@) && ends_with(c@, "/"@)) by {
            if c@ == "/"@ {
                assert(c@.subrange(0, c@.len() as int) =~= c@);
            }
        }
        assert(c@ == "#"@ ==> starts_with(c@, "#"@)) by {
            if c@ == "#"@ {
                assert(c@.subrange(0, c@.len() as int) =~= c@);
            }
        }
        assert(c@ == "\\\""@ ==> starts_with(c@, "\\\""@)) by {
            if c@ == "\\\""@ {
                assert(c@.subrange(0, c@.len() as int) =~= c@);
            }
        }
        assert(c@ == "..//"@ ==> starts_with(c@, "..//"@)) by {
            if c@ == "..//"@ {
                assert(c@.subrange(0, c@.len() as int) =~= c@);
            }
        }
    }
    n == 0 || eq_slash || eq_hash || has_prefix(c, "?") || eq_quote || eq_dots
}

/// Whether a cleaned token has a scheme that no page fetch can follow.
fn non_navigable(c: &str) -> (r: bool)
    ensures
        r == is_non_navigable(c@),
{
    has_prefix(c, "mailto:") || has_prefix(c, "tel:") || has_prefix(c, "sms:") || has_prefix(
        c,
        "facetime:",
    ) || has_prefix(c, "skype:") || has_prefix(c, "slack:") || has_prefix(c, "zoom:")
        || has_prefix(c, "whatsapp:") || has_prefix(c, "fb-messenger:") || has_prefix(
        c,
        "javascript:",
    ) || has_prefix(c, "vbscript:") || has_prefix(c, "itms:") || has_prefix(c, "market:")
        || has_infix(c, ":invalid") || has_prefix(c, "data:image")
}

/// The leading `../` steps of `d`, counted, and what follows them.
fn split_parent_steps(d: &str) -> (r: (usize, String))
    ensures
        r.0 as nat == prefix_count(d@, "../"@),
        r.1@ == strip_prefix_all(d@, "../"@),
{
    proof {
        reveal_strlit("../");
    }
    let total = d.unicode_len();
    let mut rest = String::from_str(d);
    let mut n: usize = 0;
    loop
        invariant
            n + rest@.len() <= total,
            total == d@.len(),
            "../"@.len() == 3,
            prefix_count(d@, "../"@) == n + prefix_count(rest@, "../"@),
            strip_prefix_all(d@, "../"@) == strip_prefix_all(rest@, "../"@),
        ensures
            prefix_count(d@, "../"@) == n,
            strip_prefix_all(d@, "../"@) == rest@,
        decreases rest@.len(),
    {
        match strip_prefix(rest.as_str(), "../") {
            Some(next) => {
                rest = next;
                n = n + 1;
            },
            None => {
                break;
            },
        }
    }
    (n, rest)
}

/// Classifies a raw token (see [`link_shape`]).
pub fn classify_link(token: &str) -> (r: LinkForm)
    ensures
        r@ == link_shape(token@),
{
    let t = trim(token);
    let cut = cut_at(t.as_str(), '#');
    let c = trim(cut.as_str());
    let c = c.as_str();
    if is_noop(c) || non_navigable(c) {
        return LinkForm::Rejected;
    }
    if has_prefix(c, "clkn/http/") {
        let mut s = String::from_str("http://");
        let rest = trim_start_matches(c, "clkn/http/");
        s.append(rest.as_str());
        return LinkForm::Absolute(s);
    }
    if has_prefix(c, "clkn/rel/") {
        return LinkForm::DomainRelative(trim_start_matches(c, "clkn/rel/"));
    }
    if has_prefix(c, "www") || has_prefix(c, "http") {
        return LinkForm::Absolute(String::from_str(c));
    }
    if has_prefix(c, "//") {
        let mut s = String::from_str("https:");
        s.append(c);
        return LinkForm::Absolute(s);
    }
    if has_prefix(c, "/") {
        return LinkForm::DomainRelative(String::from_str(c));
    }
    if has_prefix(c, "../") || has_prefix(c, "./../") {
        let d = match strip_prefix(c, "./") {
            Some(d) => d,
            None => String::from_str(c),
        };
        let (n, rest) = split_parent_steps(d.as_str());
        return LinkForm::ParentRelative(n, rest);
    }
    if has_prefix(c, "./") {
        return LinkForm::Relative(trim_start_matches(c, "./"));
    }
    LinkForm::Relative(String::from_str(c))
}

/// The parent directory of a path, as `std::path::Path::parent` gives it
/// for `/`-separated paths: trailing slashes are ignored, the last segment
/// is dropped, and a root or empty path has none.
pub open spec fn parent_of(p: Seq<char>) -> Option<Seq<char>> {
    let q = trim_end_char(p, '/');
    if q.len() == 0 {
        None
    } else {
        let i = last_index(q, '/');
        if i < 0 {
            Some(Seq::<char>::empty())
        } else {
            let h = trim_end_char(q.subrange(0, i), '/');
            if h.len() == 0 {
                Some("/"@)
            } else {
                Some(h)
            }
        }
    }
}

/// One directory up, or the path itself at the top.
pub open spec fn parent_or_self(p: Seq<char>) -> Seq<char> {
    match parent_of(p) {
        Some(q) => q,
        None => p,
    }
}

/// `k` directories up, stopping at the top.
pub open spec fn ancestor(p: Seq<char>, k: nat) -> Seq<char>
    decreases k,
{
    if k == 0 {
        p
    } else {
        ancestor(parent_or_self(p), (k - 1) as nat)
    }
}

/// The URL serialized as `u`, with its path made to end in `/`.
pub open spec fn with_trailing_slash(u: Seq<char>) -> Seq<char> {
    if ends_with(u, "/"@) {
        u
    } else {
        url_with_path(u, url_path(u) + "/"@)
    }
}

/// `rest` after `n` parent steps from the referrer serialized as `r`: the
/// referrer's last segment is its own base, so the walk starts one level
/// above the referrer's path.
pub open spec fn join_parent_spec(r: Seq<char>, n: nat, rest: Seq<char>) -> Seq<char> {
    let u = url_with_path(r, ancestor(url_path(r), n + 1));
    let v = if starts_with(rest, "/"@) {
        u
    } else {
        with_trailing_slash(u)
    };
    v + strip_prefix_all(rest, ".."@)
}

/// `rest` in the referrer's directory: the referrer's path itself, or its
/// parent when the referrer names an `.html` file.
pub open spec fn join_relative_spec(r: Seq<char>, rest: Seq<char>) -> Seq<char> {
    let u = if ends_with(r, ".html"@) {
        url_with_path(r, parent_or_self(url_path(r)))
    } else {
        r
    };
    with_trailing_slash(u) + rest
}

/// What a token resolves to against the referrer `referrer`, or `None`
/// where it is rejected.
pub open spec fn resolve_link(token: Seq<char>, referrer: Seq<char>) -> Option<Seq<char>> {
    match link_shape(token) {
        LinkShape::Rejected => None,
        LinkShape::Absolute(s) => Some(s),
        LinkShape::DomainRelative(s) => match parsed_url(referrer) {
            Some(r) => Some(
                match url_domain(r) {
                    Some(d) => d,
                    None => Seq::<char>::empty(),
                } + s,
            ),
            None => None,
        },
        LinkShape::ParentRelative(n, rest) => match parsed_url(referrer) {
            Some(r) => Some(join_parent_spec(r, n, rest)),
            None => None,
        },
        LinkShape::Relative(rest) => match parsed_url(referrer) {
            Some(r) => Some(join_relative_spec(r, rest)),
            None => None,
        },
    }
}

/// The parent directory of a path (see [`parent_of`]).
pub fn parent_path(p: &str) -> (r: Option<String>)
    ensures
        opt_view(r) == parent_of(p@),
{
    let q = trim_end_matches(p, '/');
    if q.unicode_len() == 0 {
        return None;
    }
    let v = chars_of(q.as_str());
    match last_index_of(&v, '/') {
        None => Some(String::new()),
        Some(i) => {
            let head = slice_of(q.as_str(), 0, i);
            let h = trim_end_matches(head.as_str(), '/');
            if h.unicode_len() == 0 {
                Some(String::from_str("/"))
            } else {
                Some(h)
            }
        },
    }
}

/// One directory up, or the path itself at the top.
fn parent_or_same(p: String) -> (r: String)
    ensures
        r@ == parent_or_self(p@),
{
    match parent_path(p.as_str()) {
        Some(q) => q,
        None => p,
    }
}

/// `k` directories up, stopping at the top.
fn ancestor_path(p: String, k: usize) -> (r: String)
    ensures
        r@ == ancestor(p@, k as nat),
{
    let mut cur = p;
    let mut i: usize = 0;
    while i < k
        invariant
            i <= k,
            ancestor(p@, k as nat) == ancestor(cur@, (k - i) as nat),
        decreases k - i,
    {
        cur = parent_or_same(cur);
        i = i + 1;
    }
    cur
}

/// Makes the path of `u` end in `/`, unless its serialization already does.
fn add_trailing_slash(u: &mut WebUrl)
    ensures
        final(u)@ == with_trailing_slash(old(u)@),
{
    if !has_suffix(u.as_str(), "/") {
        let mut p = u.path();
        p.append("/");
        u.set_path(p.as_str());
    }
}

/// `rest` after `n` parent steps from the referrer `u`.
fn join_parent(u: WebUrl, n: usize, rest: &str) -> (r: String)
    ensures
        r@ == join_parent_spec(u@, n as nat, rest@),
{
    let mut u = u;
    let ghost r0 = u@;
    let first = parent_or_same(u.path());
    let p = ancestor_path(first, n);
    assert(p@ == ancestor(url_path(r0), n as nat + 1));
    u.set_path(p.as_str());
    if !has_prefix(rest, "/") {
        add_trailing_slash(&mut u);
    }
    let tail = trim_start_matches(rest, "..");
    let mut out = String::from_str(u.as_str());
    out.append(tail.as_str());
    out
}

/// `rest` in the directory of the referrer `u`.
fn join_relative(u: WebUrl, rest: &str) -> (r: String)
    ensures
        r@ == join_relative_spec(u@, rest@),
{
    let mut u = u;
    if has_suffix(u.as_str(), ".html") {
        let p = parent_or_same(u.path());
        u.set_path(p.as_str());
    }
    add_trailing_slash(&mut u);
    let mut out = String::from_str(u.as_str());
    out.append(rest);
    out
}

/// Rewrites a raw link token found on the page `referrer_url` into an
/// absolute URL (see [`resolve_link`]); `Err` where the token is rejected,
/// or where it needs the referrer and the referrer does not parse.
pub fn handle_relative_paths(url: &str, referrer_url: &String) -> (r: Result<String, ()>)
    ensures
        match r {
            Ok(s) => resolve_link(url@, referrer_url@) == Some(s@),
            Err(_) => resolve_link(url@, referrer_url@) is None,
        },
{
    match classify_link(url) {
        LinkForm::Rejected => Err(()),
        LinkForm::Absolute(s) => Ok(s),
        LinkForm::DomainRelative(s) => match parse_url(referrer_url.as_str()) {
            Some(r) => {
                let mut d = match r.domain() {
                    Some(d) => d,
                    None => String::new(),
                };
                d.append(s.as_str());
                Ok(d)
            },
            None => Err(()),
        },
        LinkForm::ParentRelative(n, rest) => match parse_url(referrer_url.as_str()) {
            Some(r) => Ok(join_parent(r, n, rest.as_str())),
            None => Err(()),
        },
        LinkForm::Relative(rest) => match parse_url(referrer_url.as_str()) {
            Some(r) => Ok(join_relative(r, rest.as_str())),
            None => Err(()),
        },
    }
}

/// A `javascript:` link is rejected, whatever page it was found on.
pub proof fn lemma_javascript_links_rejected(token: Seq<char>, referrer: Seq<char>)
    requires
        starts_with(clean_token(token), "javascript:"@),
    ensures
        resolve_link(token, referrer) is None,
{
}

/// The tokens that resolve, resolved, in their order.
pub open spec fn resolved_links(tokens: Seq<Seq<char>>, referrer: Seq<char>) -> Seq<Seq<char>>
    decreases tokens.len(),
{
    if tokens.len() == 0 {
        Seq::empty()
    } else {
        let front = resolved_links(tokens.drop_last(), referrer);
        match resolve_link(tokens.last(), referrer) {
            Some(u) => front.push(u),
            None => front,
        }
    }
}

/// Resolves each raw token found on the page `referrer_url`, in order,
/// dropping the rejected ones.
pub fn resolve_links(links: &Vec<String>, referrer_url: &String) -> (r: Vec<String>)
    ensures
        r@.map_values(|s: String| s@) == resolved_links(
            links@.map_values(|s: String| s@),
            referrer_url@,
        ),
{
    let ghost tokens = links@.map_values(|s: String| s@);
    let mut out: Vec<String> = Vec::new();
    let mut i: usize = 0;
    while i < links.len()
        invariant
            i <= links@.len(),
            tokens == links@.map_values(|s: String| s@),
            out@.map_values(|s: String| s@) == resolved_links(
                tokens.subrange(0, i as int),
                referrer_url@,
            ),
        decreases links@.len() - i,
    {
        assert(tokens.subrange(0, i + 1).drop_last() =~= tokens.subrange(0, i as int));
        match handle_relative_paths(links[i].as_str(), referrer_url) {
            Ok(u) => {
                let ghost before = out@;
                out.push(u);
                assert(out@.map_values(|s: String| s@) =~= before.map_values(|s: String| s@).push(
                    u@,
                ));
            },
            Err(_) => {},
        }
        i = i + 1;
    }
    assert(tokens.subrange(0, links@.len() as int) =~= tokens);
    out
}

} // verus!
