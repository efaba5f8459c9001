//! The fetch policy's decisions: which user agent a request carries, when a
//! response counts as an image, and how a stored image is named.

use vstd::prelude::*;
use crate::canonical::{canonical_key, format_url_for_storage};
use crate::config::Config;
use crate::text::{has_prefix, starts_with};
use crate::web_url::{last_segment, parse_url, parsed_url, url_path};

verus! {

/// Relies on `rand::seq::SliceRandom::choose`: one of the agents, picked at
/// random; `None` only for an empty pool.
#[verifier::external_body]
fn random_agent(agents: &Vec<String>) -> (r: Option<String>)
    ensures
        match r {
            Some(a) => exists|i: int| 0 <= i < agents@.len() && #[trigger] agents@[i]@ == a@,
            None => agents@.len() == 0,
        },
{
    match rand::seq::SliceRandom::choose(agents.as_slice(), &mut rand::thread_rng()) {
        Some(a) => Some(a.clone()),
        None => None,
    }
}

/// The user agent of a request: the first of the pool, or, when agents
/// rotate, any one of the pool; `None` for an empty pool.
pub fn choose_user_agent(config: &Config) -> (r: Option<String>)
    ensures
        match r {
            Some(a) => if config.rotate_user_agents {
                exists|i: int|
                    0 <= i < config.user_agents@.len() && #[trigger] config.user_agents@[i]@ == a@
            } else {
                config.user_agents@.len() > 0 && a@ == config.user_agents@[0]@
            },
            None => config.user_agents@.len() == 0,
        },
{
    if config.user_agents.len() == 0 {
        return None;
    }
    if config.rotate_user_agents {
        random_agent(&config.user_agents)
    } else {
        Some(config.user_agents[0].clone())
    }
}

/// Whether a response with this `Content-Type` (`None` where the header is
/// absent) is taken as an image: only a type other than `image/...` refuses.
pub fn is_image_content_type(content_type: Option<&str>) -> (r: bool)
    ensures
        r == match content_type {
            Some(t) => starts_with(t@, "image/"@),
            None => true,
        },
{
    match content_type {
        Some(t) => has_prefix(t, "image/"),
        None => true,
    }
}

/// The name a stored image gets: the last segment of its URL's path, or
/// `.jpg` where the URL does not parse or its path has no segments.
pub open spec fn image_name_of(url: Seq<char>) -> Seq<char> {
    match parsed_url(url) {
        Some(u) => if starts_with(url_path(u), "/"@) {
            last_segment(url_path(u))
        } else {
            ".jpg"@
        },
        None => ".jpg"@,
    }
}

/// The name a stored image gets (see [`image_name_of`]).
pub fn image_name(url: &str) -> (r: String)
    ensures
        r@ == image_name_of(url@),
{
    match parse_url(url) {
        Some(u) => match u.last_path_segment() {
            Some(s) => s,
            None => String::from_str(".jpg"),
        },
        None => String::from_str(".jpg"),
    }
}

/// What the store keeps of a fetched image: the page's key, the image's
/// key, and the image's name.
pub struct ImageRecord {
    pub referrer: String,
    pub url: String,
    pub name: String,
}

/// The record of an image found on `page_url` and fetched from
/// `image_url` with `n_bytes` bytes: `None` for an empty body, which is
/// not stored.
pub fn image_record(page_url: &str, image_url: &str, n_bytes: usize) -> (r: Option<ImageRecord>)
    ensures
        match r {
            Some(rec) => n_bytes > 0 && rec.referrer@ == canonical_key(page_url@) && rec.url@
                == canonical_key(image_url@) && rec.name@ == image_name_of(image_url@),
            None => n_bytes == 0,
        },
{
    if n_bytes == 0 {
        return None;
    }
    Some(
        ImageRecord {
            referrer: format_url_for_storage(String::from_str(page_url)),
            url: format_url_for_storage(String::from_str(image_url)),
            name: image_name(image_url),
        },
    )
}

} // verus!
