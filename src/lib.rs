//! A bounded, polite, resumable web crawler's decision core: URL canonical
//! keys, link resolution, admission policy, robots caching and the traversal
//! bookkeeping that gives "a page is complete" a precise meaning.

pub mod text;
pub mod config;
pub mod canonical;
pub mod web_url;
pub mod resolve;
pub mod admission;
pub mod robots;
pub mod extract;
pub mod fetch;
pub mod crawl;
