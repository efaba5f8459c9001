//! Link and image tokens of a page, taken from its HTML by `scraper`.

use vstd::prelude::*;

verus! {

/// The values of attribute `attr` on the elements of the HTML document
/// `html` that the CSS selector `selector` matches, in document order, as
/// `scraper` finds them; `None` where the selector does not parse.
pub uninterp spec fn html_attribute_values(
    html: Seq<char>,
    selector: Seq<char>,
    attr: Seq<char>,
) -> Option<Seq<Seq<char>>>;

/// The views of a list of strings.
pub open spec fn string_views(v: Seq<String>) -> Seq<Seq<char>> {
    v.map_values(|s: String| s@)
}

/// Relies on `scraper::Html::parse_document`, `scraper::Selector::parse`,
/// `scraper::Html::select` and `scraper::node::Element::attr`: the values of
/// `attr` on the elements that `selector` matches, in document order.
#[verifier::external_body]
pub fn extract_attributes(html: &str, selector: &str, attr: &str) -> (r: Option<Vec<String>>)
    ensures
        match r {
            Some(v) => html_attribute_values(html@, selector@, attr@) == Some(string_views(v@)),
            None => html_attribute_values(html@, selector@, attr@) is None,
        },
{
    let selector = match scraper::Selector::parse(selector) {
        Ok(s) => s,
        Err(_) => return None,
    };
    let doc = scraper::Html::parse_document(html);
    let mut values = Vec::new();
    for element in doc.select(&selector) {
        if let Some(v) = element.value().attr(attr) {
            values.push(v.to_string());
        }
    }
    Some(values)
}

/// The raw link and image tokens of a page.
pub struct SiteLinks {
    /// `href` of each anchor.
    pub link_links: Vec<String>,
    /// `src` of each image.
    pub img_links: Vec<String>,
}

/// The `href` of each `a[href]` and the `src` of each `img[src]` of a page;
/// `Err` where either extraction fails.
pub fn extract_links(html: &str) -> (r: Result<SiteLinks, ()>)
    ensures
        match r {
            Ok(links) => html_attribute_values(html@, "a[href]"@, "href"@) == Some(
                string_views(links.link_links@),
            ) && html_attribute_values(html@, "img[src]"@, "src"@) == Some(
                string_views(links.img_links@),
            ),
            Err(_) => html_attribute_values(html@, "a[href]"@, "href"@) is None
                || html_attribute_values(html@, "img[src]"@, "src"@) is None,
        },
{
    let link_links = match extract_attributes(html, "a[href]", "href") {
        Some(v) => v,
        None => return Err(()),
    };
    let img_links = match extract_attributes(html, "img[src]", "src") {
        Some(v) => v,
        None => return Err(()),
    };
    Ok(SiteLinks { link_links, img_links })
}

} // verus!
