//! Extracts the hyperlinks of a web page as pairs of link text and absolute
//! URL.
//!
//! A [`UrlScraper`] is built from a base URL and an HTML document; fetching
//! the document over the network is left to the caller (or to a thin wrapper
//! around an HTTP client). The scraper parses the document once and then
//! hands out, on demand, one `(inner HTML, resolved URL)` pair per anchor
//! element, in document order. Anchors without an `href` attribute, anchors
//! whose `href` begins with `?`, and anchors whose `href` cannot be resolved
//! against the base URL are skipped silently.

mod error;
mod html;
mod links;
mod scrape;
mod urls;

pub use error::{parse_error_text, Error};
pub use html::{html_anchors, AnchorModel};
pub use links::{
    has_usable_href, lemma_emitted_at_most_usable_anchors, lemma_missing_href_emits_nothing,
    lemma_query_href_emits_nothing, link_of, links_from, links_of, starts_with_query,
    usable_anchor_count,
};
pub use scrape::{lemma_iteration_deterministic, IterModel, ScraperModel, UrlIter, UrlScraper};
pub use urls::{url_join, url_parse};
