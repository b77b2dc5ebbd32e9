//! The HTML side of the library: what the document's anchor elements are.
//! Parsing and anchor selection are done by the `scraper` crate behind one
//! trusted wrapper; everything downstream works on plain values.

use vstd::prelude::*;

verus! {

/// One anchor element as the extraction logic sees it: its `href`
/// attribute, if it has one, and its inner HTML, kept verbatim.
pub ghost struct AnchorModel {
    pub href: Option<Seq<char>>,
    pub inner_html: Seq<char>,
}

/// The anchor elements of an HTML document, in document order, as
/// `scraper`'s lenient parser and its fixed `a` selector find them. Lenient
/// parsing never fails: every input yields a (possibly empty) sequence.
pub uninterp spec fn html_anchors(html: Seq<char>) -> Seq<AnchorModel>;

/// One anchor element held as plain values.
#[derive(Debug)]
pub struct Anchor {
    pub href: Option<String>,
    pub inner_html: String,
}

impl View for Anchor {
    type V = AnchorModel;

    open spec fn view(&self) -> AnchorModel {
        AnchorModel {
            href: match self.href {
                Some(h) => Some(h@),
                None => None,
            },
            inner_html: self.inner_html@,
        }
    }
}

/// Relies on `scraper::Html::parse_document` (lenient parsing, which never
/// fails), `scraper::Selector::parse` on the fixed selector `a` (a valid
/// selector, so compiling it cannot fail), `scraper::Html::select` (matches
/// in document order), and `ElementRef::attr` and `ElementRef::inner_html`
/// on each match.
#[verifier::external_body]
pub(crate) fn extract_anchors(html: &str) -> (r: Vec<Anchor>)
    ensures
        r@.map_values(|a: Anchor| a@) == html_anchors(html@),
{
    let document = scraper::Html::parse_document(html);
    let selector = scraper::Selector::parse("a").expect("failed to create <a> selector");
    document
        .select(&selector)
        .map(|element| Anchor {
            href: element.attr("href").map(String::from),
            inner_html: element.inner_html(),
        })
        .collect()
}

} // verus!
