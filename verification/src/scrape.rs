//! The scraper itself: constructed once from a base URL and an HTML
//! document, then iterated over on demand, one emitted link per pull.

use crate::error::Error;
use crate::html::{extract_anchors, html_anchors, Anchor, AnchorModel};
use crate::links::{links_from, links_of};
use crate::urls::{parse_absolute_url, resolve_href, url_parse};
use vstd::prelude::*;
use vstd::string::StrSliceExecFns;

verus! {

/// What a scraper is mathematically: the serialization of its base URL and
/// the anchors of its document, in document order.
pub ghost struct ScraperModel {
    pub base: Seq<char>,
    pub anchors: Seq<AnchorModel>,
}

/// Holds the base URL and the document's anchor elements in memory.
/// Immutable after construction, so it can hand out any number of fresh
/// iterations; iterating never mutates it.
#[derive(Debug)]
pub struct UrlScraper {
    base: String,
    anchors: Vec<Anchor>,
}

impl View for UrlScraper {
    type V = ScraperModel;

    closed spec fn view(&self) -> ScraperModel {
        ScraperModel {
            base: self.base@,
            anchors: self.anchors@.map_values(|a: Anchor| a@),
        }
    }
}

impl UrlScraper {
    /// Constructs a scraper from a base URL and an HTML document supplied
    /// as text, with no network access. The URL must parse as an absolute
    /// URL; the document is parsed leniently, so no input text is ever
    /// refused.
    pub fn new_with_html(url: &str, html: &str) -> (r: Result<UrlScraper, Error>)
        ensures
            r is Ok <==> url_parse(url@) is Some,
            r matches Ok(scraper) ==> scraper@ == (ScraperModel {
                base: url_parse(url@)->Some_0,
                anchors: html_anchors(html@),
            }),
            r matches Err(e) ==> e is UrlParsing,
    {
        let base = match parse_absolute_url(url) {
            Ok(base) => base,
            Err(why) => {
                return Err(Error::from(why));
            },
        };
        let anchors = extract_anchors(html);
        Ok(UrlScraper { base, anchors })
    }

    /// Begins a fresh iteration over the document's links. The handle walks
    /// the anchors once, forward only; request another handle to walk the
    /// document again.
    pub fn into_iter<'a>(&'a self) -> (it: UrlIter<'a>)
        ensures
            it@ == (IterModel { base: self@.base, anchors: self@.anchors, pos: 0 }),
    {
        UrlIter { scraper: self, pos: 0 }
    }
}

/// What an iteration handle is mathematically: the scraper's contents and
/// the position of the next anchor to look at.
pub ghost struct IterModel {
    pub base: Seq<char>,
    pub anchors: Seq<AnchorModel>,
    pub pos: int,
}

/// A forward-only, single-pass cursor over one scraper's links. Each call
/// of [`UrlIter::next`] emits the next usable anchor's link, skipping the
/// anchors that emit nothing.
pub struct UrlIter<'a> {
    scraper: &'a UrlScraper,
    pos: usize,
}

impl<'a> View for UrlIter<'a> {
    type V = IterModel;

    closed spec fn view(&self) -> IterModel {
        IterModel {
            base: self.scraper@.base,
            anchors: self.scraper@.anchors,
            pos: self.pos as int,
        }
    }
}

impl<'a> UrlIter<'a> {
    /// Emits the next link: the first anchor at or after the current
    /// position that has an `href` not beginning with `?` and resolvable
    /// against the base URL yields its inner HTML and the resolved URL.
    /// Returns `None` exactly when no anchor from the current position on
    /// emits anything; the document is then exhausted.
    pub fn next(&mut self) -> (r: Option<(String, String)>)
        ensures
            final(self)@.base == old(self)@.base,
            final(self)@.anchors == old(self)@.anchors,
            old(self)@.pos <= final(self)@.pos,
            r matches Some(link) ==> links_from(old(self)@.base, old(self)@.anchors, old(self)@.pos)
                == seq![(link.0@, link.1@)]
                    + links_from(old(self)@.base, old(self)@.anchors, final(self)@.pos),
            r is None ==> links_from(old(self)@.base, old(self)@.anchors, old(self)@.pos)
                == Seq::<(Seq<char>, Seq<char>)>::empty()
                && final(self)@.pos >= final(self)@.anchors.len(),
    {
        let ghost base = self.scraper@.base;
        let ghost anchors = self.scraper@.anchors;
        let ghost pos0 = self@.pos;
        loop
            invariant
                base == old(self)@.base,
                anchors == old(self)@.anchors,
                pos0 == old(self)@.pos,
                self.scraper@.base == base,
                self.scraper@.anchors == anchors,
                pos0 <= self@.pos,
                links_from(base, anchors, pos0) == links_from(base, anchors, self@.pos),
            decreases anchors.len() - self@.pos,
        {
            if self.pos >= self.scraper.anchors.len() {
                return None;
            }
            let anchor = &self.scraper.anchors[self.pos];
            let ghost here = self.pos as int;
            proof {
                assert(anchors[here] == anchor@);
            }
            self.pos = self.pos + 1;
            match &anchor.href {
                None => {},
                Some(href) => {
                    let h = href.as_str();
                    let is_query = h.unicode_len() > 0 && h.get_char(0) == '?';
                    if !is_query {
                        match resolve_href(self.scraper.base.as_str(), h) {
                            Some(resolved) => {
                                let text = anchor.inner_html.clone();
                                return Some((text, resolved));
                            },
                            None => {},
                        }
                    }
                },
            }
        }
    }
}

/// Iteration is repeatable: which links come out is a function of the
/// scraper's base URL and its document's anchors alone, so any two fresh
/// iterations over scrapers with the same contents walk one and the same
/// sequence, in the same order.
pub proof fn lemma_iteration_deterministic(s1: &UrlScraper, s2: &UrlScraper)
    requires
        s1@ == s2@,
    ensures
        links_of(s1@.base, s1@.anchors) == links_of(s2@.base, s2@.anchors),
{
}

} // verus!
