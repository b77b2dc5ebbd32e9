//! The mathematical model of link extraction: which links a document's
//! anchors emit, in document order, and the laws that hold of the emission.

use crate::html::AnchorModel;
use crate::urls::url_join;
use vstd::prelude::*;

verus! {

/// Whether an `href` value falls under the query filter: it begins with `?`.
pub open spec fn starts_with_query(href: Seq<char>) -> bool {
    href.len() > 0 && href[0] == '?'
}

/// Whether an anchor passes the attribute filters: it has an `href` whose
/// value does not begin with `?`.
pub open spec fn has_usable_href(anchor: AnchorModel) -> bool {
    match anchor.href {
        Some(href) => !starts_with_query(href),
        None => false,
    }
}

/// What one anchor contributes to the emitted sequence: nothing when it has
/// no `href`, when its `href` begins with `?`, or when its `href` cannot be
/// resolved against `base`; otherwise the pair of its inner HTML and the
/// resolved absolute URL.
pub open spec fn link_of(base: Seq<char>, anchor: AnchorModel) -> Option<(Seq<char>, Seq<char>)> {
    match anchor.href {
        None => None,
        Some(href) => if starts_with_query(href) {
            None
        } else {
            match url_join(base, href) {
                None => None,
                Some(resolved) => Some((anchor.inner_html, resolved)),
            }
        },
    }
}

/// The links that the anchors from position `i` on emit, in document order.
pub open spec fn links_from(
    base: Seq<char>,
    anchors: Seq<AnchorModel>,
    i: int,
) -> Seq<(Seq<char>, Seq<char>)>
    decreases anchors.len() - i,
{
    if i < 0 || i >= anchors.len() {
        Seq::empty()
    } else {
        match link_of(base, anchors[i]) {
            None => links_from(base, anchors, i + 1),
            Some(link) => seq![link] + links_from(base, anchors, i + 1),
        }
    }
}

/// Every link that a document with the given anchors emits on the given
/// base, in document order.
pub open spec fn links_of(
    base: Seq<char>,
    anchors: Seq<AnchorModel>,
) -> Seq<(Seq<char>, Seq<char>)> {
    links_from(base, anchors, 0)
}

/// The number of anchors from position `i` on that pass the attribute
/// filters.
pub open spec fn usable_anchor_count_from(anchors: Seq<AnchorModel>, i: int) -> int
    decreases anchors.len() - i,
{
    if i < 0 || i >= anchors.len() {
        0
    } else {
        (if has_usable_href(anchors[i]) {
            1int
        } else {
            0int
        }) + usable_anchor_count_from(anchors, i + 1)
    }
}

/// The number of anchors that have an `href` attribute whose value does not
/// begin with `?`.
pub open spec fn usable_anchor_count(anchors: Seq<AnchorModel>) -> int {
    usable_anchor_count_from(anchors, 0)
}

proof fn lemma_links_from_le_usable(base: Seq<char>, anchors: Seq<AnchorModel>, i: int)
    ensures
        links_from(base, anchors, i).len() <= usable_anchor_count_from(anchors, i),
    decreases anchors.len() - i,
{
    if 0 <= i < anchors.len() {
        lemma_links_from_le_usable(base, anchors, i + 1);
    }
}

/// Each anchor emits at most one link, and only if it passes the attribute
/// filters: for every document, the number of emitted links is at most the
/// number of anchor elements with an `href` attribute whose value does not
/// begin with `?`.
pub proof fn lemma_emitted_at_most_usable_anchors(base: Seq<char>, anchors: Seq<AnchorModel>)
    ensures
        links_of(base, anchors).len() <= usable_anchor_count(anchors),
{
    lemma_links_from_le_usable(base, anchors, 0);
}

/// An anchor whose `href` begins with `?` emits nothing, on any base.
pub proof fn lemma_query_href_emits_nothing(base: Seq<char>, anchor: AnchorModel)
    requires
        anchor.href is Some,
        starts_with_query(anchor.href->Some_0),
    ensures
        link_of(base, anchor) is None,
{
}

/// An anchor with no `href` attribute emits nothing, whatever its inner
/// HTML and on any base.
pub proof fn lemma_missing_href_emits_nothing(base: Seq<char>, anchor: AnchorModel)
    requires
        anchor.href is None,
    ensures
        link_of(base, anchor) is None,
{
}

} // verus!
