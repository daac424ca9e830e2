//! Subscription outlines: flattening an outline tree into the feed
//! references it holds, and what each feed reference asks to ingest.

use crate::models::{copy_text, Source};
use vstd::prelude::*;

verus! {

/// The source type of websites.
pub const WEBSITE_SOURCE_TYPE: i32 = 5;

/// A node of a subscription outline tree: a feed reference or a grouping
/// folder, with its children in document order.
#[derive(Debug)]
pub struct Outline {
    pub text: String,
    pub outline_type: Option<String>,
    pub html_url: Option<String>,
    pub xml_url: Option<String>,
    pub children: Vec<Outline>,
}

/// A feed reference taken out of an outline tree.
#[derive(Debug)]
pub struct FeedOutline {
    pub text: String,
    pub html_url: Option<String>,
    pub xml_url: Option<String>,
}

/// The outline declares itself a feed reference (type "rss").
pub open spec fn is_feed_outline(o: Outline) -> bool {
    o.outline_type matches Some(t) && t@ == seq!['r', 's', 's']
}

pub open spec fn feed_outline_of(o: Outline) -> FeedOutline {
    FeedOutline { text: o.text, html_url: o.html_url, xml_url: o.xml_url }
}

/// The feed references in the tree rooted at `o`, depth first, in document
/// order.
pub open spec fn feed_outlines(o: Outline) -> Seq<FeedOutline>
    decreases o, 1nat,
{
    (if is_feed_outline(o) {
        seq![feed_outline_of(o)]
    } else {
        Seq::empty()
    }) + feed_outlines_from(o, 0)
}

/// The feed references under the children of `o` from the `i`-th on.
pub open spec fn feed_outlines_from(o: Outline, i: int) -> Seq<FeedOutline>
    decreases o, 0nat, o.children@.len() - i,
{
    if 0 <= i < o.children@.len() {
        feed_outlines(o.children@[i]) + feed_outlines_from(o, i + 1)
    } else {
        Seq::empty()
    }
}

fn is_feed(o: &Outline) -> (r: bool)
    ensures
        r == is_feed_outline(*o),
{
    match &o.outline_type {
        Some(t) => {
            let n = t.as_str().unicode_len();
            let r = n == 3 && t.as_str().get_char(0) == 'r' && t.as_str().get_char(1) == 's'
                && t.as_str().get_char(2) == 's';
            if r {
                assert(t@ =~= seq!['r', 's', 's']);
            }
            r
        },
        None => false,
    }
}

/// Appends to `outlines` the feed references of the tree rooted at
/// `outline`, depth first, in document order; grouping nodes are descended
/// into but not taken.
pub fn collect_outlines(outline: &Outline, outlines: &mut Vec<FeedOutline>)
    ensures
        final(outlines)@ == old(outlines)@ + feed_outlines(*outline),
    decreases outline,
{
    if is_feed(outline) {
        outlines.push(
            FeedOutline {
                text: outline.text.clone(),
                html_url: copy_text(&outline.html_url),
                xml_url: copy_text(&outline.xml_url),
            },
        );
    }
    proof {
        assert(outlines@ + feed_outlines_from(*outline, 0) =~= old(outlines)@ + feed_outlines(*outline));
    }
    let mut i: usize = 0;
    while i < outline.children.len()
        invariant
            i <= outline.children@.len(),
            outlines@ + feed_outlines_from(*outline, i as int) == old(outlines)@ + feed_outlines(*outline),
        decreases outline.children@.len() - i,
    {
        let ghost before = outlines@;
        proof {
            assert(decreases_to!(*outline => outline.children@[i as int]));
        }
        collect_outlines(&outline.children[i], outlines);
        assert(outlines@ + feed_outlines_from(*outline, i + 1) =~= before + feed_outlines_from(*outline, i as int));
        i = i + 1;
    }
    assert(outlines@ + feed_outlines_from(*outline, i as int) =~= outlines@);
}

/// The feed references of an outline forest, tree by tree.
pub open spec fn forest_feed_outlines(trees: Seq<Outline>) -> Seq<FeedOutline>
    decreases trees.len(),
{
    if trees.len() == 0 {
        Seq::empty()
    } else {
        forest_feed_outlines(trees.drop_last()) + feed_outlines(trees.last())
    }
}

/// The feed references of the top-level outlines of a subscription list,
/// depth first, in document order.
pub fn collect_all_outlines(trees: &Vec<Outline>) -> (r: Vec<FeedOutline>)
    ensures
        r@ == forest_feed_outlines(trees@),
{
    let mut r: Vec<FeedOutline> = Vec::new();
    let mut i: usize = 0;
    while i < trees.len()
        invariant
            i <= trees@.len(),
            r@ == forest_feed_outlines(trees@.take(i as int)),
        decreases trees@.len() - i,
    {
        collect_outlines(&trees[i], &mut r);
        assert(trees@.take(i + 1).drop_last() =~= trees@.take(i as int));
        i = i + 1;
    }
    assert(trees@.take(i as int) =~= trees@);
    r
}

/// What a feed reference asks to ingest: a website source where it names a
/// page, and with it the feed url where it names one as well.
pub open spec fn is_outline_plan(o: FeedOutline, r: Option<(Source, Option<String>)>) -> bool {
    match o.html_url {
        None => r is None,
        Some(page) => r matches Some(p) && p.0 == Source::with_identity_spec(
            p.0.id,
            p.0.create_timestamp,
            o.text,
            page,
            WEBSITE_SOURCE_TYPE,
        ) && p.1 == o.xml_url,
    }
}

/// The source candidate, with a fresh identifier, and the feed url that a
/// feed reference asks to ingest; nothing for a reference without a page url.
pub fn plan_outline(o: &FeedOutline) -> (r: Option<(Source, Option<String>)>)
    ensures
        is_outline_plan(*o, r),
{
    match &o.html_url {
        Some(page) => {
            let source = Source::new(o.text.clone(), page.clone(), WEBSITE_SOURCE_TYPE);
            Some((source, copy_text(&o.xml_url)))
        },
        None => None,
    }
}

} // verus!
