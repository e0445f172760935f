//! Paginated fetching of a listing category.
//!
//! A fetch walks pages in order and stops at the first empty page, or
//! after the first page whose container does not carry the literal
//! `"true"` in its `HasMoreItems` field — whichever comes first. Items
//! are accumulated in server order. The caller performs the network
//! round trips and hands each decoded page in; the decisions are here.

use vstd::prelude::*;

use crate::node::Node;

verus! {

/// The list container for `list_type` inside one page response, or
/// `Null` when the response has none.
pub open spec fn spec_container(resp: Node, list_type: Seq<char>) -> Node {
    match resp.spec_get(list_type) {
        Some(c) => c,
        None => Node::Null,
    }
}

/// The items of one list container: the `Item` collection under
/// `ItemArray`. A collapsed single item — a bare object or scalar in
/// place of a list — counts as a one-element collection; a missing path
/// gives the empty collection.
pub open spec fn spec_items(container: Node) -> Seq<Node> {
    match container.spec_get("ItemArray"@) {
        Some(ia) => match ia.spec_get("Item"@) {
            Some(Node::Arr(a)) => a@,
            Some(single) => seq![single],
            None => Seq::empty(),
        },
        None => Seq::empty(),
    }
}

/// Whether the container's `HasMoreItems` field is exactly the literal
/// `"true"`; absent or different values count as no more pages.
pub open spec fn spec_has_more(container: Node) -> bool {
    match container.spec_get("HasMoreItems"@) {
        Some(Node::Scalar(s)) => s@ == "true"@,
        _ => false,
    }
}

/// Extracts the items of one list container, consuming it.
pub fn extract_items(container: Node) -> (r: Vec<Node>)
    ensures
        r@ == spec_items(container),
{
    match container.take("ItemArray") {
        Some(ia) => match ia.take("Item") {
            Some(items) => match items {
                Node::Arr(a) => a,
                single => {
                    let mut v: Vec<Node> = Vec::new();
                    v.push(single);
                    proof {
                        assert(v@ =~= spec_items(container));
                    }
                    v
                },
            },
            None => Vec::new(),
        },
        None => Vec::new(),
    }
}

/// The items of a REST listings response: the `listings` array, or the
/// empty collection when it is absent or not an array.
pub open spec fn spec_listings(tree: Node) -> Seq<Node> {
    match tree.spec_get("listings"@) {
        Some(Node::Arr(a)) => a@,
        _ => Seq::empty(),
    }
}

/// Extracts the `listings` array of a REST response, consuming it.
pub fn extract_listings(tree: Node) -> (r: Vec<Node>)
    ensures
        r@ == spec_listings(tree),
{
    match tree.take("listings") {
        Some(n) => match n {
            Node::Arr(a) => a,
            _ => Vec::new(),
        },
        None => Vec::new(),
    }
}

/// Whether the container announces more pages.
pub fn has_more(container: &Node) -> (r: bool)
    ensures
        r == spec_has_more(*container),
{
    match container.get("HasMoreItems") {
        Some(flag) => match flag {
            Node::Scalar(s) => crate::node::str_eq(s.as_str(), "true"),
            _ => false,
        },
        None => false,
    }
}

/// What one page contributes: its items, and whether the fetch goes on
/// to the next page.
pub struct PageOutcome {
    pub items: Vec<Node>,
    pub proceed: bool,
}

/// The decision for one decoded page response: the items to append, and
/// whether to request another page. The fetch proceeds only when the
/// page held at least one item and its container announced more.
pub fn page_step(response: Node, list_type: &str) -> (r: PageOutcome)
    ensures
        r.items@ == spec_items(spec_container(response, list_type@)),
        r.proceed == (r.items@.len() > 0 && spec_has_more(spec_container(response, list_type@))),
{
    let container = match response.take(list_type) {
        Some(c) => c,
        None => Node::Null,
    };
    let more = has_more(&container);
    let items = extract_items(container);
    let proceed = items.len() > 0 && more;
    PageOutcome { items, proceed }
}

/// The whole-fetch outcome over a given sequence of page responses:
/// the accumulated items and the number of pages consumed. The fetch
/// stops inside the sequence at the first empty page or the first page
/// without the more-items flag; if the sequence runs out first, it has
/// consumed every page.
pub open spec fn spec_fetch_from(pages: Seq<Node>, list_type: Seq<char>, lo: int) -> (Seq<
    Node,
>, nat)
    decreases pages.len() - lo,
{
    if lo < 0 || lo >= pages.len() {
        (Seq::empty(), 0nat)
    } else {
        let c = spec_container(pages[lo], list_type);
        let items = spec_items(c);
        if items.len() == 0 {
            (Seq::empty(), 1nat)
        } else if !spec_has_more(c) {
            (items, 1nat)
        } else {
            let rest = spec_fetch_from(pages, list_type, lo + 1);
            (items + rest.0, 1 + rest.1)
        }
    }
}

proof fn lemma_fetch_calls_bound(pages: Seq<Node>, list_type: Seq<char>, lo: int)
    requires
        0 <= lo <= pages.len(),
    ensures
        spec_fetch_from(pages, list_type, lo).1 <= pages.len() - lo,
    decreases pages.len() - lo,
{
    if lo < pages.len() {
        lemma_fetch_calls_bound(pages, list_type, lo + 1);
    }
}

/// Runs a whole fetch over an in-hand sequence of page responses, in
/// order: exactly what a live fetch returns when the server serves these
/// pages. The call count never exceeds the number of pages given.
#[verifier::loop_isolation(false)]
pub fn fetch_from_pages(pages: Vec<Node>, list_type: &str) -> (r: (Vec<Node>, usize))
    ensures
        r.0@ == spec_fetch_from(pages@, list_type@, 0).0,
        r.1 == spec_fetch_from(pages@, list_type@, 0).1,
        r.1 <= pages@.len(),
{
    let ghost orig = pages@;
    let ghost lt = list_type@;
    let mut pages = pages;
    let total = pages.len();
    proof {
        assert(orig.len() == total);
    }
    let mut all_items: Vec<Node> = Vec::new();
    let mut calls: usize = 0;
    proof {
        lemma_fetch_calls_bound(orig, lt, 0);
    }
    let mut done = false;
    while !done
        invariant
            0 <= calls <= orig.len(),
            !done ==> pages@ == orig.subrange(calls as int, orig.len() as int),
            !done ==> spec_fetch_from(orig, lt, 0).0 == all_items@ + spec_fetch_from(
                orig,
                lt,
                calls as int,
            ).0,
            !done ==> spec_fetch_from(orig, lt, 0).1 == calls + spec_fetch_from(
                orig,
                lt,
                calls as int,
            ).1,
            done ==> all_items@ == spec_fetch_from(orig, lt, 0).0,
            done ==> calls == spec_fetch_from(orig, lt, 0).1,
        decreases pages@.len(), (if done {
            0int
        } else {
            1int
        }),
    {
        if pages.len() == 0 {
            proof {
                assert(calls == orig.len());
                assert(all_items@ + spec_fetch_from(orig, lt, calls as int).0 =~= all_items@);
            }
            done = true;
        } else {
            let resp = pages.remove(0);
            let ghost prev = calls as int;
            proof {
                assert(resp == orig[prev]);
                assert(pages@ =~= orig.subrange(prev + 1, orig.len() as int));
            }
            proof {
                assert(calls < total);
            }
            calls = calls + 1;
            let step = page_step(resp, list_type);
            let ghost c = spec_container(orig[prev], lt);
            if step.items.len() == 0 {
                proof {
                    assert(spec_fetch_from(orig, lt, prev).0 =~= Seq::<Node>::empty());
                    assert(all_items@ + spec_fetch_from(orig, lt, prev).0 =~= all_items@);
                }
                done = true;
            } else {
                let mut items = step.items;
                let proceed = step.proceed;
                let ghost before = all_items@;
                all_items.append(&mut items);
                if !proceed {
                    proof {
                        assert(spec_fetch_from(orig, lt, prev).0 == spec_items(c));
                        assert(all_items@ =~= before + spec_items(c));
                    }
                    done = true;
                } else {
                    proof {
                        assert(spec_fetch_from(orig, lt, prev).0 == spec_items(c)
                            + spec_fetch_from(orig, lt, prev + 1).0);
                        assert(before + (spec_items(c) + spec_fetch_from(orig, lt, prev + 1).0)
                            =~= all_items@ + spec_fetch_from(orig, lt, prev + 1).0);
                    }
                }
            }
        }
    }
    (all_items, calls)
}

} // verus!
