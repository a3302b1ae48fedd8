//! The wiring of a configured media pipeline: the configured elements are linked
//! in order, each to the next and the last to the sink that hands the packets
//! on, through the capability filter configured on the earlier element when it
//! has one.

use vstd::prelude::*;

verus! {

/// A link from one pipeline element to the next.
#[derive(Clone, Copy, Debug, PartialEq, Eq, Structural)]
pub struct Link {
    pub from: usize,
    pub to: usize,
    /// Whether the link goes through the capability filter of element `from`.
    pub filtered: bool,
}

/// The links of a pipeline of `has_caps.len()` configured elements, where the
/// `i`-th element has a capability filter exactly when `has_caps[i]`, followed by
/// the sink at index `has_caps.len()`: each configured element is linked to the
/// next one, the last to the sink.
pub open spec fn spec_chain_links(has_caps: Seq<bool>) -> Seq<Link> {
    Seq::new(has_caps.len(), |i: int| Link { from: i as usize, to: (i + 1) as usize, filtered: has_caps[i] })
}

/// Law of the wiring: there is one link per configured element; the `i`-th leaves
/// element `i` for the element after it (the sink after the last), and goes
/// through a capability filter exactly when element `i` itself has one.
pub proof fn lemma_each_element_feeds_the_next(has_caps: Seq<bool>)
    requires
        has_caps.len() < usize::MAX,
    ensures
        spec_chain_links(has_caps).len() == has_caps.len(),
        forall|i: int|
            0 <= i < has_caps.len() ==> {
                &&& #[trigger] spec_chain_links(has_caps)[i].from == i
                &&& spec_chain_links(has_caps)[i].to == i + 1
                &&& spec_chain_links(has_caps)[i].filtered == has_caps[i]
            },
{
}

/// The links that wire the configured elements of a pipeline, in order, and the
/// last of them to the sink that follows them.
pub fn chain_links(has_caps: &Vec<bool>) -> (links: Vec<Link>)
    requires
        has_caps@.len() < usize::MAX,
    ensures
        links@ == spec_chain_links(has_caps@),
        links@.len() == has_caps@.len(),
        forall|i: int|
            0 <= i < has_caps@.len() ==> {
                &&& #[trigger] links@[i].from == i
                &&& links@[i].to == i + 1
                &&& links@[i].filtered == has_caps@[i]
            },
{
    let mut links: Vec<Link> = Vec::new();
    let n = has_caps.len();
    let mut idx: usize = 0;
    while idx < n
        invariant
            n == has_caps@.len(),
            n < usize::MAX,
            idx <= n,
            links@.len() == idx,
            forall|i: int|
                0 <= i < idx ==> #[trigger] links@[i] == (Link {
                    from: i as usize,
                    to: (i + 1) as usize,
                    filtered: has_caps@[i],
                }),
        decreases n - idx,
    {
        links.push(Link { from: idx, to: idx + 1, filtered: has_caps[idx] });
        idx = idx + 1;
    }
    assert(links@ =~= spec_chain_links(has_caps@));
    links
}

} // verus!
