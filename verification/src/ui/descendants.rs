//! Finding a widget's first descendant with some property: a depth-first,
//! pre-order search of the entity tree below it.
use vstd::prelude::*;

verus! {

/// An entity tree: entity `e`'s children, in order, are `children[e]`.
pub struct EntityTree {
    pub children: Vec<Vec<usize>>,
}

impl EntityTree {
    /// Every child index names an entity of the tree.
    pub open spec fn wf(&self) -> bool {
        forall|e: int, k: int|
            0 <= e < self.children@.len() && 0 <= k < self.children@[e]@.len()
                ==> #[trigger] self.children@[e]@[k] < self.children@.len()
    }
}

/// The first entity, in depth-first pre-order over `nodes` and their
/// descendants (searched at most `depth` levels down), that `matches` marks.
pub open spec fn first_match_in(
    children: Seq<Vec<usize>>,
    matches: Seq<bool>,
    nodes: Seq<usize>,
    depth: nat,
) -> Option<usize>
    decreases depth, nodes.len(),
{
    if nodes.len() == 0 {
        None
    } else {
        let node = nodes[0];
        if matches[node as int] {
            Some(node)
        } else {
            let below = if depth == 0 {
                None
            } else {
                first_match_in(children, matches, children[node as int]@, (depth - 1) as nat)
            };
            if below is Some {
                below
            } else {
                first_match_in(children, matches, nodes.drop_first(), depth)
            }
        }
    }
}

/// The first entity among `nodes` and their descendants, in depth-first
/// pre-order, that `matches` marks; the search goes at most `depth` levels
/// below `nodes`, which for an acyclic tree of `n` entities is exhaustive at
/// `depth == n`.
pub fn first_matching_descendant(
    tree: &EntityTree,
    matches: &Vec<bool>,
    nodes: &Vec<usize>,
    depth: usize,
) -> (r: Option<usize>)
    requires
        tree.wf(),
        matches@.len() == tree.children@.len(),
        forall|k: int| 0 <= k < nodes@.len() ==> #[trigger] nodes@[k] < tree.children@.len(),
    ensures
        r == first_match_in(tree.children@, matches@, nodes@, depth as nat),
    decreases depth,
{
    let mut i: usize = 0;
    assert(nodes@.skip(0) =~= nodes@);
    while i < nodes.len()
        invariant
            i <= nodes@.len(),
            tree.wf(),
            matches@.len() == tree.children@.len(),
            forall|k: int| 0 <= k < nodes@.len() ==> #[trigger] nodes@[k] < tree.children@.len(),
            first_match_in(tree.children@, matches@, nodes@, depth as nat) == first_match_in(
                tree.children@,
                matches@,
                nodes@.skip(i as int),
                depth as nat,
            ),
        decreases nodes.len() - i,
    {
        let node = nodes[i];
        let ghost rest = nodes@.skip(i as int);
        assert(rest[0] == node);
        assert(rest.drop_first() =~= nodes@.skip(i + 1));
        if matches[node] {
            return Some(node);
        }
        if depth > 0 {
            let below = first_matching_descendant(tree, matches, &tree.children[node], depth - 1);
            if below.is_some() {
                return below;
            }
        }
        i = i + 1;
    }
    None
}

} // verus!
