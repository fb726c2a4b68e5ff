//! Shape of the bounding volume hierarchy.
//!
//! The hierarchy is a binary tree over a list of surfaces: a set of one
//! surface becomes a leaf, and a larger set is split at the median into
//! two halves, each built the same way, under an internal node. Sorting
//! the surfaces along the split axis and boxing each node are
//! floating-point work left to the caller; which positions of the sorted
//! list end up under which node — the shape of the tree — is decided and
//! proved here. The shape is an arena of nodes in which children always
//! stand before their parent and the root is the last node; the main
//! theorem is that every position of the list lands in exactly one leaf,
//! so a walk of the tree misses no surface and repeats none.

use vstd::arithmetic::power2::pow2;
use vstd::multiset::Multiset;
use vstd::prelude::*;

verus! {

/// One node of the tree: a leaf holds the position of one surface in the
/// sorted list; an internal node holds the arena indices of its children.
#[derive(Clone, Copy, PartialEq, Eq, Structural, Debug)]
pub enum ShapeNode {
    Leaf { item: usize },
    Internal { left: usize, right: usize },
}

/// Children stand strictly before their parent in the arena.
pub open spec fn node_wf_at(nodes: Seq<ShapeNode>, p: int) -> bool {
    nodes[p] matches ShapeNode::Internal { left, right } ==> left < p && right < p
}

/// Every internal node's children stand before it.
pub open spec fn nodes_wf(nodes: Seq<ShapeNode>) -> bool {
    forall|p: int| 0 <= p < nodes.len() ==> #[trigger] node_wf_at(nodes, p)
}

/// The surface positions covered by the subtree rooted at arena index
/// `p`: a leaf covers its one position, an internal node covers whatever
/// its two children cover, counted with multiplicity.
pub open spec fn subtree_items(nodes: Seq<ShapeNode>, p: int) -> Multiset<usize>
    decreases p,
{
    if 0 <= p < nodes.len() {
        match nodes[p] {
            ShapeNode::Leaf { item } => Multiset::empty().insert(item),
            ShapeNode::Internal { left, right } => {
                if left < p && right < p {
                    subtree_items(nodes, left as int).add(subtree_items(nodes, right as int))
                } else {
                    Multiset::empty()
                }
            },
        }
    } else {
        Multiset::empty()
    }
}

/// Depth of the subtree rooted at arena index `p`, counting nodes: a
/// leaf is 1 deep, an internal node one more than its deeper child.
pub open spec fn subtree_depth(nodes: Seq<ShapeNode>, p: int) -> int
    decreases p,
{
    if 0 <= p < nodes.len() {
        match nodes[p] {
            ShapeNode::Leaf { item } => 1,
            ShapeNode::Internal { left, right } => {
                if left < p && right < p {
                    1 + vstd::math::max(
                        subtree_depth(nodes, left as int),
                        subtree_depth(nodes, right as int),
                    )
                } else {
                    1
                }
            },
        }
    } else {
        0
    }
}

/// Depth the median split reaches over `n` surfaces: one surface is one
/// leaf; more are parted into a floor half and a ceiling half, and the
/// ceiling half, being no smaller, decides the depth.
pub open spec fn split_depth(n: int) -> int
    decreases n,
{
    if n <= 1 {
        1
    } else {
        1 + split_depth(n - n / 2)
    }
}

/// A build over fewer surfaces goes no deeper.
proof fn lemma_split_depth_monotone(a: int, b: int)
    requires
        a <= b,
    ensures
        split_depth(a) <= split_depth(b),
    decreases b,
{
    if b <= 1 || a <= 1 {
        if b > 1 {
            lemma_split_depth_monotone(1, b - b / 2);
        }
    } else {
        lemma_split_depth_monotone(a - a / 2, b - b / 2);
    }
}

/// The median split halves the set at every level, so the depth is
/// logarithmic: over at most `2^k` surfaces the tree is at most `k + 1`
/// nodes deep.
pub proof fn lemma_split_depth_log(n: int, k: nat)
    requires
        1 <= n,
        n <= pow2(k),
    ensures
        split_depth(n) <= k + 1,
    decreases k,
{
    if n > 1 {
        assert(k > 0) by {
            vstd::arithmetic::power2::lemma2_to64();
        }
        assert(pow2(k) == 2 * pow2((k - 1) as nat)) by {
            vstd::arithmetic::power2::lemma_pow2_unfold(k);
        }
        lemma_split_depth_log(n - n / 2, (k - 1) as nat);
    }
}

/// The arena a build over the positions `lo..hi` appends, given that
/// `off` nodes stand in the arena already: one position becomes a leaf;
/// more are split at the median into two halves built the same way,
/// followed by an internal node over the two half-builds' roots.
pub open spec fn shape_seq(lo: int, hi: int, off: int) -> Seq<ShapeNode>
    decreases hi - lo,
{
    if hi - lo == 1 {
        seq![ShapeNode::Leaf { item: lo as usize }]
    } else if hi - lo >= 2 {
        let mid = lo + (hi - lo) / 2;
        let l = shape_seq(lo, mid, off);
        let r = shape_seq(mid, hi, off + l.len());
        l + r + seq![
            ShapeNode::Internal {
                left: (off + l.len() - 1) as usize,
                right: (off + l.len() + r.len() - 1) as usize,
            },
        ]
    } else {
        Seq::empty()
    }
}

/// The positions `lo..hi`, one of each.
pub open spec fn range_items(lo: int, hi: int) -> Multiset<usize>
    decreases hi - lo,
{
    if lo < hi {
        range_items(lo, hi - 1).insert((hi - 1) as usize)
    } else {
        Multiset::empty()
    }
}

/// `range_items(lo, hi)` holds each position of `lo..hi` exactly once and
/// nothing else.
pub proof fn lemma_range_items_count(lo: int, hi: int, x: usize)
    requires
        0 <= lo,
        hi <= usize::MAX as int + 1,
    ensures
        range_items(lo, hi).count(x) == if lo <= x < hi {
            1nat
        } else {
            0nat
        },
    decreases hi - lo,
{
    broadcast use vstd::multiset::group_multiset_axioms;

    if lo < hi {
        lemma_range_items_count(lo, hi - 1, x);
    }
}

/// What a subtree covers and how deep it is are settled by the nodes up
/// to its root: nodes appended later change neither.
proof fn lemma_subtree_prefix(n1: Seq<ShapeNode>, n2: Seq<ShapeNode>, p: int)
    requires
        n1.len() <= n2.len(),
        forall|k: int| 0 <= k < n1.len() ==> n1[k] == n2[k],
        p < n1.len(),
    ensures
        subtree_items(n1, p) == subtree_items(n2, p),
        subtree_depth(n1, p) == subtree_depth(n2, p),
    decreases p,
{
    if 0 <= p {
        match n1[p] {
            ShapeNode::Internal { left, right } => {
                if left < p && right < p {
                    lemma_subtree_prefix(n1, n2, left as int);
                    lemma_subtree_prefix(n1, n2, right as int);
                }
            },
            ShapeNode::Leaf { item } => {},
        }
    }
}

/// Two adjacent position ranges joined together give the whole range.
proof fn lemma_range_items_concat(lo: int, mid: int, hi: int)
    requires
        lo <= mid <= hi,
    ensures
        range_items(lo, mid).add(range_items(mid, hi)) == range_items(lo, hi),
    decreases hi - mid,
{
    broadcast use vstd::multiset::group_multiset_axioms;

    if mid < hi {
        lemma_range_items_concat(lo, mid, hi - 1);
        assert(range_items(lo, mid).add(range_items(mid, hi)) =~= range_items(lo, mid).add(
            range_items(mid, hi - 1),
        ).insert((hi - 1) as usize));
    } else {
        assert(range_items(lo, mid).add(range_items(mid, hi)) =~= range_items(lo, mid));
    }
}

/// Builds the subtree over the positions `lo..hi`, appending its nodes to
/// the arena and returning the arena index of its root: one position
/// becomes a leaf, more are split at the median into two halves built the
/// same way under an internal node.
fn build_range(lo: usize, hi: usize, nodes: &mut Vec<ShapeNode>) -> (root: usize)
    requires
        lo < hi,
        nodes_wf(old(nodes)@),
    ensures
        nodes_wf(final(nodes)@),
        old(nodes)@.len() < final(nodes)@.len(),
        forall|k: int| 0 <= k < old(nodes)@.len() ==> final(nodes)@[k] == old(nodes)@[k],
        root as int == final(nodes)@.len() - 1,
        final(nodes)@ == old(nodes)@ + shape_seq(lo as int, hi as int, old(nodes)@.len() as int),
        subtree_items(final(nodes)@, root as int) == range_items(lo as int, hi as int),
        subtree_depth(final(nodes)@, root as int) == split_depth(hi - lo),
    decreases hi - lo,
{
    if hi - lo == 1 {
        let root = nodes.len();
        nodes.push(ShapeNode::Leaf { item: lo });
        proof {
            assert forall|p: int| 0 <= p < nodes@.len() implies #[trigger] node_wf_at(
                nodes@,
                p,
            ) by {
                if p < root {
                    assert(node_wf_at(old(nodes)@, p));
                }
            }
            assert(range_items(lo as int, lo as int) =~= Multiset::<usize>::empty());
            assert(subtree_items(nodes@, root as int) == Multiset::<usize>::empty().insert(lo));
            assert(nodes@ =~= old(nodes)@ + shape_seq(lo as int, hi as int, old(nodes)@.len() as int));
        }
        root
    } else {
        let mid = lo + (hi - lo) / 2;
        let left = build_range(lo, mid, nodes);
        let ghost after_left = nodes@;
        let right = build_range(mid, hi, nodes);
        let ghost after_right = nodes@;
        let root = nodes.len();
        nodes.push(ShapeNode::Internal { left, right });
        proof {
            assert forall|p: int| 0 <= p < nodes@.len() implies #[trigger] node_wf_at(
                nodes@,
                p,
            ) by {
                if p < root {
                    assert(node_wf_at(after_right, p));
                }
            }
            lemma_subtree_prefix(after_left, nodes@, left as int);
            lemma_subtree_prefix(after_right, nodes@, right as int);
            assert(subtree_items(nodes@, root as int) == range_items(lo as int, mid as int).add(
                range_items(mid as int, hi as int),
            ));
            lemma_range_items_concat(lo as int, mid as int, hi as int);
            assert(nodes@ =~= old(nodes)@ + shape_seq(lo as int, hi as int, old(nodes)@.len() as int));
            // The ceiling half is no smaller, so it decides the depth.
            lemma_split_depth_monotone((mid - lo) as int, (hi - mid) as int);
        }
        root
    }
}

/// The shape of a bounding volume hierarchy over a list of surfaces: an
/// arena of nodes whose root is the last node.
pub struct BvhShape {
    pub nodes: Vec<ShapeNode>,
}

impl BvhShape {
    /// True iff the arena is non-empty and children stand before their
    /// parent, so that a walk from the root always moves down.
    pub open spec fn wf(self) -> bool {
        &&& nodes_wf(self.nodes@)
        &&& self.nodes@.len() >= 1
    }

    /// Arena index of the root.
    pub open spec fn spec_root(self) -> int {
        self.nodes@.len() - 1
    }

    /// The surface positions the whole tree covers, with multiplicity.
    pub open spec fn items(self) -> Multiset<usize> {
        subtree_items(self.nodes@, self.spec_root())
    }

    /// Depth of the whole tree, counting nodes along the longest path.
    pub open spec fn depth(self) -> int {
        subtree_depth(self.nodes@, self.spec_root())
    }

    /// Arena index of the root, where a traversal starts.
    pub fn root(&self) -> (r: usize)
        requires
            self.wf(),
        ensures
            r as int == self.spec_root(),
    {
        self.nodes.len() - 1
    }

    /// Builds the tree shape over `count` surfaces. Every position of the
    /// sorted surface list lands in exactly one leaf: a traversal that
    /// visits both children of every internal node meets each surface
    /// once, and pruning a subtree can only drop surfaces, never repeat
    /// one.
    pub fn build(count: usize) -> (shape: BvhShape)
        requires
            1 <= count,
        ensures
            shape.wf(),
            shape.nodes@ == shape_seq(0, count as int, 0),
            shape.items() == range_items(0, count as int),
            forall|x: usize| x < count ==> shape.items().count(x) == 1,
            forall|x: usize| x >= count ==> shape.items().count(x) == 0,
            shape.depth() == split_depth(count as int),
    {
        let mut nodes: Vec<ShapeNode> = Vec::new();
        let root = build_range(0, count, &mut nodes);
        let shape = BvhShape { nodes };
        proof {
            assert forall|x: usize| true implies #[trigger] shape.items().count(x) == (if x < count {
                1nat
            } else {
                0nat
            }) by {
                lemma_range_items_count(0, count as int, x);
            }
        }
        shape
    }
}

} // verus!
