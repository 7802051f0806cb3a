//! Parent and child links of a captured element tree, rebuilt from the
//! depths of its depth-first list.

use crate::flamegraph_ui_capture::{
    node_depths, same_capture, SceneSnapshot, UiElementNode, UiTreeCapture,
};
use vstd::prelude::*;

verus! {

/// Whether `parent` is the parent of `child` in a depth-first list: the
/// nearest element before it that is less deep.
pub open spec fn is_parent(depths: Seq<int>, parent: int, child: int) -> bool {
    &&& 0 <= parent < child < depths.len()
    &&& depths[parent] < depths[child]
    &&& forall|between: int|
        parent < between < child ==> #[trigger] depths[between] >= depths[child]
}

/// Whether an element has no parent: nothing before it is less deep.
pub open spec fn is_root(depths: Seq<int>, node: int) -> bool {
    &&& 0 <= node < depths.len()
    &&& forall|before: int| 0 <= before < node ==> #[trigger] depths[before] >= depths[node]
}

/// The indices below `end`, in order.
pub open spec fn indices_below(end: int) -> Seq<usize> {
    Seq::new(end as nat, |i: int| i as usize)
}

/// The children of `parent` among the first `end` elements, in order.
pub open spec fn children_below(depths: Seq<int>, parent: int, end: int) -> Seq<usize> {
    indices_below(end).filter(|node: usize| is_parent(depths, parent, node as int))
}

/// The roots among the first `end` elements, in order.
pub open spec fn roots_below(depths: Seq<int>, end: int) -> Seq<usize> {
    indices_below(end).filter(|node: usize| is_root(depths, node as int))
}

/// Whether `link` is the parent of `node`, or says that it has none.
pub open spec fn links_to_parent(depths: Seq<int>, node: int, link: Option<usize>) -> bool {
    match link {
        Some(parent) => is_parent(depths, parent as int, node),
        None => is_root(depths, node),
    }
}

/// Parent and child links of a captured element tree.
#[derive(Debug)]
pub struct UiTreeReplay {
    capture: UiTreeCapture,
    parents: Vec<Option<usize>>,
    children: Vec<Vec<usize>>,
    roots: Vec<usize>,
}

impl UiTreeReplay {
    /// The capture this replay was built from.
    pub closed spec fn source(&self) -> UiTreeCapture {
        self.capture
    }

    /// The depths of the captured elements.
    pub open spec fn depths(&self) -> Seq<int> {
        node_depths(self.source().nodes@)
    }

    #[verifier::type_invariant]
    spec fn inv(&self) -> bool {
        let depths = node_depths(self.capture.nodes@);
        let count = self.capture.nodes@.len();
        &&& self.parents@.len() == count
        &&& self.children@.len() == count
        &&& forall|i: int|
            0 <= i < count ==> links_to_parent(depths, i, #[trigger] self.parents@[i])
        &&& forall|i: int|
            0 <= i < count ==> (#[trigger] self.children@[i])@ == children_below(
                depths,
                i,
                count as int,
            )
        &&& self.roots@ == roots_below(depths, count as int)
    }

    /// Build the links of `capture`. One pass over the elements with a stack
    /// of the current element's ancestors.
    pub fn new(capture: UiTreeCapture) -> (replay: Self)
        ensures
            replay.source() == capture,
    {
        let node_count: usize = capture.nodes.len();
        let ghost depths = node_depths(capture.nodes@);
        let mut parents: Vec<Option<usize>> = Vec::new();
        let mut children: Vec<Vec<usize>> = Vec::new();
        let mut roots: Vec<usize> = Vec::new();
        let mut stack: Vec<usize> = Vec::new();
        let mut index: usize = 0;
        proof {
            reveal(is_stack_below);
            reveal(Seq::filter);
        }
        while index < node_count
            invariant
                depths == node_depths(capture.nodes@),
                node_count == capture.nodes@.len(),
                index <= node_count,
                parents@.len() == index,
                children@.len() == index,
                forall|i: int|
                    0 <= i < index ==> links_to_parent(depths, i, #[trigger] parents@[i]),
                forall|i: int|
                    0 <= i < index ==> (#[trigger] children@[i])@ == children_below(
                        depths,
                        i,
                        index as int,
                    ),
                roots@ == roots_below(depths, index as int),
                is_ancestor_stack(depths, stack@, index as int),
            decreases node_count - index,
        {
            let depth: u32 = capture.nodes[index].depth;
            assert(depths[index as int] == depth);
            proof {
                lemma_stack_bounds(depths, stack@, index as int);
            }
            while stack.len() > 0 && capture.nodes[stack[stack.len() - 1]].depth >= depth
                invariant
                    depths == node_depths(capture.nodes@),
                    node_count == capture.nodes@.len(),
                    index < node_count,
                    depths[index as int] == depth,
                    is_stack_below(depths, stack@, index as int),
                    forall|t: int| 0 <= t < stack@.len() ==> #[trigger] stack@[t] < index,
                    forall|between: int|
                        top_of(stack@) < between < index ==> #[trigger] depths[between] >= depth,
                decreases stack.len(),
            {
                proof {
                    lemma_stack_pop(depths, stack@, index as int);
                }
                stack.pop();
            }
            proof {
                lemma_links_extend(depths, index as int);
                lemma_stack_push(depths, stack@, index);
            }
            let ghost children_before = children@;
            children.push(Vec::new());
            if stack.len() > 0 {
                let parent_index: usize = stack[stack.len() - 1];
                assert(is_parent(depths, parent_index as int, index as int));
                parents.push(Some(parent_index));
                children[parent_index].push(index);
                assert forall|i: int| 0 <= i <= index implies (#[trigger] children@[i])@
                    == children_below(depths, i, index + 1) by {
                    assert(is_parent(depths, i, index as int) == (i == parent_index));
                    if i < index {
                        assert(children_before[i]@ == children_below(depths, i, index as int));
                    }
                }
            } else {
                assert(is_root(depths, index as int));
                parents.push(None);
                roots.push(index);
                assert forall|i: int| 0 <= i <= index implies (#[trigger] children@[i])@
                    == children_below(depths, i, index + 1) by {
                    assert(!is_parent(depths, i, index as int));
                    if i < index {
                        assert(children_before[i]@ == children_below(depths, i, index as int));
                    }
                }
            }
            stack.push(index);
            index = index + 1;
        }
        UiTreeReplay { capture, parents, children, roots }
    }

    /// The underlying capture this replay was built from.
    pub fn capture(&self) -> (capture: &UiTreeCapture)
        ensures
            *capture == self.source(),
    {
        &self.capture
    }

    /// Number of nodes in the captured tree.
    pub fn node_count(&self) -> (count: usize)
        ensures
            count == self.source().nodes@.len(),
    {
        self.capture.nodes.len()
    }

    /// The node at `index`, if `index` is in range.
    pub fn node(&self, index: usize) -> (node: Option<&UiElementNode>)
        ensures
            node == if index < self.source().nodes@.len() {
                Some(&self.source().nodes@[index as int])
            } else {
                None
            },
    {
        if index < self.capture.nodes.len() {
            Some(&self.capture.nodes[index])
        } else {
            None
        }
    }

    /// The parent of `index`, if it has one. Roots, and indices out of range,
    /// have none.
    pub fn parent(&self, index: usize) -> (parent: Option<usize>)
        ensures
            index < self.source().nodes@.len() ==> links_to_parent(
                self.depths(),
                index as int,
                parent,
            ),
            index >= self.source().nodes@.len() ==> parent is None,
    {
        proof {
            use_type_invariant(self);
        }
        if index < self.parents.len() {
            self.parents[index]
        } else {
            None
        }
    }

    /// The direct children of `index`, in depth-first order. An index out of
    /// range has none.
    pub fn children(&self, index: usize) -> (children: &[usize])
        ensures
            children@ == if index < self.source().nodes@.len() {
                children_below(self.depths(), index as int, self.depths().len() as int)
            } else {
                Seq::empty()
            },
    {
        proof {
            use_type_invariant(self);
        }
        if index < self.children.len() {
            self.children[index].as_slice()
        } else {
            &[]
        }
    }

    /// Indices of every node without a captured parent, in depth-first order.
    pub fn roots(&self) -> (roots: &[usize])
        ensures
            roots@ == roots_below(self.depths(), self.depths().len() as int),
    {
        proof {
            use_type_invariant(self);
        }
        self.roots.as_slice()
    }

    /// Every node index, in depth-first order.
    pub fn depth_first_indices(&self) -> (indices: std::ops::Range<usize>)
        ensures
            indices.start == 0,
            indices.end == self.source().nodes@.len(),
    {
        0..self.capture.nodes.len()
    }

    /// The frame's captured paint primitive list.
    pub fn scene(&self) -> (scene: &SceneSnapshot)
        ensures
            *scene == self.source().scene,
    {
        &self.capture.scene
    }
}

impl Clone for UiTreeReplay {
    /// A replay of a clone of the capture.
    fn clone(&self) -> (replay: Self)
        ensures
            same_capture(replay.source(), self.source()),
            replay.depths() == self.depths(),
    {
        UiTreeReplay::new(self.capture.clone())
    }
}

/// The innermost element of an ancestor stack, or `-1` when it is empty.
spec fn top_of(stack: Seq<usize>) -> int {
    if stack.len() == 0 {
        -1
    } else {
        stack.last() as int
    }
}

/// Whether `stack` holds, outermost first, elements before `end`, and between
/// two neighbors nothing is less deep than the inner one.
#[verifier::opaque]
spec fn is_stack_below(depths: Seq<int>, stack: Seq<usize>, end: int) -> bool {
    forall|t: int|
        0 <= t < stack.len() ==> {
            &&& top_of(stack.take(t)) < (#[trigger] stack[t]) < end
            &&& forall|between: int|
                top_of(stack.take(t)) < between < stack[t] ==> #[trigger] depths[between]
                    >= depths[stack[t] as int]
        }
}

/// Whether `stack` ends with the element before `end`, if there is one.
spec fn is_ancestor_stack(depths: Seq<int>, stack: Seq<usize>, end: int) -> bool {
    &&& is_stack_below(depths, stack, end)
    &&& top_of(stack) == end - 1
}

proof fn lemma_stack_bounds(depths: Seq<int>, stack: Seq<usize>, end: int)
    requires
        is_stack_below(depths, stack, end),
    ensures
        forall|t: int| 0 <= t < stack.len() ==> 0 <= #[trigger] stack[t] < end,
{
    reveal(is_stack_below);
}

proof fn lemma_stack_pop(depths: Seq<int>, stack: Seq<usize>, end: int)
    requires
        is_stack_below(depths, stack, end),
        stack.len() > 0,
    ensures
        is_stack_below(depths, stack.drop_last(), end),
        top_of(stack.drop_last()) < stack.last() < end,
        forall|between: int|
            top_of(stack.drop_last()) < between < stack.last() ==> #[trigger] depths[between]
                >= depths[stack.last() as int],
{
    reveal(is_stack_below);
    let rest = stack.drop_last();
    let last = stack.len() - 1;
    assert(stack.take(last) == rest);
    assert(stack[last] == stack.last());
    assert forall|t: int| 0 <= t < rest.len() implies {
        &&& top_of(rest.take(t)) < (#[trigger] rest[t]) < end
        &&& forall|between: int|
            top_of(rest.take(t)) < between < rest[t] ==> #[trigger] depths[between]
                >= depths[rest[t] as int]
    } by {
        assert(rest.take(t) == stack.take(t));
        assert(rest[t] == stack[t]);
    }
}

proof fn lemma_stack_push(depths: Seq<int>, stack: Seq<usize>, index: usize)
    requires
        is_stack_below(depths, stack, index as int),
        forall|between: int|
            top_of(stack) < between < index ==> #[trigger] depths[between] >= depths[index as int],
    ensures
        is_ancestor_stack(depths, stack.push(index), index + 1),
{
    reveal(is_stack_below);
    let longer = stack.push(index);
    assert forall|t: int| 0 <= t < longer.len() implies {
        &&& top_of(longer.take(t)) < (#[trigger] longer[t]) < index + 1
        &&& forall|between: int|
            top_of(longer.take(t)) < between < longer[t] ==> #[trigger] depths[between]
                >= depths[longer[t] as int]
    } by {
        assert(longer.take(t) == stack.take(t));
        if t < stack.len() {
            assert(longer[t] == stack[t]);
        } else {
            assert(stack.take(t) == stack);
            if stack.len() > 0 {
                assert(stack[stack.len() - 1] < index);
            }
        }
    }
}

proof fn lemma_links_extend(depths: Seq<int>, index: int)
    requires
        0 <= index < depths.len(),
        index < usize::MAX,
    ensures
        children_below(depths, index, index) == Seq::<usize>::empty(),
        forall|parent: int| #[trigger]
            children_below(depths, parent, index + 1) == if is_parent(depths, parent, index) {
                children_below(depths, parent, index).push(index as usize)
            } else {
                children_below(depths, parent, index)
            },
        roots_below(depths, index + 1) == if is_root(depths, index) {
            roots_below(depths, index).push(index as usize)
        } else {
            roots_below(depths, index)
        },
{
    reveal(Seq::filter);
    assert(indices_below(index + 1).drop_last() == indices_below(index));
    assert(indices_below(index + 1).last() == index as usize);
    let own = |node: usize| is_parent(depths, index, node as int);
    assert forall|i: int| 0 <= i < indices_below(index).len() implies !own(
        #[trigger] indices_below(index)[i],
    ) by {}
    indices_below(index).lemma_all_neg_filter_empty(own);
}

/// Every element is a root or has a parent, never both, and has one parent at
/// most. A parent stands before its children and is less deep.
pub proof fn law_one_parent(depths: Seq<int>, node: int)
    requires
        0 <= node < depths.len(),
    ensures
        is_root(depths, node) <==> !(exists|parent: int| is_parent(depths, parent, node)),
        forall|p: int, q: int|
            is_parent(depths, p, node) && is_parent(depths, q, node) ==> p == q,
{
    if !is_root(depths, node) {
        lemma_nearest_shallower(depths, node, node);
    }
}

/// If something before `end` is less deep than `node`, and nothing from `end`
/// up to `node` is, then `node` has a parent.
proof fn lemma_nearest_shallower(depths: Seq<int>, node: int, end: int)
    requires
        0 <= end <= node < depths.len(),
        forall|between: int| end <= between < node ==> #[trigger] depths[between] >= depths[node],
        exists|before: int| 0 <= before < end && #[trigger] depths[before] < depths[node],
    ensures
        exists|parent: int| is_parent(depths, parent, node),
    decreases end,
{
    if depths[end - 1] < depths[node] {
        assert(is_parent(depths, end - 1, node));
    } else {
        lemma_nearest_shallower(depths, node, end - 1);
    }
}

/// Parent and child links are two sides of one relation: a node is listed
/// among the children of exactly the element that is its parent, children
/// come in depth-first order, and none is listed twice.
pub proof fn law_children_invert_parents(depths: Seq<int>, parent: int, node: usize)
    requires
        depths.len() <= usize::MAX,
    ensures
        children_below(depths, parent, depths.len() as int).contains(node) <==> is_parent(
            depths,
            parent,
            node as int,
        ),
        is_increasing(children_below(depths, parent, depths.len() as int)),
{
    lemma_filtered_indices(
        |n: usize| is_parent(depths, parent, n as int),
        depths.len() as int,
        node,
    );
}

/// The roots are exactly the elements without a parent, each listed once, in
/// depth-first order.
pub proof fn law_roots_have_no_parent(depths: Seq<int>, node: usize)
    requires
        depths.len() <= usize::MAX,
    ensures
        roots_below(depths, depths.len() as int).contains(node) <==> is_root(depths, node as int),
        is_increasing(roots_below(depths, depths.len() as int)),
{
    lemma_filtered_indices(|n: usize| is_root(depths, n as int), depths.len() as int, node);
}

/// Whether each index is greater than those before it.
pub open spec fn is_increasing(indices: Seq<usize>) -> bool {
    forall|i: int, j: int| 0 <= i < j < indices.len() ==> indices[i] < indices[j]
}

proof fn lemma_filtered_indices(wanted: spec_fn(usize) -> bool, end: int, node: usize)
    requires
        0 <= end <= usize::MAX,
    ensures
        indices_below(end).filter(wanted).contains(node) <==> node < end && wanted(node),
        is_increasing(indices_below(end).filter(wanted)),
        forall|i: int|
            0 <= i < indices_below(end).filter(wanted).len() ==> #[trigger] indices_below(
                end,
            ).filter(wanted)[i] < end,
    decreases end,
{
    reveal(Seq::filter);
    let kept = indices_below(end).filter(wanted);
    if end > 0 {
        lemma_filtered_indices(wanted, end - 1, node);
        let rest = indices_below(end - 1).filter(wanted);
        let last = (end - 1) as usize;
        assert(indices_below(end).drop_last() == indices_below(end - 1));
        assert(indices_below(end).last() == last);
        if wanted(last) {
            assert(kept == rest.push(last));
            assert(kept[rest.len() as int] == last);
            if rest.contains(node) {
                let i = rest.index_of(node);
                assert(kept[i] == node);
            }
            if kept.contains(node) && node != last {
                let i = kept.index_of(node);
                assert(rest[i] == node);
            }
        } else {
            assert(kept == rest);
        }
    } else {
        assert(kept.len() == 0);
    }
}

/// Whether `node` lies below `ancestor` in the tree given by `parents`.
pub open spec fn is_descendant(parents: Seq<Option<int>>, ancestor: int, node: int) -> bool
    decreases node,
{
    0 <= node < parents.len() && match parents[node] {
        Some(parent) => 0 <= parent < node && (parent == ancestor || is_descendant(
            parents,
            ancestor,
            parent,
        )),
        None => false,
    }
}

/// Whether `depths` lists, in depth-first order, the trees given by `parents`,
/// their roots at depth `root_depth`: a child is one deeper than its parent,
/// and between a parent and its child stand only descendants of the parent.
pub open spec fn is_depth_first_list(
    parents: Seq<Option<int>>,
    depths: Seq<int>,
    root_depth: int,
) -> bool {
    &&& parents.len() == depths.len()
    &&& forall|node: int|
        0 <= node < parents.len() ==> match #[trigger] parents[node] {
            None => depths[node] == root_depth,
            Some(parent) => {
                &&& 0 <= parent < node
                &&& depths[node] == depths[parent] + 1
                &&& forall|between: int|
                    parent < between < node ==> #[trigger] is_descendant(parents, parent, between)
            },
        }
}

proof fn lemma_not_above_root(
    parents: Seq<Option<int>>,
    depths: Seq<int>,
    root_depth: int,
    node: int,
)
    requires
        is_depth_first_list(parents, depths, root_depth),
        0 <= node < depths.len(),
    ensures
        depths[node] >= root_depth,
    decreases node,
{
    match parents[node] {
        Some(parent) => lemma_not_above_root(parents, depths, root_depth, parent),
        None => {},
    }
}

proof fn lemma_descendant_deeper(
    parents: Seq<Option<int>>,
    depths: Seq<int>,
    root_depth: int,
    ancestor: int,
    node: int,
)
    requires
        is_depth_first_list(parents, depths, root_depth),
        is_descendant(parents, ancestor, node),
    ensures
        depths[node] > depths[ancestor],
    decreases node,
{
    let parent = parents[node]->0;
    if parent != ancestor {
        lemma_descendant_deeper(parents, depths, root_depth, ancestor, parent);
    }
}

/// The depths of a tree's depth-first list determine its shape: the links that
/// are rebuilt from them are the tree's own.
pub proof fn law_depths_determine_tree(
    parents: Seq<Option<int>>,
    depths: Seq<int>,
    root_depth: int,
    node: int,
)
    requires
        is_depth_first_list(parents, depths, root_depth),
        0 <= node < depths.len(),
    ensures
        match parents[node] {
            Some(parent) => is_parent(depths, parent, node),
            None => is_root(depths, node),
        },
{
    match parents[node] {
        Some(parent) => {
            assert forall|between: int| parent < between < node implies #[trigger] depths[between]
                >= depths[node] by {
                assert(is_descendant(parents, parent, between));
                lemma_descendant_deeper(parents, depths, root_depth, parent, between);
            }
        },
        None => {
            assert forall|before: int| 0 <= before < node implies #[trigger] depths[before]
                >= depths[node] by {
                lemma_not_above_root(parents, depths, root_depth, before);
            }
        },
    }
}

} // verus!
