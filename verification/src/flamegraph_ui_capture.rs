//! A frame's captured element tree and paint primitives.

use crate::flamegraph::deep_capture::DrawCallKind;
use vstd::prelude::*;

verus! {

/// A rectangle in window coordinates. Each value is the bit pattern of an
/// IEEE 754 single-precision number of pixels.
#[derive(Debug, Clone, Copy, PartialEq, Eq, Structural)]
pub struct UiBounds {
    /// Left edge.
    pub x_bits: u32,
    /// Top edge.
    pub y_bits: u32,
    /// Width.
    pub width_bits: u32,
    /// Height.
    pub height_bits: u32,
}

impl Default for UiBounds {
    /// The empty rectangle at the origin.
    fn default() -> (bounds: Self)
        ensures
            bounds == (UiBounds { x_bits: 0, y_bits: 0, width_bits: 0, height_bits: 0 }),
    {
        UiBounds { x_bits: 0, y_bits: 0, width_bits: 0, height_bits: 0 }
    }
}

/// One element of the captured tree.
#[derive(Debug)]
pub struct UiElementNode {
    /// Rust type of the element.
    pub element_type: &'static str,
    /// Hash of the element's global id.
    pub global_id_hash: u64,
    /// Distance from the root of the tree.
    pub depth: u32,
    /// Layout bounds.
    pub bounds: UiBounds,
    /// The element's style in textual form, when it was captured.
    pub style: Option<String>,
}

impl Clone for UiElementNode {
    fn clone(&self) -> (node: Self)
        ensures
            node == *self,
    {
        UiElementNode {
            element_type: self.element_type,
            global_id_hash: self.global_id_hash,
            depth: self.depth,
            bounds: self.bounds,
            style: match &self.style {
                Some(style) => Some(style.clone()),
                None => None,
            },
        }
    }
}

/// One captured paint primitive.
#[derive(Debug, Clone, Copy, PartialEq, Eq, Structural)]
pub struct ScenePrimitive {
    /// What is painted.
    pub kind: DrawCallKind,
    /// Where it is painted.
    pub bounds: UiBounds,
}

/// A frame's paint primitives, in paint order.
#[derive(Debug)]
pub struct SceneSnapshot {
    /// The primitives.
    pub primitives: Vec<ScenePrimitive>,
}

impl Clone for SceneSnapshot {
    fn clone(&self) -> (scene: Self)
        ensures
            scene.primitives@ == self.primitives@,
    {
        let mut primitives: Vec<ScenePrimitive> = Vec::new();
        primitives.extend_from_slice(self.primitives.as_slice());
        assert(primitives@ == self.primitives@);
        SceneSnapshot { primitives }
    }
}

impl Default for SceneSnapshot {
    fn default() -> (scene: Self)
        ensures
            scene.primitives@ == Seq::<ScenePrimitive>::empty(),
    {
        SceneSnapshot { primitives: Vec::new() }
    }
}

/// A frame's captured element tree: the elements in depth-first order, each
/// with its depth.
#[derive(Debug)]
pub struct UiTreeCapture {
    /// Hashed id of the window.
    pub window_id: u64,
    /// The elements, in depth-first order.
    pub nodes: Vec<UiElementNode>,
    /// The paint primitives.
    pub scene: SceneSnapshot,
}

/// Whether two captures hold the same: the same window, elements and paint
/// primitives.
pub open spec fn same_capture(first: UiTreeCapture, second: UiTreeCapture) -> bool {
    &&& first.window_id == second.window_id
    &&& first.nodes@ == second.nodes@
    &&& first.scene.primitives@ == second.scene.primitives@
}

impl Clone for UiTreeCapture {
    fn clone(&self) -> (capture: Self)
        ensures
            same_capture(capture, *self),
    {
        let mut nodes: Vec<UiElementNode> = Vec::new();
        let mut i: usize = 0;
        while i < self.nodes.len()
            invariant
                i <= self.nodes@.len(),
                nodes@ == self.nodes@.take(i as int),
            decreases self.nodes@.len() - i,
        {
            nodes.push(self.nodes[i].clone());
            i = i + 1;
        }
        assert(self.nodes@.take(self.nodes@.len() as int) == self.nodes@);
        UiTreeCapture { window_id: self.window_id, nodes, scene: self.scene.clone() }
    }
}

impl Default for UiTreeCapture {
    fn default() -> (capture: Self)
        ensures
            capture.window_id == 0,
            capture.nodes@ == Seq::<UiElementNode>::empty(),
            capture.scene.primitives@ == Seq::<ScenePrimitive>::empty(),
    {
        UiTreeCapture { window_id: 0, nodes: Vec::new(), scene: SceneSnapshot::default() }
    }
}

/// The depths of a list of elements.
pub open spec fn node_depths(nodes: Seq<UiElementNode>) -> Seq<int> {
    nodes.map_values(|node: UiElementNode| node.depth as int)
}

} // verus!
