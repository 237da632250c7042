//! The compositor's side of a scene: a tree of scroll nodes and the list of
//! hit-test entries that item tags point into.

use crate::cursor::Cursor;
use crate::geometry::{AuSize, AuVector};
use crate::handles::{
    external_scroll_id, external_scroll_id_of, root_reference_frame, root_reference_frame_of,
    root_scroll_node, root_scroll_node_of,
};
use vstd::prelude::*;
use webrender_api::{Epoch, ExternalScrollId, PipelineId, SpatialId};

verus! {

/// How a scroll frame reacts to input.
#[derive(Clone, Copy, Debug, PartialEq, Eq, Structural)]
pub enum ScrollSensitivity {
    ScriptAndInputEvents,
    Script,
}

/// The handle of a node of the scroll tree: its position in the tree and the
/// rasterizer's coordinate space that it stands for.
#[derive(Clone, Copy)]
pub struct ScrollTreeNodeId {
    pub index: usize,
    pub spatial_id: SpatialId,
}

/// What makes a scroll-tree node scrollable.
#[derive(Clone, Copy)]
pub struct ScrollableNodeInfo {
    pub external_id: ExternalScrollId,
    pub scrollable_size: AuSize,
    pub scroll_sensitivity: ScrollSensitivity,
    pub offset: AuVector,
}

/// One node of the scroll tree.
#[derive(Clone, Copy)]
pub struct ScrollTreeNode {
    pub parent: Option<ScrollTreeNodeId>,
    pub scroll_info: Option<ScrollableNodeInfo>,
}

/// The scroll tree: nodes in the order in which they were added. A node's
/// handle carries its position, so a parent always precedes its children.
pub struct ScrollTree {
    pub nodes: Vec<ScrollTreeNode>,
}

impl ScrollTree {
    /// Every node's parent, where it has one, stands before the node.
    pub open spec fn parents_first(&self) -> bool {
        forall|i: int|
            0 <= i < self.nodes@.len() ==> match (#[trigger] self.nodes@[i]).parent {
                Some(p) => p.index < i,
                None => true,
            }
    }

    /// Whether `id` is the handle of a node of this tree.
    pub open spec fn contains(&self, id: ScrollTreeNodeId) -> bool {
        id.index < self.nodes@.len()
    }

    /// An empty tree.
    pub fn new() -> (tree: ScrollTree)
        ensures
            tree.nodes@ == Seq::<ScrollTreeNode>::empty(),
            tree.parents_first(),
    {
        ScrollTree { nodes: Vec::new() }
    }

    /// Adds a node under `parent` and returns its handle: the node's position
    /// is the number of nodes that the tree held before.
    pub fn add_scroll_tree_node(
        &mut self,
        parent: Option<ScrollTreeNodeId>,
        spatial_id: SpatialId,
        scroll_info: Option<ScrollableNodeInfo>,
    ) -> (id: ScrollTreeNodeId)
        ensures
            final(self).nodes@ == old(self).nodes@.push(ScrollTreeNode { parent, scroll_info }),
            id == (ScrollTreeNodeId { index: old(self).nodes@.len() as usize, spatial_id }),
            final(self).contains(id),
            forall|other: ScrollTreeNodeId|
                old(self).contains(other) ==> #[trigger] final(self).contains(other),
            old(self).parents_first() && (parent is Some ==> old(self).contains(parent->0))
                ==> final(self).parents_first(),
    {
        let index = self.nodes.len();
        self.nodes.push(ScrollTreeNode { parent, scroll_info });
        ScrollTreeNodeId { index, spatial_id }
    }
}

/// What the compositor needs to answer a hit on an item: the node that
/// painted it, the cursor to show, and the scroll node that moves it.
#[derive(Clone, Copy)]
pub struct HitTestInfo {
    pub node: u64,
    pub cursor: Option<Cursor>,
    pub scroll_tree_node: ScrollTreeNodeId,
}

/// The compositor's record of one scene.
pub struct CompositorDisplayListInfo {
    pub pipeline_id: PipelineId,
    pub viewport_size: AuSize,
    pub content_size: AuSize,
    pub epoch: Epoch,
    pub hit_test_info: Vec<HitTestInfo>,
    pub scroll_tree: ScrollTree,
    pub root_reference_frame_id: ScrollTreeNodeId,
    pub root_scroll_node_id: ScrollTreeNodeId,
}

/// The hit-test list after `(node, cursor, scroll_tree_node)` is registered:
/// the list with one more entry at its end.
pub open spec fn hit_tests_after(
    before: Seq<HitTestInfo>,
    node: u64,
    cursor: Option<Cursor>,
    scroll_tree_node: ScrollTreeNodeId,
) -> Seq<HitTestInfo> {
    before.push(HitTestInfo { node, cursor, scroll_tree_node })
}

impl CompositorDisplayListInfo {
    /// Whether this is the record of an empty scene of the given pipeline:
    /// no hit-test entry, and a scroll tree of the root reference frame and,
    /// under it, the root scroll node, which can scroll by what the content
    /// exceeds the viewport by.
    pub open spec fn empty_for(
        &self,
        viewport_size: AuSize,
        content_size: AuSize,
        pipeline_id: PipelineId,
        epoch: Epoch,
    ) -> bool {
        &&& self.pipeline_id == pipeline_id
        &&& self.viewport_size == viewport_size
        &&& self.content_size == content_size
        &&& self.epoch == epoch
        &&& self.hit_test_info@ == Seq::<HitTestInfo>::empty()
        &&& self.root_reference_frame_id == (ScrollTreeNodeId {
            index: 0,
            spatial_id: root_reference_frame_of(pipeline_id),
        })
        &&& self.root_scroll_node_id == (ScrollTreeNodeId {
            index: 1,
            spatial_id: root_scroll_node_of(pipeline_id),
        })
        &&& self.scroll_tree.nodes@ == seq![
            ScrollTreeNode { parent: None, scroll_info: None },
            ScrollTreeNode {
                parent: Some(self.root_reference_frame_id),
                scroll_info: Some(
                    ScrollableNodeInfo {
                        external_id: external_scroll_id_of(0, pipeline_id),
                        scrollable_size: content_size.minus(viewport_size),
                        scroll_sensitivity: ScrollSensitivity::ScriptAndInputEvents,
                        offset: AuVector { x: 0, y: 0 },
                    },
                ),
            },
        ]
    }

    /// The record of an empty scene. Its scroll tree holds the pipeline's
    /// root reference frame and, under it, the root scroll node, which can
    /// scroll by what the content exceeds the viewport by.
    pub fn new(
        viewport_size: AuSize,
        content_size: AuSize,
        pipeline_id: PipelineId,
        epoch: Epoch,
    ) -> (info: CompositorDisplayListInfo)
        ensures
            info.empty_for(viewport_size, content_size, pipeline_id, epoch),
            info.scroll_tree.parents_first(),
    {
        let mut scroll_tree = ScrollTree::new();
        let root_reference_frame_id = scroll_tree.add_scroll_tree_node(
            None,
            root_reference_frame(pipeline_id),
            None,
        );
        let root_scroll_node_id = scroll_tree.add_scroll_tree_node(
            Some(root_reference_frame_id),
            root_scroll_node(pipeline_id),
            Some(
                ScrollableNodeInfo {
                    external_id: external_scroll_id(0, pipeline_id),
                    scrollable_size: content_size.sub(viewport_size),
                    scroll_sensitivity: ScrollSensitivity::ScriptAndInputEvents,
                    offset: AuVector::zero(),
                },
            ),
        );
        assert(scroll_tree.nodes@ =~= seq![
            ScrollTreeNode { parent: None, scroll_info: None },
            ScrollTreeNode {
                parent: Some(root_reference_frame_id),
                scroll_info: Some(
                    ScrollableNodeInfo {
                        external_id: external_scroll_id_of(0, pipeline_id),
                        scrollable_size: content_size.minus(viewport_size),
                        scroll_sensitivity: ScrollSensitivity::ScriptAndInputEvents,
                        offset: AuVector { x: 0, y: 0 },
                    },
                ),
            },
        ]);
        CompositorDisplayListInfo {
            pipeline_id,
            viewport_size,
            content_size,
            epoch,
            hit_test_info: Vec::new(),
            scroll_tree,
            root_reference_frame_id,
            root_scroll_node_id,
        }
    }

    /// Registers what a hit on an item means and returns the position of the
    /// new entry, which the item carries as its tag.
    pub fn add_hit_test_info(
        &mut self,
        node: u64,
        cursor: Option<Cursor>,
        scroll_tree_node: ScrollTreeNodeId,
    ) -> (index: usize)
        ensures
            final(self).hit_test_info@ == hit_tests_after(
                old(self).hit_test_info@,
                node,
                cursor,
                scroll_tree_node,
            ),
            index == old(self).hit_test_info@.len(),
            final(self).pipeline_id == old(self).pipeline_id,
            final(self).viewport_size == old(self).viewport_size,
            final(self).content_size == old(self).content_size,
            final(self).epoch == old(self).epoch,
            final(self).scroll_tree == old(self).scroll_tree,
            final(self).root_reference_frame_id == old(self).root_reference_frame_id,
            final(self).root_scroll_node_id == old(self).root_scroll_node_id,
    {
        let len = self.hit_test_info.len();
        self.hit_test_info.push(HitTestInfo { node, cursor, scroll_tree_node });
        len
    }
}

} // verus!
