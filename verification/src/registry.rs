//! The clip and scroll registry: for each node index of a display list, the
//! rasterizer's clip handle and the scroll-tree node that were made for it.

use crate::handles::{root_clip, root_clip_of};
use crate::scroll_tree::{
    CompositorDisplayListInfo, ScrollTreeNode, ScrollTreeNodeId, ScrollableNodeInfo,
};
use vstd::prelude::*;
use webrender_api::{ClipId, SpatialId};

verus! {

/// Two parallel tables from node index to handle, and the compositor's
/// record that the scroll nodes are entered into. An entry is `None` until
/// the node is defined.
pub struct ClipScrollState {
    pub clip_ids: Vec<Option<ClipId>>,
    pub scroll_node_ids: Vec<Option<ScrollTreeNodeId>>,
    pub compositor_info: CompositorDisplayListInfo,
}

impl ClipScrollState {
    /// The number of node indices that the registry has room for.
    pub open spec fn size(&self) -> int {
        self.clip_ids@.len() as int
    }

    /// The two tables cover the same indices, every scroll node on record is
    /// a node of the scroll tree, and in that tree parents come first.
    pub open spec fn wf(&self) -> bool {
        &&& self.clip_ids@.len() == self.scroll_node_ids@.len()
        &&& self.compositor_info.scroll_tree.parents_first()
        &&& forall|i: int|
            0 <= i < self.scroll_node_ids@.len() ==> match #[trigger] self.scroll_node_ids@[i] {
                Some(id) => self.compositor_info.scroll_tree.contains(id),
                None => true,
            }
    }

    /// Whether a clip handle is on record for `index`.
    pub open spec fn clip_defined(&self, index: int) -> bool {
        0 <= index < self.clip_ids@.len() && self.clip_ids@[index] is Some
    }

    /// Whether a scroll node is on record for `index`.
    pub open spec fn scroll_defined(&self, index: int) -> bool {
        0 <= index < self.scroll_node_ids@.len() && self.scroll_node_ids@[index] is Some
    }

    /// The node indices for which both a clip and a scroll node are on record.
    pub open spec fn defined(&self) -> Set<int> {
        Set::new(|index: int| self.clip_defined(index) && self.scroll_defined(index))
    }

    /// Clips and scroll nodes are on record for the same node indices.
    pub open spec fn paired(&self) -> bool {
        forall|index: int|
            #![trigger self.clip_defined(index)]
            #![trigger self.scroll_defined(index)]
            self.clip_defined(index) <==> self.scroll_defined(index)
    }

    /// Whatever is defined in `self` is defined in `later`, and `later` has
    /// room for the same indices.
    pub open spec fn defined_stays_in(&self, later: &ClipScrollState) -> bool {
        &&& later.clip_ids@.len() == self.clip_ids@.len()
        &&& later.scroll_node_ids@.len() == self.scroll_node_ids@.len()
        &&& forall|i: int| self.clip_defined(i) ==> #[trigger] later.clip_defined(i)
        &&& forall|i: int| self.scroll_defined(i) ==> #[trigger] later.scroll_defined(i)
    }

    /// Whether this is a fresh registry for `size` node indices over the
    /// record `info`: index 0 holds the root reference frame and index 1 the
    /// root scroll node, both with the pipeline's root clip, and no other
    /// index holds anything.
    pub open spec fn initial_for(&self, size: int, info: CompositorDisplayListInfo) -> bool {
        &&& self.clip_ids@.len() == size
        &&& self.scroll_node_ids@.len() == size
        &&& self.compositor_info == info
        &&& forall|i: int|
            0 <= i < size ==> #[trigger] self.clip_ids@[i] == if i < 2 {
                Some(root_clip_of(info.pipeline_id))
            } else {
                None
            }
        &&& self.scroll_node_ids@[0] == Some(info.root_reference_frame_id)
        &&& self.scroll_node_ids@[1] == Some(info.root_scroll_node_id)
        &&& forall|i: int| 2 <= i < size ==> #[trigger] self.scroll_node_ids@[i] is None
    }

    /// A registry for `size` node indices. Index 0 stands for the root
    /// reference frame and index 1 for the root scroll node; both are entered
    /// here, with the pipeline's root clip, and nothing else is.
    pub fn new(size: usize, compositor_info: CompositorDisplayListInfo) -> (state: ClipScrollState)
        requires
            size >= 2,
            compositor_info.scroll_tree.parents_first(),
            compositor_info.scroll_tree.contains(compositor_info.root_reference_frame_id),
            compositor_info.scroll_tree.contains(compositor_info.root_scroll_node_id),
        ensures
            state.wf(),
            state.initial_for(size as int, compositor_info),
    {
        let mut clip_ids: Vec<Option<ClipId>> = Vec::new();
        let mut scroll_node_ids: Vec<Option<ScrollTreeNodeId>> = Vec::new();
        let mut i: usize = 0;
        while i < size
            invariant
                i <= size,
                clip_ids@.len() == i,
                scroll_node_ids@.len() == i,
                forall|k: int| 0 <= k < i ==> #[trigger] clip_ids@[k] is None,
                forall|k: int| 0 <= k < i ==> #[trigger] scroll_node_ids@[k] is None,
            decreases size - i,
        {
            clip_ids.push(None);
            scroll_node_ids.push(None);
            i += 1;
        }
        let mut state = ClipScrollState { clip_ids, scroll_node_ids, compositor_info };
        state.scroll_node_ids.set(0, Some(state.compositor_info.root_reference_frame_id));
        state.scroll_node_ids.set(1, Some(state.compositor_info.root_scroll_node_id));
        let root_clip_id = root_clip(state.compositor_info.pipeline_id);
        state.add_clip_node_mapping(0, root_clip_id);
        state.add_clip_node_mapping(1, root_clip_id);
        state
    }

    /// The clip handle on record for `index`, if there is one.
    pub fn clip_id_at(&self, index: usize) -> (id: Option<ClipId>)
        ensures
            id == if self.clip_defined(index as int) {
                self.clip_ids@[index as int]
            } else {
                None
            },
    {
        if index < self.clip_ids.len() {
            self.clip_ids[index]
        } else {
            None
        }
    }

    /// The scroll node on record for `index`, if there is one.
    pub fn scroll_node_id_at(&self, index: usize) -> (id: Option<ScrollTreeNodeId>)
        ensures
            id == if self.scroll_defined(index as int) {
                self.scroll_node_ids@[index as int]
            } else {
                None
            },
    {
        if index < self.scroll_node_ids.len() {
            self.scroll_node_ids[index]
        } else {
            None
        }
    }

    /// The clip handle of a node that has been defined.
    pub fn webrender_clip_id_for_index(&self, index: usize) -> (id: ClipId)
        requires
            self.clip_defined(index as int),
        ensures
            Some(id) == self.clip_ids@[index as int],
    {
        self.clip_ids[index].unwrap()
    }

    /// The rasterizer's coordinate space of a node that has been defined.
    pub fn webrender_spatial_id_for_index(&self, index: usize) -> (id: SpatialId)
        requires
            self.scroll_defined(index as int),
        ensures
            id == self.scroll_node_ids@[index as int]->0.spatial_id,
    {
        self.scroll_node_ids[index].unwrap().spatial_id
    }

    /// Records the clip handle of a node. The last write wins.
    pub fn add_clip_node_mapping(&mut self, index: usize, webrender_id: ClipId)
        requires
            0 <= index < old(self).clip_ids@.len(),
        ensures
            final(self).clip_ids@ == old(self).clip_ids@.update(index as int, Some(webrender_id)),
            final(self).scroll_node_ids == old(self).scroll_node_ids,
            final(self).compositor_info == old(self).compositor_info,
    {
        self.clip_ids.set(index, Some(webrender_id));
    }

    /// The scroll node of a node that has been defined.
    pub fn scroll_node_id_from_index(&self, index: usize) -> (id: ScrollTreeNodeId)
        requires
            self.scroll_defined(index as int),
        ensures
            Some(id) == self.scroll_node_ids@[index as int],
    {
        self.scroll_node_ids[index].unwrap()
    }

    /// Enters a new node into the scroll tree, under the scroll node of
    /// `parent_index` where one is given, and records its handle at `index`.
    pub fn register_spatial_node(
        &mut self,
        index: usize,
        spatial_id: SpatialId,
        parent_index: Option<usize>,
        scroll_info: Option<ScrollableNodeInfo>,
    )
        requires
            0 <= index < old(self).scroll_node_ids@.len(),
            parent_index is Some ==> old(self).scroll_defined(parent_index->0 as int),
        ensures
            final(self).clip_ids == old(self).clip_ids,
            final(self).scroll_node_ids@ == old(self).scroll_node_ids@.update(
                index as int,
                Some(
                    ScrollTreeNodeId {
                        index: old(self).compositor_info.scroll_tree.nodes@.len() as usize,
                        spatial_id,
                    },
                ),
            ),
            final(self).compositor_info.scroll_tree.nodes@ == old(
                self,
            ).compositor_info.scroll_tree.nodes@.push(
                ScrollTreeNode {
                    parent: match parent_index {
                        Some(p) => old(self).scroll_node_ids@[p as int],
                        None => None,
                    },
                    scroll_info,
                },
            ),
            final(self).compositor_info.hit_test_info == old(self).compositor_info.hit_test_info,
            final(self).compositor_info.pipeline_id == old(self).compositor_info.pipeline_id,
            final(self).compositor_info.viewport_size == old(self).compositor_info.viewport_size,
            final(self).compositor_info.content_size == old(self).compositor_info.content_size,
            final(self).compositor_info.epoch == old(self).compositor_info.epoch,
            final(self).compositor_info.root_reference_frame_id == old(
                self,
            ).compositor_info.root_reference_frame_id,
            final(self).compositor_info.root_scroll_node_id == old(
                self,
            ).compositor_info.root_scroll_node_id,
            old(self).wf() ==> final(self).wf(),
    {
        let parent_scroll_node_id = match parent_index {
            Some(p) => Some(self.scroll_node_id_from_index(p)),
            None => None,
        };
        let id = self.compositor_info.scroll_tree.add_scroll_tree_node(
            parent_scroll_node_id,
            spatial_id,
            scroll_info,
        );
        self.scroll_node_ids.set(index, Some(id));
    }

    /// Gives a node the scroll node of its parent, as it stands: a clip does
    /// not start a scroll frame of its own.
    pub fn add_spatial_node_mapping_to_parent_index(&mut self, index: usize, parent_index: usize)
        requires
            0 <= index < old(self).scroll_node_ids@.len(),
            0 <= parent_index < old(self).scroll_node_ids@.len(),
        ensures
            final(self).scroll_node_ids@ == old(self).scroll_node_ids@.update(
                index as int,
                old(self).scroll_node_ids@[parent_index as int],
            ),
            final(self).clip_ids == old(self).clip_ids,
            final(self).compositor_info == old(self).compositor_info,
            old(self).wf() ==> final(self).wf(),
    {
        let parent = self.scroll_node_ids[parent_index];
        self.scroll_node_ids.set(index, parent);
    }
}

/// The two roots are defined from the start and stay defined: a registry
/// that began fresh holds a clip and a scroll node for index 0 and for index
/// 1 in every state that keeps what was defined.
pub proof fn roots_stay_defined(
    first: ClipScrollState,
    later: ClipScrollState,
    size: int,
    info: CompositorDisplayListInfo,
)
    requires
        size >= 2,
        first.initial_for(size, info),
        first.defined_stays_in(&later),
    ensures
        later.clip_defined(0),
        later.clip_defined(1),
        later.scroll_defined(0),
        later.scroll_defined(1),
{
    assert(first.clip_ids@[0] is Some);
    assert(first.clip_ids@[1] is Some);
    assert(first.clip_defined(0));
    assert(first.clip_defined(1));
    assert(first.scroll_defined(0));
    assert(first.scroll_defined(1));
}

} // verus!
