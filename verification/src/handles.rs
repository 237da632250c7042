//! The rasterizer's well-known handles of a pipeline: its root coordinate
//! spaces, its root clip, and the identity of a scroll frame.

use vstd::prelude::*;
use webrender_api::{ClipId, ExternalScrollId, PipelineId, SpatialId};

verus! {

/// The handle of a pipeline's root reference frame.
pub uninterp spec fn root_reference_frame_of(pipeline: PipelineId) -> SpatialId;

/// The handle of a pipeline's root scroll node.
pub uninterp spec fn root_scroll_node_of(pipeline: PipelineId) -> SpatialId;

/// The handle of a pipeline's root clip, which clips nothing.
pub uninterp spec fn root_clip_of(pipeline: PipelineId) -> ClipId;

/// The identity of the scroll frame numbered `id` in a pipeline.
pub uninterp spec fn external_scroll_id_of(id: u64, pipeline: PipelineId) -> ExternalScrollId;

/// `SpatialId::root_reference_frame`: the handle is made of a fixed index
/// and the pipeline, so it depends on the pipeline alone.
#[verifier::external_body]
pub(crate) fn root_reference_frame(pipeline: PipelineId) -> (id: SpatialId)
    ensures
        id == root_reference_frame_of(pipeline),
{
    SpatialId::root_reference_frame(pipeline)
}

/// `SpatialId::root_scroll_node`: the handle is made of a fixed index and
/// the pipeline, so it depends on the pipeline alone.
#[verifier::external_body]
pub(crate) fn root_scroll_node(pipeline: PipelineId) -> (id: SpatialId)
    ensures
        id == root_scroll_node_of(pipeline),
{
    SpatialId::root_scroll_node(pipeline)
}

/// `ClipId::root`: the handle is made of a fixed index and the pipeline, so
/// it depends on the pipeline alone.
#[verifier::external_body]
pub(crate) fn root_clip(pipeline: PipelineId) -> (id: ClipId)
    ensures
        id == root_clip_of(pipeline),
{
    ClipId::root(pipeline)
}

/// The constructor of `ExternalScrollId`, a pair of a number and a pipeline.
#[verifier::external_body]
pub(crate) fn external_scroll_id(id: u64, pipeline: PipelineId) -> (out: ExternalScrollId)
    ensures
        out == external_scroll_id_of(id, pipeline),
{
    ExternalScrollId(id, pipeline)
}

} // verus!
