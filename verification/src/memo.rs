//! Cells that remember, for the time that one box is painted, what was
//! worked out when it was first asked for.

use crate::geometry::AuRect;
use mitochondria::OnceCell;
use vstd::prelude::*;
use webrender_api::ClipId;

verus! {

/// A cell for the rectangle of an edge.
pub type RectCell = OnceCell<AuRect>;

/// A cell for the clip of an edge: no clip, or the clip's handle.
pub type ClipCell = OnceCell<Option<ClipId>>;

/// What a rectangle cell holds: nothing yet, or its rectangle.
pub uninterp spec fn rect_cell_value(cell: RectCell) -> Option<AuRect>;

/// What a clip cell holds: nothing yet, or its answer.
pub uninterp spec fn clip_cell_value(cell: ClipCell) -> Option<Option<ClipId>>;

/// `OnceCell::new`: a cell that holds nothing yet.
#[verifier::external_body]
pub(crate) fn new_rect_cell() -> (cell: RectCell)
    ensures
        rect_cell_value(cell) is None,
{
    OnceCell::new()
}

/// `OnceCell::as_ref`: what the cell holds.
#[verifier::external_body]
pub(crate) fn rect_cell_get(cell: &RectCell) -> (held: Option<AuRect>)
    ensures
        held == rect_cell_value(*cell),
{
    cell.as_ref().copied()
}

/// `OnceCell::init_once` with a value at hand: a cell that holds nothing
/// yet holds the value afterwards; a cell that holds a value keeps it.
#[verifier::external_body]
pub(crate) fn rect_cell_init(cell: &mut RectCell, value: AuRect)
    ensures
        rect_cell_value(*final(cell)) == match rect_cell_value(*old(cell)) {
            Some(held) => Some(held),
            None => Some(value),
        },
{
    cell.init_once(|| value);
}

/// `OnceCell::new`: a cell that holds nothing yet.
#[verifier::external_body]
pub(crate) fn new_clip_cell() -> (cell: ClipCell)
    ensures
        clip_cell_value(cell) is None,
{
    OnceCell::new()
}

/// `OnceCell::as_ref`: what the cell holds.
#[verifier::external_body]
pub(crate) fn clip_cell_get(cell: &ClipCell) -> (held: Option<Option<ClipId>>)
    ensures
        held == clip_cell_value(*cell),
{
    cell.as_ref().copied()
}

/// `OnceCell::init_once` with a value at hand: a cell that holds nothing
/// yet holds the value afterwards; a cell that holds a value keeps it.
#[verifier::external_body]
pub(crate) fn clip_cell_init(cell: &mut ClipCell, value: Option<ClipId>)
    ensures
        clip_cell_value(*final(cell)) == match clip_cell_value(*old(cell)) {
            Some(held) => Some(held),
            None => Some(value),
        },
{
    cell.init_once(|| value);
}

} // verus!
