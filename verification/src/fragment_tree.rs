//! Painting of a whole tree of fragments, in the order that its stacking
//! contexts give.

use crate::box_builder::{BuilderForBoxFragment, Seen};
use crate::cursor::Cursor;
use crate::fragments::{Fragment, StackingContextSection};
use crate::geometry::AuRect;
use crate::handles::{root_clip, root_clip_of};
use crate::painting::{
    build_display_list_for_iframe, build_display_list_for_image,
    build_display_list_for_text_fragment, hit_tag, hits_after_tag, iframe_item, iframe_sizes_of,
    image_item, no_iframe_sizes, text_glyphs, text_items, DevicePixelRatio, DisplayList,
    IframeSizes, PaintState,
};
use crate::scene::{builder_items, SceneItem};
use crate::scroll_tree::{HitTestInfo, ScrollTreeNodeId};
use crate::style::Visibility;
use vstd::prelude::*;
use webrender_api::ClipId;

verus! {

/// A fragment at its place in the paint order: the scroll node and the clip
/// that it is painted under, the section that it is painted in, and the
/// rectangle that its own rectangle is relative to.
pub struct StackingContextFragment {
    pub scroll_node_id: ScrollTreeNodeId,
    pub clip_id: ClipId,
    pub section: StackingContextSection,
    pub containing_block: AuRect,
    pub fragment: Fragment,
}

impl Fragment {
    /// A box fragment is well formed; any other fragment is as it is.
    pub open spec fn wf(&self) -> bool {
        match self {
            Fragment::Box(b) => b.wf(),
            _ => true,
        }
    }

    /// Whether painting the fragment makes the scene contentful: a visible
    /// image or text does.
    pub open spec fn paints_content(&self) -> bool {
        match self {
            Fragment::Image(i) => i.style.visibility == Visibility::Visible,
            Fragment::Text(t) => t.parent_style.visibility == Visibility::Visible,
            _ => false,
        }
    }

    /// What painting the fragment does: to the paint state, from `s0` to
    /// `s1`, to the hit-test list, from `hits0` to `hits1`, and to the scene,
    /// from `items0` to `items1`. A fragment that is not visible, and one
    /// that is only a place holder, does nothing.
    pub open spec fn painted(
        &self,
        containing_block: AuRect,
        section: StackingContextSection,
        s0: PaintState,
        hits0: Seq<HitTestInfo>,
        items0: Seq<SceneItem>,
        s1: PaintState,
        hits1: Seq<HitTestInfo>,
        items1: Seq<SceneItem>,
    ) -> bool {
        match *self {
            Fragment::Box(b) => {
                if b.style.visibility == Visibility::Visible {
                    &&& s1 == s0
                    &&& exists|done: BuilderForBoxFragment|
                        {
                            &&& done.wf()
                            &&& *done.fragment == b
                            &&& *done.containing_block == containing_block
                            &&& #[trigger] done.painted(
                                Seen { border: false, padding: false, content: false },
                                section,
                                s0,
                                hits0,
                                hits1,
                                items0,
                                items1,
                            )
                        }
                } else {
                    s1 == s0 && hits1 == hits0 && items1 == items0
                }
            },
            Fragment::Image(i) => {
                if i.style.visibility == Visibility::Visible {
                    &&& s1 == (PaintState { is_contentful: true, ..s0 })
                    &&& hits1 == hits0
                    &&& items1 == items0.push(
                        image_item(s0, i, i.rect.translated(containing_block.origin)),
                    )
                } else {
                    s1 == s0 && hits1 == hits0 && items1 == items0
                }
            },
            Fragment::IFrame(f) => {
                if f.style.visibility == Visibility::Visible {
                    &&& s1.is_contentful == s0.is_contentful
                    &&& s1.current_scroll_node_id == s0.current_scroll_node_id
                    &&& s1.current_clip_id == s0.current_clip_id
                    &&& s1.element_for_canvas_background == s0.element_for_canvas_background
                    &&& s1.device_pixel_ratio == s0.device_pixel_ratio
                    &&& iframe_sizes_of(s1.iframe_sizes) == iframe_sizes_of(s0.iframe_sizes).insert(
                        f.browsing_context_id,
                        f.rect.translated(containing_block.origin).size,
                    )
                    &&& hits1 == hits0
                    &&& items1 == items0.push(
                        iframe_item(s0, f, f.rect.translated(containing_block.origin)),
                    )
                } else {
                    s1 == s0 && hits1 == hits0 && items1 == items0
                }
            },
            Fragment::Text(t) => {
                if t.parent_style.visibility == Visibility::Visible {
                    let rect = t.rect.translated(containing_block.origin);
                    &&& s1 == (PaintState { is_contentful: true, ..s0 })
                    &&& if text_glyphs(t, rect).len() == 0 {
                        hits1 == hits0 && items1 == items0
                    } else {
                        &&& hits1 == hits_after_tag(
                            hits0,
                            t.parent_style.pointer_events,
                            t.parent_style.cursor,
                            t.tag,
                            Cursor::Text,
                            s0.current_scroll_node_id,
                        )
                        &&& items1 == items0 + text_items(
                            s0,
                            t,
                            rect,
                            hit_tag(t.parent_style.pointer_events, t.tag, hits1),
                        )
                    }
                } else {
                    s1 == s0 && hits1 == hits0 && items1 == items0
                }
            },
            Fragment::AbsoluteOrFixedPositioned => s1 == s0 && hits1 == hits0 && items1 == items0,
            Fragment::Anonymous => s1 == s0 && hits1 == hits0 && items1 == items0,
        }
    }

    /// Paints the fragment, if it is visible, in the given section of its
    /// stacking context.
    pub fn build_display_list(
        &self,
        state: &mut PaintState,
        display_list: &mut DisplayList,
        containing_block: &AuRect,
        section: StackingContextSection,
    )
        requires
            self.wf(),
            old(state).device_pixel_ratio.wf(),
        ensures
            self.painted(
                *containing_block,
                section,
                *old(state),
                old(display_list).compositor_info.hit_test_info@,
                builder_items(old(display_list).wr),
                *final(state),
                final(display_list).compositor_info.hit_test_info@,
                builder_items(final(display_list).wr),
            ),
            final(state).is_contentful == (old(state).is_contentful || self.paints_content()),
            final(state).device_pixel_ratio == old(state).device_pixel_ratio,
            final(state).element_for_canvas_background == old(state).element_for_canvas_background,
            final(display_list).pipeline_id == old(display_list).pipeline_id,
            final(display_list).compositor_info.scroll_tree == old(
                display_list,
            ).compositor_info.scroll_tree,
    {
        match self {
            Fragment::Box(b) => match b.style.visibility {
                Visibility::Visible => {
                    let mut builder = BuilderForBoxFragment::new(b, containing_block);
                    builder.build(state, display_list, section);
                    assert(builder.painted(
                        Seen { border: false, padding: false, content: false },
                        section,
                        *state,
                        old(display_list).compositor_info.hit_test_info@,
                        display_list.compositor_info.hit_test_info@,
                        builder_items(old(display_list).wr),
                        builder_items(display_list.wr),
                    ));
                },
                Visibility::Hidden => (),
                Visibility::Collapse => (),
            },
            Fragment::AbsoluteOrFixedPositioned => {},
            Fragment::Anonymous => {},
            Fragment::Image(i) => match i.style.visibility {
                Visibility::Visible => {
                    build_display_list_for_image(state, display_list, i, containing_block);
                },
                Visibility::Hidden => (),
                Visibility::Collapse => (),
            },
            Fragment::IFrame(iframe) => match iframe.style.visibility {
                Visibility::Visible => {
                    build_display_list_for_iframe(state, display_list, iframe, containing_block);
                },
                Visibility::Hidden => (),
                Visibility::Collapse => (),
            },
            Fragment::Text(t) => match t.parent_style.visibility {
                Visibility::Visible => {
                    build_display_list_for_text_fragment(state, display_list, t, containing_block);
                },
                Visibility::Hidden => (),
                Visibility::Collapse => (),
            },
        }
    }
}


/// The paint state that a fragment in the paint order is painted in: the
/// state that the fragments before it have left, under the fragment's own
/// scroll node and clip.
pub open spec fn entered(s: PaintState, f: StackingContextFragment) -> PaintState {
    PaintState { current_scroll_node_id: f.scroll_node_id, current_clip_id: f.clip_id, ..s }
}

/// What painting a sequence of fragments does, one after the other: each is
/// painted in the state that the fragments before it have left.
pub open spec fn all_painted(
    fragments: Seq<StackingContextFragment>,
    s0: PaintState,
    hits0: Seq<HitTestInfo>,
    items0: Seq<SceneItem>,
    s1: PaintState,
    hits1: Seq<HitTestInfo>,
    items1: Seq<SceneItem>,
) -> bool
    decreases fragments.len(),
{
    if fragments.len() == 0 {
        s1 == s0 && hits1 == hits0 && items1 == items0
    } else {
        exists|sm: PaintState, hm: Seq<HitTestInfo>, im: Seq<SceneItem>|
            {
                &&& all_painted(fragments.drop_last(), s0, hits0, items0, sm, hm, im)
                &&& #[trigger] fragments.last().fragment.painted(
                    fragments.last().containing_block,
                    fragments.last().section,
                    entered(sm, fragments.last()),
                    hm,
                    im,
                    s1,
                    hits1,
                    items1,
                )
            }
    }
}

/// Whether one of the fragments makes the scene contentful.
pub open spec fn any_paints_content(fragments: Seq<StackingContextFragment>) -> bool {
    exists|i: int| 0 <= i < fragments.len() && (#[trigger] fragments[i]).fragment.paints_content()
}

/// The paint state at the start of a scene: under the root scroll node and
/// the root clip, with no frame met and nothing contentful painted.
pub open spec fn starts_painting(
    s: PaintState,
    list: DisplayList,
    ratio: DevicePixelRatio,
    element_for_canvas_background: u64,
) -> bool {
    &&& s.current_scroll_node_id == list.compositor_info.root_scroll_node_id
    &&& s.current_clip_id == root_clip_of(list.pipeline_id)
    &&& s.element_for_canvas_background == element_for_canvas_background
    &&& s.device_pixel_ratio == ratio
    &&& iframe_sizes_of(s.iframe_sizes) == Map::<u64, crate::geometry::AuSize>::empty()
    &&& !s.is_contentful
}

impl DisplayList {
    /// Paints the fragments in their order into the scene. Returned are the
    /// sizes of the embedded documents met, by browsing context, and whether
    /// the scene is contentful: whether a visible text or image was among
    /// the fragments.
    pub fn build(
        &mut self,
        device_pixel_ratio: DevicePixelRatio,
        element_for_canvas_background: u64,
        fragments: &Vec<StackingContextFragment>,
    ) -> (out: (IframeSizes, bool))
        requires
            device_pixel_ratio.wf(),
            forall|i: int| 0 <= i < fragments@.len() ==> (#[trigger] fragments@[i]).fragment.wf(),
        ensures
            out.1 == any_paints_content(fragments@),
            final(self).pipeline_id == old(self).pipeline_id,
            final(self).compositor_info.scroll_tree == old(self).compositor_info.scroll_tree,
            exists|first: PaintState, last: PaintState|
                {
                    &&& starts_painting(
                        first,
                        *old(self),
                        device_pixel_ratio,
                        element_for_canvas_background,
                    )
                    &&& #[trigger] all_painted(
                        fragments@,
                        first,
                        old(self).compositor_info.hit_test_info@,
                        builder_items(old(self).wr),
                        last,
                        final(self).compositor_info.hit_test_info@,
                        builder_items(final(self).wr),
                    )
                    &&& last.iframe_sizes == out.0
                    &&& last.is_contentful == out.1
                },
    {
        let mut state = PaintState {
            current_scroll_node_id: self.compositor_info.root_scroll_node_id,
            current_clip_id: root_clip(self.pipeline_id),
            element_for_canvas_background,
            device_pixel_ratio,
            iframe_sizes: no_iframe_sizes(),
            is_contentful: false,
        };
        let ghost first = state;
        let mut i: usize = 0;
        while i < fragments.len()
            invariant
                i <= fragments@.len(),
                device_pixel_ratio.wf(),
                state.device_pixel_ratio == device_pixel_ratio,
                forall|k: int| 0 <= k < fragments@.len() ==> (#[trigger] fragments@[k]).fragment.wf(),
                state.is_contentful == any_paints_content(fragments@.take(i as int)),
                self.pipeline_id == old(self).pipeline_id,
                self.compositor_info.scroll_tree == old(self).compositor_info.scroll_tree,
                all_painted(
                    fragments@.take(i as int),
                    first,
                    old(self).compositor_info.hit_test_info@,
                    builder_items(old(self).wr),
                    state,
                    self.compositor_info.hit_test_info@,
                    builder_items(self.wr),
                ),
            decreases fragments@.len() - i,
        {
            let f = &fragments[i];
            let ghost sm = state;
            let ghost hm = self.compositor_info.hit_test_info@;
            let ghost im = builder_items(self.wr);
            state.current_scroll_node_id = f.scroll_node_id;
            state.current_clip_id = f.clip_id;
            assert(state == entered(sm, *f));
            f.fragment.build_display_list(&mut state, self, &f.containing_block, f.section);
            proof {
                let next = fragments@.take(i + 1);
                let before = fragments@.take(i as int);
                assert(next.drop_last() =~= before);
                assert(next.last() == fragments@[i as int]);
                assert(next.last().fragment.painted(
                    next.last().containing_block,
                    next.last().section,
                    entered(sm, next.last()),
                    hm,
                    im,
                    state,
                    self.compositor_info.hit_test_info@,
                    builder_items(self.wr),
                ));
                if any_paints_content(before) {
                    let w = choose|w: int|
                        0 <= w < before.len() && (#[trigger] before[w]).fragment.paints_content();
                    assert(next[w].fragment.paints_content());
                }
                if f.fragment.paints_content() {
                    assert(next[i as int].fragment.paints_content());
                }
                if any_paints_content(next) {
                    let w = choose|w: int|
                        0 <= w < next.len() && (#[trigger] next[w]).fragment.paints_content();
                    if w < i {
                        assert(before[w].fragment.paints_content());
                    }
                }
            }
            i += 1;
        }
        proof {
            assert(fragments@.take(i as int) =~= fragments@);
        }
        let ghost last = state;
        let out = (state.iframe_sizes, state.is_contentful);
        assert(last.iframe_sizes == out.0);
        out
    }
}

} // verus!
