//! Sprite atlas layouts and the pure resolver from a frame index to the
//! pixel sub-rectangle to display.

use vstd::prelude::*;

verus! {

/// A pixel-space sub-rectangle of an atlas texture: the bounding box of one
/// frame, given by its min and max corners.
#[derive(Clone, Copy, Debug, PartialEq, Eq, Structural)]
pub struct FrameRect {
    pub min_x: u32,
    pub min_y: u32,
    pub max_x: u32,
    pub max_y: u32,
}

/// The `i`th cell of a single-row grid of `cell_width` by `cell_height`
/// pixel frames.
pub open spec fn grid_frame(cell_width: u32, cell_height: u32, i: int) -> FrameRect {
    FrameRect {
        min_x: (i * cell_width) as u32,
        min_y: 0,
        max_x: ((i + 1) * cell_width) as u32,
        max_y: cell_height,
    }
}

/// An ordered sequence of frame sub-rectangles, one per frame index.
pub struct AtlasLayout {
    pub frames: Vec<FrameRect>,
}

impl AtlasLayout {
    /// Build the layout of a single-row atlas: `frame_count` equally sized
    /// cells laid out left to right, each `cell_width` by `cell_height`
    /// pixels.
    pub fn from_grid(cell_width: u32, cell_height: u32, frame_count: u32) -> (r: AtlasLayout)
        requires
            frame_count * cell_width <= u32::MAX,
        ensures
            r.frames@.len() == frame_count,
            forall|i: int|
                0 <= i < frame_count ==> #[trigger] r.frames@[i] == grid_frame(
                    cell_width,
                    cell_height,
                    i,
                ),
    {
        let mut frames: Vec<FrameRect> = Vec::new();
        let mut i: u32 = 0;
        while i < frame_count
            invariant
                i <= frame_count,
                frame_count * cell_width <= u32::MAX,
                frames@.len() == i,
                forall|j: int|
                    0 <= j < i ==> #[trigger] frames@[j] == grid_frame(cell_width, cell_height, j),
            decreases frame_count - i,
        {
            proof {
                assert((i + 1) * cell_width <= frame_count * cell_width) by (nonlinear_arith)
                    requires
                        i < frame_count,
                        cell_width >= 0,
                ;
                assert(i * cell_width <= (i + 1) * cell_width) by (nonlinear_arith)
                    requires
                        i >= 0,
                        cell_width >= 0,
                ;
                assert((i + 1) * cell_width == i * cell_width + cell_width) by (nonlinear_arith);
            }
            let min_x = i * cell_width;
            let max_x = min_x + cell_width;
            frames.push(FrameRect { min_x, min_y: 0, max_x, max_y: cell_height });
            i = i + 1;
        }
        AtlasLayout { frames }
    }

    /// How many frames the layout declares.
    pub fn frame_count(&self) -> (r: usize)
        ensures
            r == self.frames@.len(),
    {
        self.frames.len()
    }
}

/// Resolve the sub-rectangle at a frame index. Returns `None` exactly when
/// the index lies outside the layout's declared range, which can only
/// happen when a playback configuration and its atlas layout disagree; the
/// caller then keeps its previous rectangle instead of crashing the tick.
pub fn resolve_rect(layout: &AtlasLayout, index: u32) -> (r: Option<FrameRect>)
    ensures
        index < layout.frames@.len() ==> r == Some(layout.frames@[index as int]),
        index >= layout.frames@.len() ==> r is None,
{
    if (index as usize) < layout.frames.len() {
        Some(layout.frames[index as usize])
    } else {
        None
    }
}

/// The startup-built collection of atlas layouts, addressed by the handles
/// that `add` returned. It stands for the asset store that owns the decoded
/// atlas descriptions; the layouts themselves are plain data.
pub struct AtlasStore {
    layouts: Vec<AtlasLayout>,
}

impl AtlasStore {
    /// The frame sequence stored under a handle, if the handle is live.
    pub closed spec fn spec_layout(self, handle: int) -> Option<Seq<FrameRect>> {
        if 0 <= handle < self.layouts@.len() {
            Some(self.layouts@[handle].frames@)
        } else {
            None
        }
    }

    pub fn new() -> (r: Self)
        ensures
            forall|h: int| #[trigger] r.spec_layout(h) is None,
    {
        AtlasStore { layouts: Vec::new() }
    }

    /// Store a layout and hand back its handle. Handles already given out
    /// keep addressing the same layouts.
    pub fn add(&mut self, layout: AtlasLayout) -> (handle: usize)
        ensures
            old(self).spec_layout(handle as int) is None,
            final(self).spec_layout(handle as int) == Some(layout.frames@),
            forall|h: int|
                h != handle ==> #[trigger] final(self).spec_layout(h) == old(self).spec_layout(h),
    {
        let handle = self.layouts.len();
        self.layouts.push(layout);
        handle
    }

    /// Fetch the layout behind a handle; `None` for a handle never returned
    /// by `add`.
    pub fn get(&self, handle: usize) -> (r: Option<&AtlasLayout>)
        ensures
            match r {
                Some(layout) => self.spec_layout(handle as int) == Some(layout.frames@),
                None => self.spec_layout(handle as int) is None,
            },
    {
        if handle < self.layouts.len() {
            Some(&self.layouts[handle])
        } else {
            None
        }
    }
}

} // verus!
