//! The double-buffered presentation surface: its buffer-dependent views and
//! the rule that a resize to the current size reallocates nothing.
use vstd::prelude::*;
use crate::descriptor::{Descriptor, DescriptorHeap, Pool, ResourceViews};

verus! {

/// Buffers of the swap chain.
pub const BUFFER_COUNT: u32 = 2;

/// Whether a resize to `width` × `height` must reallocate, given the size of
/// the current buffers, if there are any.
pub open spec fn spec_needs_resize(size: Option<(u32, u32)>, width: u32, height: u32) -> bool {
    size != Some((width, height))
}

/// The views that depend on the current buffers: one render-target view per
/// buffer and the shared depth buffer's view.
pub struct BufferViews {
    width: u32,
    height: u32,
    buffers: Vec<ResourceViews>,
    depth: ResourceViews,
}

/// The presentation surface's views, absent between dropping the old buffers
/// and building views of the new ones.
pub struct SwapChain {
    resources: Option<BufferViews>,
}

impl SwapChain {
    /// The size of the current buffers, if their views exist.
    pub closed spec fn size(&self) -> Option<(u32, u32)> {
        match self.resources {
            Some(r) => Some((r.width, r.height)),
            None => None,
        }
    }

    /// The render-target view of buffer `i`.
    pub closed spec fn spec_rtv(&self, i: int) -> Option<Descriptor> {
        self.resources->0.buffers@[i].rtv_spec()
    }

    /// The depth buffer's view.
    pub closed spec fn spec_dsv(&self) -> Option<Descriptor> {
        self.resources->0.depth.dsv_spec()
    }

    pub closed spec fn wf(&self) -> bool {
        self.resources is Some ==> self.resources->0.buffers@.len() == BUFFER_COUNT
    }

    /// A surface with no buffer views yet.
    pub fn new() -> (r: Self)
        ensures
            r.wf(),
            r.size() == None::<(u32, u32)>,
    {
        SwapChain { resources: None }
    }

    /// The size of the current buffers, if their views exist.
    pub fn current_size(&self) -> (r: Option<(u32, u32)>)
        ensures
            r == self.size(),
    {
        match &self.resources {
            Some(r) => Some((r.width, r.height)),
            None => None,
        }
    }

    /// Asks for buffers of `width` × `height`. Where the current buffers
    /// already have that size nothing changes and `false` comes back.
    /// Otherwise every buffer-dependent view is dropped, and `true` tells
    /// the caller to resize the buffers and then call `rebuild`.
    pub fn resize(&mut self, width: u32, height: u32) -> (r: bool)
        requires
            old(self).wf(),
        ensures
            final(self).wf(),
            r == spec_needs_resize(old(self).size(), width, height),
            !r ==> *final(self) == *old(self),
            r ==> final(self).size() == None::<(u32, u32)>,
    {
        if let Some(resources) = &self.resources {
            if resources.width == width && resources.height == height {
                return false;
            }
        }
        self.resources = None;
        true
    }

    /// Builds the views of buffers of `width` × `height`: the render-target
    /// view of buffer `i` in render-target slot `i`, and the depth view in
    /// the depth-stencil slot.
    pub fn rebuild(&mut self, heap: &mut DescriptorHeap, width: u32, height: u32)
        requires
            old(heap).wf(),
        ensures
            *final(heap) == *old(heap),
            final(self).wf(),
            final(self).size() == Some((width, height)),
            forall|i: int|
                0 <= i < BUFFER_COUNT ==> #[trigger] final(self).spec_rtv(i) == Some(
                    old(heap).spec_descriptor(Pool::RenderTarget, i as u32),
                ),
            final(self).spec_dsv() == Some(old(heap).spec_descriptor(Pool::DepthStencil, 0)),
    {
        let mut buffers: Vec<ResourceViews> = Vec::new();
        let mut i: u32 = 0;
        while i < BUFFER_COUNT
            invariant
                heap.wf(),
                *heap == *old(heap),
                i <= BUFFER_COUNT,
                buffers@.len() == i,
                forall|j: int|
                    0 <= j < i ==> #[trigger] buffers@[j].rtv_spec() == Some(
                        old(heap).spec_descriptor(Pool::RenderTarget, j as u32),
                    ),
            decreases BUFFER_COUNT - i,
        {
            let mut views = ResourceViews::new();
            heap.create_rtv(&mut views, i);
            buffers.push(views);
            i = i + 1;
        }
        let mut depth = ResourceViews::new();
        heap.create_dsv(&mut depth);
        self.resources = Some(BufferViews { width, height, buffers, depth });
    }

    /// The render-target view of buffer `index`, the one that the
    /// presentation engine has made current.
    pub fn rtv(&self, index: u32) -> (r: Option<Descriptor>)
        requires
            self.wf(),
        ensures
            r == (if self.size() is Some && index < BUFFER_COUNT {
                self.spec_rtv(index as int)
            } else {
                None
            }),
    {
        match &self.resources {
            Some(resources) => {
                if index < BUFFER_COUNT {
                    resources.buffers[index as usize].rtv()
                } else {
                    None
                }
            },
            None => None,
        }
    }

    /// The depth buffer's view.
    pub fn dsv(&self) -> (r: Option<Descriptor>)
        ensures
            r == (if self.size() is Some {
                self.spec_dsv()
            } else {
                None
            }),
    {
        match &self.resources {
            Some(resources) => resources.depth.dsv(),
            None => None,
        }
    }
}

/// A resize followed by a resize to the same size reallocates nothing the
/// second time: a surface whose views were built for `width` × `height`
/// buffers (by `rebuild`, after a first `resize`) answers a `resize` to
/// `width` × `height` with `false` and stays as it is.
pub proof fn lemma_resize_idempotent(swapchain: &SwapChain, width: u32, height: u32)
    requires
        swapchain.size() == Some((width, height)),
    ensures
        !spec_needs_resize(swapchain.size(), width, height),
{
}

} // verus!
