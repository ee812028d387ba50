//! The descriptor heap: four fixed-capacity pools of view slots, each slot at
//! `heap_base + index * descriptor_stride`.
use vstd::prelude::*;
use crate::swapchain::BUFFER_COUNT;

verus! {

/// Slots in each of the two shader-resource pools.
pub const MAX_DESCRIPTORS: u32 = 64;

/// The format code of a view whose element type the buffer does not fix.
pub const FORMAT_UNKNOWN: i32 = 0;

/// The format code of a raw, 32-bit typeless buffer view.
pub const FORMAT_R32_TYPELESS: i32 = 39;

/// A view handle: its CPU address, and its GPU address where the pool is
/// shader-visible (zero elsewhere).
#[derive(Clone, Copy, PartialEq, Eq, Structural, Debug, Default)]
pub struct Descriptor {
    pub cpu: usize,
    pub gpu: u64,
}

/// The four slot pools of the heap.
#[derive(Clone, Copy, PartialEq, Eq, Structural, Debug)]
pub enum Pool {
    /// Bindable by shaders; slot 0 is kept for the capture surface.
    ShaderVisible,
    /// CPU-only staging views.
    NonShaderVisible,
    /// Render-target views, one per swap-chain buffer.
    RenderTarget,
    /// The depth-stencil view.
    DepthStencil,
}

impl Pool {
    pub open spec fn spec_capacity(self) -> u32 {
        match self {
            Pool::ShaderVisible => MAX_DESCRIPTORS,
            Pool::NonShaderVisible => MAX_DESCRIPTORS,
            Pool::RenderTarget => BUFFER_COUNT,
            Pool::DepthStencil => 1,
        }
    }

    /// The number of slots in this pool.
    pub fn capacity(&self) -> (r: u32)
        ensures
            r == self.spec_capacity(),
    {
        match *self {
            Pool::ShaderVisible => MAX_DESCRIPTORS,
            Pool::NonShaderVisible => MAX_DESCRIPTORS,
            Pool::RenderTarget => BUFFER_COUNT,
            Pool::DepthStencil => 1,
        }
    }
}

/// Where a pool starts, and how far apart its slots are.
#[derive(Clone, Copy, PartialEq, Eq, Structural, Debug)]
pub struct PoolLayout {
    /// The CPU address of slot 0.
    pub cpu_start: usize,
    /// The GPU address of slot 0; read only for the shader-visible pool.
    pub gpu_start: u64,
    /// The distance between neighbouring slots, fixed for the pool's kind.
    pub stride: u32,
}

impl PoolLayout {
    /// Every slot of a pool of `capacity` slots has an address that fits.
    pub open spec fn fits(self, capacity: u32) -> bool {
        &&& self.cpu_start + capacity * self.stride <= usize::MAX
        &&& self.gpu_start + capacity * self.stride <= u64::MAX
    }
}

/// A buffer view's element format: a typed format, a structured stride, or
/// raw 32-bit words when neither is given.
#[derive(Clone, Copy, PartialEq, Eq, Structural, Debug)]
pub struct BufferFormat {
    pub format: i32,
    pub stride: u32,
    pub raw: bool,
}

/// The element format of a buffer view: a given format wins; else a given
/// stride makes a structured view; else the view is raw.
pub open spec fn spec_buffer_format(format: Option<i32>, stride: Option<u32>) -> BufferFormat {
    match (format, stride) {
        (Some(f), _) => BufferFormat { format: f, stride: 0, raw: false },
        (None, Some(s)) => BufferFormat { format: FORMAT_UNKNOWN, stride: s, raw: false },
        (None, None) => BufferFormat { format: FORMAT_R32_TYPELESS, stride: 0, raw: true },
    }
}

pub fn buffer_format(format: Option<i32>, stride: Option<u32>) -> (r: BufferFormat)
    ensures
        r == spec_buffer_format(format, stride),
{
    match (format, stride) {
        (Some(format), _) => BufferFormat { format, stride: 0, raw: false },
        (None, Some(stride)) => BufferFormat { format: FORMAT_UNKNOWN, stride, raw: false },
        (None, None) => BufferFormat { format: FORMAT_R32_TYPELESS, stride: 0, raw: true },
    }
}

/// The description of a buffer's shader-read view.
#[derive(Clone, Copy, PartialEq, Eq, Structural, Debug)]
pub struct BufferSrvDesc {
    pub format: BufferFormat,
    pub first_element: u64,
    pub num_elements: u32,
}

/// The description of a buffer's shader-write view, with the byte offset of
/// its append counter where it has one.
#[derive(Clone, Copy, PartialEq, Eq, Structural, Debug)]
pub struct BufferUavDesc {
    pub format: BufferFormat,
    pub first_element: u64,
    pub num_elements: u32,
    pub counter_offset: Option<u64>,
}

/// The views of a resource that its role overloads: render-target and
/// depth-stencil views for presentation buffers, a pair of views for a
/// shader-write view that is cleared by value.
#[derive(Clone, Copy, PartialEq, Eq, Structural, Debug)]
pub enum RoleViews {
    Unset,
    RenderTarget(Descriptor),
    DepthStencil(Descriptor),
    ClearableUav { shader_visible: Descriptor, non_shader_visible: Descriptor },
}

/// The view handles recorded for one GPU resource.
#[derive(Clone, Copy, PartialEq, Eq, Structural, Debug)]
pub struct ResourceViews {
    pub srv: Option<Descriptor>,
    pub uav: Option<Descriptor>,
    pub role: RoleViews,
}

impl ResourceViews {
    pub open spec fn rtv_spec(self) -> Option<Descriptor> {
        match self.role {
            RoleViews::RenderTarget(d) => Some(d),
            _ => None,
        }
    }

    pub open spec fn dsv_spec(self) -> Option<Descriptor> {
        match self.role {
            RoleViews::DepthStencil(d) => Some(d),
            _ => None,
        }
    }

    /// A resource with no views yet.
    pub fn new() -> (r: Self)
        ensures
            r == (ResourceViews { srv: None, uav: None, role: RoleViews::Unset }),
    {
        ResourceViews { srv: None, uav: None, role: RoleViews::Unset }
    }

    pub fn srv(&self) -> (r: Option<Descriptor>)
        ensures
            r == self.srv,
    {
        self.srv
    }

    pub fn uav(&self) -> (r: Option<Descriptor>)
        ensures
            r == self.uav,
    {
        self.uav
    }

    pub fn rtv(&self) -> (r: Option<Descriptor>)
        ensures
            r == self.rtv_spec(),
    {
        match self.role {
            RoleViews::RenderTarget(d) => Some(d),
            _ => None,
        }
    }

    pub fn dsv(&self) -> (r: Option<Descriptor>)
        ensures
            r == self.dsv_spec(),
    {
        match self.role {
            RoleViews::DepthStencil(d) => Some(d),
            _ => None,
        }
    }

    /// The shader-visible and the CPU-only view used to clear the buffer.
    pub fn uav_to_clear(&self) -> (r: Option<(Descriptor, Descriptor)>)
        ensures
            r == (match self.role {
                RoleViews::ClearableUav { shader_visible, non_shader_visible } => Some(
                    (shader_visible, non_shader_visible),
                ),
                _ => None,
            }),
    {
        match self.role {
            RoleViews::ClearableUav { shader_visible, non_shader_visible } => Some(
                (shader_visible, non_shader_visible),
            ),
            _ => None,
        }
    }
}

/// The slot allocator over the four pools. The shader-visible and the
/// CPU-only pool hand out slots in order from a cursor; render-target and
/// depth-stencil slots are addressed by index.
pub struct DescriptorHeap {
    shader_visible: PoolLayout,
    non_shader_visible: PoolLayout,
    rtv: PoolLayout,
    dsv: PoolLayout,
    num_shader_visibles: u32,
    num_non_shader_visibles: u32,
}

impl DescriptorHeap {
    pub closed spec fn layout(&self, pool: Pool) -> PoolLayout {
        match pool {
            Pool::ShaderVisible => self.shader_visible,
            Pool::NonShaderVisible => self.non_shader_visible,
            Pool::RenderTarget => self.rtv,
            Pool::DepthStencil => self.dsv,
        }
    }

    /// The number of slots that the shader-visible pool has handed out,
    /// the reserved slot 0 included.
    pub closed spec fn shader_visible_cursor(&self) -> u32 {
        self.num_shader_visibles
    }

    /// The number of slots that the CPU-only pool has handed out.
    pub closed spec fn non_shader_visible_cursor(&self) -> u32 {
        self.num_non_shader_visibles
    }

    /// Every pool's slots have addresses that fit, the two shader-resource
    /// pools share one stride, and no cursor is past its pool's capacity.
    pub closed spec fn wf(&self) -> bool {
        &&& self.shader_visible.fits(MAX_DESCRIPTORS)
        &&& self.non_shader_visible.fits(MAX_DESCRIPTORS)
        &&& self.rtv.fits(BUFFER_COUNT)
        &&& self.dsv.fits(1)
        &&& self.shader_visible.stride == self.non_shader_visible.stride
        &&& 1 <= self.num_shader_visibles <= MAX_DESCRIPTORS
        &&& self.num_non_shader_visibles <= MAX_DESCRIPTORS
    }

    /// The handle of slot `index` of `pool`.
    pub open spec fn spec_descriptor(&self, pool: Pool, index: u32) -> Descriptor {
        let l = self.layout(pool);
        Descriptor {
            cpu: (l.cpu_start + index * l.stride) as usize,
            gpu: if pool is ShaderVisible {
                (l.gpu_start + index * l.stride) as u64
            } else {
                0
            },
        }
    }

    /// Whether `pool` has a slot left to hand out from its cursor.
    pub open spec fn can_allocate(&self, pool: Pool) -> bool {
        match pool {
            Pool::ShaderVisible => self.shader_visible_cursor() < MAX_DESCRIPTORS,
            Pool::NonShaderVisible => self.non_shader_visible_cursor() < MAX_DESCRIPTORS,
            _ => false,
        }
    }

    /// A heap over pools laid out as given. The CPU-only pool shares the
    /// shader-visible pool's stride; slot 0 of the shader-visible pool is
    /// kept for the capture surface.
    pub fn new(
        shader_visible: PoolLayout,
        non_shader_visible_start: usize,
        rtv: PoolLayout,
        dsv: PoolLayout,
    ) -> (r: Self)
        requires
            shader_visible.fits(MAX_DESCRIPTORS),
            non_shader_visible_start + MAX_DESCRIPTORS * shader_visible.stride <= usize::MAX,
            rtv.fits(BUFFER_COUNT),
            dsv.fits(1),
        ensures
            r.wf(),
            r.layout(Pool::ShaderVisible) == shader_visible,
            r.layout(Pool::NonShaderVisible) == (PoolLayout {
                cpu_start: non_shader_visible_start,
                gpu_start: 0,
                stride: shader_visible.stride,
            }),
            r.layout(Pool::RenderTarget) == rtv,
            r.layout(Pool::DepthStencil) == dsv,
            r.shader_visible_cursor() == 1,
            r.non_shader_visible_cursor() == 0,
    {
        DescriptorHeap {
            shader_visible,
            non_shader_visible: PoolLayout {
                cpu_start: non_shader_visible_start,
                gpu_start: 0,
                stride: shader_visible.stride,
            },
            rtv,
            dsv,
            num_shader_visibles: 1,
            num_non_shader_visibles: 0,
        }
    }

    /// Whether `pool` has a slot left to hand out from its cursor.
    pub fn has_free_slot(&self, pool: Pool) -> (r: bool)
        ensures
            r == self.can_allocate(pool),
    {
        match pool {
            Pool::ShaderVisible => self.num_shader_visibles < MAX_DESCRIPTORS,
            Pool::NonShaderVisible => self.num_non_shader_visibles < MAX_DESCRIPTORS,
            _ => false,
        }
    }

    fn layout_of(&self, pool: Pool) -> (r: PoolLayout)
        ensures
            r == self.layout(pool),
    {
        match pool {
            Pool::ShaderVisible => self.shader_visible,
            Pool::NonShaderVisible => self.non_shader_visible,
            Pool::RenderTarget => self.rtv,
            Pool::DepthStencil => self.dsv,
        }
    }

    /// The handle of slot `index` of `pool`.
    pub fn descriptor(&self, pool: Pool, index: u32) -> (r: Descriptor)
        requires
            self.wf(),
            index < pool.spec_capacity(),
        ensures
            r == self.spec_descriptor(pool, index),
    {
        let l = self.layout_of(pool);
        proof {
            let cap = pool.spec_capacity();
            assert(index * l.stride <= cap * l.stride) by (nonlinear_arith)
                requires index < cap;
        }
        let offset = index as u64 * l.stride as u64;
        let cpu = l.cpu_start + offset as usize;
        let gpu = match pool {
            Pool::ShaderVisible => l.gpu_start + offset,
            _ => 0,
        };
        Descriptor { cpu, gpu }
    }

    fn next_shader_visible(&mut self) -> (r: Descriptor)
        requires
            old(self).wf(),
            old(self).can_allocate(Pool::ShaderVisible),
        ensures
            final(self).wf(),
            r == old(self).spec_descriptor(Pool::ShaderVisible, old(self).shader_visible_cursor()),
            final(self).shader_visible_cursor() == old(self).shader_visible_cursor() + 1,
            final(self).non_shader_visible_cursor() == old(self).non_shader_visible_cursor(),
            forall|p: Pool| final(self).layout(p) == old(self).layout(p),
    {
        let d = self.descriptor(Pool::ShaderVisible, self.num_shader_visibles);
        self.num_shader_visibles = self.num_shader_visibles + 1;
        d
    }

    fn next_non_shader_visible(&mut self) -> (r: Descriptor)
        requires
            old(self).wf(),
            old(self).can_allocate(Pool::NonShaderVisible),
        ensures
            final(self).wf(),
            r == old(self).spec_descriptor(
                Pool::NonShaderVisible,
                old(self).non_shader_visible_cursor(),
            ),
            final(self).shader_visible_cursor() == old(self).shader_visible_cursor(),
            final(self).non_shader_visible_cursor() == old(self).non_shader_visible_cursor() + 1,
            forall|p: Pool| final(self).layout(p) == old(self).layout(p),
    {
        let d = self.descriptor(Pool::NonShaderVisible, self.num_non_shader_visibles);
        self.num_non_shader_visibles = self.num_non_shader_visibles + 1;
        d
    }
    /// Records a shader-read view of `resource` at slot `index` of the
    /// shader-visible pool, without moving the cursor (slot 0 holds the
    /// capture surface's view).
    pub fn create_srv_at(&mut self, index: u32, resource: &mut ResourceViews) -> (r: Descriptor)
        requires
            old(self).wf(),
            index < MAX_DESCRIPTORS,
        ensures
            *final(self) == *old(self),
            r == old(self).spec_descriptor(Pool::ShaderVisible, index),
            *final(resource) == (ResourceViews { srv: Some(r), ..*old(resource) }),
    {
        let d = self.descriptor(Pool::ShaderVisible, index);
        resource.srv = Some(d);
        d
    }

    /// Records a shader-read view of `resource` in the next shader-visible
    /// slot.
    pub fn create_srv(&mut self, resource: &mut ResourceViews) -> (r: Descriptor)
        requires
            old(self).wf(),
            old(self).can_allocate(Pool::ShaderVisible),
        ensures
            final(self).wf(),
            r == old(self).spec_descriptor(Pool::ShaderVisible, old(self).shader_visible_cursor()),
            final(self).shader_visible_cursor() == old(self).shader_visible_cursor() + 1,
            final(self).non_shader_visible_cursor() == old(self).non_shader_visible_cursor(),
            forall|p: Pool| final(self).layout(p) == old(self).layout(p),
            *final(resource) == (ResourceViews { srv: Some(r), ..*old(resource) }),
    {
        let d = self.next_shader_visible();
        resource.srv = Some(d);
        d
    }

    /// Records a shader-read view of `num` elements of the buffer `resource`
    /// in the next shader-visible slot, and returns the view's description.
    pub fn create_srv_buffer(
        &mut self,
        resource: &mut ResourceViews,
        format: Option<i32>,
        stride: Option<u32>,
        num: u32,
    ) -> (r: (Descriptor, BufferSrvDesc))
        requires
            old(self).wf(),
            old(self).can_allocate(Pool::ShaderVisible),
        ensures
            final(self).wf(),
            r.0 == old(self).spec_descriptor(
                Pool::ShaderVisible,
                old(self).shader_visible_cursor(),
            ),
            r.1 == (BufferSrvDesc {
                format: spec_buffer_format(format, stride),
                first_element: 0,
                num_elements: num,
            }),
            final(self).shader_visible_cursor() == old(self).shader_visible_cursor() + 1,
            final(self).non_shader_visible_cursor() == old(self).non_shader_visible_cursor(),
            forall|p: Pool| final(self).layout(p) == old(self).layout(p),
            *final(resource) == (ResourceViews { srv: Some(r.0), ..*old(resource) }),
    {
        let desc = BufferSrvDesc {
            format: buffer_format(format, stride),
            first_element: 0,
            num_elements: num,
        };
        let d = self.create_srv(resource);
        (d, desc)
    }

    /// Records a shader-write view of `resource` in the next shader-visible
    /// slot.
    pub fn create_uav(&mut self, resource: &mut ResourceViews) -> (r: Descriptor)
        requires
            old(self).wf(),
            old(self).can_allocate(Pool::ShaderVisible),
        ensures
            final(self).wf(),
            r == old(self).spec_descriptor(Pool::ShaderVisible, old(self).shader_visible_cursor()),
            final(self).shader_visible_cursor() == old(self).shader_visible_cursor() + 1,
            final(self).non_shader_visible_cursor() == old(self).non_shader_visible_cursor(),
            forall|p: Pool| final(self).layout(p) == old(self).layout(p),
            *final(resource) == (ResourceViews { uav: Some(r), ..*old(resource) }),
    {
        let d = self.next_shader_visible();
        resource.uav = Some(d);
        d
    }

    /// Records a shader-write view of `num` elements of the buffer
    /// `resource`, from `first_elem` (or the start), with an append counter at
    /// `counter_offset` where one is given; returns the view's description.
    pub fn create_uav_buffer(
        &mut self,
        resource: &mut ResourceViews,
        format: Option<i32>,
        stride: Option<u32>,
        num: u32,
        first_elem: Option<u64>,
        counter_offset: Option<u64>,
    ) -> (r: (Descriptor, BufferUavDesc))
        requires
            old(self).wf(),
            old(self).can_allocate(Pool::ShaderVisible),
        ensures
            final(self).wf(),
            r.0 == old(self).spec_descriptor(
                Pool::ShaderVisible,
                old(self).shader_visible_cursor(),
            ),
            r.1 == (BufferUavDesc {
                format: spec_buffer_format(format, stride),
                first_element: match first_elem {
                    Some(e) => e,
                    None => 0,
                },
                num_elements: num,
                counter_offset,
            }),
            final(self).shader_visible_cursor() == old(self).shader_visible_cursor() + 1,
            final(self).non_shader_visible_cursor() == old(self).non_shader_visible_cursor(),
            forall|p: Pool| final(self).layout(p) == old(self).layout(p),
            *final(resource) == (ResourceViews { uav: Some(r.0), ..*old(resource) }),
    {
        let first_element = match first_elem {
            Some(e) => e,
            None => 0,
        };
        let desc = BufferUavDesc {
            format: buffer_format(format, stride),
            first_element,
            num_elements: num,
            counter_offset,
        };
        let d = self.create_uav(resource);
        (d, desc)
    }

    /// Records the pair of views through which `num` raw words of `resource`
    /// from word `offset` are cleared by value: one in the next
    /// shader-visible slot, one in the next CPU-only slot.
    pub fn create_uav_to_clear(&mut self, resource: &mut ResourceViews, num: u32, offset: u64) -> (r:
        (Descriptor, Descriptor, BufferUavDesc))
        requires
            old(self).wf(),
            old(self).can_allocate(Pool::ShaderVisible),
            old(self).can_allocate(Pool::NonShaderVisible),
        ensures
            final(self).wf(),
            r.0 == old(self).spec_descriptor(
                Pool::ShaderVisible,
                old(self).shader_visible_cursor(),
            ),
            r.1 == old(self).spec_descriptor(
                Pool::NonShaderVisible,
                old(self).non_shader_visible_cursor(),
            ),
            r.2 == (BufferUavDesc {
                format: spec_buffer_format(None, None),
                first_element: offset,
                num_elements: num,
                counter_offset: None,
            }),
            final(self).shader_visible_cursor() == old(self).shader_visible_cursor() + 1,
            final(self).non_shader_visible_cursor() == old(self).non_shader_visible_cursor() + 1,
            forall|p: Pool| final(self).layout(p) == old(self).layout(p),
            *final(resource) == (ResourceViews {
                role: RoleViews::ClearableUav { shader_visible: r.0, non_shader_visible: r.1 },
                ..*old(resource)
            }),
    {
        let shader_visible = self.next_shader_visible();
        let non_shader_visible = self.next_non_shader_visible();
        let desc = BufferUavDesc {
            format: buffer_format(None, None),
            first_element: offset,
            num_elements: num,
            counter_offset: None,
        };
        resource.role = RoleViews::ClearableUav { shader_visible, non_shader_visible };
        (shader_visible, non_shader_visible, desc)
    }

    /// Records the render-target view of swap-chain buffer `index`.
    pub fn create_rtv(&mut self, resource: &mut ResourceViews, index: u32) -> (r: Descriptor)
        requires
            old(self).wf(),
            index < BUFFER_COUNT,
        ensures
            *final(self) == *old(self),
            r == old(self).spec_descriptor(Pool::RenderTarget, index),
            *final(resource) == (ResourceViews {
                role: RoleViews::RenderTarget(r),
                ..*old(resource)
            }),
    {
        let d = self.descriptor(Pool::RenderTarget, index);
        resource.role = RoleViews::RenderTarget(d);
        d
    }

    /// Records the depth-stencil view, in the pool's one slot.
    pub fn create_dsv(&mut self, resource: &mut ResourceViews) -> (r: Descriptor)
        requires
            old(self).wf(),
        ensures
            *final(self) == *old(self),
            r == old(self).spec_descriptor(Pool::DepthStencil, 0),
            *final(resource) == (ResourceViews {
                role: RoleViews::DepthStencil(r),
                ..*old(resource)
            }),
    {
        let d = self.descriptor(Pool::DepthStencil, 0);
        resource.role = RoleViews::DepthStencil(d);
        d
    }
}

/// Neighbouring slots of one pool lie exactly one stride of that pool apart,
/// on the CPU side and, for the shader-visible pool, on the GPU side.
pub proof fn lemma_adjacent_slots(heap: &DescriptorHeap, pool: Pool, i: u32)
    requires
        heap.wf(),
        i + 1 < pool.spec_capacity(),
    ensures
        heap.spec_descriptor(pool, (i + 1) as u32).cpu - heap.spec_descriptor(pool, i).cpu
            == heap.layout(pool).stride,
        pool is ShaderVisible ==> heap.spec_descriptor(pool, (i + 1) as u32).gpu
            - heap.spec_descriptor(pool, i).gpu == heap.layout(pool).stride,
{
    let l = heap.layout(pool);
    let cap = pool.spec_capacity();
    assert((i + 1) * l.stride <= cap * l.stride) by (nonlinear_arith)
        requires i + 1 < cap;
    assert((i + 1) * l.stride == i * l.stride + l.stride) by (nonlinear_arith);
}

/// A pool that has handed out all its slots hands out no more: allocating
/// one slot past a pool's capacity is refused (the allocating operations
/// require `can_allocate`), and no cursor ever passes its capacity.
pub proof fn lemma_pool_exhausted(heap: &DescriptorHeap, pool: Pool)
    requires
        heap.wf(),
    ensures
        pool is ShaderVisible && heap.shader_visible_cursor() == MAX_DESCRIPTORS
            ==> !heap.can_allocate(pool),
        pool is NonShaderVisible && heap.non_shader_visible_cursor() == MAX_DESCRIPTORS
            ==> !heap.can_allocate(pool),
        heap.shader_visible_cursor() <= MAX_DESCRIPTORS,
        heap.non_shader_visible_cursor() <= MAX_DESCRIPTORS,
{
}

} // verus!
