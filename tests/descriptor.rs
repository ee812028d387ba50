use color_overlay::descriptor::{
    buffer_format, BufferFormat, Descriptor, DescriptorHeap, Pool, PoolLayout, ResourceViews,
    RoleViews, FORMAT_R32_TYPELESS, FORMAT_UNKNOWN,
};

fn heap() -> DescriptorHeap {
    DescriptorHeap::new(
        PoolLayout { cpu_start: 0x1000, gpu_start: 0x8000_0000, stride: 32 },
        0x4000,
        PoolLayout { cpu_start: 0x9000, gpu_start: 0, stride: 64 },
        PoolLayout { cpu_start: 0xA000, gpu_start: 0, stride: 16 },
    )
}

#[test]
fn capacities_of_the_pools() {
    assert_eq!(Pool::ShaderVisible.capacity(), 64);
    assert_eq!(Pool::NonShaderVisible.capacity(), 64);
    assert_eq!(Pool::RenderTarget.capacity(), 2);
    assert_eq!(Pool::DepthStencil.capacity(), 1);
}

#[test]
fn adjacent_slots_differ_by_one_stride() {
    let h = heap();
    for (pool, stride) in [
        (Pool::ShaderVisible, 32usize),
        (Pool::NonShaderVisible, 32),
        (Pool::RenderTarget, 64),
    ] {
        for i in 0..pool.capacity() - 1 {
            let a = h.descriptor(pool, i);
            let b = h.descriptor(pool, i + 1);
            assert_eq!(b.cpu - a.cpu, stride);
            if pool == Pool::ShaderVisible {
                assert_eq!(b.gpu - a.gpu, stride as u64);
            } else {
                assert_eq!(a.gpu, 0);
            }
        }
    }
    assert_eq!(h.descriptor(Pool::ShaderVisible, 3), Descriptor { cpu: 0x1000 + 96, gpu: 0x8000_0000 + 96 });
    assert_eq!(h.descriptor(Pool::DepthStencil, 0), Descriptor { cpu: 0xA000, gpu: 0 });
}

#[test]
fn first_allocation_skips_the_capture_slot() {
    let mut h = heap();
    let mut r = ResourceViews::new();
    let d = h.create_srv(&mut r);
    assert_eq!(d, h.descriptor(Pool::ShaderVisible, 1));
    assert_eq!(r.srv(), Some(d));
    let mut capture = ResourceViews::new();
    let c = h.create_srv_at(0, &mut capture);
    assert_eq!(c, Descriptor { cpu: 0x1000, gpu: 0x8000_0000 });
    let next = h.create_uav(&mut r);
    assert_eq!(next, h.descriptor(Pool::ShaderVisible, 2));
    assert_eq!(r.uav(), Some(next));
}

#[test]
fn uav_to_clear_takes_one_slot_of_each_pool() {
    let mut h = heap();
    let mut r = ResourceViews::new();
    let (gpu_view, cpu_view, desc) = h.create_uav_to_clear(&mut r, 16777216, 0);
    assert_eq!(gpu_view, Descriptor { cpu: 0x1000 + 32, gpu: 0x8000_0000 + 32 });
    assert_eq!(cpu_view, Descriptor { cpu: 0x4000, gpu: 0 });
    assert_eq!(desc.format, BufferFormat { format: FORMAT_R32_TYPELESS, stride: 0, raw: true });
    assert_eq!(desc.num_elements, 16777216);
    assert_eq!(desc.counter_offset, None);
    assert_eq!(r.uav_to_clear(), Some((gpu_view, cpu_view)));
    assert_eq!(r.role, RoleViews::ClearableUav { shader_visible: gpu_view, non_shader_visible: cpu_view });
    let (gpu2, cpu2, desc2) = h.create_uav_to_clear(&mut r, 1, 2048);
    assert_eq!(gpu2.cpu - gpu_view.cpu, 32);
    assert_eq!(cpu2.cpu - cpu_view.cpu, 32);
    assert_eq!(desc2.first_element, 2048);
}

#[test]
fn buffer_format_rules() {
    assert_eq!(buffer_format(Some(42), Some(16)), BufferFormat { format: 42, stride: 0, raw: false });
    assert_eq!(buffer_format(None, Some(16)), BufferFormat { format: FORMAT_UNKNOWN, stride: 16, raw: false });
    assert_eq!(buffer_format(None, None), BufferFormat { format: FORMAT_R32_TYPELESS, stride: 0, raw: true });
}

#[test]
fn buffer_views_carry_their_descriptions() {
    let mut h = heap();
    let mut r = ResourceViews::new();
    let (srv, sdesc) = h.create_srv_buffer(&mut r, Some(42), None, 256);
    assert_eq!(sdesc.num_elements, 256);
    assert_eq!(sdesc.first_element, 0);
    assert_eq!(sdesc.format.format, 42);
    let (uav, udesc) = h.create_uav_buffer(&mut r, None, Some(16), 512, None, Some(8192));
    assert_eq!(uav.cpu - srv.cpu, 32);
    assert_eq!(udesc.counter_offset, Some(8192));
    assert_eq!(udesc.first_element, 0);
    assert_eq!(udesc.format, BufferFormat { format: FORMAT_UNKNOWN, stride: 16, raw: false });
    let (_, udesc2) = h.create_uav_buffer(&mut r, Some(42), None, 4, Some(9), None);
    assert_eq!(udesc2.first_element, 9);
    assert_eq!(r.srv(), Some(srv));
}

#[test]
fn render_target_and_depth_views() {
    let mut h = heap();
    let mut b0 = ResourceViews::new();
    let mut b1 = ResourceViews::new();
    let r0 = h.create_rtv(&mut b0, 0);
    let r1 = h.create_rtv(&mut b1, 1);
    assert_eq!(r0.cpu, 0x9000);
    assert_eq!(r1.cpu, 0x9000 + 64);
    assert_eq!(b1.rtv(), Some(r1));
    assert_eq!(b1.dsv(), None);
    let mut depth = ResourceViews::new();
    let d = h.create_dsv(&mut depth);
    assert_eq!(d.cpu, 0xA000);
    assert_eq!(depth.dsv(), Some(d));
}

#[test]
fn shader_visible_pool_hands_out_all_its_slots() {
    let mut h = heap();
    let mut last = Descriptor::default();
    for _ in 1..64 {
        let mut r = ResourceViews::new();
        last = h.create_srv(&mut r);
    }
    assert_eq!(last, h.descriptor(Pool::ShaderVisible, 63));
}
