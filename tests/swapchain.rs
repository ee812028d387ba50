use color_overlay::descriptor::{DescriptorHeap, Pool, PoolLayout};
use color_overlay::swapchain::{SwapChain, BUFFER_COUNT};

fn heap() -> DescriptorHeap {
    DescriptorHeap::new(
        PoolLayout { cpu_start: 0x1000, gpu_start: 0x10000, stride: 32 },
        0x4000,
        PoolLayout { cpu_start: 0x9000, gpu_start: 0, stride: 64 },
        PoolLayout { cpu_start: 0xA000, gpu_start: 0, stride: 16 },
    )
}

#[test]
fn first_resize_builds_views() {
    let mut h = heap();
    let mut sc = SwapChain::new();
    assert_eq!(sc.current_size(), None);
    assert!(sc.resize(800, 600));
    sc.rebuild(&mut h, 800, 600);
    assert_eq!(sc.current_size(), Some((800, 600)));
    assert_eq!(BUFFER_COUNT, 2);
    assert_eq!(sc.rtv(0), Some(h.descriptor(Pool::RenderTarget, 0)));
    assert_eq!(sc.rtv(1), Some(h.descriptor(Pool::RenderTarget, 1)));
    assert_eq!(sc.rtv(2), None);
    assert_eq!(sc.dsv(), Some(h.descriptor(Pool::DepthStencil, 0)));
}

#[test]
fn resize_to_same_size_is_a_no_op() {
    let mut h = heap();
    let mut sc = SwapChain::new();
    assert!(sc.resize(1920, 1080));
    sc.rebuild(&mut h, 1920, 1080);
    assert!(!sc.resize(1920, 1080));
    assert_eq!(sc.current_size(), Some((1920, 1080)));
    assert!(!sc.resize(1920, 1080));
    assert!(sc.rtv(0).is_some());
}

#[test]
fn resize_to_new_size_drops_views() {
    let mut h = heap();
    let mut sc = SwapChain::new();
    sc.resize(640, 480);
    sc.rebuild(&mut h, 640, 480);
    assert!(sc.resize(640, 481));
    assert_eq!(sc.current_size(), None);
    assert_eq!(sc.rtv(0), None);
    assert_eq!(sc.dsv(), None);
    sc.rebuild(&mut h, 640, 481);
    assert!(!sc.resize(640, 481));
}
