use color_overlay::color_cloud::{
    clear_counts, compact, compact_dispatch, count_dispatch, count_pass, expand_group, flat_index,
    indirect_arguments, mesh_dispatch, COUNT_OFFSET, GRID3, NUM_BUCKETS,
};

fn cleared_grid() -> Vec<u32> {
    vec![0u32; NUM_BUCKETS]
}

#[test]
fn flat_index_puts_x_fastest() {
    assert_eq!(flat_index(0, 0, 0), 0);
    assert_eq!(flat_index(1, 0, 0), 1);
    assert_eq!(flat_index(0, 1, 0), 256);
    assert_eq!(flat_index(0, 0, 1), 65536);
    assert_eq!(flat_index(10, 10, 10), 10 + 2560 + 655360);
    assert_eq!(flat_index(255, 255, 255), 16777215);
}

#[test]
fn count_dispatch_rounds_up_to_whole_groups() {
    assert_eq!(count_dispatch(64, 64), (8, 8, 1));
    assert_eq!(count_dispatch(65, 1), (9, 1, 1));
    assert_eq!(count_dispatch(0, 7), (0, 1, 1));
}

#[test]
fn compact_and_mesh_dispatch_cover_the_cube() {
    assert_eq!(compact_dispatch(), (8, 8, 8));
    assert_eq!(mesh_dispatch(), (32, 32, 32));
    assert_eq!(GRID3, 512);
    assert_eq!(COUNT_OFFSET, 8192);
}

#[test]
fn clear_counts_zeroes_every_bucket() {
    let mut counts = vec![7u32; 1000];
    clear_counts(&mut counts);
    assert_eq!(counts.len(), 1000);
    assert!(counts.iter().all(|c| *c == 0));
}

#[test]
fn uniform_rectangle_fills_one_bucket() {
    let b = flat_index(3, 200, 17);
    let pixels = vec![b; 20 * 30];
    let mut counts = cleared_grid();
    count_pass(&mut counts, &pixels);
    assert_eq!(counts[b as usize], 600);
    let total: u64 = counts.iter().map(|c| *c as u64).sum();
    assert_eq!(total, 600);
    let packed = compact(&counts);
    assert_eq!(packed, vec![b]);
}

#[test]
fn end_to_end_64x64_bucket_10_10_10() {
    let b = flat_index(10, 10, 10);
    let pixels = vec![b; 64 * 64];
    let mut counts = cleared_grid();
    count_pass(&mut counts, &pixels);
    assert_eq!(counts[b as usize], 4096);
    assert_eq!(counts.iter().filter(|c| **c != 0).count(), 1);

    let packed = compact(&counts);
    assert_eq!(packed.len(), 1);
    assert_eq!(packed[0], b);

    let args = indirect_arguments(&packed, 6);
    assert_eq!(args.instance_count, 1);
    assert_eq!(args.vertex_count_per_instance, 6);
    assert_eq!(args.start_instance_location, 0);

    let (gx, gy, gz) = mesh_dispatch();
    let mut expanded = Vec::new();
    for z in 0..gz {
        for y in 0..gy {
            for x in 0..gx {
                expanded.extend(expand_group(&counts, x, y, z));
            }
        }
    }
    assert_eq!(expanded, vec![b]);
}

#[test]
fn compaction_emits_one_instance_per_nonzero_bucket() {
    let mut counts = cleared_grid();
    let occupied = [0usize, 1, 255, 256, 65535, 123456, NUM_BUCKETS - 1];
    for (k, i) in occupied.iter().enumerate() {
        counts[*i] = (k as u32 + 1) * 3;
    }
    let packed = compact(&counts);
    let nonzero = counts.iter().filter(|c| **c != 0).count();
    assert_eq!(packed.len(), nonzero);
    let expected: Vec<u32> = occupied.iter().map(|i| *i as u32).collect();
    assert_eq!(packed, expected);
}

#[test]
fn compaction_of_an_empty_grid_is_empty() {
    let counts = cleared_grid();
    assert!(compact(&counts).is_empty());
    let args = indirect_arguments(&compact(&counts), 6);
    assert_eq!(args.instance_count, 0);
}

#[test]
fn count_pass_counts_mixed_pixels() {
    let a = flat_index(1, 2, 3);
    let b = flat_index(255, 0, 128);
    let pixels = vec![a, b, a, a, b, 0];
    let mut counts = cleared_grid();
    count_pass(&mut counts, &pixels);
    assert_eq!(counts[a as usize], 3);
    assert_eq!(counts[b as usize], 2);
    assert_eq!(counts[0], 1);
    assert_eq!(compact(&counts), vec![0, a, b]);
}

#[test]
fn expand_group_culls_to_its_block() {
    let mut counts = cleared_grid();
    let inside = flat_index(9, 17, 250) as usize;
    let outside = flat_index(16, 17, 250) as usize;
    counts[inside] = 5;
    counts[outside] = 1;
    assert_eq!(expand_group(&counts, 1, 2, 31), vec![inside as u32]);
    assert_eq!(expand_group(&counts, 2, 2, 31), vec![outside as u32]);
    assert!(expand_group(&counts, 0, 0, 0).is_empty());
}
