use fractal_clock::geometry::{
    colour_buffer_size, dispatch_for_level, fractal_index_range, index_buffer_size,
    vertex_buffer_size, vertex_count_for_depth, vertex_dispatches, vertex_size,
    workgroup_size_for_depth, CAMERA_BUFFER_SIZE, COLOUR_BYTES, INDEX_BYTES, MAX_DEPTH,
};

#[test]
fn vertex_size_is_sixteen_bytes() {
    assert_eq!(vertex_size(), 16);
}

#[test]
fn workgroup_sizes_are_powers_of_three() {
    assert_eq!(workgroup_size_for_depth(1), 1);
    assert_eq!(workgroup_size_for_depth(2), 3);
    assert_eq!(workgroup_size_for_depth(4), 27);
    assert_eq!(workgroup_size_for_depth(21), 3_486_784_401);
    assert_eq!(workgroup_size_for_depth(41), 12_157_665_459_056_928_801);
}

#[test]
fn vertex_counts_follow_oeis_a003462() {
    let expected: [u64; 8] = [1, 4, 13, 40, 121, 364, 1093, 3280];
    for (depth, count) in expected.iter().enumerate() {
        assert_eq!(vertex_count_for_depth(depth as u32), *count);
    }
    assert_eq!(vertex_count_for_depth(39), 12_157_665_459_056_928_801 / 2);
}

#[test]
fn vertex_count_is_root_plus_three_per_dispatched_workgroup() {
    for depth in 0..=30u32 {
        let dispatched: u64 = (1..=depth).map(workgroup_size_for_depth).sum();
        assert_eq!(vertex_count_for_depth(depth), 1 + 3 * dispatched);
    }
}

#[test]
fn vertex_count_step_adds_next_level() {
    for depth in 1..=38u32 {
        assert_eq!(
            vertex_count_for_depth(depth),
            vertex_count_for_depth(depth - 1) + workgroup_size_for_depth(depth + 1)
        );
    }
}

#[test]
fn buffer_sizes() {
    assert_eq!(vertex_buffer_size(4), 121 * 16);
    assert_eq!(index_buffer_size(4), 121 * 16);
    assert_eq!(vertex_buffer_size(MAX_DEPTH), 10_806_813_741_383_936_704);
    assert_eq!(colour_buffer_size(4), 128);
    assert_eq!(colour_buffer_size(0), 0);
    assert_eq!(CAMERA_BUFFER_SIZE, 128);
}

#[test]
fn colours_fit_from_depth_one() {
    for depth in 1..=100u32 {
        assert!((depth as u64 + 1) * COLOUR_BYTES <= colour_buffer_size(depth));
    }
    // At depth zero the single colour does not fit.
    assert!(COLOUR_BYTES > colour_buffer_size(0));
}

#[test]
fn dispatch_grids() {
    assert_eq!(dispatch_for_level(1), (2, 1, 1));
    assert_eq!(dispatch_for_level(5), (82, 1, 1));
    // 3^6 = 729 = 2 * 256 + 217
    assert_eq!(dispatch_for_level(7), (218, 3, 1));
    // 3^21 does not fit in 32 bits and is cut to 1_870_418_611.
    let cut = 10_460_353_203u64 % (1u64 << 32);
    assert_eq!(cut, 1_870_418_611);
    assert_eq!(
        dispatch_for_level(22),
        ((cut % 256 + 1) as u32, (cut / 256 + 1) as u32, 1)
    );
}

#[test]
fn dispatch_grid_encodes_workgroups() {
    for level in 1..=21u32 {
        let (x, y, z) = dispatch_for_level(level);
        assert!((1..=256).contains(&x));
        assert_eq!(z, 1);
        assert_eq!((x as u64 - 1) + 256 * (y as u64 - 1), workgroup_size_for_depth(level));
    }
}

#[test]
fn vertex_dispatches_cover_each_level() {
    let dispatches = vertex_dispatches(6);
    assert_eq!(dispatches.len(), 6);
    for (i, grid) in dispatches.iter().enumerate() {
        assert_eq!(*grid, dispatch_for_level(i as u32 + 1));
    }
    assert!(vertex_dispatches(0).is_empty());
}

#[test]
fn index_ranges() {
    assert_eq!(fractal_index_range(0), (6, 0));
    assert_eq!(fractal_index_range(1), (6, 6));
    assert_eq!(fractal_index_range(4), (6, 240));
    // 3^21 / 2 * 2 - 2 is cut to 32 bits.
    let full = (10_460_353_203u64 / 2) * 2 - 2;
    assert_eq!(fractal_index_range(20), (6, (full % (1u64 << 32)) as u32));
}

#[test]
fn index_range_stays_within_index_buffer() {
    for depth in 1..=MAX_DEPTH {
        let (start, end) = fractal_index_range(depth);
        assert!(end as u64 * INDEX_BYTES <= index_buffer_size(depth));
        if depth <= 19 {
            assert!(start <= end);
            assert_eq!(end as u64, 2 * vertex_count_for_depth(depth) - 2);
        }
    }
}
