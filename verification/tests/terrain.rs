use tanks::terrain::{corner_indices, grid_indices, slope_neighbors};

#[test]
fn grid_of_two_is_one_quad() {
    assert_eq!(grid_indices(2), vec![0, 2, 1, 1, 2, 3]);
}

#[test]
fn grid_of_three() {
    let idx = grid_indices(3);
    assert_eq!(idx.len(), 24);
    assert_eq!(&idx[0..6], &[0, 3, 1, 1, 3, 4]);
    assert_eq!(&idx[6..12], &[1, 4, 2, 2, 4, 5]);
    assert_eq!(&idx[12..18], &[3, 6, 4, 4, 6, 7]);
    assert_eq!(&idx[18..24], &[4, 7, 5, 5, 7, 8]);
}

#[test]
fn grid_of_one_has_no_cells() {
    assert!(grid_indices(1).is_empty());
}

#[test]
fn grid_of_battlefield_size() {
    let n = 151;
    let idx = grid_indices(n);
    assert_eq!(idx.len(), 6 * 150 * 150);
    assert!(idx.iter().all(|&i| (i as usize) < n * n));
    let last = &idx[idx.len() - 6..];
    let i = (149 * n + 149) as u32;
    assert_eq!(last, &[i, i + n as u32, i + 1, i + 1, i + n as u32, i + n as u32 + 1]);
}

#[test]
fn corners_inside_the_grid() {
    assert_eq!(corner_indices(2, 3, 10), [32, 33, 42, 43]);
}

#[test]
fn corners_clamp_at_the_far_edge() {
    assert_eq!(corner_indices(9, 9, 10), [99, 99, 99, 99]);
    assert_eq!(corner_indices(9, 0, 10), [9, 9, 19, 19]);
}

#[test]
fn slope_neighbours_inside() {
    assert_eq!(slope_neighbors(4, 5, 10), [53, 55, 44, 64]);
}

#[test]
fn slope_neighbours_at_the_corners() {
    assert_eq!(slope_neighbors(0, 0, 10), [0, 1, 0, 10]);
    assert_eq!(slope_neighbors(9, 9, 10), [98, 99, 89, 99]);
}
