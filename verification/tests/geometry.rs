use egui_screensaver_matrix::geometry::{build_vertex_data, grid_changed, vertex_count};

#[test]
fn single_quad_vertices() {
    let data = build_vertex_data(1, 1);
    assert_eq!(
        data,
        vec![0, 0, 0, 0, 0, 0, 0, 1, 0, 0, 1, 1, 0, 0, 0, 0, 0, 0, 1, 1, 0, 0, 1, 0]
    );
    assert_eq!(vertex_count(1, 1), 6);
}

#[test]
fn quad_grid_layout_row_by_row() {
    let data = build_vertex_data(3, 2);
    assert_eq!(data.len(), 3 * 2 * 24);
    assert_eq!(vertex_count(3, 2), 36);
    // Cell (x=1, y=0) is the second quad; cell (x=2, y=1) the sixth.
    assert_eq!(&data[24..28], &[1, 0, 0, 0]);
    assert_eq!(&data[5 * 24 + 8..5 * 24 + 12], &[2, 1, 1, 1]);
    for quad in 0..6u32 {
        for k in 0..6usize {
            let base = (quad as usize * 6 + k) * 4;
            assert_eq!(data[base], quad % 3);
            assert_eq!(data[base + 1], quad / 3);
        }
    }
}

#[test]
fn empty_grid_has_no_vertices() {
    assert!(build_vertex_data(0, 5).is_empty());
    assert_eq!(vertex_count(0, 5), 0);
}

#[test]
fn grid_rebuild_only_on_change() {
    assert!(!grid_changed(3, 2, 3, 2));
    assert!(grid_changed(3, 2, 2, 3));
    assert!(grid_changed(3, 2, 4, 2));
}
