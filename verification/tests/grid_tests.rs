use raster_to_json::grid::ColumnGrid;

#[test]
fn empty_raster_completes_immediately() {
    let g = ColumnGrid::new(0, 5);
    assert!(g.is_complete());
    let data = g.into_columns();
    assert!(data.is_empty());
}

#[test]
fn read_windows_are_full_height_strips() {
    let mut g = ColumnGrid::new(3, 4);
    let mut xs = Vec::new();
    while !g.is_complete() {
        let w = g.read_window();
        assert_eq!(w.y_off, 0);
        assert_eq!(w.win_width, 1);
        assert_eq!(w.win_height, 4);
        // The resampling target equals the window, so the read is a
        // pass-through copy.
        assert_eq!(w.buf_width, w.win_width);
        assert_eq!(w.buf_height, w.win_height);
        xs.push(w.x_off);
        g.push_column(vec![0; 4]);
    }
    assert_eq!(xs, vec![0, 1, 2]);
}

#[test]
fn output_shape_is_width_by_height() {
    let width = 5;
    let height = 7;
    let mut g = ColumnGrid::new(width, height);
    let mut x = 0u8;
    while !g.is_complete() {
        g.push_column(vec![x; height]);
        x += 1;
    }
    let data = g.into_columns();
    assert_eq!(data.len(), width);
    for col in &data {
        assert_eq!(col.len(), height);
    }
}

#[test]
fn two_by_two_column_major() {
    // A 2x2 raster with row-major pixel values [[10, 20], [30, 40]] is read
    // column by column: column 0 is [10, 30], column 1 is [20, 40].
    let mut g = ColumnGrid::new(2, 2);
    assert_eq!(g.next_column(), 0);
    g.push_column(vec![10, 30]);
    assert_eq!(g.next_column(), 1);
    g.push_column(vec![20, 40]);
    assert!(g.is_complete());
    let data = g.into_columns();
    assert_eq!(data, vec![vec![10, 30], vec![20, 40]]);
}

#[test]
fn columns_kept_in_order() {
    let mut g = ColumnGrid::new(3, 1);
    g.push_column(vec![9]);
    g.push_column(vec![8]);
    g.push_column(vec![7]);
    assert_eq!(g.into_columns(), vec![vec![9], vec![8], vec![7]]);
}
