use shogi_cards::geometry::{marker_x, marker_y, x_offset, y_offset};

#[test]
fn offset_exact_table_values() {
    assert_eq!(y_offset(0), 1);
    assert_eq!(y_offset(2), 0);
    assert_eq!(y_offset(4), -1);
    assert_eq!(x_offset(0), 0);
    assert_eq!(x_offset(2), 1);
    assert_eq!(x_offset(6), -1);
}

#[test]
fn offset_full_table() {
    let xs = [0, 1, 1, 1, 0, -1, -1, -1];
    let ys = [1, 1, 0, -1, -1, -1, 0, 1];
    for n in 0u8..8 {
        assert_eq!(x_offset(n), xs[n as usize]);
        assert_eq!(y_offset(n), ys[n as usize]);
    }
}

#[test]
fn offset_periodicity() {
    for n in 0u8..=255 {
        assert_eq!(x_offset(n), x_offset(n % 8));
        assert_eq!(y_offset(n), y_offset(n % 8));
    }
}

#[test]
fn marker_positions_per_mille() {
    // Position 0 is the top of the ring: x = 0.5w, y = 0.1h.
    assert_eq!((marker_x(0), marker_y(0)), (500, 100));
    // Position 2 is the right side: x = 0.78w, y = 0.5h.
    assert_eq!((marker_x(2), marker_y(2)), (780, 500));
    // Position 4 is the bottom: x = 0.5w, y = 0.9h.
    assert_eq!((marker_x(4), marker_y(4)), (500, 900));
    // Position 6 is the left side.
    assert_eq!((marker_x(6), marker_y(6)), (220, 500));
}
