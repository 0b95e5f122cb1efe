use flvmux::show::{set_constant, uv_index, y_indexes, HEIGHT, UV_HEIGHT, UV_WIDTH, WIDTH};

#[test]
fn uv_index_walks_rows() {
    assert_eq!(uv_index(0, 0), 0);
    assert_eq!(uv_index(3, 0), 3);
    assert_eq!(uv_index(0, 1), 640);
    assert_eq!(uv_index(3, 2), 2 * 640 + 3);
    assert_eq!(uv_index(UV_WIDTH - 1, UV_HEIGHT - 1), 640 * 360 - 1);
}

#[test]
fn y_indexes_cover_the_two_by_two_block() {
    assert_eq!(y_indexes(0, 0), [0, 1, 1280, 1281]);
    assert_eq!(y_indexes(1, 1), [2 * 1280 + 2, 2 * 1280 + 3, 3 * 1280 + 2, 3 * 1280 + 3]);
    let last = y_indexes(UV_WIDTH - 1, UV_HEIGHT - 1);
    assert_eq!(last[3], WIDTH * HEIGHT - 1);
}

#[test]
fn set_constant_fills_every_byte() {
    let mut buf: Vec<u8> = vec![0, 1, 2, 3, 4, 5];
    set_constant(128, &mut buf);
    assert_eq!(buf, vec![128; 6]);
    let mut empty: Vec<u8> = Vec::new();
    set_constant(7, &mut empty);
    assert!(empty.is_empty());
}
