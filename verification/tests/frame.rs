use chip8_host::frame::lit_points;

#[test]
fn blank_frame_yields_no_points() {
    let frame = [[0u8; 64]; 32];
    assert!(lit_points(&frame).is_empty());
}

#[test]
fn one_lit_cell_yields_exactly_its_coordinate() {
    // A program that lights one pixel: after its step, exactly that
    // coordinate is marked and no other.
    let mut frame = [[0u8; 64]; 32];
    frame[5][10] = 1;
    let pts = lit_points(&frame);
    assert_eq!(pts, vec![(10usize, 5usize)]);
}

#[test]
fn only_the_least_significant_bit_counts() {
    let mut frame = [[0u8; 64]; 32];
    frame[2][3] = 2;
    frame[7][9] = 0xFE;
    assert!(lit_points(&frame).is_empty());
    frame[1][1] = 3;
    frame[4][4] = 0xFF;
    let pts = lit_points(&frame);
    assert_eq!(pts, vec![(1usize, 1usize), (4usize, 4usize)]);
}

#[test]
fn corners_and_scan_order() {
    let mut frame = [[0u8; 64]; 32];
    frame[0][0] = 1;
    frame[0][63] = 1;
    frame[31][0] = 1;
    frame[31][63] = 1;
    let pts = lit_points(&frame);
    assert_eq!(
        pts,
        vec![(0usize, 0usize), (63usize, 0usize), (0usize, 31usize), (63usize, 31usize)]
    );
}

#[test]
fn full_frame_yields_every_coordinate_once() {
    let frame = [[1u8; 64]; 32];
    let pts = lit_points(&frame);
    assert_eq!(pts.len(), 64 * 32);
    let mut i = 0usize;
    for y in 0..32usize {
        for x in 0..64usize {
            assert_eq!(pts[i], (x, y));
            i += 1;
        }
    }
}
