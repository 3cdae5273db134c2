use frameloop::frame::FrameCtx;

fn all_cells_are(fb: &FrameCtx, expected: (u8, u8, u8, u8)) -> bool {
    for py in 0..fb.height {
        for px in 0..fb.width {
            if fb.cell(px, py) != expected {
                return false;
            }
        }
    }
    true
}

#[test]
fn new_buffer_is_zeroed() {
    let fb = FrameCtx::new(4, 3);
    assert_eq!(fb.frame.len(), 4 * 3 * 4);
    assert!(all_cells_are(&fb, (0, 0, 0, 0)));
}

#[test]
fn background_fills_every_cell() {
    let mut fb = FrameCtx::new(4, 3);
    fb.set_background(10, 20, 30);
    assert!(all_cells_are(&fb, (10, 20, 30, 255)));
}

#[test]
fn background_channels_wrap_not_saturate() {
    let mut fb = FrameCtx::new(2, 2);
    fb.set_background(300, -1, 2);
    assert!(all_cells_are(&fb, (44, 255, 2, 255)));

    fb.set_background(256, 511, -256);
    assert!(all_cells_are(&fb, (0, 255, 0, 255)));
}

#[test]
fn rect_fully_off_top_left_changes_nothing() {
    let mut fb = FrameCtx::new(10, 10);
    fb.set_background(1, 2, 3);
    fb.set_rect(-50, -50);
    assert!(all_cells_are(&fb, (1, 2, 3, 255)));
    fb.set_rect(-50, 5);
    fb.set_rect(5, -50);
    assert!(all_cells_are(&fb, (1, 2, 3, 255)));
}

#[test]
fn rect_overlapping_from_top_left_covers_buffer() {
    // The square spans [-10, 40) in each axis, so a 10x10 buffer lies
    // entirely inside it.
    let mut fb = FrameCtx::new(10, 10);
    fb.set_background(1, 2, 3);
    fb.set_rect(-10, -10);
    assert!(all_cells_are(&fb, (255, 255, 255, 255)));
}

#[test]
fn rect_paints_bottom_right_quarter() {
    let mut fb = FrameCtx::new(10, 10);
    fb.set_background(1, 2, 3);
    fb.set_rect(5, 5);
    for py in 0..10 {
        for px in 0..10 {
            let expected = if px >= 5 && py >= 5 {
                (255, 255, 255, 255)
            } else {
                (1, 2, 3, 255)
            };
            assert_eq!(fb.cell(px, py), expected);
        }
    }
}

#[test]
fn rect_clips_at_every_edge() {
    let mut fb = FrameCtx::new(60, 60);
    fb.set_background(9, 9, 9);
    fb.set_rect(-10, -10);
    for py in 0..60 {
        for px in 0..60 {
            let expected = if px < 40 && py < 40 {
                (255, 255, 255, 255)
            } else {
                (9, 9, 9, 255)
            };
            assert_eq!(fb.cell(px, py), expected);
        }
    }

    let mut fb = FrameCtx::new(60, 60);
    fb.set_background(9, 9, 9);
    fb.set_rect(20, 20);
    for py in 0..60 {
        for px in 0..60 {
            let expected = if px >= 20 && py >= 20 {
                (255, 255, 255, 255)
            } else {
                (9, 9, 9, 255)
            };
            assert_eq!(fb.cell(px, py), expected);
        }
    }
}

#[test]
fn rect_far_away_changes_nothing() {
    let mut fb = FrameCtx::new(10, 10);
    fb.set_background(7, 8, 9);
    fb.set_rect(10, 0);
    fb.set_rect(0, 10);
    fb.set_rect(i64::MAX, i64::MAX);
    fb.set_rect(i64::MIN, i64::MIN);
    assert!(all_cells_are(&fb, (7, 8, 9, 255)));
}

#[test]
fn background_overwrites_rect() {
    let mut fb = FrameCtx::new(10, 10);
    fb.set_rect(0, 0);
    fb.set_background(4, 5, 6);
    assert!(all_cells_are(&fb, (4, 5, 6, 255)));
}

#[test]
fn resize_to_same_dimensions_keeps_contents() {
    let mut fb = FrameCtx::new(10, 10);
    fb.set_background(1, 2, 3);
    fb.resize(10, 10);
    assert_eq!(fb.frame.len(), 10 * 10 * 4);
    assert!(all_cells_are(&fb, (1, 2, 3, 255)));
    fb.resize(10, 10);
    assert_eq!(fb.frame.len(), 10 * 10 * 4);
    assert!(all_cells_are(&fb, (1, 2, 3, 255)));
}

#[test]
fn resize_changes_pixel_count() {
    let mut fb = FrameCtx::new(10, 10);
    fb.resize(5, 6);
    assert_eq!(fb.width, 5);
    assert_eq!(fb.height, 6);
    assert_eq!(fb.frame.len(), 5 * 6 * 4);
}
