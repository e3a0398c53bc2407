use webview::frame::{on_frame, Frame, BYTES_PER_PIXEL};

#[test]
fn four_bytes_per_pixel() {
    assert_eq!(BYTES_PER_PIXEL, 4);
    assert_eq!(
        on_frame(1, 1),
        Some(Frame {
            len: 4,
            width: 1,
            height: 1
        })
    );
}

#[test]
fn frame_length_is_width_by_height_by_four() {
    assert_eq!(
        on_frame(800, 600),
        Some(Frame {
            len: 1_920_000,
            width: 800,
            height: 600
        })
    );
    assert_eq!(on_frame(1920, 1080).map(|f| f.len), Some(8_294_400));
}

#[test]
fn frame_without_width_has_no_bytes() {
    assert_eq!(
        on_frame(0, 600),
        Some(Frame {
            len: 0,
            width: 0,
            height: 600
        })
    );
}

#[test]
fn frame_without_height_has_no_bytes() {
    assert_eq!(
        on_frame(800, 0),
        Some(Frame {
            len: 0,
            width: 800,
            height: 0
        })
    );
    assert_eq!(on_frame(0, 0).map(|f| f.len), Some(0));
}

#[test]
fn negative_sides_are_no_frame() {
    assert_eq!(on_frame(-1, 600), None);
    assert_eq!(on_frame(800, -1), None);
    assert_eq!(on_frame(-2, -2), None);
    assert_eq!(on_frame(i32::MIN, 0), None);
}

#[test]
fn large_frames_are_measured_without_wrapping() {
    let side = 40_000;
    let expected: u64 = 40_000 * 40_000 * 4;
    match on_frame(side, side) {
        Some(frame) => assert_eq!(frame.len as u64, expected),
        None => assert!(expected > isize::MAX as u64),
    }
}

#[test]
fn largest_sides_fit_only_where_they_can_be_addressed() {
    let expected: u128 = (i32::MAX as u128) * (i32::MAX as u128) * 4;
    match on_frame(i32::MAX, i32::MAX) {
        Some(frame) => {
            assert!(expected <= isize::MAX as u128);
            assert_eq!(frame.len as u128, expected);
        }
        None => assert!(expected > isize::MAX as u128),
    }
}
