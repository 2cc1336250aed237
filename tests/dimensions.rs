use qubes_gui_proto::dimensions::{DimensionError, WindowDimensions};
use qubes_gui_proto::protocol::{MAX_GRANT_REFS_COUNT, MAX_WINDOW_HEIGHT, MAX_WINDOW_WIDTH};

#[test]
fn gref_limits() {
    let max_dims = WindowDimensions::new(MAX_WINDOW_WIDTH, MAX_WINDOW_HEIGHT).unwrap();
    assert!(WindowDimensions::new(MAX_WINDOW_WIDTH + 1, MAX_WINDOW_HEIGHT).is_err());
    assert!(WindowDimensions::new(MAX_WINDOW_WIDTH, MAX_WINDOW_HEIGHT + 1).is_err());
    assert_eq!(max_dims.grefs(), MAX_GRANT_REFS_COUNT);
}

#[test]
fn zero_dimensions_rejected() {
    assert_eq!(
        WindowDimensions::new(0, 10),
        Err(DimensionError::Zero { width: 0, height: 10 })
    );
    assert_eq!(
        WindowDimensions::new(10, 0),
        Err(DimensionError::Zero { width: 10, height: 0 })
    );
    assert_eq!(
        WindowDimensions::new(MAX_WINDOW_WIDTH + 1, 0),
        Err(DimensionError::TooLarge { width: MAX_WINDOW_WIDTH + 1, height: 0 })
    );
}

#[test]
fn sizes_and_grants() {
    let d = WindowDimensions::new(512, 256).unwrap();
    assert_eq!(d.width(), 512);
    assert_eq!(d.height(), 256);
    assert_eq!(d.buffer_size(), 512 * 256 * 4);
    assert_eq!(d.grefs(), 128);
    let d = WindowDimensions::new(1, 1).unwrap();
    assert_eq!(d.buffer_size(), 4);
    assert_eq!(d.grefs(), 1);
    let d = WindowDimensions::new(1025, 1).unwrap();
    assert_eq!(d.buffer_size(), 4100);
    assert_eq!(d.grefs(), 2);
    let d = WindowDimensions::new(MAX_WINDOW_WIDTH, MAX_WINDOW_HEIGHT).unwrap();
    assert_eq!(d.buffer_size(), 16384 * 6144 * 4);
}

#[test]
fn pixel_writes_are_checked() {
    let d = WindowDimensions::new(2, 2).unwrap();
    assert!(d.can_write(0, 16));
    assert!(d.can_write(12, 4));
    assert!(!d.can_write(12, 8));
    assert!(!d.can_write(2, 4));
    assert!(!d.can_write(0, 3));
    assert!(!d.can_write(usize::MAX - 3, 8));
}

#[test]
fn window_dump_message() {
    let d = WindowDimensions::new(1025, 1).unwrap();
    let msg = d.window_dump(&[7, 0x0102_0304]);
    assert_eq!(
        msg,
        [0, 0, 0, 0, 1, 4, 0, 0, 1, 0, 0, 0, 24, 0, 0, 0, 7, 0, 0, 0, 4, 3, 2, 1]
    );
}
