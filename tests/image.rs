use cardtrace::image::{channel_byte, pixel_at, Frame, BODY_LEN, HEADER_LEN, PIXELS};

#[test]
fn channels_are_clamped_to_a_byte() {
    assert_eq!(channel_byte(-5), 0);
    assert_eq!(channel_byte(0), 0);
    assert_eq!(channel_byte(128), 128);
    assert_eq!(channel_byte(255), 255);
    assert_eq!(channel_byte(300), 255);
}

#[test]
fn pixels_run_backwards_from_the_last() {
    assert_eq!(pixel_at(0), (511, 511));
    assert_eq!(pixel_at(1), (510, 511));
    assert_eq!(pixel_at(511), (0, 511));
    assert_eq!(pixel_at(512), (511, 510));
    assert_eq!(pixel_at(PIXELS - 1), (0, 0));
}

#[test]
fn new_frame_holds_the_header() {
    let f = Frame::new();
    assert_eq!(f.as_bytes(), b"P6 512 512 255 ");
    assert_eq!(f.pixels_written(), 0);
    assert!(!f.is_complete());
}

#[test]
fn pixels_follow_the_header() {
    let mut f = Frame::new();
    f.push_pixel(1, 2, 3);
    f.push_pixel(250, 0, 7);
    assert_eq!(f.pixels_written(), 2);
    assert_eq!(&f.as_bytes()[HEADER_LEN..], &[1, 2, 3, 250, 0, 7]);
}

#[test]
fn complete_frame_has_full_body() {
    let mut f = Frame::new();
    for i in 0..PIXELS {
        f.push_pixel((i % 256) as u8, 0, 255);
    }
    assert!(f.is_complete());
    let bytes = f.into_bytes();
    assert_eq!(bytes.len() - HEADER_LEN, BODY_LEN);
    assert_eq!(BODY_LEN, 512 * 512 * 3);
    assert_eq!(BODY_LEN, 786_432);
}
