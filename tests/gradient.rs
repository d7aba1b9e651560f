use ladder::frame::Frame;
use ladder::gradient::{channel_byte, fill_gradient, ALPHA, BLUE};

#[test]
fn channel_byte_truncates() {
    assert_eq!(channel_byte(0, 600), 0);
    assert_eq!(channel_byte(300, 600), 127);
    assert_eq!(channel_byte(600, 600), 255);
    assert_eq!(channel_byte(1, 3), 85);
    assert_eq!(channel_byte(2, 3), 170);
    assert_eq!(channel_byte(599, 600), 254);
}

#[test]
fn channel_byte_saturates_past_the_height() {
    assert_eq!(channel_byte(301, 300), 255);
    assert_eq!(channel_byte(399, 300), 255);
    assert_eq!(channel_byte(u32::MAX, 1), 255);
}

#[test]
fn constant_channels() {
    assert_eq!(BLUE, 127);
    assert_eq!(ALPHA, 255);
}

#[test]
fn fill_two_by_two() {
    let mut buf = vec![9u8; 16];
    fill_gradient(&mut buf, 2, 2);
    assert_eq!(
        buf,
        vec![0, 0, 127, 255, 127, 0, 127, 255, 0, 127, 127, 255, 127, 127, 127, 255]
    );
}

#[test]
fn fill_wide_frame_saturates_red() {
    let mut buf = vec![0u8; 12];
    fill_gradient(&mut buf, 3, 1);
    assert_eq!(buf, vec![0, 0, 127, 255, 255, 0, 127, 255, 255, 0, 127, 255]);
}

#[test]
fn fill_empty_frame() {
    let mut buf: Vec<u8> = Vec::new();
    fill_gradient(&mut buf, 0, 5);
    assert!(buf.is_empty());
}

#[test]
fn filled_frame_is_opaque() {
    for (w, h) in [(1u32, 1u32), (3, 2), (7, 5), (16, 9)] {
        let mut frame = Frame::empty();
        assert!(frame.resize(w, h));
        frame.fill();
        let bytes = frame.bytes();
        assert_eq!(bytes.len(), 4 * (w as usize) * (h as usize));
        for px in bytes.chunks(4) {
            assert_eq!(px[3], 255);
        }
    }
}

#[test]
fn filled_frame_follows_formula() {
    let (w, h) = (5u32, 6u32);
    let mut frame = Frame::empty();
    assert!(frame.resize(w, h));
    frame.fill();
    let bytes = frame.bytes();
    for i in 0..(w * h) as usize {
        let x = i % w as usize;
        let y = i / w as usize;
        assert_eq!(bytes[4 * i] as usize, 255 * x / h as usize);
        assert_eq!(bytes[4 * i + 1] as usize, 255 * y / h as usize);
        assert_eq!(bytes[4 * i + 2], 127);
        assert_eq!(bytes[4 * i + 3], 255);
    }
}

#[test]
fn resize_from_empty_is_zeroed() {
    let mut frame = Frame::empty();
    assert!(frame.resize(2, 2));
    assert_eq!(frame.width(), 2);
    assert_eq!(frame.height(), 2);
    assert_eq!(frame.bytes(), &[0u8; 16][..]);
}

#[test]
fn resize_keeps_prefix_and_zeroes_the_rest() {
    let mut frame = Frame::empty();
    assert!(frame.resize(2, 1));
    frame.fill();
    assert!(frame.resize(1, 1));
    assert_eq!(frame.bytes(), &[0u8, 0, 127, 255][..]);
    assert!(frame.resize(1, 2));
    assert_eq!(frame.bytes(), &[0u8, 0, 127, 255, 0, 0, 0, 0][..]);
}

#[test]
fn resize_twice_is_resize_once() {
    let mut once = Frame::empty();
    assert!(once.resize(4, 3));
    once.fill();
    let mut twice = Frame::empty();
    assert!(twice.resize(4, 3));
    twice.fill();
    assert!(once.resize(6, 2));
    assert!(twice.resize(6, 2));
    assert!(twice.resize(6, 2));
    assert_eq!(once.bytes().len(), 48);
    assert_eq!(once.bytes(), twice.bytes());
}

#[test]
fn resize_too_large_is_refused() {
    let mut frame = Frame::empty();
    assert!(frame.resize(2, 2));
    if usize::BITS == 64 {
        assert!(!frame.resize(u32::MAX, u32::MAX));
        assert_eq!(frame.width(), 2);
        assert_eq!(frame.height(), 2);
        assert_eq!(frame.bytes().len(), 16);
    }
}
