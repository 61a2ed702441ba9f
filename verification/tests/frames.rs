use termframe::frame::{Frame, Pixel};

#[test]
fn frame_new_checks_length() {
    let p = Pixel { r: 1, g: 2, b: 3 };
    assert!(Frame::new(2, 2, vec![p; 4]).is_some());
    assert!(Frame::new(2, 2, vec![p; 3]).is_none());
    assert!(Frame::new(2, 2, vec![p; 5]).is_none());
    assert!(Frame::new(0, 7, Vec::new()).is_some());
}

#[test]
fn from_raw_decodes_rgb_triples() {
    let bytes: Vec<u8> = vec![1, 2, 3, 4, 5, 6, 7, 8, 9, 10, 11, 12];
    let f = Frame::from_raw(2, 2, &bytes).unwrap();
    assert_eq!(f.width(), 2);
    assert_eq!(f.height(), 2);
    assert_eq!(f.pixel(0, 0), Pixel { r: 1, g: 2, b: 3 });
    assert_eq!(f.pixel(1, 0), Pixel { r: 4, g: 5, b: 6 });
    assert_eq!(f.pixel(0, 1), Pixel { r: 7, g: 8, b: 9 });
    assert_eq!(f.pixel(1, 1), Pixel { r: 10, g: 11, b: 12 });
}

#[test]
fn from_raw_checks_length() {
    let bytes: Vec<u8> = vec![0; 11];
    assert!(Frame::from_raw(2, 2, &bytes).is_none());
    let bytes: Vec<u8> = vec![0; 12];
    assert!(Frame::from_raw(2, 2, &bytes).is_some());
    let bytes: Vec<u8> = Vec::new();
    assert!(Frame::from_raw(0, 0, &bytes).is_some());
}

#[test]
fn pixel_at_is_row_major() {
    let bytes: Vec<u8> = vec![1, 2, 3, 4, 5, 6, 7, 8, 9, 10, 11, 12];
    let f = Frame::from_raw(2, 2, &bytes).unwrap();
    assert_eq!(f.pixel_at(0), Pixel { r: 1, g: 2, b: 3 });
    assert_eq!(f.pixel_at(3), Pixel { r: 10, g: 11, b: 12 });
}
