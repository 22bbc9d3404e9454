use xege::PixelBuffer;

#[test]
fn new_floors_dimensions_to_one() {
    let b = PixelBuffer::new(0, 0);
    assert_eq!(b.getwidth(), 1);
    assert_eq!(b.getheight(), 1);
    assert_eq!(b.getpixel(0, 0), 0);
    let c = PixelBuffer::new(3, 2);
    assert_eq!(c.getwidth(), 3);
    assert_eq!(c.getheight(), 2);
}

#[test]
fn put_and_get_pixel() {
    let mut b = PixelBuffer::new(4, 3);
    b.putpixel(2, 1, 0xFF123456);
    assert_eq!(b.getpixel(2, 1), 0xFF123456);
    assert_eq!(b.getpixel(1, 2), 0);
    assert_eq!(b.getpixel(0, 0), 0);
}

#[test]
fn copy_independence() {
    let mut src = PixelBuffer::new(2, 2);
    src.putpixel(0, 0, 0xAABBCCDD);
    let mut cloned = src.copy();
    assert_eq!(cloned.getpixel(0, 0), 0xAABBCCDD);
    cloned.putpixel(0, 0, 0x11111111);
    cloned.putpixel(1, 1, 0x22222222);
    assert_eq!(src.getpixel(0, 0), 0xAABBCCDD);
    assert_eq!(src.getpixel(1, 1), 0);
    assert_eq!(cloned.getpixel(0, 0), 0x11111111);
    assert_eq!(cloned.getpixel(1, 1), 0x22222222);
}

#[test]
fn transform_applies_to_every_pixel() {
    let mut b = PixelBuffer::new(2, 2);
    b.putpixel(0, 0, 1);
    b.putpixel(1, 0, 2);
    b.putpixel(0, 1, 3);
    b.putpixel(1, 1, 4);
    b.transform(|p| p.wrapping_add(0x10));
    assert_eq!(b.getpixel(0, 0), 0x11);
    assert_eq!(b.getpixel(1, 0), 0x12);
    assert_eq!(b.getpixel(0, 1), 0x13);
    assert_eq!(b.getpixel(1, 1), 0x14);
}

#[test]
fn transform_keeps_dimensions() {
    let mut b = PixelBuffer::new(5, 7);
    b.transform(|p| !p);
    assert_eq!(b.getwidth(), 5);
    assert_eq!(b.getheight(), 7);
    assert_eq!(b.getpixel(4, 6), 0xFFFFFFFF);
}

#[test]
fn from_pixels_checks_length() {
    let b = xege::PixelBuffer::from_pixels(2, 2, vec![1, 2, 3, 4]).unwrap();
    assert_eq!(b.getpixel(0, 0), 1);
    assert_eq!(b.getpixel(1, 0), 2);
    assert_eq!(b.getpixel(0, 1), 3);
    assert_eq!(b.getpixel(1, 1), 4);
    assert_eq!(b.copy().into_pixels(), vec![1, 2, 3, 4]);
    assert!(xege::PixelBuffer::from_pixels(2, 2, vec![1, 2, 3]).is_none());
    assert!(xege::PixelBuffer::from_pixels(0, 1, vec![7]).unwrap().getwidth() == 1);
}
