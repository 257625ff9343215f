use chromacore::bitmap::Bitmap;
use chromacore::queue::BitmapQueue;

fn solid_bitmap(width: u32, height: u32, rgba: [u8; 4]) -> Bitmap {
    let mut pixels = Vec::new();
    for _ in 0..width * height {
        pixels.extend_from_slice(&rgba);
    }
    Bitmap::from_rgba(width, height, pixels).unwrap()
}

#[test]
fn from_rgba_accepts_matching_buffer() {
    let b = solid_bitmap(2, 3, [9, 8, 7, 6]);
    assert_eq!(b.dimensions(), (2, 3));
    assert_eq!(b.pixels.len(), 24);
}

#[test]
fn from_rgba_rejects_mismatch_and_zero() {
    assert!(Bitmap::from_rgba(2, 2, vec![0; 15]).is_none());
    assert!(Bitmap::from_rgba(2, 2, vec![0; 17]).is_none());
    assert!(Bitmap::from_rgba(0, 2, vec![]).is_none());
    assert!(Bitmap::from_rgba(2, 0, vec![]).is_none());
}

#[test]
fn from_rgb_normalizes_with_opaque_alpha() {
    let rgb = vec![1, 2, 3, 4, 5, 6];
    let b = Bitmap::from_rgb(2, 1, rgb).unwrap();
    assert_eq!(b.pixels, vec![1, 2, 3, 255, 4, 5, 6, 255]);
}

#[test]
fn from_rgb_rejects_mismatch() {
    assert!(Bitmap::from_rgb(2, 1, vec![0; 5]).is_none());
    assert!(Bitmap::from_rgb(0, 1, vec![]).is_none());
}

#[test]
fn queue_appends_in_arrival_order() {
    let mut q = BitmapQueue::new();
    q.push_back(solid_bitmap(1, 1, [1, 1, 1, 1]));
    let batch = vec![
        solid_bitmap(1, 1, [2, 2, 2, 2]),
        solid_bitmap(1, 1, [3, 3, 3, 3]),
    ];
    q.drain_into_queue(batch);
    assert_eq!(q.len(), 3);
    assert_eq!(q.get(0).pixels[0], 1);
    assert_eq!(q.get(1).pixels[0], 2);
    assert_eq!(q.get(2).pixels[0], 3);
}

#[test]
fn set_current_rejects_out_of_range() {
    let mut q = BitmapQueue::new();
    q.push_back(solid_bitmap(1, 1, [1, 1, 1, 1]));
    q.push_back(solid_bitmap(1, 1, [2, 2, 2, 2]));
    assert!(q.set_current(1));
    assert_eq!(q.current_index, 1);
    // An out-of-range index is rejected, not clamped.
    assert!(!q.set_current(2));
    assert_eq!(q.current_index, 1);
    assert!(!q.set_current(usize::MAX));
    assert_eq!(q.current_index, 1);
}

#[test]
fn current_follows_selection() {
    let mut q = BitmapQueue::new();
    q.push_back(solid_bitmap(1, 1, [5, 0, 0, 255]));
    q.push_back(solid_bitmap(1, 1, [6, 0, 0, 255]));
    assert_eq!(q.current().pixels[0], 5);
    q.set_current(1);
    assert_eq!(q.current().pixels[0], 6);
}
