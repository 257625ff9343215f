use chromacore::adjust::Adjustment;
use chromacore::bitmap::Bitmap;
use chromacore::engine::{DrawError, ExportError, RenderCore};
use chromacore::queue::BitmapQueue;

fn gradient_bitmap(width: u32, height: u32) -> Bitmap {
    let mut pixels = Vec::new();
    let mut k: u32 = 0;
    for _ in 0..width * height {
        pixels.push((k % 251) as u8);
        pixels.push((k % 241) as u8);
        pixels.push((k % 233) as u8);
        pixels.push(255);
        k += 1;
    }
    Bitmap::from_rgba(width, height, pixels).unwrap()
}

/// Lay the bitmap's pixels out as a GPU readback of an identity render
/// would: each row padded with zeroes to the given stride.
fn padded_readback(bitmap: &Bitmap, padded: u32) -> Vec<u8> {
    let row = (4 * bitmap.width) as usize;
    let mut data = Vec::new();
    for y in 0..bitmap.height as usize {
        data.extend_from_slice(&bitmap.pixels[y * row..(y + 1) * row]);
        data.resize(data.len() + (padded as usize - row), 0);
    }
    data
}

#[test]
fn identity_adjustment_uniform_is_all_zero() {
    // The zero triple is the identity transform: the shader receives the
    // floats {0.0, 0.0, 0.0}, whose bit patterns are all-zero bytes.
    let adj = Adjustment::identity();
    assert_eq!(adj.uniform_bytes(), vec![0u8; 16]);
    assert_eq!(Adjustment::new(0.0f32.to_bits(), 0, 0), Adjustment::identity());
}

#[test]
fn uniform_block_is_little_endian_floats() {
    let adj = Adjustment::new(1.0f32.to_bits(), 0.5f32.to_bits(), 2.0f32.to_bits());
    let mut expected = Vec::new();
    expected.extend_from_slice(&1.0f32.to_le_bytes());
    expected.extend_from_slice(&0.5f32.to_le_bytes());
    expected.extend_from_slice(&2.0f32.to_le_bytes());
    expected.extend_from_slice(&[0, 0, 0, 0]);
    assert_eq!(adj.uniform_bytes(), expected);
}

#[test]
fn draw_requires_configuration_first() {
    let mut core = RenderCore::new(gradient_bitmap(2, 2));
    assert_eq!(core.draw(false).unwrap_err(), DrawError::NotConfigured);
    core.reconfigure(320, 240);
    assert!(core.draw(false).is_ok());
}

#[test]
fn draw_on_empty_queue_is_rejected() {
    let core = RenderCore {
        queue: BitmapQueue::new(),
        adjustment: Adjustment::identity(),
        surface_width: 64,
        surface_height: 64,
        configured: true,
        bound_index: None,
        export_request: None,
        exports_in_flight: 0,
    };
    let mut core = core;
    assert_eq!(core.draw(true).unwrap_err(), DrawError::EmptyQueue);
}

#[test]
fn ingest_one_bitmap_then_draw_rebinds_exactly_once() {
    // One 64x64 bitmap, a draw with {hue: pi, sat: 0, val: 0}: a frame is
    // produced, the bind group is rebuilt once, and a second draw with an
    // unchanged bitmap only rewrites the uniform.
    let mut core = RenderCore::new(gradient_bitmap(64, 64));
    core.reconfigure(64, 64);
    core.set_adjustment(Adjustment::new(
        std::f32::consts::PI.to_bits(),
        0.0f32.to_bits(),
        0.0f32.to_bits(),
    ));
    let first = core.draw(false).unwrap();
    assert_eq!(first.rebind, Some(0));
    assert!(first.capture.is_none());
    let second = core.draw(false).unwrap();
    assert_eq!(second.rebind, None);
    assert_eq!(second.uniform, first.uniform);
    let mut expected = std::f32::consts::PI.to_le_bytes().to_vec();
    expected.extend_from_slice(&[0; 12]);
    assert_eq!(first.uniform, expected);
}

#[test]
fn selection_then_draw_binds_that_bitmap() {
    let mut core = RenderCore::new(gradient_bitmap(2, 2));
    core.reconfigure(64, 64);
    core.drain_into_queue(vec![gradient_bitmap(3, 3), gradient_bitmap(4, 4)]);
    core.draw(false).unwrap();
    assert!(core.set_current(2));
    let plan = core.draw(false).unwrap();
    assert_eq!(plan.rebind, Some(2));
    assert_eq!(core.bound_index, Some(2));
}

#[test]
fn set_current_out_of_range_changes_nothing() {
    let mut core = RenderCore::new(gradient_bitmap(2, 2));
    core.reconfigure(64, 64);
    assert!(!core.set_current(1));
    assert_eq!(core.queue.current_index, 0);
}

#[test]
fn ingestion_batch_resets_adjustment() {
    let mut core = RenderCore::new(gradient_bitmap(2, 2));
    core.set_adjustment(Adjustment::new(7, 8, 9));
    core.drain_into_queue(vec![gradient_bitmap(3, 3)]);
    assert_eq!(core.adjustment, Adjustment::identity());
    assert_eq!(core.queue.len(), 2);
}

#[test]
fn export_plan_uses_bitmap_native_dimensions() {
    // The canvas is small, but the capture target must have the bitmap's
    // own dimensions so exports are not resolution-limited by the viewport.
    let mut core = RenderCore::new(gradient_bitmap(100, 3));
    core.reconfigure(10, 10);
    let (capture_plan, restore_plan) = core.draw_to_texture("out.png".to_string()).unwrap();
    let capture = capture_plan.capture.unwrap();
    assert_eq!((capture.width, capture.height), (100, 3));
    assert_eq!(capture.unpadded_bytes_per_row, 400);
    assert_eq!(capture.padded_bytes_per_row, 512);
    assert_eq!(capture.buffer_size, 512 * 3);
    assert_eq!(capture.filename, "out.png");
    // The restoring draw presents to the surface and needs no rebind.
    assert!(restore_plan.capture.is_none());
    assert_eq!(restore_plan.rebind, None);
    assert_eq!(core.exports_in_flight, 1);
}

#[test]
fn export_round_trip_without_padding() {
    // width 64: 4 * width = 256 bytes per row, already a multiple of 256.
    export_round_trip(gradient_bitmap(64, 64));
}

#[test]
fn export_round_trip_with_padding() {
    // width 100: 400 bytes per row, padded to 512; the strip must be exact.
    export_round_trip(gradient_bitmap(100, 3));
}

fn export_round_trip(bitmap: Bitmap) {
    let source_pixels = bitmap.pixels.clone();
    let (w, h) = bitmap.dimensions();
    let mut core = RenderCore::new(bitmap);
    core.reconfigure(32, 32);
    let (capture_plan, _restore) = core.draw_to_texture("trip.png".to_string()).unwrap();
    let capture = capture_plan.capture.unwrap();
    let data = padded_readback(core.queue.get(0), capture.padded_bytes_per_row);
    assert_eq!(data.len() as u64, capture.buffer_size);
    let out = core.complete_export(capture, data).unwrap();
    assert_eq!((out.width, out.height), (w, h));
    assert_eq!(out.filename, "trip.png");
    assert_eq!(core.exports_in_flight, 0);
    // Decoding the exported bytes yields the same dimensions and, for the
    // identity adjustment, pixel-for-pixel equal content.
    let decoded = image::load_from_memory(&out.bytes).unwrap();
    assert_eq!((decoded.width(), decoded.height()), (w, h));
    assert_eq!(decoded.to_rgba8().into_raw(), source_pixels);
}

#[test]
fn overlapping_exports_complete_independently() {
    // A second export requested while the first readback is still pending:
    // both completions fire independently and produce two distinct,
    // correctly sized outputs, and every export is followed by a restoring
    // surface draw so the display is never left blank.
    let mut core = RenderCore::new(gradient_bitmap(64, 2));
    core.reconfigure(64, 64);
    core.drain_into_queue(vec![gradient_bitmap(100, 3)]);

    let (plan_a, restore_a) = core.draw_to_texture("a.png".to_string()).unwrap();
    let capture_a = plan_a.capture.unwrap();
    assert!(restore_a.capture.is_none());

    // The first readback is still pending; request another export of the
    // other bitmap. Drawing is not blocked.
    assert!(core.set_current(1));
    let (plan_b, restore_b) = core.draw_to_texture("b.png".to_string()).unwrap();
    let capture_b = plan_b.capture.unwrap();
    assert!(restore_b.capture.is_none());
    assert_eq!(core.exports_in_flight, 2);

    // The mapping callbacks fire in either order; complete the later one
    // first.
    let data_b = padded_readback(core.queue.get(1), capture_b.padded_bytes_per_row);
    let out_b = core.complete_export(capture_b, data_b).unwrap();
    assert_eq!(core.exports_in_flight, 1);

    let data_a = padded_readback(core.queue.get(0), capture_a.padded_bytes_per_row);
    let out_a = core.complete_export(capture_a, data_a).unwrap();
    assert_eq!(core.exports_in_flight, 0);

    assert_eq!((out_a.width, out_a.height), (64, 2));
    assert_eq!((out_b.width, out_b.height), (100, 3));
    assert_ne!(out_a.bytes, out_b.bytes);
    let dec_a = image::load_from_memory(&out_a.bytes).unwrap();
    let dec_b = image::load_from_memory(&out_b.bytes).unwrap();
    assert_eq!((dec_a.width(), dec_a.height()), (64, 2));
    assert_eq!((dec_b.width(), dec_b.height()), (100, 3));
}

#[test]
fn export_with_wrong_buffer_size_is_abandoned() {
    let mut core = RenderCore::new(gradient_bitmap(64, 2));
    core.reconfigure(64, 64);
    let (plan, _restore) = core.draw_to_texture("bad.png".to_string()).unwrap();
    let capture = plan.capture.unwrap();
    let short = vec![0u8; capture.buffer_size as usize - 1];
    assert_eq!(
        core.complete_export(capture, short).unwrap_err(),
        ExportError::WrongBufferSize
    );
    // The abandoned export is no longer in flight and the state is intact.
    assert_eq!(core.exports_in_flight, 0);
    assert_eq!(core.queue.len(), 1);
}

#[test]
fn abandoned_readback_only_settles_the_counter() {
    let mut core = RenderCore::new(gradient_bitmap(64, 2));
    core.reconfigure(64, 64);
    core.draw_to_texture("lost.png".to_string()).unwrap();
    assert_eq!(core.exports_in_flight, 1);
    core.abandon_export();
    assert_eq!(core.exports_in_flight, 0);
    assert_eq!(core.queue.len(), 1);
    assert!(core.configured);
}
