use stdvis::{native_to_view, view_to_native, PixelBuffer, ShapeError};

fn sample_buffer(rows: usize, cols: usize, channels: usize, row_stride: usize) -> PixelBuffer {
    let len = rows * row_stride;
    let data: Vec<u8> = (0..len).map(|i| (i % 251) as u8).collect();
    PixelBuffer::new(rows, cols, channels, row_stride, data).unwrap()
}

#[test]
fn round_trip_preserves_shape_and_stride() {
    // a padded buffer: rows of 3 pixels x 3 channels = 9 bytes, laid 11 apart
    let buf = sample_buffer(4, 3, 3, 11);
    let view = native_to_view(&buf).unwrap();
    let desc = view_to_native(&view, 3).unwrap();
    assert_eq!(desc.rows, 4);
    assert_eq!(desc.cols, 3);
    assert_eq!(desc.channels, 3);
    assert_eq!(desc.row_stride, 11);
    assert_eq!(desc, buf.desc());
}

#[test]
fn round_trip_single_channel() {
    let buf = sample_buffer(5, 4, 0, 6);
    let view = native_to_view(&buf).unwrap();
    assert_eq!(view.shape(), &vec![5, 4]);
    let desc = view_to_native(&view, 0).unwrap();
    assert_eq!(desc, buf.desc());
}

#[test]
fn round_trip_write_through() {
    let mut buf = sample_buffer(4, 3, 3, 11);
    let view = native_to_view(&buf).unwrap();
    view.set_sample(&mut buf, 2, 1, 0, 201);
    // the change is visible through the original native handle ...
    assert_eq!(buf.sample(2, 1, 0), 201);
    assert_eq!(buf.data[2 * 11 + 1 * 3], 201);
    // ... and the other direction: a write through the handle is seen
    // through the view
    buf.write_sample(3, 2, 2, 77);
    let view = native_to_view(&buf).unwrap();
    assert_eq!(view.sample(&buf, 3, 2, 2), 77);
}

#[test]
fn shape_invariant_with_channels() {
    let buf = sample_buffer(7, 5, 3, 15);
    let view = native_to_view(&buf).unwrap();
    assert_eq!(view.shape(), &vec![7, 5, 3]);
    assert_eq!(view.ndim(), 3);
    assert_eq!(view.stride_of(0), 15);
    assert_eq!(view.stride_of(1), 3);
    assert_eq!(view.stride_of(2), 1);
}

#[test]
fn shape_invariant_without_channels() {
    let buf = sample_buffer(7, 5, 0, 5);
    let view = native_to_view(&buf).unwrap();
    assert_eq!(view.shape(), &vec![7, 5]);
    assert_eq!(view.ndim(), 2);
    assert_eq!(view.stride_of(0), 5);
    assert_eq!(view.stride_of(1), 1);
}

#[test]
fn aliasing_single_sample_visible_immediately() {
    let mut buf = sample_buffer(3, 3, 3, 9);
    let view = native_to_view(&buf).unwrap();
    view.set_sample(&mut buf, 0, 0, 0, 255);
    // through the native handle
    assert_eq!(buf.sample(0, 0, 0), 255);
    // through a freshly re-derived view of the same buffer
    let fresh = native_to_view(&buf).unwrap();
    assert_eq!(fresh.sample(&buf, 0, 0, 0), 255);
    // neighbours untouched
    assert_eq!(buf.sample(0, 0, 1), 1);
    assert_eq!(buf.sample(0, 1, 0), 3);
}

#[test]
fn padded_rows_use_native_stride() {
    let buf = sample_buffer(2, 2, 2, 7);
    let view = native_to_view(&buf).unwrap();
    // second row starts at the native stride, not at cols * channels
    assert_eq!(view.sample(&buf, 1, 0, 0), buf.data[7]);
    assert_eq!(view.sample(&buf, 1, 1, 1), buf.data[7 + 3]);
}

#[test]
fn zero_channel_buffer_is_single_channel() {
    let buf = sample_buffer(3, 5, 0, 6);
    assert_eq!(buf.channel_width(), 1);
    let view = native_to_view(&buf).unwrap();
    assert_eq!(view.sample(&buf, 2, 4, 0), buf.data[2 * 6 + 4]);
}

#[test]
fn zero_dimension_buffer_rejected() {
    assert_eq!(
        PixelBuffer::new(0, 4, 3, 12, vec![]).unwrap_err(),
        ShapeError::InsufficientDimensions
    );
    assert_eq!(
        PixelBuffer::new(4, 0, 3, 12, vec![0; 48]).unwrap_err(),
        ShapeError::InsufficientDimensions
    );
}

#[test]
fn inconsistent_metadata_rejected() {
    // stride smaller than a row's bytes
    assert_eq!(
        PixelBuffer::new(2, 4, 3, 11, vec![0; 22]).unwrap_err(),
        ShapeError::InconsistentMetadata
    );
    // storage length contradicting rows * stride
    assert_eq!(
        PixelBuffer::new(2, 4, 3, 12, vec![0; 25]).unwrap_err(),
        ShapeError::InconsistentMetadata
    );
}

#[test]
fn native_to_view_rechecks_metadata() {
    let mut buf = sample_buffer(2, 4, 3, 12);
    buf.rows = 0;
    assert_eq!(
        native_to_view(&buf).unwrap_err(),
        ShapeError::InsufficientDimensions
    );
    let mut buf = sample_buffer(2, 4, 3, 12);
    buf.row_stride = 5;
    assert_eq!(
        native_to_view(&buf).unwrap_err(),
        ShapeError::InconsistentMetadata
    );
}

#[test]
fn view_to_native_needs_two_dimensions() {
    let buf = sample_buffer(4, 3, 3, 9);
    let mut view = native_to_view(&buf).unwrap();
    view.dims = vec![9];
    view.strides = vec![1];
    assert_eq!(
        view_to_native(&view, 3).unwrap_err(),
        ShapeError::InsufficientDimensions
    );
}

#[test]
fn view_to_native_rejects_foreign_layouts() {
    let buf = sample_buffer(4, 3, 3, 9);
    let view = native_to_view(&buf).unwrap();
    // the channel count does not match the trailing dimension
    assert_eq!(
        view_to_native(&view, 4).unwrap_err(),
        ShapeError::InconsistentMetadata
    );
    // a three-dimensional view cannot drop into a channel-less handle
    assert_eq!(
        view_to_native(&view, 0).unwrap_err(),
        ShapeError::InconsistentMetadata
    );
}
