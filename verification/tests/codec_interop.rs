// The pixel layer against a real codec: a buffer's samples survive a trip
// through PNG encoding and decoding, read back through both access paths.

use stdvis::{native_to_view, PixelBuffer};

fn patterned_buffer(rows: usize, cols: usize) -> PixelBuffer {
    let stride = cols * 3;
    let mut data = vec![0u8; rows * stride];
    for r in 0..rows {
        for c in 0..cols {
            let off = r * stride + c * 3;
            data[off] = (r * 31 + c * 7) as u8;
            data[off + 1] = (r * 13 + c * 3) as u8;
            data[off + 2] = (r + c * 11) as u8;
        }
    }
    PixelBuffer::new(rows, cols, 3, stride, data).unwrap()
}

fn encode(buffer: &PixelBuffer) -> Vec<u8> {
    let mut out = Vec::new();
    {
        let mut encoder = png::Encoder::new(&mut out, buffer.cols as u32, buffer.rows as u32);
        encoder.set_color(png::ColorType::Rgb);
        encoder.set_depth(png::BitDepth::Eight);
        let mut writer = encoder.write_header().unwrap();
        writer.write_image_data(&buffer.data).unwrap();
    }
    out
}

fn decode(bytes: &[u8]) -> PixelBuffer {
    let decoder = png::Decoder::new(bytes);
    let mut reader = decoder.read_info().unwrap();
    let mut img_buf = vec![0u8; reader.output_buffer_size()];
    let info = reader.next_frame(&mut img_buf).unwrap();
    assert_eq!(info.color_type, png::ColorType::Rgb);
    img_buf.truncate(info.buffer_size());
    let rows = info.height as usize;
    let cols = info.width as usize;
    PixelBuffer::new(rows, cols, 3, cols * 3, img_buf).unwrap()
}

#[test]
fn png_round_trip_preserves_every_sample() {
    let original = patterned_buffer(6, 9);
    let decoded = decode(&encode(&original));

    assert_eq!(decoded.rows, original.rows);
    assert_eq!(decoded.cols, original.cols);
    assert_eq!(decoded.channels, original.channels);

    let view = native_to_view(&decoded).unwrap();
    assert_eq!(view.shape(), &vec![6, 9, 3]);
    for r in 0..original.rows {
        for c in 0..original.cols {
            for k in 0..3 {
                // through the native handle and through the derived view
                assert_eq!(decoded.sample(r, c, k), original.sample(r, c, k));
                assert_eq!(view.sample(&decoded, r, c, k), original.sample(r, c, k));
            }
        }
    }
}
