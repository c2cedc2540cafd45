use gif_resizer::model::{all_indices_below, delay_centiseconds, gif_palette, DecodedFrame, Rgba};
use gif_resizer::resizer::{to_indexed_frame, GifResizer, PipelineError};

const RED_BLUE: [u8; 6] = [255, 0, 0, 0, 0, 255];

/// Writes an animated GIF whose frames are given as (indices, palette, delay).
fn build_gif(width: u16, height: u16, frames: &[(Vec<u8>, Vec<u8>, u16)]) -> Vec<u8> {
    let mut out = Vec::new();
    {
        let mut encoder = gif::Encoder::new(&mut out, width, height, &[]).unwrap();
        encoder.set_repeat(gif::Repeat::Infinite).unwrap();
        for (indices, palette, delay) in frames {
            let mut frame = gif::Frame::from_indexed_pixels(width, height, indices.clone(), None);
            frame.delay = *delay;
            frame.palette = Some(palette.clone());
            encoder.write_frame(&frame).unwrap();
        }
    }
    out
}

/// Decodes a GIF into (width, height, delay, buffer) per frame, and its repeat setting.
fn read_gif(bytes: &[u8], color: gif::ColorOutput) -> (Vec<(u16, u16, u16, Vec<u8>)>, gif::Repeat) {
    let mut options = gif::DecodeOptions::new();
    options.set_color_output(color);
    let mut decoder = options.read_info(bytes).unwrap();
    let mut frames = Vec::new();
    while let Some(frame) = decoder.read_next_frame().unwrap() {
        frames.push((frame.width, frame.height, frame.delay, frame.buffer.to_vec()));
    }
    let repeat = decoder.repeat();
    (frames, repeat)
}

fn red_blue_source() -> Vec<u8> {
    let red = vec![0u8; 100];
    let blue = vec![1u8; 100];
    build_gif(10, 10, &[(red, RED_BLUE.to_vec(), 10), (blue, RED_BLUE.to_vec(), 20)])
}

#[test]
fn two_frames_resized_keep_count_delays_and_size() {
    let mut resizer = GifResizer::new();
    resizer.load_gif(&red_blue_source()).unwrap();
    assert_eq!(resizer.frame_count(), 2);
    assert_eq!(resizer.original_width(), 10);
    assert_eq!(resizer.original_height(), 10);
    let out = resizer.resize(5, 5).unwrap();
    let (frames, repeat) = read_gif(&out, gif::ColorOutput::Indexed);
    assert_eq!(frames.len(), 2);
    assert_eq!(frames.iter().map(|f| f.2).collect::<Vec<_>>(), vec![10, 20]);
    for f in &frames {
        assert_eq!((f.0, f.1), (5, 5));
        assert_eq!(f.3.len(), 25);
    }
    assert_eq!(repeat, gif::Repeat::Infinite);
}

#[test]
fn resize_before_load_is_no_source_loaded() {
    let mut resizer = GifResizer::new();
    assert_eq!(resizer.resize(5, 5), Err(PipelineError::NoSourceLoaded));
    assert_eq!(resizer.frame_count(), 0);
    assert_eq!(resizer.original_width(), 0);
}

#[test]
fn resize_to_zero_width_is_invalid_dimensions() {
    let mut resizer = GifResizer::new();
    resizer.load_gif(&red_blue_source()).unwrap();
    assert_eq!(resizer.resize(0, 10), Err(PipelineError::InvalidDimensions));
    assert_eq!(resizer.resize(10, 0), Err(PipelineError::InvalidDimensions));
}

#[test]
fn resize_beyond_gif_limit_is_encode_error() {
    let mut resizer = GifResizer::new();
    resizer.load_gif(&red_blue_source()).unwrap();
    assert_eq!(resizer.resize(70000, 10), Err(PipelineError::EncodeError { frame: 0 }));
}

#[test]
fn garbage_is_decode_error_and_keeps_loaded_frames() {
    let mut resizer = GifResizer::new();
    assert_eq!(resizer.load_gif(b"not a gif"), Err(PipelineError::DecodeError { frame: 0 }));
    assert_eq!(resizer.load_gif(&[]), Err(PipelineError::DecodeError { frame: 0 }));
    resizer.load_gif(&red_blue_source()).unwrap();
    assert_eq!(resizer.load_gif(b"GIF89a"), Err(PipelineError::DecodeError { frame: 0 }));
    assert_eq!(resizer.frame_count(), 2);
    assert_eq!(resizer.original_width(), 10);
}

#[test]
fn stream_without_frames_is_decode_error() {
    let bytes = build_gif(4, 4, &[]);
    let mut resizer = GifResizer::new();
    assert_eq!(resizer.load_gif(&bytes), Err(PipelineError::DecodeError { frame: 0 }));
    assert_eq!(resizer.frame_count(), 0);
}

#[test]
fn zero_delay_is_raised_to_one() {
    let bytes = build_gif(2, 2, &[(vec![0; 4], RED_BLUE.to_vec(), 0), (vec![1; 4], RED_BLUE.to_vec(), 7)]);
    let mut resizer = GifResizer::new();
    resizer.load_gif(&bytes).unwrap();
    let out = resizer.resize(3, 1).unwrap();
    let (frames, _) = read_gif(&out, gif::ColorOutput::Indexed);
    assert_eq!(frames.iter().map(|f| f.2).collect::<Vec<_>>(), vec![1, 7]);
    assert!(frames.iter().all(|f| f.3.len() == 3));
}

#[test]
fn same_size_resize_is_lossless_for_few_colors() {
    let indices: Vec<u8> = (0..64u8).map(|i| (i / 3) % 2).collect();
    let bytes = build_gif(8, 8, &[(indices.clone(), RED_BLUE.to_vec(), 5)]);
    let mut resizer = GifResizer::new();
    resizer.load_gif(&bytes).unwrap();
    let out = resizer.resize(8, 8).unwrap();
    let (frames, _) = read_gif(&out, gif::ColorOutput::RGBA);
    assert_eq!(frames.len(), 1);
    let rgba = &frames[0].3;
    for (i, idx) in indices.iter().enumerate() {
        let want = &RED_BLUE[3 * *idx as usize..3 * *idx as usize + 3];
        assert_eq!(&rgba[4 * i..4 * i + 3], want);
    }
}

#[test]
fn same_input_gives_same_bytes() {
    let mut a = GifResizer::new();
    let mut b = GifResizer::new();
    a.load_gif(&red_blue_source()).unwrap();
    b.load_gif(&red_blue_source()).unwrap();
    assert_eq!(a.resize(7, 3).unwrap(), b.resize(7, 3).unwrap());
    assert_eq!(a.resize(7, 3).unwrap(), a.resize(7, 3).unwrap());
}

#[test]
fn same_size_resize_keeps_count_and_size() {
    let mut resizer = GifResizer::new();
    resizer.load_gif(&red_blue_source()).unwrap();
    let out = resizer.resize(10, 10).unwrap();
    let (frames, _) = read_gif(&out, gif::ColorOutput::Indexed);
    assert_eq!(frames.len(), 2);
    assert!(frames.iter().all(|f| f.0 == 10 && f.1 == 10 && f.3.len() == 100));
}

#[test]
fn upscale_keeps_count_and_size() {
    let mut resizer = GifResizer::new();
    resizer.load_gif(&red_blue_source()).unwrap();
    let out = resizer.resize(23, 17).unwrap();
    let (frames, _) = read_gif(&out, gif::ColorOutput::Indexed);
    assert_eq!(frames.len(), 2);
    assert!(frames.iter().all(|f| f.3.len() == 23 * 17));
}

#[test]
fn delay_centiseconds_values() {
    assert_eq!(delay_centiseconds(100, 1), 10);
    assert_eq!(delay_centiseconds(200, 1), 20);
    assert_eq!(delay_centiseconds(0, 1), 1);
    assert_eq!(delay_centiseconds(9, 1), 1);
    assert_eq!(delay_centiseconds(1000, 30), 3);
    assert_eq!(delay_centiseconds(u32::MAX, 1), u16::MAX);
    assert_eq!(delay_centiseconds(1, 0), u16::MAX);
    assert_eq!(delay_centiseconds(0, 0), 1);
}

#[test]
fn palette_is_padded_to_full_table() {
    let colors = vec![Rgba { r: 1, g: 2, b: 3, a: 255 }, Rgba { r: 4, g: 5, b: 6, a: 0 }];
    let table = gif_palette(&colors);
    assert_eq!(table.len(), 768);
    assert_eq!(&table[..6], &[1, 2, 3, 4, 5, 6]);
    assert!(table[6..].iter().all(|b| *b == 0));
    assert_eq!(gif_palette(&Vec::new()), vec![0u8; 768]);
}

#[test]
fn index_bounds() {
    assert!(all_indices_below(&vec![0, 1, 2], 3));
    assert!(!all_indices_below(&vec![0, 3, 2], 3));
    assert!(all_indices_below(&Vec::new(), 0));
    assert!(!all_indices_below(&vec![0], 0));
}

#[test]
fn indexed_frame_checks_its_parts() {
    let colors = vec![Rgba { r: 9, g: 8, b: 7, a: 255 }, Rgba { r: 0, g: 0, b: 0, a: 255 }];
    let f = to_indexed_frame(&colors, vec![0, 1, 1, 0], 2, 2, 4).unwrap();
    assert_eq!(f.indices, vec![0, 1, 1, 0]);
    assert_eq!(f.delay, 4);
    assert_eq!(&f.palette[..6], &[9, 8, 7, 0, 0, 0]);
    assert_eq!(f.palette.len(), 768);
    assert!(to_indexed_frame(&colors, vec![0, 1, 2, 0], 2, 2, 4).is_none());
    assert!(to_indexed_frame(&colors, vec![0, 1, 1], 2, 2, 4).is_none());
    let too_many = vec![Rgba { r: 0, g: 0, b: 0, a: 0 }; 257];
    assert!(to_indexed_frame(&too_many, vec![0; 4], 2, 2, 4).is_none());
}

fn solid(width: u32, height: u32, rgba: [u8; 4], numer: u32, denom: u32) -> DecodedFrame {
    let mut pixels = Vec::new();
    for _ in 0..width * height {
        pixels.extend_from_slice(&rgba);
    }
    DecodedFrame { width, height, pixels, delay_numer: numer, delay_denom: denom }
}

#[test]
fn load_frames_keeps_size_and_converts_delays() {
    let mut resizer = GifResizer::new();
    let frames = vec![solid(3, 2, [1, 2, 3, 255], 150, 1), solid(3, 2, [9, 9, 9, 255], 0, 1), solid(3, 2, [0, 0, 0, 0], 1000, 3)];
    assert_eq!(resizer.load_frames(frames), Ok(()));
    assert_eq!(resizer.frame_count(), 3);
    assert_eq!((resizer.original_width(), resizer.original_height()), (3, 2));
    let out = resizer.resize(4, 4).unwrap();
    let (frames, _) = read_gif(&out, gif::ColorOutput::Indexed);
    assert_eq!(frames.iter().map(|f| f.2).collect::<Vec<_>>(), vec![15, 1, 33]);
    assert!(frames.iter().all(|f| f.3.len() == 16));
}

#[test]
fn load_frames_refuses_bad_frames_and_changes_nothing() {
    let mut resizer = GifResizer::new();
    assert_eq!(resizer.load_frames(Vec::new()), Err(PipelineError::DecodeError { frame: 0 }));
    assert_eq!(resizer.load_frames(vec![solid(0, 2, [0; 4], 10, 1)]), Err(PipelineError::DecodeError { frame: 0 }));
    let mut short = solid(2, 2, [5; 4], 10, 1);
    short.pixels.pop();
    assert_eq!(resizer.load_frames(vec![solid(2, 2, [5; 4], 10, 1), short]), Err(PipelineError::DecodeError { frame: 1 }));
    let frames = vec![solid(2, 2, [5; 4], 10, 1), solid(2, 2, [6; 4], 10, 1), solid(3, 2, [7; 4], 10, 1)];
    assert_eq!(resizer.load_frames(frames), Err(PipelineError::DecodeError { frame: 2 }));
    assert_eq!(resizer.frame_count(), 0);
    assert_eq!(resizer.resize(2, 2), Err(PipelineError::NoSourceLoaded));
}

#[test]
fn truncated_stream_names_the_failing_frame() {
    let bytes = red_blue_source();
    let mut cut = bytes[..bytes.len() - 20].to_vec();
    cut.push(0x3B);
    let mut resizer = GifResizer::new();
    match resizer.load_gif(&cut) {
        Err(PipelineError::DecodeError { frame }) => assert!(frame <= 1),
        other => panic!("expected a decode error, got {:?}", other),
    }
    assert_eq!(resizer.frame_count(), 0);
}
