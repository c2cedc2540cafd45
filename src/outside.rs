//! What the pipeline takes from the image, imagequant and gif crates, with the
//! contracts that it relies on.
use crate::model::{
    decoded_models, DecodedFrame, DecodedFrameModel, GifBlock, GifStreamModel, IndexedFrame, Rgba,
    RgbaFrame,
};
use image::AnimationDecoder;
use vstd::prelude::*;

verus! {

#[verifier::external_type_specification]
#[verifier::external_body]
pub struct ExImageError(image::ImageError);

#[verifier::external_type_specification]
#[verifier::external_body]
pub struct ExQuantError(imagequant::Error);

/// A GIF encoder writing into a buffer of its own. Verus cannot take the
/// encoder's type, whose parameter is bound by `std::io::Write`, so it is held
/// here out of sight and spoken of through `gif_stream_state`.
#[verifier::external_body]
pub struct GifWriter {
    encoder: gif::Encoder<Vec<u8>>,
}

#[verifier::external_type_specification]
#[verifier::external_body]
pub struct ExGifEncodingError(gif::EncodingError);

/// What the image crate decodes from a GIF stream: the frames before the first
/// failure, in order, and whether a failure ended the stream.
pub uninterp spec fn gif_decode_outcome(bytes: Seq<u8>) -> (Seq<DecodedFrameModel>, bool);

/// Relies on image's `GifDecoder::new` and its frame iterator (`into_frames`):
/// each frame composed onto the logical screen as RGBA, with its delay, up to
/// the first error, which is handed back beside them. The outcome depends on
/// the bytes alone.
#[verifier::external_body]
pub(crate) fn decode_gif_frames(bytes: &[u8]) -> (r: (Vec<DecodedFrame>, Option<image::ImageError>))
    ensures
        gif_decode_outcome(bytes@) == (decoded_models(r.0@), r.1 is Some),
{
    let decoder = match image::codecs::gif::GifDecoder::new(std::io::Cursor::new(bytes)) {
        Ok(decoder) => decoder,
        Err(e) => return (Vec::new(), Some(e)),
    };
    let mut failure = None;
    let frames = decoder.into_frames().map_while(|f| f.map_err(|e| failure = Some(e)).ok()).map(|f| {
        let (delay_numer, delay_denom) = f.delay().numer_denom_ms();
        let b = f.into_buffer();
        DecodedFrame { width: b.width(), height: b.height(), pixels: b.into_raw(), delay_numer, delay_denom }
    }).collect();
    (frames, failure)
}

/// The RGBA pixels that the image crate's Lanczos3 filter gives for a
/// `width * height` image resampled to `new_width * new_height`.
pub uninterp spec fn lanczos3_resized(
    pixels: Seq<u8>,
    width: u32,
    height: u32,
    new_width: u32,
    new_height: u32,
) -> Seq<u8>;

/// Relies on image's `DynamicImage::resize_exact` with `FilterType::Lanczos3`.
/// `ImageBuffer::from_raw` takes a buffer that holds the frame's pixels.
#[verifier::external_body]
pub(crate) fn resize_lanczos3(frame: &RgbaFrame, new_width: u32, new_height: u32) -> (r: Option<Vec<u8>>)
    requires
        frame.width > 0,
        frame.height > 0,
        new_width > 0,
        new_height > 0,
    ensures
        r matches Some(v) ==> v@ == lanczos3_resized(frame.pixels@, frame.width, frame.height, new_width, new_height),
        frame.wf() ==> r is Some,
{
    let buffer = image::RgbaImage::from_raw(frame.width, frame.height, frame.pixels.clone())?;
    let resized = image::DynamicImage::ImageRgba8(buffer).resize_exact(new_width, new_height, image::imageops::FilterType::Lanczos3);
    Some(resized.to_rgba8().into_raw())
}

/// The palette and the per-pixel indices that imagequant gives for an image of
/// `width * height` RGBA pixels at these speed and quality settings, or `None`
/// where it refuses them.
pub uninterp spec fn quantized_of(
    pixels: Seq<u8>,
    width: usize,
    height: usize,
    speed: i32,
    minimum: u8,
    target: u8,
) -> Option<(Seq<Rgba>, Seq<u8>)>;

/// Relies on imagequant's `Attributes::new`, `set_speed`, `set_quality`,
/// `new_image`, `quantize` and `QuantizationResult::remapped`, in that order:
/// the values passed between them are imagequant's own, so the sequence is
/// trusted as one call. Dithering stays at its default, full strength; gamma
/// at its default, zero, which imagequant reads as sRGB. Built without threads,
/// the result depends on the arguments alone.
#[verifier::external_body]
pub(crate) fn quantize_remap(pixels: &Vec<u8>, width: usize, height: usize, speed: i32, minimum: u8, target: u8) -> (r: Result<(Vec<Rgba>, Vec<u8>), imagequant::Error>)
    ensures
        r matches Ok((c, i)) ==> quantized_of(pixels@, width, height, speed, minimum, target) == Some((c@, i@)),
        r is Err ==> quantized_of(pixels@, width, height, speed, minimum, target) is None,
{
    let mut attr = imagequant::Attributes::new();
    attr.set_speed(speed)?;
    attr.set_quality(minimum, target)?;
    let rgba: Vec<_> = pixels.chunks_exact(4).map(|c| imagequant::RGBA::new(c[0], c[1], c[2], c[3])).collect();
    let mut image = attr.new_image(rgba, width, height, Default::default())?;
    let (palette, indices) = attr.quantize(&mut image)?.remapped(&mut image)?;
    Ok((palette.into_iter().map(|c| Rgba { r: c.r, g: c.g, b: c.b, a: c.a }).collect(), indices))
}

/// What a GIF encoder has been handed so far.
pub uninterp spec fn gif_stream_state(e: GifWriter) -> GifStreamModel;

/// The bytes of a finished GIF stream: header and logical screen, the blocks in
/// order, and the trailer.
pub uninterp spec fn gif_stream_bytes(stream: GifStreamModel) -> Seq<u8>;

/// Relies on gif's `Encoder::new`: writes the header and a logical screen of the
/// given size, with no global color table, into a fresh buffer; with an empty
/// table this cannot fail.
#[verifier::external_body]
pub(crate) fn gif_encoder_new(width: u16, height: u16) -> (r: Result<GifWriter, gif::EncodingError>)
    ensures
        r is Ok,
        r matches Ok(e) ==> gif_stream_state(e) == (GifStreamModel { width, height, blocks: Seq::empty() }),
{
    Ok(GifWriter { encoder: gif::Encoder::new(Vec::new(), width, height, &[])? })
}

/// Relies on gif's `Encoder::set_repeat` with `Repeat::Infinite`: writes the
/// looping extension, which cannot fail on a buffer.
#[verifier::external_body]
pub(crate) fn gif_repeat_forever(e: &mut GifWriter) -> (r: Result<(), gif::EncodingError>)
    ensures
        r is Ok,
        r is Ok ==> gif_stream_state(*final(e)) == (GifStreamModel {
            blocks: gif_stream_state(*old(e)).blocks.push(GifBlock::RepeatForever),
            ..gif_stream_state(*old(e))
        }),
{
    e.encoder.set_repeat(gif::Repeat::Infinite)
}

/// Relies on gif's `Frame::from_indexed_pixels`, which takes one index per pixel,
/// and `Encoder::write_frame`: writes the image with the frame's delay and its
/// palette as a local color table. On a buffer it fails only for a table of
/// more than 256 colors.
#[verifier::external_body]
pub(crate) fn gif_write_frame(e: &mut GifWriter, frame: &IndexedFrame) -> (r: Result<(), gif::EncodingError>)
    requires
        frame.indices@.len() == frame.width as int * frame.height as int,
    ensures
        frame.palette@.len() <= 768 ==> r is Ok,
        r is Ok ==> gif_stream_state(*final(e)) == (GifStreamModel {
            blocks: gif_stream_state(*old(e)).blocks.push(GifBlock::Image(frame@)),
            ..gif_stream_state(*old(e))
        }),
{
    let mut f = gif::Frame::from_indexed_pixels(frame.width, frame.height, frame.indices.clone(), None);
    f.delay = frame.delay;
    f.palette = Some(frame.palette.clone());
    e.encoder.write_frame(&f)
}

/// Relies on gif's `Encoder::into_inner`: writes the trailer and hands back the
/// buffer, which the writer still holds.
#[verifier::external_body]
pub(crate) fn gif_finish(e: GifWriter) -> (r: Result<Vec<u8>, gif::EncodingError>)
    ensures
        r is Ok,
        r matches Ok(b) ==> b@ == gif_stream_bytes(gif_stream_state(e)),
{
    e.encoder.into_inner()
}

} // verus!
