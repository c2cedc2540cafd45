//! The resizing pipeline: decode once, then resample, quantize and re-encode
//! every frame for each requested size.
use crate::model::{
    all_indices_below, decoded_models, delay_centiseconds, delay_centiseconds_of, gif_palette, gif_palette_of,
    indices_within, DecodedFrame, DecodedFrameModel, GifBlock, GifStreamModel, IndexedFrame, IndexedFrameModel,
    Rgba, RgbaFrame, PALETTE_ENTRIES,
};
use crate::outside::{
    decode_gif_frames, gif_decode_outcome, gif_encoder_new, gif_finish, gif_repeat_forever,
    gif_stream_bytes, gif_stream_state, gif_write_frame, lanczos3_resized, quantize_remap,
    quantized_of, resize_lanczos3,
};
use vstd::prelude::*;

verus! {

/// Speed setting handed to the quantizer (1 slowest to 10 fastest).
pub const QUANT_SPEED: i32 = 5;

/// Lowest quality the quantizer may settle for.
pub const QUANT_MIN_QUALITY: u8 = 0;

/// Quality the quantizer aims at.
pub const QUANT_TARGET_QUALITY: u8 = 100;

/// Why a load or a resize failed.
#[derive(Clone, Copy, Debug, PartialEq, Eq, Structural)]
pub enum PipelineError {
    /// Decoding failed at the frame with this index: the decoder refused it,
    /// it is empty or malformed, or its size differs from the first frame's.
    /// A stream without frames fails at index 0.
    DecodeError { frame: usize },
    /// A requested width or height is zero.
    InvalidDimensions,
    /// Nothing has been loaded.
    NoSourceLoaded,
    /// Resampling or quantizing the frame with this index failed.
    QuantizationError { frame: usize },
    /// Writing the stream failed after this many frames had been written.
    EncodeError { frame: usize },
}

/// A frame is kept when it has pixels, its buffer holds them exactly, and it has
/// the size `width * height` of the first frame.
pub open spec fn frame_fits(f: DecodedFrameModel, width: u32, height: u32) -> bool {
    &&& f.width > 0
    &&& f.height > 0
    &&& f.width == width
    &&& f.height == height
    &&& f.pixels.len() == f.width as int * f.height as int * 4
}

/// Decoded frames that loading accepts: at least one, all fitting the first.
pub open spec fn frames_accepted(d: Seq<DecodedFrameModel>) -> bool {
    &&& d.len() > 0
    &&& forall|i: int| 0 <= i < d.len() ==> frame_fits(#[trigger] d[i], d[0].width, d[0].height)
}

/// The index at which loading these decoded frames fails: the first frame that
/// does not fit the first one, or 0 when there is none.
pub open spec fn load_failure_at(d: Seq<DecodedFrameModel>, frame: int) -> bool {
    ||| d.len() == 0 && frame == 0
    ||| {
        &&& 0 <= frame < d.len()
        &&& !frame_fits(d[frame], d[0].width, d[0].height)
        &&& forall|j: int| 0 <= j < frame ==> frame_fits(#[trigger] d[j], d[0].width, d[0].height)
    }
}

/// A decoding outcome that `load_gif` accepts: no failure, and frames accepted.
pub open spec fn source_accepted(outcome: (Seq<DecodedFrameModel>, bool)) -> bool {
    !outcome.1 && frames_accepted(outcome.0)
}

/// The delays, in hundredths of a second, that loading gives the decoded frames.
pub open spec fn decoded_delays(d: Seq<DecodedFrameModel>) -> Seq<u16> {
    d.map_values(|f: DecodedFrameModel| delay_centiseconds_of(f.delay_numer, f.delay_denom))
}

/// The image that resizing a frame to `width * height` gives: the Lanczos3
/// resample, quantized; `None` where the quantizer refuses it or its palette
/// and indices do not make an indexed frame.
pub open spec fn quantized_frame(f: RgbaFrame, delay: u16, width: u32, height: u32) -> Option<IndexedFrameModel> {
    let pixels = lanczos3_resized(f.pixels@, f.width, f.height, width, height);
    match quantized_of(
        pixels,
        width as usize,
        height as usize,
        QUANT_SPEED,
        QUANT_MIN_QUALITY,
        QUANT_TARGET_QUALITY,
    ) {
        Some(q) => if q.0.len() <= PALETTE_ENTRIES && q.1.len() == width as int * height as int && indices_within(
            q.1,
            q.0.len(),
        ) {
            Some(
                IndexedFrameModel {
                    width: width as u16,
                    height: height as u16,
                    indices: q.1,
                    palette: gif_palette_of(q.0),
                    delay,
                },
            )
        } else {
            None
        },
        None => None,
    }
}

/// The stream that resizing these frames to `width * height` writes.
pub open spec fn resized_stream_of(frames: Seq<RgbaFrame>, delays: Seq<u16>, width: u32, height: u32) -> GifStreamModel {
    GifStreamModel {
        width: width as u16,
        height: height as u16,
        blocks: seq![GifBlock::RepeatForever] + Seq::new(
            frames.len(),
            |i: int| GifBlock::Image(quantized_frame(frames[i], delays[i], width, height).unwrap()),
        ),
    }
}

/// An image block fit to be the resized form of a frame with this delay: the
/// requested size, one index per pixel, and a color table made from at most
/// `PALETTE_ENTRIES` colors that every index names.
pub open spec fn image_conforms(b: GifBlock, delay: u16, width: u32, height: u32) -> bool {
    &&& b is Image
    &&& b->Image_0.width as u32 == width
    &&& b->Image_0.height as u32 == height
    &&& b->Image_0.delay == delay
    &&& b->Image_0.indices.len() == width as int * height as int
    &&& exists|colors: Seq<Rgba>|
        #![trigger gif_palette_of(colors)]
        colors.len() <= PALETTE_ENTRIES && b->Image_0.palette == gif_palette_of(colors)
            && indices_within(b->Image_0.indices, colors.len())
}

/// A stream that resizing frames with these delays to `width * height` writes:
/// that logical screen, the looping extension, then one conforming image per
/// frame, in order.
pub open spec fn resized_stream(s: GifStreamModel, delays: Seq<u16>, width: u32, height: u32) -> bool {
    &&& s.width as u32 == width
    &&& s.height as u32 == height
    &&& s.blocks.len() == delays.len() + 1
    &&& s.blocks[0] is RepeatForever
    &&& forall|i: int|
        0 <= i < delays.len() ==> image_conforms(#[trigger] s.blocks[i + 1], delays[i], width, height)
}

proof fn lemma_u32_area_bound(w: u32, h: u32)
    ensures
        w as int * h as int <= 0xffff_ffff_ffff_ffff,
{
    assert(w as int * h as int <= 0xffff_ffff_ffff_ffff) by (nonlinear_arith)
        requires
            w <= 0xffff_ffff,
            h <= 0xffff_ffff,
    ;
}

/// The encoder's form of one quantized frame: the palette as a padded color
/// table, with the indices, size and delay as given. `None` where the palette
/// has more than `PALETTE_ENTRIES` colors, the indices are not one per pixel, or
/// an index names no color.
pub fn to_indexed_frame(colors: &Vec<Rgba>, indices: Vec<u8>, width: u16, height: u16, delay: u16) -> (r: Option<IndexedFrame>)
    ensures
        r is Some <==> (colors@.len() <= PALETTE_ENTRIES && indices@.len() == width as int * height as int
            && indices_within(indices@, colors@.len())),
        r matches Some(f) ==> f@ == (IndexedFrameModel {
            width,
            height,
            indices: indices@,
            palette: gif_palette_of(colors@),
            delay,
        }),
{
    if colors.len() > PALETTE_ENTRIES {
        return None;
    }
    proof {
        lemma_u32_area_bound(width as u32, height as u32);
    }
    if indices.len() as u64 != width as u64 * height as u64 {
        return None;
    }
    if !all_indices_below(&indices, colors.len()) {
        return None;
    }
    let palette = gif_palette(colors);
    Some(IndexedFrame { width, height, indices, palette, delay })
}

proof fn lemma_quantized_frame_conforms(f: RgbaFrame, delay: u16, width: u32, height: u32)
    requires
        quantized_frame(f, delay, width, height) is Some,
        width <= u16::MAX,
        height <= u16::MAX,
    ensures
        image_conforms(GifBlock::Image(quantized_frame(f, delay, width, height).unwrap()), delay, width, height),
{
    let q = quantized_of(
        lanczos3_resized(f.pixels@, f.width, f.height, width, height),
        width as usize,
        height as usize,
        QUANT_SPEED,
        QUANT_MIN_QUALITY,
        QUANT_TARGET_QUALITY,
    ).unwrap();
    let colors = q.0;
    assert(gif_palette_of(colors) == quantized_frame(f, delay, width, height).unwrap().palette);
}

/// Resamples one frame to `width * height` and quantizes it, keeping its delay.
fn reencode_frame(frame: &RgbaFrame, delay: u16, width: u16, height: u16) -> (r: Option<IndexedFrame>)
    requires
        frame.wf(),
        frame.width > 0,
        frame.height > 0,
        width > 0,
        height > 0,
    ensures
        r is Some <==> quantized_frame(*frame, delay, width as u32, height as u32) is Some,
        r matches Some(f) ==> quantized_frame(*frame, delay, width as u32, height as u32) == Some(f@),
{
    let pixels = match resize_lanczos3(frame, width as u32, height as u32) {
        Some(pixels) => pixels,
        None => return None,
    };
    let (colors, indices) = match quantize_remap(
        &pixels,
        width as usize,
        height as usize,
        QUANT_SPEED,
        QUANT_MIN_QUALITY,
        QUANT_TARGET_QUALITY,
    ) {
        Ok(q) => q,
        Err(_) => return None,
    };
    to_indexed_frame(&colors, indices, width, height, delay)
}

/// Holds the frames of one animated GIF and re-encodes them at any size.
pub struct GifResizer {
    frames: Vec<RgbaFrame>,
    delays: Vec<u16>,
    width: u32,
    height: u32,
}

impl GifResizer {
    /// The loaded frames, in playback order.
    pub closed spec fn frames(&self) -> Seq<RgbaFrame> {
        self.frames@
    }

    /// The delay of each loaded frame, in hundredths of a second.
    pub closed spec fn delays(&self) -> Seq<u16> {
        self.delays@
    }

    /// The size of the first loaded frame, or zero when nothing is loaded.
    pub closed spec fn width_spec(&self) -> u32 {
        self.width
    }

    pub closed spec fn height_spec(&self) -> u32 {
        self.height
    }

    pub closed spec fn wf(&self) -> bool {
        &&& self.frames@.len() == self.delays@.len()
        &&& forall|i: int|
            0 <= i < self.frames@.len() ==> {
                &&& (#[trigger] self.frames@[i]).wf()
                &&& self.frames@[i].width > 0
                &&& self.frames@[i].height > 0
                &&& self.frames@[i].width == self.width
                &&& self.frames@[i].height == self.height
            }
        &&& self.frames@.len() == 0 ==> self.width == 0 && self.height == 0
    }

    /// This holds exactly what loading the decoded frames `d` gives.
    pub open spec fn loaded_from(&self, d: Seq<DecodedFrameModel>) -> bool {
        &&& self.frames().len() == d.len()
        &&& forall|i: int|
            0 <= i < d.len() ==> {
                &&& (#[trigger] self.frames()[i]).width == d[i].width
                &&& self.frames()[i].height == d[i].height
                &&& self.frames()[i].pixels@ == d[i].pixels
            }
        &&& forall|i: int|
            0 <= i < d.len() ==> (#[trigger] self.frames()[i]).width == self.width_spec()
                && self.frames()[i].height == self.height_spec()
        &&& self.delays() == decoded_delays(d)
        &&& self.width_spec() == d[0].width
        &&& self.height_spec() == d[0].height
    }

    pub fn new() -> (r: GifResizer)
        ensures
            r.wf(),
            r.frames().len() == 0,
            r.delays().len() == 0,
            r.width_spec() == 0,
            r.height_spec() == 0,
    {
        GifResizer { frames: Vec::new(), delays: Vec::new(), width: 0, height: 0 }
    }

    /// Keeps the decoded frames, replacing what was loaded: each frame's pixels,
    /// its delay in hundredths of a second, and the first frame's size. Fails,
    /// changing nothing, where there is no frame or a frame is empty, does not
    /// hold its pixels, or differs in size from the first.
    pub fn load_frames(&mut self, decoded: Vec<DecodedFrame>) -> (r: Result<(), PipelineError>)
        requires
            old(self).wf(),
        ensures
            final(self).wf(),
            r is Ok <==> frames_accepted(decoded_models(decoded@)),
            r is Ok ==> final(self).loaded_from(decoded_models(decoded@)),
            r is Err ==> r->Err_0 is DecodeError,
            r matches Err(PipelineError::DecodeError { frame }) ==> load_failure_at(
                decoded_models(decoded@),
                frame as int,
            ),
            r is Err ==> *final(self) == *old(self),
    {
        let ghost d = decoded_models(decoded@);
        if decoded.len() == 0 {
            return Err(PipelineError::DecodeError { frame: 0 });
        }
        let width = decoded[0].width;
        let height = decoded[0].height;
        let mut frames: Vec<RgbaFrame> = Vec::new();
        let mut delays: Vec<u16> = Vec::new();
        let mut i: usize = 0;
        while i < decoded.len()
            invariant
                *self == *old(self),
                old(self).wf(),
                d == decoded_models(decoded@),
                d.len() > 0,
                width == d[0].width,
                height == d[0].height,
                i <= decoded@.len(),
                frames@.len() == i,
                delays@.len() == i,
                forall|j: int| 0 <= j < i ==> frame_fits(#[trigger] d[j], width, height),
                forall|j: int|
                    0 <= j < i ==> {
                        &&& (#[trigger] frames@[j]).width == d[j].width
                        &&& frames@[j].height == d[j].height
                        &&& frames@[j].pixels@ == d[j].pixels
                    },
                forall|j: int|
                    0 <= j < i ==> #[trigger] delays@[j] == delay_centiseconds_of(
                        d[j].delay_numer,
                        d[j].delay_denom,
                    ),
            decreases decoded@.len() - i,
        {
            let f = &decoded[i];
            proof {
                lemma_u32_area_bound(f.width, f.height);
            }
            let area: u128 = f.width as u128 * f.height as u128;
            if f.width == 0 || f.height == 0 || f.width != width || f.height != height || f.pixels.len() as u128
                != area * 4 {
                proof {
                    assert(!frame_fits(d[i as int], width, height));
                }
                return Err(PipelineError::DecodeError { frame: i });
            }
            let pixels = f.pixels.clone();
            assert(pixels@ =~= f.pixels@);
            frames.push(RgbaFrame { width: f.width, height: f.height, pixels });
            delays.push(delay_centiseconds(f.delay_numer, f.delay_denom));
            i += 1;
        }
        assert(delays@ =~= decoded_delays(d));
        self.width = width;
        self.height = height;
        self.frames = frames;
        self.delays = delays;
        Ok(())
    }

    /// Decodes `gif_data` and keeps its frames, replacing what was loaded.
    /// On failure nothing changes; the error names the frame that failed.
    pub fn load_gif(&mut self, gif_data: &[u8]) -> (r: Result<(), PipelineError>)
        requires
            old(self).wf(),
        ensures
            final(self).wf(),
            r is Ok <==> source_accepted(gif_decode_outcome(gif_data@)),
            r is Ok ==> final(self).loaded_from(gif_decode_outcome(gif_data@).0),
            r is Err ==> r->Err_0 is DecodeError,
            r matches Err(PipelineError::DecodeError { frame }) ==> if gif_decode_outcome(
                gif_data@,
            ).1 {
                frame == gif_decode_outcome(gif_data@).0.len()
            } else {
                load_failure_at(gif_decode_outcome(gif_data@).0, frame as int)
            },
            r is Err ==> *final(self) == *old(self),
    {
        let (decoded, failure) = decode_gif_frames(gif_data);
        if failure.is_some() {
            return Err(PipelineError::DecodeError { frame: decoded.len() });
        }
        self.load_frames(decoded)
    }

    /// Re-encodes every loaded frame at `new_width * new_height` as one GIF
    /// stream that loops forever, each frame with its own palette and its delay.
    /// Succeeds exactly when a frame was loaded, both sizes are between 1 and
    /// `u16::MAX`, and the quantizer gives every frame a palette of at most
    /// `PALETTE_ENTRIES` colors that its indices name.
    pub fn resize(&mut self, new_width: u32, new_height: u32) -> (r: Result<Vec<u8>, PipelineError>)
        requires
            old(self).wf(),
        ensures
            *final(self) == *old(self),
            r == Err::<Vec<u8>, PipelineError>(PipelineError::NoSourceLoaded) <==> old(self).frames().len() == 0,
            old(self).frames().len() > 0 ==> (r == Err::<Vec<u8>, PipelineError>(PipelineError::InvalidDimensions)
                <==> (new_width == 0 || new_height == 0)),
            r is Err && r->Err_0 is EncodeError <==> (old(self).frames().len() > 0 && new_width > 0 && new_height
                > 0 && (new_width > u16::MAX as u32 || new_height > u16::MAX as u32)),
            r matches Err(PipelineError::EncodeError { frame }) ==> frame == 0,
            old(self).frames().len() > 0 && 1 <= new_width <= u16::MAX as u32 && 1 <= new_height
                <= u16::MAX as u32 ==> (r is Ok <==> forall|i: int|
                0 <= i < old(self).frames().len() ==> #[trigger] quantized_frame(
                    old(self).frames()[i],
                    old(self).delays()[i],
                    new_width,
                    new_height,
                ) is Some),
            r matches Err(PipelineError::QuantizationError { frame }) ==> {
                &&& frame < old(self).frames().len()
                &&& quantized_frame(old(self).frames()[frame as int], old(self).delays()[frame as int], new_width, new_height) is None
                &&& forall|j: int|
                    0 <= j < frame ==> #[trigger] quantized_frame(
                        old(self).frames()[j],
                        old(self).delays()[j],
                        new_width,
                        new_height,
                    ) is Some
            },
            r is Err ==> r->Err_0 is NoSourceLoaded || r->Err_0 is InvalidDimensions || r->Err_0 is EncodeError
                || r->Err_0 is QuantizationError,
            r matches Ok(out) ==> out@ == gif_stream_bytes(
                resized_stream_of(old(self).frames(), old(self).delays(), new_width, new_height),
            ),
            r is Ok ==> resized_stream(
                resized_stream_of(old(self).frames(), old(self).delays(), new_width, new_height),
                old(self).delays(),
                new_width,
                new_height,
            ),
    {
        if self.frames.len() == 0 {
            return Err(PipelineError::NoSourceLoaded);
        }
        if new_width == 0 || new_height == 0 {
            return Err(PipelineError::InvalidDimensions);
        }
        if new_width > u16::MAX as u32 || new_height > u16::MAX as u32 {
            return Err(PipelineError::EncodeError { frame: 0 });
        }
        let width = new_width as u16;
        let height = new_height as u16;
        let ghost target = resized_stream_of(self.frames@, self.delays@, new_width, new_height);
        let mut writer = match gif_encoder_new(width, height) {
            Ok(writer) => writer,
            Err(_) => return Err(PipelineError::EncodeError { frame: 0 }),
        };
        if gif_repeat_forever(&mut writer).is_err() {
            return Err(PipelineError::EncodeError { frame: 0 });
        }
        let mut i: usize = 0;
        while i < self.frames.len()
            invariant
                *self == *old(self),
                self.wf(),
                i <= self.frames@.len(),
                width as u32 == new_width,
                height as u32 == new_height,
                width > 0,
                height > 0,
                target == resized_stream_of(self.frames@, self.delays@, new_width, new_height),
                gif_stream_state(writer).width == width,
                gif_stream_state(writer).height == height,
                gif_stream_state(writer).blocks == target.blocks.take(i + 1),
                forall|j: int|
                    0 <= j < i ==> #[trigger] quantized_frame(self.frames@[j], self.delays@[j], new_width, new_height)
                        is Some,
            decreases self.frames@.len() - i,
        {
            let frame = match reencode_frame(&self.frames[i], self.delays[i], width, height) {
                Some(frame) => frame,
                None => return Err(PipelineError::QuantizationError { frame: i }),
            };
            let ghost before = gif_stream_state(writer);
            proof {
                reveal_with_fuel(crate::model::gif_palette_of, 1);
            }
            assert(frame.palette@.len() == 768);
            if gif_write_frame(&mut writer, &frame).is_err() {
                return Err(PipelineError::EncodeError { frame: i });
            }
            proof {
                assert(target.blocks[i + 1] == GifBlock::Image(frame@));
                assert(gif_stream_state(writer).blocks =~= target.blocks.take(i + 2));
            }
            i += 1;
        }
        proof {
            assert(target.blocks.take(i + 1) =~= target.blocks);
            assert forall|j: int| 0 <= j < self.delays@.len() implies image_conforms(
                #[trigger] target.blocks[j + 1],
                self.delays@[j],
                new_width,
                new_height,
            ) by {
                lemma_quantized_frame_conforms(self.frames@[j], self.delays@[j], new_width, new_height);
            }
        }
        let count = self.frames.len();
        match gif_finish(writer) {
            Ok(bytes) => Ok(bytes),
            Err(_) => Err(PipelineError::EncodeError { frame: count }),
        }
    }

    /// Width of the first loaded frame, 0 before any load.
    pub fn original_width(&self) -> (r: u32)
        ensures
            r == self.width_spec(),
    {
        self.width
    }

    /// Height of the first loaded frame, 0 before any load.
    pub fn original_height(&self) -> (r: u32)
        ensures
            r == self.height_spec(),
    {
        self.height
    }

    /// Number of loaded frames.
    pub fn frame_count(&self) -> (r: usize)
        ensures
            r == self.frames().len(),
    {
        self.frames.len()
    }
}

} // verus!
