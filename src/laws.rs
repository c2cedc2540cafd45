//! What holds of every stream that a resizer loaded from some bytes writes.
use crate::model::{
    delay_centiseconds_of, gif_palette_of, indices_within, DecodedFrameModel, GifBlock,
    GifStreamModel, IndexedFrameModel, Rgba, PALETTE_BYTES, PALETTE_ENTRIES,
};
use crate::outside::{gif_decode_outcome, gif_stream_bytes};
use crate::resizer::{image_conforms, resized_stream, resized_stream_of, source_accepted, GifResizer};
use vstd::prelude::*;

verus! {

/// How many image blocks a sequence of blocks holds.
pub open spec fn count_images(blocks: Seq<GifBlock>) -> nat
    decreases blocks.len(),
{
    if blocks.len() == 0 {
        0
    } else {
        count_images(blocks.drop_last()) + if blocks.last() is Image {
            1nat
        } else {
            0nat
        }
    }
}

/// The `i`-th image of a resized stream, which follows the looping extension.
pub open spec fn stream_image(s: GifStreamModel, i: int) -> IndexedFrameModel {
    s.blocks[i + 1]->Image_0
}

/// The frames decoded from bytes that loading accepted.
pub open spec fn decoded(bytes: Seq<u8>) -> Seq<DecodedFrameModel> {
    gif_decode_outcome(bytes).0
}

proof fn lemma_count_after_first(blocks: Seq<GifBlock>)
    requires
        blocks.len() >= 1,
        forall|i: int| 1 <= i < blocks.len() ==> #[trigger] blocks[i] is Image,
        !(blocks[0] is Image),
    ensures
        count_images(blocks) == blocks.len() - 1,
    decreases blocks.len(),
{
    if blocks.len() == 1 {
        assert(blocks.drop_last().len() == 0);
        assert(count_images(blocks.drop_last()) == 0);
        assert(blocks.last() == blocks[0]);
    } else {
        let prefix = blocks.drop_last();
        assert forall|i: int| 1 <= i < prefix.len() implies #[trigger] prefix[i] is Image by {
            assert(prefix[i] == blocks[i]);
        }
        lemma_count_after_first(prefix);
        assert(blocks.last() == blocks[blocks.len() - 1]);
        assert(blocks.last() is Image);
        assert(count_images(blocks) == count_images(prefix) + 1);
    }
}

/// Resizing keeps the frame count: the stream holds one image per decoded
/// frame, none dropped and none repeated.
pub proof fn lemma_frame_count_kept(r: GifResizer, bytes: Seq<u8>, width: u32, height: u32, s: GifStreamModel)
    requires
        source_accepted(gif_decode_outcome(bytes)),
        r.loaded_from(decoded(bytes)),
        resized_stream(s, r.delays(), width, height),
    ensures
        count_images(s.blocks) == decoded(bytes).len(),
        r.frames().len() == decoded(bytes).len(),
{
    assert forall|i: int| 1 <= i < s.blocks.len() implies #[trigger] s.blocks[i] is Image by {
        assert(image_conforms(s.blocks[(i - 1) + 1], r.delays()[i - 1], width, height));
    }
    lemma_count_after_first(s.blocks);
}

/// Resizing keeps each frame's delay: the `i`-th image carries the decoded
/// frame's delay in hundredths of a second, rounded down and raised to at least 1.
pub proof fn lemma_delays_kept(r: GifResizer, bytes: Seq<u8>, width: u32, height: u32, s: GifStreamModel, i: int)
    requires
        source_accepted(gif_decode_outcome(bytes)),
        r.loaded_from(decoded(bytes)),
        resized_stream(s, r.delays(), width, height),
        0 <= i < decoded(bytes).len(),
    ensures
        stream_image(s, i).delay == delay_centiseconds_of(decoded(bytes)[i].delay_numer, decoded(bytes)[i].delay_denom),
        stream_image(s, i).delay >= 1,
        decoded(bytes)[i].delay_denom > 0 ==> {
            let q = decoded(bytes)[i].delay_numer as int / (10 * decoded(bytes)[i].delay_denom as int);
            q <= u16::MAX as int ==> stream_image(s, i).delay as int == if q < 1 { 1 } else { q }
        },
{
    assert(image_conforms(s.blocks[i + 1], r.delays()[i], width, height));
}

/// Every image of the stream has the requested size and one index per pixel.
pub proof fn lemma_dimensions_conform(r: GifResizer, bytes: Seq<u8>, width: u32, height: u32, s: GifStreamModel, i: int)
    requires
        source_accepted(gif_decode_outcome(bytes)),
        r.loaded_from(decoded(bytes)),
        resized_stream(s, r.delays(), width, height),
        0 <= i < decoded(bytes).len(),
    ensures
        s.width as u32 == width,
        s.height as u32 == height,
        stream_image(s, i).width as u32 == width,
        stream_image(s, i).height as u32 == height,
        stream_image(s, i).indices.len() == width as int * height as int,
{
    assert(image_conforms(s.blocks[i + 1], r.delays()[i], width, height));
}

/// Every image's color table has `PALETTE_ENTRIES` entries, made from at most
/// that many colors padded with black, and every index names one of those colors.
pub proof fn lemma_palette_bound(r: GifResizer, bytes: Seq<u8>, width: u32, height: u32, s: GifStreamModel, i: int)
    requires
        source_accepted(gif_decode_outcome(bytes)),
        r.loaded_from(decoded(bytes)),
        resized_stream(s, r.delays(), width, height),
        0 <= i < decoded(bytes).len(),
    ensures
        stream_image(s, i).palette.len() == PALETTE_BYTES,
        exists|colors: Seq<Rgba>|
            #![trigger gif_palette_of(colors)]
            colors.len() <= PALETTE_ENTRIES && stream_image(s, i).palette == gif_palette_of(colors)
                && indices_within(stream_image(s, i).indices, colors.len()),
{
    assert(image_conforms(s.blocks[i + 1], r.delays()[i], width, height));
}

/// Resizing to the size that was loaded keeps the logical screen, the frame
/// count and every frame's size.
pub proof fn lemma_same_size_resize(r: GifResizer, bytes: Seq<u8>, s: GifStreamModel)
    requires
        source_accepted(gif_decode_outcome(bytes)),
        r.loaded_from(decoded(bytes)),
        resized_stream(s, r.delays(), r.width_spec(), r.height_spec()),
    ensures
        s.width as u32 == decoded(bytes)[0].width,
        s.height as u32 == decoded(bytes)[0].height,
        count_images(s.blocks) == decoded(bytes).len(),
        forall|i: int|
            0 <= i < decoded(bytes).len() ==> (#[trigger] stream_image(s, i)).width as u32 == decoded(bytes)[0].width
                && stream_image(s, i).height as u32 == decoded(bytes)[0].height,
{
    lemma_frame_count_kept(r, bytes, r.width_spec(), r.height_spec(), s);
    assert forall|i: int| 0 <= i < decoded(bytes).len() implies (#[trigger] stream_image(s, i)).width as u32
        == decoded(bytes)[0].width && stream_image(s, i).height as u32 == decoded(bytes)[0].height by {
        assert(image_conforms(s.blocks[i + 1], r.delays()[i], r.width_spec(), r.height_spec()));
    }
}

/// Loading is deterministic: two resizers loaded from the same bytes hold the
/// same frames, delays and size.
pub proof fn lemma_load_deterministic(a: GifResizer, b: GifResizer, bytes: Seq<u8>)
    requires
        source_accepted(gif_decode_outcome(bytes)),
        a.loaded_from(decoded(bytes)),
        b.loaded_from(decoded(bytes)),
    ensures
        a.frames().len() == b.frames().len(),
        forall|i: int|
            0 <= i < a.frames().len() ==> (#[trigger] a.frames()[i]).pixels@ == b.frames()[i].pixels@
                && a.frames()[i].width == b.frames()[i].width && a.frames()[i].height == b.frames()[i].height,
        a.delays() == b.delays(),
        a.width_spec() == b.width_spec(),
        a.height_spec() == b.height_spec(),
{
}

/// Resizing is deterministic: two resizers loaded from the same bytes and
/// resized to the same size write the same stream, hence the same bytes.
pub proof fn lemma_resize_deterministic(a: GifResizer, b: GifResizer, bytes: Seq<u8>, width: u32, height: u32)
    requires
        source_accepted(gif_decode_outcome(bytes)),
        a.loaded_from(decoded(bytes)),
        b.loaded_from(decoded(bytes)),
    ensures
        resized_stream_of(a.frames(), a.delays(), width, height) == resized_stream_of(b.frames(), b.delays(), width, height),
        gif_stream_bytes(resized_stream_of(a.frames(), a.delays(), width, height)) == gif_stream_bytes(
            resized_stream_of(b.frames(), b.delays(), width, height),
        ),
{
    let sa = resized_stream_of(a.frames(), a.delays(), width, height);
    let sb = resized_stream_of(b.frames(), b.delays(), width, height);
    assert(sa.blocks =~= sb.blocks);
}

/// Every loaded frame has the size of the first: the resizer holds one canvas size.
pub proof fn lemma_frames_share_size(r: GifResizer, bytes: Seq<u8>)
    requires
        source_accepted(gif_decode_outcome(bytes)),
        r.loaded_from(decoded(bytes)),
    ensures
        r.width_spec() > 0,
        r.height_spec() > 0,
        forall|i: int|
            0 <= i < r.frames().len() ==> (#[trigger] r.frames()[i]).width == r.width_spec()
                && r.frames()[i].height == r.height_spec()
                && r.frames()[i].pixels@.len() == r.width_spec() as int * r.height_spec() as int * 4,
{
    assert(crate::resizer::frame_fits(decoded(bytes)[0], decoded(bytes)[0].width, decoded(bytes)[0].height));
    assert forall|i: int| 0 <= i < r.frames().len() implies (#[trigger] r.frames()[i]).width == r.width_spec()
        && r.frames()[i].height == r.height_spec()
        && r.frames()[i].pixels@.len() == r.width_spec() as int * r.height_spec() as int * 4 by {
        assert(crate::resizer::frame_fits(decoded(bytes)[i], decoded(bytes)[0].width, decoded(bytes)[0].height));
    }
}

} // verus!
