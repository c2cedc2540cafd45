//! Plain values that the pipeline moves between its stages, and the pure steps
//! between them: frame delays, palette tables and index bounds.
use vstd::prelude::*;

verus! {

/// Number of entries in every color table that the encoder writes.
pub const PALETTE_ENTRIES: usize = 256;

/// Bytes of a color table of `PALETTE_ENTRIES` RGB triples.
pub const PALETTE_BYTES: usize = 768;

/// One color of a quantized palette.
#[derive(Clone, Copy, Debug, PartialEq, Eq, Structural)]
pub struct Rgba {
    pub r: u8,
    pub g: u8,
    pub b: u8,
    pub a: u8,
}

/// The red, green or blue channel of a color, for `k` 0, 1 or 2.
pub open spec fn channel(c: Rgba, k: int) -> u8 {
    if k == 0 {
        c.r
    } else if k == 1 {
        c.g
    } else {
        c.b
    }
}

/// The color table written for a palette: its RGB triples in order, then
/// black entries up to `PALETTE_ENTRIES`.
pub open spec fn gif_palette_of(colors: Seq<Rgba>) -> Seq<u8> {
    Seq::new(
        PALETTE_BYTES as nat,
        |j: int| if j < 3 * colors.len() { channel(colors[j / 3], j % 3) } else { 0u8 },
    )
}

/// Every index names an entry of a palette of `count` colors.
pub open spec fn indices_within(indices: Seq<u8>, count: nat) -> bool {
    forall|i: int| 0 <= i < indices.len() ==> (#[trigger] indices[i] as nat) < count
}

/// A frame delay in hundredths of a second, from a delay of `numer / denom`
/// milliseconds: rounded down, at least 1, and at most `u16::MAX`. A zero
/// denominator stands for an unbounded delay, or for none when the numerator is
/// zero too.
pub open spec fn delay_centiseconds_of(numer: u32, denom: u32) -> u16 {
    if denom == 0 {
        if numer == 0 {
            1
        } else {
            u16::MAX
        }
    } else {
        let q = numer as int / (10 * denom as int);
        if q < 1 {
            1
        } else if q > u16::MAX as int {
            u16::MAX
        } else {
            q as u16
        }
    }
}

pub fn delay_centiseconds(numer: u32, denom: u32) -> (r: u16)
    ensures
        r == delay_centiseconds_of(numer, denom),
        r >= 1,
{
    if denom == 0 {
        if numer == 0 {
            1
        } else {
            u16::MAX
        }
    } else {
        let q: u64 = numer as u64 / (10 * denom as u64);
        if q < 1 {
            1
        } else if q > u16::MAX as u64 {
            u16::MAX
        } else {
            q as u16
        }
    }
}

proof fn lemma_triple_position(i: int, k: int)
    requires
        0 <= i,
        0 <= k < 3,
    ensures
        (3 * i + k) / 3 == i,
        (3 * i + k) % 3 == k,
{
}

/// The color table for `colors`, padded with black to `PALETTE_ENTRIES` entries.
pub fn gif_palette(colors: &Vec<Rgba>) -> (r: Vec<u8>)
    requires
        colors@.len() <= PALETTE_ENTRIES,
    ensures
        r@ == gif_palette_of(colors@),
{
    let mut out: Vec<u8> = Vec::with_capacity(PALETTE_BYTES);
    let mut i: usize = 0;
    while i < colors.len()
        invariant
            i <= colors@.len() <= PALETTE_ENTRIES,
            out@.len() == 3 * i,
            forall|j: int| 0 <= j < 3 * i ==> #[trigger] out@[j] == channel(colors@[j / 3], j % 3),
        decreases colors@.len() - i,
    {
        let c = colors[i];
        proof {
            lemma_triple_position(i as int, 0);
            lemma_triple_position(i as int, 1);
            lemma_triple_position(i as int, 2);
        }
        out.push(c.r);
        out.push(c.g);
        out.push(c.b);
        i += 1;
    }
    while out.len() < PALETTE_BYTES
        invariant
            3 * colors@.len() <= out@.len() <= PALETTE_BYTES,
            forall|j: int|
                0 <= j < out@.len() ==> #[trigger] out@[j] == (if j < 3 * colors@.len() {
                    channel(colors@[j / 3], j % 3)
                } else {
                    0u8
                }),
        decreases PALETTE_BYTES - out@.len(),
    {
        out.push(0);
    }
    assert(out@ =~= gif_palette_of(colors@));
    out
}

/// Whether every index is below `count`.
pub fn all_indices_below(indices: &Vec<u8>, count: usize) -> (r: bool)
    ensures
        r == indices_within(indices@, count as nat),
{
    let mut i: usize = 0;
    while i < indices.len()
        invariant
            i <= indices@.len(),
            forall|j: int| 0 <= j < i ==> (#[trigger] indices@[j] as nat) < count,
        decreases indices@.len() - i,
    {
        if indices[i] as usize >= count {
            return false;
        }
        i += 1;
    }
    true
}

/// A true-color frame: `width * height` pixels of four bytes, R, G, B, A, row by row.
#[derive(Clone, Debug)]
pub struct RgbaFrame {
    pub width: u32,
    pub height: u32,
    pub pixels: Vec<u8>,
}

impl RgbaFrame {
    /// The pixel buffer holds exactly the frame's pixels.
    pub open spec fn wf(&self) -> bool {
        self.pixels@.len() == self.width as int * self.height as int * 4
    }
}

/// A frame as the decoder hands it over: RGBA pixels of the whole logical
/// screen and its delay as a ratio of milliseconds.
#[derive(Clone, Debug)]
pub struct DecodedFrame {
    pub width: u32,
    pub height: u32,
    pub pixels: Vec<u8>,
    pub delay_numer: u32,
    pub delay_denom: u32,
}

pub struct DecodedFrameModel {
    pub width: u32,
    pub height: u32,
    pub pixels: Seq<u8>,
    pub delay_numer: u32,
    pub delay_denom: u32,
}

impl View for DecodedFrame {
    type V = DecodedFrameModel;

    open spec fn view(&self) -> DecodedFrameModel {
        DecodedFrameModel {
            width: self.width,
            height: self.height,
            pixels: self.pixels@,
            delay_numer: self.delay_numer,
            delay_denom: self.delay_denom,
        }
    }
}

pub open spec fn decoded_models(frames: Seq<DecodedFrame>) -> Seq<DecodedFrameModel> {
    frames.map_values(|f: DecodedFrame| f@)
}

/// An indexed frame ready for the encoder: one palette index per pixel, the
/// color table, and the delay in hundredths of a second.
#[derive(Clone, Debug)]
pub struct IndexedFrame {
    pub width: u16,
    pub height: u16,
    pub indices: Vec<u8>,
    pub palette: Vec<u8>,
    pub delay: u16,
}

pub struct IndexedFrameModel {
    pub width: u16,
    pub height: u16,
    pub indices: Seq<u8>,
    pub palette: Seq<u8>,
    pub delay: u16,
}

impl View for IndexedFrame {
    type V = IndexedFrameModel;

    open spec fn view(&self) -> IndexedFrameModel {
        IndexedFrameModel {
            width: self.width,
            height: self.height,
            indices: self.indices@,
            palette: self.palette@,
            delay: self.delay,
        }
    }
}

/// One block of a GIF stream after its header.
pub enum GifBlock {
    /// The looping extension that asks for endless replay.
    RepeatForever,
    /// One image with its own color table.
    Image(IndexedFrameModel),
}

/// What has been handed to a GIF encoder: the logical screen and the blocks
/// written after the header, in order.
pub struct GifStreamModel {
    pub width: u16,
    pub height: u16,
    pub blocks: Seq<GifBlock>,
}

} // verus!
