//! RGBA pixel grids and the grid-level encode/decode transforms.
//!
//! A grid is a row-major array of RGBA pixels with explicit width and height.
//! Encoding combines two grids of identical dimensions channel by channel;
//! decoding recovers a payload approximation from a single grid of any
//! dimensions. Both produce a fresh grid and never mutate their inputs.

use vstd::prelude::*;

use crate::channel::combined;
use crate::channel::extracted;
use crate::channel::retrieve_pix;
use crate::channel::sum_pix;

verus! {

/// One RGBA pixel: four 8-bit channel values.
#[derive(Clone, Copy, Debug, PartialEq, Eq, Structural)]
pub struct Pixel {
    pub r: u8,
    pub g: u8,
    pub b: u8,
    pub a: u8,
}

/// The pixel obtained by combining `base` and `payload` channel by channel:
/// R with R, G with G, B with B, A with A, with no cross-channel mixing.
pub open spec fn combined_pixel(base: Pixel, payload: Pixel) -> Pixel {
    Pixel {
        r: combined(base.r, payload.r),
        g: combined(base.g, payload.g),
        b: combined(base.b, payload.b),
        a: combined(base.a, payload.a),
    }
}

/// The pixel obtained by extracting every channel of `mixed` independently.
pub open spec fn extracted_pixel(mixed: Pixel) -> Pixel {
    Pixel {
        r: extracted(mixed.r),
        g: extracted(mixed.g),
        b: extracted(mixed.b),
        a: extracted(mixed.a),
    }
}

/// Combine two pixels channel by channel.
pub fn combine_pixel(base: &Pixel, payload: &Pixel) -> (r: Pixel)
    ensures
        r == combined_pixel(*base, *payload),
{
    Pixel {
        r: sum_pix(base.r, payload.r),
        g: sum_pix(base.g, payload.g),
        b: sum_pix(base.b, payload.b),
        a: sum_pix(base.a, payload.a),
    }
}

/// Extract every channel of one pixel.
pub fn extract_pixel(mixed: &Pixel) -> (r: Pixel)
    ensures
        r == extracted_pixel(*mixed),
{
    Pixel {
        r: retrieve_pix(mixed.r),
        g: retrieve_pix(mixed.g),
        b: retrieve_pix(mixed.b),
        a: retrieve_pix(mixed.a),
    }
}

/// A 2D grid of RGBA pixels, stored row-major: the pixel at column `x` and
/// row `y` sits at index `y * width + x`.
pub struct PixelGrid {
    pub width: usize,
    pub height: usize,
    pub pixels: Vec<Pixel>,
}

/// The only failure of the grid transforms: the two encode inputs differ
/// in width or height.
#[derive(Clone, Copy, Debug, PartialEq, Eq, Structural)]
pub enum TransformError {
    DimensionMismatch,
}

impl PixelGrid {
    /// A well-formed grid holds exactly one pixel per coordinate.
    pub open spec fn wf(&self) -> bool {
        self.pixels@.len() == self.width * self.height
    }

    /// Build a grid from its dimensions and a row-major pixel buffer.
    /// Succeeds exactly when the buffer holds one pixel per coordinate.
    pub fn new(width: usize, height: usize, pixels: Vec<Pixel>) -> (r: Option<PixelGrid>)
        ensures
            r is Some <==> pixels@.len() == width * height,
            r is Some ==> {
                let g = r->0;
                &&& g.wf()
                &&& g.width == width
                &&& g.height == height
                &&& g.pixels@ == pixels@
            },
    {
        let count_have = pixels.len();
        match width.checked_mul(height) {
            Some(count) if count == count_have => Some(PixelGrid { width, height, pixels }),
            _ => None,
        }
    }

    /// The pixel at column `x`, row `y`.
    pub fn pixel_at(&self, x: usize, y: usize) -> (r: Pixel)
        requires
            self.wf(),
            x < self.width,
            y < self.height,
        ensures
            r == self.pixels@[y * self.width + x],
    {
        let len = self.pixels.len();
        proof {
            lemma_row_major_index_in_range(self.width as nat, self.height as nat, x as nat, y as nat);
        }
        self.pixels[y * self.width + x]
    }
}

/// A row-major index built from in-range coordinates stays within the grid's
/// pixel buffer.
proof fn lemma_row_major_index_in_range(width: nat, height: nat, x: nat, y: nat)
    requires
        x < width,
        y < height,
    ensures
        y * width + x < width * height,
{
    assert(y * width + x < width * height) by (nonlinear_arith)
        requires
            x < width,
            y < height,
    ;
}

/// Embed the high nibble of every channel of `payload` into the low nibble
/// of the matching channel of `base`. Succeeds exactly when the two grids
/// have identical width and height; a mismatch yields `DimensionMismatch`
/// and no output. Every output pixel is the channel-wise combination of the
/// input pixels at the same coordinate.
pub fn encode(base: &PixelGrid, payload: &PixelGrid) -> (r: Result<PixelGrid, TransformError>)
    requires
        base.wf(),
        payload.wf(),
    ensures
        r is Ok <==> base.width == payload.width && base.height == payload.height,
        r is Err ==> r->Err_0 == TransformError::DimensionMismatch,
        r is Ok ==> {
            let out = r->Ok_0;
            &&& out.wf()
            &&& out.width == base.width
            &&& out.height == base.height
            &&& out.pixels@.len() == base.pixels@.len()
            &&& forall|i: int|
                0 <= i < out.pixels@.len() ==> out.pixels@[i] == combined_pixel(
                    base.pixels@[i],
                    payload.pixels@[i],
                )
        },
{
    if base.width != payload.width || base.height != payload.height {
        return Err(TransformError::DimensionMismatch);
    }
    let len = base.pixels.len();
    let mut out: Vec<Pixel> = Vec::with_capacity(len);
    let mut i: usize = 0;
    while i < len
        invariant
            len == base.pixels@.len(),
            base.pixels@.len() == payload.pixels@.len(),
            i <= len,
            out@.len() == i,
            forall|j: int|
                0 <= j < i ==> out@[j] == combined_pixel(base.pixels@[j], payload.pixels@[j]),
        decreases len - i,
    {
        let p = combine_pixel(&base.pixels[i], &payload.pixels[i]);
        out.push(p);
        i = i + 1;
    }
    Ok(PixelGrid { width: base.width, height: base.height, pixels: out })
}

/// Recover a payload approximation from a combined grid: every channel of
/// every pixel is extracted independently. Accepts any well-formed grid,
/// whatever its dimensions, and always succeeds.
pub fn decode(mixed: &PixelGrid) -> (r: PixelGrid)
    requires
        mixed.wf(),
    ensures
        r.wf(),
        r.width == mixed.width,
        r.height == mixed.height,
        r.pixels@.len() == mixed.pixels@.len(),
        forall|i: int| 0 <= i < r.pixels@.len() ==> r.pixels@[i] == extracted_pixel(mixed.pixels@[i]),
{
    let len = mixed.pixels.len();
    let mut out: Vec<Pixel> = Vec::with_capacity(len);
    let mut i: usize = 0;
    while i < len
        invariant
            len == mixed.pixels@.len(),
            i <= len,
            out@.len() == i,
            forall|j: int| 0 <= j < i ==> out@[j] == extracted_pixel(mixed.pixels@[j]),
        decreases len - i,
    {
        let p = extract_pixel(&mixed.pixels[i]);
        out.push(p);
        i = i + 1;
    }
    PixelGrid { width: mixed.width, height: mixed.height, pixels: out }
}

} // verus!
