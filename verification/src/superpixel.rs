//! Quarter-resolution demosaicing: every tile of two by two photosites
//! becomes one pixel of the raster.

use vstd::prelude::*;
use vstd::arithmetic::div_mod::lemma_fundamental_div_mod_converse;
use crate::levels::channel_slot;
use crate::cfa::{bayer_pattern_of, first_slot_of, tile_is_rgb, Cfa, CfaColor, PlaneColor, RgbBayerPattern};
use crate::geometry::{Dim2, Rect};

verus! {

/// A raster of `width` by `height` pixels of `N` channels, row by row.
#[derive(Debug, Clone, PartialEq)]
pub struct Color2D<T, const N: usize> {
    pub data: Vec<[T; N]>,
    pub width: usize,
    pub height: usize,
}

impl<T, const N: usize> Color2D<T, N> {
    /// The raster holds one pixel for every position.
    pub open spec fn wf(&self) -> bool {
        self.data@.len() == self.width * self.height
    }

    /// Channel `channel` of pixel `k`, counted row by row.
    pub open spec fn sample(&self, k: int, channel: int) -> T {
        self.data@[k]@[channel]
    }

    /// The raster of the given pixels. `None` where their number is not
    /// `width * height`.
    pub fn new_with(data: Vec<[T; N]>, width: usize, height: usize) -> (r: Option<Self>)
        ensures
            match r {
                Some(raster) => {
                    &&& data.len() == width * height
                    &&& raster.data@ == data@
                    &&& raster.width == width
                    &&& raster.height == height
                    &&& raster.wf()
                },
                None => data.len() != width * height,
            },
    {
        match width.checked_mul(height) {
            Some(n) => {
                if data.len() == n {
                    Some(Color2D { data, width, height })
                } else {
                    None
                }
            },
            None => None,
        }
    }

    /// The samples of all pixels in one sequence, pixel by pixel, the
    /// channels of a pixel side by side.
    pub fn flatten(&self) -> (flat: Vec<T>) where T: Copy
        ensures
            flat@.len() == self.data@.len() * N,
            forall|i: int|
                0 <= i < flat@.len() ==> #[trigger] flat@[i] == self.sample(
                    i / (N as int),
                    i % (N as int),
                ),
    {
        let mut flat: Vec<T> = Vec::new();
        let mut k: usize = 0;
        while k < self.data.len()
            invariant
                k <= self.data@.len(),
                flat@.len() == k * N,
                forall|i: int|
                    0 <= i < flat@.len() ==> #[trigger] flat@[i] == self.sample(
                        i / (N as int),
                        i % (N as int),
                    ),
            decreases self.data@.len() - k,
        {
            let mut c: usize = 0;
            while c < N
                invariant
                    k < self.data@.len(),
                    c <= N,
                    flat@.len() == k * N + c,
                    forall|i: int|
                        0 <= i < flat@.len() ==> #[trigger] flat@[i] == self.sample(
                            i / (N as int),
                            i % (N as int),
                        ),
                decreases N - c,
            {
                proof {
                    lemma_fundamental_div_mod_converse(k * N + c, N as int, k as int, c as int);
                }
                flat.push(self.data[k][c]);
                c += 1;
            }
            assert(k * N + N == (k + 1) * N) by (nonlinear_arith);
            k += 1;
        }
        flat
    }

    /// The pixels, row by row.
    pub fn into_inner(self) -> (data: Vec<[T; N]>)
        ensures
            data@ == self.data@,
    {
        self.data
    }
}

/// Why a superpixel demosaic was refused.
#[derive(Debug, Clone, Copy, PartialEq, Eq)]
pub enum DemosaicError {
    /// The region of interest is not the whole image.
    PartialRegion,
    /// The planes are not as many as the raster has channels.
    PlaneCount { expected: usize, given: usize },
    /// The array holds a filter that is not red, green or blue.
    NotRgb,
    /// The array is not one of the four Bayer arrangements.
    NotBayer,
    /// The array holds no filter of the colour of plane `plane`.
    ColorNotInPattern { plane: usize },
}

/// The sample at position `slot` of the tile that becomes pixel `k` of the
/// raster. The mosaic `pixels` has `width` columns; slots count top left,
/// top right, bottom left, bottom right.
pub open spec fn tile_sample<T>(pixels: Seq<T>, width: int, k: int, slot: int) -> T {
    pixels[tile_index(width, k, slot)]
}

/// Index in the mosaic of the sample at position `slot` of the tile that
/// becomes pixel `k` of the raster.
pub open spec fn tile_index(width: int, k: int, slot: int) -> int {
    let row = 2 * (k / (width / 2)) + slot / 2;
    let col = 2 * (k % (width / 2)) + slot % 2;
    row * width + col
}

/// In two dimensions: the pixel at row `oy`, column `ox` of the raster is
/// made of the samples of rows `2 * oy` and `2 * oy + 1`, columns `2 * ox`
/// and `2 * ox + 1` of the mosaic.
pub proof fn lemma_tile_index_2d(width: int, oy: int, ox: int, slot: int)
    requires
        0 <= oy,
        0 <= ox < width / 2,
        0 <= slot < 4,
    ensures
        tile_index(width, oy * (width / 2) + ox, slot) == (2 * oy + slot / 2) * width + (2 * ox
            + slot % 2),
{
    lemma_fundamental_div_mod_converse(oy * (width / 2) + ox, width / 2, oy, ox);
}

/// The demosaic and the level correction agree on tile positions: the
/// sample that becomes position `slot` of a pixel is the one that was
/// corrected with the levels of position `slot`.
pub proof fn lemma_tile_slot_is_channel_slot(width: int, k: int, slot: int)
    requires
        2 <= width,
        0 <= k,
        0 <= slot < 4,
    ensures
        channel_slot(tile_index(width, k, slot), width) == slot,
{
    let ow = width / 2;
    let row = 2 * (k / ow) + slot / 2;
    let col = 2 * (k % ow) + slot % 2;
    assert(0 <= k / ow && 0 <= k % ow < ow) by (nonlinear_arith)
        requires
            0 <= k,
            0 < ow,
    ;
    assert(0 <= col < width);
    lemma_fundamental_div_mod_converse(row * width + col, width, row, col);
}

/// Every sample of every tile lies inside the mosaic, and the raster has no
/// more pixels than the mosaic has samples.
pub proof fn lemma_tile_in_bounds(width: int, height: int, k: int, slot: int)
    requires
        0 <= width,
        0 <= height,
        0 <= k < (width / 2) * (height / 2),
        0 <= slot < 4,
    ensures
        width / 2 > 0,
        0 <= k / (width / 2) < height / 2,
        0 <= k % (width / 2) < width / 2,
        0 <= tile_index(width, k, slot) < width * height,
{
    let ow = width / 2;
    let oh = height / 2;
    assert(ow > 0 && oh > 0) by (nonlinear_arith)
        requires
            0 <= ow,
            0 <= oh,
            0 <= k < ow * oh,
    ;
    let oy = k / ow;
    let ox = k % ow;
    assert(0 <= ox < ow && k == oy * ow + ox && 0 <= oy) by (nonlinear_arith)
        requires
            0 < ow,
            0 <= k,
            oy == k / ow,
            ox == k % ow,
    ;
    assert(oy < oh) by (nonlinear_arith)
        requires
            oy * ow + ox < ow * oh,
            0 <= ox,
            0 < ow,
    ;
    let row = 2 * oy + slot / 2;
    let col = 2 * ox + slot % 2;
    assert(0 <= row < height && 0 <= col < width);
    assert(0 <= row * width + col < width * height) by (nonlinear_arith)
        requires
            0 <= row < height,
            0 <= col < width,
    ;
}

/// The raster of a halved image has no more pixels than the image.
pub proof fn lemma_halved_fits(width: int, height: int)
    requires
        0 <= width,
        0 <= height,
    ensures
        0 <= (width / 2) * (height / 2) <= width * height,
{
    assert(0 <= (width / 2) * (height / 2) <= width * height) by (nonlinear_arith)
        requires
            0 <= width / 2 <= width,
            0 <= height / 2 <= height,
    ;
}

/// The four samples of the tile that becomes pixel `k`.
fn tile_at<T: Copy>(pixels: &[T], width: usize, height: usize, k: usize) -> (t: [T; 4])
    requires
        pixels.len() == width * height,
        k < (width / 2) * (height / 2),
    ensures
        forall|slot: int| 0 <= slot < 4 ==> t@[slot] == tile_sample(pixels@, width as int, k as int, slot),
{
    let ow: usize = width / 2;
    proof {
        lemma_tile_in_bounds(width as int, height as int, k as int, 0);
        lemma_tile_in_bounds(width as int, height as int, k as int, 3);
    }
    let oy: usize = k / ow;
    let ox: usize = k % ow;
    assert((2 * oy + 1) * width == 2 * oy * width + width) by (nonlinear_arith);
    assert(0 <= 2 * oy * width) by (nonlinear_arith);
    let top: usize = 2 * oy * width + 2 * ox;
    let bottom: usize = top + width;
    let t = [pixels[top], pixels[top + 1], pixels[bottom], pixels[bottom + 1]];
    assert forall|slot: int| 0 <= slot < 4 implies t@[slot] == tile_sample(
        pixels@,
        width as int,
        k as int,
        slot,
    ) by {
        assert((2 * oy + 0) * width == 2 * oy * width) by (nonlinear_arith);
    }
    t
}

/// What the three-channel demosaic decides before it touches a sample: the
/// arrangement to go by, or the reason to refuse.
pub open spec fn three_channel_setup(
    dim: Dim2,
    cfa: Seq<CfaColor>,
    colors: Seq<CfaColor>,
    roi: Rect,
) -> Result<RgbBayerPattern, DemosaicError> {
    if !roi.spec_covers(dim) {
        Err(DemosaicError::PartialRegion)
    } else if colors.len() != 3 {
        Err(DemosaicError::PlaneCount { expected: 3, given: colors.len() as usize })
    } else if !tile_is_rgb(cfa) {
        Err(DemosaicError::NotRgb)
    } else {
        match bayer_pattern_of(cfa) {
            Some(pattern) => Ok(pattern),
            None => Err(DemosaicError::NotBayer),
        }
    }
}

/// Whether `out` is the three-channel pixel of tile `k`: the tile's red
/// sample, what `mean` made of its two green samples, and its blue sample.
pub open spec fn is_three_channel_pixel<T, F: Fn(T, T) -> T>(
    pixels: Seq<T>,
    width: int,
    pattern: RgbBayerPattern,
    mean: F,
    k: int,
    out: Seq<T>,
) -> bool {
    &&& out.len() == 3
    &&& out[0] == tile_sample(pixels, width, k, pattern.red_slot())
    &&& mean.ensures(
        (
            tile_sample(pixels, width, k, pattern.first_green_slot()),
            tile_sample(pixels, width, k, pattern.second_green_slot()),
        ),
        out[1],
    )
    &&& out[2] == tile_sample(pixels, width, k, pattern.blue_slot())
}

/// What the four-channel demosaic decides before it touches a sample: for
/// each plane the tile position of its colour, or the reason to refuse.
pub open spec fn four_channel_setup(
    dim: Dim2,
    cfa: Seq<CfaColor>,
    colors: Seq<CfaColor>,
    roi: Rect,
) -> Result<Seq<int>, DemosaicError> {
    if !roi.spec_covers(dim) {
        Err(DemosaicError::PartialRegion)
    } else if colors.len() != 4 {
        Err(DemosaicError::PlaneCount { expected: 4, given: colors.len() as usize })
    } else if first_slot_of(cfa, colors[0]).is_none() {
        Err(DemosaicError::ColorNotInPattern { plane: 0 })
    } else if first_slot_of(cfa, colors[1]).is_none() {
        Err(DemosaicError::ColorNotInPattern { plane: 1 })
    } else if first_slot_of(cfa, colors[2]).is_none() {
        Err(DemosaicError::ColorNotInPattern { plane: 2 })
    } else if first_slot_of(cfa, colors[3]).is_none() {
        Err(DemosaicError::ColorNotInPattern { plane: 3 })
    } else {
        Ok(
            seq![
                first_slot_of(cfa, colors[0]).unwrap(),
                first_slot_of(cfa, colors[1]).unwrap(),
                first_slot_of(cfa, colors[2]).unwrap(),
                first_slot_of(cfa, colors[3]).unwrap(),
            ],
        )
    }
}

/// Demosaic to red, green and blue at a quarter of the resolution.
#[derive(Debug, Clone, Copy, Default)]
pub struct Superpixel3Channel {}

impl Superpixel3Channel {
    pub fn new() -> (s: Self) {
        Superpixel3Channel {  }
    }

    /// Makes one pixel of every tile of two by two samples: its red and blue
    /// samples as they are, and between them what `mean` makes of its two
    /// green samples, the upper one first. A trailing odd row or column is
    /// dropped.
    ///
    /// Refused, in this order: a region of interest that is not the whole
    /// image, planes that are not three, an array with a filter that is not
    /// red, green or blue, and one that is not a Bayer arrangement.
    pub fn demosaic<T: Copy, F: Fn(T, T) -> T>(
        &self,
        pixels: &[T],
        dim: Dim2,
        cfa: &Cfa,
        colors: &PlaneColor,
        roi: Rect,
        mean: F,
    ) -> (r: Result<Color2D<T, 3>, DemosaicError>)
        requires
            pixels.len() == dim.w * dim.h,
            forall|a: T, b: T| mean.requires((a, b)),
        ensures
            match three_channel_setup(dim, cfa@, colors@, roi) {
                Err(e) => r == Err::<Color2D<T, 3>, DemosaicError>(e),
                Ok(pattern) => {
                    &&& r is Ok
                    &&& r->Ok_0.width == dim.w / 2
                    &&& r->Ok_0.height == dim.h / 2
                    &&& r->Ok_0.wf()
                    &&& forall|k: int|
                        0 <= k < r->Ok_0.data@.len() ==> is_three_channel_pixel(
                            pixels@,
                            dim.w as int,
                            pattern,
                            mean,
                            k,
                            (#[trigger] r->Ok_0.data@[k])@,
                        )
                },
            },
    {
        if !roi.covers(dim) {
            return Err(DemosaicError::PartialRegion);
        }
        if colors.plane_count() != 3 {
            return Err(DemosaicError::PlaneCount { expected: 3, given: colors.plane_count() });
        }
        if !cfa.is_rgb() {
            return Err(DemosaicError::NotRgb);
        }
        let pattern = match cfa.bayer_pattern() {
            Some(pattern) => pattern,
            None => {
                return Err(DemosaicError::NotBayer);
            },
        };
        let out_dim = dim.halved();
        proof {
            lemma_halved_fits(dim.w as int, dim.h as int);
        }
        let n: usize = out_dim.w * out_dim.h;
        let mut data: Vec<[T; 3]> = Vec::new();
        let mut k: usize = 0;
        while k < n
            invariant
                pixels.len() == dim.w * dim.h,
                n == (dim.w / 2) * (dim.h / 2),
                forall|a: T, b: T| mean.requires((a, b)),
                k <= n,
                data@.len() == k,
                forall|j: int|
                    0 <= j < k ==> is_three_channel_pixel(
                        pixels@,
                        dim.w as int,
                        pattern,
                        mean,
                        j,
                        (#[trigger] data@[j])@,
                    ),
            decreases n - k,
        {
            let t = tile_at(pixels, dim.w, dim.h, k);
            let px = match pattern {
                RgbBayerPattern::RGGB => [t[0], mean(t[1], t[2]), t[3]],
                RgbBayerPattern::BGGR => [t[3], mean(t[1], t[2]), t[0]],
                RgbBayerPattern::GBRG => [t[2], mean(t[0], t[3]), t[1]],
                RgbBayerPattern::GRBG => [t[1], mean(t[0], t[3]), t[2]],
            };
            data.push(px);
            k += 1;
        }
        Ok(Color2D { data, width: out_dim.w, height: out_dim.h })
    }
}

/// Demosaic to four planes at a quarter of the resolution.
#[derive(Debug, Clone, Copy, Default)]
pub struct Superpixel4Channel {}

impl Superpixel4Channel {
    pub fn new() -> (s: Self) {
        Superpixel4Channel {  }
    }

    /// Makes one pixel of every tile of two by two samples: the tile's four
    /// samples, each in the plane of its colour, none mixed with another. A
    /// trailing odd row or column is dropped.
    ///
    /// Refused, in this order: a region of interest that is not the whole
    /// image, planes that are not four, and a plane whose colour the array
    /// does not hold.
    pub fn demosaic<T: Copy>(
        &self,
        pixels: &[T],
        dim: Dim2,
        cfa: &Cfa,
        colors: &PlaneColor,
        roi: Rect,
    ) -> (r: Result<Color2D<T, 4>, DemosaicError>)
        requires
            pixels.len() == dim.w * dim.h,
        ensures
            colors@.len() != 4 ==> r is Err,
            match four_channel_setup(dim, cfa@, colors@, roi) {
                Err(e) => r == Err::<Color2D<T, 4>, DemosaicError>(e),
                Ok(slots) => {
                    &&& r is Ok
                    &&& r->Ok_0.width == dim.w / 2
                    &&& r->Ok_0.height == dim.h / 2
                    &&& r->Ok_0.wf()
                    &&& forall|k: int, plane: int|
                        0 <= k < r->Ok_0.data@.len() && 0 <= plane < 4 ==> #[trigger] r->Ok_0.sample(
                            k,
                            plane,
                        ) == tile_sample(pixels@, dim.w as int, k, slots[plane])
                },
            },
    {
        if !roi.covers(dim) {
            return Err(DemosaicError::PartialRegion);
        }
        if colors.plane_count() != 4 {
            return Err(DemosaicError::PlaneCount { expected: 4, given: colors.plane_count() });
        }
        let s0: usize = match PlaneColor::cfa_index(cfa, colors.plane_color(0)) {
            Some(s) => s,
            None => {
                return Err(DemosaicError::ColorNotInPattern { plane: 0 });
            },
        };
        let s1: usize = match PlaneColor::cfa_index(cfa, colors.plane_color(1)) {
            Some(s) => s,
            None => {
                return Err(DemosaicError::ColorNotInPattern { plane: 1 });
            },
        };
        let s2: usize = match PlaneColor::cfa_index(cfa, colors.plane_color(2)) {
            Some(s) => s,
            None => {
                return Err(DemosaicError::ColorNotInPattern { plane: 2 });
            },
        };
        let s3: usize = match PlaneColor::cfa_index(cfa, colors.plane_color(3)) {
            Some(s) => s,
            None => {
                return Err(DemosaicError::ColorNotInPattern { plane: 3 });
            },
        };
        let ghost slots = four_channel_setup(dim, cfa@, colors@, roi)->Ok_0;
        let out_dim = dim.halved();
        proof {
            lemma_halved_fits(dim.w as int, dim.h as int);
        }
        let n: usize = out_dim.w * out_dim.h;
        let mut data: Vec<[T; 4]> = Vec::new();
        let mut k: usize = 0;
        while k < n
            invariant
                pixels.len() == dim.w * dim.h,
                n == (dim.w / 2) * (dim.h / 2),
                slots == seq![s0 as int, s1 as int, s2 as int, s3 as int],
                s0 < 4 && s1 < 4 && s2 < 4 && s3 < 4,
                k <= n,
                data@.len() == k,
                forall|j: int, plane: int|
                    0 <= j < k && 0 <= plane < 4 ==> (#[trigger] data@[j]@[plane]) == tile_sample(
                        pixels@,
                        dim.w as int,
                        j,
                        slots[plane],
                    ),
            decreases n - k,
        {
            let t = tile_at(pixels, dim.w, dim.h, k);
            let px = [t[s0], t[s1], t[s2], t[s3]];
            data.push(px);
            k += 1;
        }
        Ok(Color2D { data, width: out_dim.w, height: out_dim.h })
    }
}

} // verus!
