//! Level correction of a mosaic: every sample is corrected by the black and
//! white level of the tile position it lies on.

use vstd::prelude::*;

verus! {

/// Tile position of the sample at index `i` of a mosaic of `width` columns:
/// 0 top left, 1 top right, 2 bottom left, 3 bottom right.
pub open spec fn channel_slot(i: int, width: int) -> int {
    ((i / width) % 2) * 2 + (i % width) % 2
}

/// Number of samples of a buffer of `len` samples that lie in complete bands
/// of two rows of `width` columns.
pub open spec fn banded_len(len: int, width: int) -> int {
    (len / (2 * width)) * (2 * width)
}

/// Bands never reach beyond the buffer.
pub proof fn lemma_banded_len_bounds(len: int, width: int)
    requires
        0 <= len,
        0 < width,
    ensures
        0 <= banded_len(len, width) <= len,
        len - banded_len(len, width) < 2 * width,
{
    let band = 2 * width;
    assert(0 <= (len / band) * band <= len && len - (len / band) * band < band)
        by (nonlinear_arith)
        requires
            0 <= len,
            0 < band,
    ;
}

/// A buffer that holds whole rows of an image of even height is all bands.
pub proof fn lemma_whole_image_is_banded(width: int, height: int)
    requires
        0 < width,
        0 <= height,
        height % 2 == 0,
    ensures
        banded_len(width * height, width) == width * height,
{
    let band = 2 * width;
    let half = height / 2;
    assert(width * height == half * band) by (nonlinear_arith)
        requires
            height == 2 * half,
            band == 2 * width,
    ;
    vstd::arithmetic::div_mod::lemma_fundamental_div_mod_converse(width * height, band, half, 0);
}

/// In two dimensions: the sample at the left (`dc` 0) or right (`dc` 1) of
/// the upper (`dr` 0) or lower (`dr` 1) row of the tile at tile row `r`,
/// tile column `c` has tile position `2 * dr + dc`.
pub proof fn lemma_channel_slot_of_tile(width: int, r: int, c: int, dr: int, dc: int)
    requires
        0 <= r,
        0 <= c,
        0 <= dr <= 1,
        0 <= dc <= 1,
        2 * c + dc < width,
    ensures
        channel_slot((2 * r + dr) * width + (2 * c + dc), width) == 2 * dr + dc,
{
    vstd::arithmetic::div_mod::lemma_fundamental_div_mod_converse(
        (2 * r + dr) * width + (2 * c + dc),
        width,
        2 * r + dr,
        2 * c + dc,
    );
}

/// Corrects the samples of a mosaic in place. The sample at index `i`
/// becomes what `level` makes of it and of the black and the white level of
/// its tile position: `level(sample, black[slot], white[slot])`.
///
/// The buffer is worked band by band, a band being two rows; samples behind
/// the last complete band stay as they are.
pub fn correct_levels<T: Copy, F: Fn(T, T, T) -> T>(
    raw: &mut [T],
    width: usize,
    height: usize,
    black: &[T; 4],
    white: &[T; 4],
    level: F,
)
    requires
        width % 2 == 0,
        height % 2 == 0,
        0 < width,
        2 * width <= usize::MAX,
        forall|v: T, b: T, w: T| level.requires((v, b, w)),
    ensures
        final(raw)@.len() == old(raw)@.len(),
        forall|i: int|
            0 <= i < banded_len(old(raw)@.len() as int, width as int) ==> level.ensures(
                (
                    old(raw)@[i],
                    black@[channel_slot(i, width as int)],
                    white@[channel_slot(i, width as int)],
                ),
                #[trigger] final(raw)@[i],
            ),
        forall|i: int|
            banded_len(old(raw)@.len() as int, width as int) <= i < old(raw)@.len()
                ==> final(raw)@[i] == old(raw)@[i],
{
    let len: usize = raw.len();
    let band: usize = 2 * width;
    proof {
        lemma_banded_len_bounds(len as int, width as int);
    }
    let banded: usize = (len / band) * band;
    let mut i: usize = 0;
    while i < banded
        invariant
            0 < width,
            len == old(raw)@.len(),
            raw@.len() == len,
            banded == banded_len(len as int, width as int),
            banded <= len,
            i <= banded,
            forall|v: T, b: T, w: T| level.requires((v, b, w)),
            forall|j: int|
                0 <= j < i ==> level.ensures(
                    (
                        old(raw)@[j],
                        black@[channel_slot(j, width as int)],
                        white@[channel_slot(j, width as int)],
                    ),
                    #[trigger] raw@[j],
                ),
            forall|j: int| i <= j < len ==> raw@[j] == old(raw)@[j],
        decreases banded - i,
    {
        let slot: usize = ((i / width) % 2) * 2 + (i % width) % 2;
        let corrected = level(raw[i], black[slot], white[slot]);
        raw[i] = corrected;
        i += 1;
    }
}

} // verus!
