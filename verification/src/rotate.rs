//! Quarter-turn rotation of a row-major sample buffer.

use vstd::prelude::*;
use vstd::arithmetic::div_mod::lemma_fundamental_div_mod_converse;

verus! {

/// Position in the source buffer of the sample that a quarter turn puts at
/// position `i` of the rotated buffer. The source has `width` columns and
/// `height` rows; the rotated buffer has `height` columns and `width` rows.
pub open spec fn source_index(i: int, width: int, height: int) -> int {
    (height - 1 - i % height) * width + i / height
}

/// The buffer `src` of `width` columns and `height` rows, turned by 90
/// degrees clockwise: source row `r`, column `c` lands in row `c`, column
/// `height - 1 - r`.
pub open spec fn rotated(src: Seq<u16>, width: int, height: int) -> Seq<u16> {
    Seq::new((width * height) as nat, |i: int| src[source_index(i, width, height)])
}

/// The source position of every rotated position lies inside the buffer.
pub proof fn lemma_source_index_in_bounds(i: int, width: int, height: int)
    requires
        0 < width,
        0 <= i < width * height,
    ensures
        0 < height,
        0 <= i / height < width,
        0 <= i % height < height,
        0 <= source_index(i, width, height) < width * height,
{
    assert(0 < height) by (nonlinear_arith)
        requires
            0 < width,
            0 <= i < width * height,
    ;
    let a = i / height;
    let b = i % height;
    assert(0 <= b < height && i == a * height + b && 0 <= a) by (nonlinear_arith)
        requires
            0 < height,
            0 <= i,
            a == i / height,
            b == i % height,
    ;
    assert(a < width) by (nonlinear_arith)
        requires
            a * height + b < width * height,
            0 <= b,
            0 < height,
    ;
    assert(0 <= (height - 1 - b) * width + a < width * height) by (nonlinear_arith)
        requires
            0 <= b < height,
            0 <= a < width,
    ;
}

/// In two dimensions: the rotated sample at row `a`, column `b` comes from
/// source row `height - 1 - b`, column `a`.
pub proof fn lemma_source_index_2d(a: int, b: int, width: int, height: int)
    requires
        0 <= a < width,
        0 <= b < height,
    ensures
        0 <= a * height + b < width * height,
        source_index(a * height + b, width, height) == (height - 1 - b) * width + a,
{
    lemma_fundamental_div_mod_converse(a * height + b, height, a, b);
    assert(0 <= a * height + b < width * height) by (nonlinear_arith)
        requires
            0 <= a < width,
            0 <= b < height,
    ;
}

/// Rotates `src`, a buffer of `width` columns and `height` rows, by 90
/// degrees clockwise into the front of `dst`. What `dst` holds behind the
/// first `src.len()` samples is left as it was.
pub fn rotate_90(src: &[u16], dst: &mut [u16], width: usize, height: usize)
    requires
        width > 0,
        src.len() == width * height,
        old(dst).len() >= src.len(),
    ensures
        final(dst)@.len() == old(dst)@.len(),
        final(dst)@.subrange(0, src@.len() as int) == rotated(src@, width as int, height as int),
        forall|i: int| src@.len() <= i < old(dst)@.len() ==> final(dst)@[i] == old(dst)@[i],
{
    let n: usize = src.len();
    let mut i: usize = 0;
    while i < n
        invariant
            width > 0,
            n == src@.len(),
            n == width * height,
            i <= n,
            dst@.len() == old(dst)@.len(),
            dst@.len() >= n,
            forall|j: int| 0 <= j < i ==> dst@[j] == src@[source_index(j, width as int, height as int)],
            forall|j: int| n <= j < dst@.len() ==> dst@[j] == old(dst)@[j],
        decreases n - i,
    {
        proof {
            lemma_source_index_in_bounds(i as int, width as int, height as int);
        }
        let row: usize = height - 1 - i % height;
        let col: usize = i / height;
        assert(0 <= row * col) by (nonlinear_arith)
            requires
                0 <= row,
                0 <= col,
        ;
        assert(row * width <= row * width + col);
        let from: usize = row * width + col;
        dst[i] = src[from];
        i += 1;
    }
    proof {
        assert(dst@.subrange(0, n as int) =~= rotated(src@, width as int, height as int));
    }
}

/// Four quarter turns of a square buffer give the buffer back.
pub proof fn lemma_four_rotations_identity(src: Seq<u16>, side: int)
    requires
        0 < side,
        src.len() == side * side,
    ensures
        rotated(rotated(rotated(rotated(src, side, side), side, side), side, side), side, side)
            == src,
{
    let r1 = rotated(src, side, side);
    let r2 = rotated(r1, side, side);
    let r3 = rotated(r2, side, side);
    let r4 = rotated(r3, side, side);
    assert forall|i: int| 0 <= i < side * side implies r4[i] == src[i] by {
        lemma_source_index_in_bounds(i, side, side);
        let a = i / side;
        let b = i % side;
        assert(i == a * side + b) by (nonlinear_arith)
            requires
                0 < side,
                a == i / side,
                b == i % side,
        ;
        lemma_source_index_2d(a, b, side, side);
        lemma_source_index_2d(side - 1 - b, a, side, side);
        lemma_source_index_2d(side - 1 - a, side - 1 - b, side, side);
        lemma_source_index_2d(b, side - 1 - a, side, side);
    }
    assert(r4 =~= src);
}

/// A quarter turn moves every sample and invents none: the sample at source
/// row `r`, column `c` is found at row `c`, column `height - 1 - r`.
pub proof fn lemma_rotated_places(src: Seq<u16>, width: int, height: int, r: int, c: int)
    requires
        src.len() == width * height,
        0 <= r < height,
        0 <= c < width,
    ensures
        0 <= c * height + (height - 1 - r) < width * height,
        rotated(src, width, height)[c * height + (height - 1 - r)] == src[r * width + c],
{
    lemma_source_index_2d(c, height - 1 - r, width, height);
}

} // verus!
