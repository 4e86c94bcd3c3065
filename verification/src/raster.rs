//! Square pictures as rows of RGBA bytes, and the circular crop that turns
//! one into an avatar.

use vstd::prelude::*;

verus! {

/// A picture: `height` rows of `width` pixels, each pixel four bytes in the
/// order red, green, blue, alpha. The alpha is not multiplied into the
/// colours.
#[derive(Debug)]
pub struct RasterImage {
    pub width: usize,
    pub height: usize,
    pub rgba: Vec<u8>,
}

/// A `RasterImage` as a mathematical value.
pub struct RasterModel {
    pub width: nat,
    pub height: nat,
    pub rgba: Seq<u8>,
}

impl RasterModel {
    /// There are four bytes for every pixel and no others.
    pub open spec fn well_formed(self) -> bool {
        self.rgba.len() == 4 * self.width * self.height
    }

    /// As many columns as rows.
    pub open spec fn is_square(self) -> bool {
        self.width == self.height
    }

    /// The byte of channel `channel` (0 red, 1 green, 2 blue, 3 alpha) of
    /// the pixel in column `x` of row `y`.
    pub open spec fn sample(self, x: int, y: int, channel: int) -> u8 {
        self.rgba[4 * (y * self.width + x) + channel]
    }
}

/// Whether the pixel in column `x` of row `y` of a square picture with
/// `dim` columns lies outside the circle around `(dim / 2, dim / 2)` with
/// radius `dim / 2`: whether its Euclidean distance from that centre exceeds
/// the radius.
pub open spec fn outside_circle(x: int, y: int, dim: int) -> bool {
    let half = dim / 2;
    (x - half) * (x - half) + (y - half) * (y - half) > half * half
}

/// The picture with the alpha of every pixel outside the circle set to zero
/// and every other byte as it was.
pub open spec fn masked(picture: RasterModel) -> RasterModel {
    RasterModel {
        width: picture.width,
        height: picture.height,
        rgba: Seq::new(
            picture.rgba.len(),
            |i: int|
                if i % 4 == 3 && outside_circle(
                    (i / 4) % (picture.width as int),
                    (i / 4) / (picture.width as int),
                    picture.width as int,
                ) {
                    0u8
                } else {
                    picture.rgba[i]
                },
        ),
    }
}

/// The picture of `dim` by `dim` pixels that all have the colour `color`,
/// given as red, green, blue, alpha.
pub open spec fn solid(color: Seq<u8>, dim: nat) -> RasterModel {
    RasterModel { width: dim, height: dim, rgba: Seq::new(4 * dim * dim, |i: int| color[i % 4]) }
}

impl View for RasterImage {
    type V = RasterModel;

    open spec fn view(&self) -> RasterModel {
        RasterModel { width: self.width as nat, height: self.height as nat, rgba: self.rgba@ }
    }
}

proof fn lemma_square_le(a: int, b: int)
    by (nonlinear_arith)
    requires
        0 <= a <= b,
    ensures
        a * a <= b * b,
{
}

proof fn lemma_byte_count(width: int, height: int)
    by (nonlinear_arith)
    ensures
        4 * width * height == 4 * (width * height),
{
}

proof fn lemma_area_bound(width: int, height: int)
    by (nonlinear_arith)
    requires
        0 <= width <= 0xffff_ffff_ffff_ffff,
        0 <= height <= 0xffff_ffff_ffff_ffff,
    ensures
        0 <= width * height <= 0xffff_ffff_ffff_ffff * 0xffff_ffff_ffff_ffff,
{
}

proof fn lemma_pixel_index(p: int, dim: int)
    by (nonlinear_arith)
    requires
        0 <= p < dim * dim,
        0 < dim,
    ensures
        0 <= p % dim < dim,
        0 <= p / dim < dim,
{
}

proof fn lemma_row_column(x: int, y: int, dim: int)
    by (nonlinear_arith)
    requires
        0 <= x < dim,
        0 <= y,
    ensures
        (y * dim + x) % dim == x,
        (y * dim + x) / dim == y,
        0 <= y * dim + x,
{
}

proof fn lemma_pixel_in_range(x: int, y: int, dim: int)
    by (nonlinear_arith)
    requires
        0 <= x < dim,
        0 <= y < dim,
    ensures
        0 <= y * dim + x < dim * dim,
{
}

/// The circular crop, pixel by pixel: it makes a pixel whose distance from
/// the centre exceeds half the width fully transparent, leaves the alpha of
/// every other pixel as it was, and changes no colour.
pub proof fn lemma_mask_pixel(picture: RasterModel, x: int, y: int)
    requires
        picture.well_formed(),
        picture.is_square(),
        0 <= x < picture.width,
        0 <= y < picture.height,
    ensures
        masked(picture).sample(x, y, 3) == (if outside_circle(x, y, picture.width as int) {
            0u8
        } else {
            picture.sample(x, y, 3)
        }),
        masked(picture).sample(x, y, 0) == picture.sample(x, y, 0),
        masked(picture).sample(x, y, 1) == picture.sample(x, y, 1),
        masked(picture).sample(x, y, 2) == picture.sample(x, y, 2),
{
    let dim = picture.width as int;
    lemma_row_column(x, y, dim);
    lemma_pixel_in_range(x, y, dim);
    lemma_byte_count(dim, dim);
    let p = y * dim + x;
    assert((4 * p + 3) / 4 == p && (4 * p + 3) % 4 == 3);
    assert((4 * p + 0) / 4 == p && (4 * p + 0) % 4 == 0);
    assert((4 * p + 1) / 4 == p && (4 * p + 1) % 4 == 1);
    assert((4 * p + 2) / 4 == p && (4 * p + 2) % 4 == 2);
}

/// The crop of a placeholder: every pixel of a picture of one colour keeps
/// that colour, and its alpha is zero outside the circle and the colour's
/// alpha inside it.
pub proof fn lemma_masked_placeholder(color: Seq<u8>, dim: nat, x: int, y: int)
    requires
        color.len() == 4,
        0 <= x < dim,
        0 <= y < dim,
    ensures
        masked(solid(color, dim)).sample(x, y, 0) == color[0],
        masked(solid(color, dim)).sample(x, y, 1) == color[1],
        masked(solid(color, dim)).sample(x, y, 2) == color[2],
        masked(solid(color, dim)).sample(x, y, 3) == (if outside_circle(x, y, dim as int) {
            0u8
        } else {
            color[3]
        }),
{
    let picture = solid(color, dim);
    lemma_byte_count(dim as int, dim as int);
    lemma_mask_pixel(picture, x, y);
    lemma_pixel_in_range(x, y, dim as int);
    let p = y * dim + x;
    assert((4 * p + 3) % 4 == 3);
    assert((4 * p + 0) % 4 == 0);
    assert((4 * p + 1) % 4 == 1);
    assert((4 * p + 2) % 4 == 2);
}

impl RasterImage {
    /// A picture of `dim` by `dim` pixels that all have the colour `color`.
    pub fn solid(color: &[u8; 4], dim: usize) -> (picture: RasterImage)
        requires
            4 * dim * dim <= usize::MAX,
        ensures
            picture@ == solid(color@, dim as nat),
            picture@.well_formed(),
            picture@.is_square(),
    {
        proof {
            lemma_byte_count(dim as int, dim as int);
        }
        let pixels: usize = dim * dim;
        let bytes: usize = 4 * pixels;
        let mut rgba: Vec<u8> = Vec::new();
        let mut i: usize = 0;
        while i < bytes
            invariant
                i <= bytes,
                rgba@.len() == i,
                forall|k: int| 0 <= k < i ==> rgba@[k] == color@[k % 4],
            decreases bytes - i,
        {
            rgba.push(color[i % 4]);
            i += 1;
        }
        let picture = RasterImage { width: dim, height: dim, rgba };
        assert(picture@.rgba =~= solid(color@, dim as nat).rgba);
        picture
    }

    /// Whether there are four bytes for every pixel and no others.
    pub fn is_well_formed(&self) -> (ok: bool)
        ensures
            ok == self@.well_formed(),
    {
        proof {
            lemma_area_bound(self.width as int, self.height as int);
            lemma_byte_count(self.width as int, self.height as int);
        }
        let area: u128 = (self.width as u128) * (self.height as u128);
        let bytes: usize = self.rgba.len();
        bytes % 4 == 0 && (bytes / 4) as u128 == area
    }

    /// Makes every pixel outside the circle around the centre of the picture
    /// fully transparent, and leaves every other byte as it is.
    pub fn apply_circle_mask(&mut self)
        requires
            old(self)@.well_formed(),
            old(self)@.is_square(),
        ensures
            final(self)@ == masked(old(self)@),
            final(self)@.well_formed(),
            final(self)@.is_square(),
    {
        let dim: usize = self.width;
        let half: usize = dim / 2;
        proof {
            lemma_byte_count(dim as int, dim as int);
        }
        let pixels: usize = self.rgba.len() / 4;
        let ghost before = self@;
        let mut p: usize = 0;
        while p < pixels
            invariant
                p <= pixels,
                pixels == dim * dim,
                half == dim / 2,
                before == old(self)@,
                before.well_formed(),
                before.width == dim,
                before.height == dim,
                self.width == dim,
                self.height == dim,
                self.rgba@.len() == before.rgba.len(),
                self.rgba@.len() == 4 * pixels,
                4 * pixels <= usize::MAX,
                forall|i: int| 0 <= i < 4 * p ==> self.rgba@[i] == masked(before).rgba[i],
                forall|i: int| 4 * p <= i < 4 * pixels ==> self.rgba@[i] == before.rgba[i],
            decreases pixels - p,
        {
            proof {
                lemma_pixel_index(p as int, dim as int);
            }
            let x: usize = p % dim;
            let y: usize = p / dim;
            let dx: u64 = if x >= half {
                (x - half) as u64
            } else {
                (half - x) as u64
            };
            let dy: u64 = if y >= half {
                (y - half) as u64
            } else {
                (half - y) as u64
            };
            proof {
                lemma_square_le(dx as int, dim as int);
                lemma_square_le(dy as int, dim as int);
                lemma_square_le(half as int, dim as int);
                assert(dim * dim <= 0x3fff_ffff_ffff_ffff);
                assert(dx * dx == (x - half) * (x - half)) by (nonlinear_arith)
                    requires
                        dx == x - half || dx == half - x,
                ;
                assert(dy * dy == (y - half) * (y - half)) by (nonlinear_arith)
                    requires
                        dy == y - half || dy == half - y,
                ;
            }
            let far: bool = dx * dx + dy * dy > (half as u64) * (half as u64);
            assert(far == outside_circle(x as int, y as int, dim as int));
            let alpha: usize = 4 * p + 3;
            if far {
                self.rgba.set(alpha, 0);
            }
            proof {
                assert forall|i: int| 0 <= i < 4 * (p + 1) implies self.rgba@[i] == masked(
                    before,
                ).rgba[i] by {
                    if i >= 4 * p {
                        assert(i / 4 == p as int);
                        if i != alpha {
                            assert(i % 4 != 3);
                        } else {
                            assert(i % 4 == 3);
                        }
                    }
                }
            }
            p += 1;
        }
        assert(self@.rgba =~= masked(before).rgba);
    }
}

} // verus!
