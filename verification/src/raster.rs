//! Owned RGBA bitmaps.
//!
//! An [`Image`] is a rectangle of pixels stored row by row, top row first.
//! Its mathematical model is an [`ImageView`]: a width, a height and the
//! sequence of its pixels.

use crate::types::Rgba;
use vstd::arithmetic::div_mod::{
    lemma_fundamental_div_mod, lemma_fundamental_div_mod_converse, lemma_mod_bound,
    lemma_multiply_divide_lt,
};
use vstd::prelude::*;

verus! {

/// The mathematical model of a bitmap.
pub struct ImageView {
    pub width: nat,
    pub height: nat,
    /// The pixels row by row, top row first, each row left to right.
    pub pixels: Seq<Rgba>,
}

/// The pixel in column `x` of row `y` of a row-major pixel sequence whose
/// rows are `width` long.
pub open spec fn pixel_at(pixels: Seq<Rgba>, width: int, x: int, y: int) -> Rgba {
    pixels[y * width + x]
}

/// The pixel that four consecutive bytes encode, in the order red, green,
/// blue, alpha.
pub open spec fn pixel_of_bytes(data: Seq<u8>, i: int) -> Rgba {
    Rgba { r: data[4 * i], g: data[4 * i + 1], b: data[4 * i + 2], a: data[4 * i + 3] }
}

/// The pixels that a byte buffer encodes, four bytes to the pixel.
pub open spec fn pixels_of_bytes(data: Seq<u8>) -> Seq<Rgba> {
    Seq::new((data.len() / 4) as nat, |i: int| pixel_of_bytes(data, i))
}

/// Byte `k` of the buffer that encodes a pixel sequence.
pub open spec fn byte_of_pixels(pixels: Seq<Rgba>, k: int) -> u8 {
    let p = pixels[k / 4];
    if k % 4 == 0 {
        p.r
    } else if k % 4 == 1 {
        p.g
    } else if k % 4 == 2 {
        p.b
    } else {
        p.a
    }
}

/// The byte buffer that encodes a pixel sequence, four bytes to the pixel.
pub open spec fn bytes_of_pixels(pixels: Seq<Rgba>) -> Seq<u8> {
    Seq::new(4 * pixels.len(), |k: int| byte_of_pixels(pixels, k))
}

/// Whether a bitmap of this size can be held. The bound leaves room for the
/// widest working copy that resampling makes of a bitmap: sixteen bytes to
/// the pixel, within half of the address space.
pub open spec fn size_fits(width: int, height: int) -> bool {
    32 * width * height <= usize::MAX
}

/// The pixels that nearest-neighbour resampling of a `width` by `height`
/// bitmap to `new_width` by `new_height` yields.
pub uninterp spec fn nearest_resized(
    width: nat,
    height: nat,
    pixels: Seq<Rgba>,
    new_width: nat,
    new_height: nat,
) -> Seq<Rgba>;

/// What source-over compositing makes of a pixel `bottom` under a pixel `top`
/// that is neither fully transparent nor fully opaque.
pub uninterp spec fn alpha_mixed(bottom: Rgba, top: Rgba) -> Rgba;

/// Source-over compositing of one pixel: a fully transparent `top` leaves
/// `bottom` as it is, a fully opaque one replaces it.
pub open spec fn blended(bottom: Rgba, top: Rgba) -> Rgba {
    if top.a == 0 {
        bottom
    } else if top.a == 255 {
        top
    } else {
        alpha_mixed(bottom, top)
    }
}

/// The pixel at `(bx, by)` of a bitmap after another was laid over it with
/// its top-left corner at `(x, y)`: blended where the two overlap, untouched
/// elsewhere. The corner may lie outside the lower bitmap on any side.
pub open spec fn overlaid_pixel(
    bottom: Seq<Rgba>,
    bottom_width: int,
    top: Seq<Rgba>,
    top_width: int,
    top_height: int,
    x: int,
    y: int,
    bx: int,
    by: int,
) -> Rgba {
    if x <= bx < x + top_width && y <= by < y + top_height {
        blended(pixel_at(bottom, bottom_width, bx, by), pixel_at(top, top_width, bx - x, by - y))
    } else {
        pixel_at(bottom, bottom_width, bx, by)
    }
}

impl ImageView {
    /// A well-formed model has exactly one pixel per cell.
    pub open spec fn wf(self) -> bool {
        &&& self.pixels.len() == self.width * self.height
        &&& self.width <= u32::MAX
        &&& self.height <= u32::MAX
        &&& size_fits(self.width as int, self.height as int)
    }

    /// The pixel in column `x` of row `y`.
    pub open spec fn pixel(self, x: int, y: int) -> Rgba {
        pixel_at(self.pixels, self.width as int, x, y)
    }

    /// Whether `(x, y)` names a cell of the bitmap.
    pub open spec fn contains(self, x: int, y: int) -> bool {
        0 <= x < self.width && 0 <= y < self.height
    }

    /// The fully transparent bitmap of the given size.
    pub open spec fn blank(width: nat, height: nat) -> ImageView {
        ImageView {
            width,
            height,
            pixels: Seq::new(width * height, |i: int| Rgba { r: 0, g: 0, b: 0, a: 0 }),
        }
    }

    /// The column of the pixel with row-major index `i`.
    pub open spec fn column(self, i: int) -> int {
        i % (self.width as int)
    }

    /// The row of the pixel with row-major index `i`.
    pub open spec fn row(self, i: int) -> int {
        i / (self.width as int)
    }

    /// The bitmap resampled to a new size by nearest neighbour.
    pub open spec fn resized(self, width: nat, height: nat) -> ImageView {
        ImageView {
            width,
            height,
            pixels: nearest_resized(self.width, self.height, self.pixels, width, height),
        }
    }

    /// The bitmap mirrored left to right.
    pub open spec fn flipped(self) -> ImageView {
        ImageView {
            width: self.width,
            height: self.height,
            pixels: Seq::new(
                self.pixels.len(),
                |i: int| self.pixel(self.width - 1 - self.column(i), self.row(i)),
            ),
        }
    }

    /// The `width` by `height` part of the bitmap whose top-left corner is
    /// at `(x, y)`.
    pub open spec fn cropped(self, x: int, y: int, width: nat, height: nat) -> ImageView {
        ImageView {
            width,
            height,
            pixels: Seq::new(
                width * height,
                |i: int| self.pixel(x + i % (width as int), y + i / (width as int)),
            ),
        }
    }

    /// The bitmap with `top` laid over it, the top-left corner of `top` at
    /// `(x, y)`.
    pub open spec fn overlaid(self, top: ImageView, x: int, y: int) -> ImageView {
        ImageView {
            width: self.width,
            height: self.height,
            pixels: Seq::new(
                self.pixels.len(),
                |i: int|
                    overlaid_pixel(
                        self.pixels,
                        self.width as int,
                        top.pixels,
                        top.width as int,
                        top.height as int,
                        x,
                        y,
                        self.column(i),
                        self.row(i),
                    ),
            ),
        }
    }

    /// Whether every pixel is fully transparent.
    pub open spec fn is_transparent(self) -> bool {
        forall|x: int, y: int| self.contains(x, y) ==> (#[trigger] self.pixel(x, y)).a == 0
    }
}

/// Row-major index `i` of a `width` by `height` grid names the cell in
/// column `i % width` of row `i / width`.
pub proof fn lemma_index_cell(width: int, height: int, i: int)
    requires
        0 <= i < width * height,
        0 < width,
    ensures
        0 <= i % width < width,
        0 <= i / width < height,
        (i / width) * width + i % width == i,
{
    lemma_fundamental_div_mod(i, width);
    lemma_mod_bound(i, width);
    lemma_multiply_divide_lt(i, width, height);
    assert(width * (i / width) == (i / width) * width) by (nonlinear_arith);
    assert(i / width >= 0) by (nonlinear_arith)
        requires
            i == width * (i / width) + i % width,
            0 <= i,
            0 <= i % width < width,
            0 < width,
    ;
}

/// The cell in column `x` of row `y` has the row-major index `y * width + x`,
/// and that index names no other cell.
pub proof fn lemma_cell_roundtrip(width: int, x: int, y: int)
    requires
        0 <= x < width,
    ensures
        (y * width + x) % width == x,
        (y * width + x) / width == y,
{
    lemma_fundamental_div_mod_converse(y * width + x, width, y, x);
}

/// Row `y`, column `x` of a `width` by `height` grid lies inside the grid's
/// row-major index range.
pub proof fn lemma_cell_index(width: int, height: int, x: int, y: int)
    requires
        0 <= x < width,
        0 <= y < height,
    ensures
        0 <= y * width + x < width * height,
        0 <= y * width <= y * width + x,
        32 * width * height == 32 * (width * height),
{
    assert(32 * width * height == 32 * (width * height)) by (nonlinear_arith);
    assert(y * width >= 0) by (nonlinear_arith)
        requires
            y >= 0,
            width > 0,
    ;
    assert(y * width + width <= width * height) by (nonlinear_arith)
        requires
            0 <= y < height,
            width > 0,
    ;
}

/// An owned RGBA bitmap.
#[derive(Debug)]
pub struct Image {
    width: u32,
    height: u32,
    pixels: Vec<Rgba>,
}

impl View for Image {
    type V = ImageView;

    closed spec fn view(&self) -> ImageView {
        ImageView {
            width: self.width as nat,
            height: self.height as nat,
            pixels: self.pixels@,
        }
    }
}

impl Image {
    #[verifier::type_invariant]
    spec fn inv(self) -> bool {
        &&& self.pixels@.len() == self.width * self.height
        &&& size_fits(self.width as int, self.height as int)
    }

    /// Whether a bitmap of this size can be held.
    pub fn fits(width: u32, height: u32) -> (ok: bool)
        ensures
            ok == size_fits(width as int, height as int),
    {
        assert(0 <= width as int * height as int <= 0xffff_ffff * 0xffff_ffff) by (nonlinear_arith)
            requires
                0 <= width <= 0xffff_ffff,
                0 <= height <= 0xffff_ffff,
        ;
        assert(32 * width * height == 32 * (width * height)) by (nonlinear_arith);
        let cells: u64 = width as u64 * height as u64;
        cells as u128 * 32 <= usize::MAX as u128
    }

    /// A fully transparent bitmap.
    pub fn new(width: u32, height: u32) -> (img: Self)
        requires
            size_fits(width as int, height as int),
        ensures
            img@ == ImageView::blank(width as nat, height as nat),
            img@.wf(),
    {
        assert(32 * width * height == 32 * (width * height)) by (nonlinear_arith);
        assert(0 <= width * height) by (nonlinear_arith);
        let cells: usize = width as usize * height as usize;
        let pixels: Vec<Rgba> = vec![Rgba::transparent(); cells];
        assert(pixels@ =~= ImageView::blank(width as nat, height as nat).pixels);
        Image { width, height, pixels }
    }

    pub fn width(&self) -> (w: u32)
        ensures
            w == self@.width,
            self@.wf(),
    {
        proof {
            use_type_invariant(self);
        }
        self.width
    }

    pub fn height(&self) -> (h: u32)
        ensures
            h == self@.height,
            self@.wf(),
    {
        proof {
            use_type_invariant(self);
        }
        self.height
    }

    /// The number of pixels.
    pub fn pixel_count(&self) -> (n: usize)
        ensures
            n == self@.pixels.len(),
            self@.wf(),
    {
        proof {
            use_type_invariant(self);
        }
        self.pixels.len()
    }

    /// Pixel `i` in row-major order.
    pub fn pixel(&self, i: usize) -> (p: Rgba)
        requires
            i < self@.pixels.len(),
        ensures
            p == self@.pixels[i as int],
    {
        self.pixels[i]
    }

    /// Replaces pixel `i` in row-major order.
    pub fn set_pixel(&mut self, i: usize, p: Rgba)
        requires
            i < old(self)@.pixels.len(),
        ensures
            final(self)@.width == old(self)@.width,
            final(self)@.height == old(self)@.height,
            final(self)@.pixels == old(self)@.pixels.update(i as int, p),
            final(self)@.wf(),
    {
        proof {
            use_type_invariant(&*self);
        }
        self.pixels[i] = p;
    }

    /// The pixel in column `x` of row `y`.
    pub fn get_pixel(&self, x: u32, y: u32) -> (p: Rgba)
        requires
            self@.contains(x as int, y as int),
        ensures
            p == self@.pixel(x as int, y as int),
    {
        proof {
            use_type_invariant(self);
            lemma_cell_index(self.width as int, self.height as int, x as int, y as int);
        }
        let i: usize = y as usize * self.width as usize + x as usize;
        self.pixels[i]
    }

    /// Replaces the pixel in column `x` of row `y`.
    pub fn put_pixel(&mut self, x: u32, y: u32, p: Rgba)
        requires
            old(self)@.contains(x as int, y as int),
        ensures
            final(self)@.width == old(self)@.width,
            final(self)@.height == old(self)@.height,
            final(self)@.pixels == old(self)@.pixels.update(y * old(self)@.width + x, p),
            final(self)@.wf(),
    {
        proof {
            use_type_invariant(&*self);
            lemma_cell_index(self.width as int, self.height as int, x as int, y as int);
        }
        let i: usize = y as usize * self.width as usize + x as usize;
        self.pixels[i] = p;
    }

    /// A bitmap from its byte encoding, four bytes to the pixel in the order
    /// red, green, blue, alpha. The buffer must hold exactly one pixel per
    /// cell and the size must fit.
    pub fn from_raw(width: u32, height: u32, data: &Vec<u8>) -> (res: Option<Self>)
        ensures
            res is Some <==> data@.len() == 4 * (width * height) && size_fits(
                width as int,
                height as int,
            ),
            res matches Some(img) ==> img@ == (ImageView {
                width: width as nat,
                height: height as nat,
                pixels: pixels_of_bytes(data@),
            }) && img@.wf(),
    {
        if !Self::fits(width, height) {
            return None;
        }
        assert(32 * width * height == 32 * (width * height)) by (nonlinear_arith);
        assert(0 <= width * height) by (nonlinear_arith);
        let cells: usize = width as usize * height as usize;
        if data.len() != 4 * cells {
            return None;
        }
        let mut pixels: Vec<Rgba> = Vec::new();
        let mut i: usize = 0;
        while i < cells
            invariant
                i <= cells,
                32 * cells <= usize::MAX,
                data@.len() == 4 * cells,
                pixels@.len() == i,
                forall|j: int| 0 <= j < i ==> #[trigger] pixels@[j] == pixel_of_bytes(data@, j),
            decreases cells - i,
        {
            pixels.push(Rgba::new(data[4 * i], data[4 * i + 1], data[4 * i + 2], data[4 * i + 3]));
            i = i + 1;
        }
        assert(pixels@ =~= pixels_of_bytes(data@));
        Some(Image { width, height, pixels })
    }

    /// The byte encoding of the bitmap, four bytes to the pixel.
    pub fn to_raw(&self) -> (data: Vec<u8>)
        ensures
            data@ == bytes_of_pixels(self@.pixels),
            data@.len() == 4 * (self@.width * self@.height),
    {
        proof {
            use_type_invariant(self);
            assert(32 * self.width * self.height == 32 * (self.width * self.height))
                by (nonlinear_arith);
        }
        let cells: usize = self.pixels.len();
        let mut data: Vec<u8> = Vec::new();
        let mut i: usize = 0;
        while i < cells
            invariant
                i <= cells,
                cells == self.pixels@.len(),
                32 * cells <= usize::MAX,
                data@.len() == 4 * i,
                forall|k: int| 0 <= k < 4 * i ==> #[trigger] data@[k] == byte_of_pixels(self.pixels@, k),
            decreases cells - i,
        {
            let p: Rgba = self.pixels[i];
            data.push(p.r);
            data.push(p.g);
            data.push(p.b);
            data.push(p.a);
            i = i + 1;
        }
        assert(data@ =~= bytes_of_pixels(self.pixels@));
        data
    }

    /// The bitmap resampled to a new size by taking, for each new pixel, the
    /// nearest old one.
    pub fn resize_nearest(&self, new_width: u32, new_height: u32) -> (out: Self)
        requires
            self@.width > 0,
            self@.height > 0,
            new_width > 0,
            new_height > 0,
            size_fits(self@.width as int, new_height as int),
            size_fits(new_width as int, new_height as int),
        ensures
            out@.wf(),
            out@ == self@.resized(new_width as nat, new_height as nat),
    {
        proof {
            use_type_invariant(self);
        }
        let pixels: Vec<Rgba> = resize_pixels(
            self.width,
            self.height,
            &self.pixels,
            new_width,
            new_height,
        );
        Image { width: new_width, height: new_height, pixels }
    }

    /// The bitmap mirrored left to right.
    pub fn flip_horizontal(&self) -> (out: Self)
        ensures
            out@.wf(),
            out@ == self@.flipped(),
            forall|x: int, y: int|
                self@.contains(x, y) ==> #[trigger] out@.pixel(x, y) == self@.pixel(
                    self@.width - 1 - x,
                    y,
                ),
    {
        proof {
            use_type_invariant(self);
        }
        let pixels: Vec<Rgba> = flip_pixels(self.width, self.height, &self.pixels);
        proof {
            let w = self.width as int;
            let h = self.height as int;
            assert forall|i: int| 0 <= i < pixels@.len() implies pixels@[i]
                == self@.flipped().pixels[i] by {
                lemma_index_cell(w, h, i);
                assert(pixels@[i] == pixel_at(pixels@, w, i % w, i / w));
            }
            assert(pixels@ =~= self@.flipped().pixels);
        }
        Image { width: self.width, height: self.height, pixels }
    }

    /// Lays `top` over this bitmap with its top-left corner at `(x, y)`,
    /// which may lie outside the bitmap on any side. Where the two overlap
    /// each pixel is blended with the one above it; the rest is untouched.
    pub fn overlay(&mut self, top: &Image, x: i64, y: i64)
        ensures
            final(self)@.wf(),
            final(self)@ == old(self)@.overlaid(top@, x as int, y as int),
            forall|bx: int, by: int|
                old(self)@.contains(bx, by) ==> #[trigger] final(self)@.pixel(bx, by)
                    == overlaid_pixel(
                    old(self)@.pixels,
                    old(self)@.width as int,
                    top@.pixels,
                    top@.width as int,
                    top@.height as int,
                    x as int,
                    y as int,
                    bx,
                    by,
                ),
    {
        proof {
            use_type_invariant(&*self);
            use_type_invariant(top);
        }
        let pixels: Vec<Rgba> = overlay_pixels(
            self.width,
            self.height,
            &self.pixels,
            top.width,
            top.height,
            &top.pixels,
            x,
            y,
        );
        proof {
            let w = self.width as int;
            let h = self.height as int;
            let expected = old(self)@.overlaid(top@, x as int, y as int);
            assert forall|i: int| 0 <= i < pixels@.len() implies pixels@[i] == expected.pixels[i] by {
                lemma_index_cell(w, h, i);
                assert(pixels@[i] == pixel_at(pixels@, w, i % w, i / w));
            }
            assert(pixels@ =~= expected.pixels);
            assert forall|bx: int, by: int| old(self)@.contains(bx, by) implies pixel_at(
                pixels@,
                w,
                bx,
                by,
            ) == overlaid_pixel(
                old(self)@.pixels,
                w,
                top@.pixels,
                top@.width as int,
                top@.height as int,
                x as int,
                y as int,
                bx,
                by,
            ) by {
                lemma_cell_index(w, h, bx, by);
            }
        }
        self.pixels = pixels;
    }

    /// The `width` by `height` part of the bitmap whose top-left corner is
    /// at `(x, y)`.
    pub fn crop(&self, x: u32, y: u32, width: u32, height: u32) -> (out: Self)
        requires
            x + width <= self@.width,
            y + height <= self@.height,
        ensures
            out@.wf(),
            out@ == self@.cropped(x as int, y as int, width as nat, height as nat),
            forall|cx: int, cy: int|
                0 <= cx < width && 0 <= cy < height ==> #[trigger] out@.pixel(cx, cy)
                    == self@.pixel(x + cx, y + cy),
    {
        proof {
            use_type_invariant(self);
            assert(32 * width * height <= 32 * self.width * self.height) by (nonlinear_arith)
                requires
                    0 <= width <= self.width,
                    0 <= height <= self.height,
            ;
        }
        let pixels: Vec<Rgba> = crop_pixels(self.width, self.height, &self.pixels, x, y, width, height);
        proof {
            let expected = self@.cropped(x as int, y as int, width as nat, height as nat);
            assert forall|i: int| 0 <= i < pixels@.len() implies pixels@[i] == expected.pixels[i] by {
                lemma_index_cell(width as int, height as int, i);
                assert(pixels@[i] == pixel_at(
                    pixels@,
                    width as int,
                    i % (width as int),
                    i / (width as int),
                ));
            }
            assert(pixels@ =~= expected.pixels);
        }
        Image { width, height, pixels }
    }

    /// A bitmap from its pixels, row by row. There must be exactly one pixel
    /// per cell and the size must fit.
    pub fn from_pixels(width: u32, height: u32, pixels: Vec<Rgba>) -> (res: Option<Self>)
        ensures
            res is Some <==> pixels@.len() == width * height && size_fits(
                width as int,
                height as int,
            ),
            res matches Some(img) ==> img@ == (ImageView {
                width: width as nat,
                height: height as nat,
                pixels: pixels@,
            }) && img@.wf(),
    {
        if !Self::fits(width, height) {
            return None;
        }
        assert(32 * width * height == 32 * (width * height)) by (nonlinear_arith);
        assert(0 <= width * height) by (nonlinear_arith);
        let cells: usize = width as usize * height as usize;
        if pixels.len() != cells {
            return None;
        }
        Some(Image { width, height, pixels })
    }

    /// Decodes an encoded image file held in memory. Which bytes decode, and
    /// to what, is the decoder's business: all that is known of a decoded
    /// bitmap is that it is well formed. What is made of the pixels that the
    /// decoder gives is what [`Image::from_pixels`] states.
    pub fn decode(bytes: &[u8]) -> (res: Option<Self>)
        ensures
            res matches Some(img) ==> img@.wf(),
    {
        match decode_pixels(bytes) {
            Ok((width, height, pixels)) => Self::from_pixels(width, height, pixels),
            Err(_) => None,
        }
    }
}

impl Clone for Image {
    fn clone(&self) -> (out: Self)
        ensures
            out@ == self@,
    {
        proof {
            use_type_invariant(self);
        }
        let pixels: Vec<Rgba> = self.pixels.clone();
        assert(pixels@ =~= self.pixels@);
        Image { width: self.width, height: self.height, pixels }
    }
}

/// The error of the `image` crate's decoders and encoders.
#[verifier::external_type_specification]
#[verifier::external_body]
pub struct ExImageError(image::ImageError);

/// `image::imageops::resize` with the nearest-neighbour filter, on a bitmap
/// with at least one pixel and to a size with at least one pixel. The result
/// has the requested size; which pixels it holds is named, not stated.
#[verifier::external_body]
fn resize_pixels(width: u32, height: u32, pixels: &Vec<Rgba>, new_width: u32, new_height: u32) -> (out:
    Vec<Rgba>)
    requires
        pixels@.len() == width * height,
        width > 0,
        height > 0,
        new_width > 0,
        new_height > 0,
        size_fits(width as int, height as int),
        size_fits(width as int, new_height as int),
        size_fits(new_width as int, new_height as int),
    ensures
        out@.len() == new_width * new_height,
        out@ == nearest_resized(
            width as nat,
            height as nat,
            pixels@,
            new_width as nat,
            new_height as nat,
        ),
{
    let raw: Vec<u8> = pixels.iter().flat_map(|p| [p.r, p.g, p.b, p.a]).collect();
    let source = image::RgbaImage::from_raw(width, height, raw).unwrap();
    let filter = image::imageops::FilterType::Nearest;
    let out = image::imageops::resize(&source, new_width, new_height, filter);
    out.pixels().map(|p| Rgba { r: p[0], g: p[1], b: p[2], a: p[3] }).collect()
}

/// `image::imageops::flip_horizontal`: the result has the size of the
/// source, and each row holds the source row's pixels in reverse order.
#[verifier::external_body]
fn flip_pixels(width: u32, height: u32, pixels: &Vec<Rgba>) -> (out: Vec<Rgba>)
    requires
        pixels@.len() == width * height,
        size_fits(width as int, height as int),
    ensures
        out@.len() == width * height,
        forall|x: int, y: int|
            0 <= x < width && 0 <= y < height ==> #[trigger] pixel_at(out@, width as int, x, y)
                == pixel_at(pixels@, width as int, width - 1 - x, y),
{
    let raw: Vec<u8> = pixels.iter().flat_map(|p| [p.r, p.g, p.b, p.a]).collect();
    let source = image::RgbaImage::from_raw(width, height, raw).unwrap();
    let out = image::imageops::flip_horizontal(&source);
    out.pixels().map(|p| Rgba { r: p[0], g: p[1], b: p[2], a: p[3] }).collect()
}

/// `image::imageops::overlay`: the lower bitmap keeps its size; each of its
/// pixels that the upper bitmap covers, once that bitmap's top-left corner
/// is put at `(x, y)`, is blended with the pixel above it, and every other
/// pixel is kept. Blending keeps the lower pixel under a fully transparent
/// one and takes a fully opaque one as it is; the mix in between is named,
/// not stated.
#[verifier::external_body]
fn overlay_pixels(
    bottom_width: u32,
    bottom_height: u32,
    bottom: &Vec<Rgba>,
    top_width: u32,
    top_height: u32,
    top: &Vec<Rgba>,
    x: i64,
    y: i64,
) -> (out: Vec<Rgba>)
    requires
        bottom@.len() == bottom_width * bottom_height,
        top@.len() == top_width * top_height,
        size_fits(bottom_width as int, bottom_height as int),
        size_fits(top_width as int, top_height as int),
    ensures
        out@.len() == bottom_width * bottom_height,
        forall|bx: int, by: int|
            0 <= bx < bottom_width && 0 <= by < bottom_height ==> #[trigger] pixel_at(
                out@,
                bottom_width as int,
                bx,
                by,
            ) == (if x <= bx < x + top_width && y <= by < y + top_height {
                let b = pixel_at(bottom@, bottom_width as int, bx, by);
                let t = pixel_at(top@, top_width as int, bx - x, by - y);
                if t.a == 0 {
                    b
                } else if t.a == 255 {
                    t
                } else {
                    alpha_mixed(b, t)
                }
            } else {
                pixel_at(bottom@, bottom_width as int, bx, by)
            }),
{
    let raw: Vec<u8> = bottom.iter().flat_map(|p| [p.r, p.g, p.b, p.a]).collect();
    let mut lower = image::RgbaImage::from_raw(bottom_width, bottom_height, raw).unwrap();
    let raw: Vec<u8> = top.iter().flat_map(|p| [p.r, p.g, p.b, p.a]).collect();
    let upper = image::RgbaImage::from_raw(top_width, top_height, raw).unwrap();
    image::imageops::overlay(&mut lower, &upper, x, y);
    lower.pixels().map(|p| Rgba { r: p[0], g: p[1], b: p[2], a: p[3] }).collect()
}

/// `image::imageops::crop_imm` followed by `to_image`, for a rectangle that
/// lies inside the source: the result has the rectangle's size and holds the
/// source's pixels from inside it.
#[verifier::external_body]
fn crop_pixels(
    source_width: u32,
    source_height: u32,
    pixels: &Vec<Rgba>,
    x: u32,
    y: u32,
    width: u32,
    height: u32,
) -> (out: Vec<Rgba>)
    requires
        pixels@.len() == source_width * source_height,
        size_fits(source_width as int, source_height as int),
        x + width <= source_width,
        y + height <= source_height,
    ensures
        out@.len() == width * height,
        forall|cx: int, cy: int|
            0 <= cx < width && 0 <= cy < height ==> #[trigger] pixel_at(out@, width as int, cx, cy)
                == pixel_at(pixels@, source_width as int, x + cx, y + cy),
{
    let raw: Vec<u8> = pixels.iter().flat_map(|p| [p.r, p.g, p.b, p.a]).collect();
    let source = image::RgbaImage::from_raw(source_width, source_height, raw).unwrap();
    let out = image::imageops::crop_imm(&source, x, y, width, height).to_image();
    out.pixels().map(|p| Rgba { r: p[0], g: p[1], b: p[2], a: p[3] }).collect()
}

/// `image::load_from_memory` followed by `DynamicImage::to_rgba8`. Whether
/// the bytes decode depends on the decoders that the process has at hand, so
/// nothing is claimed of it; a bitmap that comes back has one pixel per cell.
#[verifier::external_body]
fn decode_pixels(bytes: &[u8]) -> (res: Result<(u32, u32, Vec<Rgba>), image::ImageError>)
    ensures
        res matches Ok(d) ==> d.2@.len() == d.0 * d.1,
{
    let decoded = image::load_from_memory(bytes)?.to_rgba8();
    let pixels = decoded.pixels().map(|p| Rgba { r: p[0], g: p[1], b: p[2], a: p[3] }).collect();
    Ok((decoded.width(), decoded.height(), pixels))
}

} // verus!

