//! Software pixel buffers for canvas painters: a CPU-side RGBA8 image that painters
//! draw into pixel by pixel, by rectangles, or by copying blocks of pixels.
use std::cell::Cell;

use vstd::prelude::*;

use crate::colors::{native_u32, u32_from_ne_bytes, Color};
use vstd::arithmetic::div_mod::{lemma_fundamental_div_mod, lemma_fundamental_div_mod_converse};
use vstd::arithmetic::mul::{lemma_mul_inequality, lemma_mul_is_commutative};

verus! {

#[verifier::external_type_specification]
#[verifier::external_body]
#[verifier::reject_recursive_types(T)]
pub struct ExCell<T: ?Sized>(Cell<T>);

/// Calls `Cell::<bool>::set`. What a cell holds is not part of Verus's view of it,
/// so nothing is stated about the effect.
#[verifier::external_body]
fn cell_set(cell: &Cell<bool>, value: bool) {
    cell.set(value)
}

/// The buffer index of pixel `(x, y)` in rows of `width` pixels.
pub open spec fn pixel_index(width: u32, x: u32, y: u32) -> int {
    y * width + x
}

/// Pixel `(x, y)` lies in a `width` by `height` buffer of `len` pixels.
pub open spec fn pixel_in_buffer(width: u32, height: u32, len: nat, x: u32, y: u32) -> bool {
    x < width && y < height && pixel_index(width, x, y) < len
}

/// The buffer index `d` lies in the rectangle of columns `[x0, x1)` and rows `[y0, y1)`
/// of rows `width` pixels long (with `x1 <= width`).
pub open spec fn rect_covers(width: u32, x0: int, x1: int, y0: int, y1: int, d: int) -> bool {
    width > 0 && y0 <= d / (width as int) < y1 && x0 <= d % (width as int) < x1
}

/// First column (or row) of a rectangle starting at `v`, clamped to the buffer.
pub open spec fn rect_start(v: i32) -> int {
    if v < 0 {
        0
    } else {
        v as int
    }
}

/// Column (or row) just past a rectangle starting at `v` of extent `extent`, clamped to
/// `[0, bound]`. The extent is reinterpreted as `i32`, as the implementation does.
pub open spec fn rect_end(v: i32, extent: u32, bound: u32) -> int {
    let e = v + (extent as i32);
    let e0 = if e < 0 {
        0
    } else {
        e
    };
    if e0 < bound {
        e0
    } else {
        bound as int
    }
}

/// Source pixel `(row, col)` of a blit at `(dst_x, dst_y)` lands on the buffer index `d`.
pub open spec fn blit_writes(
    width: u32,
    height: u32,
    len: nat,
    src_len: nat,
    src_w: u32,
    src_h: u32,
    dst_x: i32,
    dst_y: i32,
    row: int,
    col: int,
    d: int,
) -> bool {
    let ty = dst_y + ((row as u32) as i32);
    let tx = dst_x + ((col as u32) as i32);
    &&& 0 <= row < src_h
    &&& 0 <= col < src_w
    &&& 0 <= ty < (height as i32)
    &&& 0 <= tx < (width as i32)
    &&& row * src_w + col < src_len
    &&& ty * width + tx < len
    &&& d == ty * width + tx
}

/// The pixel words of a sequence of colors.
pub open spec fn words_of_colors(s: Seq<Color>) -> Seq<u32> {
    s.map_values(|c: Color| c.rgba_word())
}

/// The native 32-bit words stored in the bytes `b`, four bytes each.
pub open spec fn words_of_bytes(b: Seq<u8>) -> Seq<u32> {
    Seq::new(b.len() / 4, |i: int| native_u32(b[4 * i], b[4 * i + 1], b[4 * i + 2], b[4 * i + 3]))
}

/// Every source row and column of a `src_w` by `src_h` blit at `(dst_x, dst_y)` into a
/// `width` by `height` buffer has an `i32` destination, and the indices of the pixels it
/// writes fit a `u32`.
pub open spec fn blit_in_range(width: u32, height: u32, src_w: u32, src_h: u32, dst_x: i32, dst_y: i32) -> bool {
    &&& forall|row: int|
        0 <= row < src_h ==> i32::MIN <= #[trigger] (dst_y + ((row as u32) as i32)) <= i32::MAX
    &&& forall|row: int, col: int|
        0 <= row < src_h && 0 <= col < src_w && 0 <= #[trigger] (dst_y + ((row as u32) as i32))
            < (height as i32) ==> i32::MIN <= #[trigger] (dst_x + ((col as u32) as i32)) <= i32::MAX
    &&& forall|row: int, col: int|
        0 <= row < src_h && 0 <= col < src_w && 0 <= #[trigger] (dst_y + ((row as u32) as i32))
            < (height as i32) && 0 <= #[trigger] (dst_x + ((col as u32) as i32)) < (width as i32)
            ==> row * src_w + col <= u32::MAX && (dst_y + ((row as u32) as i32)) * width + (dst_x + ((
        col as u32) as i32)) <= u32::MAX
}

/// `after` is the buffer `before` once the `src_w` by `src_h` block `src` is copied to
/// `(dst_x, dst_y)`, clipped to the buffer and to `src`: each written pixel holds its
/// source pixel, every other pixel is unchanged.
pub open spec fn blitted(
    before: Seq<u32>,
    after: Seq<u32>,
    width: u32,
    height: u32,
    src: Seq<u32>,
    src_w: u32,
    src_h: u32,
    dst_x: i32,
    dst_y: i32,
) -> bool {
    &&& after.len() == before.len()
    &&& forall|d: int, row: int, col: int|
        0 <= d < before.len() && #[trigger] blit_writes(width, height, before.len(), src.len(), src_w, src_h, dst_x, dst_y, row, col, d)
            ==> after[d] == src[row * src_w + col]
    &&& forall|d: int|
        0 <= d < before.len() && (forall|row: int, col: int|
            !#[trigger] blit_writes(width, height, before.len(), src.len(), src_w, src_h, dst_x, dst_y, row, col, d))
            ==> #[trigger] after[d] == before[d]
}

#[verifier::external_type_specification]
#[verifier::external_body]
pub struct ExPodCastError(bytemuck::PodCastError);

/// Calls `bytemuck::cast_slice::<u32, u8>`: the bytes in memory of the words `words`,
/// four per word in the machine's byte order. This cast never fails.
#[verifier::external_body]
fn bytes_of_pixels(words: &[u32]) -> (r: &[u8])
    ensures
        r@.len() == 4 * words@.len(),
        words_of_bytes(r@) == words@,
{
    bytemuck::cast_slice::<u32, u8>(words)
}

/// Calls `bytemuck::cast_slice_mut::<u32, u8>`: the bytes in memory of the words `words`,
/// to write through; what is written to the bytes is what the words then hold. This cast
/// never fails.
#[verifier::external_body]
fn bytes_of_pixels_mut(words: &mut [u32]) -> (r: &mut [u8])
    ensures
        r@.len() == 4 * old(words)@.len(),
        words_of_bytes(r@) == old(words)@,
        final(r)@.len() == r@.len(),
        final(words)@ == words_of_bytes(final(r)@),
{
    bytemuck::cast_slice_mut::<u32, u8>(words)
}

/// Calls `bytemuck::try_cast_slice::<u8, u32>`: the bytes `bytes` read as native words.
/// It fails when their length is not a multiple of four, and also when they do not
/// start at an address aligned for `u32`, which no clause states.
#[verifier::external_body]
fn pixels_of_bytes(bytes: &[u8]) -> (r: Result<&[u32], bytemuck::PodCastError>)
    ensures
        r matches Ok(w) ==> 4 * w@.len() == bytes@.len() && w@ == words_of_bytes(bytes@),
        bytes@.len() % 4 != 0 ==> r is Err,
{
    bytemuck::try_cast_slice::<u8, u32>(bytes)
}

/// A CPU-side pixel buffer: the drawing area of a pixel painter.
///
/// Pixels are RGBA8 words: each is stored as the four bytes `[R, G, B, A]`, so on a
/// little-endian machine the word `0xAABBGGRR` is the pixel with those channels.
pub struct PixelBuffer<'a> {
    /// Physical canvas width in pixels.
    pub width: u32,
    /// Physical canvas height in pixels.
    pub height: u32,
    /// Mutable slice of 32-bit pixel values with length `width * height` in RGBA8 format.
    pub pixels: &'a mut [u32],
    /// Set when the painter asks for another frame.
    pub frame_requested: &'a Cell<bool>,
}

impl<'a> PixelBuffer<'a> {
    /// Packs `(r, g, b, a)` into a 32-bit word in the buffer's native RGBA8 layout.
    #[inline]
    pub fn rgba(r: u8, g: u8, b: u8, a: u8) -> (v: u32)
        ensures
            v == native_u32(r, g, b, a),
    {
        u32_from_ne_bytes([r, g, b, a])
    }

    /// Packs `(r, g, b)` with full opacity (`a = 255`) into a 32-bit RGBA8 word.
    #[inline]
    pub fn rgb(r: u8, g: u8, b: u8) -> (v: u32)
        ensures
            v == native_u32(r, g, b, 255),
    {
        Self::rgba(r, g, b, 255)
    }

    /// Creates a new `PixelBuffer` wrapping a slice of pixels.
    #[inline]
    pub fn new(width: u32, height: u32, pixels: &'a mut [u32], frame_requested: &'a Cell<bool>) -> (r: Self)
        ensures
            r.width == width,
            r.height == height,
            r.pixels@ == old(pixels)@,
            final(r.pixels)@ == final(pixels)@,
            r.frame_requested == frame_requested,
    {
        Self { width, height, pixels, frame_requested }
    }

    /// Schedules a redraw for the next frame, for painters with continuous animations.
    #[inline]
    pub fn request_frame(&self) {
        cell_set(self.frame_requested, true);
    }

    /// Sets pixel `(x, y)` to the RGBA8 word `color`. Out-of-bounds coordinates are ignored.
    #[inline]
    pub fn set_pixel(&mut self, x: u32, y: u32, color: u32)
        requires
            x < old(self).width && y < old(self).height ==> pixel_index(old(self).width, x, y)
                <= u32::MAX,
        ensures
            final(self).width == old(self).width,
            final(self).height == old(self).height,
            final(self).frame_requested == old(self).frame_requested,
            final(self).pixels@ == if pixel_in_buffer(
                old(self).width,
                old(self).height,
                old(self).pixels@.len(),
                x,
                y,
            ) {
                old(self).pixels@.update(pixel_index(old(self).width, x, y), color)
            } else {
                old(self).pixels@
            },
    {
        if x < self.width && y < self.height {
            let index = (y * self.width + x) as usize;
            if index < self.pixels.len() {
                self.pixels[index] = color;
            }
        }
    }

    /// Sets pixel `(x, y)` to `color`. Out-of-bounds coordinates are ignored.
    #[inline]
    pub fn set_pixel_with_color(&mut self, x: u32, y: u32, color: Color)
        requires
            x < old(self).width && y < old(self).height ==> pixel_index(old(self).width, x, y)
                <= u32::MAX,
        ensures
            final(self).width == old(self).width,
            final(self).height == old(self).height,
            final(self).frame_requested == old(self).frame_requested,
            final(self).pixels@ == if pixel_in_buffer(
                old(self).width,
                old(self).height,
                old(self).pixels@.len(),
                x,
                y,
            ) {
                old(self).pixels@.update(pixel_index(old(self).width, x, y), color.rgba_word())
            } else {
                old(self).pixels@
            },
    {
        self.set_pixel(x, y, color.to_rgba_u32());
    }

    /// Alias for [`set_pixel_with_color`](PixelBuffer::set_pixel_with_color).
    #[inline]
    pub fn set_pixel_color(&mut self, x: u32, y: u32, color: Color)
        requires
            x < old(self).width && y < old(self).height ==> pixel_index(old(self).width, x, y)
                <= u32::MAX,
        ensures
            final(self).width == old(self).width,
            final(self).height == old(self).height,
            final(self).frame_requested == old(self).frame_requested,
            final(self).pixels@ == if pixel_in_buffer(
                old(self).width,
                old(self).height,
                old(self).pixels@.len(),
                x,
                y,
            ) {
                old(self).pixels@.update(pixel_index(old(self).width, x, y), color.rgba_word())
            } else {
                old(self).pixels@
            },
    {
        self.set_pixel_with_color(x, y, color);
    }

    /// The pixels as colors, in buffer order. (The colors are a copy of the buffer.)
    pub fn as_colors(&self) -> (r: Vec<Color>)
        ensures
            r@.len() == old(self.pixels)@.len(),
            forall|i: int| 0 <= i < r@.len() ==> (#[trigger] r@[i]).rgba_word() == old(self.pixels)@[i],
    {
        let mut out: Vec<Color> = Vec::new();
        let mut i: usize = 0;
        while i < self.pixels.len()
            invariant
                i <= self.pixels@.len(),
                out@.len() == i,
                forall|j: int| 0 <= j < i ==> (#[trigger] out@[j]).rgba_word() == self.pixels@[j],
            decreases self.pixels@.len() - i,
        {
            out.push(Color::from_rgba_u32(self.pixels[i]));
            i += 1;
        }
        out
    }

    /// The pixels as raw RGBA8 bytes: four bytes per pixel, in memory order.
    pub fn as_bytes(&self) -> (r: &[u8])
        ensures
            r@.len() == 4 * old(self.pixels)@.len(),
            words_of_bytes(r@) == old(self.pixels)@,
    {
        bytes_of_pixels(&*self.pixels)
    }

    /// The pixels as raw RGBA8 bytes to write through: four bytes per pixel, in memory
    /// order; what is written to the bytes is what the pixels then hold.
    pub fn as_bytes_mut(&mut self) -> (r: &mut [u8])
        ensures
            r@.len() == 4 * old(self).pixels@.len(),
            words_of_bytes(r@) == old(self).pixels@,
            final(r)@.len() == r@.len(),
            final(self).pixels@ == words_of_bytes(final(r)@),
            final(self).width == old(self).width,
            final(self).height == old(self).height,
            final(self).frame_requested == old(self).frame_requested,
    {
        bytes_of_pixels_mut(&mut *self.pixels)
    }

    /// Gets the RGBA8 word of pixel `(x, y)`, or `None` if it is out of bounds.
    #[inline]
    pub fn get_pixel(&self, x: u32, y: u32) -> (r: Option<u32>)
        requires
            x < self.width && y < self.height ==> pixel_index(self.width, x, y) <= u32::MAX,
        ensures
            r == if pixel_in_buffer(self.width, self.height, old(self.pixels)@.len(), x, y) {
                Some(old(self.pixels)@[pixel_index(self.width, x, y)])
            } else {
                None
            },
    {
        if x < self.width && y < self.height {
            let index = (y * self.width + x) as usize;
            if index < self.pixels.len() {
                Some(self.pixels[index])
            } else {
                None
            }
        } else {
            None
        }
    }

    /// Gets the color of pixel `(x, y)`, or `None` if it is out of bounds.
    #[inline]
    pub fn get_pixel_by_color(&self, x: u32, y: u32) -> (r: Option<Color>)
        requires
            x < self.width && y < self.height ==> pixel_index(self.width, x, y) <= u32::MAX,
        ensures
            r is Some <==> pixel_in_buffer(self.width, self.height, old(self.pixels)@.len(), x, y),
            r matches Some(c) ==> c.rgba_word() == old(self.pixels)@[pixel_index(self.width, x, y)],
    {
        match self.get_pixel(x, y) {
            Some(v) => Some(Color::from_rgba_u32(v)),
            None => None,
        }
    }

    /// Alias for [`get_pixel_by_color`](PixelBuffer::get_pixel_by_color).
    #[inline]
    pub fn get_pixel_color(&self, x: u32, y: u32) -> (r: Option<Color>)
        requires
            x < self.width && y < self.height ==> pixel_index(self.width, x, y) <= u32::MAX,
        ensures
            r is Some <==> pixel_in_buffer(self.width, self.height, old(self.pixels)@.len(), x, y),
            r matches Some(c) ==> c.rgba_word() == old(self.pixels)@[pixel_index(self.width, x, y)],
    {
        self.get_pixel_by_color(x, y)
    }

    /// Fills the whole buffer with the RGBA8 word `color`.
    #[inline]
    pub fn fill(&mut self, color: u32)
        ensures
            final(self).width == old(self).width,
            final(self).height == old(self).height,
            final(self).frame_requested == old(self).frame_requested,
            final(self).pixels@ == Seq::new(old(self).pixels@.len(), |i: int| color),
    {
        let n = self.pixels.len();
        let mut i: usize = 0;
        while i < n
            invariant
                i <= n,
                n == self.pixels@.len(),
                self.width == old(self).width,
                self.height == old(self).height,
                self.frame_requested == old(self).frame_requested,
                forall|j: int| 0 <= j < i ==> self.pixels@[j] == color,
            decreases n - i,
        {
            self.pixels[i] = color;
            i += 1;
        }
        assert(self.pixels@ =~= Seq::new(n as nat, |i: int| color));
    }

    /// Fills the whole buffer with `color`.
    #[inline]
    pub fn fill_with_color(&mut self, color: Color)
        ensures
            final(self).width == old(self).width,
            final(self).height == old(self).height,
            final(self).frame_requested == old(self).frame_requested,
            final(self).pixels@ == Seq::new(old(self).pixels@.len(), |i: int| color.rgba_word()),
    {
        self.fill(color.to_rgba_u32());
    }

    /// Alias for [`fill_with_color`](PixelBuffer::fill_with_color).
    #[inline]
    pub fn fill_color(&mut self, color: Color)
        ensures
            final(self).width == old(self).width,
            final(self).height == old(self).height,
            final(self).frame_requested == old(self).frame_requested,
            final(self).pixels@ == Seq::new(old(self).pixels@.len(), |i: int| color.rgba_word()),
    {
        self.fill_with_color(color);
    }

    /// Clears the whole buffer to transparent black (`0`).
    #[inline]
    pub fn clear(&mut self)
        ensures
            final(self).width == old(self).width,
            final(self).height == old(self).height,
            final(self).frame_requested == old(self).frame_requested,
            final(self).pixels@ == Seq::new(old(self).pixels@.len(), |i: int| 0u32),
    {
        self.fill(0);
    }

    /// Fills the rectangle at `(x, y)` of size `w` by `h` with the RGBA8 word `color`,
    /// clamped to the buffer bounds.
    pub fn fill_rect(&mut self, x: i32, y: i32, w: u32, h: u32, color: u32)
        requires
            i32::MIN <= x + (w as i32) <= i32::MAX,
            i32::MIN <= y + (h as i32) <= i32::MAX,
            rect_start(y) < rect_end(y, h, old(self).height) ==> (rect_end(y, h, old(self).height)
                - 1) * old(self).width <= u32::MAX,
            rect_start(y) < rect_end(y, h, old(self).height) && rect_start(x) < rect_end(
                x,
                w,
                old(self).width,
            ) ==> (rect_end(y, h, old(self).height) - 1) * old(self).width + rect_end(
                x,
                w,
                old(self).width,
            ) - 1 <= usize::MAX,
        ensures
            final(self).width == old(self).width,
            final(self).height == old(self).height,
            final(self).frame_requested == old(self).frame_requested,
            final(self).pixels@.len() == old(self).pixels@.len(),
            forall|d: int|
                0 <= d < old(self).pixels@.len() ==> #[trigger] final(self).pixels@[d] == if rect_covers(
                    old(self).width,
                    rect_start(x),
                    rect_end(x, w, old(self).width),
                    rect_start(y),
                    rect_end(y, h, old(self).height),
                    d,
                ) {
                    color
                } else {
                    old(self).pixels@[d]
                },
    {
        let ghost old_pixels = self.pixels@;
        let ghost width = self.width as int;
        let x_start = if x < 0 { 0 } else { x as u32 };
        let y_start = if y < 0 { 0 } else { y as u32 };
        let x_far = x + w as i32;
        let y_far = y + h as i32;
        let x_end = if x_far < 0 { 0 } else { x_far as u32 };
        let x_end = if x_end < self.width { x_end } else { self.width };
        let y_end = if y_far < 0 { 0 } else { y_far as u32 };
        let y_end = if y_end < self.height { y_end } else { self.height };
        let ghost x0 = x_start as int;
        let ghost x1 = x_end as int;
        let ghost y0 = y_start as int;
        let len = self.pixels.len();
        let mut row = y_start;
        while row < y_end
            invariant
                self.width == old(self).width,
                self.height == old(self).height,
                self.frame_requested == old(self).frame_requested,
                width == self.width,
                self.pixels@.len() == len,
                len == old_pixels.len(),
                x0 == rect_start(x),
                x1 == rect_end(x, w, old(self).width),
                y0 == rect_start(y),
                y_end == rect_end(y, h, old(self).height),
                x_start == x0,
                x_end == x1,
                x1 <= width,
                y0 <= row,
                row < y_end || row == y0 || row == y_end,
                y0 < y_end ==> (y_end - 1) * width <= u32::MAX,
                y0 < y_end && x0 < x1 ==> (y_end - 1) * width + x1 - 1 <= usize::MAX,
                forall|d: int|
                    0 <= d < len ==> #[trigger] self.pixels@[d] == if rect_covers(
                        self.width,
                        x0,
                        x1,
                        y0,
                        row as int,
                        d,
                    ) {
                        color
                    } else {
                        old_pixels[d]
                    },
            decreases y_end - row,
        {
            proof {
                lemma_mul_inequality(row as int, y_end - 1, width);
            }
            let row_offset = (row * self.width) as usize;
            let mut col = x_start;
            while col < x_end
                invariant
                    self.width == old(self).width,
                    self.height == old(self).height,
                    self.frame_requested == old(self).frame_requested,
                    width == self.width,
                    self.pixels@.len() == len,
                    len == old_pixels.len(),
                    x_start == x0,
                    x_end == x1,
                    x1 <= width,
                    y0 <= row < y_end,
                    row_offset == row * width,
                    x0 <= col,
                    col < x_end || col == x0 || col == x_end,
                    y0 < y_end && x0 < x1 ==> (y_end - 1) * width + x1 - 1 <= usize::MAX,
                    (row as int) * width <= (y_end - 1) * width,
                    forall|d: int|
                        0 <= d < len ==> #[trigger] self.pixels@[d] == if rect_covers(
                            self.width,
                            x0,
                            x1,
                            y0,
                            row as int,
                            d,
                        ) || (width > 0 && d / width == row && x0 <= d % width < col) {
                            color
                        } else {
                            old_pixels[d]
                        },
                decreases x_end - col,
            {
                let idx = row_offset + col as usize;
                let ghost before = self.pixels@;
                if idx < self.pixels.len() {
                    self.pixels[idx] = color;
                }
                proof {
                    lemma_fundamental_div_mod_converse(idx as int, width, row as int, col as int);
                    assert forall|d: int| 0 <= d < len implies #[trigger] self.pixels@[d] == if rect_covers(
                        self.width,
                        x0,
                        x1,
                        y0,
                        row as int,
                        d,
                    ) || (width > 0 && d / width == row && x0 <= d % width < col + 1) {
                        color
                    } else {
                        old_pixels[d]
                    } by {
                        if d != idx && width > 0 && d / width == row && d % width == col {
                            lemma_fundamental_div_mod(d, width);
                            assert(d == width * row + col);
                            lemma_mul_is_commutative(width, row as int);
                            assert(false);
                        }
                        if d != idx {
                            assert(self.pixels@[d] == before[d]);
                        }
                    }
                }
                col += 1;
            }
            proof {
                assert forall|d: int| 0 <= d < len implies #[trigger] self.pixels@[d] == if rect_covers(
                    self.width,
                    x0,
                    x1,
                    y0,
                    row + 1,
                    d,
                ) {
                    color
                } else {
                    old_pixels[d]
                } by {}
            }
            row += 1;
        }
    }

    /// Fills a rectangle with `color`, clamped to the buffer bounds.
    #[inline]
    pub fn fill_rect_with_color(&mut self, x: i32, y: i32, w: u32, h: u32, color: Color)
        requires
            i32::MIN <= x + (w as i32) <= i32::MAX,
            i32::MIN <= y + (h as i32) <= i32::MAX,
            rect_start(y) < rect_end(y, h, old(self).height) ==> (rect_end(y, h, old(self).height)
                - 1) * old(self).width <= u32::MAX,
            rect_start(y) < rect_end(y, h, old(self).height) && rect_start(x) < rect_end(
                x,
                w,
                old(self).width,
            ) ==> (rect_end(y, h, old(self).height) - 1) * old(self).width + rect_end(
                x,
                w,
                old(self).width,
            ) - 1 <= usize::MAX,
        ensures
            final(self).width == old(self).width,
            final(self).height == old(self).height,
            final(self).frame_requested == old(self).frame_requested,
            final(self).pixels@.len() == old(self).pixels@.len(),
            forall|d: int|
                0 <= d < old(self).pixels@.len() ==> #[trigger] final(self).pixels@[d] == if rect_covers(
                    old(self).width,
                    rect_start(x),
                    rect_end(x, w, old(self).width),
                    rect_start(y),
                    rect_end(y, h, old(self).height),
                    d,
                ) {
                    color.rgba_word()
                } else {
                    old(self).pixels@[d]
                },
    {
        self.fill_rect(x, y, w, h, color.to_rgba_u32());
    }

    /// Alias for [`fill_rect_with_color`](PixelBuffer::fill_rect_with_color).
    #[inline]
    pub fn fill_rect_color(&mut self, x: i32, y: i32, w: u32, h: u32, color: Color)
        requires
            i32::MIN <= x + (w as i32) <= i32::MAX,
            i32::MIN <= y + (h as i32) <= i32::MAX,
            rect_start(y) < rect_end(y, h, old(self).height) ==> (rect_end(y, h, old(self).height)
                - 1) * old(self).width <= u32::MAX,
            rect_start(y) < rect_end(y, h, old(self).height) && rect_start(x) < rect_end(
                x,
                w,
                old(self).width,
            ) ==> (rect_end(y, h, old(self).height) - 1) * old(self).width + rect_end(
                x,
                w,
                old(self).width,
            ) - 1 <= usize::MAX,
        ensures
            final(self).width == old(self).width,
            final(self).height == old(self).height,
            final(self).frame_requested == old(self).frame_requested,
            final(self).pixels@.len() == old(self).pixels@.len(),
            forall|d: int|
                0 <= d < old(self).pixels@.len() ==> #[trigger] final(self).pixels@[d] == if rect_covers(
                    old(self).width,
                    rect_start(x),
                    rect_end(x, w, old(self).width),
                    rect_start(y),
                    rect_end(y, h, old(self).height),
                    d,
                ) {
                    color.rgba_word()
                } else {
                    old(self).pixels@[d]
                },
    {
        self.fill_rect_with_color(x, y, w, h, color);
    }

    /// Copies a `src_w` by `src_h` block of RGBA8 words from `src` (row-major) onto the
    /// buffer with its top-left corner at `(dst_x, dst_y)`. Source pixels that fall
    /// outside the buffer, or past the end of `src`, are skipped.
    pub fn blit(&mut self, src: &[u32], src_w: u32, src_h: u32, dst_x: i32, dst_y: i32)
        requires
            forall|row: int|
                0 <= row < src_h ==> i32::MIN <= #[trigger] (dst_y + ((row as u32) as i32))
                    <= i32::MAX,
            forall|row: int, col: int|
                0 <= row < src_h && 0 <= col < src_w && 0 <= #[trigger] (dst_y + ((row as u32) as i32))
                    < (old(self).height as i32) ==> i32::MIN <= #[trigger] (dst_x + ((col as u32) as i32))
                    <= i32::MAX,
            forall|row: int, col: int|
                0 <= row < src_h && 0 <= col < src_w && 0 <= #[trigger] (dst_y + ((row as u32) as i32))
                    < (old(self).height as i32) && 0 <= #[trigger] (dst_x + ((col as u32) as i32)) < (
                old(self).width as i32) ==> row * src_w + col <= u32::MAX && (dst_y + ((row as u32) as i32))
                    * old(self).width + (dst_x + ((col as u32) as i32)) <= u32::MAX,
        ensures
            final(self).width == old(self).width,
            final(self).height == old(self).height,
            final(self).frame_requested == old(self).frame_requested,
            final(self).pixels@.len() == old(self).pixels@.len(),
            forall|d: int, row: int, col: int|
                0 <= d < old(self).pixels@.len() && #[trigger] blit_writes(old(self).width, old(self).height, old(self).pixels@.len(), src@.len(), src_w, src_h, dst_x, dst_y, row, col, d)
                    ==> final(self).pixels@[d] == src@[row * src_w + col],
            forall|d: int|
                0 <= d < old(self).pixels@.len() && (forall|row: int, col: int|
                    !#[trigger] blit_writes(old(self).width, old(self).height, old(self).pixels@.len(), src@.len(), src_w, src_h, dst_x, dst_y, row, col, d)) ==> #[trigger] final(self).pixels@[d]
                    == old(self).pixels@[d],
    {
        let ghost old_pixels = self.pixels@;
        let len = self.pixels.len();
        let mut row: u32 = 0;
        while row < src_h
            invariant
                self.width == old(self).width,
                self.height == old(self).height,
                self.frame_requested == old(self).frame_requested,
                self.pixels@.len() == len,
                len == old_pixels.len(),
                old_pixels == old(self).pixels@,
                row <= src_h,
                forall|r: int|
                    0 <= r < src_h ==> i32::MIN <= #[trigger] (dst_y + ((r as u32) as i32))
                        <= i32::MAX,
                forall|r: int, c: int|
                    0 <= r < src_h && 0 <= c < src_w && 0 <= #[trigger] (dst_y + ((r as u32) as i32))
                        < (self.height as i32) ==> i32::MIN <= #[trigger] (dst_x + ((c as u32) as i32))
                        <= i32::MAX,
                forall|r: int, c: int|
                    0 <= r < src_h && 0 <= c < src_w && 0 <= #[trigger] (dst_y + ((r as u32) as i32))
                        < (self.height as i32) && 0 <= #[trigger] (dst_x + ((c as u32) as i32)) < (
                    self.width as i32) ==> r * src_w + c <= u32::MAX && (dst_y + ((r as u32) as i32))
                        * self.width + (dst_x + ((c as u32) as i32)) <= u32::MAX,
                forall|d: int, r: int, c: int|
                    0 <= d < len && #[trigger] blit_writes(self.width, self.height, len as nat, src@.len(), src_w, src_h, dst_x, dst_y, r, c, d) && r < row
                        ==> self.pixels@[d] == src@[r * src_w + c],
                forall|d: int|
                    0 <= d < len && #[trigger] self.pixels@[d] != old_pixels[d] ==> exists|r: int, c: int|
                        r < row && #[trigger] blit_writes(self.width, self.height, len as nat, src@.len(), src_w, src_h, dst_x, dst_y, r, c, d),
            decreases src_h - row,
        {
            assert(i32::MIN <= dst_y + ((row as int as u32) as i32) <= i32::MAX);
            let target_y = dst_y + row as i32;
            assert(dst_y + ((row as int as u32) as i32) == target_y);
            if !(target_y < 0 || target_y >= self.height as i32) {
                let mut col: u32 = 0;
                while col < src_w
                    invariant
                        self.width == old(self).width,
                        self.height == old(self).height,
                        self.frame_requested == old(self).frame_requested,
                        self.pixels@.len() == len,
                        len == old_pixels.len(),
                        row < src_h,
                        col <= src_w,
                        target_y == dst_y + ((row as int as u32) as i32),
                        0 <= target_y < (self.height as i32),
                        forall|c: int|
                            0 <= c < src_w ==> i32::MIN <= #[trigger] (dst_x + ((c as u32) as i32))
                                <= i32::MAX,
                        forall|c: int|
                            0 <= c < src_w && 0 <= #[trigger] (dst_x + ((c as u32) as i32)) < (
                            self.width as i32) ==> row * src_w + c <= u32::MAX && target_y
                                * self.width + (dst_x + ((c as u32) as i32)) <= u32::MAX,
                        forall|d: int, r: int, c: int|
                            0 <= d < len && #[trigger] blit_writes(self.width, self.height, len as nat, src@.len(), src_w, src_h, dst_x, dst_y, r, c, d) && (r < row || (r
                                == row && c < col)) ==> self.pixels@[d] == src@[r * src_w + c],
                        forall|d: int|
                            0 <= d < len && #[trigger] self.pixels@[d] != old_pixels[d] ==> exists|
                                r: int,
                                c: int,
                            | (r < row || (r == row && c < col)) && #[trigger] blit_writes(
                                self.width, self.height, len as nat, src@.len(), src_w, src_h, dst_x, dst_y,
                                r,
                                c,
                                d,
                            ),
                    decreases src_w - col,
                {
                    assert(i32::MIN <= dst_x + ((col as int as u32) as i32) <= i32::MAX);
                    let target_x = dst_x + col as i32;
                    assert(dst_x + ((col as int as u32) as i32) == target_x);
                    let ghost before = self.pixels@;
                    if !(target_x < 0 || target_x >= self.width as i32) {
                        let src_idx = (row * src_w + col) as usize;
                        let dst_idx = (target_y as u32 * self.width + target_x as u32) as usize;
                        if src_idx < src.len() && dst_idx < self.pixels.len() {
                            self.pixels[dst_idx] = src[src_idx];
                            proof {
                                assert(blit_writes(self.width, self.height, len as nat, src@.len(), src_w, src_h, dst_x, dst_y, row as int, col as int, dst_idx as int));
                                assert forall|d: int, r: int, c: int|
                                    0 <= d < len && #[trigger] blit_writes(self.width, self.height, len as nat, src@.len(), src_w, src_h, dst_x, dst_y, r, c, d) && (r < row
                                        || (r == row && c < col + 1)) implies self.pixels@[d] == src@[r * src_w + c] by {
                                    if d == dst_idx && !(r == row && c == col) {
                                        lemma_blit_target_unique(self.width, self.height, len as nat, src@.len(), src_w, src_h, dst_x, dst_y, r, c, row as int, col as int, d);
                                    }
                                }
                            }
                        }
                    }
                    col += 1;
                }
            } else {
                proof {
                    assert forall|d: int, r: int, c: int|
                        0 <= d < len && #[trigger] blit_writes(self.width, self.height, len as nat, src@.len(), src_w, src_h, dst_x, dst_y, r, c, d) && r < row + 1
                            implies self.pixels@[d] == src@[r * src_w + c] by {
                        if r == row {
                            assert(dst_y + ((r as u32) as i32) == target_y);
                        }
                    }
                }
            }
            row += 1;
        }
    }

    /// Copies the `src_w` by `src_h` block of colors `src` to `(dst_x, dst_y)`, clipped to
    /// the buffer (see [`blit`](PixelBuffer::blit)).
    pub fn blit_colors(&mut self, src: &[Color], src_w: u32, src_h: u32, dst_x: i32, dst_y: i32)
        requires
            blit_in_range(old(self).width, old(self).height, src_w, src_h, dst_x, dst_y),
        ensures
            final(self).width == old(self).width,
            final(self).height == old(self).height,
            final(self).frame_requested == old(self).frame_requested,
            blitted(
                old(self).pixels@,
                final(self).pixels@,
                old(self).width,
                old(self).height,
                words_of_colors(src@),
                src_w,
                src_h,
                dst_x,
                dst_y,
            ),
    {
        let mut words: Vec<u32> = Vec::new();
        let mut i: usize = 0;
        while i < src.len()
            invariant
                i <= src@.len(),
                words@ == words_of_colors(src@.take(i as int)),
            decreases src@.len() - i,
        {
            assert(words_of_colors(src@.take(i as int + 1)) =~= words_of_colors(src@.take(i as int)).push(
                src@[i as int].rgba_word(),
            ));
            words.push(src[i].to_rgba_u32());
            i += 1;
        }
        assert(src@.take(src@.len() as int) =~= src@);
        self.blit(words.as_slice(), src_w, src_h, dst_x, dst_y);
    }

    /// Copies the `src_w` by `src_h` block of pixels stored as RGBA8 bytes in `src_bytes`
    /// to `(dst_x, dst_y)`, clipped to the buffer (see [`blit`](PixelBuffer::blit)).
    /// The bytes are read in place as words when they are aligned for that, and copied
    /// word by word otherwise. Returns `false`, and leaves the buffer unchanged, when the
    /// bytes cannot be read as pixels: when their length is not a multiple of four.
    pub fn blit_bytes(&mut self, src_bytes: &[u8], src_w: u32, src_h: u32, dst_x: i32, dst_y: i32) -> (r: bool)
        requires
            blit_in_range(old(self).width, old(self).height, src_w, src_h, dst_x, dst_y),
        ensures
            final(self).width == old(self).width,
            final(self).height == old(self).height,
            final(self).frame_requested == old(self).frame_requested,
            r == (src_bytes@.len() % 4 == 0),
            r ==> blitted(
                old(self).pixels@,
                final(self).pixels@,
                old(self).width,
                old(self).height,
                words_of_bytes(src_bytes@),
                src_w,
                src_h,
                dst_x,
                dst_y,
            ),
            !r ==> final(self).pixels@ == old(self).pixels@,
    {
        match pixels_of_bytes(src_bytes) {
            Ok(words) => {
                self.blit(words, src_w, src_h, dst_x, dst_y);
                true
            },
            Err(_) => {
                if src_bytes.len() % 4 != 0 {
                    return false;
                }
                let words = words_from_bytes(src_bytes);
                self.blit(words.as_slice(), src_w, src_h, dst_x, dst_y);
                true
            },
        }
    }
}

/// Reads the native words stored in `bytes`, four bytes each, into a new vector.
fn words_from_bytes(bytes: &[u8]) -> (r: Vec<u32>)
    requires
        bytes@.len() % 4 == 0,
    ensures
        r@ == words_of_bytes(bytes@),
{
    let len = bytes.len();
    let n = len / 4;
    let mut words: Vec<u32> = Vec::new();
    let mut i: usize = 0;
    while i < n
        invariant
            len == bytes@.len(),
            n == len / 4,
            len % 4 == 0,
            i <= n,
            words@ == words_of_bytes(bytes@).take(i as int),
        decreases n - i,
    {
        assert(4 * i + 3 < len) by (nonlinear_arith)
            requires
                i < n,
                n == len / 4,
                len % 4 == 0,
        ;
        let k = 4 * i;
        let w = u32_from_ne_bytes([bytes[k], bytes[k + 1], bytes[k + 2], bytes[k + 3]]);
        assert(words_of_bytes(bytes@).take(i + 1) =~= words_of_bytes(bytes@).take(i as int).push(w));
        words.push(w);
        i += 1;
    }
    assert(words_of_bytes(bytes@).take(n as int) =~= words_of_bytes(bytes@));
    words
}

/// Two source pixels of a blit never land on the same destination pixel.
proof fn lemma_blit_target_unique(
    width: u32,
    height: u32,
    len: nat,
    src_len: nat,
    src_w: u32,
    src_h: u32,
    dst_x: i32,
    dst_y: i32,
    r1: int,
    c1: int,
    r2: int,
    c2: int,
    d: int,
)
    requires
        blit_writes(width, height, len, src_len, src_w, src_h, dst_x, dst_y, r1, c1, d),
        blit_writes(width, height, len, src_len, src_w, src_h, dst_x, dst_y, r2, c2, d),
    ensures
        r1 == r2 && c1 == c2,
{
    let ty1 = dst_y + ((r1 as u32) as i32);
    let tx1 = dst_x + ((c1 as u32) as i32);
    let ty2 = dst_y + ((r2 as u32) as i32);
    let tx2 = dst_x + ((c2 as u32) as i32);
    let w = width as int;
    assert((width as i32) <= width) by (bit_vector);
    lemma_fundamental_div_mod_converse(d, w, ty1, tx1);
    lemma_fundamental_div_mod_converse(d, w, ty2, tx2);
    let a1 = r1 as u32;
    let a2 = r2 as u32;
    let b1 = c1 as u32;
    let b2 = c2 as u32;
    assert((a1 as i32) == (a2 as i32) ==> a1 == a2) by (bit_vector);
    assert((b1 as i32) == (b2 as i32) ==> b1 == b2) by (bit_vector);
}

/// Two pixels inside a buffer never share a buffer index.
proof fn lemma_pixel_index_injective(width: u32, x: u32, y: u32, x2: u32, y2: u32)
    requires
        x < width,
        x2 < width,
        pixel_index(width, x, y) == pixel_index(width, x2, y2),
    ensures
        x == x2 && y == y2,
{
    lemma_fundamental_div_mod_converse(pixel_index(width, x, y), width as int, y as int, x as int);
    lemma_fundamental_div_mod_converse(pixel_index(width, x, y), width as int, y2 as int, x2 as int);
}

/// Writing one pixel writes exactly that pixel: a later read of it gives the written
/// word, and every other pixel of the buffer reads as before (`set_pixel`, then `get_pixel`).
pub proof fn law_pixel_write_is_local(
    width: u32,
    height: u32,
    pixels: Seq<u32>,
    x: u32,
    y: u32,
    x2: u32,
    y2: u32,
    color: u32,
)
    requires
        pixel_in_buffer(width, height, pixels.len(), x, y),
        pixel_in_buffer(width, height, pixels.len(), x2, y2),
    ensures
        ({
            let after = pixels.update(pixel_index(width, x, y), color);
            &&& after.len() == pixels.len()
            &&& after[pixel_index(width, x, y)] == color
            &&& (x2 != x || y2 != y) ==> after[pixel_index(width, x2, y2)] == pixels[pixel_index(
                width,
                x2,
                y2,
            )]
        }),
{
    if pixel_index(width, x, y) == pixel_index(width, x2, y2) {
        lemma_pixel_index_injective(width, x, y, x2, y2);
    }
}

/// A color written to a pixel is the color read back from it: packing a color into a
/// pixel word and unpacking it again loses nothing (`set_pixel_with_color`, then
/// `get_pixel_by_color`).
pub proof fn law_pixel_color_roundtrip(written: Color, read: Color)
    requires
        read.rgba_word() == written.rgba_word(),
    ensures
        read == written,
{
    crate::colors::lemma_color_word_roundtrip(written, read);
}

/// Trait implemented by software rasterizers and pixel painters.
pub trait PixelPainter: 'static {
    /// Renders pixel data into the provided CPU `buffer`.
    fn paint(&mut self, buffer: &mut PixelBuffer);
}

} // verus!
