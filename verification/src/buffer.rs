//! The rectangular pixel grid: a row-major store of [`Color`] values.
//!
//! `Buffer` is the sprite-buffer kind: it owns its pixel store exclusively
//! and maps `(x, y)` to the element at `x + y * width`, origin top-left.
//! Out-of-range reads and writes through `get_pixel` / `set_pixel` clamp to
//! the last valid index (a lossy, defensive fallback), while `blend_pixel`
//! and `contains` check strictly and skip out-of-range coordinates.

use vstd::prelude::*;
use vstd::string::StringExecFns;
use crate::color::{Color, clear_color, blend_spec};

verus! {

/// A row-major RGBA8 byte sequence read as colors, four bytes a pixel;
/// trailing bytes that do not fill a pixel are dropped.
pub open spec fn rgba_view(bytes: Seq<u8>) -> Seq<Color> {
    Seq::new(
        (bytes.len() / 4) as nat,
        |i: int| Color(bytes[4 * i], bytes[4 * i + 1], bytes[4 * i + 2], bytes[4 * i + 3]),
    )
}

/// Chunks a decoded RGBA8 byte sequence into colors, four bytes a pixel.
pub fn chunk_rgba(frame: &Vec<u8>) -> (v: Vec<Color>)
    ensures
        v@ == rgba_view(frame@),
{
    let flen: usize = frame.len();
    let n: usize = flen / 4;
    proof {
        vstd::arithmetic::div_mod::lemma_fundamental_div_mod(flen as int, 4);
    }
    let mut v: Vec<Color> = Vec::new();
    let mut p: usize = 0;
    while p < n
        invariant
            n == flen / 4,
            flen == frame@.len(),
            4 * n <= flen,
            p <= n,
            v@.len() == p,
            forall|k: int| 0 <= k < p ==> v@[k] == (Color(
                frame@[4 * k],
                frame@[4 * k + 1],
                frame@[4 * k + 2],
                frame@[4 * k + 3],
            )),
        decreases n - p,
    {
        let base: usize = 4 * p;
        v.push(Color(frame[base], frame[base + 1], frame[base + 2], frame[base + 3]));
        p = p + 1;
    }
    proof {
        assert(v@ =~= rgba_view(frame@));
    }
    v
}

/// Row-major index of `(x, y)` in a grid `width` pixels wide.
pub open spec fn pixel_index(x: int, y: int, width: int) -> int {
    x + y * width
}

/// The index that the clamping accessors actually touch: the row-major index
/// when it is in range, and the last valid index otherwise.
pub open spec fn clamped_index(x: int, y: int, width: int, len: int) -> int {
    if pixel_index(x, y, width) < len {
        pixel_index(x, y, width)
    } else {
        len - 1
    }
}

/// A grid of `n` fully transparent pixels.
pub open spec fn cleared_grid(n: nat) -> Seq<Color> {
    Seq::new(n, |i: int| clear_color())
}

/// The pixel store after a strict bounds-checked blend of `color` at
/// `(x, y)`: unchanged when the coordinate is out of range, otherwise the one
/// pixel is composited over.
pub open spec fn blend_pixel_spec(
    view: Seq<Color>,
    width: int,
    height: int,
    color: Color,
    x: int,
    y: int,
) -> Seq<Color> {
    if 0 <= x < width && 0 <= y < height {
        view.update(pixel_index(x, y, width), blend_spec(view[pixel_index(x, y, width)], color))
    } else {
        view
    }
}

/// A coordinate inside a `width` by `height` grid indexes inside the store.
pub proof fn lemma_grid_index_bounds(x: int, y: int, width: int, height: int)
    requires
        0 <= x < width,
        0 <= y < height,
    ensures
        0 <= pixel_index(x, y, width) < width * height,
{
    assert(0 <= x + y * width < width * height) by (nonlinear_arith)
        requires
            0 <= x < width,
            0 <= y < height,
    ;
}

/// Splits a store index of a `width` by `height` grid into its column
/// (`p % width`) and row (`p / width`).
pub proof fn lemma_grid_decompose(p: int, width: int, height: int)
    requires
        0 <= width,
        0 <= height,
        0 <= p < width * height,
    ensures
        0 < width,
        0 < height,
        0 <= p % width < width,
        0 <= p / width < height,
        p == pixel_index(p % width, p / width, width),
{
    assert(0 < width && 0 < height) by (nonlinear_arith)
        requires
            0 <= width,
            0 <= height,
            0 <= p < width * height,
    ;
    vstd::arithmetic::div_mod::lemma_fundamental_div_mod(p, width);
    vstd::arithmetic::div_mod::lemma_mod_bound(p, width);
    assert(0 <= p / width < height) by (nonlinear_arith)
        requires
            0 < width,
            0 <= p < width * height,
            p == width * (p / width) + p % width,
            0 <= p % width < width,
    ;
    assert(p % width + (p / width) * width == width * (p / width) + p % width)
        by (nonlinear_arith);
}

/// The column and row of a constructed in-range index are the coordinates it
/// was built from.
pub proof fn lemma_grid_compose(x: int, y: int, width: int)
    requires
        0 <= x < width,
        0 <= y,
    ensures
        pixel_index(x, y, width) % width == x,
        pixel_index(x, y, width) / width == y,
{
    vstd::arithmetic::div_mod::lemma_fundamental_div_mod_converse(x + y * width, width, y, x);
}

/// A single sprite buffer: a rectangular grid of colors that it owns
/// exclusively.
#[derive(Clone, Debug)]
pub struct Buffer {
    width: usize,
    height: usize,
    pixels: Vec<Color>,
}

impl View for Buffer {
    type V = Seq<Color>;

    closed spec fn view(&self) -> Seq<Color> {
        self.pixels@
    }
}

/// Builds a store of `n` transparent pixels.
fn cleared_pixels(n: usize) -> (v: Vec<Color>)
    ensures
        v@ == cleared_grid(n as nat),
{
    let mut v: Vec<Color> = Vec::new();
    let mut i: usize = 0;
    while i < n
        invariant
            i <= n,
            v@.len() == i,
            forall|k: int| 0 <= k < i ==> v@[k] == clear_color(),
        decreases n - i,
    {
        v.push(Color::clear());
        i = i + 1;
    }
    proof {
        assert(v@ =~= cleared_grid(n as nat));
    }
    v
}

impl Buffer {
    pub closed spec fn spec_width(&self) -> nat {
        self.width as nat
    }

    pub closed spec fn spec_height(&self) -> nat {
        self.height as nat
    }

    /// The pixel store always holds exactly `width * height` colors.
    pub open spec fn wf(&self) -> bool {
        self@.len() == self.spec_width() * self.spec_height()
    }

    /// The clamped store index behind `get_pixel` and `set_pixel`.
    pub open spec fn spec_clamped(&self, x: int, y: int) -> int {
        clamped_index(x, y, self.spec_width() as int, self@.len() as int)
    }

    /// Strict bounds predicate used by blend operations: note that it
    /// excludes both axes' 0 coordinate, not only the far edges.
    pub open spec fn spec_contains(&self, x: int, y: int) -> bool {
        0 < x < self.spec_width() && 0 < y < self.spec_height()
    }

    /// A fresh buffer filled with the transparent color.
    pub fn new(width: usize, height: usize) -> (b: Buffer)
        requires
            width * height <= usize::MAX,
        ensures
            b.wf(),
            b.spec_width() == width,
            b.spec_height() == height,
            b@ == cleared_grid((width * height) as nat),
    {
        let n: usize = width * height;
        Buffer { width, height, pixels: cleared_pixels(n) }
    }

    /// Wraps an existing pixel store of the right length.
    pub fn from(pixels: Vec<Color>, width: usize, height: usize) -> (b: Buffer)
        requires
            pixels@.len() == width * height,
        ensures
            b.wf(),
            b.spec_width() == width,
            b.spec_height() == height,
            b@ == pixels@,
    {
        Buffer { width, height, pixels }
    }

    pub fn get_dimensions(&self) -> (r: (usize, usize))
        ensures
            r.0 == self.spec_width(),
            r.1 == self.spec_height(),
    {
        (self.width, self.height)
    }

    pub fn get_width(&self) -> (r: usize)
        ensures
            r == self.spec_width(),
    {
        self.width
    }

    pub fn get_height(&self) -> (r: usize)
        ensures
            r == self.spec_height(),
    {
        self.height
    }

    /// How many pixels the store holds.
    pub fn pixel_count(&self) -> (n: usize)
        ensures
            n == self@.len(),
    {
        self.pixels.len()
    }

    /// Read-only access to the raw pixel store.
    pub fn pixels(&self) -> (r: &Vec<Color>)
        ensures
            r@ == self@,
    {
        &self.pixels
    }

    /// Upscales the contents in place with the pixel-art-preserving 2x
    /// algorithm; both dimensions double.
    pub fn scale(&mut self)
        requires
            old(self).wf(),
            2 <= old(self).spec_width(),
            2 <= old(self).spec_height(),
            4 * (old(self).spec_width() * old(self).spec_height()) <= usize::MAX,
        ensures
            final(self).wf(),
            final(self).spec_width() == 2 * old(self).spec_width(),
            final(self).spec_height() == 2 * old(self).spec_height(),
            final(self)@ == scale2x_pixels(
                old(self)@,
                old(self).spec_width() as int,
                old(self).spec_height() as int,
            ),
    {
        let w: usize = self.width;
        let h: usize = self.height;
        proof {
            assert(2 * (w as int) <= 4 * (w as int * h as int) && 2 * (h as int) <= 4 * (w as int
                * h as int) && (2 * (w as int)) * (2 * (h as int)) == 4 * (w as int * h as int))
                by (nonlinear_arith)
                requires
                    2 <= w as int,
                    2 <= h as int,
            ;
        }
        let scaled: Vec<Color> = scale2x_call(&self.pixels, w, h);
        self.width = 2 * w;
        self.height = 2 * h;
        self.pixels = scaled;
    }

    /// Strict bounds test for blend targets; exclusive of coordinate 0 on
    /// both axes.
    pub fn contains(&self, x: i32, y: i32) -> (r: bool)
        ensures
            r == self.spec_contains(x as int, y as int),
    {
        x > 0 && y > 0 && (x as usize) < self.width && (y as usize) < self.height
    }

    /// Reads the pixel at `(x, y)`; an out-of-range coordinate clamps to the
    /// last valid index rather than failing.
    pub fn get_pixel(&self, x: usize, y: usize) -> (c: Color)
        requires
            self.wf(),
            self@.len() > 0,
            x + y * self.spec_width() <= usize::MAX,
        ensures
            c == self@[self.spec_clamped(x as int, y as int)],
    {
        let raw: usize = x + y * self.width;
        let idx: usize = if raw < self.pixels.len() {
            raw
        } else {
            self.pixels.len() - 1
        };
        self.pixels[idx]
    }

    /// Overwrites the pixel at `(x, y)` unconditionally (no blending); an
    /// out-of-range coordinate clamps to the last valid index.
    pub fn set_pixel(&mut self, color: Color, x: usize, y: usize)
        requires
            old(self).wf(),
            old(self)@.len() > 0,
            x + y * old(self).spec_width() <= usize::MAX,
        ensures
            final(self).wf(),
            final(self).spec_width() == old(self).spec_width(),
            final(self).spec_height() == old(self).spec_height(),
            final(self)@ == old(self)@.update(old(self).spec_clamped(x as int, y as int), color),
    {
        let raw: usize = x + y * self.width;
        let idx: usize = if raw < self.pixels.len() {
            raw
        } else {
            self.pixels.len() - 1
        };
        self.pixels[idx] = color;
    }

    /// Composites `color` over the pixel at `(x, y)`; a coordinate outside
    /// `[0, width) x [0, height)` is skipped entirely.
    pub fn blend_pixel(&mut self, color: Color, x: usize, y: usize)
        requires
            old(self).wf(),
        ensures
            final(self).wf(),
            final(self).spec_width() == old(self).spec_width(),
            final(self).spec_height() == old(self).spec_height(),
            final(self)@ == blend_pixel_spec(
                old(self)@,
                old(self).spec_width() as int,
                old(self).spec_height() as int,
                color,
                x as int,
                y as int,
            ),
    {
        if x < self.width && y < self.height {
            let n: usize = self.pixels.len();
            proof {
                lemma_grid_index_bounds(
                    x as int,
                    y as int,
                    self.spec_width() as int,
                    self.spec_height() as int,
                );
                assert(x + y * self.spec_width() < n);
            }
            let idx: usize = x + y * self.width;
            let mut base: Color = self.pixels[idx];
            base.blend(color);
            self.pixels[idx] = base;
        }
    }

    /// Resets every pixel to the transparent color, preserving dimensions.
    pub fn clear(&mut self)
        requires
            old(self).wf(),
        ensures
            final(self).wf(),
            final(self).spec_width() == old(self).spec_width(),
            final(self).spec_height() == old(self).spec_height(),
            final(self)@ == cleared_grid(old(self)@.len() as nat),
    {
        let n: usize = self.pixels.len();
        self.pixels = cleared_pixels(n);
    }

    /// Replaces the pixel store and dimensions wholesale.
    pub fn set_buffer(&mut self, pixels: Vec<Color>, width: usize, height: usize)
        requires
            pixels@.len() == width * height,
        ensures
            final(self).wf(),
            final(self).spec_width() == width,
            final(self).spec_height() == height,
            final(self)@ == pixels@,
    {
        self.width = width;
        self.height = height;
        self.pixels = pixels;
    }

    /// Writes the whole store into `arr` as row-major RGBA8 bytes, leaving
    /// any bytes past `4 * width * height` untouched.
    pub fn dump(&self, arr: &mut Vec<u8>)
        requires
            self.wf(),
            old(arr)@.len() >= 4 * self@.len(),
        ensures
            final(arr)@.len() == old(arr)@.len(),
            forall|i: int| 0 <= i < self@.len() ==> {
                &&& final(arr)@[4 * i] == self@[i].0
                &&& final(arr)@[4 * i + 1] == self@[i].1
                &&& final(arr)@[4 * i + 2] == self@[i].2
                &&& final(arr)@[4 * i + 3] == self@[i].3
            },
            forall|j: int| 4 * self@.len() <= j < final(arr)@.len()
                ==> final(arr)@[j] == old(arr)@[j],
    {
        let m: usize = arr.len();
        let mut i: usize = 0;
        while i < self.pixels.len()
            invariant
                self.wf(),
                i <= self@.len(),
                arr@.len() == old(arr)@.len(),
                old(arr)@.len() <= usize::MAX,
                old(arr)@.len() >= 4 * self@.len(),
                forall|k: int| 0 <= k < i ==> {
                    &&& arr@[4 * k] == self@[k].0
                    &&& arr@[4 * k + 1] == self@[k].1
                    &&& arr@[4 * k + 2] == self@[k].2
                    &&& arr@[4 * k + 3] == self@[k].3
                },
                forall|j: int| 4 * i <= j < arr@.len() ==> arr@[j] == old(arr)@[j],
            decreases self@.len() - i,
        {
            let p: Color = self.pixels[i];
            let base: usize = 4 * i;
            arr[base] = p.0;
            arr[base + 1] = p.1;
            arr[base + 2] = p.2;
            arr[base + 3] = p.3;
            i = i + 1;
        }
    }
}

/// What the edge-preserving 2x pixel-art upscale makes of a `width` by
/// `height` grid of pixels: a `2*width` by `2*height` grid, determined by
/// the input pixels and dimensions alone.
pub uninterp spec fn scale2x_pixels(src: Seq<Color>, width: int, height: int) -> Seq<Color>;

/// Relies on rotsprite's `scale2x`: the pixel-art upscale that doubles both
/// dimensions, so the result holds exactly `2*width * 2*height` pixels; the
/// result is a function of the input pixels and dimensions alone.
#[verifier::external_body]
pub(crate) fn scale2x_call(pixels: &Vec<Color>, width: usize, height: usize) -> (r: Vec<Color>)
    requires
        2 <= width,
        2 <= height,
        pixels@.len() == width * height,
        4 * (width * height) <= usize::MAX,
    ensures
        r@ == scale2x_pixels(pixels@, width as int, height as int),
        r@.len() == 4 * (width * height),
{
    let (_, _, scaled) = rotsprite::scale2x::scale2x(pixels.as_slice(), width, height);
    scaled
}

/// Anything that can hand out the plain pixel buffer behind it.
pub trait BufferProvider {
    /// The buffer value that `get_buffer` exposes.
    spec fn provided_buffer(&self) -> Buffer;

    fn get_buffer(&self) -> (r: &Buffer)
        ensures
            *r == self.provided_buffer(),
    ;
}

impl BufferProvider for Buffer {
    open spec fn provided_buffer(&self) -> Buffer {
        *self
    }

    fn get_buffer(&self) -> (r: &Buffer) {
        self
    }
}

/// The axis-aligned rectangle `[x, y, w, h)` of a source store `src_width`
/// pixels wide, as an independent row-major store: destination pixel
/// `(i, j)` reads source pixel `(x + i, y + j)`.
pub open spec fn extract_rect(
    src: Seq<Color>,
    src_width: int,
    x: int,
    y: int,
    w: int,
    h: int,
) -> Seq<Color> {
    Seq::new((w * h) as nat, |p: int| src[pixel_index(x + p % w, y + p / w, src_width)])
}

/// A sprite atlas: one decoded source image, read once at creation, and the
/// ordered sequence of sprite buffers sliced out of it. Each derived buffer
/// is independently owned and keeps no reference back to the atlas.
pub struct BufferAtlas {
    buffers: Vec<Buffer>,
    file: String,
    source: Buffer,
}

impl BufferAtlas {
    /// The derived sprite buffers, in the order they were added.
    pub closed spec fn spec_buffers(&self) -> Seq<Buffer> {
        self.buffers@
    }

    /// The decoded source image.
    pub closed spec fn spec_source(&self) -> Buffer {
        self.source
    }

    /// The name the source image was decoded from.
    pub closed spec fn spec_file(&self) -> Seq<char> {
        self.file@
    }

    pub open spec fn wf(&self) -> bool {
        &&& self.spec_source().wf()
        &&& forall|k: int|
            0 <= k < self.spec_buffers().len() ==> (#[trigger] self.spec_buffers()[k]).wf()
    }

    /// Takes the source image as decoded by the outside collaborator: its
    /// name, its row-major RGBA8 bytes, and its dimensions.
    pub fn new(filename: &str, frame: Vec<u8>, width: usize, height: usize) -> (a: BufferAtlas)
        requires
            width * height <= usize::MAX,
            frame@.len() == 4 * (width * height),
        ensures
            a.wf(),
            a.spec_buffers() == Seq::<Buffer>::empty(),
            a.spec_file() == filename@,
            a.spec_source().spec_width() == width,
            a.spec_source().spec_height() == height,
            a.spec_source()@ == rgba_view(frame@),
    {
        let pixels: Vec<Color> = chunk_rgba(&frame);
        proof {
            vstd::arithmetic::div_mod::lemma_fundamental_div_mod(frame@.len() as int, 4);
        }
        BufferAtlas {
            buffers: Vec::new(),
            file: String::from_str(filename),
            source: Buffer::from(pixels, width, height),
        }
    }

    /// Extracts the rectangle `[x, y, width, height)` of the source as a
    /// fresh sprite buffer and appends it.
    pub fn add(&mut self, x: usize, y: usize, width: usize, height: usize)
        requires
            old(self).wf(),
            x + width <= old(self).spec_source().spec_width(),
            y + height <= old(self).spec_source().spec_height(),
        ensures
            final(self).wf(),
            final(self).spec_source() == old(self).spec_source(),
            final(self).spec_file() == old(self).spec_file(),
            final(self).spec_buffers().len() == old(self).spec_buffers().len() + 1,
            forall|k: int| 0 <= k < old(self).spec_buffers().len()
                ==> final(self).spec_buffers()[k] == old(self).spec_buffers()[k],
            ({
                let b = final(self).spec_buffers().last();
                &&& b.spec_width() == width
                &&& b.spec_height() == height
                &&& b@ == extract_rect(
                    old(self).spec_source()@,
                    old(self).spec_source().spec_width() as int,
                    x as int,
                    y as int,
                    width as int,
                    height as int,
                )
            }),
    {
        let sw: usize = self.source.get_width();
        let sh: usize = self.source.get_height();
        let slen: usize = self.source.pixel_count();
        proof {
            crate::color::lemma_mul_bounds(width as int, height as int, sw as int, sh as int);
        }
        let n: usize = width * height;
        let mut pixels: Vec<Color> = Vec::new();
        let mut p: usize = 0;
        while p < n
            invariant
                self.wf(),
                sw == self.spec_source().spec_width(),
                sh == self.spec_source().spec_height(),
                slen == self.spec_source()@.len(),
                x + width <= sw,
                y + height <= sh,
                n == width * height,
                p <= n,
                pixels@.len() == p,
                forall|k: int| 0 <= k < p ==> pixels@[k] == self.spec_source()@[pixel_index(
                    x + k % (width as int),
                    y + k / (width as int),
                    sw as int,
                )],
            decreases n - p,
        {
            proof {
                lemma_grid_decompose(p as int, width as int, height as int);
                lemma_grid_index_bounds(
                    x + (p as int) % (width as int),
                    y + (p as int) / (width as int),
                    sw as int,
                    sh as int,
                );
            }
            let cx: usize = x + p % width;
            let cy: usize = y + p / width;
            pixels.push(self.source.get_pixel(cx, cy));
            p = p + 1;
        }
        proof {
            assert(pixels@ =~= extract_rect(
                self.spec_source()@,
                sw as int,
                x as int,
                y as int,
                width as int,
                height as int,
            ));
        }
        self.buffers.push(Buffer::from(pixels, width, height));
    }

    /// Slices the source into a uniform grid of `width` by `height` cells,
    /// appending `floor(srcWidth / width) * floor(srcHeight / height)`
    /// sprite buffers in row-major cell order; remainder pixels that do not
    /// fill a cell are dropped.
    pub fn slice(&mut self, width: usize, height: usize)
        requires
            old(self).wf(),
            width > 0,
            height > 0,
        ensures
            final(self).wf(),
            final(self).spec_source() == old(self).spec_source(),
            final(self).spec_file() == old(self).spec_file(),
            ({
                let cols = old(self).spec_source().spec_width() as int / width as int;
                let rows = old(self).spec_source().spec_height() as int / height as int;
                let base = old(self).spec_buffers().len() as int;
                &&& final(self).spec_buffers().len() == base + rows * cols
                &&& forall|k: int| 0 <= k < base
                    ==> final(self).spec_buffers()[k] == old(self).spec_buffers()[k]
                &&& forall|r: int, c: int| 0 <= r < rows && 0 <= c < cols ==> {
                    let b = #[trigger] final(self).spec_buffers()[base + r * cols + c];
                    &&& b.spec_width() == width
                    &&& b.spec_height() == height
                    &&& b@ == extract_rect(
                        old(self).spec_source()@,
                        old(self).spec_source().spec_width() as int,
                        c * width,
                        r * height,
                        width as int,
                        height as int,
                    )
                }
            }),
    {
        let sw: usize = self.source.get_width();
        let sh: usize = self.source.get_height();
        let cols: usize = sw / width;
        let rows: usize = sh / height;
        let ghost snap: BufferAtlas = *self;
        let ghost base: int = self.spec_buffers().len() as int;
        proof {
            vstd::arithmetic::div_mod::lemma_fundamental_div_mod(sw as int, width as int);
            vstd::arithmetic::div_mod::lemma_mod_bound(sw as int, width as int);
            vstd::arithmetic::div_mod::lemma_fundamental_div_mod(sh as int, height as int);
            vstd::arithmetic::div_mod::lemma_mod_bound(sh as int, height as int);
        }
        let mut r: usize = 0;
        while r < rows
            invariant
                self.wf(),
                snap.wf(),
                self.spec_source() == snap.spec_source(),
                self.spec_file() == snap.spec_file(),
                sw == snap.spec_source().spec_width(),
                sh == snap.spec_source().spec_height(),
                width > 0,
                height > 0,
                cols == sw as int / width as int,
                rows == sh as int / height as int,
                cols * width <= sw,
                rows * height <= sh,
                base == snap.spec_buffers().len() as int,
                r <= rows,
                self.spec_buffers().len() == base + r * cols,
                forall|k: int| 0 <= k < base
                    ==> self.spec_buffers()[k] == snap.spec_buffers()[k],
                forall|q: int, c: int| 0 <= q < r && 0 <= c < cols ==> {
                    let b = #[trigger] self.spec_buffers()[base + q * cols + c];
                    &&& b.spec_width() == width
                    &&& b.spec_height() == height
                    &&& b@ == extract_rect(
                        snap.spec_source()@,
                        sw as int,
                        c * width,
                        q * height,
                        width as int,
                        height as int,
                    )
                },
            decreases rows - r,
        {
            proof {
                crate::color::lemma_mul_bounds(r as int, height as int, rows as int, height as int);
                vstd::arithmetic::mul::lemma_mul_inequality(r as int + 1, rows as int, height as int);
            }
            let mut c: usize = 0;
            while c < cols
                invariant
                    self.wf(),
                    snap.wf(),
                    self.spec_source() == snap.spec_source(),
                    self.spec_file() == snap.spec_file(),
                    sw == snap.spec_source().spec_width(),
                    sh == snap.spec_source().spec_height(),
                    width > 0,
                    height > 0,
                    cols == sw as int / width as int,
                    rows == sh as int / height as int,
                    cols * width <= sw,
                    rows * height <= sh,
                    base == snap.spec_buffers().len() as int,
                    r < rows,
                    (r + 1) * height <= sh,
                    c <= cols,
                    self.spec_buffers().len() == base + r * cols + c,
                    forall|k: int| 0 <= k < base
                        ==> self.spec_buffers()[k] == snap.spec_buffers()[k],
                    forall|q: int, cc: int| 0 <= q < r && 0 <= cc < cols ==> {
                        let b = #[trigger] self.spec_buffers()[base + q * cols + cc];
                        &&& b.spec_width() == width
                        &&& b.spec_height() == height
                        &&& b@ == extract_rect(
                            snap.spec_source()@,
                            sw as int,
                            cc * width,
                            q * height,
                            width as int,
                            height as int,
                        )
                    },
                    forall|cc: int| 0 <= cc < c ==> {
                        let b = #[trigger] self.spec_buffers()[base + r * cols + cc];
                        &&& b.spec_width() == width
                        &&& b.spec_height() == height
                        &&& b@ == extract_rect(
                            snap.spec_source()@,
                            sw as int,
                            cc * width,
                            r * height,
                            width as int,
                            height as int,
                        )
                    },
                decreases cols - c,
            {
                proof {
                    crate::color::lemma_mul_bounds(c as int, width as int, cols as int, width as int);
                    vstd::arithmetic::mul::lemma_mul_inequality(c as int + 1, cols as int, width as int);
                    assert((c as int + 1) * width == c as int * width + width) by (nonlinear_arith);
                    assert((r as int + 1) * height == r as int * height + height) by (nonlinear_arith);
                }
                let cell_x: usize = c * width;
                let cell_y: usize = r * height;
                self.add(cell_x, cell_y, width, height);
                proof {
                    assert forall|q: int, cc: int| 0 <= q < r && 0 <= cc < cols implies {
                        let b = #[trigger] self.spec_buffers()[base + q * cols + cc];
                        &&& b.spec_width() == width
                        &&& b.spec_height() == height
                        &&& b@ == extract_rect(
                            snap.spec_source()@,
                            sw as int,
                            cc * width,
                            q * height,
                            width as int,
                            height as int,
                        )
                    } by {
                        vstd::arithmetic::mul::lemma_mul_inequality(q + 1, r as int, cols as int);
                        assert((q + 1) * cols == q * cols + cols) by (nonlinear_arith);
                        assert(base + q * cols + cc < base + (r as int) * cols);
                    }
                }
                c = c + 1;
            }
            proof {
                assert((r + 1) * cols == r * cols + cols) by (nonlinear_arith);
            }
            r = r + 1;
        }
        proof {
            assert(rows * cols == rows as int * cols as int);
        }
    }

    /// The derived buffer at `index`; an index at or past the atlas length
    /// is out of range and refused.
    pub fn get_buffer(&self, index: usize) -> (r: &Buffer)
        requires
            index < self.spec_buffers().len(),
        ensures
            *r == self.spec_buffers()[index as int],
    {
        &self.buffers[index]
    }

    /// How many sprite buffers have been derived so far.
    pub fn len(&self) -> (n: usize)
        ensures
            n == self.spec_buffers().len(),
    {
        self.buffers.len()
    }
}

} // verus!
