//! The two concrete buffer kinds of the compositor and the blit primitive.
//!
//! [`SingleImageBuffer`] is an independently owned sprite buffer, typically
//! built from a decoded RGBA8 byte sequence. [`CamBuffer`] is the full-frame
//! camera buffer that accumulates every rendered sprite before presentation;
//! it carries the scroll offset that shifts all incoming blend coordinates.
//! The sprite-compositing primitive [`Buffer::blit`] composites a whole
//! source buffer onto the camera at a translated position, silently clipping
//! the pixels that fall outside the camera bounds.

use vstd::prelude::*;
use crate::buffer::{
    Buffer, BufferProvider, blend_pixel_spec, cleared_grid, lemma_grid_compose,
    lemma_grid_decompose, lemma_grid_index_bounds, pixel_index,
};
use crate::color::{Color, blend_spec};
use crate::math::Vec2i;

verus! {

/// Whether the blit of a `sw` by `sh` source translated to `(tx, ty)` writes
/// the destination pixel `(di, dj)` of a `dw` by `dh` destination: the pixel
/// must lie under the translated source rectangle and pass the strict
/// (0-exclusive) bounds test.
pub open spec fn blit_covers(
    dw: int,
    dh: int,
    sw: int,
    sh: int,
    tx: int,
    ty: int,
    di: int,
    dj: int,
) -> bool {
    &&& 0 < di < dw
    &&& 0 < dj < dh
    &&& tx <= di < tx + sw
    &&& ty <= dj < ty + sh
}

/// The destination store after blitting the whole source onto it at
/// `(tx, ty)`: every covered pixel is composited over, every other pixel is
/// untouched.
pub open spec fn blit_spec(
    dest: Seq<Color>,
    dw: int,
    dh: int,
    src: Seq<Color>,
    sw: int,
    sh: int,
    tx: int,
    ty: int,
) -> Seq<Color> {
    Seq::new(
        dest.len(),
        |p: int|
            if blit_covers(dw, dh, sw, sh, tx, ty, p % dw, p / dw) {
                blend_spec(dest[p], src[pixel_index((p % dw) - tx, (p / dw) - ty, sw)])
            } else {
                dest[p]
            },
    )
}

/// The destination store in the middle of a blit: the first `cols` source
/// columns are fully applied, and of column `cols` the first `rows` pixels.
spec fn blit_partial(
    dest: Seq<Color>,
    dw: int,
    dh: int,
    src: Seq<Color>,
    sw: int,
    sh: int,
    tx: int,
    ty: int,
    cols: int,
    rows: int,
) -> Seq<Color> {
    Seq::new(
        dest.len(),
        |p: int|
            if blit_covers(dw, dh, sw, sh, tx, ty, p % dw, p / dw) && ((p % dw) - tx < cols || (
            (p % dw) - tx == cols && (p / dw) - ty < rows)) {
                blend_spec(dest[p], src[pixel_index((p % dw) - tx, (p / dw) - ty, sw)])
            } else {
                dest[p]
            },
    )
}

/// The full-frame camera buffer: the destination every sprite is composited
/// into each frame, with a scroll offset that shifts incoming blend
/// coordinates.
pub struct CamBuffer {
    buffer: Buffer,
    offset: Vec2i,
}

impl View for CamBuffer {
    type V = Seq<Color>;

    closed spec fn view(&self) -> Seq<Color> {
        self.buffer@
    }
}

impl CamBuffer {
    pub closed spec fn spec_buffer(&self) -> Buffer {
        self.buffer
    }

    pub closed spec fn spec_offset(&self) -> Vec2i {
        self.offset
    }

    pub open spec fn spec_width(&self) -> nat {
        self.spec_buffer().spec_width()
    }

    pub open spec fn spec_height(&self) -> nat {
        self.spec_buffer().spec_height()
    }

    pub open spec fn wf(&self) -> bool {
        &&& self.spec_buffer().wf()
        &&& self@ == self.spec_buffer()@
    }

    pub open spec fn spec_contains(&self, x: int, y: int) -> bool {
        self.spec_buffer().spec_contains(x, y)
    }

    /// A fresh camera buffer, fully transparent, with a zero offset.
    pub fn new(width: usize, height: usize) -> (c: CamBuffer)
        requires
            width * height <= usize::MAX,
        ensures
            c.wf(),
            c.spec_width() == width,
            c.spec_height() == height,
            c@ == cleared_grid((width * height) as nat),
            c.spec_offset() == (Vec2i { x: 0, y: 0 }),
    {
        CamBuffer { buffer: Buffer::new(width, height), offset: Vec2i::zero() }
    }

    pub fn get_offset(&self) -> (r: &Vec2i)
        ensures
            *r == self.spec_offset(),
    {
        &self.offset
    }

    pub fn set_offset(&mut self, x: i32, y: i32)
        ensures
            final(self).spec_offset() == (Vec2i { x, y }),
            final(self).spec_buffer() == old(self).spec_buffer(),
            final(self)@ == old(self)@,
    {
        self.offset.set_xy(x, y);
    }

    pub fn get_dimensions(&self) -> (r: (usize, usize))
        ensures
            r.0 == self.spec_width(),
            r.1 == self.spec_height(),
    {
        self.buffer.get_dimensions()
    }

    pub fn get_width(&self) -> (r: usize)
        ensures
            r == self.spec_width(),
    {
        self.buffer.get_width()
    }

    pub fn get_height(&self) -> (r: usize)
        ensures
            r == self.spec_height(),
    {
        self.buffer.get_height()
    }

    /// How many pixels the camera holds.
    pub fn pixel_count(&self) -> (n: usize)
        ensures
            n == self@.len(),
    {
        self.buffer.pixel_count()
    }

    /// Strict bounds test for blend targets; exclusive of coordinate 0.
    pub fn contains(&self, x: i32, y: i32) -> (r: bool)
        ensures
            r == self.spec_contains(x as int, y as int),
    {
        self.buffer.contains(x, y)
    }

    /// Reads the pixel at `(x, y)` with the clamp-to-last fallback.
    pub fn get_pixel(&self, x: usize, y: usize) -> (c: Color)
        requires
            self.wf(),
            self@.len() > 0,
            x + y * self.spec_width() <= usize::MAX,
        ensures
            c == self@[self.spec_buffer().spec_clamped(x as int, y as int)],
    {
        self.buffer.get_pixel(x, y)
    }

    /// Overwrites the pixel at `(x, y)` with the clamp-to-last fallback.
    pub fn set_pixel(&mut self, color: Color, x: usize, y: usize)
        requires
            old(self).wf(),
            old(self)@.len() > 0,
            x + y * old(self).spec_width() <= usize::MAX,
        ensures
            final(self).wf(),
            final(self).spec_width() == old(self).spec_width(),
            final(self).spec_height() == old(self).spec_height(),
            final(self).spec_offset() == old(self).spec_offset(),
            final(self)@ == old(self)@.update(
                old(self).spec_buffer().spec_clamped(x as int, y as int),
                color,
            ),
    {
        self.buffer.set_pixel(color, x, y);
    }

    /// Composites `color` over the pixel at `(x, y)`, skipping coordinates
    /// outside `[0, width) x [0, height)`.
    pub fn blend_pixel(&mut self, color: Color, x: usize, y: usize)
        requires
            old(self).wf(),
        ensures
            final(self).wf(),
            final(self).spec_width() == old(self).spec_width(),
            final(self).spec_height() == old(self).spec_height(),
            final(self).spec_offset() == old(self).spec_offset(),
            final(self)@ == blend_pixel_spec(
                old(self)@,
                old(self).spec_width() as int,
                old(self).spec_height() as int,
                color,
                x as int,
                y as int,
            ),
    {
        self.buffer.blend_pixel(color, x, y);
    }

    /// Resets every pixel to the transparent color; dimensions and offset
    /// are preserved.
    pub fn clear(&mut self)
        requires
            old(self).wf(),
        ensures
            final(self).wf(),
            final(self).spec_width() == old(self).spec_width(),
            final(self).spec_height() == old(self).spec_height(),
            final(self).spec_offset() == old(self).spec_offset(),
            final(self)@ == cleared_grid(old(self)@.len() as nat),
    {
        self.buffer.clear();
    }

    /// Writes the camera contents into `arr` as row-major RGBA8 bytes.
    pub fn dump(&self, arr: &mut Vec<u8>)
        requires
            self.wf(),
            old(arr)@.len() >= 4 * self@.len(),
        ensures
            final(arr)@.len() == old(arr)@.len(),
            forall|i: int| 0 <= i < self@.len() ==> {
                &&& final(arr)@[4 * i] == self@[i].0
                &&& final(arr)@[4 * i + 1] == self@[i].1
                &&& final(arr)@[4 * i + 2] == self@[i].2
                &&& final(arr)@[4 * i + 3] == self@[i].3
            },
            forall|j: int| 4 * self@.len() <= j < final(arr)@.len()
                ==> final(arr)@[j] == old(arr)@[j],
    {
        self.buffer.dump(arr);
    }
}

impl BufferProvider for CamBuffer {
    open spec fn provided_buffer(&self) -> Buffer {
        self.spec_buffer()
    }

    fn get_buffer(&self) -> (r: &Buffer) {
        &self.buffer
    }
}

impl Buffer {
    /// Composites this whole buffer *over* the camera, translated to
    /// `(x, y)` and shifted by the camera's scroll offset. Pixels that land
    /// outside the camera's strict bounds are clipped: they are skipped, and
    /// no other destination pixel is touched.
    pub fn blit(&self, other: &mut CamBuffer, x: i32, y: i32)
        requires
            self.wf(),
            old(other).wf(),
        ensures
            final(other).wf(),
            final(other).spec_width() == old(other).spec_width(),
            final(other).spec_height() == old(other).spec_height(),
            final(other).spec_offset() == old(other).spec_offset(),
            final(other)@ == blit_spec(
                old(other)@,
                old(other).spec_width() as int,
                old(other).spec_height() as int,
                self@,
                self.spec_width() as int,
                self.spec_height() as int,
                x + old(other).spec_offset().x,
                y + old(other).spec_offset().y,
            ),
    {
        let sw: usize = self.get_width();
        let sh: usize = self.get_height();
        let slen: usize = self.pixel_count();
        let dwu: usize = other.get_width();
        let dhu: usize = other.get_height();
        let off: Vec2i = *other.get_offset();
        let tx0: i128 = x as i128 + off.x as i128;
        let ty0: i128 = y as i128 + off.y as i128;
        let ghost dest0: Seq<Color> = other@;
        let ghost dw: int = other.spec_width() as int;
        let ghost dh: int = other.spec_height() as int;
        let ghost tx: int = tx0 as int;
        let ghost ty: int = ty0 as int;

        proof {
            assert(blit_partial(dest0, dw, dh, self@, sw as int, sh as int, tx, ty, 0, 0)
                =~= dest0);
        }

        let mut i: usize = 0;
        while i < sw
            invariant
                self.wf(),
                other.wf(),
                sw == self.spec_width(),
                sh == self.spec_height(),
                slen == self@.len(),
                dw == other.spec_width() as int,
                dh == other.spec_height() as int,
                dwu as int == dw,
                dhu as int == dh,
                other.spec_offset() == off,
                dest0.len() == other@.len(),
                tx == tx0 as int,
                ty == ty0 as int,
                -0x1_0000_0000 <= tx0 <= 0x1_0000_0000,
                -0x1_0000_0000 <= ty0 <= 0x1_0000_0000,
                i <= sw,
                other@ == blit_partial(
                    dest0, dw, dh, self@, sw as int, sh as int, tx, ty, i as int, 0),
            decreases sw - i,
        {
            let mut j: usize = 0;
            while j < sh
                invariant
                    self.wf(),
                    other.wf(),
                    sw == self.spec_width(),
                    sh == self.spec_height(),
                    slen == self@.len(),
                    dw == other.spec_width() as int,
                    dh == other.spec_height() as int,
                    dwu as int == dw,
                    dhu as int == dh,
                    other.spec_offset() == off,
                    dest0.len() == other@.len(),
                    tx == tx0 as int,
                    ty == ty0 as int,
                    -0x1_0000_0000 <= tx0 <= 0x1_0000_0000,
                    -0x1_0000_0000 <= ty0 <= 0x1_0000_0000,
                    i < sw,
                    j <= sh,
                    other@ == blit_partial(
                        dest0, dw, dh, self@, sw as int, sh as int, tx, ty, i as int, j as int),
                decreases sh - j,
            {
                let txi: i128 = tx0 + i as i128;
                let tyj: i128 = ty0 + j as i128;
                let ghost before: Seq<Color> = other@;
                if txi > 0 && tyj > 0 && txi < dwu as i128 && tyj < dhu as i128 {
                    proof {
                        lemma_grid_index_bounds(i as int, j as int, sw as int, sh as int);
                    }
                    let c: Color = self.get_pixel(i, j);
                    other.blend_pixel(c, txi as usize, tyj as usize);
                    proof {
                        let di = tx + i;
                        let dj = ty + j;
                        let t = pixel_index(di, dj, dw);
                        lemma_grid_index_bounds(di, dj, dw, dh);
                        lemma_grid_compose(di, dj, dw);
                        assert(c == self@[pixel_index(i as int, j as int, sw as int)]);
                        assert(before[t] == dest0[t]);
                        assert(other@ == before.update(t, blend_spec(before[t], c)));
                        assert forall|p: int| 0 <= p < dest0.len() implies
                            other@[p] == blit_partial(
                                dest0, dw, dh, self@, sw as int, sh as int, tx, ty,
                                i as int, j + 1)[p] by {
                            lemma_grid_decompose(p, dw, dh);
                            if p != t {
                                assert(!((p % dw) == di && (p / dw) == dj));
                            }
                        }
                        assert(other@ =~= blit_partial(
                            dest0, dw, dh, self@, sw as int, sh as int, tx, ty,
                            i as int, j + 1));
                    }
                } else {
                    proof {
                        assert forall|p: int| 0 <= p < dest0.len() implies
                            blit_partial(dest0, dw, dh, self@, sw as int, sh as int, tx, ty,
                                i as int, j as int)[p] == blit_partial(
                                dest0, dw, dh, self@, sw as int, sh as int, tx, ty,
                                i as int, j + 1)[p] by {
                            lemma_grid_decompose(p, dw, dh);
                        }
                        assert(other@ =~= blit_partial(
                            dest0, dw, dh, self@, sw as int, sh as int, tx, ty,
                            i as int, j + 1));
                    }
                }
                j = j + 1;
            }
            proof {
                assert forall|p: int| 0 <= p < dest0.len() implies
                    blit_partial(dest0, dw, dh, self@, sw as int, sh as int, tx, ty,
                        i as int, sh as int)[p] == blit_partial(
                        dest0, dw, dh, self@, sw as int, sh as int, tx, ty,
                        i + 1, 0)[p] by {
                    lemma_grid_decompose(p, dw, dh);
                }
                assert(other@ =~= blit_partial(
                    dest0, dw, dh, self@, sw as int, sh as int, tx, ty, i + 1, 0));
            }
            i = i + 1;
        }
        proof {
            assert forall|p: int| 0 <= p < dest0.len() implies
                blit_partial(dest0, dw, dh, self@, sw as int, sh as int, tx, ty,
                    sw as int, 0)[p] == blit_spec(
                    dest0, dw, dh, self@, sw as int, sh as int, tx, ty)[p] by {
                lemma_grid_decompose(p, dw, dh);
            }
            assert(other@ =~= blit_spec(dest0, dw, dh, self@, sw as int, sh as int, tx, ty));
        }
    }
}

/// Clipped blit: a blit writes nothing outside the translated source
/// rectangle and nothing the strict bounds test refuses — every such
/// destination pixel keeps its value, and the destination size never
/// changes.
pub proof fn lemma_blit_clips(
    dest: Seq<Color>,
    dw: int,
    dh: int,
    src: Seq<Color>,
    sw: int,
    sh: int,
    tx: int,
    ty: int,
    p: int,
)
    requires
        0 <= p < dest.len(),
        !blit_covers(dw, dh, sw, sh, tx, ty, p % dw, p / dw),
    ensures
        blit_spec(dest, dw, dh, src, sw, sh, tx, ty).len() == dest.len(),
        blit_spec(dest, dw, dh, src, sw, sh, tx, ty)[p] == dest[p],
{
}

impl Buffer {
    /// Like [`Buffer::scale`], but writes the upscaled copy into a
    /// caller-supplied sprite buffer and leaves this one untouched.
    pub fn scale_safe(&self, ib: SingleImageBuffer) -> (r: SingleImageBuffer)
        requires
            self.wf(),
            2 <= self.spec_width(),
            2 <= self.spec_height(),
            4 * (self.spec_width() * self.spec_height()) <= usize::MAX,
        ensures
            r.wf(),
            r.spec_width() == 2 * self.spec_width(),
            r.spec_height() == 2 * self.spec_height(),
            r@ == crate::buffer::scale2x_pixels(
                self@,
                self.spec_width() as int,
                self.spec_height() as int,
            ),
    {
        let w: usize = self.get_width();
        let h: usize = self.get_height();
        proof {
            assert(2 * (w as int) <= 4 * (w as int * h as int) && 2 * (h as int) <= 4 * (w as int
                * h as int) && (2 * (w as int)) * (2 * (h as int)) == 4 * (w as int * h as int))
                by (nonlinear_arith)
                requires
                    2 <= w as int,
                    2 <= h as int,
            ;
        }
        let scaled: Vec<Color> = crate::buffer::scale2x_call(self.pixels(), w, h);
        let mut ib: SingleImageBuffer = ib;
        ib.set_buffer(scaled, 2 * w, 2 * h);
        ib
    }
}

/// An independently owned sprite buffer: one visual frame, typically decoded
/// from an image by an outside collaborator and handed over as plain bytes.
pub struct SingleImageBuffer {
    buffer: Buffer,
}

impl View for SingleImageBuffer {
    type V = Seq<Color>;

    closed spec fn view(&self) -> Seq<Color> {
        self.buffer@
    }
}

impl SingleImageBuffer {
    pub closed spec fn spec_buffer(&self) -> Buffer {
        self.buffer
    }

    pub open spec fn spec_width(&self) -> nat {
        self.spec_buffer().spec_width()
    }

    pub open spec fn spec_height(&self) -> nat {
        self.spec_buffer().spec_height()
    }

    pub open spec fn wf(&self) -> bool {
        &&& self.spec_buffer().wf()
        &&& self@ == self.spec_buffer()@
    }

    /// A fresh, fully transparent sprite buffer.
    pub fn new(width: usize, height: usize) -> (b: SingleImageBuffer)
        requires
            width * height <= usize::MAX,
        ensures
            b.wf(),
            b.spec_width() == width,
            b.spec_height() == height,
            b@ == cleared_grid((width * height) as nat),
    {
        SingleImageBuffer { buffer: Buffer::new(width, height) }
    }

    /// Chunks a decoded row-major RGBA8 byte sequence of length
    /// `width * height * 4` into the sprite's pixels.
    pub fn from(frame: Vec<u8>, width: usize, height: usize) -> (b: SingleImageBuffer)
        requires
            width * height <= usize::MAX,
            frame@.len() == 4 * (width * height),
        ensures
            b.wf(),
            b.spec_width() == width,
            b.spec_height() == height,
            forall|i: int| 0 <= i < width * height ==> b@[i] == (Color(
                frame@[4 * i],
                frame@[4 * i + 1],
                frame@[4 * i + 2],
                frame@[4 * i + 3],
            )),
    {
        let n: usize = width * height;
        let flen: usize = frame.len();
        let mut pixels: Vec<Color> = Vec::new();
        let mut i: usize = 0;
        while i < n
            invariant
                n == width * height,
                flen == frame@.len(),
                flen == 4 * n,
                i <= n,
                pixels@.len() == i,
                forall|k: int| 0 <= k < i ==> pixels@[k] == (Color(
                    frame@[4 * k],
                    frame@[4 * k + 1],
                    frame@[4 * k + 2],
                    frame@[4 * k + 3],
                )),
            decreases n - i,
        {
            let base: usize = 4 * i;
            pixels.push(Color(frame[base], frame[base + 1], frame[base + 2], frame[base + 3]));
            i = i + 1;
        }
        SingleImageBuffer { buffer: Buffer::from(pixels, width, height) }
    }

    pub fn get_dimensions(&self) -> (r: (usize, usize))
        ensures
            r.0 == self.spec_width(),
            r.1 == self.spec_height(),
    {
        self.buffer.get_dimensions()
    }

    /// Replaces the pixel store and dimensions wholesale.
    pub fn set_buffer(&mut self, pixels: Vec<Color>, width: usize, height: usize)
        requires
            pixels@.len() == width * height,
        ensures
            final(self).wf(),
            final(self).spec_width() == width,
            final(self).spec_height() == height,
            final(self)@ == pixels@,
    {
        self.buffer.set_buffer(pixels, width, height);
    }

    /// Composites this sprite over the camera at `(x, y)`; see
    /// [`Buffer::blit`].
    pub fn blend(&self, other: &mut CamBuffer, x: i32, y: i32)
        requires
            self.wf(),
            old(other).wf(),
        ensures
            final(other).wf(),
            final(other).spec_width() == old(other).spec_width(),
            final(other).spec_height() == old(other).spec_height(),
            final(other).spec_offset() == old(other).spec_offset(),
            final(other)@ == blit_spec(
                old(other)@,
                old(other).spec_width() as int,
                old(other).spec_height() as int,
                self@,
                self.spec_width() as int,
                self.spec_height() as int,
                x + old(other).spec_offset().x,
                y + old(other).spec_offset().y,
            ),
    {
        self.buffer.blit(other, x, y);
    }
}

impl BufferProvider for SingleImageBuffer {
    open spec fn provided_buffer(&self) -> Buffer {
        self.spec_buffer()
    }

    fn get_buffer(&self) -> (r: &Buffer) {
        &self.buffer
    }
}

} // verus!
