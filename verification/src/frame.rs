//! The frame buffer: an owned, resizable sequence of RGBA cells (four bytes
//! per pixel), together with the drawing primitives `set_background` and
//! `set_rect` that a per-frame callback uses to paint it.

use vstd::prelude::*;

verus! {

/// Side length, in pixels, of the square that `set_rect` draws.
pub const RECT_SIZE: u32 = 50;

/// Low eight bits of a color channel value. Out-of-range inputs wrap around
/// (unsigned 8-bit truncation); they are not saturated.
pub open spec fn channel_byte(v: i64) -> u8 {
    (v & 0xff) as u8
}

/// Byte index of the first component of the cell at `(px, py)` in a buffer
/// `w` pixels wide.
pub open spec fn cell_index(w: int, px: int, py: int) -> int {
    (py * w + px) * 4
}

/// The four bytes of the cell at `(px, py)` hold the color `(r, g, b, a)`.
pub open spec fn cell_is(s: Seq<u8>, w: int, px: int, py: int, r: u8, g: u8, b: u8, a: u8) -> bool {
    &&& s[cell_index(w, px, py)] == r
    &&& s[cell_index(w, px, py) + 1] == g
    &&& s[cell_index(w, px, py) + 2] == b
    &&& s[cell_index(w, px, py) + 3] == a
}

/// The four bytes of the cell at `(px, py)` are the same in `s` and `t`.
pub open spec fn cell_unchanged(s: Seq<u8>, t: Seq<u8>, w: int, px: int, py: int) -> bool {
    &&& t[cell_index(w, px, py)] == s[cell_index(w, px, py)]
    &&& t[cell_index(w, px, py) + 1] == s[cell_index(w, px, py) + 1]
    &&& t[cell_index(w, px, py) + 2] == s[cell_index(w, px, py) + 2]
    &&& t[cell_index(w, px, py) + 3] == s[cell_index(w, px, py) + 3]
}

/// `(px, py)` lies inside a buffer of `w` by `h` pixels.
pub open spec fn in_bounds(w: int, h: int, px: int, py: int) -> bool {
    0 <= px < w && 0 <= py < h
}

/// `(px, py)` lies inside the square of side `RECT_SIZE` whose top-left
/// corner is `(x, y)`.
pub open spec fn in_square(x: int, y: int, px: int, py: int) -> bool {
    x <= px < x + RECT_SIZE && y <= py < y + RECT_SIZE
}

/// A cell index is within a buffer of `w * h * 4` bytes.
pub proof fn lemma_cell_index_bounds(w: int, h: int, px: int, py: int)
    requires
        in_bounds(w, h, px, py),
    ensures
        0 <= cell_index(w, px, py),
        cell_index(w, px, py) + 4 <= w * h * 4,
{
    assert(0 <= (py * w + px) * 4 && (py * w + px) * 4 + 4 <= w * h * 4) by (nonlinear_arith)
        requires
            0 <= px < w,
            0 <= py < h,
    ;
}

/// Distinct cells occupy disjoint four-byte ranges.
pub proof fn lemma_cell_index_disjoint(w: int, px1: int, py1: int, px2: int, py2: int)
    requires
        0 <= px1 < w,
        0 <= px2 < w,
        0 <= py1,
        0 <= py2,
        px1 != px2 || py1 != py2,
    ensures
        cell_index(w, px1, py1) + 4 <= cell_index(w, px2, py2) || cell_index(w, px2, py2) + 4
            <= cell_index(w, px1, py1),
{
    assert((py1 * w + px1) * 4 + 4 <= (py2 * w + px2) * 4 || (py2 * w + px2) * 4 + 4 <= (py1 * w
        + px1) * 4) by (nonlinear_arith)
        requires
            0 <= px1 < w,
            0 <= px2 < w,
            0 <= py1,
            0 <= py2,
            px1 != px2 || py1 != py2,
    ;
}

/// The drawing surface handed to the per-frame callback: a mutable RGBA
/// buffer of `width * height` cells, four bytes each.
pub struct FrameCtx {
    pub width: u32,
    pub height: u32,
    pub frame: Vec<u8>,
}

impl FrameCtx {
    /// The buffer holds exactly four bytes for each of its cells.
    pub open spec fn wf(&self) -> bool {
        self.frame@.len() == self.width * self.height * 4
    }

    /// A fresh, fully transparent-black buffer of the given dimensions.
    pub fn new(width: u32, height: u32) -> (fb: FrameCtx)
        requires
            width * height * 4 <= usize::MAX,
        ensures
            fb.width == width,
            fb.height == height,
            fb.wf(),
            forall|i: int| 0 <= i < fb.frame@.len() ==> fb.frame@[i] == 0u8,
    {
        let len: usize = (width as usize) * (height as usize) * 4;
        FrameCtx { width, height, frame: vec![0u8; len] }
    }

    /// Resize the backing storage to the new pixel count. Resizing to the
    /// current dimensions leaves the contents untouched; otherwise the buffer
    /// is reallocated and cleared to transparent black.
    pub fn resize(&mut self, width: u32, height: u32)
        requires
            width >= 1,
            height >= 1,
            width * height * 4 <= usize::MAX,
        ensures
            final(self).width == width,
            final(self).height == height,
            final(self).wf(),
            width == old(self).width && height == old(self).height && old(self).wf()
                ==> final(self).frame@ == old(self).frame@,
    {
        let len: usize = (width as usize) * (height as usize) * 4;
        if width == self.width && height == self.height && self.frame.len() == len {
            return ;
        }
        self.width = width;
        self.height = height;
        self.frame = vec![0u8; len];
    }

    /// Write one cell. Every other cell keeps its bytes.
    fn write_cell(&mut self, px: u32, py: u32, r: u8, g: u8, b: u8, a: u8)
        requires
            old(self).wf(),
            px < old(self).width,
            py < old(self).height,
        ensures
            final(self).wf(),
            final(self).width == old(self).width,
            final(self).height == old(self).height,
            final(self).frame@.len() == old(self).frame@.len(),
            cell_is(
                final(self).frame@,
                old(self).width as int,
                px as int,
                py as int,
                r,
                g,
                b,
                a,
            ),
            forall|qx: int, qy: int|
                in_bounds(old(self).width as int, old(self).height as int, qx, qy) && !(qx
                    == px as int && qy == py as int) ==> cell_unchanged(
                    old(self).frame@,
                    final(self).frame@,
                    old(self).width as int,
                    qx,
                    qy,
                ),
    {
        proof {
            lemma_cell_index_bounds(
                self.width as int,
                self.height as int,
                px as int,
                py as int,
            );
        }
        let len: usize = self.frame.len();
        let idx: usize = ((py as usize) * (self.width as usize) + (px as usize)) * 4;
        self.frame[idx] = r;
        self.frame[idx + 1] = g;
        self.frame[idx + 2] = b;
        self.frame[idx + 3] = a;
        proof {
            assert forall|qx: int, qy: int|
                in_bounds(old(self).width as int, old(self).height as int, qx, qy) && !(qx
                    == px as int && qy == py as int) implies cell_unchanged(
                old(self).frame@,
                self.frame@,
                old(self).width as int,
                qx,
                qy,
            ) by {
                lemma_cell_index_bounds(old(self).width as int, old(self).height as int, qx, qy);
                lemma_cell_index_disjoint(
                    old(self).width as int,
                    qx,
                    qy,
                    px as int,
                    py as int,
                );
            }
        }
    }

    /// Fill the whole buffer with an opaque color. Each channel value is
    /// truncated to its low eight bits, so out-of-range inputs wrap around.
    pub fn set_background(&mut self, r: i64, g: i64, b: i64)
        requires
            old(self).wf(),
        ensures
            final(self).wf(),
            final(self).width == old(self).width,
            final(self).height == old(self).height,
            final(self).frame@.len() == old(self).frame@.len(),
            forall|px: int, py: int|
                in_bounds(old(self).width as int, old(self).height as int, px, py) ==> cell_is(
                    final(self).frame@,
                    old(self).width as int,
                    px,
                    py,
                    channel_byte(r),
                    channel_byte(g),
                    channel_byte(b),
                    255u8,
                ),
    {
        assert(0i64 <= (r & 0xff) < 256i64) by (bit_vector);
        assert(0i64 <= (g & 0xff) < 256i64) by (bit_vector);
        assert(0i64 <= (b & 0xff) < 256i64) by (bit_vector);
        let rr: u8 = (r & 0xff) as u8;
        let gg: u8 = (g & 0xff) as u8;
        let bb: u8 = (b & 0xff) as u8;
        let mut y: u32 = 0;
        while y < self.height
            invariant
                self.wf(),
                self.width == old(self).width,
                self.height == old(self).height,
                self.frame@.len() == old(self).frame@.len(),
                y <= self.height,
                rr == channel_byte(r),
                gg == channel_byte(g),
                bb == channel_byte(b),
                forall|px: int, py: int|
                    in_bounds(self.width as int, self.height as int, px, py) && py < y ==> cell_is(
                        self.frame@,
                        self.width as int,
                        px,
                        py,
                        rr,
                        gg,
                        bb,
                        255u8,
                    ),
            decreases self.height - y,
        {
            let mut x: u32 = 0;
            while x < self.width
                invariant
                    self.wf(),
                    self.width == old(self).width,
                    self.height == old(self).height,
                    self.frame@.len() == old(self).frame@.len(),
                    x <= self.width,
                    y < self.height,
                    rr == channel_byte(r),
                    gg == channel_byte(g),
                    bb == channel_byte(b),
                    forall|px: int, py: int|
                        in_bounds(self.width as int, self.height as int, px, py) && (py < y || (py
                            == y && px < x)) ==> cell_is(
                            self.frame@,
                            self.width as int,
                            px,
                            py,
                            rr,
                            gg,
                            bb,
                            255u8,
                        ),
                decreases self.width - x,
            {
                self.write_cell(x, y, rr, gg, bb, 255);
                x = x + 1;
            }
            y = y + 1;
        }
    }

    /// Draw an opaque white square of side `RECT_SIZE` with its top-left
    /// corner at `(x, y)` in buffer space. Cells of the square outside the
    /// buffer are silently skipped; every cell outside the square keeps its
    /// bytes.
    pub fn set_rect(&mut self, x: i64, y: i64)
        requires
            old(self).wf(),
        ensures
            final(self).wf(),
            final(self).width == old(self).width,
            final(self).height == old(self).height,
            final(self).frame@.len() == old(self).frame@.len(),
            forall|px: int, py: int|
                in_bounds(old(self).width as int, old(self).height as int, px, py) && in_square(
                    x as int,
                    y as int,
                    px,
                    py,
                ) ==> cell_is(
                    final(self).frame@,
                    old(self).width as int,
                    px,
                    py,
                    255u8,
                    255u8,
                    255u8,
                    255u8,
                ),
            forall|px: int, py: int|
                in_bounds(old(self).width as int, old(self).height as int, px, py) && !in_square(
                    x as int,
                    y as int,
                    px,
                    py,
                ) ==> cell_unchanged(
                    old(self).frame@,
                    final(self).frame@,
                    old(self).width as int,
                    px,
                    py,
                ),
    {
        if x >= self.width as i64 || y >= self.height as i64 {
            return ;
        }
        let mut j: i64 = 0;
        while j < RECT_SIZE as i64
            invariant
                self.wf(),
                self.width == old(self).width,
                self.height == old(self).height,
                self.frame@.len() == old(self).frame@.len(),
                0 <= j <= RECT_SIZE as i64,
                x < self.width as i64,
                y < self.height as i64,
                forall|px: int, py: int|
                    in_bounds(self.width as int, self.height as int, px, py) && in_square(
                        x as int,
                        y as int,
                        px,
                        py,
                    ) && py < y + j ==> cell_is(
                        self.frame@,
                        self.width as int,
                        px,
                        py,
                        255u8,
                        255u8,
                        255u8,
                        255u8,
                    ),
                forall|px: int, py: int|
                    in_bounds(self.width as int, self.height as int, px, py) && !in_square(
                        x as int,
                        y as int,
                        px,
                        py,
                    ) ==> cell_unchanged(
                        old(self).frame@,
                        self.frame@,
                        self.width as int,
                        px,
                        py,
                    ),
            decreases RECT_SIZE as i64 - j,
        {
            let mut i: i64 = 0;
            while i < RECT_SIZE as i64
                invariant
                    self.wf(),
                    self.width == old(self).width,
                    self.height == old(self).height,
                    self.frame@.len() == old(self).frame@.len(),
                    0 <= i <= RECT_SIZE as i64,
                    0 <= j < RECT_SIZE as i64,
                    x < self.width as i64,
                    y < self.height as i64,
                    forall|px: int, py: int|
                        in_bounds(self.width as int, self.height as int, px, py) && in_square(
                            x as int,
                            y as int,
                            px,
                            py,
                        ) && (py < y + j || (py == y + j && px < x + i)) ==> cell_is(
                            self.frame@,
                            self.width as int,
                            px,
                            py,
                            255u8,
                            255u8,
                            255u8,
                            255u8,
                        ),
                    forall|px: int, py: int|
                        in_bounds(self.width as int, self.height as int, px, py) && !in_square(
                            x as int,
                            y as int,
                            px,
                            py,
                        ) ==> cell_unchanged(
                            old(self).frame@,
                            self.frame@,
                            self.width as int,
                            px,
                            py,
                        ),
                decreases RECT_SIZE as i64 - i,
            {
                let px: i64 = x + i;
                let py: i64 = y + j;
                if px >= 0 && py >= 0 && px < self.width as i64 && py < self.height as i64 {
                    self.write_cell(px as u32, py as u32, 255, 255, 255, 255);
                }
                i = i + 1;
            }
            j = j + 1;
        }
    }

    /// The four bytes of the cell at `(px, py)`, as `(r, g, b, a)`.
    pub fn cell(&self, px: u32, py: u32) -> (c: (u8, u8, u8, u8))
        requires
            self.wf(),
            px < self.width,
            py < self.height,
        ensures
            cell_is(self.frame@, self.width as int, px as int, py as int, c.0, c.1, c.2, c.3),
    {
        proof {
            lemma_cell_index_bounds(
                self.width as int,
                self.height as int,
                px as int,
                py as int,
            );
        }
        let len: usize = self.frame.len();
        let idx: usize = ((py as usize) * (self.width as usize) + (px as usize)) * 4;
        (self.frame[idx], self.frame[idx + 1], self.frame[idx + 2], self.frame[idx + 3])
    }
}

} // verus!
