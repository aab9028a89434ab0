//! Owned pixel buffer with bounds-checked writes and filled-circle
//! rasterization.
//!
//! The buffer is row-major and channel-interleaved: the byte for channel `c`
//! of the pixel at column `x`, row `y` sits at `(y * width + x) * channels + c`.
//! Out-of-bounds pixel writes are silently dropped, never an error.

use vstd::arithmetic::div_mod::{
    lemma_fundamental_div_mod, lemma_fundamental_div_mod_converse, lemma_mod_bound,
    lemma_multiply_divide_lt,
};
use vstd::prelude::*;

verus! {

/// Byte offset of channel `c` of the pixel at column `x`, row `y` in a buffer
/// of the given width and channel count.
pub open spec fn tex_index(width: int, channels: int, x: int, y: int, c: int) -> int {
    (y * width + x) * channels + c
}

/// Whether the filled circle of the given center and radius covers the pixel
/// at `(x, y)`: squared distance at most `radius * radius`.  A negative radius
/// covers nothing.
pub open spec fn circle_covers(cx: int, cy: int, radius: int, x: int, y: int) -> bool {
    radius >= 0 && (x - cx) * (x - cx) + (y - cy) * (y - cy) <= radius * radius
}

/// The buffer `data` with the `channels` bytes starting at `base` replaced by
/// `color`, all other bytes kept.
pub open spec fn pixel_write(data: Seq<u8>, base: int, channels: int, color: Seq<u8>) -> Seq<u8> {
    Seq::new(data.len(), |k: int| if base <= k < base + channels {
        color[k - base]
    } else {
        data[k]
    })
}

/// The buffer `data` with every pixel covered by the circle set to `color`
/// and every other byte kept.  Each byte index is decoded into its pixel
/// coordinates and channel to decide whether it is painted.
pub open spec fn circle_painted(
    width: int,
    channels: int,
    data: Seq<u8>,
    cx: int,
    cy: int,
    radius: int,
    color: Seq<u8>,
) -> Seq<u8> {
    Seq::new(data.len(), |k: int| {
        let p = k / channels;
        let c = k % channels;
        let x = p % width;
        let y = p / width;
        if circle_covers(cx, cy, radius, x, y) {
            color[c]
        } else {
            data[k]
        }
    })
}

/// The row-major scan of the circle's bounding box has already passed the
/// pixel at `(x, y)`: either its row is done, or the scan within its row has
/// moved past its column.  Only covered pixels are painted, and a covered
/// pixel always lies within the bounding box.
pub open spec fn scan_painted(
    cx: int,
    cy: int,
    radius: int,
    dy: int,
    dx: int,
    x: int,
    y: int,
) -> bool {
    circle_covers(cx, cy, radius, x, y) && (y - cy < dy || (y - cy == dy && x - cx < dx))
}

/// A covered pixel lies inside the circle's bounding box.
proof fn lemma_disc_bounds(cx: int, cy: int, radius: int, x: int, y: int)
    requires
        circle_covers(cx, cy, radius, x, y),
    ensures
        cx - radius <= x <= cx + radius,
        cy - radius <= y <= cy + radius,
{
    assert(cx - radius <= x <= cx + radius && cy - radius <= y <= cy + radius)
        by (nonlinear_arith)
        requires
            radius >= 0,
            (x - cx) * (x - cx) + (y - cy) * (y - cy) <= radius * radius,
    ;
}

/// A byte offset built from in-range coordinates lies inside the buffer.
proof fn lemma_tex_index_bounds(width: int, height: int, channels: int, x: int, y: int, c: int)
    requires
        0 <= x < width,
        0 <= y < height,
        0 <= c < channels,
    ensures
        0 <= tex_index(width, channels, x, y, c) < width * height * channels,
{
    assert(0 <= (y * width + x) * channels + c < width * height * channels)
        by (nonlinear_arith)
        requires
            0 <= x < width,
            0 <= y < height,
            0 <= c < channels,
    ;
}

/// Division and remainder recover the coordinates that a byte offset was
/// built from.
proof fn lemma_tex_index_converse(width: int, channels: int, x: int, y: int, c: int)
    requires
        0 <= x < width,
        0 <= y,
        0 <= c < channels,
    ensures
        tex_index(width, channels, x, y, c) % channels == c,
        tex_index(width, channels, x, y, c) / channels == y * width + x,
        (y * width + x) % width == x,
        (y * width + x) / width == y,
{
    let t = tex_index(width, channels, x, y, c);
    lemma_fundamental_div_mod_converse(t, channels, y * width + x, c);
    lemma_fundamental_div_mod_converse(y * width + x, width, y, x);
}

/// Every byte offset inside the buffer decodes to in-range coordinates that
/// rebuild it.
proof fn lemma_tex_decompose(width: int, height: int, channels: int, k: int)
    requires
        0 <= width,
        0 <= height,
        0 <= channels,
        0 <= k < width * height * channels,
    ensures
        0 <= k % channels < channels,
        0 <= (k / channels) % width < width,
        0 <= (k / channels) / width < height,
        tex_index(width, channels, (k / channels) % width, (k / channels) / width, k % channels)
            == k,
{
    assert(width > 0 && height > 0 && channels > 0) by (nonlinear_arith)
        requires
            0 <= width,
            0 <= height,
            0 <= channels,
            0 <= k < width * height * channels,
    ;
    lemma_mod_bound(k, channels);
    lemma_fundamental_div_mod(k, channels);
    let p = k / channels;
    assert(p >= 0) by (nonlinear_arith)
        requires
            k == channels * p + k % channels,
            0 <= k % channels < channels,
            k >= 0,
            channels > 0,
    ;
    assert(channels * (width * height) == width * height * channels) by (nonlinear_arith);
    lemma_multiply_divide_lt(k, channels, width * height);
    lemma_mod_bound(p, width);
    lemma_fundamental_div_mod(p, width);
    let y = p / width;
    assert(y >= 0) by (nonlinear_arith)
        requires
            p == width * y + p % width,
            0 <= p % width < width,
            p >= 0,
            width > 0,
    ;
    lemma_multiply_divide_lt(p, width, height);
    assert(tex_index(width, channels, p % width, y, k % channels) == k) by (nonlinear_arith)
        requires
            k == channels * p + k % channels,
            p == width * y + p % width,
            tex_index(width, channels, p % width, y, k % channels) == (y * width + p % width)
                * channels + k % channels,
    ;
}

/// One step of the row scan: after writing `color` to the pixel at
/// `(cx + dx, cy + dy)` (a covered, possibly out-of-image pixel), the buffer
/// matches the scan state advanced one column.
proof fn lemma_row_step(
    orig: Seq<u8>,
    prev: Seq<u8>,
    cur: Seq<u8>,
    w: int,
    h: int,
    ch: int,
    cx: int,
    cy: int,
    radius: int,
    dy: int,
    dx: int,
    color: Seq<u8>,
)
    requires
        orig.len() == w * h * ch,
        prev.len() == orig.len(),
        0 <= w,
        0 <= h,
        0 <= ch,
        color.len() >= ch,
        0 <= radius,
        -radius <= dy <= radius,
        -radius <= dx <= radius,
        dx * dx + dy * dy <= radius * radius,
        (0 <= cx + dx < w && 0 <= cy + dy < h) ==> cur == pixel_write(
            prev,
            tex_index(w, ch, cx + dx, cy + dy, 0),
            ch,
            color,
        ),
        !(0 <= cx + dx < w && 0 <= cy + dy < h) ==> cur == prev,
        forall|x: int, y: int, c: int|
            #![trigger tex_index(w, ch, x, y, c)]
            (0 <= x < w && 0 <= y < h && 0 <= c < ch) ==> prev[tex_index(w, ch, x, y, c)] == (
            if scan_painted(cx, cy, radius, dy, dx, x, y) {
                color[c]
            } else {
                orig[tex_index(w, ch, x, y, c)]
            }),
    ensures
        cur.len() == orig.len(),
        forall|x: int, y: int, c: int|
            #![trigger tex_index(w, ch, x, y, c)]
            (0 <= x < w && 0 <= y < h && 0 <= c < ch) ==> cur[tex_index(w, ch, x, y, c)] == (
            if scan_painted(cx, cy, radius, dy, dx + 1, x, y) {
                color[c]
            } else {
                orig[tex_index(w, ch, x, y, c)]
            }),
{
    let px = cx + dx;
    let py = cy + dy;
    assert(circle_covers(cx, cy, radius, px, py));
    assert forall|x: int, y: int, c: int|
        (0 <= x < w && 0 <= y < h && 0 <= c < ch) implies cur[#[trigger] tex_index(w, ch, x, y, c)]
        == (if scan_painted(cx, cy, radius, dy, dx + 1, x, y) {
        color[c]
    } else {
        orig[tex_index(w, ch, x, y, c)]
    }) by {
        let t = tex_index(w, ch, x, y, c);
        lemma_tex_index_bounds(w, h, ch, x, y, c);
        if x == px && y == py {
            let base = tex_index(w, ch, px, py, 0);
            assert(t == base + c);
            assert(cur[t] == color[c]);
        } else {
            assert(scan_painted(cx, cy, radius, dy, dx + 1, x, y) == scan_painted(
                cx,
                cy,
                radius,
                dy,
                dx,
                x,
                y,
            ));
            if 0 <= px < w && 0 <= py < h {
                let base = tex_index(w, ch, px, py, 0);
                if base <= t < base + ch {
                    let r = t - base;
                    assert(tex_index(w, ch, px, py, r) == t);
                    lemma_tex_index_converse(w, ch, x, y, c);
                    lemma_tex_index_converse(w, ch, px, py, r);
                    assert(y * w + x == py * w + px);
                    assert(false);
                }
                assert(cur[t] == prev[t]);
            } else {
                assert(cur[t] == prev[t]);
            }
        }
    }
}

/// A `width * height * channels` byte image, row-major and
/// channel-interleaved.
pub struct Texture {
    pub width: i32,
    pub height: i32,
    pub channels: i32,
    pub data: Vec<u8>,
}

impl Texture {
    /// Dimensions are non-negative, the byte count fits in `i32` (as the
    /// constructor's multiplication demands), and the buffer holds exactly
    /// one byte per channel per pixel.
    pub open spec fn wf(&self) -> bool {
        &&& 0 <= self.width
        &&& 0 <= self.height
        &&& 0 <= self.channels
        &&& self.width * self.height <= i32::MAX
        &&& self.width * self.height * self.channels <= i32::MAX
        &&& self.data@.len() == self.width * self.height * self.channels
    }

    /// Whether `(x, y, c)` names a channel byte inside the image.
    pub open spec fn valid_coord(&self, x: int, y: int, c: int) -> bool {
        &&& 0 <= x < self.width
        &&& 0 <= y < self.height
        &&& 0 <= c < self.channels
    }

    /// Fresh all-zero image of the given dimensions.
    pub fn new(width: i32, height: i32, channels: i32) -> (t: Texture)
        requires
            0 <= width,
            0 <= height,
            0 <= channels,
            width * height <= i32::MAX,
            width * height * channels <= i32::MAX,
        ensures
            t.wf(),
            t.width == width,
            t.height == height,
            t.channels == channels,
            t.data@ == Seq::new((width * height * channels) as nat, |k: int| 0u8),
    {
        proof {
            assert(0 <= width * height && 0 <= width * height * channels) by (nonlinear_arith)
                requires
                    0 <= width,
                    0 <= height,
                    0 <= channels,
            ;
        }
        let size = ((width * height) * channels) as usize;
        let mut data: Vec<u8> = Vec::new();
        let mut i: usize = 0;
        while i < size
            invariant
                i <= size,
                data@ == Seq::new(i as nat, |k: int| 0u8),
            decreases size - i,
        {
            data.push(0u8);
            i = i + 1;
            proof {
                assert(data@ =~= Seq::new(i as nat, |k: int| 0u8));
            }
        }
        Texture { width, height, channels, data }
    }

    /// Byte offset of pixel `(x, y)`'s first channel; in bounds together with
    /// the `channels` bytes that follow it.
    fn index(&self, x: i32, y: i32) -> (r: usize)
        requires
            self.wf(),
            0 <= x < self.width,
            0 <= y < self.height,
        ensures
            r == tex_index(self.width as int, self.channels as int, x as int, y as int, 0),
            r + self.channels <= self.data@.len(),
    {
        proof {
            assert(0 <= y * self.width + x <= self.width * self.height - 1 && 0 <= (y
                * self.width + x) * self.channels && (y * self.width + x) * self.channels
                + self.channels <= self.width * self.height * self.channels)
                by (nonlinear_arith)
                requires
                    0 <= x < self.width,
                    0 <= y < self.height,
                    0 <= self.channels,
            ;
        }
        ((y * self.width + x) * self.channels) as usize
    }

    /// Paint `color` over exactly the pixels whose squared distance from
    /// `(cx, cy)` is at most `radius * radius`, leaving every other byte at
    /// its prior value.  A negative radius paints nothing.
    pub fn draw_circle(&mut self, cx: i32, cy: i32, radius: i32, color: &[u8])
        requires
            old(self).wf(),
            color@.len() >= old(self).channels,
            2 * radius * radius <= i32::MAX,
            radius >= 0 ==> i32::MIN <= cx - radius && cx + radius <= i32::MAX && i32::MIN <= cy
                - radius && cy + radius <= i32::MAX,
        ensures
            final(self).wf(),
            final(self).width == old(self).width,
            final(self).height == old(self).height,
            final(self).channels == old(self).channels,
            final(self).data@ == circle_painted(
                old(self).width as int,
                old(self).channels as int,
                old(self).data@,
                cx as int,
                cy as int,
                radius as int,
                color@,
            ),
            forall|x: int, y: int, c: int|
                #![trigger tex_index(old(self).width as int, old(self).channels as int, x, y, c)]
                old(self).valid_coord(x, y, c) ==> final(self).data@[tex_index(
                    old(self).width as int,
                    old(self).channels as int,
                    x,
                    y,
                    c,
                )] == (if circle_covers(cx as int, cy as int, radius as int, x, y) {
                    color@[c]
                } else {
                    old(self).data@[tex_index(
                        old(self).width as int,
                        old(self).channels as int,
                        x,
                        y,
                        c,
                    )]
                }),
    {
        let ghost w = old(self).width as int;
        let ghost h = old(self).height as int;
        let ghost ch = old(self).channels as int;
        proof {
            assert(0 <= radius * radius <= 1073741823 && -32768 <= radius <= 32768)
                by (nonlinear_arith)
                requires
                    2 * radius * radius <= i32::MAX,
            ;
        }
        let r2: i32 = radius * radius;
        let mut dy: i32 = -radius;
        proof {
            assert forall|x: int, y: int, c: int|
                old(self).valid_coord(x, y, c) implies !scan_painted(
                cx as int,
                cy as int,
                radius as int,
                dy as int,
                -radius as int,
                x,
                y,
            ) by {
                if circle_covers(cx as int, cy as int, radius as int, x, y) {
                    lemma_disc_bounds(cx as int, cy as int, radius as int, x, y);
                }
            }
        }
        while dy <= radius
            invariant
                self.wf(),
                self.width == old(self).width,
                self.height == old(self).height,
                self.channels == old(self).channels,
                self.data@.len() == old(self).data@.len(),
                color@.len() >= ch,
                w == old(self).width as int,
                h == old(self).height as int,
                ch == old(self).channels as int,
                r2 == radius * radius,
                2 * radius * radius <= i32::MAX,
                radius >= 0 ==> i32::MIN <= cx - radius && cx + radius <= i32::MAX && i32::MIN
                    <= cy - radius && cy + radius <= i32::MAX,
                -32768 <= radius <= 32768,
                radius >= 0 ==> -radius <= dy <= radius + 1,
                radius < 0 ==> dy == -radius,
                forall|x: int, y: int, c: int|
                    #![trigger tex_index(w, ch, x, y, c)]
                    old(self).valid_coord(x, y, c) ==> self.data@[tex_index(w, ch, x, y, c)] == (
                    if scan_painted(cx as int, cy as int, radius as int, dy as int, -radius as int, x, y) {
                        color@[c]
                    } else {
                        old(self).data@[tex_index(w, ch, x, y, c)]
                    }),
            decreases radius + 1 - dy,
        {
            let mut dx: i32 = -radius;
            while dx <= radius
                invariant
                    self.wf(),
                    self.width == old(self).width,
                    self.height == old(self).height,
                    self.channels == old(self).channels,
                    self.data@.len() == old(self).data@.len(),
                    color@.len() >= ch,
                    w == old(self).width as int,
                    h == old(self).height as int,
                    ch == old(self).channels as int,
                    r2 == radius * radius,
                    2 * radius * radius <= i32::MAX,
                    i32::MIN <= cx - radius && cx + radius <= i32::MAX && i32::MIN <= cy - radius
                        && cy + radius <= i32::MAX,
                    -32768 <= radius <= 32768,
                    0 <= radius,
                    -radius <= dy <= radius,
                    -radius <= dx <= radius + 1,
                    forall|x: int, y: int, c: int|
                        #![trigger tex_index(w, ch, x, y, c)]
                        old(self).valid_coord(x, y, c) ==> self.data@[tex_index(w, ch, x, y, c)]
                            == (if scan_painted(cx as int, cy as int, radius as int, dy as int, dx as int, x, y) {
                            color@[c]
                        } else {
                            old(self).data@[tex_index(w, ch, x, y, c)]
                        }),
                decreases radius + 1 - dx,
            {
                proof {
                    assert(0 <= dx * dx <= radius * radius && 0 <= dy * dy <= radius * radius
                        && radius * radius <= 1073741823) by (nonlinear_arith)
                        requires
                            -radius <= dx <= radius,
                            -radius <= dy <= radius,
                            0 <= radius,
                            2 * radius * radius <= i32::MAX,
                    ;
                }
                if dx * dx + dy * dy <= r2 {
                    let x = cx + dx;
                    let y = cy + dy;
                    let ghost prev = self.data@;
                    self.set_pixel(x, y, color);
                    proof {
                        lemma_row_step(
                            old(self).data@,
                            prev,
                            self.data@,
                            w,
                            h,
                            ch,
                            cx as int,
                            cy as int,
                            radius as int,
                            dy as int,
                            dx as int,
                            color@,
                        );
                    }
                } else {
                    proof {
                        assert forall|x: int, y: int, c: int|
                            old(self).valid_coord(x, y, c) implies self.data@[#[trigger] tex_index(
                            w,
                            ch,
                            x,
                            y,
                            c,
                        )] == (if scan_painted(
                            cx as int,
                            cy as int,
                            radius as int,
                            dy as int,
                            dx + 1,
                            x,
                            y,
                        ) {
                            color@[c]
                        } else {
                            old(self).data@[tex_index(w, ch, x, y, c)]
                        }) by {
                            assert(!circle_covers(cx as int, cy as int, radius as int, cx + dx, cy + dy));
                        }
                    }
                }
                dx = dx + 1;
            }
            proof {
                assert forall|x: int, y: int, c: int|
                    old(self).valid_coord(x, y, c) implies (scan_painted(
                    cx as int,
                    cy as int,
                    radius as int,
                    dy as int,
                    radius + 1 as int,
                    x,
                    y,
                ) == scan_painted(
                    cx as int,
                    cy as int,
                    radius as int,
                    dy + 1 as int,
                    -radius as int,
                    x,
                    y,
                )) by {
                    if circle_covers(cx as int, cy as int, radius as int, x, y) {
                        lemma_disc_bounds(cx as int, cy as int, radius as int, x, y);
                    }
                }
            }
            dy = dy + 1;
        }
        proof {
            assert forall|x: int, y: int, c: int|
                old(self).valid_coord(x, y, c) implies self.data@[#[trigger] tex_index(
                w,
                ch,
                x,
                y,
                c,
            )] == (if circle_covers(cx as int, cy as int, radius as int, x, y) {
                color@[c]
            } else {
                old(self).data@[tex_index(w, ch, x, y, c)]
            }) by {
                if circle_covers(cx as int, cy as int, radius as int, x, y) {
                    lemma_disc_bounds(cx as int, cy as int, radius as int, x, y);
                }
            }
            let painted = circle_painted(w, ch, old(self).data@, cx as int, cy as int, radius as int, color@);
            assert forall|k: int| 0 <= k < self.data@.len() implies self.data@[k] == painted[k] by {
                lemma_tex_decompose(w, h, ch, k);
                let c = k % ch;
                let x = (k / ch) % w;
                let y = (k / ch) / w;
                if circle_covers(cx as int, cy as int, radius as int, x, y) {
                    lemma_disc_bounds(cx as int, cy as int, radius as int, x, y);
                }
                assert(scan_painted(cx as int, cy as int, radius as int, dy as int, -radius as int, x, y)
                    == circle_covers(cx as int, cy as int, radius as int, x, y));
                assert(self.data@[tex_index(w, ch, x, y, c)] == (if circle_covers(
                    cx as int,
                    cy as int,
                    radius as int,
                    x,
                    y,
                ) {
                    color@[c]
                } else {
                    old(self).data@[tex_index(w, ch, x, y, c)]
                }));
            }
            assert(self.data@ =~= painted);
        }
    }

    /// Overwrite the `channels` bytes of pixel `(x, y)` with `color`; a pixel
    /// outside the image is silently ignored.
    pub fn set_pixel(&mut self, x: i32, y: i32, color: &[u8])
        requires
            old(self).wf(),
            color@.len() >= old(self).channels,
        ensures
            final(self).wf(),
            final(self).width == old(self).width,
            final(self).height == old(self).height,
            final(self).channels == old(self).channels,
            (0 <= x < old(self).width && 0 <= y < old(self).height) ==> final(self).data@
                == pixel_write(
                old(self).data@,
                tex_index(
                    old(self).width as int,
                    old(self).channels as int,
                    x as int,
                    y as int,
                    0,
                ),
                old(self).channels as int,
                color@,
            ),
            !(0 <= x < old(self).width && 0 <= y < old(self).height) ==> final(self).data@ == old(
                self,
            ).data@,
    {
        if x < 0 || y < 0 || x >= self.width || y >= self.height {
            return ;
        }
        let idx = self.index(x, y);
        let channels = self.channels as usize;
        let mut c: usize = 0;
        while c < channels
            invariant
                self.wf(),
                self.width == old(self).width,
                self.height == old(self).height,
                self.channels == old(self).channels,
                c <= channels,
                channels == self.channels as int,
                color@.len() >= channels,
                idx == tex_index(
                    self.width as int,
                    self.channels as int,
                    x as int,
                    y as int,
                    0,
                ),
                idx + channels <= self.data@.len(),
                self.data@.len() == old(self).data@.len(),
                forall|k: int|
                    0 <= k < self.data@.len() ==> self.data@[k] == (if idx <= k < idx + c {
                        color@[k - idx]
                    } else {
                        old(self).data@[k]
                    }),
            decreases channels - c,
        {
            self.data[idx + c] = color[c];
            c = c + 1;
        }
        proof {
            assert(self.data@ =~= pixel_write(
                old(self).data@,
                tex_index(
                    old(self).width as int,
                    old(self).channels as int,
                    x as int,
                    y as int,
                    0,
                ),
                old(self).channels as int,
                color@,
            ));
        }
    }
}

} // verus!
