//! Procedural sprites: characters, vehicles and tile textures drawn pixel
//! by pixel into an RGBA canvas.
//!
//! Every drawing primitive is specified as a *layer*: the canvas after the
//! call is the canvas before it with the pixels of one shape recoloured.
//! A sprite is then exactly a stack of such layers over a blank canvas.

use image::{ImageBuffer, Rgba, RgbaImage};
use vstd::prelude::*;

verus! {

/// A pixel position (x, y).
pub type Pos = (u32, u32);

/// A pixel's channels: red, green, blue, alpha.
pub type Px = (u8, u8, u8, u8);

/// An RGBA pixel buffer (`image::RgbaImage`) that sprites are drawn into.
/// The buffer is held privately; contracts speak of it through
/// `canvas_pixels` and `canvas_size` only.
#[verifier::external_body]
pub struct Canvas {
    img: RgbaImage,
}

/// What a canvas holds: the pixel at each position inside it.
pub uninterp spec fn canvas_pixels(c: Canvas) -> Map<Pos, Px>;

/// The (width, height) a canvas was made with.
pub uninterp spec fn canvas_size(c: Canvas) -> Pos;

/// The PNG image that `bytes` encode, as its size and pixels; `None` when
/// they are no PNG that decodes.
pub uninterp spec fn decoded_png(bytes: Seq<u8>) -> Option<(Pos, Map<Pos, Px>)>;

/// Is `p` inside a canvas of this size?
pub open spec fn in_canvas(p: Pos, size: Pos) -> bool {
    p.0 < size.0 && p.1 < size.1
}

/// A canvas of this size with every pixel transparent black.
pub open spec fn blank(size: Pos) -> Map<Pos, Px> {
    Map::new(|p: Pos| in_canvas(p, size), |p: Pos| (0u8, 0u8, 0u8, 0u8))
}

/// The map holds exactly one pixel for each position of the canvas.
pub open spec fn covers(m: Map<Pos, Px>, size: Pos) -> bool {
    forall|p: Pos| #[trigger] m.contains_key(p) <==> in_canvas(p, size)
}

/// Largest canvas the pixel buffer can allocate: four bytes per pixel,
/// at most `isize::MAX` bytes.
pub open spec fn allocatable(width: u32, height: u32) -> bool {
    4 * width * height <= isize::MAX
}

impl Canvas {
    /// The canvas holds one pixel per position, and its size is one the
    /// buffer could allocate.
    pub open spec fn wf(self) -> bool {
        &&& covers(canvas_pixels(self), canvas_size(self))
        &&& allocatable(canvas_size(self).0, canvas_size(self).1)
    }

    /// `ImageBuffer::new`: a `width` x `height` buffer whose bytes are all
    /// zero. It allocates `4 * width * height` bytes and panics when that
    /// count overflows or exceeds `isize::MAX`, which `requires` excludes.
    #[verifier::external_body]
    fn blank_canvas(width: u32, height: u32) -> (c: Canvas)
        requires
            allocatable(width, height),
        ensures
            canvas_size(c) == (width, height),
            canvas_pixels(c) == blank((width, height)),
    {
        Canvas { img: ImageBuffer::new(width, height) }
    }

    /// `ImageBuffer::width` and `ImageBuffer::height`: the size the buffer
    /// was made with.
    #[verifier::external_body]
    fn dims(&self) -> (d: Pos)
        ensures
            d == canvas_size(*self),
    {
        (self.img.width(), self.img.height())
    }

    /// `ImageBuffer::put_pixel`: replaces the pixel at (x, y) and nothing
    /// else. It panics outside the buffer, which `requires` excludes.
    #[verifier::external_body]
    fn set_pixel(&mut self, x: u32, y: u32, c: Px)
        requires
            in_canvas((x, y), canvas_size(*old(self))),
        ensures
            canvas_size(*final(self)) == canvas_size(*old(self)),
            canvas_pixels(*final(self)) == canvas_pixels(*old(self)).insert((x, y), c),
    {
        self.img.put_pixel(x, y, Rgba([c.0, c.1, c.2, c.3]))
    }

    /// `ImageBuffer::get_pixel`: the pixel at (x, y). It panics outside the
    /// buffer, which `requires` excludes.
    #[verifier::external_body]
    fn pixel_at(&self, x: u32, y: u32) -> (c: Px)
        requires
            in_canvas((x, y), canvas_size(*self)),
        ensures
            c == canvas_pixels(*self)[(x, y)],
    {
        let p = self.img.get_pixel(x, y);
        (p.0[0], p.0[1], p.0[2], p.0[3])
    }

    /// `image::load_from_memory_with_format` with `ImageFormat::Png`, then
    /// `DynamicImage::to_rgba8`: the PNG image that `bytes` encode, as RGBA
    /// pixels, or `None` when they are no PNG that decodes. The format is
    /// fixed, so no format-detection or decoding hook registered with the
    /// crate is consulted, and the decoder's memory limit is a fixed default:
    /// the result depends on the bytes alone. An image over that limit is
    /// refused with an error rather than a panic. A decoded buffer is held in
    /// memory, so its size is one the buffer could allocate, and it has one
    /// pixel per position.
    #[verifier::external_body]
    fn decode_png(bytes: &[u8]) -> (r: Option<Canvas>)
        ensures
            r is None <==> decoded_png(bytes@) is None,
            r matches Some(c) ==> decoded_png(bytes@) == Some((canvas_size(c), canvas_pixels(c))) && c.wf(),
    {
        match image::load_from_memory_with_format(bytes, image::ImageFormat::Png) {
            Ok(img) => Some(Canvas { img: img.to_rgba8() }),
            Err(_) => None,
        }
    }

    /// The PNG image that `bytes` (a PNG file's contents) encode, or `None`
    /// when they are no PNG that decodes.
    pub fn decode(bytes: &[u8]) -> (r: Option<Canvas>)
        ensures
            r is None <==> decoded_png(bytes@) is None,
            r matches Some(c) ==> decoded_png(bytes@) == Some((canvas_size(c), canvas_pixels(c))) && c.wf(),
    {
        Canvas::decode_png(bytes)
    }

    /// The canvas width.
    pub fn width(&self) -> (w: u32)
        ensures
            w == canvas_size(*self).0,
    {
        self.dims().0
    }

    /// The canvas height.
    pub fn height(&self) -> (h: u32)
        ensures
            h == canvas_size(*self).1,
    {
        self.dims().1
    }

    /// The pixel at (x, y), or `None` outside the canvas.
    pub fn pixel(&self, x: u32, y: u32) -> (r: Option<Px>)
        requires
            self.wf(),
        ensures
            r == (if in_canvas((x, y), canvas_size(*self)) {
                Some(canvas_pixels(*self)[(x, y)])
            } else {
                None
            }),
    {
        let (w, h) = self.dims();
        if x < w && y < h {
            Some(self.pixel_at(x, y))
        } else {
            None
        }
    }
}

/// The pixels of a canvas row by row from the top-left corner: index `i`
/// holds the pixel at `(i % width, i / width)`.
pub open spec fn row_major(m: Map<Pos, Px>, size: Pos) -> Seq<Px> {
    Seq::new((size.0 * size.1) as nat, |i: int| m[((i % size.0 as int) as u32, (i / size.0 as int) as u32)])
}

impl Canvas {
    /// Every pixel of the canvas, row by row from the top-left corner.
    pub fn pixels(&self) -> (v: Vec<Px>)
        requires
            self.wf(),
        ensures
            v@ == row_major(canvas_pixels(*self), canvas_size(*self)),
    {
        let (w, h) = self.dims();
        let ghost m = canvas_pixels(*self);
        let mut v: Vec<Px> = Vec::new();
        let mut y: u32 = 0;
        proof {
            assert(0 <= w * h <= 4 * w * h) by (nonlinear_arith);
        }
        while y < h
            invariant
                y <= h,
                (w, h) == canvas_size(*self),
                m == canvas_pixels(*self),
                w * h <= isize::MAX,
                v.len() == y * w,
                forall|i: int|
                    0 <= i < v.len() ==> #[trigger] v@[i] == m[((i % w as int) as u32, (i / w as int) as u32)],
            decreases h - y,
        {
            let mut x: u32 = 0;
            while x < w
                invariant
                    x <= w,
                    y < h,
                    (w, h) == canvas_size(*self),
                    m == canvas_pixels(*self),
                    w * h <= isize::MAX,
                    v.len() == y * w + x,
                    forall|i: int|
                        0 <= i < v.len() ==> #[trigger] v@[i] == m[((i % w as int) as u32, (i / w as int) as u32)],
                decreases w - x,
            {
                proof {
                    assert(y * w + x < w * h) by (nonlinear_arith)
                        requires
                            x < w,
                            y < h,
                    ;
                    vstd::arithmetic::div_mod::lemma_fundamental_div_mod_converse(
                        y * w + x,
                        w as int,
                        y as int,
                        x as int,
                    );
                }
                v.push(self.pixel_at(x, y));
                x = x + 1;
            }
            proof {
                assert((y + 1) * w == y * w + w) by (nonlinear_arith);
            }
            y = y + 1;
        }
        assert(h * w == w * h) by (nonlinear_arith);
        assert(v@ =~= row_major(m, (w, h)));
        v
    }
}

/// Is `p` inside the `w` x `h` rectangle whose top-left corner is (x0, y0)?
pub open spec fn in_rect(p: Pos, x0: u32, y0: u32, w: u32, h: u32) -> bool {
    x0 <= p.0 < x0 + w && y0 <= p.1 < y0 + h
}

/// Is `p` on the one-pixel border of that rectangle: its top row (`y0`),
/// its bottom row (`y0 + h - 1`), its left column (`x0`) or its right
/// column (`x0 + w - 1`)?
pub open spec fn on_frame(p: Pos, x0: u32, y0: u32, w: u32, h: u32) -> bool {
    ||| (x0 <= p.0 < x0 + w && (p.1 == y0 || p.1 == y0 + h - 1))
    ||| (y0 <= p.1 < y0 + h && (p.0 == x0 || p.0 == x0 + w - 1))
}

/// A coordinate read back as the signed 32-bit value it was cast from.
pub open spec fn signed(v: u32) -> int {
    if v < 0x8000_0000 { v as int } else { v - 0x1_0000_0000 }
}

/// The squared distance from (cx, cy) to `p`, whose coordinates are read
/// as signed values (a shape that reaches left of or above the canvas
/// wraps around to the far end of the `u32` range).
pub open spec fn dist2(p: Pos, cx: u32, cy: u32) -> int {
    (signed(p.0) - cx) * (signed(p.0) - cx) + (signed(p.1) - cy) * (signed(p.1) - cy)
}

/// Is `p` within `r` of (cx, cy) on both axes?
pub open spec fn in_square(p: Pos, cx: u32, cy: u32, r: u32) -> bool {
    -r <= signed(p.0) - cx <= r && -r <= signed(p.1) - cy <= r
}

/// Is `p` on the disc of radius `r` centred at (cx, cy)?
pub open spec fn in_disc(p: Pos, cx: u32, cy: u32, r: u32) -> bool {
    in_square(p, cx, cy, r) && dist2(p, cx, cy) <= r * r
}

/// Is `p` on the ring of that disc: at squared distance between
/// `(r - 1)^2` and `r^2`?
pub open spec fn on_ring(p: Pos, cx: u32, cy: u32, r: u32) -> bool {
    in_square(p, cx, cy, r) && (r - 1) * (r - 1) <= dist2(p, cx, cy) <= r * r
}

/// `m` with the rectangle recoloured `c`.
pub open spec fn rect_layer(m: Map<Pos, Px>, x0: u32, y0: u32, w: u32, h: u32, c: Px) -> Map<Pos, Px> {
    Map::new(|p: Pos| m.contains_key(p), |p: Pos| if in_rect(p, x0, y0, w, h) { c } else { m[p] })
}

/// `m` with the rectangle's border recoloured `c`.
pub open spec fn frame_layer(m: Map<Pos, Px>, x0: u32, y0: u32, w: u32, h: u32, c: Px) -> Map<Pos, Px> {
    Map::new(|p: Pos| m.contains_key(p), |p: Pos| if on_frame(p, x0, y0, w, h) { c } else { m[p] })
}

/// `m` with the disc recoloured `c`.
pub open spec fn disc_layer(m: Map<Pos, Px>, cx: u32, cy: u32, r: u32, c: Px) -> Map<Pos, Px> {
    Map::new(|p: Pos| m.contains_key(p), |p: Pos| if in_disc(p, cx, cy, r) { c } else { m[p] })
}

/// `m` with the disc's ring recoloured `c`.
pub open spec fn ring_layer(m: Map<Pos, Px>, cx: u32, cy: u32, r: u32, c: Px) -> Map<Pos, Px> {
    Map::new(|p: Pos| m.contains_key(p), |p: Pos| if on_ring(p, cx, cy, r) { c } else { m[p] })
}

/// Writes `c` at (x, y) when that position is inside the canvas; does
/// nothing otherwise.
fn put(img: &mut Canvas, x: u32, y: u32, c: Px)
    requires
        old(img).wf(),
    ensures
        final(img).wf(),
        canvas_size(*final(img)) == canvas_size(*old(img)),
        canvas_pixels(*final(img)) == (if in_canvas((x, y), canvas_size(*old(img))) {
            canvas_pixels(*old(img)).insert((x, y), c)
        } else {
            canvas_pixels(*old(img))
        }),
{
    let (w, h) = img.dims();
    if x < w && y < h {
        img.set_pixel(x, y, c);
        assert(covers(canvas_pixels(*img), canvas_size(*img)));
    }
}

/// Fills the `w` x `h` rectangle at (x0, y0) with `c`, clipped to the
/// canvas.
fn fill_rect(img: &mut Canvas, x0: u32, y0: u32, w: u32, h: u32, c: Px)
    requires
        old(img).wf(),
        x0 + w <= u32::MAX,
        y0 + h <= u32::MAX,
    ensures
        final(img).wf(),
        canvas_size(*final(img)) == canvas_size(*old(img)),
        canvas_pixels(*final(img)) == rect_layer(canvas_pixels(*old(img)), x0, y0, w, h, c),
{
    let ghost m0 = canvas_pixels(*img);
    let ghost size = canvas_size(*img);
    let mut y = y0;
    while y < y0 + h
        invariant
            y0 <= y <= y0 + h,
            x0 + w <= u32::MAX,
            y0 + h <= u32::MAX,
            img.wf(),
            canvas_size(*img) == size,
            covers(m0, size),
            forall|p: Pos|
                in_canvas(p, size) ==> #[trigger] canvas_pixels(*img)[p] == if x0 <= p.0 < x0 + w
                    && y0 <= p.1 < y {
                    c
                } else {
                    m0[p]
                },
        decreases y0 + h - y,
    {
        let mut x = x0;
        while x < x0 + w
            invariant
                x0 <= x <= x0 + w,
                y0 <= y < y0 + h,
                x0 + w <= u32::MAX,
                y0 + h <= u32::MAX,
                img.wf(),
                canvas_size(*img) == size,
                covers(m0, size),
                forall|p: Pos|
                    in_canvas(p, size) ==> #[trigger] canvas_pixels(*img)[p] == if (x0 <= p.0
                        < x0 + w && y0 <= p.1 < y) || (p.1 == y && x0 <= p.0 < x) {
                        c
                    } else {
                        m0[p]
                    },
            decreases x0 + w - x,
        {
            put(img, x, y, c);
            x = x + 1;
        }
        y = y + 1;
    }
    assert(canvas_pixels(*img) =~= rect_layer(m0, x0, y0, w, h, c));
}

/// Draws the one-pixel border of the `w` x `h` rectangle at (x0, y0) in
/// `c`, clipped to the canvas. The bottom row `y0 + h - 1` is computed when
/// the rectangle has a column, the right column `x0 + w - 1` when it has a
/// row; `requires` keeps both from going below zero.
fn outline_rect(img: &mut Canvas, x0: u32, y0: u32, w: u32, h: u32, c: Px)
    requires
        old(img).wf(),
        x0 + w <= u32::MAX,
        y0 + h <= u32::MAX,
        w > 0 ==> y0 + h >= 1,
        h > 0 ==> x0 + w >= 1,
    ensures
        final(img).wf(),
        canvas_size(*final(img)) == canvas_size(*old(img)),
        canvas_pixels(*final(img)) == frame_layer(canvas_pixels(*old(img)), x0, y0, w, h, c),
{
    let ghost m0 = canvas_pixels(*img);
    let ghost size = canvas_size(*img);
    let mut x = x0;
    while x < x0 + w
        invariant
            x0 <= x <= x0 + w,
            x0 + w <= u32::MAX,
            y0 + h <= u32::MAX,
            w > 0 ==> y0 + h >= 1,
            img.wf(),
            canvas_size(*img) == size,
            covers(m0, size),
            forall|p: Pos|
                in_canvas(p, size) ==> #[trigger] canvas_pixels(*img)[p] == if x0 <= p.0 < x
                    && (p.1 == y0 || p.1 == y0 + h - 1) {
                    c
                } else {
                    m0[p]
                },
        decreases x0 + w - x,
    {
        put(img, x, y0, c);
        put(img, x, y0 + h - 1, c);
        x = x + 1;
    }
    let mut y = y0;
    while y < y0 + h
        invariant
            y0 <= y <= y0 + h,
            x0 + w <= u32::MAX,
            y0 + h <= u32::MAX,
            h > 0 ==> x0 + w >= 1,
            img.wf(),
            canvas_size(*img) == size,
            covers(m0, size),
            forall|p: Pos|
                in_canvas(p, size) ==> #[trigger] canvas_pixels(*img)[p] == if (x0 <= p.0 < x0
                    + w && (p.1 == y0 || p.1 == y0 + h - 1)) || (y0 <= p.1 < y && (p.0 == x0
                    || p.0 == x0 + w - 1)) {
                    c
                } else {
                    m0[p]
                },
        decreases y0 + h - y,
    {
        put(img, x0, y, c);
        put(img, x0 + w - 1, y, c);
        y = y + 1;
    }
    assert(canvas_pixels(*img) =~= frame_layer(m0, x0, y0, w, h, c));
}

/// `v as u32`: negative values wrap around to the top of the range.
fn wrap(v: i32) -> (u: u32)
    ensures
        u == (if v < 0 { v + 0x1_0000_0000 } else { v as int }),
        signed(u) == v,
{
    if v < 0 {
        let t: i64 = v as i64 + 0x1_0000_0000i64;
        t as u32
    } else {
        v as u32
    }
}

/// Fills the disc of radius `r` around (cx, cy) with `c`, clipped to the
/// canvas. Offsets run over the square `-r..=r` in signed 32-bit
/// arithmetic; `requires` keeps that arithmetic from overflowing.
fn fill_circle(img: &mut Canvas, cx: u32, cy: u32, r: u32, c: Px)
    requires
        old(img).wf(),
        cx + r <= i32::MAX,
        cy + r <= i32::MAX,
        r <= 32767,
    ensures
        final(img).wf(),
        canvas_size(*final(img)) == canvas_size(*old(img)),
        canvas_pixels(*final(img)) == disc_layer(canvas_pixels(*old(img)), cx, cy, r, c),
{
    let ghost m0 = canvas_pixels(*img);
    let ghost size = canvas_size(*img);
    let ri = r as i32;
    let cxi = cx as i32;
    let cyi = cy as i32;
    let mut y: i32 = -ri;
    while y <= ri
        invariant
            -ri <= y <= ri + 1,
            ri == r,
            cxi == cx,
            cyi == cy,
            cx + r <= i32::MAX,
            cy + r <= i32::MAX,
            r <= 32767,
            img.wf(),
            canvas_size(*img) == size,
            covers(m0, size),
            forall|p: Pos|
                in_canvas(p, size) ==> #[trigger] canvas_pixels(*img)[p] == if in_disc(p, cx, cy, r)
                    && signed(p.1) - cy < y {
                    c
                } else {
                    m0[p]
                },
        decreases ri + 1 - y,
    {
        let mut x: i32 = -ri;
        while x <= ri
            invariant
                -ri <= x <= ri + 1,
                -ri <= y <= ri,
                ri == r,
                cxi == cx,
                cyi == cy,
                cx + r <= i32::MAX,
                cy + r <= i32::MAX,
                r <= 32767,
                img.wf(),
                canvas_size(*img) == size,
                covers(m0, size),
                forall|p: Pos|
                    in_canvas(p, size) ==> #[trigger] canvas_pixels(*img)[p] == if in_disc(
                        p,
                        cx,
                        cy,
                        r,
                    ) && (signed(p.1) - cy < y || (signed(p.1) - cy == y && signed(p.0) - cx
                        < x)) {
                        c
                    } else {
                        m0[p]
                    },
            decreases ri + 1 - x,
        {
            assert(0 <= x * x <= ri * ri <= 32767 * 32767) by (nonlinear_arith)
                requires
                    -ri <= x <= ri,
                    ri <= 32767,
            ;
            assert(0 <= y * y <= ri * ri <= 32767 * 32767) by (nonlinear_arith)
                requires
                    -ri <= y <= ri,
                    ri <= 32767,
            ;
            if x * x + y * y <= ri * ri {
                let px = wrap(cxi + x);
                let py = wrap(cyi + y);
                put(img, px, py, c);
            }
            x = x + 1;
        }
        y = y + 1;
    }
    assert(canvas_pixels(*img) =~= disc_layer(m0, cx, cy, r, c));
}

/// Draws the ring of the disc of radius `r` around (cx, cy) in `c`: the
/// offsets whose squared length lies between `(r - 1)^2` and `r^2`.
fn outline_circle(img: &mut Canvas, cx: u32, cy: u32, r: u32, c: Px)
    requires
        old(img).wf(),
        cx + r <= i32::MAX,
        cy + r <= i32::MAX,
        r <= 32767,
    ensures
        final(img).wf(),
        canvas_size(*final(img)) == canvas_size(*old(img)),
        canvas_pixels(*final(img)) == ring_layer(canvas_pixels(*old(img)), cx, cy, r, c),
{
    let ghost m0 = canvas_pixels(*img);
    let ghost size = canvas_size(*img);
    let ri = r as i32;
    let cxi = cx as i32;
    let cyi = cy as i32;
    let mut y: i32 = -ri;
    while y <= ri
        invariant
            -ri <= y <= ri + 1,
            ri == r,
            cxi == cx,
            cyi == cy,
            cx + r <= i32::MAX,
            cy + r <= i32::MAX,
            r <= 32767,
            img.wf(),
            canvas_size(*img) == size,
            covers(m0, size),
            forall|p: Pos|
                in_canvas(p, size) ==> #[trigger] canvas_pixels(*img)[p] == if on_ring(p, cx, cy, r)
                    && signed(p.1) - cy < y {
                    c
                } else {
                    m0[p]
                },
        decreases ri + 1 - y,
    {
        let mut x: i32 = -ri;
        while x <= ri
            invariant
                -ri <= x <= ri + 1,
                -ri <= y <= ri,
                ri == r,
                cxi == cx,
                cyi == cy,
                cx + r <= i32::MAX,
                cy + r <= i32::MAX,
                r <= 32767,
                img.wf(),
                canvas_size(*img) == size,
                covers(m0, size),
                forall|p: Pos|
                    in_canvas(p, size) ==> #[trigger] canvas_pixels(*img)[p] == if on_ring(
                        p,
                        cx,
                        cy,
                        r,
                    ) && (signed(p.1) - cy < y || (signed(p.1) - cy == y && signed(p.0) - cx
                        < x)) {
                        c
                    } else {
                        m0[p]
                    },
            decreases ri + 1 - x,
        {
            assert(0 <= x * x <= ri * ri <= 32767 * 32767) by (nonlinear_arith)
                requires
                    -ri <= x <= ri,
                    ri <= 32767,
            ;
            assert(0 <= y * y <= ri * ri <= 32767 * 32767) by (nonlinear_arith)
                requires
                    -ri <= y <= ri,
                    ri <= 32767,
            ;
            let d2 = x * x + y * y;
            assert(0 <= (ri - 1) * (ri - 1) <= 32768 * 32768) by (nonlinear_arith)
                requires
                    0 <= ri <= 32767,
            ;
            if d2 >= (ri - 1) * (ri - 1) && d2 <= ri * ri {
                let px = wrap(cxi + x);
                let py = wrap(cyi + y);
                put(img, px, py, c);
            }
            x = x + 1;
        }
        y = y + 1;
    }
    assert(canvas_pixels(*img) =~= ring_layer(m0, cx, cy, r, c));
}

/// A colour at full opacity.
pub open spec fn opaque(c: [u8; 3]) -> Px {
    (c[0], c[1], c[2], 255u8)
}

/// A colour with each channel scaled by `num / den`, rounded down, at full
/// opacity.
pub open spec fn scaled(c: [u8; 3], num: int, den: int) -> Px {
    ((c[0] * num / den) as u8, (c[1] * num / den) as u8, (c[2] * num / den) as u8, 255u8)
}

/// The half-transparent black of drop shadows.
pub open spec fn shadow_px() -> Px {
    (0u8, 0u8, 0u8, 60u8)
}

/// The colour of guns.
pub open spec fn gun_px() -> Px {
    (40u8, 40u8, 40u8, 255u8)
}

fn opaque_px(c: [u8; 3]) -> (px: Px)
    ensures
        px == opaque(c),
{
    (c[0], c[1], c[2], 255)
}

proof fn lemma_scaled_channel(v: u8, num: u32, den: u32)
    requires
        0 < den,
        num <= den,
    ensures
        0 <= v * num / (den as int) <= 255,
        0 <= v * num <= 255 * den,
{
    assert(0 <= v * num <= v * den <= 255 * den) by (nonlinear_arith)
        requires
            num <= den,
            v <= 255,
    ;
    assert(v * num / (den as int) <= v as int) by (nonlinear_arith)
        requires
            0 < den,
            0 <= v * num <= v * den,
    ;
}

fn scaled_px(c: [u8; 3], num: u32, den: u32) -> (px: Px)
    requires
        0 < den <= 256,
        num <= den,
    ensures
        px == scaled(c, num as int, den as int),
{
    proof {
        lemma_scaled_channel(c[0], num, den);
        lemma_scaled_channel(c[1], num, den);
        lemma_scaled_channel(c[2], num, den);
    }
    let r = c[0] as u32 * num / den;
    let g = c[1] as u32 * num / den;
    let b = c[2] as u32 * num / den;
    (r as u8, g as u8, b as u8, 255)
}

/// The shorter side of a `width` x `height` canvas.
pub open spec fn shorter_side(width: u32, height: u32) -> u32 {
    if width <= height { width } else { height }
}

/// The character sprite of `generate_character_sized`, layer by layer on a
/// blank `width` x `height` canvas: the drop shadow under the feet, the
/// body with a border at 3/5 of its colour, the head with a ring at 1/2 of
/// its colour, the two shoulders at 4/5 of the body colour, the gun when
/// armed, and the accent patch on the chest. Horizontal measures are
/// fractions of the width, vertical ones fractions of the height, and the
/// round head and shadow have a sixth of the shorter side as radius.
pub open spec fn character_sized_pixels(
    body: [u8; 3],
    head: [u8; 3],
    accent: [u8; 3],
    armed: bool,
    width: u32,
    height: u32,
) -> Map<Pos, Px> {
    let radius = shorter_side(width, height) / 6;
    let cx = width / 2;
    let cy = height / 2;
    let body_w = width / 3;
    let body_h = height / 2;
    let body_x = (cx - body_w / 2) as u32;
    let body_y = (cy - body_h / 3) as u32;
    let head_y = (body_y - radius / 2) as u32;
    let shoulder_w = width / 8;
    let shoulder_h = height / 4;
    let shoulder_y = (body_y + height / 16) as u32;
    let gun_x = (cx + body_w / 4) as u32;
    let gun_w = width / 6;
    let gun_h = height / 10;
    let with_shadow = disc_layer(blank((width, height)), cx, (cy + height / 4) as u32, radius, shadow_px());
    let with_body = frame_layer(
        rect_layer(with_shadow, body_x, body_y, body_w, body_h, opaque(body)),
        body_x,
        body_y,
        body_w,
        body_h,
        scaled(body, 3, 5),
    );
    let with_head = ring_layer(
        disc_layer(with_body, cx, head_y, radius, opaque(head)),
        cx,
        head_y,
        radius,
        scaled(head, 1, 2),
    );
    let with_shoulders = rect_layer(
        rect_layer(with_head, (body_x - shoulder_w / 2) as u32, shoulder_y, shoulder_w, shoulder_h, scaled(body, 4, 5)),
        (body_x + body_w - shoulder_w / 2) as u32,
        shoulder_y,
        shoulder_w,
        shoulder_h,
        scaled(body, 4, 5),
    );
    let with_gun = if armed {
        rect_layer(
            rect_layer(with_shoulders, gun_x, (cy - gun_h / 2) as u32, gun_w, gun_h, gun_px()),
            gun_x,
            cy,
            gun_w / 2,
            gun_h,
            gun_px(),
        )
    } else {
        with_shoulders
    };
    rect_layer(with_gun, (cx - width / 12) as u32, (body_y + height / 10) as u32, width / 6, height / 8, opaque(accent))
}

/// The square character sprite of `generate_character`: the sized sprite
/// with both sides `size`.
pub open spec fn character_pixels(body: [u8; 3], head: [u8; 3], accent: [u8; 3], armed: bool, size: u32) -> Map<
    Pos,
    Px,
> {
    character_sized_pixels(body, head, accent, armed, size, size)
}

/// Draws a top-down character sprite of `width` x `height` pixels: shadow,
/// body, head, shoulders, a pistol when `armed`, and an accent patch (a
/// faction colour or badge) on the chest. Darker shades are the colour's
/// channels times 3/5 (body border), 1/2 (head ring) and 4/5 (shoulders),
/// rounded down.
///
/// `requires`: the buffer must be allocatable; the round head and shadow
/// (radius a sixth of the shorter side) must keep the disc test's
/// coordinates and `x * x + y * y` within `i32`; and the body's border
/// needs a body at least one pixel high when it is wide and one pixel
/// right of the edge when it is high (its far edge is one before the end).
#[verifier::rlimit(50)]
pub fn generate_character_sized(
    body_color: [u8; 3],
    head_color: [u8; 3],
    accent_color: [u8; 3],
    armed: bool,
    width: u32,
    height: u32,
) -> (img: Canvas)
    requires
        allocatable(width, height),
        shorter_side(width, height) / 6 <= 32767,
        width / 2 + shorter_side(width, height) / 6 <= i32::MAX,
        height / 2 + height / 4 + shorter_side(width, height) / 6 <= i32::MAX,
        width / 3 > 0 ==> height >= 2,
        height / 2 > 0 ==> width >= 2,
    ensures
        img.wf(),
        canvas_size(img) == (width, height),
        canvas_pixels(img) == character_sized_pixels(body_color, head_color, accent_color, armed, width, height),
{
    let mut img = Canvas::blank_canvas(width, height);
    let short = if width <= height { width } else { height };
    let radius = short / 6;
    let cx = width / 2;
    let cy = height / 2;

    fill_circle(&mut img, cx, cy + height / 4, radius, (0, 0, 0, 60));

    let body_w = width / 3;
    let body_h = height / 2;
    let body_x = cx - body_w / 2;
    let body_y = cy - body_h / 3;
    fill_rect(&mut img, body_x, body_y, body_w, body_h, opaque_px(body_color));
    outline_rect(&mut img, body_x, body_y, body_w, body_h, scaled_px(body_color, 3, 5));

    let head_y = body_y - radius / 2;
    fill_circle(&mut img, cx, head_y, radius, opaque_px(head_color));
    outline_circle(&mut img, cx, head_y, radius, scaled_px(head_color, 1, 2));

    let shoulder_w = width / 8;
    let shoulder_h = height / 4;
    let shoulder_c = scaled_px(body_color, 4, 5);
    fill_rect(&mut img, body_x - shoulder_w / 2, body_y + height / 16, shoulder_w, shoulder_h, shoulder_c);
    fill_rect(
        &mut img,
        body_x + body_w - shoulder_w / 2,
        body_y + height / 16,
        shoulder_w,
        shoulder_h,
        shoulder_c,
    );

    if armed {
        let gun_c = (40, 40, 40, 255);
        let gun_w = width / 6;
        let gun_h = height / 10;
        fill_rect(&mut img, cx + body_w / 4, cy - gun_h / 2, gun_w, gun_h, gun_c);
        fill_rect(&mut img, cx + body_w / 4, cy, gun_w / 2, gun_h, gun_c);
    }

    fill_rect(&mut img, cx - width / 12, body_y + height / 10, width / 6, height / 8, opaque_px(accent_color));
    img
}

/// Draws a square top-down character sprite of `size` x `size` pixels:
/// the sized sprite with both sides `size`.
///
/// `requires`: the buffer must be allocatable, and the head radius
/// `size / 6` must keep the disc test `x * x + y * y` within `i32`.
pub fn generate_character(
    body_color: [u8; 3],
    head_color: [u8; 3],
    accent_color: [u8; 3],
    armed: bool,
    size: u32,
) -> (img: Canvas)
    requires
        allocatable(size, size),
        size / 6 <= 32767,
    ensures
        img.wf(),
        canvas_size(img) == (size, size),
        canvas_pixels(img) == character_pixels(body_color, head_color, accent_color, armed, size),
{
    generate_character_sized(body_color, head_color, accent_color, armed, size, size)
}

/// The police sprite: dark blue uniform, skin-coloured head, yellow badge,
/// armed, 24 wide and 32 high.
pub fn generate_police() -> (img: Canvas)
    ensures
        img.wf(),
        canvas_size(img) == (24u32, 32u32),
        canvas_pixels(img) == character_sized_pixels([30, 50, 120], [200, 180, 150], [255, 200, 0], true, 24, 32),
{
    generate_character_sized([30, 50, 120], [200, 180, 150], [255, 200, 0], true, 24, 32)
}

/// The player sprite: dark grey jacket, skin-coloured head, blue accent,
/// armed (the pistol shows), 32 x 32.
pub fn generate_player() -> (img: Canvas)
    ensures
        img.wf(),
        canvas_size(img) == (32u32, 32u32),
        canvas_pixels(img) == character_pixels([60, 70, 90], [210, 180, 140], [80, 140, 220], true, 32),
{
    generate_character([60, 70, 90], [210, 180, 140], [80, 140, 220], true, 32)
}

/// A civilian sprite in the given body colour: skin-coloured head, grey
/// accent, unarmed, 24 x 24.
pub fn generate_npc(body_color: [u8; 3]) -> (img: Canvas)
    ensures
        img.wf(),
        canvas_size(img) == (24u32, 24u32),
        canvas_pixels(img) == character_pixels(body_color, [200, 180, 150], [120, 120, 120], false, 24),
{
    generate_character(body_color, [200, 180, 150], [120, 120, 120], false, 24)
}

/// The larger of two values.
pub open spec fn at_least(v: u32, floor: u32) -> u32 {
    if v < floor { floor } else { v }
}

/// The vehicle sprite of `generate_vehicle`, layer by layer on a blank
/// `width` x `height` canvas: the shadow, the chassis inset by a 2-pixel
/// margin with a highlight stripe on top and a dark border, the window
/// pane with a lighter frame, the four wheels in the corners, the dark
/// bonnet and boot, and the bumper.
pub open spec fn vehicle_pixels(
    width: u32,
    height: u32,
    body: [u8; 3],
    dark: [u8; 3],
    highlight: [u8; 3],
) -> Map<Pos, Px> {
    let inner_w = (width - 4) as u32;
    let inner_h = (height - 4) as u32;
    let win_w = (inner_w * 3 / 5) as u32;
    let win_h = (inner_h * 2 / 5) as u32;
    let win_x = ((width - win_w) / 2) as u32;
    let win_y = ((height - win_h) / 2) as u32;
    let wheel_w = at_least(width / 6, 3);
    let wheel_h = at_least(height / 8, 3);
    let wheel_c = (25u8, 25u8, 30u8, 255u8);
    let end_h = at_least(height / 6, 3);
    let with_chassis = frame_layer(
        rect_layer(
            rect_layer(
                disc_layer(blank((width, height)), width / 2, height / 2, width / 3, shadow_px()),
                2,
                2,
                inner_w,
                inner_h,
                opaque(body),
            ),
            2,
            2,
            inner_w,
            at_least(height / 8, 2),
            opaque(highlight),
        ),
        2,
        2,
        inner_w,
        inner_h,
        opaque(dark),
    );
    let with_windows = frame_layer(
        rect_layer(with_chassis, win_x, win_y, win_w, win_h, (40u8, 50u8, 70u8, 255u8)),
        win_x,
        win_y,
        win_w,
        win_h,
        (60u8, 70u8, 90u8, 255u8),
    );
    let with_wheels = rect_layer(
        rect_layer(
            rect_layer(
                rect_layer(with_windows, 0, 2, wheel_w, wheel_h, wheel_c),
                (width - wheel_w) as u32,
                2,
                wheel_w,
                wheel_h,
                wheel_c,
            ),
            0,
            (height - 2 - wheel_h) as u32,
            wheel_w,
            wheel_h,
            wheel_c,
        ),
        (width - wheel_w) as u32,
        (height - 2 - wheel_h) as u32,
        wheel_w,
        wheel_h,
        wheel_c,
    );
    let with_ends = rect_layer(
        rect_layer(with_wheels, 2, 2, inner_w, end_h, opaque(dark)),
        2,
        (height - 2 - end_h) as u32,
        inner_w,
        end_h,
        opaque(dark),
    );
    rect_layer(with_ends, width / 3, 1, width / 3, 2, (200u8, 200u8, 200u8, 255u8))
}

/// Draws a top-down vehicle sprite of `width` x `height` pixels in three
/// shades of its paint: `body` for the chassis, `dark` for its border,
/// bonnet and boot, `highlight` for the stripe along the top.
///
/// `requires`: the buffer must be allocatable; the chassis inset and the
/// wheels need `width >= 4` and `height >= 5`; the shadow disc (radius
/// `width / 3` around the centre) must stay within `i32` arithmetic, and
/// the window height `(height - 4) * 2 / 5` within `u32`.
pub fn generate_vehicle(width: u32, height: u32, body: [u8; 3], dark: [u8; 3], highlight: [u8; 3]) -> (img: Canvas)
    requires
        allocatable(width, height),
        width >= 4,
        height >= 5,
        width / 3 <= 32767,
        height / 2 + width / 3 <= i32::MAX,
        (height - 4) * 2 <= u32::MAX,
    ensures
        img.wf(),
        canvas_size(img) == (width, height),
        canvas_pixels(img) == vehicle_pixels(width, height, body, dark, highlight),
{
    let mut img = Canvas::blank_canvas(width, height);
    let body_c = opaque_px(body);
    let dark_c = opaque_px(dark);
    let window_c = (40, 50, 70, 255);
    let wheel_c = (25, 25, 30, 255);

    fill_circle(&mut img, width / 2, height / 2, width / 3, (0, 0, 0, 60));

    let margin = 2u32;
    fill_rect(&mut img, margin, margin, width - margin * 2, height - margin * 2, body_c);
    let stripe_h = if height / 8 < 2 { 2 } else { height / 8 };
    fill_rect(&mut img, margin, margin, width - margin * 2, stripe_h, opaque_px(highlight));
    outline_rect(&mut img, margin, margin, width - margin * 2, height - margin * 2, dark_c);

    let win_w = (width - margin * 2) * 3 / 5;
    let win_h = (height - margin * 2) * 2 / 5;
    let win_x = (width - win_w) / 2;
    let win_y = (height - win_h) / 2;
    fill_rect(&mut img, win_x, win_y, win_w, win_h, window_c);
    outline_rect(&mut img, win_x, win_y, win_w, win_h, (60, 70, 90, 255));

    let wheel_w = if width / 6 < 3 { 3 } else { width / 6 };
    let wheel_h = if height / 8 < 3 { 3 } else { height / 8 };
    fill_rect(&mut img, 0, margin, wheel_w, wheel_h, wheel_c);
    fill_rect(&mut img, width - wheel_w, margin, wheel_w, wheel_h, wheel_c);
    fill_rect(&mut img, 0, height - margin - wheel_h, wheel_w, wheel_h, wheel_c);
    fill_rect(&mut img, width - wheel_w, height - margin - wheel_h, wheel_w, wheel_h, wheel_c);

    let end_h = if height / 6 < 3 { 3 } else { height / 6 };
    fill_rect(&mut img, margin, margin, width - margin * 2, end_h, dark_c);
    fill_rect(&mut img, margin, height - margin - end_h, width - margin * 2, end_h, dark_c);

    fill_rect(&mut img, width / 3, margin / 2, width / 3, 2, (200, 200, 200, 255));
    img
}

/// Writes `c` at (x, y) when that position is inside the canvas and its
/// pixel there is fully transparent; does nothing otherwise.
fn put_if_empty(img: &mut Canvas, x: u32, y: u32, c: Px)
    requires
        old(img).wf(),
    ensures
        final(img).wf(),
        canvas_size(*final(img)) == canvas_size(*old(img)),
        canvas_pixels(*final(img)) == (if in_canvas((x, y), canvas_size(*old(img)))
            && canvas_pixels(*old(img))[(x, y)].3 == 0 {
            canvas_pixels(*old(img)).insert((x, y), c)
        } else {
            canvas_pixels(*old(img))
        }),
{
    let (w, h) = img.dims();
    if x < w && y < h {
        let p = img.pixel_at(x, y);
        if p.3 == 0 {
            img.set_pixel(x, y, c);
            assert(covers(canvas_pixels(*img), canvas_size(*img)));
        }
    }
}

/// A canvas of this size in one colour.
pub open spec fn solid(size: Pos, c: Px) -> Map<Pos, Px> {
    Map::new(|p: Pos| in_canvas(p, size), |p: Pos| c)
}

/// A square canvas the buffer can allocate is less than 2^31 pixels wide.
proof fn lemma_allocatable_side(side: u32)
    requires
        allocatable(side, side),
    ensures
        side < 0x8000_0000,
{
    if side >= 0x8000_0000 {
        assert(4 * side * side >= 0x1_0000_0000_0000_0000) by (nonlinear_arith)
            requires
                side >= 0x8000_0000,
        ;
    }
}

/// A blank square tile filled with `c`.
fn solid_tile(tile_size: u32, c: Px) -> (img: Canvas)
    requires
        allocatable(tile_size, tile_size),
    ensures
        img.wf(),
        canvas_size(img) == (tile_size, tile_size),
        canvas_pixels(img) == solid((tile_size, tile_size), c),
{
    let mut img = Canvas::blank_canvas(tile_size, tile_size);
    fill_rect(&mut img, 0, 0, tile_size, tile_size, c);
    assert(canvas_pixels(img) =~= solid((tile_size, tile_size), c));
    img
}

/// The asphalt grain at `p`: a shade `v = (7x + 13y) mod 7` added, divided
/// by three, to the dark grey base.
pub open spec fn asphalt_grain(p: Pos) -> Px {
    let v = ((p.0 * 7 + p.1 * 13) % 7) as u8;
    ((30 + v / 3) as u8, (30 + v / 3) as u8, (35 + v / 3) as u8, 255u8)
}

/// The asphalt tile: grain over the whole tile, and a two-pixel yellow
/// centre line from top to bottom starting at column `tile_size / 2 - 1`.
pub open spec fn asphalt_pixels(tile_size: u32) -> Map<Pos, Px> {
    rect_layer(
        Map::new(|p: Pos| in_canvas(p, (tile_size, tile_size)), |p: Pos| asphalt_grain(p)),
        (tile_size / 2 - 1) as u32,
        0,
        2,
        tile_size,
        (180u8, 160u8, 40u8, 255u8),
    )
}

/// Draws an asphalt road tile with a yellow centre line.
///
/// `requires`: the buffer must be allocatable; the centre line starts at
/// `tile_size / 2 - 1`, which needs `tile_size >= 2`; the grain index
/// `7x + 13y` must fit in `u32`.
pub fn generate_asphalt_tile(tile_size: u32) -> (img: Canvas)
    requires
        allocatable(tile_size, tile_size),
        tile_size >= 2,
        20 * (tile_size - 1) <= u32::MAX,
    ensures
        img.wf(),
        canvas_size(img) == (tile_size, tile_size),
        canvas_pixels(img) == asphalt_pixels(tile_size),
{
    let mut img = solid_tile(tile_size, (30, 30, 35, 255));
    let ghost size = (tile_size, tile_size);
    let mut y: u32 = 0;
    while y < tile_size
        invariant
            y <= tile_size,
            20 * (tile_size - 1) <= u32::MAX,
            img.wf(),
            canvas_size(img) == size,
            size == (tile_size, tile_size),
            forall|p: Pos|
                in_canvas(p, size) ==> #[trigger] canvas_pixels(img)[p] == if p.1 < y {
                    asphalt_grain(p)
                } else {
                    (30u8, 30u8, 35u8, 255u8)
                },
        decreases tile_size - y,
    {
        let mut x: u32 = 0;
        while x < tile_size
            invariant
                x <= tile_size,
                y < tile_size,
                20 * (tile_size - 1) <= u32::MAX,
                img.wf(),
                canvas_size(img) == size,
                size == (tile_size, tile_size),
                forall|p: Pos|
                    in_canvas(p, size) ==> #[trigger] canvas_pixels(img)[p] == if p.1 < y || (
                    p.1 == y && p.0 < x) {
                        asphalt_grain(p)
                    } else {
                        (30u8, 30u8, 35u8, 255u8)
                    },
            decreases tile_size - x,
        {
            let v = ((x * 7 + y * 13) % 7) as u8;
            put(&mut img, x, y, (30 + v / 3, 30 + v / 3, 35 + v / 3, 255));
            x = x + 1;
        }
        y = y + 1;
    }
    let ghost grained = canvas_pixels(img);
    assert(grained =~= Map::new(
        |p: Pos| in_canvas(p, (tile_size, tile_size)),
        |p: Pos| asphalt_grain(p),
    ));
    fill_rect(&mut img, tile_size / 2 - 1, 0, 2, tile_size, (180, 160, 40, 255));
    img
}

/// The sidewalk tile: light grey slabs with darker joint lines along every
/// row and column whose index is a multiple of 8.
pub open spec fn sidewalk_pixels(tile_size: u32) -> Map<Pos, Px> {
    Map::new(
        |p: Pos| in_canvas(p, (tile_size, tile_size)),
        |p: Pos|
            if p.0 % 8 == 0 || p.1 % 8 == 0 {
                (70u8, 70u8, 75u8, 255u8)
            } else {
                (90u8, 90u8, 95u8, 255u8)
            },
    )
}

/// Draws a sidewalk tile: slabs with joint lines every 8 pixels.
pub fn generate_sidewalk_tile(tile_size: u32) -> (img: Canvas)
    requires
        allocatable(tile_size, tile_size),
    ensures
        img.wf(),
        canvas_size(img) == (tile_size, tile_size),
        canvas_pixels(img) == sidewalk_pixels(tile_size),
{
    proof {
        lemma_allocatable_side(tile_size);
    }
    let line_c = (70u8, 70u8, 75u8, 255u8);
    let mut img = solid_tile(tile_size, (90, 90, 95, 255));
    let ghost size = (tile_size, tile_size);
    let mut y: u32 = 0;
    while y < tile_size
        invariant
            tile_size < 0x8000_0000,
            y % 8 == 0,
            y < tile_size + 8,
            img.wf(),
            canvas_size(img) == size,
            size == (tile_size, tile_size),
            forall|p: Pos|
                in_canvas(p, size) ==> #[trigger] canvas_pixels(img)[p] == if p.1 % 8 == 0 && p.1
                    < y {
                    line_c
                } else {
                    (90u8, 90u8, 95u8, 255u8)
                },
        decreases tile_size + 8 - y,
    {
        let mut x: u32 = 0;
        while x < tile_size
            invariant
                tile_size < 0x8000_0000,
                x <= tile_size,
                y % 8 == 0,
                y < tile_size,
                img.wf(),
                canvas_size(img) == size,
                size == (tile_size, tile_size),
                forall|p: Pos|
                    in_canvas(p, size) ==> #[trigger] canvas_pixels(img)[p] == if (p.1 % 8 == 0
                        && p.1 < y) || (p.1 == y && p.0 < x) {
                        line_c
                    } else {
                        (90u8, 90u8, 95u8, 255u8)
                    },
            decreases tile_size - x,
        {
            put(&mut img, x, y, line_c);
            x = x + 1;
        }
        y = y + 8;
    }
    let mut x: u32 = 0;
    while x < tile_size
        invariant
            tile_size < 0x8000_0000,
            x % 8 == 0,
            x < tile_size + 8,
            img.wf(),
            canvas_size(img) == size,
            size == (tile_size, tile_size),
            forall|p: Pos|
                in_canvas(p, size) ==> #[trigger] canvas_pixels(img)[p] == if p.1 % 8 == 0 || (p.0
                    % 8 == 0 && p.0 < x) {
                    line_c
                } else {
                    (90u8, 90u8, 95u8, 255u8)
                },
        decreases tile_size + 8 - x,
    {
        let mut y: u32 = 0;
        while y < tile_size
            invariant
                tile_size < 0x8000_0000,
                y <= tile_size,
                x % 8 == 0,
                x < tile_size,
                img.wf(),
                canvas_size(img) == size,
                size == (tile_size, tile_size),
                forall|p: Pos|
                    in_canvas(p, size) ==> #[trigger] canvas_pixels(img)[p] == if p.1 % 8 == 0 || (
                    p.0 % 8 == 0 && p.0 < x) || (p.0 == x && p.1 < y) {
                        line_c
                    } else {
                        (90u8, 90u8, 95u8, 255u8)
                    },
            decreases tile_size - y,
        {
            put(&mut img, x, y, line_c);
            y = y + 1;
        }
        x = x + 8;
    }
    assert(canvas_pixels(img) =~= sidewalk_pixels(tile_size));
    img
}

/// The grass tile: one shade of green. The speckle pass only paints
/// transparent pixels, and the base fill leaves none.
pub open spec fn grass_pixels(tile_size: u32) -> Map<Pos, Px> {
    solid((tile_size, tile_size), (40u8, 80u8, 35u8, 255u8))
}

/// Draws a grass tile.
///
/// `requires`: the buffer must be allocatable and the speckle index
/// `3x + 5y` must fit in `u32`.
pub fn generate_grass_tile(tile_size: u32) -> (img: Canvas)
    requires
        allocatable(tile_size, tile_size),
        8 * (tile_size - 1) <= u32::MAX,
    ensures
        img.wf(),
        canvas_size(img) == (tile_size, tile_size),
        canvas_pixels(img) == grass_pixels(tile_size),
{
    let mut img = solid_tile(tile_size, (40, 80, 35, 255));
    let ghost before = canvas_pixels(img);
    let mut y: u32 = 0;
    while y < tile_size
        invariant
            y <= tile_size,
            8 * (tile_size - 1) <= u32::MAX,
            img.wf(),
            canvas_size(img) == (tile_size, tile_size),
            canvas_pixels(img) == before,
            before == grass_pixels(tile_size),
        decreases tile_size - y,
    {
        let mut x: u32 = 0;
        while x < tile_size
            invariant
                x <= tile_size,
                y < tile_size,
                8 * (tile_size - 1) <= u32::MAX,
                img.wf(),
                canvas_size(img) == (tile_size, tile_size),
                canvas_pixels(img) == before,
                before == grass_pixels(tile_size),
            decreases tile_size - x,
        {
            let v = ((x * 3 + y * 5) % 11) as u8;
            let g = 80 + v * 3;
            let r = 40 + v;
            let b = 35 + v / 2;
            put_if_empty(&mut img, x, y, (r, g, b, 255));
            x = x + 1;
        }
        y = y + 1;
    }
    img
}

/// The water tile: one shade of blue. The ripple pass only paints
/// transparent pixels, and the base fill leaves none.
pub open spec fn water_pixels(tile_size: u32) -> Map<Pos, Px> {
    solid((tile_size, tile_size), (30u8, 50u8, 90u8, 255u8))
}

/// Draws a water tile.
pub fn generate_water_tile(tile_size: u32) -> (img: Canvas)
    requires
        allocatable(tile_size, tile_size),
    ensures
        img.wf(),
        canvas_size(img) == (tile_size, tile_size),
        canvas_pixels(img) == water_pixels(tile_size),
{
    proof {
        lemma_allocatable_side(tile_size);
    }
    let mut img = solid_tile(tile_size, (30, 50, 90, 255));
    let ghost before = canvas_pixels(img);
    let mut y: u32 = 0;
    while y < tile_size
        invariant
            y <= tile_size,
            tile_size < 0x8000_0000,
            img.wf(),
            canvas_size(img) == (tile_size, tile_size),
            canvas_pixels(img) == before,
            before == water_pixels(tile_size),
        decreases tile_size - y,
    {
        let mut x: u32 = 0;
        while x < tile_size
            invariant
                x <= tile_size,
                y < tile_size,
                tile_size < 0x8000_0000,
                img.wf(),
                canvas_size(img) == (tile_size, tile_size),
                canvas_pixels(img) == before,
                before == water_pixels(tile_size),
            decreases tile_size - x,
        {
            let v = ((x + y) % 5) as u8;
            let b = 90 + v * 8;
            put_if_empty(&mut img, x, y, (30, 50, b, 255));
            x = x + 1;
        }
        y = y + 1;
    }
    img
}

/// How far the bricks of course `row` are shifted: every other course by
/// half a brick.
pub open spec fn course_offset(row: u32) -> u32 {
    if row % 2 == 0 { 0 } else { 8 }
}

/// The brick wall at `p`: courses 8 pixels high, each a mortar line on its
/// top row, then six rows of 15-pixel bricks with one-pixel gaps (shifted
/// by `course_offset`), then one row of the dark base colour.
pub open spec fn wall_px(p: Pos) -> Px {
    let off = course_offset(p.1 / 8);
    if p.1 % 8 == 0 {
        (35u8, 30u8, 25u8, 255u8)
    } else if p.1 % 8 < 7 && p.0 >= off && (p.0 - off) % 16 < 15 {
        (70u8, 55u8, 45u8, 255u8)
    } else {
        (50u8, 45u8, 40u8, 255u8)
    }
}

/// The building tile: the brick wall, with four 6 x 6 windows whose
/// corners sit at a quarter and three quarters of the tile.
pub open spec fn building_pixels(tile_size: u32) -> Map<Pos, Px> {
    let near = tile_size / 4;
    let far = (tile_size * 3 / 4 - 6) as u32;
    let window = (40u8, 50u8, 70u8, 255u8);
    let wall = Map::new(|p: Pos| in_canvas(p, (tile_size, tile_size)), |p: Pos| wall_px(p));
    rect_layer(
        rect_layer(
            rect_layer(rect_layer(wall, near, near, 6, 6, window), far, near, 6, 6, window),
            near,
            far,
            6,
            6,
            window,
        ),
        far,
        far,
        6,
        6,
        window,
    )
}

/// Draws a building tile: brick courses with mortar lines and four windows.
///
/// `requires`: the buffer must be allocatable; the far windows start at
/// `tile_size * 3 / 4 - 6`, which needs `tile_size >= 8` and
/// `tile_size * 3` within `u32`.
pub fn generate_building_tile(tile_size: u32) -> (img: Canvas)
    requires
        allocatable(tile_size, tile_size),
        tile_size >= 8,
        tile_size * 3 <= u32::MAX,
    ensures
        img.wf(),
        canvas_size(img) == (tile_size, tile_size),
        canvas_pixels(img) == building_pixels(tile_size),
{
    proof {
        lemma_allocatable_side(tile_size);
    }
    let base_c = (50u8, 45u8, 40u8, 255u8);
    let brick_c = (70u8, 55u8, 45u8, 255u8);
    let mortar_c = (35u8, 30u8, 25u8, 255u8);
    let mut img = solid_tile(tile_size, base_c);
    let ghost size = (tile_size, tile_size);
    let mut y: u32 = 0;
    while y < tile_size
        invariant
            tile_size < 0x8000_0000,
            base_c == (50u8, 45u8, 40u8, 255u8),
            brick_c == (70u8, 55u8, 45u8, 255u8),
            mortar_c == (35u8, 30u8, 25u8, 255u8),
            y % 8 == 0,
            y < tile_size + 8,
            img.wf(),
            canvas_size(img) == size,
            size == (tile_size, tile_size),
            forall|p: Pos|
                in_canvas(p, size) ==> #[trigger] canvas_pixels(img)[p] == if p.1 < y {
                    wall_px(p)
                } else {
                    base_c
                },
        decreases tile_size + 8 - y,
    {
        let offset: u32 = if (y / 8) % 2 == 0 { 0 } else { 8 };
        let mut x: u32 = 0;
        while x < tile_size
            invariant
                tile_size < 0x8000_0000,
                x % 16 == 0,
                x < tile_size + 16,
                y % 8 == 0,
                y < tile_size,
                offset == course_offset(y / 8),
                img.wf(),
                canvas_size(img) == size,
                size == (tile_size, tile_size),
                forall|p: Pos|
                    in_canvas(p, size) ==> #[trigger] canvas_pixels(img)[p] == if p.1 < y {
                        wall_px(p)
                    } else if y <= p.1 < y + 7 && offset <= p.0 < x + offset && (p.0 - offset)
                        % 16 < 15 {
                        brick_c
                    } else {
                        base_c
                    },
            decreases tile_size + 16 - x,
        {
            fill_rect(&mut img, x + offset, y, 15, 7, brick_c);
            x = x + 16;
        }
        let mut x: u32 = 0;
        while x < tile_size
            invariant
                tile_size < 0x8000_0000,
                x <= tile_size,
                y % 8 == 0,
                y < tile_size,
                offset == course_offset(y / 8),
                img.wf(),
                canvas_size(img) == size,
                size == (tile_size, tile_size),
                forall|p: Pos|
                    in_canvas(p, size) ==> #[trigger] canvas_pixels(img)[p] == if p.1 < y {
                        wall_px(p)
                    } else if p.1 == y && p.0 < x {
                        mortar_c
                    } else if y <= p.1 < y + 7 && offset <= p.0 && (p.0 - offset) % 16 < 15 {
                        brick_c
                    } else {
                        base_c
                    },
            decreases tile_size - x,
        {
            put(&mut img, x, y, mortar_c);
            x = x + 1;
        }
        assert forall|p: Pos| in_canvas(p, size) implies #[trigger] canvas_pixels(img)[p] == if p.1
            < y + 8 {
            wall_px(p)
        } else {
            base_c
        } by {
            if y <= p.1 && p.1 < y + 8 {
                assert(p.1 / 8 == y / 8);
                assert(p.1 % 8 == p.1 - y);
            }
        }
        y = y + 8;
    }
    assert(canvas_pixels(img) =~= Map::new(
        |p: Pos| in_canvas(p, (tile_size, tile_size)),
        |p: Pos| wall_px(p),
    ));
    let window_c = (40u8, 50u8, 70u8, 255u8);
    let near = tile_size / 4;
    let far = tile_size * 3 / 4 - 6;
    fill_rect(&mut img, near, near, 6, 6, window_c);
    fill_rect(&mut img, far, near, 6, 6, window_c);
    fill_rect(&mut img, near, far, 6, 6, window_c);
    fill_rect(&mut img, far, far, 6, 6, window_c);
    img
}

} // verus!
