//! The menu-bar glyph: trim a PNG to its opaque bounds, and size it for the bar.

use image::ImageError;
use vstd::prelude::*;

verus! {

/// A pixel counts as drawn when its alpha is above this.
pub const ALPHA_CUTOFF: u8 = 16;

/// An RGBA image: rows top to bottom, each pixel four bytes, red, green, blue and alpha.
pub struct Rgba {
    pub width: u32,
    pub height: u32,
    pub pixels: Vec<u8>,
}

/// Where byte `c` of pixel `(x, y)` sits in an image `width` pixels wide.
pub open spec fn byte_at(width: int, x: int, y: int, c: int) -> int {
    4 * (y * width + x) + c
}

impl Rgba {
    /// The buffer holds every pixel.
    pub open spec fn wf(&self) -> bool {
        self.pixels@.len() >= 4 * self.width * self.height
    }

    /// Byte `c` of pixel `(x, y)`.
    pub open spec fn byte(&self, x: int, y: int, c: int) -> u8 {
        self.pixels@[byte_at(self.width as int, x, y, c)]
    }

    /// Pixel `(x, y)` lies in the image and is drawn.
    pub open spec fn drawn(&self, x: int, y: int) -> bool {
        &&& 0 <= x < self.width
        &&& 0 <= y < self.height
        &&& self.byte(x, y, 3) > ALPHA_CUTOFF
    }

    /// Some pixel is drawn.
    pub open spec fn any_drawn(&self) -> bool {
        exists|x: int, y: int| #[trigger] self.drawn(x, y)
    }
}

/// The smallest rectangle holding every drawn pixel, inclusive on all four sides.
#[derive(Clone, Copy, PartialEq, Eq, Structural, Debug)]
pub struct Bounds {
    pub min_x: u32,
    pub min_y: u32,
    pub max_x: u32,
    pub max_y: u32,
}

/// `b` holds every drawn pixel of `img`, and a drawn pixel lies on each of its four sides.
pub open spec fn tight(img: Rgba, b: Bounds) -> bool {
    &&& forall|x: int, y: int| #[trigger] img.drawn(x, y) ==> b.min_x <= x <= b.max_x && b.min_y <= y <= b.max_y
    &&& exists|y: int| #[trigger] img.drawn(b.min_x as int, y)
    &&& exists|y: int| #[trigger] img.drawn(b.max_x as int, y)
    &&& exists|x: int| #[trigger] img.drawn(x, b.min_y as int)
    &&& exists|x: int| #[trigger] img.drawn(x, b.max_y as int)
}

proof fn lemma_pixel_in_buffer(width: int, height: int, x: int, y: int)
    requires
        0 <= x < width,
        0 <= y < height,
    ensures
        0 <= byte_at(width, x, y, 0),
        byte_at(width, x, y, 3) < 4 * width * height,
{
    assert(y * width + x < width * height) by (nonlinear_arith)
        requires
            0 <= x < width,
            0 <= y < height,
    ;
    assert(0 <= y * width) by (nonlinear_arith)
        requires
            0 <= x < width,
            0 <= y < height,
    ;
    assert(4 * width * height == 4 * (width * height)) by (nonlinear_arith);
}

proof fn lemma_next_row(width: int, y: int)
    ensures
        byte_at(width, width, y, 0) == byte_at(width, 0, y + 1, 0),
{
    assert((y + 1) * width == y * width + width) by (nonlinear_arith);
}

/// Every drawn pixel before `(x, y)` in row order lies in `b`, and a drawn pixel before it lies
/// on each of `b`'s four sides.
pub open spec fn tight_before(img: Rgba, b: Bounds, x: int, y: int) -> bool {
    &&& forall|px: int, py: int| (py < y || (py == y && px < x)) && #[trigger] img.drawn(px, py)
        ==> b.min_x <= px <= b.max_x && b.min_y <= py <= b.max_y
    &&& exists|py: int| py <= y && #[trigger] img.drawn(b.min_x as int, py)
    &&& exists|py: int| py <= y && #[trigger] img.drawn(b.max_x as int, py)
    &&& exists|px: int| #[trigger] img.drawn(px, b.min_y as int) && b.min_y <= y
    &&& exists|px: int| #[trigger] img.drawn(px, b.max_y as int) && b.max_y <= y
}

/// Some pixel before `(x, y)` in row order is drawn.
pub open spec fn drawn_before(img: Rgba, x: int, y: int) -> bool {
    exists|px: int, py: int| (py < y || (py == y && px < x)) && #[trigger] img.drawn(px, py)
}

/// `b` grown to take in pixel `(x, y)`.
pub open spec fn grown(b: Bounds, x: u32, y: u32) -> Bounds {
    Bounds {
        min_x: if x < b.min_x { x } else { b.min_x },
        min_y: if y < b.min_y { y } else { b.min_y },
        max_x: if x > b.max_x { x } else { b.max_x },
        max_y: if y > b.max_y { y } else { b.max_y },
    }
}

proof fn lemma_grow(img: Rgba, b: Bounds, x: u32, y: u32)
    requires
        x < img.width,
        tight_before(img, b, x as int, y as int),
        img.drawn(x as int, y as int),
    ensures
        tight_before(img, grown(b, x, y), x + 1, y as int),
{
    let g = grown(b, x, y);
    assert forall|px: int, py: int| (py < y || (py == y && px < x + 1)) && #[trigger] img.drawn(px, py)
        implies g.min_x <= px <= g.max_x && g.min_y <= py <= g.max_y by {
        if py == y && px == x {
        } else {
            assert(py < y || (py == y && px < x));
        }
    }
    if x < b.min_x {
        assert(img.drawn(g.min_x as int, y as int));
    } else {
        let w: int = choose|py: int| py <= y && #[trigger] img.drawn(b.min_x as int, py);
        assert(img.drawn(g.min_x as int, w));
    }
    if x > b.max_x {
        assert(img.drawn(g.max_x as int, y as int));
    } else {
        let w: int = choose|py: int| py <= y && #[trigger] img.drawn(b.max_x as int, py);
        assert(img.drawn(g.max_x as int, w));
    }
    if y < b.min_y {
        assert(img.drawn(x as int, g.min_y as int));
    } else {
        let w: int = choose|px: int| #[trigger] img.drawn(px, b.min_y as int) && b.min_y <= y;
        assert(img.drawn(w, g.min_y as int));
    }
    if y > b.max_y {
        assert(img.drawn(x as int, g.max_y as int));
    } else {
        let w: int = choose|px: int| #[trigger] img.drawn(px, b.max_y as int) && b.max_y <= y;
        assert(img.drawn(w, g.max_y as int));
    }
}

proof fn lemma_start(img: Rgba, x: u32, y: u32)
    requires
        img.drawn(x as int, y as int),
    ensures
        tight_before(img, Bounds { min_x: x, min_y: y, max_x: x, max_y: y }, x + 1, y as int)
            || drawn_before(img, x as int, y as int),
{
    let b = Bounds { min_x: x, min_y: y, max_x: x, max_y: y };
    if !drawn_before(img, x as int, y as int) {
        assert forall|px: int, py: int| (py < y || (py == y && px < x + 1)) && #[trigger] img.drawn(px, py)
            implies b.min_x <= px <= b.max_x && b.min_y <= py <= b.max_y by {
            if !(py == y && px == x) {
                assert((py < y || (py == y && px < x)) && img.drawn(px, py));
            }
        }
    }
}

/// The bounds of the drawn pixels, or `None` when no pixel is drawn.
pub fn opaque_bounds(img: &Rgba) -> (r: Option<Bounds>)
    requires
        img.wf(),
    ensures
        r is None <==> !img.any_drawn(),
        r matches Some(b) ==> tight(*img, b),
{
    let width: u32 = img.width;
    let height: u32 = img.height;
    let len: usize = img.pixels.len();
    let mut found: Option<Bounds> = None;
    let mut y: u32 = 0;
    let mut base: usize = 0;
    proof {
        assert(byte_at(width as int, 0, 0, 0) == 0);
    }
    while y < height
        invariant
            img.wf(),
            width == img.width,
            height == img.height,
            len == img.pixels@.len(),
            y <= height,
            base == byte_at(width as int, 0, y as int, 0),
            found is None <==> !drawn_before(*img, 0, y as int),
            found matches Some(b) ==> tight_before(*img, b, 0, y as int),
        decreases height - y,
    {
        let mut x: u32 = 0;
        while x < width
            invariant
                img.wf(),
                width == img.width,
                height == img.height,
                len == img.pixels@.len(),
                y < height,
                x <= width,
                base == byte_at(width as int, x as int, y as int, 0),
                found is None <==> !drawn_before(*img, x as int, y as int),
                found matches Some(b) ==> tight_before(*img, b, x as int, y as int),
            decreases width - x,
        {
            proof {
                lemma_pixel_in_buffer(width as int, height as int, x as int, y as int);
            }
            let alpha: u8 = img.pixels[base + 3];
            assert(alpha == img.byte(x as int, y as int, 3));
            if alpha > ALPHA_CUTOFF {
                assert(img.drawn(x as int, y as int));
                match found {
                    None => {
                        proof {
                            lemma_start(*img, x, y);
                        }
                        found = Some(Bounds { min_x: x, min_y: y, max_x: x, max_y: y });
                    },
                    Some(b) => {
                        proof {
                            lemma_grow(*img, b, x, y);
                        }
                        found = Some(
                            Bounds {
                                min_x: if x < b.min_x { x } else { b.min_x },
                                min_y: if y < b.min_y { y } else { b.min_y },
                                max_x: if x > b.max_x { x } else { b.max_x },
                                max_y: if y > b.max_y { y } else { b.max_y },
                            },
                        );
                    },
                }
            } else {
                assert(!img.drawn(x as int, y as int));
            }
            assert(drawn_before(*img, x + 1, y as int) <==> drawn_before(*img, x as int, y as int)
                || img.drawn(x as int, y as int));
            base = base + 4;
            x = x + 1;
        }
        proof {
            lemma_next_row(width as int, y as int);
        }
        y = y + 1;
    }
    found
}

proof fn lemma_earlier_pixel(width: int, i: int, j: int, ii: int, jj: int, c: int)
    requires
        0 <= ii < width,
        0 <= i,
        0 <= jj,
        0 <= c < 4,
        jj < j || (jj == j && ii < i),
    ensures
        byte_at(width, ii, jj, c) < byte_at(width, i, j, 0),
{
    assert(jj * width + ii < j * width + i) by (nonlinear_arith)
        requires
            0 <= ii < width,
            0 <= i,
            0 <= jj,
            jj < j || (jj == j && ii < i),
    ;
}

/// The `w` by `h` rectangle of `img` whose top-left pixel is `(x, y)`, as an image of its own.
pub fn crop(img: &Rgba, x: u32, y: u32, w: u32, h: u32) -> (r: Rgba)
    requires
        img.wf(),
        x + w <= img.width,
        y + h <= img.height,
    ensures
        r.width == w,
        r.height == h,
        r.pixels@.len() == 4 * w * h,
        forall|i: int, j: int, c: int|
            0 <= i < w && 0 <= j < h && 0 <= c < 4 ==> #[trigger] r.byte(i, j, c) == img.byte(
                x + i,
                y + j,
                c,
            ),
{
    let len: usize = img.pixels.len();
    let mut out: Vec<u8> = Vec::new();
    let mut j: u32 = 0;
    while j < h
        invariant
            img.wf(),
            len == img.pixels@.len(),
            x + w <= img.width,
            y + h <= img.height,
            j <= h,
            out@.len() == byte_at(w as int, 0, j as int, 0),
            forall|ii: int, jj: int, c: int|
                0 <= ii < w && 0 <= jj < j && 0 <= c < 4 ==> #[trigger] out@[byte_at(w as int, ii, jj, c)]
                    == img.byte(x + ii, y + jj, c),
        decreases h - j,
    {
        let mut i: u32 = 0;
        while i < w
            invariant
                img.wf(),
                len == img.pixels@.len(),
                x + w <= img.width,
                y + h <= img.height,
                j < h,
                i <= w,
                out@.len() == byte_at(w as int, i as int, j as int, 0),
                forall|ii: int, jj: int, c: int|
                    0 <= ii < w && 0 <= jj && (jj < j || (jj == j && ii < i)) && 0 <= c < 4
                        ==> #[trigger] out@[byte_at(w as int, ii, jj, c)] == img.byte(x + ii, y + jj, c),
            decreases w - i,
        {
            let ghost before = out@;
            proof {
                lemma_pixel_in_buffer(img.width as int, img.height as int, (x + i) as int, (y + j) as int);
                assert((y + j) * img.width + (x + i) < img.width * img.height) by (nonlinear_arith)
                    requires
                        x + i < img.width,
                        y + j < img.height,
                ;
                assert(0 <= (y + j) * img.width) by (nonlinear_arith);
                assert(4 * img.width * img.height == 4 * (img.width * img.height)) by (nonlinear_arith);
            }
            let src: usize = 4 * ((y + j) as usize * (img.width as usize) + (x + i) as usize);
            assert(src == byte_at(img.width as int, (x + i) as int, (y + j) as int, 0));
            out.push(img.pixels[src]);
            out.push(img.pixels[src + 1]);
            out.push(img.pixels[src + 2]);
            out.push(img.pixels[src + 3]);
            assert forall|ii: int, jj: int, c: int|
                0 <= ii < w && 0 <= jj && (jj < j || (jj == j && ii < i + 1)) && 0 <= c < 4
                    implies #[trigger] out@[byte_at(w as int, ii, jj, c)] == img.byte(x + ii, y + jj, c) by {
                if jj == j && ii == i {
                    assert(byte_at(w as int, ii, jj, c) == before.len() + c);
                } else {
                    lemma_earlier_pixel(w as int, i as int, j as int, ii, jj, c);
                    assert(out@[byte_at(w as int, ii, jj, c)] == before[byte_at(w as int, ii, jj, c)]);
                }
            }
            i = i + 1;
        }
        proof {
            lemma_next_row(w as int, j as int);
        }
        j = j + 1;
    }
    proof {
        assert(byte_at(w as int, 0, h as int, 0) == 4 * w * h) by (nonlinear_arith);
    }
    Rgba { width: w, height: h, pixels: out }
}

/// Tight bounds are unique: two rectangles that both hold every drawn pixel and touch one on
/// each side are the same rectangle.
pub proof fn law_tight_bounds_are_unique(img: Rgba, a: Bounds, b: Bounds)
    requires
        tight(img, a),
        tight(img, b),
    ensures
        a == b,
{
    let ya: int = choose|y: int| #[trigger] img.drawn(a.min_x as int, y);
    let yb: int = choose|y: int| #[trigger] img.drawn(b.min_x as int, y);
    assert(img.drawn(a.min_x as int, ya));
    assert(img.drawn(b.min_x as int, yb));
    let za: int = choose|y: int| #[trigger] img.drawn(a.max_x as int, y);
    let zb: int = choose|y: int| #[trigger] img.drawn(b.max_x as int, y);
    assert(img.drawn(a.max_x as int, za));
    assert(img.drawn(b.max_x as int, zb));
    let xa: int = choose|x: int| #[trigger] img.drawn(x, a.min_y as int);
    let xb: int = choose|x: int| #[trigger] img.drawn(x, b.min_y as int);
    assert(img.drawn(xa, a.min_y as int));
    assert(img.drawn(xb, b.min_y as int));
    let wa: int = choose|x: int| #[trigger] img.drawn(x, a.max_y as int);
    let wb: int = choose|x: int| #[trigger] img.drawn(x, b.max_y as int);
    assert(img.drawn(wa, a.max_y as int));
    assert(img.drawn(wb, b.max_y as int));
}

/// `g` is the glyph of `img`: the crop of `img` to the bounds of its drawn pixels, or `img`
/// itself when nothing is drawn.
pub open spec fn is_glyph(img: Rgba, g: Rgba) -> bool {
    if img.any_drawn() {
        exists|b: Bounds|
            {
                &&& #[trigger] tight(img, b)
                &&& g.width == b.max_x - b.min_x + 1
                &&& g.height == b.max_y - b.min_y + 1
                &&& g.pixels@.len() == 4 * g.width * g.height
                &&& forall|i: int, j: int, c: int|
                    0 <= i < g.width && 0 <= j < g.height && 0 <= c < 4 ==> #[trigger] g.byte(i, j, c)
                        == img.byte(b.min_x + i, b.min_y + j, c)
            }
    } else {
        &&& g.width == img.width
        &&& g.height == img.height
        &&& g.pixels@ == img.pixels@
    }
}

/// Trim to the bounding box of the drawn pixels. With nothing drawn, the image comes back whole.
pub fn crop_to_alpha(img: &Rgba) -> (r: Rgba)
    requires
        img.wf(),
    ensures
        is_glyph(*img, r),
        r.wf(),
{
    match opaque_bounds(img) {
        None => Rgba { width: img.width, height: img.height, pixels: img.pixels.clone() },
        Some(b) => {
            proof {
                let py: int = choose|y: int| #[trigger] img.drawn(b.max_x as int, y);
                let px: int = choose|x: int| #[trigger] img.drawn(x, b.max_y as int);
                assert(img.drawn(b.max_x as int, py));
                assert(img.drawn(px, b.max_y as int));
            }
            let g = crop(img, b.min_x, b.min_y, b.max_x - b.min_x + 1, b.max_y - b.min_y + 1);
            assert(tight(*img, b));
            g
        },
    }
}

/// The width a glyph `width` by `height` takes when drawn `glyph_height` tall: the width scaled
/// by the same factor, rounded up, and at least one pixel. A zero height counts as one.
pub open spec fn glyph_width_for(width: int, height: int, glyph_height: int) -> int {
    let tall: int = if height < 1 { 1 } else { height };
    let scaled: int = (width * glyph_height + tall - 1) / tall;
    if scaled < 1 { 1 } else { scaled }
}

/// The scaled width is the least whole number of pixels, and at least one, that keeps the
/// glyph's proportions: `w * h >= width * glyph_height` for the glyph's height `h` (a zero
/// height counting as one), and one pixel fewer would not.
pub proof fn law_glyph_width_rounds_up(width: nat, height: nat, glyph_height: nat)
    ensures
        ({
            let h: int = if height < 1 { 1 } else { height as int };
            let w = glyph_width_for(width as int, height as int, glyph_height as int);
            &&& w >= 1
            &&& w * h >= width * glyph_height
            &&& w == 1 || (w - 1) * h < width * glyph_height
        }),
{
    let h: int = if height < 1 { 1 } else { height as int };
    let p: int = (width * glyph_height) as int;
    let q: int = (p + h - 1) / h;
    assert(q * h >= p && (q - 1) * h < p) by (nonlinear_arith)
        requires
            h >= 1,
            p >= 0,
            q == (p + h - 1) / h,
    ;
    assert(q >= 0) by (nonlinear_arith)
        requires
            h >= 1,
            p >= 0,
            q == (p + h - 1) / h,
    ;
    let w: int = glyph_width_for(width as int, height as int, glyph_height as int);
    assert(w == (if q < 1 { 1 } else { q }));
    if q < 1 {
        assert(p <= 0) by (nonlinear_arith)
            requires
                q * h >= p,
                q == 0,
        ;
        assert(w * h >= p) by (nonlinear_arith)
            requires
                w == 1,
                h >= 1,
                p <= 0,
        ;
    }
}

pub fn glyph_width(width: u32, height: u32, glyph_height: u32) -> (r: u32)
    requires
        width * glyph_height <= u32::MAX,
    ensures
        r == glyph_width_for(width as int, height as int, glyph_height as int),
{
    let tall: u64 = if height < 1 { 1 } else { height as u64 };
    let product: u64 = width as u64 * glyph_height as u64;
    let scaled: u64 = (product + tall - 1) / tall;
    proof {
        let p: int = product as int;
        let t: int = tall as int;
        let q: int = scaled as int;
        assert(q <= p || q <= 1) by (nonlinear_arith)
            requires
                t >= 1,
                p >= 0,
                q == (p + t - 1) / t,
        ;
    }
    if scaled < 1 {
        1
    } else {
        scaled as u32
    }
}

proof fn lemma_every_byte_has_a_pixel(width: int, height: int, k: int) -> (p: (int, int, int))
    requires
        width > 0,
        0 <= k < 4 * width * height,
    ensures
        0 <= p.0 < width,
        0 <= p.1 < height,
        0 <= p.2 < 4,
        k == byte_at(width, p.0, p.1, p.2),
{
    let n: int = k / 4;
    let c: int = k % 4;
    vstd::arithmetic::div_mod::lemma_fundamental_div_mod(k, 4);
    vstd::arithmetic::div_mod::lemma_mod_pos_bound(k, 4);
    let i: int = n % width;
    let j: int = n / width;
    vstd::arithmetic::div_mod::lemma_fundamental_div_mod(n, width);
    vstd::arithmetic::div_mod::lemma_mod_pos_bound(n, width);
    assert(0 <= n < width * height) by (nonlinear_arith)
        requires
            n == k / 4,
            0 <= k < 4 * width * height,
            k == 4 * n + c,
            0 <= c < 4,
    ;
    assert(0 <= j < height) by (nonlinear_arith)
        requires
            width > 0,
            0 <= n < width * height,
            n == width * j + i,
            0 <= i < width,
    ;
    assert(k == 4 * (j * width + i) + c) by (nonlinear_arith)
        requires
            k == 4 * n + c,
            n == width * j + i,
    ;
    (i, j, c)
}

/// An image has one glyph: two images that are both its glyph have the same size and bytes.
pub proof fn law_an_image_has_one_glyph(img: Rgba, g: Rgba, h: Rgba)
    requires
        is_glyph(img, g),
        is_glyph(img, h),
    ensures
        g.width == h.width,
        g.height == h.height,
        g.pixels@ == h.pixels@,
{
    if img.any_drawn() {
        let bg = choose|b: Bounds|
            {
                &&& #[trigger] tight(img, b)
                &&& g.width == b.max_x - b.min_x + 1
                &&& g.height == b.max_y - b.min_y + 1
                &&& g.pixels@.len() == 4 * g.width * g.height
                &&& forall|i: int, j: int, c: int|
                    0 <= i < g.width && 0 <= j < g.height && 0 <= c < 4 ==> #[trigger] g.byte(i, j, c)
                        == img.byte(b.min_x + i, b.min_y + j, c)
            };
        let bh = choose|b: Bounds|
            {
                &&& #[trigger] tight(img, b)
                &&& h.width == b.max_x - b.min_x + 1
                &&& h.height == b.max_y - b.min_y + 1
                &&& h.pixels@.len() == 4 * h.width * h.height
                &&& forall|i: int, j: int, c: int|
                    0 <= i < h.width && 0 <= j < h.height && 0 <= c < 4 ==> #[trigger] h.byte(i, j, c)
                        == img.byte(b.min_x + i, b.min_y + j, c)
            };
        law_tight_bounds_are_unique(img, bg, bh);
        assert forall|k: int| 0 <= k < g.pixels@.len() implies g.pixels@[k] == h.pixels@[k] by {
            let p: (int, int, int) = lemma_every_byte_has_a_pixel(g.width as int, g.height as int, k);
            assert(g.byte(p.0, p.1, p.2) == h.byte(p.0, p.1, p.2));
        }
        assert(g.pixels@ =~= h.pixels@);
    }
}

proof fn lemma_same_image_same_glyph(a: Rgba, b: Rgba, g: Rgba)
    requires
        a.width == b.width,
        a.height == b.height,
        a.pixels@ == b.pixels@,
    ensures
        is_glyph(a, g) == is_glyph(b, g),
{
    assert forall|x: int, y: int| a.drawn(x, y) == b.drawn(x, y) by {}
    assert(a.any_drawn() == b.any_drawn()) by {
        if a.any_drawn() {
            let (x, y) = choose|x: int, y: int| #[trigger] a.drawn(x, y);
            assert(b.drawn(x, y));
        }
        if b.any_drawn() {
            let (x, y) = choose|x: int, y: int| #[trigger] b.drawn(x, y);
            assert(a.drawn(x, y));
        }
    }
    assert forall|bnd: Bounds| tight(a, bnd) == tight(b, bnd) by {
        if tight(a, bnd) {
            let y1: int = choose|y: int| #[trigger] a.drawn(bnd.min_x as int, y);
            let y2: int = choose|y: int| #[trigger] a.drawn(bnd.max_x as int, y);
            let x1: int = choose|x: int| #[trigger] a.drawn(x, bnd.min_y as int);
            let x2: int = choose|x: int| #[trigger] a.drawn(x, bnd.max_y as int);
            assert(b.drawn(bnd.min_x as int, y1));
            assert(b.drawn(bnd.max_x as int, y2));
            assert(b.drawn(x1, bnd.min_y as int));
            assert(b.drawn(x2, bnd.max_y as int));
        }
        if tight(b, bnd) {
            let y1: int = choose|y: int| #[trigger] b.drawn(bnd.min_x as int, y);
            let y2: int = choose|y: int| #[trigger] b.drawn(bnd.max_x as int, y);
            let x1: int = choose|x: int| #[trigger] b.drawn(x, bnd.min_y as int);
            let x2: int = choose|x: int| #[trigger] b.drawn(x, bnd.max_y as int);
            assert(a.drawn(bnd.min_x as int, y1));
            assert(a.drawn(bnd.max_x as int, y2));
            assert(a.drawn(x1, bnd.min_y as int));
            assert(a.drawn(x2, bnd.max_y as int));
        }
    }
    assert forall|x: int, y: int, c: int| a.byte(x, y, c) == b.byte(x, y, c) by {}
}

#[verifier::external_type_specification]
#[verifier::external_body]
pub struct ExImageError(ImageError);

/// What `image` decodes `png` to, as width, height and RGBA bytes; `None` when it cannot.
pub uninterp spec fn decoded_png(png: Seq<u8>) -> Option<(u32, u32, Seq<u8>)>;

/// Calls `image::load_from_memory`, then `DynamicImage::into_rgba8`, and takes the width, height
/// and bytes of the result. Decoding depends on the bytes alone; what it yields is named, not
/// stated. The buffer of an `ImageBuffer` holds every pixel: each of its constructors checks it.
#[verifier::external_body]
fn decode_rgba(png: &[u8]) -> (r: Result<Rgba, ImageError>)
    ensures
        match r {
            Ok(img) => decoded_png(png@) == Some((img.width, img.height, img.pixels@)) && img.wf(),
            Err(_) => decoded_png(png@) is None,
        },
{
    let decoded = image::load_from_memory(png)?.into_rgba8();
    let (width, height) = decoded.dimensions();
    Ok(Rgba { width, height, pixels: decoded.into_raw() })
}

/// Calls `image::imageops::resize` with `FilterType::Lanczos3`. The result has the size asked
/// for, and its buffer holds every pixel. Nothing is claimed of the resampled bytes: the filter's
/// weights come from `f32::sin`, whose precision the standard library leaves to the platform.
/// The resize allocates a buffer of the source's width at the new height, then one of the new
/// size, four channels a pixel; it panics when either count would not fit in a `usize`.
#[verifier::external_body]
fn resize_lanczos(img: &Rgba, new_width: u32, new_height: u32) -> (r: Rgba)
    requires
        img.wf(),
        4 * img.width * new_height <= usize::MAX,
        4 * new_width * new_height <= usize::MAX,
    ensures
        r.width == new_width,
        r.height == new_height,
        r.wf(),
{
    let source: image::RgbaImage = image::ImageBuffer::from_raw(img.width, img.height, img.pixels.clone())
        .expect("the buffer holds every pixel");
    let out = image::imageops::resize(&source, new_width, new_height, image::imageops::FilterType::Lanczos3);
    let (width, height) = out.dimensions();
    Rgba { width, height, pixels: out.into_raw() }
}

/// What drawing `top` over `bottom` with its top-left corner at `(x, y)` makes of `bottom`'s
/// bytes, blending each pixel of `top` over the one beneath.
pub uninterp spec fn overlaid(
    bottom_width: u32,
    bottom_height: u32,
    bottom: Seq<u8>,
    top_width: u32,
    top_height: u32,
    top: Seq<u8>,
    x: i64,
    y: i64,
) -> Seq<u8>;

/// Calls `image::imageops::overlay`. `bottom` keeps its size and buffer length; its bytes
/// become what the blend makes of them, which is named, not stated. The blend writes only the
/// pixels that `top` covers, so every pixel of `bottom` outside the rectangle of `top`'s size at
/// `(x, y)` keeps its bytes.
#[verifier::external_body]
fn overlay_at(bottom: &mut Rgba, top: &Rgba, x: i64, y: i64)
    requires
        old(bottom).wf(),
        top.wf(),
    ensures
        final(bottom).width == old(bottom).width,
        final(bottom).height == old(bottom).height,
        final(bottom).pixels@.len() == old(bottom).pixels@.len(),
        final(bottom).pixels@ == overlaid(
            old(bottom).width,
            old(bottom).height,
            old(bottom).pixels@,
            top.width,
            top.height,
            top.pixels@,
            x,
            y,
        ),
        forall|i: int, j: int, c: int|
            0 <= i < old(bottom).width && 0 <= j < old(bottom).height && 0 <= c < 4 && !(x <= i < x
                + top.width && y <= j < y + top.height) ==> #[trigger] final(bottom).byte(i, j, c)
                == old(bottom).byte(i, j, c),
{
    let pixels = std::mem::take(&mut bottom.pixels);
    let mut canvas: image::RgbaImage = image::ImageBuffer::from_raw(bottom.width, bottom.height, pixels)
        .expect("the buffer holds every pixel");
    let layer: image::RgbaImage = image::ImageBuffer::from_raw(top.width, top.height, top.pixels.clone())
        .expect("the buffer holds every pixel");
    image::imageops::overlay(&mut canvas, &layer, x, y);
    bottom.pixels = canvas.into_raw();
}

/// The bytes of a fully transparent image with `n` bytes.
pub open spec fn clear_bytes(n: nat) -> Seq<u8> {
    Seq::new(n, |k: int| 0u8)
}

impl Rgba {
    /// A `width` by `height` image with every byte zero: transparent black.
    pub fn transparent(width: u32, height: u32) -> (r: Rgba)
        requires
            4 * width * height <= usize::MAX,
        ensures
            r.width == width,
            r.height == height,
            r.pixels@ == clear_bytes((4 * width * height) as nat),
            r.wf(),
    {
        proof {
            assert(4 * width * height == 4 * (width * height)) by (nonlinear_arith);
        }
        let n: usize = 4 * (width as usize * height as usize);
        let mut pixels: Vec<u8> = Vec::new();
        let mut k: usize = 0;
        while k < n
            invariant
                k <= n,
                pixels@ == clear_bytes(k as nat),
            decreases n - k,
        {
            pixels.push(0u8);
            k = k + 1;
            assert(pixels@ =~= clear_bytes(k as nat));
        }
        Rgba { width, height, pixels }
    }
}

/// How tall the glyph is drawn, in pixels: about twice the bar's point size.
pub const GLYPH_HEIGHT: u32 = 30;

/// Transparent margin on each side of the glyph, in pixels.
pub const ICON_PAD: u32 = 4;

/// Why a PNG could not be made into an icon.
pub enum IconError {
    /// `image` could not decode it.
    Undecodable(ImageError),
    /// The scaled glyph would be too wide for the sizes the icon is built in.
    TooLarge,
}

/// The icon made from glyph `g`: a canvas the scaled glyph's width and the glyph height, plus the
/// margin on every side, transparent outside the glyph's place, with some `scaled` image of that
/// width and height drawn over it at the margin (what resampling makes of `g` is not stated). Too
/// wide a glyph is `TooLarge`.
pub open spec fn icon_from_glyph(g: Rgba, r: Result<Rgba, IconError>) -> bool {
    let gw = glyph_width_for(g.width as int, g.height as int, GLYPH_HEIGHT as int);
    let cw = gw + 2 * ICON_PAD;
    let ch = GLYPH_HEIGHT + 2 * ICON_PAD;
    if g.width * GLYPH_HEIGHT > u32::MAX || cw > u32::MAX || 4 * cw * ch > usize::MAX {
        r matches Err(IconError::TooLarge)
    } else {
        &&& r matches Ok(icon)
        &&& icon.width == cw
        &&& icon.height == ch
        &&& icon.wf()
        &&& forall|i: int, j: int, c: int|
            0 <= i < cw && 0 <= j < ch && 0 <= c < 4 && !(ICON_PAD <= i < ICON_PAD + gw && ICON_PAD <= j
                < ICON_PAD + GLYPH_HEIGHT) ==> #[trigger] icon.byte(i, j, c) == 0
        &&& exists|scaled: Rgba|
            {
                &&& scaled.width == gw
                &&& scaled.height == GLYPH_HEIGHT
                &&& scaled.wf()
                &&& #[trigger] overlaid(
                    cw as u32,
                    ch as u32,
                    clear_bytes((4 * cw * ch) as nat),
                    gw as u32,
                    GLYPH_HEIGHT,
                    scaled.pixels@,
                    ICON_PAD as i64,
                    ICON_PAD as i64,
                ) == icon.pixels@
            }
    }
}

/// The glyph's width at the glyph height is at most the scaled width whenever the glyph is no
/// taller than that height, so both buffers a resize allocates fit wherever the canvas fits.
proof fn lemma_resize_fits(width: int, height: int, scaled: int, canvas_w: int)
    requires
        0 <= width,
        0 <= height,
        scaled == glyph_width_for(width, height, GLYPH_HEIGHT as int),
        canvas_w == scaled + 2 * ICON_PAD,
        4 * canvas_w * (GLYPH_HEIGHT + 2 * ICON_PAD) <= usize::MAX,
        4 * width * height <= usize::MAX,
    ensures
        4 * scaled * GLYPH_HEIGHT <= usize::MAX,
        4 * width * GLYPH_HEIGHT <= usize::MAX,
{
    let h: int = GLYPH_HEIGHT as int;
    assert(4 * scaled * h <= 4 * canvas_w * (h + 2 * ICON_PAD)) by (nonlinear_arith)
        requires
            0 <= scaled <= canvas_w,
            h == 30,
    ;
    if height >= h {
        assert(4 * width * h <= 4 * width * height) by (nonlinear_arith)
            requires
                0 <= width,
                h <= height,
        ;
    } else {
        let tall: int = if height < 1 { 1 } else { height };
        assert(width <= (width * h + tall - 1) / tall) by (nonlinear_arith)
            requires
                0 <= width,
                1 <= tall <= h,
        ;
        assert(4 * width * h <= 4 * scaled * h) by (nonlinear_arith)
            requires
                0 <= width <= scaled,
                h == 30,
        ;
    }
}

/// Trim `png` to its drawn bounds and size it for the menu bar.
pub fn prepare_icon(png: &[u8]) -> (r: Result<Rgba, IconError>)
    ensures
        decoded_png(png@) is None <==> r matches Err(IconError::Undecodable(_)),
        decoded_png(png@) matches Some(d) ==> forall|img: Rgba, g: Rgba|
            (img.width, img.height, img.pixels@) == d && img.wf() && is_glyph(img, g)
                ==> icon_from_glyph(g, r),
{
    let img = match decode_rgba(png) {
        Ok(img) => img,
        Err(e) => return Err(IconError::Undecodable(e)),
    };
    let glyph = crop_to_alpha(&img);
    proof {
        assert forall|other: Rgba, g: Rgba|
            (other.width, other.height, other.pixels@) == (img.width, img.height, img.pixels@) && other.wf()
                && is_glyph(other, g) implies g.width == glyph.width && g.height == glyph.height
                && g.pixels@ == glyph.pixels@ by {
            lemma_same_image_same_glyph(other, img, glyph);
            law_an_image_has_one_glyph(other, g, glyph);
        }
    }
    let glyph_width_wide: u64 = glyph.width as u64;
    let glyph_height_wide: u64 = GLYPH_HEIGHT as u64;
    assert(glyph_width_wide * glyph_height_wide <= 0xffff_ffff * 30) by (nonlinear_arith)
        requires
            glyph_width_wide <= 0xffff_ffff,
            glyph_height_wide == 30,
    ;
    if glyph_width_wide * glyph_height_wide > u32::MAX as u64 {
        return Err(IconError::TooLarge);
    }
    let glyph_w = glyph_width(glyph.width, glyph.height, GLYPH_HEIGHT);
    if glyph_w as u64 + 2 * ICON_PAD as u64 > u32::MAX as u64 {
        return Err(IconError::TooLarge);
    }
    let canvas_w: u32 = glyph_w + 2 * ICON_PAD;
    let canvas_h: u32 = GLYPH_HEIGHT + 2 * ICON_PAD;
    let canvas_w_wide: u64 = canvas_w as u64;
    let canvas_h_wide: u64 = canvas_h as u64;
    assert(4 * canvas_w_wide * canvas_h_wide <= 4 * 0xffff_ffff * 38) by (nonlinear_arith)
        requires
            canvas_w_wide <= 0xffff_ffff,
            canvas_h_wide == 38,
    ;
    if 4 * canvas_w_wide * canvas_h_wide > usize::MAX as u64 {
        return Err(IconError::TooLarge);
    }
    proof {
        assert(glyph.pixels@.len() == glyph.pixels.len());
        lemma_resize_fits(glyph.width as int, glyph.height as int, glyph_w as int, canvas_w as int);
    }
    let scaled = resize_lanczos(&glyph, glyph_w, GLYPH_HEIGHT);
    let mut canvas = Rgba::transparent(canvas_w, canvas_h);
    let ghost blank = canvas;
    proof {
        assert forall|i: int, j: int, c: int|
            0 <= i < canvas_w && 0 <= j < canvas_h && 0 <= c < 4 implies #[trigger] blank.byte(i, j, c) == 0 by {
            lemma_pixel_in_buffer(canvas_w as int, canvas_h as int, i, j);
            assert(4 * canvas_w * canvas_h == 4 * (canvas_w * canvas_h)) by (nonlinear_arith);
        }
    }
    overlay_at(&mut canvas, &scaled, ICON_PAD as i64, ICON_PAD as i64);
    proof {
        assert forall|i: int, j: int, c: int|
            0 <= i < canvas_w && 0 <= j < canvas_h && 0 <= c < 4 && !(ICON_PAD <= i < ICON_PAD + glyph_w
                && ICON_PAD <= j < ICON_PAD + GLYPH_HEIGHT) implies #[trigger] canvas.byte(i, j, c) == 0 by {
            assert(blank.byte(i, j, c) == 0);
        }
        assert(overlaid(
            canvas_w,
            canvas_h,
            clear_bytes((4 * canvas_w * canvas_h) as nat),
            glyph_w,
            GLYPH_HEIGHT,
            scaled.pixels@,
            ICON_PAD as i64,
            ICON_PAD as i64,
        ) == canvas.pixels@);
        let icon = canvas;
        assert forall|other: Rgba, g: Rgba|
            (other.width, other.height, other.pixels@) == (img.width, img.height, img.pixels@) && other.wf()
                && is_glyph(other, g) implies icon_from_glyph(g, Ok::<Rgba, IconError>(icon)) by {
            let gw = glyph_width_for(g.width as int, g.height as int, GLYPH_HEIGHT as int);
            let cw = gw + 2 * ICON_PAD;
            let ch = GLYPH_HEIGHT + 2 * ICON_PAD;
            assert(gw == glyph_w);
            assert(cw as u32 == canvas_w);
            assert(ch as u32 == canvas_h);
            assert(overlaid(
                cw as u32,
                ch as u32,
                clear_bytes((4 * cw * ch) as nat),
                gw as u32,
                GLYPH_HEIGHT,
                scaled.pixels@,
                ICON_PAD as i64,
                ICON_PAD as i64,
            ) == icon.pixels@);
        }
    }
    Ok(canvas)
}

} // verus!
