//! RGBA pixel buffers and the two edits the bot makes to pictures:
//! mirroring one half onto the other, and inverting the colours.

use vstd::arithmetic::div_mod::{lemma_fundamental_div_mod, lemma_fundamental_div_mod_converse};
use vstd::prelude::*;

verus! {

/// An 8-bit RGBA picture: `pixels` holds four bytes (red, green, blue,
/// alpha) per pixel, row after row.
pub struct RgbaImage {
    pub width: u32,
    pub height: u32,
    pub pixels: Vec<u8>,
}

impl RgbaImage {
    /// The buffer holds exactly the picture's pixels.
    pub open spec fn well_formed(&self) -> bool {
        self.pixels@.len() == 4 * (self.width as int) * (self.height as int)
    }
}

/// Which half of the picture is kept and mirrored onto the other.
#[derive(Clone, Copy)]
pub enum Mirror {
    Left,
    Right,
    Up,
    Down,
}

/// The column a mirrored picture reads column `x` from.
pub open spec fn mirror_x(d: Mirror, w: int, x: int) -> int {
    let hw = w / 2;
    match d {
        Mirror::Left => if hw <= x < 2 * hw { 2 * hw - 1 - x } else { x },
        Mirror::Right => if x < w - hw { w - 1 - x } else { x },
        _ => x,
    }
}

/// The row a mirrored picture reads row `y` from.
pub open spec fn mirror_y(d: Mirror, h: int, y: int) -> int {
    let hh = h / 2;
    match d {
        Mirror::Up => if hh <= y < 2 * hh { 2 * hh - 1 - y } else { y },
        Mirror::Down => if y < h - hh { h - 1 - y } else { y },
        _ => y,
    }
}

/// The byte of the source a mirrored picture of width `w` and height `h`
/// reads its byte `k` from.
pub open spec fn byte_source(d: Mirror, w: int, h: int, k: int) -> int {
    let p = k / 4;
    let x = p % w;
    let y = p / w;
    4 * (mirror_y(d, h, y) * w + mirror_x(d, w, x)) + k % 4
}

/// The bytes of the picture `s` (width `w`, height `h`) mirrored along `d`.
pub open spec fn mirrored(d: Mirror, w: int, h: int, s: Seq<u8>) -> Seq<u8> {
    Seq::new(s.len(), |k: int| s[byte_source(d, w, h, k)])
}

/// The bytes of `s` with red, green and blue inverted and alpha kept.
pub open spec fn inverted(s: Seq<u8>) -> Seq<u8> {
    Seq::new(s.len(), |k: int| if k % 4 == 3 { s[k] } else { (255 - s[k]) as u8 })
}

/// Byte `k` of a `w` by `h` picture is channel `k % 4` of the pixel at
/// column `(k / 4) % w` and row `(k / 4) / w`.
proof fn lemma_byte_pixel(k: int, w: int, h: int)
    requires
        w > 0,
        h > 0,
        0 <= k < 4 * w * h,
    ensures
        0 <= (k / 4) % w < w,
        0 <= (k / 4) / w < h,
        0 <= k % 4 < 4,
        k == 4 * (((k / 4) / w) * w + (k / 4) % w) + k % 4,
{
    let p = k / 4;
    lemma_fundamental_div_mod(k, 4);
    assert(0 <= p < w * h) by (nonlinear_arith)
        requires
            0 <= k < 4 * w * h,
            p == k / 4,
    ;
    lemma_fundamental_div_mod(p, w);
    let q = p / w;
    assert(w * q == q * w) by (nonlinear_arith);
    assert(0 <= p / w < h) by (nonlinear_arith)
        requires
            0 <= p < w * h,
            w > 0,
    ;
}

/// The byte of channel `c` of the pixel at (`x`, `y`) lies in the picture,
/// and reading it back gives that pixel and channel.
proof fn lemma_pixel_byte(x: int, y: int, c: int, w: int, h: int)
    requires
        0 <= x < w,
        0 <= y < h,
        0 <= c < 4,
    ensures
        0 <= 4 * (y * w + x) + c < 4 * w * h,
        (4 * (y * w + x) + c) / 4 == y * w + x,
        (4 * (y * w + x) + c) % 4 == c,
        (y * w + x) % w == x,
        (y * w + x) / w == y,
{
    assert(0 <= y * w + x < w * h) by (nonlinear_arith)
        requires
            0 <= x < w,
            0 <= y < h,
    ;
    assert(0 <= 4 * (y * w + x) + c < 4 * w * h) by (nonlinear_arith)
        requires
            0 <= y * w + x < w * h,
            0 <= c < 4,
    ;
    lemma_fundamental_div_mod_converse(4 * (y * w + x) + c, 4, y * w + x, c);
    lemma_fundamental_div_mod_converse(y * w + x, w, y, x);
}

/// Mirroring moves no byte out of the picture.
proof fn lemma_source_in_range(d: Mirror, w: int, h: int, k: int)
    requires
        w > 0,
        h > 0,
        0 <= k < 4 * w * h,
    ensures
        0 <= byte_source(d, w, h, k) < 4 * w * h,
{
    lemma_byte_pixel(k, w, h);
    let x = (k / 4) % w;
    let y = (k / 4) / w;
    lemma_pixel_byte(mirror_x(d, w, x), mirror_y(d, h, y), k % 4, w, h);
}

/// A picture with a zero side has no bytes.
proof fn lemma_empty_side(w: int, h: int)
    requires
        w == 0 || h == 0,
    ensures
        4 * w * h == 0,
{
    assert(4 * w * h == 0) by (nonlinear_arith)
        requires
            w == 0 || h == 0,
    ;
}

/// The picture mirrored along `d`.
pub fn mirror(img: &RgbaImage, d: Mirror) -> (r: RgbaImage)
    requires
        img.well_formed(),
    ensures
        r.well_formed(),
        r.width == img.width,
        r.height == img.height,
        r.pixels@ == mirrored(d, img.width as int, img.height as int, img.pixels@),
{
    let n = img.pixels.len();
    let w = img.width as usize;
    let h = img.height as usize;
    let ghost wi = w as int;
    let ghost hi = h as int;
    let mut out: Vec<u8> = Vec::new();
    if w == 0 || h == 0 {
        proof {
            lemma_empty_side(wi, hi);
        }
        assert(out@ =~= mirrored(d, wi, hi, img.pixels@));
        return RgbaImage { width: img.width, height: img.height, pixels: out };
    }
    let hw = w / 2;
    let hh = h / 2;
    let mut k: usize = 0;
    while k < n
        invariant
            n == img.pixels@.len(),
            n == 4 * wi * hi,
            wi == img.width,
            hi == img.height,
            w == wi,
            h == hi,
            w > 0,
            h > 0,
            hw == wi / 2,
            hh == hi / 2,
            k <= n,
            out@.len() == k,
            forall|j: int| 0 <= j < k ==> out@[j] == #[trigger] img.pixels@[byte_source(d, wi, hi, j)],
        decreases n - k,
    {
        proof {
            lemma_byte_pixel(k as int, wi, hi);
        }
        let p = k / 4;
        let c = k % 4;
        let x = p % w;
        let y = p / w;
        let sx: usize = match d {
            Mirror::Left => if hw <= x && x < 2 * hw { 2 * hw - 1 - x } else { x },
            Mirror::Right => if x < w - hw { w - 1 - x } else { x },
            _ => x,
        };
        let sy: usize = match d {
            Mirror::Up => if hh <= y && y < 2 * hh { 2 * hh - 1 - y } else { y },
            Mirror::Down => if y < h - hh { h - 1 - y } else { y },
            _ => y,
        };
        assert(sx as int == mirror_x(d, wi, x as int));
        assert(sy as int == mirror_y(d, hi, y as int));
        proof {
            lemma_pixel_byte(sx as int, sy as int, c as int, wi, hi);
            assert(sy * w + sx < w * h) by (nonlinear_arith)
                requires
                    sx < w,
                    sy < h,
            ;
        }
        let idx = 4 * (sy * w + sx) + c;
        assert(idx as int == byte_source(d, wi, hi, k as int));
        out.push(img.pixels[idx]);
        k = k + 1;
    }
    assert(out@ =~= mirrored(d, wi, hi, img.pixels@));
    RgbaImage { width: img.width, height: img.height, pixels: out }
}

/// The picture with its colours inverted and its alpha kept.
pub fn invert(img: &RgbaImage) -> (r: RgbaImage)
    requires
        img.well_formed(),
    ensures
        r.well_formed(),
        r.width == img.width,
        r.height == img.height,
        r.pixels@ == inverted(img.pixels@),
{
    let n = img.pixels.len();
    let mut out: Vec<u8> = Vec::new();
    let mut k: usize = 0;
    while k < n
        invariant
            n == img.pixels@.len(),
            k <= n,
            out@.len() == k,
            forall|j: int| 0 <= j < k ==> out@[j] == (if j % 4 == 3 {
                img.pixels@[j]
            } else {
                (255 - img.pixels@[j]) as u8
            }),
        decreases n - k,
    {
        let b = img.pixels[k];
        if k % 4 == 3 {
            out.push(b);
        } else {
            out.push(255 - b);
        }
        k = k + 1;
    }
    assert(out@ =~= inverted(img.pixels@));
    RgbaImage { width: img.width, height: img.height, pixels: out }
}

/// Inverting the colours twice gives the picture back.
pub proof fn law_invert_twice(s: Seq<u8>)
    ensures
        inverted(inverted(s)) == s,
{
    assert(inverted(inverted(s)) =~= s);
}

/// Mirroring a mirrored picture along the same side changes nothing: the
/// first mirroring already made the picture symmetric.
pub proof fn law_mirror_idempotent(d: Mirror, w: int, h: int, s: Seq<u8>)
    requires
        w >= 0,
        h >= 0,
        s.len() == 4 * w * h,
    ensures
        mirrored(d, w, h, mirrored(d, w, h, s)) == mirrored(d, w, h, s),
{
    let m = mirrored(d, w, h, s);
    if w == 0 || h == 0 {
        lemma_empty_side(w, h);
        assert(mirrored(d, w, h, m) =~= m);
    } else {
        assert forall|k: int| 0 <= k < s.len() implies #[trigger] m[byte_source(d, w, h, k)] == m[k] by {
            lemma_byte_pixel(k, w, h);
            let x = (k / 4) % w;
            let y = (k / 4) / w;
            let c = k % 4;
            let sx = mirror_x(d, w, x);
            let sy = mirror_y(d, h, y);
            lemma_pixel_byte(sx, sy, c, w, h);
            let j = byte_source(d, w, h, k);
            assert(j == 4 * (sy * w + sx) + c);
            assert(mirror_x(d, w, sx) == sx);
            assert(mirror_y(d, h, sy) == sy);
            assert(byte_source(d, w, h, j) == j);
            lemma_source_in_range(d, w, h, k);
        }
        assert(mirrored(d, w, h, m) =~= m);
    }
}

} // verus!
