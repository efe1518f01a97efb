//! Fitting an image of fixed proportions into a surface, centred.
use vstd::arithmetic::div_mod::lemma_remainder;
use vstd::prelude::*;

verus! {

/// The image's proportions, kept as its pixel width and height.
#[derive(Clone, Copy, Debug, PartialEq, Eq, Structural)]
pub struct AspectRatio {
    pub width: u32,
    pub height: u32,
}

impl AspectRatio {
    /// Both sides of the source image are positive.
    pub open spec fn wf(self) -> bool {
        self.width > 0 && self.height > 0
    }

    /// The proportions of an image of the given pixel size; `None` where a
    /// side is not positive, since such an image cannot be shown.
    pub fn from_image_size(width: i32, height: i32) -> (r: Option<AspectRatio>)
        ensures
            r.is_some() <==> (width > 0 && height > 0),
            r matches Some(a) ==> a.wf() && a.width == width && a.height == height,
    {
        if width > 0 && height > 0 {
            Some(AspectRatio { width: width as u32, height: height as u32 })
        } else {
            None
        }
    }
}

/// An axis-aligned rectangle in surface coordinates.
#[derive(Clone, Copy, Debug, PartialEq, Eq, Structural)]
pub struct ImageRect {
    pub x: i32,
    pub y: i32,
    pub width: i32,
    pub height: i32,
}

impl View for ImageRect {
    /// `(x, y, width, height)`
    type V = (int, int, int, int);

    open spec fn view(&self) -> (int, int, int, int) {
        (self.x as int, self.y as int, self.width as int, self.height as int)
    }
}

impl ImageRect {
    /// The rectangle covers no area.
    pub open spec fn spec_is_empty(self) -> bool {
        self.width <= 0 || self.height <= 0
    }

    /// Whether the rectangle covers no area.
    pub fn is_empty(&self) -> (r: bool)
        ensures
            r == self.spec_is_empty(),
    {
        self.width <= 0 || self.height <= 0
    }
}

/// `num / den` rounded to the nearest integer, halves upward.
pub open spec fn round_div(num: int, den: int) -> int {
    (2 * num + den) / (2 * den)
}

/// A surface of `sw` by `sh` is at least as wide, for its height, as the image.
pub open spec fn surface_is_wider(sw: int, sh: int, ratio: AspectRatio) -> bool {
    sw * ratio.height >= sh * ratio.width
}

/// The image rectangle, as `(x, y, width, height)`, for a surface of `sw` by `sh`.
/// The image fills the surface's height where the surface is wider, its width
/// otherwise, and is centred along the other axis. An empty surface gives an
/// empty rectangle.
pub open spec fn fitted_rect(sw: int, sh: int, ratio: AspectRatio) -> (int, int, int, int) {
    if sw <= 0 || sh <= 0 {
        (0, 0, 0, 0)
    } else if surface_is_wider(sw, sh, ratio) {
        let w = round_div(sh * ratio.width, ratio.height as int);
        ((sw - w) / 2, 0, w, sh)
    } else {
        let h = round_div(sw * ratio.height, ratio.width as int);
        (0, (sh - h) / 2, sw, h)
    }
}

/// The image rectangle for a surface of `sw` by `sh`, as a value.
pub open spec fn image_rect_spec(sw: int, sh: int, ratio: AspectRatio) -> ImageRect {
    let (x, y, w, h) = fitted_rect(sw, sh, ratio);
    ImageRect { x: x as i32, y: y as i32, width: w as i32, height: h as i32 }
}

/// Bounds on a rounded quotient: it is within half a unit of the exact one,
/// and it does not pass an integer bound of the exact one.
pub proof fn lemma_round_div_bounds(num: int, den: int, bound: int)
    requires
        0 <= num,
        0 < den,
        num <= bound * den,
    ensures
        0 <= round_div(num, den) <= bound,
        2 * den * round_div(num, den) - 2 * num <= den,
        2 * num - 2 * den * round_div(num, den) < den,
{
    let n = 2 * num + den;
    let d = 2 * den;
    let q = n / d;
    lemma_remainder(n, d);
    assert(n == d * q + (n - q * d)) by (nonlinear_arith);
    assert(0 <= q) by (nonlinear_arith)
        requires
            n == d * q + (n - q * d),
            0 <= n - q * d < d,
            0 <= n,
            0 < d,
    ;
    assert(q <= bound) by (nonlinear_arith)
        requires
            n == d * q + (n - q * d),
            0 <= n - q * d,
            n == 2 * num + den,
            d == 2 * den,
            num <= bound * den,
            0 < den,
    ;
    assert(d * q - 2 * num <= den && 2 * num - d * q < den) by (nonlinear_arith)
        requires
            n == d * q + (n - q * d),
            0 <= n - q * d < d,
            n == 2 * num + den,
            d == 2 * den,
    ;
}

/// The image rectangle lies inside the surface, and its proportions are the
/// image's up to the rounding of one side to whole pixels.
pub proof fn lemma_fitted_rect_fits(sw: int, sh: int, ratio: AspectRatio)
    requires
        sw > 0,
        sh > 0,
        ratio.wf(),
    ensures
        ({
            let (x, y, w, h) = fitted_rect(sw, sh, ratio);
            &&& 0 <= x && 0 <= w && x + w <= sw
            &&& 0 <= y && 0 <= h && y + h <= sh
            &&& surface_is_wider(sw, sh, ratio) ==> h == sh
                && -(ratio.height as int) <= 2 * w * ratio.height - 2 * h * ratio.width
                <= ratio.height
            &&& !surface_is_wider(sw, sh, ratio) ==> w == sw
                && -(ratio.width as int) <= 2 * h * ratio.width - 2 * w * ratio.height
                <= ratio.width
        }),
{
    let rw = ratio.width as int;
    let rh = ratio.height as int;
    if surface_is_wider(sw, sh, ratio) {
        assert(0 <= sh * rw) by (nonlinear_arith)
            requires
                sh > 0,
                rw > 0,
        ;
        lemma_round_div_bounds(sh * rw, rh, sw);
        let w = round_div(sh * rw, rh);
        assert(2 * rh * w == 2 * w * rh && 2 * (sh * rw) == 2 * sh * rw) by (nonlinear_arith);
        assert(0 <= (sw - w) / 2 <= sw - w);
    } else {
        assert(0 <= sw * rh && sw * rh <= sh * rw) by (nonlinear_arith)
            requires
                sw > 0,
                rh > 0,
                sw * rh < sh * rw,
        ;
        lemma_round_div_bounds(sw * rh, rw, sh);
        let h = round_div(sw * rh, rw);
        assert(2 * rw * h == 2 * h * rw && 2 * (sw * rh) == 2 * sw * rh) by (nonlinear_arith);
        assert(0 <= (sh - h) / 2 <= sh - h);
    }
}

/// The rectangle is a function of its arguments: two results computed from
/// the same surface size and proportions are identical.
pub proof fn lemma_image_rect_deterministic(
    a: ImageRect,
    b: ImageRect,
    sw: int,
    sh: int,
    ratio: AspectRatio,
)
    requires
        a@ == fitted_rect(sw, sh, ratio),
        b@ == fitted_rect(sw, sh, ratio),
    ensures
        a == b,
{
}

/// `num / den` rounded to the nearest integer, halves upward.
fn rounded_quotient(num: u64, den: u64) -> (q: u64)
    requires
        0 < den <= 0xffff_ffff,
        num <= 0x7fff_ffff * 0xffff_ffff,
    ensures
        q == round_div(num as int, den as int),
{
    (2 * num + den) / (2 * den)
}

/// Whether a surface of `surface_w` by `surface_h` is at least as wide, for
/// its height, as the image.
pub fn is_surface_wider(surface_w: i32, surface_h: i32, ratio: AspectRatio) -> (r: bool)
    requires
        surface_w > 0,
        surface_h > 0,
    ensures
        r == surface_is_wider(surface_w as int, surface_h as int, ratio),
{
    let sw = surface_w as u64;
    let sh = surface_h as u64;
    let rw = ratio.width as u64;
    let rh = ratio.height as u64;
    assert(sw * rh <= 0x7fff_ffff * 0xffff_ffff && sh * rw <= 0x7fff_ffff * 0xffff_ffff)
        by (nonlinear_arith)
        requires
            sw <= 0x7fff_ffff,
            sh <= 0x7fff_ffff,
            rw <= 0xffff_ffff,
            rh <= 0xffff_ffff,
    ;
    sw * rh >= sh * rw
}

/// The rectangle that the image covers in a surface of `surface_w` by
/// `surface_h`.
pub fn compute_image_rect(surface_w: i32, surface_h: i32, ratio: AspectRatio) -> (r: ImageRect)
    requires
        ratio.wf(),
    ensures
        r@ == fitted_rect(surface_w as int, surface_h as int, ratio),
        r == image_rect_spec(surface_w as int, surface_h as int, ratio),
{
    if surface_w <= 0 || surface_h <= 0 {
        return ImageRect { x: 0, y: 0, width: 0, height: 0 };
    }
    let sw = surface_w as u64;
    let sh = surface_h as u64;
    let rw = ratio.width as u64;
    let rh = ratio.height as u64;
    assert(sw * rh <= 0x7fff_ffff * 0xffff_ffff && sh * rw <= 0x7fff_ffff * 0xffff_ffff)
        by (nonlinear_arith)
        requires
            sw <= 0x7fff_ffff,
            sh <= 0x7fff_ffff,
            rw <= 0xffff_ffff,
            rh <= 0xffff_ffff,
    ;
    proof {
        lemma_fitted_rect_fits(sw as int, sh as int, ratio);
    }
    if is_surface_wider(surface_w, surface_h, ratio) {
        let w = rounded_quotient(sh * rw, rh);
        let x = (sw - w) / 2;
        ImageRect { x: x as i32, y: 0, width: w as i32, height: surface_h }
    } else {
        let h = rounded_quotient(sw * rh, rw);
        let y = (sh - h) / 2;
        ImageRect { x: 0, y: y as i32, width: surface_w, height: h as i32 }
    }
}

} // verus!
