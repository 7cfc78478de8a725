use vstd::prelude::*;

verus! {

/// The colour scale: every component below is a multiple of
/// `1 / COLOR_SCALE`, so the conversion is carried out exactly. A byte `b`
/// samples as `b / 255`, which is `b * 32000` units.
pub const COLOR_SCALE: i64 = 8_160_000;

/// A colour with components in units of `1 / COLOR_SCALE`.
#[derive(Debug, Clone, Copy, PartialEq, Eq)]
pub struct Rgba {
    pub red: i64,
    pub green: i64,
    pub blue: i64,
    pub alpha: i64,
}

/// The luma sample minus the limited-range offset 0.0625, in scale units.
pub open spec fn luma_term(y: u8) -> int {
    y * 32000 - 510_000
}

/// A chroma sample minus 0.5, in thousands of scale units (the value in
/// scale units is always a multiple of 1000).
pub open spec fn chroma_term(c: u8) -> int {
    c * 32 - 4080
}

/// The fragment stage's conversion, with the coefficients 1.596, 0.813,
/// 0.391 and 2.018 written as thousandths, and alpha fully opaque:
/// r = y' + 1.596 v', g = y' - 0.813 v' - 0.391 u', b = y' + 2.018 u'.
pub open spec fn yuv_to_rgba(y: u8, u: u8, v: u8) -> Rgba {
    Rgba {
        red: (luma_term(y) + 1596 * chroma_term(v)) as i64,
        green: (luma_term(y) - 813 * chroma_term(v) - 391 * chroma_term(u)) as i64,
        blue: (luma_term(y) + 2018 * chroma_term(u)) as i64,
        alpha: COLOR_SCALE,
    }
}

/// The colour the renderer shows for one pixel with samples `y`, `u`, `v`.
pub fn convert_pixel(y: u8, u: u8, v: u8) -> (r: Rgba)
    ensures
        r == yuv_to_rgba(y, u, v),
{
    let yy: i64 = (y as i64) * 32000 - 510_000;
    let uu: i64 = (u as i64) * 32 - 4080;
    let vv: i64 = (v as i64) * 32 - 4080;
    Rgba {
        red: yy + 1596 * vv,
        green: yy - 813 * vv - 391 * uu,
        blue: yy + 2018 * uu,
        alpha: COLOR_SCALE,
    }
}

/// Mid-gray chroma (128 in both chroma planes) leaves a pixel gray: each of
/// red, green and blue is within 0.5% of full scale of the luma term, which
/// at full luma (255) is 0.9375 exactly; alpha is fully opaque.
pub proof fn lemma_mid_chroma_is_gray(y: u8)
    ensures
        luma_term(255) * 16 == COLOR_SCALE * 15,
        yuv_to_rgba(y, 128, 128).alpha == COLOR_SCALE,
        -COLOR_SCALE / 200 < yuv_to_rgba(y, 128, 128).red - luma_term(y) < COLOR_SCALE / 200,
        -COLOR_SCALE / 200 < yuv_to_rgba(y, 128, 128).green - luma_term(y) < COLOR_SCALE / 200,
        -COLOR_SCALE / 200 < yuv_to_rgba(y, 128, 128).blue - luma_term(y) < COLOR_SCALE / 200,
{
}

} // verus!
