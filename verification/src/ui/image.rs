//! Pixel buffers for the preview.

use vstd::prelude::*;

verus! {

/// The longest edge, in pixels, of a preview unless the preferences say otherwise.
pub const PREVIEW_DEFAULT_MAX_EDGE: i32 = 1600;

/// The first `n` pixels of packed RGB data, as BGRA with full opacity.
pub open spec fn bgra_pixels(rgb: Seq<u8>, n: nat) -> Seq<u8>
    decreases n,
{
    if n == 0 {
        Seq::empty()
    } else {
        let k = 3 * (n - 1);
        bgra_pixels(rgb, (n - 1) as nat) + seq![rgb[k + 2], rgb[k + 1], rgb[k], 255u8]
    }
}

/// Packed RGB data as BGRA with full opacity; a trailing partial pixel is dropped.
pub open spec fn bgra_of(rgb: Seq<u8>) -> Seq<u8> {
    bgra_pixels(rgb, rgb.len() / 3)
}

/// `bgra_pixels` holds four bytes per pixel.
pub proof fn lemma_bgra_pixels_len(rgb: Seq<u8>, n: nat)
    ensures
        bgra_pixels(rgb, n).len() == 4 * n,
    decreases n,
{
    if n > 0 {
        lemma_bgra_pixels_len(rgb, (n - 1) as nat);
    }
}

/// Reorders packed RGB pixels into the BGRA layout the renderer takes.
pub fn rgb_to_bgra(rgb: &[u8]) -> (bgra: Vec<u8>)
    ensures
        bgra@ == bgra_of(rgb@),
{
    let n = rgb.len() / 3;
    let mut bgra: Vec<u8> = Vec::new();
    let mut i: usize = 0;
    assert(3 * n <= rgb@.len()) by (nonlinear_arith)
        requires
            n == rgb@.len() / 3,
    ;
    while i < n
        invariant
            n == rgb@.len() / 3,
            3 * n <= rgb@.len(),
            rgb@.len() <= usize::MAX,
            i <= n,
            bgra@ == bgra_pixels(rgb@, i as nat),
        decreases n - i,
    {
        let k = 3 * i;
        bgra.push(rgb[k + 2]);
        bgra.push(rgb[k + 1]);
        bgra.push(rgb[k]);
        bgra.push(255);
        i = i + 1;
    }
    bgra
}

/// Each pixel keeps its colour: pixel `p` of the output is pixel `p` of the input with
/// red and blue swapped and full opacity.
pub proof fn lemma_bgra_pixel(rgb: Seq<u8>, p: int)
    requires
        0 <= p < rgb.len() / 3,
    ensures
        bgra_of(rgb).len() == 4 * (rgb.len() / 3),
        bgra_of(rgb).subrange(4 * p, 4 * p + 4) == seq![
            rgb[3 * p + 2],
            rgb[3 * p + 1],
            rgb[3 * p],
            255u8,
        ],
{
    lemma_bgra_pixels_len(rgb, rgb.len() / 3);
    lemma_bgra_prefix(rgb, (p + 1) as nat, rgb.len() / 3);
    lemma_bgra_pixels_len(rgb, p as nat);
    let whole = bgra_of(rgb);
    let upto = bgra_pixels(rgb, (p + 1) as nat);
    assert(upto.subrange(4 * p, 4 * p + 4) == seq![
        rgb[3 * p + 2],
        rgb[3 * p + 1],
        rgb[3 * p],
        255u8,
    ]);
    assert(whole.subrange(4 * p, 4 * p + 4) == upto.subrange(4 * p, 4 * p + 4));
}

proof fn lemma_bgra_prefix(rgb: Seq<u8>, m: nat, n: nat)
    requires
        m <= n,
    ensures
        bgra_pixels(rgb, m) == bgra_pixels(rgb, n).subrange(0, 4 * m as int),
    decreases n - m,
{
    lemma_bgra_pixels_len(rgb, m);
    lemma_bgra_pixels_len(rgb, n);
    if m < n {
        lemma_bgra_prefix(rgb, m, (n - 1) as nat);
        lemma_bgra_pixels_len(rgb, (n - 1) as nat);
        assert(bgra_pixels(rgb, n).subrange(0, 4 * m as int) == bgra_pixels(
            rgb,
            (n - 1) as nat,
        ).subrange(0, 4 * m as int));
    } else {
        assert(bgra_pixels(rgb, n).subrange(0, 4 * m as int) == bgra_pixels(rgb, n));
    }
}

} // verus!
