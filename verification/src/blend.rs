//! Alpha compositing of 8-bit RGBA pixels over an opaque background.

use vstd::prelude::*;

verus! {

/// One channel of a foreground colour laid over a background colour:
/// `(fg * alpha + bg * (255 - alpha)) / 255`, rounded down.
pub open spec fn blend_over(fg: u8, bg: u8, alpha: u8) -> int {
    (fg as int * alpha as int + bg as int * (255 - alpha as int)) / 255
}

/// One channel laid over opaque black.
pub open spec fn blend_on_black(color: u8, alpha: u8) -> int {
    blend_over(color, 0, alpha)
}

/// The colour of an RGBA pixel after it is laid over opaque black.
pub open spec fn blended_rgb(pixel: Seq<u8>) -> Seq<u16>
    recommends
        pixel.len() == 4,
{
    seq![
        blend_on_black(pixel[0], pixel[3]) as u16,
        blend_on_black(pixel[1], pixel[3]) as u16,
        blend_on_black(pixel[2], pixel[3]) as u16,
    ]
}

/// A blended channel never exceeds the channel it came from.
pub proof fn lemma_blend_on_black_bounds(color: u8, alpha: u8)
    ensures
        0 <= blend_on_black(color, alpha) <= color,
        alpha == 255 ==> blend_on_black(color, alpha) == color,
        alpha == 0 ==> blend_on_black(color, alpha) == 0,
{
    assert(0 <= color as int * alpha as int <= color as int * 255) by (nonlinear_arith)
        requires
            0 <= color as int,
            0 <= alpha as int <= 255,
    ;
}

/// Blends one channel over black with a division.
pub fn blend_channel(color: u8, alpha: u8) -> (out: u16)
    ensures
        out as int == blend_on_black(color, alpha),
        out <= color,
{
    proof {
        lemma_blend_on_black_bounds(color, alpha);
    }
    let product: u32 = (color as u32) * (alpha as u32);
    (product / 255) as u16
}

/// Blends one channel over black with shifts and adds only, the form that a
/// batched multiply can take lane by lane.
pub fn blend_channel_shifted(color: u8, alpha: u8) -> (out: u16)
    ensures
        out as int == blend_on_black(color, alpha),
        out <= color,
{
    proof {
        lemma_blend_on_black_bounds(color, alpha);
    }
    let product: u32 = (color as u32) * (alpha as u32);
    assert(product <= 65025) by (nonlinear_arith)
        requires
            product == (color as u32) * (alpha as u32),
            color <= 255,
            alpha <= 255,
    ;
    let high: u32 = product >> 8;
    assert(high == product / 256) by (bit_vector)
        requires
            high == product >> 8,
    ;
    let sum: u32 = product + 1 + high;
    assert(sum >> 8 == sum / 256) by (bit_vector);
    assert(sum / 256 == product / 255);
    (sum >> 8) as u16
}

/// Foreground and background colours of one cell: the top and bottom pixel,
/// each laid over black, channel by channel with a division.
pub fn blend_alpha(top: &[u8; 4], bot: &[u8; 4]) -> (out: ([u16; 3], [u16; 3]))
    ensures
        out.0@ == blended_rgb(top@),
        out.1@ == blended_rgb(bot@),
{
    let fg: [u16; 3] = [
        blend_channel(top[0], top[3]),
        blend_channel(top[1], top[3]),
        blend_channel(top[2], top[3]),
    ];
    let bg: [u16; 3] = [
        blend_channel(bot[0], bot[3]),
        blend_channel(bot[1], bot[3]),
        blend_channel(bot[2], bot[3]),
    ];
    assert(fg@ =~= blended_rgb(top@));
    assert(bg@ =~= blended_rgb(bot@));
    (fg, bg)
}

/// The same two colours, computed for all six channels by the shift form.
pub fn simd_blend_alpha(top: &[u8; 4], bot: &[u8; 4]) -> (out: ([u16; 3], [u16; 3]))
    ensures
        out.0@ == blended_rgb(top@),
        out.1@ == blended_rgb(bot@),
{
    let fg: [u16; 3] = [
        blend_channel_shifted(top[0], top[3]),
        blend_channel_shifted(top[1], top[3]),
        blend_channel_shifted(top[2], top[3]),
    ];
    let bg: [u16; 3] = [
        blend_channel_shifted(bot[0], bot[3]),
        blend_channel_shifted(bot[1], bot[3]),
        blend_channel_shifted(bot[2], bot[3]),
    ];
    assert(fg@ =~= blended_rgb(top@));
    assert(bg@ =~= blended_rgb(bot@));
    (fg, bg)
}

} // verus!
