//! The palette raster renderer: a frame becomes a sixel image of sixteen
//! fixed colours.
//!
//! The image is written in bands of six lines. Within a band each colour in
//! use is selected once and followed by one character for each column, whose
//! six low bits say which of the six pixels have that colour; runs of equal
//! characters are written as a count and one character.

use vstd::prelude::*;
use crate::ansi::{decimal, cursor_position, push_cursor_position, push_decimal, ESC, SEMICOLON};
use crate::blend::{blend_channel, blend_on_black};
use crate::frame::{FrameView, VideoFrame};

verus! {

/// The number of colours in the palette.
pub const PALETTE_SIZE: u8 = 16;

/// Lines in a band.
pub const BAND_HEIGHT: u32 = 6;

/// Runs longer than this are written as a count and one character.
pub const LONGEST_PLAIN_RUN: usize = 3;

/// Colour `i` of the palette: the eight corners of the colour cube, two
/// greys, and six colours at half intensity.
pub open spec fn palette_entry(i: int) -> Seq<u8> {
    if i == 0 {
        seq![0u8, 0u8, 0u8]
    } else if i == 1 {
        seq![255u8, 0u8, 0u8]
    } else if i == 2 {
        seq![0u8, 255u8, 0u8]
    } else if i == 3 {
        seq![255u8, 255u8, 0u8]
    } else if i == 4 {
        seq![0u8, 0u8, 255u8]
    } else if i == 5 {
        seq![255u8, 0u8, 255u8]
    } else if i == 6 {
        seq![0u8, 255u8, 255u8]
    } else if i == 7 {
        seq![255u8, 255u8, 255u8]
    } else if i == 8 {
        seq![85u8, 85u8, 85u8]
    } else if i == 9 {
        seq![170u8, 170u8, 170u8]
    } else if i == 10 {
        seq![128u8, 0u8, 0u8]
    } else if i == 11 {
        seq![0u8, 128u8, 0u8]
    } else if i == 12 {
        seq![128u8, 128u8, 0u8]
    } else if i == 13 {
        seq![0u8, 0u8, 128u8]
    } else if i == 14 {
        seq![128u8, 0u8, 128u8]
    } else {
        seq![0u8, 128u8, 128u8]
    }
}

/// Colour `i` of the palette.
pub fn palette_color(i: u8) -> (out: [u8; 3])
    ensures
        out@ == palette_entry(i as int),
{
    let out: [u8; 3] = if i == 0 {
        [0, 0, 0]
    } else if i == 1 {
        [255, 0, 0]
    } else if i == 2 {
        [0, 255, 0]
    } else if i == 3 {
        [255, 255, 0]
    } else if i == 4 {
        [0, 0, 255]
    } else if i == 5 {
        [255, 0, 255]
    } else if i == 6 {
        [0, 255, 255]
    } else if i == 7 {
        [255, 255, 255]
    } else if i == 8 {
        [85, 85, 85]
    } else if i == 9 {
        [170, 170, 170]
    } else if i == 10 {
        [128, 0, 0]
    } else if i == 11 {
        [0, 128, 0]
    } else if i == 12 {
        [128, 128, 0]
    } else if i == 13 {
        [0, 0, 128]
    } else if i == 14 {
        [128, 0, 128]
    } else {
        [0, 128, 128]
    };
    assert(out@ =~= palette_entry(i as int));
    out
}

/// The squared distance between a pixel laid over black and colour `i` of
/// the palette.
pub open spec fn palette_distance(pixel: Seq<u8>, i: int) -> int {
    let dr = blend_on_black(pixel[0], pixel[3]) - palette_entry(i)[0];
    let dg = blend_on_black(pixel[1], pixel[3]) - palette_entry(i)[1];
    let db = blend_on_black(pixel[2], pixel[3]) - palette_entry(i)[2];
    dr * dr + dg * dg + db * db
}

/// The colour among the first `n` of the palette that is closest to a
/// pixel; the first of them where several are equally close.
pub open spec fn closest_among(pixel: Seq<u8>, n: int) -> int
    decreases n,
{
    if n <= 1 {
        0
    } else {
        let best = closest_among(pixel, n - 1);
        if palette_distance(pixel, n - 1) < palette_distance(pixel, best) {
            n - 1
        } else {
            best
        }
    }
}

/// The palette colour that stands for a pixel: the first colour for a fully
/// transparent pixel, the closest colour otherwise.
pub open spec fn closest_color(pixel: Seq<u8>) -> int {
    if pixel[3] == 0 {
        0
    } else {
        closest_among(pixel, PALETTE_SIZE as int)
    }
}

/// The closest colour is no farther than any other, and nearer than each
/// colour before it.
pub proof fn lemma_closest_among(pixel: Seq<u8>, n: int)
    requires
        n >= 1,
    ensures
        0 <= closest_among(pixel, n) < n,
        forall|j: int|
            0 <= j < n ==> palette_distance(pixel, closest_among(pixel, n)) <= #[trigger] palette_distance(
                pixel,
                j,
            ),
        forall|j: int|
            0 <= j < closest_among(pixel, n) ==> palette_distance(
                pixel,
                closest_among(pixel, n),
            ) < #[trigger] palette_distance(pixel, j),
    decreases n,
{
    if n > 1 {
        lemma_closest_among(pixel, n - 1);
    }
}

fn distance_to(r: u16, g: u16, b: u16, i: u8) -> (out: u32)
    requires
        r <= 255,
        g <= 255,
        b <= 255,
    ensures
        out == {
            let dr = r - palette_entry(i as int)[0];
            let dg = g - palette_entry(i as int)[1];
            let db = b - palette_entry(i as int)[2];
            dr * dr + dg * dg + db * db
        },
{
    let color = palette_color(i);
    let dr: i32 = r as i32 - color[0] as i32;
    let dg: i32 = g as i32 - color[1] as i32;
    let db: i32 = b as i32 - color[2] as i32;
    assert(0 <= dr * dr <= 65025 && 0 <= dg * dg <= 65025 && 0 <= db * db <= 65025)
        by (nonlinear_arith)
        requires
            -255 <= dr <= 255,
            -255 <= dg <= 255,
            -255 <= db <= 255,
    ;
    (dr * dr + dg * dg + db * db) as u32
}

/// The index of the palette colour that stands for a pixel.
pub fn closest_color_idx(pixel: &[u8; 4]) -> (out: u8)
    ensures
        out == closest_color(pixel@),
        out < PALETTE_SIZE,
{
    if pixel[3] == 0 {
        return 0;
    }
    let r = blend_channel(pixel[0], pixel[3]);
    let g = blend_channel(pixel[1], pixel[3]);
    let b = blend_channel(pixel[2], pixel[3]);
    let mut best: u8 = 0;
    let mut best_distance: u32 = distance_to(r, g, b, 0);
    let mut i: u8 = 1;
    while i < PALETTE_SIZE
        invariant
            1 <= i <= PALETTE_SIZE,
            r == blend_on_black(pixel[0], pixel[3]),
            g == blend_on_black(pixel[1], pixel[3]),
            b == blend_on_black(pixel[2], pixel[3]),
            r <= 255 && g <= 255 && b <= 255,
            best == closest_among(pixel@, i as int),
            best < i,
            best_distance == palette_distance(pixel@, best as int),
        decreases PALETTE_SIZE - i,
    {
        let d = distance_to(r, g, b, i);
        if d < best_distance {
            best = i;
            best_distance = d;
        }
        i += 1;
    }
    best
}

/// The palette colour of each pixel of a frame, row by row.
pub open spec fn color_indices(frame: FrameView) -> Seq<u8> {
    Seq::new(
        (frame.width * frame.height) as nat,
        |i: int| closest_color(frame.pixel(i % (frame.width as int), i / (frame.width as int))) as u8,
    )
}

/// Whether pixel `k` of column `x` in band `band` has colour `color`: one if
/// so, zero if not or if the line lies below the image.
pub open spec fn sixel_bit(
    indices: Seq<u8>,
    width: int,
    height: int,
    band: int,
    color: u8,
    x: int,
    k: int,
) -> int {
    if 6 * band + k < height && indices[(6 * band + k) * width + x] == color {
        1
    } else {
        0
    }
}

/// The six bits of column `x` in band `band` for colour `color`, the top
/// pixel lowest.
pub open spec fn sixel_pattern(
    indices: Seq<u8>,
    width: int,
    height: int,
    band: int,
    color: u8,
    x: int,
) -> int {
    sixel_bit(indices, width, height, band, color, x, 0) + 2 * sixel_bit(
        indices,
        width,
        height,
        band,
        color,
        x,
        1,
    ) + 4 * sixel_bit(indices, width, height, band, color, x, 2) + 8 * sixel_bit(
        indices,
        width,
        height,
        band,
        color,
        x,
        3,
    ) + 16 * sixel_bit(indices, width, height, band, color, x, 4) + 32 * sixel_bit(
        indices,
        width,
        height,
        band,
        color,
        x,
        5,
    )
}

/// The characters of one colour in one band, one for each column: the
/// pattern plus 63.
pub open spec fn band_chars(indices: Seq<u8>, width: int, height: int, band: int, color: u8) -> Seq<
    u8,
> {
    Seq::new(
        width as nat,
        |x: int| (63 + sixel_pattern(indices, width, height, band, color, x)) as u8,
    )
}

/// Some column of the band has a pixel of the colour.
pub open spec fn color_in_band(chars: Seq<u8>) -> bool {
    exists|x: int| 0 <= x < chars.len() && #[trigger] chars[x] != 63
}

/// The length of the run of equal characters that a sequence begins with.
pub open spec fn run_length(chars: Seq<u8>) -> nat
    decreases chars.len(),
{
    if chars.len() <= 1 {
        chars.len()
    } else if chars[1] == chars[0] {
        1 + run_length(chars.drop_first())
    } else {
        1
    }
}

/// One run: the character itself up to three times, `!`, the count and the
/// character for a longer run.
pub open spec fn encoded_run(c: u8, n: nat) -> Seq<u8> {
    if n > LONGEST_PLAIN_RUN {
        seq![0x21u8] + decimal(n) + seq![c]
    } else {
        Seq::new(n, |i: int| c)
    }
}

/// The run-length encoding of a sequence of characters.
pub open spec fn run_length_encoded(chars: Seq<u8>) -> Seq<u8>
    decreases chars.len(),
{
    if chars.len() == 0 {
        Seq::empty()
    } else {
        let n = run_length(chars);
        if 0 < n <= chars.len() {
            encoded_run(chars[0], n) + run_length_encoded(chars.subrange(n as int, chars.len() as int))
        } else {
            Seq::empty()
        }
    }
}

/// What one colour adds to a band: nothing if the band has no pixel of it;
/// else `#`, the colour, its characters run-length encoded, and `$`, which
/// returns to the start of the band.
pub open spec fn color_data(chars: Seq<u8>, color: u8) -> Seq<u8> {
    if color_in_band(chars) {
        seq![0x23u8] + decimal(color as nat) + run_length_encoded(chars) + seq![0x24u8]
    } else {
        Seq::empty()
    }
}

/// What the first `n` colours add to a band.
pub open spec fn band_colors(indices: Seq<u8>, width: int, height: int, band: int, n: int) -> Seq<
    u8,
>
    decreases n,
{
    if n <= 0 {
        Seq::empty()
    } else {
        band_colors(indices, width, height, band, n - 1) + color_data(
            band_chars(indices, width, height, band, (n - 1) as u8),
            (n - 1) as u8,
        )
    }
}

/// The first `n` bands, each followed by `-`, which moves to the next band.
pub open spec fn bands_data(indices: Seq<u8>, width: int, height: int, n: int) -> Seq<u8>
    decreases n,
{
    if n <= 0 {
        Seq::empty()
    } else {
        bands_data(indices, width, height, n - 1) + band_colors(
            indices,
            width,
            height,
            n - 1,
            PALETTE_SIZE as int,
        ) + seq![0x2du8]
    }
}

/// `# i ; 2 ; r ; g ; b`: the definition of colour `i`.
pub open spec fn palette_definition(i: int) -> Seq<u8> {
    seq![0x23u8] + decimal(i as nat) + seq![SEMICOLON, 0x32u8, SEMICOLON] + decimal(
        palette_entry(i)[0] as nat,
    ) + seq![SEMICOLON] + decimal(palette_entry(i)[1] as nat) + seq![SEMICOLON] + decimal(
        palette_entry(i)[2] as nat,
    )
}

/// The definitions of the first `n` colours.
pub open spec fn palette_definitions(n: int) -> Seq<u8>
    decreases n,
{
    if n <= 0 {
        Seq::empty()
    } else {
        palette_definitions(n - 1) + palette_definition(n - 1)
    }
}

/// The number of bands of an image.
pub open spec fn band_count(height: int) -> int {
    (height + 5) / 6
}

/// The sixel image of a frame: `ESC P q`, the palette, the bands, and
/// `ESC \`.
pub open spec fn sixel_image(frame: FrameView) -> Seq<u8> {
    seq![ESC, 0x50u8, 0x71u8] + palette_definitions(PALETTE_SIZE as int) + bands_data(
        color_indices(frame),
        frame.width as int,
        frame.height as int,
        band_count(frame.height as int),
    ) + seq![ESC, 0x5cu8]
}

/// What is written for a frame drawn at cell (`x`, `y`): the cursor is moved
/// there, then comes the image.
pub open spec fn sixel_output(frame: FrameView, x: u16, y: u16) -> Seq<u8> {
    cursor_position((y + 1) as nat, (x + 1) as nat) + sixel_image(frame)
}

/// Computes the palette colour of each pixel of a frame.
pub fn quantize(frame: &VideoFrame) -> (out: Vec<u8>)
    requires
        frame.well_formed(),
    ensures
        out@ == color_indices(frame@),
        out.len() == frame.width * frame.height,
        forall|i: int| 0 <= i < out.len() ==> #[trigger] out[i] < PALETTE_SIZE,
{
    let mut out: Vec<u8> = Vec::new();
    let len = frame.pixels.len();
    assert(4 * (frame.width * frame.height) == 4 * frame.width * frame.height)
        by (nonlinear_arith);
    let mut y: u32 = 0;
    while y < frame.height
        invariant
            frame.well_formed(),
            y <= frame.height,
            len == 4 * (frame.width * frame.height),
            out.len() == y * frame.width,
            forall|i: int| 0 <= i < out.len() ==> #[trigger] out[i] == color_indices(frame@)[i],
            forall|i: int| 0 <= i < out.len() ==> #[trigger] out[i] < PALETTE_SIZE,
        decreases frame.height - y,
    {
        let mut x: u32 = 0;
        while x < frame.width
            invariant
                frame.well_formed(),
                y < frame.height,
                x <= frame.width,
                len == 4 * (frame.width * frame.height),
                out.len() == y * frame.width + x,
                forall|i: int|
                    0 <= i < out.len() ==> #[trigger] out[i] == color_indices(frame@)[i],
                forall|i: int| 0 <= i < out.len() ==> #[trigger] out[i] < PALETTE_SIZE,
            decreases frame.width - x,
        {
            let pixel = frame.pixel_at(x, y);
            let index = closest_color_idx(&pixel);
            proof {
                let i = y * frame.width + x;
                assert(i < frame.width * frame.height) by (nonlinear_arith)
                    requires
                        i == y * frame.width + x,
                        x < frame.width,
                        y < frame.height,
                ;
                vstd::arithmetic::div_mod::lemma_fundamental_div_mod_converse(
                    i,
                    frame.width as int,
                    y as int,
                    x as int,
                );
            }
            out.push(index);
            x += 1;
        }
        assert((y + 1) * frame.width == y * frame.width + frame.width) by (nonlinear_arith);
        y += 1;
    }
    assert(out.len() == frame.width * frame.height) by (nonlinear_arith)
        requires
            out.len() == y * frame.width,
            y == frame.height,
    ;
    assert(out@ =~= color_indices(frame@));
    out
}

fn pixel_bit(indices: &Vec<u8>, width: u32, height: u32, band: u32, color: u8, x: u32, k: u32) -> (out:
    u8)
    requires
        indices.len() == width * height,
        x < width,
        k < 6,
        6 * band < height,
    ensures
        out == sixel_bit(indices@, width as int, height as int, band as int, color, x as int, k as int),
{
    let line: u64 = 6 * (band as u64) + k as u64;
    if line < height as u64 {
        assert(line * width + x < width * height) by (nonlinear_arith)
            requires
                line < height,
                x < width,
        ;
        assert(0 <= line * width) by (nonlinear_arith)
            requires
                0 <= line,
                0 <= width,
        ;
        let len = indices.len();
        let at: usize = (line as usize) * (width as usize) + x as usize;
        if indices[at] == color {
            1
        } else {
            0
        }
    } else {
        0
    }
}

/// The characters of one colour in one band.
pub fn encode_band_color(indices: &Vec<u8>, width: u32, height: u32, band: u32, color: u8) -> (out:
    Vec<u8>)
    requires
        indices.len() == width * height,
        6 * band < height,
    ensures
        out@ == band_chars(indices@, width as int, height as int, band as int, color),
{
    let mut out: Vec<u8> = Vec::new();
    let mut x: u32 = 0;
    while x < width
        invariant
            indices.len() == width * height,
            6 * band < height,
            x <= width,
            out.len() == x,
            forall|i: int|
                0 <= i < x ==> #[trigger] out[i] == band_chars(
                    indices@,
                    width as int,
                    height as int,
                    band as int,
                    color,
                )[i],
        decreases width - x,
    {
        let pattern: u8 = pixel_bit(indices, width, height, band, color, x, 0) + 2 * pixel_bit(
            indices,
            width,
            height,
            band,
            color,
            x,
            1,
        ) + 4 * pixel_bit(indices, width, height, band, color, x, 2) + 8 * pixel_bit(
            indices,
            width,
            height,
            band,
            color,
            x,
            3,
        ) + 16 * pixel_bit(indices, width, height, band, color, x, 4) + 32 * pixel_bit(
            indices,
            width,
            height,
            band,
            color,
            x,
            5,
        );
        out.push(63 + pattern);
        x += 1;
    }
    assert(out@ =~= band_chars(indices@, width as int, height as int, band as int, color));
    out
}

proof fn lemma_run_length(chars: Seq<u8>, n: int)
    requires
        1 <= n <= chars.len(),
        forall|i: int| 0 <= i < n ==> #[trigger] chars[i] == chars[0],
        n == chars.len() || chars[n] != chars[0],
    ensures
        run_length(chars) == n,
    decreases n,
{
    if chars.len() > 1 {
        if n > 1 {
            let rest = chars.drop_first();
            assert forall|i: int| 0 <= i < n - 1 implies #[trigger] rest[i] == rest[0] by {
                assert(rest[i] == chars[i + 1]);
                assert(rest[0] == chars[1]);
            }
            if n < chars.len() {
                assert(rest[n - 1] == chars[n]);
            }
            lemma_run_length(rest, n - 1);
        }
    }
}

/// Appends the run-length encoding of a sequence of characters.
pub fn push_run_length_encoded(out: &mut Vec<u8>, chars: &Vec<u8>)
    ensures
        final(out)@ == old(out)@ + run_length_encoded(chars@),
{
    let mut start: usize = 0;
    let ghost mut written: Seq<u8> = Seq::empty();
    assert(chars@.subrange(0, chars.len() as int) =~= chars@);
    while start < chars.len()
        invariant
            start <= chars.len(),
            out@ == old(out)@ + written,
            written + run_length_encoded(chars@.subrange(start as int, chars.len() as int))
                == run_length_encoded(chars@),
        decreases chars.len() - start,
    {
        let c = chars[start];
        let mut end: usize = start + 1;
        while end < chars.len() && chars[end] == c
            invariant
                start < end <= chars.len(),
                c == chars[start as int],
                forall|i: int| start <= i < end ==> chars[i] == c,
            decreases chars.len() - end,
        {
            end += 1;
        }
        let n: usize = end - start;
        let ghost rest = chars@.subrange(start as int, chars.len() as int);
        proof {
            assert forall|i: int| 0 <= i < n implies #[trigger] rest[i] == rest[0] by {
                assert(rest[i] == chars[start + i]);
            }
            if n < rest.len() {
                assert(rest[n as int] == chars[end as int]);
            }
            lemma_run_length(rest, n as int);
            assert(rest.subrange(n as int, rest.len() as int) =~= chars@.subrange(
                end as int,
                chars.len() as int,
            ));
        }
        let ghost before = out@;
        if n > LONGEST_PLAIN_RUN {
            out.push(0x21);
            push_decimal(out, n as u64);
            out.push(c);
            assert(out@ =~= before + encoded_run(c, n as nat));
        } else {
            let mut i: usize = 0;
            while i < n
                invariant
                    i <= n,
                    out@ == before + Seq::new(i as nat, |k: int| c),
                decreases n - i,
            {
                out.push(c);
                i += 1;
                assert(out@ =~= before + Seq::new(i as nat, |k: int| c));
            }
            assert(out@ =~= before + encoded_run(c, n as nat));
        }
        proof {
            written = written + encoded_run(c, n as nat);
            assert(out@ =~= old(out)@ + written);
            assert(run_length_encoded(rest) == encoded_run(c, n as nat) + run_length_encoded(
                chars@.subrange(end as int, chars.len() as int),
            ));
            assert(written + run_length_encoded(
                chars@.subrange(end as int, chars.len() as int),
            ) =~= run_length_encoded(chars@));
        }
        start = end;
    }
    assert(out@ =~= old(out)@ + run_length_encoded(chars@));
}

fn any_pixel(chars: &Vec<u8>) -> (out: bool)
    ensures
        out == color_in_band(chars@),
{
    let mut x: usize = 0;
    while x < chars.len()
        invariant
            x <= chars.len(),
            forall|i: int| 0 <= i < x ==> chars[i] == 63,
        decreases chars.len() - x,
    {
        if chars[x] != 63 {
            assert(chars@[x as int] != 63);
            return true;
        }
        x += 1;
    }
    false
}

fn push_palette(out: &mut Vec<u8>)
    ensures
        final(out)@ == old(out)@ + palette_definitions(PALETTE_SIZE as int),
{
    let mut i: u8 = 0;
    assert(out@ =~= old(out)@ + palette_definitions(0));
    while i < PALETTE_SIZE
        invariant
            i <= PALETTE_SIZE,
            out@ == old(out)@ + palette_definitions(i as int),
        decreases PALETTE_SIZE - i,
    {
        let ghost before = out@;
        let color = palette_color(i);
        out.push(0x23);
        push_decimal(out, i as u64);
        out.push(SEMICOLON);
        out.push(0x32);
        out.push(SEMICOLON);
        push_decimal(out, color[0] as u64);
        out.push(SEMICOLON);
        push_decimal(out, color[1] as u64);
        out.push(SEMICOLON);
        push_decimal(out, color[2] as u64);
        assert(out@ =~= before + palette_definition(i as int));
        i += 1;
        assert(out@ =~= old(out)@ + palette_definitions(i as int));
    }
}

/// Turns a frame into a sixel image drawn at cell (`x`, `y`).
pub fn encode_sixel(frame: &VideoFrame, x: u16, y: u16) -> (out: Vec<u8>)
    requires
        frame.well_formed(),
    ensures
        out@ == sixel_output(frame@, x, y),
{
    let mut out: Vec<u8> = Vec::new();
    push_cursor_position(&mut out, y as u32 + 1, x as u32 + 1);
    out.push(ESC);
    out.push(0x50);
    out.push(0x71);
    push_palette(&mut out);
    let indices = quantize(frame);
    let bands: u32 = ((frame.height as u64 + 5) / 6) as u32;
    let ghost head = out@;
    assert(head =~= cursor_position((y + 1) as nat, (x + 1) as nat) + seq![ESC, 0x50u8, 0x71u8]
        + palette_definitions(PALETTE_SIZE as int));
    let mut band: u32 = 0;
    assert(out@ =~= head + bands_data(indices@, frame.width as int, frame.height as int, 0));
    while band < bands
        invariant
            band <= bands,
            bands == band_count(frame.height as int),
            indices.len() == frame.width * frame.height,
            out@ == head + bands_data(
                indices@,
                frame.width as int,
                frame.height as int,
                band as int,
            ),
        decreases bands - band,
    {
        let ghost band_start = out@;
        let mut color: u8 = 0;
        assert(out@ =~= band_start + band_colors(
            indices@,
            frame.width as int,
            frame.height as int,
            band as int,
            0,
        ));
        while color < PALETTE_SIZE
            invariant
                color <= PALETTE_SIZE,
                band < bands,
                bands == band_count(frame.height as int),
                indices.len() == frame.width * frame.height,
                out@ == band_start + band_colors(
                    indices@,
                    frame.width as int,
                    frame.height as int,
                    band as int,
                    color as int,
                ),
            decreases PALETTE_SIZE - color,
        {
            let ghost before = out@;
            let chars = encode_band_color(&indices, frame.width, frame.height, band, color);
            if any_pixel(&chars) {
                out.push(0x23);
                push_decimal(&mut out, color as u64);
                push_run_length_encoded(&mut out, &chars);
                out.push(0x24);
            }
            assert(out@ =~= before + color_data(chars@, color));
            color += 1;
            assert(out@ =~= band_start + band_colors(
                indices@,
                frame.width as int,
                frame.height as int,
                band as int,
                color as int,
            ));
        }
        out.push(0x2d);
        band += 1;
        assert(out@ =~= head + bands_data(
            indices@,
            frame.width as int,
            frame.height as int,
            band as int,
        ));
    }
    out.push(ESC);
    out.push(0x5c);
    assert(out@ =~= sixel_output(frame@, x, y));
    out
}

} // verus!
