//! The escape sequences that the renderers write, as bytes.

use vstd::prelude::*;

verus! {

/// The escape character.
pub const ESC: u8 = 0x1b;

/// `[`, which with the escape character introduces a control sequence.
pub const BRACKET: u8 = 0x5b;

/// `;`, which separates the parameters of a sequence.
pub const SEMICOLON: u8 = 0x3b;

/// The digit `0`.
pub const ZERO: u8 = 0x30;

/// The decimal digits of a number, most significant first.
pub open spec fn decimal(n: nat) -> Seq<u8>
    decreases n,
{
    if n < 10 {
        seq![(ZERO + n) as u8]
    } else {
        decimal(n / 10).push((ZERO + n % 10) as u8)
    }
}

/// `ESC [ row ; column H`: moves the cursor to a cell, counted from one.
pub open spec fn cursor_position(row: nat, column: nat) -> Seq<u8> {
    seq![ESC, BRACKET] + decimal(row) + seq![SEMICOLON] + decimal(column) + seq![0x48u8]
}

/// `r ; g ; b`: the three channels of a colour.
pub open spec fn rgb_parameters(color: Seq<u16>) -> Seq<u8> {
    decimal(color[0] as nat) + seq![SEMICOLON] + decimal(color[1] as nat) + seq![SEMICOLON]
        + decimal(color[2] as nat)
}

/// `ESC [ 38;2; r;g;b ; 48;2; r;g;b m`: sets the 24-bit foreground and
/// background colours.
pub open spec fn color_code(fg: Seq<u16>, bg: Seq<u16>) -> Seq<u8> {
    seq![ESC, BRACKET, 0x33u8, 0x38u8, SEMICOLON, 0x32u8, SEMICOLON] + rgb_parameters(fg)
        + seq![SEMICOLON, 0x34u8, 0x38u8, SEMICOLON, 0x32u8, SEMICOLON] + rgb_parameters(bg)
        + seq![0x6du8]
}

/// `ESC [ 0 m`: resets colours and attributes.
pub open spec fn sgr_reset() -> Seq<u8> {
    seq![ESC, BRACKET, ZERO, 0x6du8]
}

/// `ESC [ 2 J ESC [ H`: clears the screen and homes the cursor.
pub open spec fn clear_screen() -> Seq<u8> {
    seq![ESC, BRACKET, 0x32u8, 0x4au8, ESC, BRACKET, 0x48u8]
}

/// `ESC [ s ESC [ ? 25 l`: saves the cursor position and hides the cursor.
pub open spec fn save_and_hide_cursor() -> Seq<u8> {
    seq![ESC, BRACKET, 0x73u8, ESC, BRACKET, 0x3fu8, 0x32u8, 0x35u8, 0x6cu8]
}

/// `ESC [ u ESC [ ? 25 h`: restores the cursor position and shows the cursor.
pub open spec fn restore_and_show_cursor() -> Seq<u8> {
    seq![ESC, BRACKET, 0x75u8, ESC, BRACKET, 0x3fu8, 0x32u8, 0x35u8, 0x68u8]
}

/// The upper half block, U+2580, in UTF-8.
pub open spec fn half_block() -> Seq<u8> {
    seq![0xe2u8, 0x96u8, 0x80u8]
}

/// Appends the decimal digits of a number.
pub fn push_decimal(out: &mut Vec<u8>, n: u64)
    ensures
        final(out)@ == old(out)@ + decimal(n as nat),
{
    let mut digits: Vec<u8> = Vec::new();
    digits.push(ZERO + (n % 10) as u8);
    let mut rest: u64 = n / 10;
    assert(decimal(n as nat) =~= (if rest > 0 {
        decimal(rest as nat)
    } else {
        Seq::<u8>::empty()
    }) + digits@.reverse());
    while rest > 0
        invariant
            digits.len() >= 1,
            decimal(n as nat) == (if rest > 0 {
                decimal(rest as nat)
            } else {
                Seq::<u8>::empty()
            }) + digits@.reverse(),
        decreases rest,
    {
        let ghost before = digits@;
        let ghost old_rest = rest;
        digits.push(ZERO + (rest % 10) as u8);
        rest = rest / 10;
        proof {
            let digit = (ZERO + old_rest % 10) as u8;
            assert(digits@.reverse() =~= seq![digit] + before.reverse());
            assert(decimal(old_rest as nat) =~= (if rest > 0 {
                decimal(rest as nat)
            } else {
                Seq::<u8>::empty()
            }) + seq![digit]);
            assert(decimal(n as nat) =~= (if rest > 0 {
                decimal(rest as nat)
            } else {
                Seq::<u8>::empty()
            }) + digits@.reverse());
        }
    }
    let mut left: usize = digits.len();
    while left > 0
        invariant
            left <= digits.len(),
            out@ == old(out)@ + digits@.reverse().subrange(0, digits.len() - left),
        decreases left,
    {
        left -= 1;
        let ghost before = out@;
        out.push(digits[left]);
        proof {
            let reversed = digits@.reverse();
            let done = digits.len() - left - 1;
            assert(reversed[done] == digits[left as int]);
            assert(reversed.subrange(0, done + 1) =~= reversed.subrange(0, done).push(
                reversed[done],
            ));
            assert(out@ =~= old(out)@ + reversed.subrange(0, done + 1));
        }
    }
    assert(digits@.reverse().subrange(0, digits.len() as int) =~= digits@.reverse());
}

/// Appends `ESC [`.
pub fn push_csi(out: &mut Vec<u8>)
    ensures
        final(out)@ == old(out)@ + seq![ESC, BRACKET],
{
    out.push(ESC);
    out.push(BRACKET);
    assert(out@ =~= old(out)@ + seq![ESC, BRACKET]);
}

/// Appends the sequence that moves the cursor to a cell.
pub fn push_cursor_position(out: &mut Vec<u8>, row: u32, column: u32)
    ensures
        final(out)@ == old(out)@ + cursor_position(row as nat, column as nat),
{
    push_csi(out);
    push_decimal(out, row as u64);
    out.push(SEMICOLON);
    push_decimal(out, column as u64);
    out.push(0x48);
    assert(out@ =~= old(out)@ + cursor_position(row as nat, column as nat));
}

fn push_rgb(out: &mut Vec<u8>, color: &[u16; 3])
    ensures
        final(out)@ == old(out)@ + rgb_parameters(color@),
{
    push_decimal(out, color[0] as u64);
    out.push(SEMICOLON);
    push_decimal(out, color[1] as u64);
    out.push(SEMICOLON);
    push_decimal(out, color[2] as u64);
    assert(out@ =~= old(out)@ + rgb_parameters(color@));
}

/// The sequence that sets the foreground and background colours.
pub fn format_color_code(fg: &[u16; 3], bg: &[u16; 3]) -> (out: Vec<u8>)
    ensures
        out@ == color_code(fg@, bg@),
{
    let mut out: Vec<u8> = Vec::new();
    push_csi(&mut out);
    out.push(0x33);
    out.push(0x38);
    out.push(SEMICOLON);
    out.push(0x32);
    out.push(SEMICOLON);
    push_rgb(&mut out, fg);
    out.push(SEMICOLON);
    out.push(0x34);
    out.push(0x38);
    out.push(SEMICOLON);
    out.push(0x32);
    out.push(SEMICOLON);
    push_rgb(&mut out, bg);
    out.push(0x6d);
    assert(out@ =~= color_code(fg@, bg@));
    out
}

/// Appends given bytes.
pub fn push_bytes(out: &mut Vec<u8>, bytes: &[u8])
    ensures
        final(out)@ == old(out)@ + bytes@,
{
    out.extend_from_slice(bytes);
    assert(out@ =~= old(out)@ + bytes@);
}

/// Appends the sequence that resets colours and attributes.
pub fn push_sgr_reset(out: &mut Vec<u8>)
    ensures
        final(out)@ == old(out)@ + sgr_reset(),
{
    push_csi(out);
    out.push(ZERO);
    out.push(0x6d);
    assert(out@ =~= old(out)@ + sgr_reset());
}

/// Appends the sequence that clears the screen and homes the cursor.
pub fn push_clear_screen(out: &mut Vec<u8>)
    ensures
        final(out)@ == old(out)@ + clear_screen(),
{
    push_csi(out);
    out.push(0x32);
    out.push(0x4a);
    push_csi(out);
    out.push(0x48);
    assert(out@ =~= old(out)@ + clear_screen());
}

/// Appends the sequence that saves the cursor position and hides the cursor.
pub fn push_save_and_hide_cursor(out: &mut Vec<u8>)
    ensures
        final(out)@ == old(out)@ + save_and_hide_cursor(),
{
    push_csi(out);
    out.push(0x73);
    push_csi(out);
    out.push(0x3f);
    out.push(0x32);
    out.push(0x35);
    out.push(0x6c);
    assert(out@ =~= old(out)@ + save_and_hide_cursor());
}

/// Appends the sequence that restores the cursor position and shows the
/// cursor.
pub fn push_restore_and_show_cursor(out: &mut Vec<u8>)
    ensures
        final(out)@ == old(out)@ + restore_and_show_cursor(),
{
    push_csi(out);
    out.push(0x75);
    push_csi(out);
    out.push(0x3f);
    out.push(0x32);
    out.push(0x35);
    out.push(0x68);
    assert(out@ =~= old(out)@ + restore_and_show_cursor());
}

/// Appends the upper half block.
pub fn push_half_block(out: &mut Vec<u8>)
    ensures
        final(out)@ == old(out)@ + half_block(),
{
    out.push(0xe2);
    out.push(0x96);
    out.push(0x80);
    assert(out@ =~= old(out)@ + half_block());
}

} // verus!
