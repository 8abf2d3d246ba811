//! The inline image protocol of iTerm2: a PNG file, in base64, inside an
//! operating system command.

use vstd::prelude::*;
use vstd::string::StringSliceAdditionalSpecFns;
use vstd::utf8::encode_utf8;
use crate::ansi::{cursor_position, decimal, push_bytes, push_cursor_position, push_decimal, ESC};
use crate::config::RenderMethod;
use crate::error::RenderError;
use crate::frame::{FrameView, VideoFrame};
use crate::imaging::{base64_encode, base64_text, longest_encodable, png_encode, png_encoded};

verus! {

/// The bell character, which ends the command.
pub const BEL: u8 = 0x07;

/// The longest PNG file that is encoded: one whose base64 text still fits a
/// string.
pub open spec fn longest_png() -> int {
    longest_encodable()
}

/// What is written for an image of `width` x `height` whose PNG file in
/// base64 is `encoded`, drawn at cell (`x`, `y`): the cursor is moved there,
/// then comes `ESC ] 1337 ; File = inline=1;width=W;height=H : encoded BEL`.
pub open spec fn iterm_sequence(encoded: Seq<char>, width: u32, height: u32, x: u16, y: u16) -> Seq<
    u8,
> {
    cursor_position((y + 1) as nat, (x + 1) as nat) + seq![ESC, 0x5du8]
        + "1337;File=inline=1;width=".spec_bytes() + decimal(width as nat)
        + ";height=".spec_bytes() + decimal(height as nat) + seq![0x3au8] + encode_utf8(encoded)
        + seq![BEL]
}

/// What `encode_iterm` returns for a frame.
pub open spec fn iterm_outcome(frame: FrameView, x: u16, y: u16) -> Result<Seq<u8>, RenderError> {
    match png_encoded(frame.pixels, frame.width, frame.height) {
        None => Err(RenderError::ProtocolFailure(RenderMethod::ITerm)),
        Some(png) => if png.len() > longest_png() {
            Err(RenderError::ProtocolFailure(RenderMethod::ITerm))
        } else {
            Ok(iterm_sequence(base64_text(png), frame.width, frame.height, x, y))
        },
    }
}

/// Wraps the base64 text of a PNG file into the sequence that shows it.
pub fn wrap_iterm(encoded: &str, width: u32, height: u32, x: u16, y: u16) -> (out: Vec<u8>)
    ensures
        out@ == iterm_sequence(encoded@, width, height, x, y),
{
    let mut out: Vec<u8> = Vec::new();
    push_cursor_position(&mut out, y as u32 + 1, x as u32 + 1);
    out.push(ESC);
    out.push(0x5d);
    push_bytes(&mut out, "1337;File=inline=1;width=".as_bytes());
    push_decimal(&mut out, width as u64);
    push_bytes(&mut out, ";height=".as_bytes());
    push_decimal(&mut out, height as u64);
    out.push(0x3a);
    push_bytes(&mut out, encoded.as_bytes());
    out.push(BEL);
    assert(out@ =~= iterm_sequence(encoded@, width, height, x, y));
    out
}

/// The sequence that shows a PNG file of `width` x `height`.
pub fn iterm_from_png(png: &Vec<u8>, width: u32, height: u32, x: u16, y: u16) -> (out: Vec<u8>)
    requires
        png.len() <= longest_png(),
    ensures
        out@ == iterm_sequence(base64_text(png@), width, height, x, y),
{
    let encoded = base64_encode(png);
    wrap_iterm(encoded.as_str(), width, height, x, y)
}

/// Turns a frame into the sequence that shows it at cell (`x`, `y`). The
/// method fails where the frame cannot be encoded as a PNG file.
pub fn encode_iterm(frame: &VideoFrame, x: u16, y: u16) -> (out: Result<Vec<u8>, RenderError>)
    requires
        frame.well_formed(),
    ensures
        match out {
            Ok(bytes) => iterm_outcome(frame@, x, y) == Ok::<Seq<u8>, RenderError>(bytes@),
            Err(e) => iterm_outcome(frame@, x, y) == Err::<Seq<u8>, RenderError>(e),
        },
{
    match png_encode(&frame.pixels, frame.width, frame.height) {
        Err(_) => Err(RenderError::ProtocolFailure(RenderMethod::ITerm)),
        Ok(png) => {
            if png.len() > 3 * (isize::MAX as usize / 4) {
                Err(RenderError::ProtocolFailure(RenderMethod::ITerm))
            } else {
                Ok(iterm_from_png(&png, frame.width, frame.height, x, y))
            }
        },
    }
}

} // verus!
