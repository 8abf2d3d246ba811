//! The kitty graphics protocol: the frame is saved as a PNG file, and the
//! terminal is told where to find it.

use vstd::prelude::*;
use vstd::utf8::encode_utf8;
use crate::ansi::{cursor_position, push_bytes, push_cursor_position};
use crate::config::RenderMethod;
use crate::error::RenderError;
use crate::frame::{FrameView, VideoFrame};
use crate::imaging::{base64_text, png_encode, png_encoded};
use crate::text::decimal_text;

verus! {

/// Milliseconds after which a write counts as slow.
pub const SLOW_WRITE_MS: u64 = 100;

/// Milliseconds after which a write counts as failed.
pub const FAILED_WRITE_MS: u64 = 1000;

/// The command that transmits and displays a PNG image of `width` x
/// `height` by the path of its file: between `ESC` and `ESC \`, the letter
/// `G` after an underscore, the keys of the command with the width and the
/// height in decimal, a semicolon, and the path in base64. The file is read
/// whole, from its first byte on.
pub open spec fn kitty_command(path: Seq<char>, width: u32, height: u32) -> Seq<char> {
    "\x1b_Ga=T,f=100,t=f,s="@ + decimal_text(width as nat) + ",v="@ + decimal_text(height as nat)
        + ",S=0,O=0,I=0,C=1,m=0;"@ + base64_text(encode_utf8(path)) + "\x1b\\"@
}

/// Has `kitty_image` format the wrapped command that transmits and displays
/// a PNG image by the path of its file. Trusted: the crate writes the action,
/// the format, the medium, the width, the height, and the size, the offset
/// and the image number, which are zero, in this order; it leaves out the
/// placement and every key of the display that is zero or unset; it marks
/// the cursor as not to be moved; and it encodes the bytes of the path with
/// the standard base64 alphabet, padded.
#[verifier::external_body]
fn kitty_transmit_file(path: &str, width: u32, height: u32) -> (out: String)
    ensures
        out@ == kitty_command(path@, width, height),
{
    let transmission = kitty_image::ActionTransmission {
        format: kitty_image::Format::Png,
        medium: kitty_image::Medium::File,
        width,
        height,
        ..Default::default()
    };
    let action = kitty_image::Action::TransmitAndDisplay(transmission, Default::default());
    let command = kitty_image::Command::with_payload_from_path(action, std::path::Path::new(path));
    kitty_image::WrappedCommand::new(command).to_string()
}

/// What is written for a command, for an image drawn at cell (`x`, `y`): the
/// cursor is moved there, then comes the command.
pub open spec fn kitty_sequence(command: Seq<char>, x: u16, y: u16) -> Seq<u8> {
    cursor_position((y + 1) as nat, (x + 1) as nat) + encode_utf8(command)
}

/// What is handed to the terminal for one frame.
pub struct KittyFrame {
    /// The PNG file to save at the path before anything is written.
    pub png: Vec<u8>,
    /// The bytes to write to the terminal afterwards.
    pub bytes: Vec<u8>,
}

/// What `encode_kitty` returns for a frame: the PNG file and the bytes.
pub open spec fn kitty_outcome(frame: FrameView, path: Seq<char>, x: u16, y: u16) -> Result<
    (Seq<u8>, Seq<u8>),
    RenderError,
> {
    match png_encoded(frame.pixels, frame.width, frame.height) {
        None => Err(RenderError::ProtocolFailure(RenderMethod::Kitty)),
        Some(png) => if png.len() == 0 {
            Err(RenderError::ProtocolFailure(RenderMethod::Kitty))
        } else {
            Ok(
                (
                    png,
                    kitty_sequence(kitty_command(path, frame.width, frame.height), x, y),
                ),
            )
        },
    }
}

/// Puts the cursor before a command.
pub fn wrap_kitty(command: &str, x: u16, y: u16) -> (out: Vec<u8>)
    ensures
        out@ == kitty_sequence(command@, x, y),
{
    let mut out: Vec<u8> = Vec::new();
    push_cursor_position(&mut out, y as u32 + 1, x as u32 + 1);
    push_bytes(&mut out, command.as_bytes());
    out
}

/// Turns a frame into a PNG file, to be saved at `path`, and the bytes that
/// make the terminal show that file at cell (`x`, `y`). The method fails
/// where the frame cannot be encoded, or the file would be empty.
pub fn encode_kitty(frame: &VideoFrame, path: &str, x: u16, y: u16) -> (out: Result<
    KittyFrame,
    RenderError,
>)
    requires
        frame.well_formed(),
    ensures
        match out {
            Ok(kitty) => kitty_outcome(frame@, path@, x, y) == Ok::<
                (Seq<u8>, Seq<u8>),
                RenderError,
            >((kitty.png@, kitty.bytes@)),
            Err(e) => kitty_outcome(frame@, path@, x, y) == Err::<(Seq<u8>, Seq<u8>), RenderError>(
                e,
            ),
        },
{
    match png_encode(&frame.pixels, frame.width, frame.height) {
        Err(_) => Err(RenderError::ProtocolFailure(RenderMethod::Kitty)),
        Ok(png) => {
            if png.len() == 0 {
                Err(RenderError::ProtocolFailure(RenderMethod::Kitty))
            } else {
                let command = kitty_transmit_file(path, frame.width, frame.height);
                let bytes = wrap_kitty(command.as_str(), x, y);
                Ok(KittyFrame { png, bytes })
            }
        },
    }
}

/// How a write that took `elapsed_ms` milliseconds is judged.
#[derive(Clone, Copy, Debug, PartialEq, Eq, Structural)]
pub enum WriteVerdict {
    /// Fast enough.
    Fine,
    /// Slow: worth a warning.
    Slow,
    /// So slow that the protocol does not seem to work.
    TooSlow,
}

/// Judges the time that a write took: slow above a tenth of a second, too
/// slow above a second.
pub fn judge_write_time(elapsed_ms: u64) -> (out: WriteVerdict)
    ensures
        out == (if elapsed_ms > FAILED_WRITE_MS {
            WriteVerdict::TooSlow
        } else if elapsed_ms > SLOW_WRITE_MS {
            WriteVerdict::Slow
        } else {
            WriteVerdict::Fine
        }),
{
    if elapsed_ms > FAILED_WRITE_MS {
        WriteVerdict::TooSlow
    } else if elapsed_ms > SLOW_WRITE_MS {
        WriteVerdict::Slow
    } else {
        WriteVerdict::Fine
    }
}

} // verus!
