use base64::Engine;
use termplay::config::{RenderConfig, RenderMethod};
use termplay::error::RenderError;
use termplay::frame::VideoFrame;
use termplay::iterm::{encode_iterm, iterm_from_png, wrap_iterm};
use termplay::kitty::{encode_kitty, judge_write_time, wrap_kitty, WriteVerdict};

fn gradient(width: u32, height: u32) -> VideoFrame {
    let mut pixels = Vec::new();
    for y in 0..height {
        for x in 0..width {
            let r = (x as f32 / width as f32 * 255.0) as u8;
            let g = (y as f32 / height as f32 * 255.0) as u8;
            let b = ((x + y) as f32 / (width + height) as f32 * 255.0) as u8;
            pixels.extend_from_slice(&[r, g, b, 255]);
        }
    }
    VideoFrame::new(pixels, width, height, 0, 40_000).unwrap()
}

#[test]
fn iterm_sequence_wraps_the_text() {
    let out = wrap_iterm("QUJD", 3, 2, 4, 5);
    assert_eq!(
        String::from_utf8(out).unwrap(),
        "\x1b[6;5H\x1b]1337;File=inline=1;width=3;height=2:QUJD\x07"
    );
}

#[test]
fn iterm_encodes_base64() {
    let out = iterm_from_png(&b"ABC".to_vec(), 1, 1, 0, 0);
    assert_eq!(
        String::from_utf8(out).unwrap(),
        "\x1b[1;1H\x1b]1337;File=inline=1;width=1;height=1:QUJD\x07"
    );
    let out = iterm_from_png(&vec![0xff, 0x00], 1, 1, 0, 0);
    assert!(String::from_utf8(out).unwrap().ends_with(":/wA=\x07"));
}

#[test]
fn iterm_carries_a_png_of_the_frame() {
    let frame = gradient(7, 5);
    let out = String::from_utf8(encode_iterm(&frame, 2, 1).unwrap()).unwrap();
    let head = "\x1b[2;3H\x1b]1337;File=inline=1;width=7;height=5:";
    assert!(out.starts_with(head));
    assert!(out.ends_with('\x07'));
    let payload = &out[head.len()..out.len() - 1];
    let png = base64::engine::general_purpose::STANDARD.decode(payload).unwrap();
    assert_eq!(&png[0..8], b"\x89PNG\r\n\x1a\n");
    let decoded = image::load_from_memory(&png).unwrap().to_rgba8();
    assert_eq!(decoded.dimensions(), (7, 5));
    assert_eq!(decoded.into_raw(), frame.pixels);
}

#[test]
fn kitty_transmits_the_file_by_its_path() {
    let frame = gradient(4, 3);
    let kitty = encode_kitty(&frame, "/tmp/kitty_frame_1_2.png", 5, 6).unwrap();
    let path = base64::engine::general_purpose::STANDARD.encode("/tmp/kitty_frame_1_2.png");
    let expected =
        format!("\x1b[7;6H\x1b_Ga=T,f=100,t=f,s=4,v=3,S=0,O=0,I=0,C=1,m=0;{path}\x1b\\");
    assert_eq!(String::from_utf8(kitty.bytes).unwrap(), expected);
    let decoded = image::load_from_memory(&kitty.png).unwrap().to_rgba8();
    assert_eq!(decoded.dimensions(), (4, 3));
    assert_eq!(decoded.into_raw(), frame.pixels);
}

#[test]
fn kitty_sequence_puts_the_cursor_first() {
    let out = wrap_kitty("\x1b_Gx\x1b\\", 0, 9);
    assert_eq!(String::from_utf8(out).unwrap(), "\x1b[10;1H\x1b_Gx\x1b\\");
}

#[test]
fn write_times_are_judged() {
    assert_eq!(judge_write_time(0), WriteVerdict::Fine);
    assert_eq!(judge_write_time(100), WriteVerdict::Fine);
    assert_eq!(judge_write_time(101), WriteVerdict::Slow);
    assert_eq!(judge_write_time(1000), WriteVerdict::Slow);
    assert_eq!(judge_write_time(1001), WriteVerdict::TooSlow);
}

#[test]
fn default_configuration() {
    let config = RenderConfig::default();
    assert_eq!(config.method, RenderMethod::Auto);
    assert_eq!(config.width, None);
    assert_eq!(config.height, None);
    assert!(config.maintain_aspect);
    assert_eq!((config.x, config.y), (0, 0));
    assert_eq!(config.quality, 800);
    assert!(config.adaptive_resolution);
    assert_eq!(config.target_fps, 30_000);
    assert!(config.enable_threading);
    assert_eq!(config.max_frame_dimension, Some(1024));
    assert!(config.enable_gpu);
    assert!(!RenderConfig::default_for(true).enable_gpu);
    assert!(termplay::config::is_automated_environment(false, true, false));
    assert!(!termplay::config::is_automated_environment(false, false, false));
    assert_eq!(RenderError::ResourceUnavailable.message(), "Failed to get terminal size");
}
