use termplay::frame::VideoFrame;
use termplay::sixel::{closest_color_idx, encode_sixel, palette_color, quantize};

fn frame_from(width: u32, height: u32, pixels: &[[u8; 4]]) -> VideoFrame {
    let mut bytes = Vec::new();
    for p in pixels {
        bytes.extend_from_slice(p);
    }
    VideoFrame::new(bytes, width, height, 0, 40_000).unwrap()
}

const PALETTE: &str = "#0;2;0;0;0#1;2;255;0;0#2;2;0;255;0#3;2;255;255;0#4;2;0;0;255\
#5;2;255;0;255#6;2;0;255;255#7;2;255;255;255#8;2;85;85;85#9;2;170;170;170#10;2;128;0;0\
#11;2;0;128;0#12;2;128;128;0#13;2;0;0;128#14;2;128;0;128#15;2;0;128;128";

#[test]
fn closest_colour_is_the_nearest_palette_entry() {
    assert_eq!(closest_color_idx(&[0, 0, 0, 255]), 0);
    assert_eq!(closest_color_idx(&[255, 0, 0, 255]), 1);
    assert_eq!(closest_color_idx(&[250, 250, 250, 255]), 7);
    assert_eq!(closest_color_idx(&[90, 90, 90, 255]), 8);
    assert_eq!(closest_color_idx(&[120, 10, 10, 255]), 10);
    // transparent pixels are background, whatever their colour
    assert_eq!(closest_color_idx(&[255, 255, 255, 0]), 0);
    // alpha is applied over black first: half red is dark red
    assert_eq!(closest_color_idx(&[255, 0, 0, 128]), 10);
    // equally far from black and dark grey? the first one wins
    assert_eq!(closest_color_idx(&[0, 0, 64, 255]), 0);
    assert_eq!(palette_color(9), [170, 170, 170]);
    assert_eq!(palette_color(15), [0, 128, 128]);
}

#[test]
fn two_pixels_make_two_colour_rows() {
    let frame = frame_from(2, 1, &[[255, 0, 0, 255], [255, 255, 255, 255]]);
    assert_eq!(quantize(&frame), vec![1, 7]);
    let out = String::from_utf8(encode_sixel(&frame, 0, 0)).unwrap();
    let expected = format!("\x1b[1;1H\x1bPq{PALETTE}#1@?$#7?@$-\x1b\\");
    assert_eq!(out, expected);
}

#[test]
fn long_runs_are_counted() {
    let frame = frame_from(5, 1, &[[0, 255, 0, 255]; 5]);
    let out = String::from_utf8(encode_sixel(&frame, 2, 3)).unwrap();
    let expected = format!("\x1b[4;3H\x1bPq{PALETTE}#2!5@$-\x1b\\");
    assert_eq!(out, expected);
    let mut pixels = vec![[0, 255, 0, 255]; 3];
    pixels.extend_from_slice(&[[0, 0, 255, 255]; 12]);
    let frame = frame_from(15, 1, &pixels);
    let out = String::from_utf8(encode_sixel(&frame, 0, 0)).unwrap();
    let expected = format!("\x1b[1;1H\x1bPq{PALETTE}#2@@@!12?$#4???!12@$-\x1b\\");
    assert_eq!(out, expected);
}

#[test]
fn bands_are_six_lines_high() {
    // one column, seven lines: six in the first band, one in the second
    let mut pixels = vec![[255, 255, 255, 255]; 7];
    pixels[1] = [0, 0, 0, 255];
    let frame = frame_from(1, 7, &pixels);
    let out = String::from_utf8(encode_sixel(&frame, 0, 0)).unwrap();
    // black has bit 1: 63 + 2 = 'A'; white has bits 0,2,3,4,5: 63 + 61 = '|'
    let expected = format!("\x1b[1;1H\x1bPq{PALETTE}#0A$#7|$-#7@$-\x1b\\");
    assert_eq!(out, expected);
}
