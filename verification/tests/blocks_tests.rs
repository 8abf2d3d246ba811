use termplay::blocks::{
    column_transparency, compose_row, hash_row, sign_row, BlockArea, BlockRenderer,
};
use termplay::config::{RenderConfig, RenderMethod};
use termplay::frame::VideoFrame;
use termplay::renderer::TerminalRenderer;

fn frame_from(width: u32, height: u32, pixels: &[[u8; 4]]) -> VideoFrame {
    let mut bytes = Vec::new();
    for p in pixels {
        bytes.extend_from_slice(p);
    }
    VideoFrame::new(bytes, width, height, 0, 40_000).unwrap()
}

fn area() -> BlockArea {
    BlockArea { x: 0, y: 0, term_width: 80, term_height: 24 }
}

const RED: [u8; 4] = [255, 0, 0, 255];
const BLUE: [u8; 4] = [0, 0, 255, 255];
const CLEAR: [u8; 4] = [0, 0, 0, 0];

#[test]
fn test_column_transparency_skipping() {
    // Test that fully transparent columns are detected and skipped
    let mut pixels = Vec::new();
    for _y in 0..4 {
        // Make column 0 fully transparent
        pixels.push([0, 0, 0, 0]);
        // Other columns are opaque
        for _x in 1..4 {
            pixels.push([255, 255, 255, 255]);
        }
    }
    let frame = frame_from(4, 4, &pixels);
    let col_transparent = column_transparency(&frame, 4);
    assert_eq!(col_transparent.len(), 4);
    assert!(col_transparent[0], "Column 0 should be transparent");
    assert!(!col_transparent[1], "Column 1 should not be transparent");
}

#[test]
fn test_dirty_row_diffing() {
    // Test that dirty row diffing detects unchanged rows
    let mut pixels1 = Vec::new();
    let mut pixels2 = Vec::new();
    // Row 0 and 1 are the same, row 2 and 3 differ
    for y in 0..4 {
        for _x in 0..2 {
            let (first, second): ([u8; 4], [u8; 4]) = match y {
                0 | 1 => ([10, 20, 30, 255], [10, 20, 30, 255]),
                2 => ([40, 50, 60, 255], [99, 99, 99, 255]), // changed
                _ => ([70, 80, 90, 255], [70, 80, 90, 255]),
            };
            pixels1.push(first);
            pixels2.push(second);
        }
    }
    let frame1 = frame_from(2, 4, &pixels1);
    let frame2 = frame_from(2, 4, &pixels2);
    let transparent = vec![false, false];
    let mut row_hashes1 = vec![0u64; 2];
    let mut row_hashes2 = vec![0u64; 2];
    for y in 0..2 {
        row_hashes1[y] = hash_row(&compose_row(&frame1, &transparent, y as u32));
        row_hashes2[y] = hash_row(&compose_row(&frame2, &transparent, y as u32));
    }
    assert_eq!(row_hashes1[0], row_hashes2[0], "Row 0 should be unchanged");
    assert_eq!(row_hashes1[1] != row_hashes2[1], true, "Row 1 should be changed");

    // the renderer keeps exactly these hashes and rewrites only row 1
    let mut renderer = BlockRenderer::new();
    let first = renderer.render(&frame1, area());
    assert_eq!(first.rows_emitted, 2);
    assert_eq!(renderer.row_hashes(), &row_hashes1);
    let second = renderer.render(&frame2, area());
    assert_eq!(second.rows_emitted, 1);
    assert_eq!(renderer.row_hashes(), &row_hashes2);
}

#[test]
fn two_by_two_frame_is_one_run() {
    let frame = frame_from(2, 2, &[RED, RED, BLUE, BLUE]);
    let mut renderer = BlockRenderer::new();
    let out = renderer.render(&frame, area());
    let expected =
        "\x1b[s\x1b[?25l\x1b[1;1H\x1b[38;2;255;0;0;48;2;0;0;255m\u{2580}\u{2580}\x1b[u\x1b[?25h\x1b[0m";
    assert_eq!(String::from_utf8(out.bytes).unwrap(), expected);
    assert_eq!(out.rows_emitted, 1);
}

#[test]
fn identical_frame_rewrites_no_row() {
    let frame = frame_from(2, 4, &[RED, BLUE, BLUE, RED, RED, RED, BLUE, BLUE]);
    let mut renderer = BlockRenderer::new();
    let first = renderer.render(&frame, area());
    assert_eq!(first.rows_emitted, 2);
    let hashes = renderer.row_hashes().clone();
    let second = renderer.render(&frame, area());
    assert_eq!(second.rows_emitted, 0);
    assert_eq!(renderer.row_hashes(), &hashes);
    assert_eq!(
        String::from_utf8(second.bytes).unwrap(),
        "\x1b[s\x1b[?25l\x1b[u\x1b[?25h\x1b[0m"
    );
    renderer.invalidate();
    let third = renderer.render(&frame, area());
    assert_eq!(third.rows_emitted, 2);
    assert_eq!(third.bytes, first.bytes);
}

#[test]
fn transparent_column_is_left_out_of_the_output() {
    let frame = frame_from(3, 2, &[RED, CLEAR, RED, BLUE, CLEAR, BLUE]);
    let mut renderer = BlockRenderer::new();
    let out = renderer.render(&frame, BlockArea { x: 4, y: 2, term_width: 80, term_height: 24 });
    let color = "\x1b[38;2;255;0;0;48;2;0;0;255m";
    let expected = format!(
        "\x1b[s\x1b[?25l\x1b[3;5H{color}\u{2580}\x1b[3;7H{color}\u{2580}\x1b[u\x1b[?25h\x1b[0m"
    );
    assert_eq!(String::from_utf8(out.bytes).unwrap(), expected);
    let cells = compose_row(&frame, &column_transparency(&frame, 3), 0);
    assert!(cells[0].is_some());
    assert!(cells[1].is_none());
    assert!(cells[2].is_some());
    assert_eq!(sign_row(&cells), vec![1, 255, 0, 0, 0, 0, 255, 0, 1, 255, 0, 0, 0, 0, 255]);
}

#[test]
fn colours_change_starts_a_new_run() {
    let frame = frame_from(3, 1, &[RED, RED, BLUE]);
    let mut renderer = BlockRenderer::new();
    let out = renderer.render(&frame, area());
    // the line below the image is opaque black
    let expected = "\x1b[s\x1b[?25l\x1b[1;1H\x1b[38;2;255;0;0;48;2;0;0;0m\u{2580}\u{2580}\
\x1b[38;2;0;0;255;48;2;0;0;0m\u{2580}\x1b[u\x1b[?25h\x1b[0m";
    assert_eq!(String::from_utf8(out.bytes).unwrap(), expected);
}

#[test]
fn alpha_is_blended_over_black() {
    let frame = frame_from(1, 2, &[[200, 100, 50, 128], [255, 255, 255, 51]]);
    let cells = compose_row(&frame, &[false].to_vec(), 0);
    let cell = cells[0].unwrap();
    assert_eq!(cell.fg, [100, 50, 25]);
    assert_eq!(cell.bg, [51, 51, 51]);
}

#[test]
fn frame_is_cut_to_the_terminal() {
    let pixels = vec![RED; 6 * 6];
    let frame = frame_from(6, 6, &pixels);
    let mut renderer = BlockRenderer::new();
    let out = renderer.render(&frame, BlockArea { x: 2, y: 1, term_width: 5, term_height: 2 });
    // three columns of room, and (min(6, 2*2-1) + 1) / 2 = 2 rows
    assert_eq!(out.rows_emitted, 2);
    assert_eq!(renderer.row_hashes().len(), 2);
    let text = String::from_utf8(out.bytes).unwrap();
    assert_eq!(text.matches('\u{2580}').count(), 6);
    assert!(text.contains("\x1b[2;3H"));
    assert!(text.contains("\x1b[3;3H"));
    let none = renderer.render(&frame, BlockArea { x: 9, y: 0, term_width: 5, term_height: 2 });
    assert!(none.bytes.is_empty());
    assert_eq!(none.rows_emitted, 0);
    assert!(renderer.row_hashes().is_empty());
}

#[test]
fn test_color_code_cache() {
    // Test that color code cache returns the same string for the same input
    let config = RenderConfig::default();
    let mut renderer = TerminalRenderer::new(config, Some((80, 24)), RenderMethod::Blocks).unwrap();
    let fg = [10u16, 20, 30];
    let bg = [40u16, 50, 60];
    let code1 = renderer.get_color_code(fg, bg);
    let code2 = renderer.get_color_code(fg, bg);
    assert_eq!(code1, code2, "Color code cache should return same string for same input");
    assert_eq!(String::from_utf8(code1).unwrap(), "\x1b[38;2;10;20;30;48;2;40;50;60m");
    let other = renderer.get_color_code(bg, fg);
    assert_eq!(String::from_utf8(other).unwrap(), "\x1b[38;2;40;50;60;48;2;10;20;30m");
    let wide = renderer.get_color_code([65535, 0, 256], [999, 1, 2]);
    assert_eq!(String::from_utf8(wide).unwrap(), "\x1b[38;2;65535;0;256;48;2;999;1;2m");
}
