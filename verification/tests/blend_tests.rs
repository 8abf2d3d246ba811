use termplay::blend::{blend_alpha, simd_blend_alpha};

#[test]
fn test_simd_blend_alpha_equivalence() {
    // Test that simd_blend_alpha produces the same result as scalar math
    let top = [100u8, 150, 200, 128];
    let bot = [50u8, 80, 120, 255];
    let (simd_fg, simd_bg) = simd_blend_alpha(&top, &bot);
    let scalar_fg = [
        ((top[0] as u16 * top[3] as u16) + 127) >> 8,
        ((top[1] as u16 * top[3] as u16) + 127) >> 8,
        ((top[2] as u16 * top[3] as u16) + 127) >> 8,
    ];
    let scalar_bg = [
        ((bot[0] as u16 * bot[3] as u16) + 127) >> 8,
        ((bot[1] as u16 * bot[3] as u16) + 127) >> 8,
        ((bot[2] as u16 * bot[3] as u16) + 127) >> 8,
    ];
    assert_eq!(simd_fg, scalar_fg, "SIMD and scalar foreground mismatch");
    assert_eq!(simd_bg, scalar_bg, "SIMD and scalar background mismatch");
}

#[test]
fn blend_paths_agree_on_every_alpha() {
    for alpha in 0..=255u8 {
        for color in [0u8, 1, 2, 127, 128, 200, 254, 255] {
            let top = [color, 255 - color, color / 2, alpha];
            let bot = [255 - color, color, 17, 255 - alpha];
            assert_eq!(blend_alpha(&top, &bot), simd_blend_alpha(&top, &bot));
        }
    }
}

#[test]
fn blend_formula_exact_values() {
    let (fg, bg) = blend_alpha(&[255, 255, 255, 255], &[255, 10, 3, 0]);
    assert_eq!(fg, [255, 255, 255]);
    assert_eq!(bg, [0, 0, 0]);
    let (fg, _) = blend_alpha(&[200, 100, 50, 128], &[0, 0, 0, 255]);
    assert_eq!(fg, [100, 50, 25]);
}
