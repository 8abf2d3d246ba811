use termplay::config::{RenderConfig, RenderMethod};
use termplay::detect::TerminalEnv;
use termplay::error::RenderError;
use termplay::frame::{FrameError, VideoFrame};
use termplay::health::ProtocolHealth;
use termplay::renderer::{
    GpuAttempt, RenderEvent, RenderStep, ResizePath, Stage, TerminalRenderer,
};

/// Generate a test frame with the given dimensions
fn create_test_frame(width: u32, height: u32) -> VideoFrame {
    // Create a gradient pattern
    let mut pixels = Vec::new();
    for y in 0..height {
        for x in 0..width {
            let r = (x as f32 / width as f32 * 255.0) as u8;
            let g = (y as f32 / height as f32 * 255.0) as u8;
            let b = ((x + y) as f32 / (width + height) as f32 * 255.0) as u8;
            pixels.extend_from_slice(&[r, g, b, 255]);
        }
    }
    VideoFrame::new(pixels, width, height, 0, 40_000).unwrap()
}

/// Runs one frame through the renderer. Each write is answered by `write`;
/// the GPU is always busy.
fn render(
    renderer: &mut TerminalRenderer,
    health: &mut ProtocolHealth,
    frame: &VideoFrame,
    elapsed_us: u64,
    written: &mut Vec<Vec<u8>>,
    write: &mut dyn FnMut(&[u8]) -> bool,
) -> Result<(), RenderError> {
    let begin = RenderEvent::Begin { elapsed_us, kitty_path: "/tmp/frame.png".to_string() };
    let mut step = renderer.render(health, frame, begin);
    loop {
        step = match step {
            RenderStep::ResizeOnGpu { .. } => {
                renderer.render(health, frame, RenderEvent::GpuFinished(GpuAttempt::LockTimedOut))
            }
            RenderStep::Write { bytes, .. } => {
                let succeeded = write(&bytes);
                written.push(bytes);
                renderer.render(health, frame, RenderEvent::Written { succeeded, elapsed_ms: 1 })
            }
            RenderStep::Done(result) => return result,
        };
    }
}

fn config(method: RenderMethod) -> RenderConfig {
    RenderConfig { method, ..Default::default() }
}

#[test]
fn test_render_dimensions() {
    // Test that dimensions are calculated correctly
    let config = RenderConfig {
        method: RenderMethod::Auto,
        width: Some(200),
        height: Some(150),
        maintain_aspect: true,
        ..Default::default()
    };

    let mut renderer = TerminalRenderer::new(config, Some((80, 24)), RenderMethod::Blocks).unwrap();
    let mut health = ProtocolHealth::new();
    let frame = create_test_frame(400, 300);
    assert_eq!(renderer.calculate_dimensions(&frame), (200, 150));
    assert_eq!(renderer.calculate_dimensions_with_quality(&frame), (160, 120));

    // Render the frame and make sure it doesn't crash
    let mut written = Vec::new();
    render(&mut renderer, &mut health, &frame, 33_000, &mut written, &mut |_| true)
        .expect("Rendering should succeed");
    assert_eq!(written.len(), 1);
    assert!(written[0].starts_with(b"\x1b[s\x1b[?25l\x1b[1;1H\x1b[38;2;"));
}

#[test]
fn test_adaptive_quality() {
    // Create a renderer with adaptive quality
    let config = RenderConfig {
        method: RenderMethod::Auto,
        adaptive_resolution: true,
        target_fps: 30_000,
        ..Default::default()
    };

    let mut renderer = TerminalRenderer::new(config, Some((80, 24)), RenderMethod::Blocks).unwrap();
    let mut health = ProtocolHealth::new();

    // Create test frame
    let frame = create_test_frame(1280, 720);

    // Render multiple frames to trigger quality adaptation
    for _ in 0..5 {
        // Simulate slow rendering
        let mut written = Vec::new();
        render(&mut renderer, &mut health, &frame, 50_000, &mut written, &mut |_| true)
            .expect("Rendering should succeed");
    }
    assert_eq!(renderer.quality_factor(), 1000);
    for _ in 0..10 {
        let mut written = Vec::new();
        render(&mut renderer, &mut health, &frame, 50_000, &mut written, &mut |_| true)
            .expect("Rendering should succeed");
    }
    // 20 fps is below 0.7 * 30: the factor drops to 0.85
    assert_eq!(renderer.quality_factor(), 850);
}

#[test]
fn test_render_methods() {
    let frame = create_test_frame(320, 240);

    // Test blocks rendering
    let mut renderer =
        TerminalRenderer::new(config(RenderMethod::Blocks), Some((80, 24)), RenderMethod::Auto)
            .unwrap();
    let mut health = ProtocolHealth::new();

    // This should not panic
    let mut written = Vec::new();
    let _ = render(&mut renderer, &mut health, &frame, 33_000, &mut written, &mut |_| true);
    assert_eq!(renderer.effective_method(), RenderMethod::Blocks);
    assert_eq!(health.last_method(), Some(RenderMethod::Blocks));

    for method in [RenderMethod::Sixel, RenderMethod::ITerm, RenderMethod::Kitty] {
        let mut renderer =
            TerminalRenderer::new(config(method), Some((80, 24)), RenderMethod::Auto).unwrap();
        let mut health = ProtocolHealth::new();
        let mut written = Vec::new();
        render(&mut renderer, &mut health, &frame, 33_000, &mut written, &mut |_| true).unwrap();
        assert_eq!(health.last_method(), Some(method));
        assert_eq!(written.len(), 1);
        assert!(written[0].starts_with(b"\x1b[1;1H\x1b"));
    }
}

#[test]
fn renderer_needs_the_terminal_size() {
    let result = TerminalRenderer::new(config(RenderMethod::Blocks), None, RenderMethod::Blocks);
    assert_eq!(result.err(), Some(RenderError::ResourceUnavailable));
    let auto = TerminalRenderer::new(config(RenderMethod::Auto), Some((80, 24)), RenderMethod::Kitty);
    assert_eq!(auto.unwrap().effective_method(), RenderMethod::Kitty);
    let none = TerminalRenderer::new(config(RenderMethod::Auto), Some((80, 24)), RenderMethod::Auto);
    assert_eq!(none.unwrap().effective_method(), RenderMethod::Blocks);
    let fixed =
        TerminalRenderer::new(config(RenderMethod::Sixel), Some((80, 24)), RenderMethod::Kitty);
    assert_eq!(fixed.unwrap().effective_method(), RenderMethod::Sixel);
    assert!(TerminalRenderer::needs_detection(&config(RenderMethod::Auto)));
    assert!(!TerminalRenderer::needs_detection(&config(RenderMethod::ITerm)));
}

#[test]
fn failed_protocol_falls_back_to_blocks_for_good() {
    let frame = create_test_frame(64, 64);
    let mut health = ProtocolHealth::new();
    let mut sixel =
        TerminalRenderer::new(config(RenderMethod::Sixel), Some((80, 24)), RenderMethod::Auto)
            .unwrap();
    let mut written = Vec::new();
    // the first write fails, the second (the fallback) succeeds
    let mut calls = 0;
    let result = render(&mut sixel, &mut health, &frame, 33_000, &mut written, &mut |_| {
        calls += 1;
        calls > 1
    });
    assert_eq!(result, Ok(()));
    assert_eq!(written.len(), 2);
    assert!(written[0].starts_with(b"\x1b[1;1H\x1bPq"));
    assert!(written[1].starts_with(b"\x1b[2J\x1b[H\x1b[s\x1b[?25l"));
    assert!(health.has_failed(RenderMethod::Sixel));
    assert_eq!(health.last_method(), Some(RenderMethod::Blocks));

    // every later frame of this renderer is drawn as blocks at once
    for _ in 0..3 {
        let mut written = Vec::new();
        render(&mut sixel, &mut health, &frame, 33_000, &mut written, &mut |_| true).unwrap();
        assert_eq!(written.len(), 1);
        assert!(written[0].starts_with(b"\x1b[s\x1b[?25l"));
        assert!(health.has_failed(RenderMethod::Sixel));
    }

    // and so is every frame of another renderer that shares the state
    let mut iterm =
        TerminalRenderer::new(config(RenderMethod::ITerm), Some((80, 24)), RenderMethod::Auto)
            .unwrap();
    let mut written = Vec::new();
    render(&mut iterm, &mut health, &frame, 33_000, &mut written, &mut |_| true).unwrap();
    assert_eq!(written.len(), 1);
    assert!(written[0].starts_with(b"\x1b[s\x1b[?25l"));
    assert!(!health.has_failed(RenderMethod::ITerm));
    assert_eq!(health.select_method(RenderMethod::Kitty), RenderMethod::Blocks);
}

#[test]
fn failed_fallback_surfaces_as_an_error() {
    let frame = create_test_frame(64, 64);
    let mut health = ProtocolHealth::new();
    let mut renderer =
        TerminalRenderer::new(config(RenderMethod::ITerm), Some((80, 24)), RenderMethod::Auto)
            .unwrap();
    let mut written = Vec::new();
    let result = render(&mut renderer, &mut health, &frame, 33_000, &mut written, &mut |_| false);
    assert_eq!(result, Err(RenderError::ProtocolFailure(RenderMethod::Blocks)));
    assert_eq!(written.len(), 2);
    assert!(health.has_failed(RenderMethod::ITerm));
    assert_eq!(renderer.stage(), Stage::Idle);
    let mut blocks =
        TerminalRenderer::new(config(RenderMethod::Blocks), Some((80, 24)), RenderMethod::Auto)
            .unwrap();
    let mut health = ProtocolHealth::new();
    let mut written = Vec::new();
    let result = render(&mut blocks, &mut health, &frame, 33_000, &mut written, &mut |_| false);
    assert_eq!(result, Err(RenderError::ProtocolFailure(RenderMethod::Blocks)));
    assert_eq!(written.len(), 1);
    assert_eq!(health.last_method(), None);
}

#[test]
fn slow_kitty_write_counts_as_failure() {
    let frame = create_test_frame(64, 64);
    let mut health = ProtocolHealth::new();
    let mut renderer =
        TerminalRenderer::new(config(RenderMethod::Kitty), Some((80, 24)), RenderMethod::Auto)
            .unwrap();
    let begin = RenderEvent::Begin { elapsed_us: 33_000, kitty_path: "/tmp/k.png".to_string() };
    let step = renderer.render(&mut health, &frame, begin);
    let step = match step {
        RenderStep::ResizeOnGpu { .. } => {
            renderer.render(&mut health, &frame, RenderEvent::GpuFinished(GpuAttempt::Unavailable))
        }
        other => other,
    };
    match step {
        RenderStep::Write { file, bytes } => {
            assert!(file.unwrap().starts_with(b"\x89PNG"));
            assert!(bytes.starts_with(b"\x1b[1;1H\x1b_Ga=T,f=100,t=f,"));
        }
        _ => panic!("expected a write"),
    }
    assert_eq!(renderer.stage(), Stage::Writing { method: RenderMethod::Kitty });
    let step = renderer.render(
        &mut health,
        &frame,
        RenderEvent::Written { succeeded: true, elapsed_ms: 1001 },
    );
    assert!(matches!(step, RenderStep::Write { file: None, .. }));
    assert!(health.has_failed(RenderMethod::Kitty));
    assert_eq!(renderer.stage(), Stage::WritingFallback);
    let step = renderer.render(
        &mut health,
        &frame,
        RenderEvent::Written { succeeded: true, elapsed_ms: 5000 },
    );
    assert!(matches!(step, RenderStep::Done(Ok(()))));
}

#[test]
fn gpu_is_asked_for_graphical_protocols_only() {
    let frame = create_test_frame(640, 480);
    let mut health = ProtocolHealth::new();
    let mut renderer =
        TerminalRenderer::new(config(RenderMethod::ITerm), Some((200, 100)), RenderMethod::Auto)
            .unwrap();
    assert!(renderer.wants_gpu());
    let (w, h) = renderer.calculate_dimensions_with_quality(&frame);
    assert_eq!((w, h), (106, 80));
    assert_eq!(renderer.choose_resize_path(&frame, w, h), ResizePath::Gpu);
    assert_eq!(renderer.choose_resize_path(&frame, 640, 480), ResizePath::Keep);
    assert_eq!(renderer.choose_resize_path(&frame, 20, 40), ResizePath::Thumbnail(40));
    let begin = RenderEvent::Begin { elapsed_us: 33_000, kitty_path: String::new() };
    let step = renderer.render(&mut health, &frame, begin);
    assert!(matches!(step, RenderStep::ResizeOnGpu { width: 106, height: 80 }));
    assert_eq!(renderer.stage(), Stage::Resizing { width: 106, height: 80 });
    // the pixels that come back are taken as they are
    let pixels = vec![77u8; 106 * 80 * 4];
    let step =
        renderer.render(&mut health, &frame, RenderEvent::GpuFinished(GpuAttempt::Resized(pixels)));
    match step {
        RenderStep::Write { file: None, bytes } => {
            let text = String::from_utf8(bytes).unwrap();
            assert!(text.starts_with("\x1b[1;1H\x1b]1337;File=inline=1;width=106;height=80:"));
        }
        _ => panic!("expected a write"),
    }

    let mut blocks =
        TerminalRenderer::new(config(RenderMethod::Blocks), Some((200, 100)), RenderMethod::Auto)
            .unwrap();
    assert!(!blocks.wants_gpu());
    assert_eq!(blocks.choose_resize_path(&frame, 106, 80), ResizePath::Cpu);
    let no_gpu = RenderConfig { enable_gpu: false, ..config(RenderMethod::Sixel) };
    let renderer = TerminalRenderer::new(no_gpu, Some((200, 100)), RenderMethod::Auto).unwrap();
    assert_eq!(renderer.choose_resize_path(&frame, 106, 80), ResizePath::Cpu);
}

#[test]
fn useless_gpu_result_is_replaced_by_the_cpu() {
    let frame = create_test_frame(64, 64);
    let renderer =
        TerminalRenderer::new(config(RenderMethod::ITerm), Some((80, 24)), RenderMethod::Auto)
            .unwrap();
    let short = renderer.finish_gpu_resize(&frame, GpuAttempt::Resized(vec![0; 10]), 32, 32);
    let short = short.unwrap();
    assert_eq!((short.width, short.height), (32, 32));
    assert_ne!(short.pixels, vec![0; 32 * 32 * 4]);
    for attempt in [GpuAttempt::LockTimedOut, GpuAttempt::Unavailable, GpuAttempt::Failed] {
        let resized = renderer.finish_gpu_resize(&frame, attempt, 32, 16).unwrap();
        assert_eq!((resized.width, resized.height), (16, 16));
    }
    let failed = renderer.finish_gpu_resize(&frame, GpuAttempt::Failed, 0, 16);
    assert_eq!(failed.unwrap_err(), FrameError::ZeroDimension);
}

#[test]
fn events_out_of_turn_are_refused() {
    let frame = create_test_frame(32, 32);
    let mut health = ProtocolHealth::new();
    let mut renderer =
        TerminalRenderer::new(config(RenderMethod::Blocks), Some((80, 24)), RenderMethod::Auto)
            .unwrap();
    let step = renderer.render(
        &mut health,
        &frame,
        RenderEvent::Written { succeeded: true, elapsed_ms: 0 },
    );
    assert!(matches!(step, RenderStep::Done(Err(RenderError::OutOfTurn))));
    let step =
        renderer.render(&mut health, &frame, RenderEvent::GpuFinished(GpuAttempt::Unavailable));
    assert!(matches!(step, RenderStep::Done(Err(RenderError::OutOfTurn))));
    let begin = RenderEvent::Begin { elapsed_us: 1, kitty_path: String::new() };
    assert!(matches!(renderer.render(&mut health, &frame, begin), RenderStep::Write { .. }));
    let begin = RenderEvent::Begin { elapsed_us: 1, kitty_path: String::new() };
    let step = renderer.render(&mut health, &frame, begin);
    assert!(matches!(step, RenderStep::Done(Err(RenderError::OutOfTurn))));
    assert_eq!(renderer.stage(), Stage::Idle);
}

#[test]
fn frame_that_cannot_be_resized_is_an_error() {
    let frame = create_test_frame(2000, 2);
    let mut health = ProtocolHealth::new();
    let cpu = RenderConfig { enable_gpu: false, ..config(RenderMethod::Blocks) };
    let mut renderer = TerminalRenderer::new(cpu, Some((80, 24)), RenderMethod::Auto).unwrap();
    let mut written = Vec::new();
    let result = render(&mut renderer, &mut health, &frame, 33_000, &mut written, &mut |_| true);
    // 80x24 with the proportions of the frame is 80x0, floored at 16x16:
    // a thumbnail of at most 16 a side, 16x1, can be made
    assert_eq!(result, Ok(()));
    let wide = RenderConfig { width: Some(4000), height: Some(40), ..cpu };
    let mut renderer = TerminalRenderer::new(wide, Some((80, 24)), RenderMethod::Auto).unwrap();
    assert_eq!(renderer.calculate_dimensions_with_quality(&frame), (3200, 16));
    let mut written = Vec::new();
    let result = render(&mut renderer, &mut health, &frame, 33_000, &mut written, &mut |_| true);
    assert_eq!(result, Ok(()));
}

#[test]
fn dimensions_follow_quality_and_floors() {
    let frame = create_test_frame(100, 100);
    let blocks = RenderConfig { quality: 500, ..config(RenderMethod::Blocks) };
    let renderer = TerminalRenderer::new(blocks, Some((80, 24)), RenderMethod::Auto).unwrap();
    assert_eq!(renderer.calculate_dimensions(&frame), (24, 24));
    assert_eq!(renderer.calculate_dimensions_with_quality(&frame), (16, 16));
    let sixel = RenderConfig { quality: 100, ..config(RenderMethod::Sixel) };
    let renderer = TerminalRenderer::new(sixel, Some((200, 100)), RenderMethod::Auto).unwrap();
    // quality 0.1 is raised to 0.4 for a graphical protocol
    assert_eq!(renderer.calculate_dimensions_with_quality(&frame), (40, 40));
    let offset = RenderConfig { x: 10, y: 4, maintain_aspect: false, ..config(RenderMethod::Blocks) };
    let renderer = TerminalRenderer::new(offset, Some((80, 24)), RenderMethod::Auto).unwrap();
    assert_eq!(renderer.calculate_dimensions(&frame), (70, 20));
    assert_eq!(renderer.calculate_dimensions_with_quality(&frame), (56, 16));
}

#[test]
fn detection_follows_the_environment() {
    let env = |kitty: bool, iterm: bool, term: &str| TerminalEnv {
        kitty_window_id: kitty,
        iterm_session_id: iterm,
        term: term.to_string(),
    };
    let detect = TerminalRenderer::detect_best_method;
    assert_eq!(detect(&env(true, true, "xterm"), true, None), RenderMethod::Kitty);
    assert_eq!(detect(&env(true, true, "xterm-sixel"), false, None), RenderMethod::Blocks);
    assert_eq!(detect(&env(false, true, "xterm-sixel"), true, None), RenderMethod::ITerm);
    assert_eq!(detect(&env(false, false, "xterm-sixel"), true, None), RenderMethod::Sixel);
    assert_eq!(detect(&env(false, false, "mlterm"), true, None), RenderMethod::Sixel);
    assert_eq!(detect(&env(false, false, "yaft-256color"), true, None), RenderMethod::Sixel);
    assert_eq!(detect(&env(false, false, "mlterm-256"), true, None), RenderMethod::Blocks);
    assert_eq!(
        detect(&env(false, false, "xterm"), true, Some("\x1b[?62;4;6c")),
        RenderMethod::Sixel
    );
    assert_eq!(detect(&env(false, false, "xterm"), true, Some("\x1b[?62;6c")), RenderMethod::Blocks);
    assert_eq!(
        detect(&env(false, false, "iterm2"), true, Some("\x1b[?62;6c")),
        RenderMethod::ITerm
    );
    assert_eq!(detect(&env(false, false, "iterm2"), true, None), RenderMethod::ITerm);
    assert_eq!(detect(&env(false, false, ""), false, None), RenderMethod::Blocks);
}

#[test]
fn each_method_can_be_encoded_by_itself() {
    let frame = create_test_frame(8, 6);
    let mut renderer =
        TerminalRenderer::new(config(RenderMethod::Blocks), Some((80, 24)), RenderMethod::Auto)
            .unwrap();
    let blocks = renderer.render_blocks(&frame);
    assert!(blocks.starts_with(b"\x1b[s\x1b[?25l\x1b[1;1H"));
    assert!(blocks.ends_with(b"\x1b[u\x1b[?25h\x1b[0m"));
    // the same frame again: nothing but the frame around the rows
    assert_eq!(renderer.render_blocks(&frame), b"\x1b[s\x1b[?25l\x1b[u\x1b[?25h\x1b[0m");
    let sixel = renderer.render_sixel(&frame);
    assert!(sixel.starts_with(b"\x1b[1;1H\x1bPq#0;2;0;0;0"));
    assert!(sixel.ends_with(b"-\x1b\\"));
    let iterm = renderer.render_iterm(&frame).unwrap();
    assert!(iterm.starts_with(b"\x1b[1;1H\x1b]1337;File=inline=1;width=8;height=6:iVBOR"));
    assert!(iterm.ends_with(b"\x07"));
    let (png, kitty) = renderer.render_kitty(&frame, "/tmp/a.png").unwrap();
    assert_eq!(&png[1..4], b"PNG");
    assert!(kitty.ends_with(b";L3RtcC9hLnBuZw==\x1b\\"));
}

#[test]
fn performance_metrics_adjust_the_factor_every_fifteen_frames() {
    let mut renderer =
        TerminalRenderer::new(config(RenderMethod::Blocks), Some((80, 24)), RenderMethod::Auto)
            .unwrap();
    for frame in 1..=45 {
        renderer.update_performance_metrics(200_000);
        let expected = match frame {
            1..=14 => 1000,
            15..=29 => 700,
            30..=44 => 490,
            _ => 343,
        };
        assert_eq!(renderer.quality_factor(), expected, "after frame {frame}");
    }
    let fixed = RenderConfig { adaptive_resolution: false, ..config(RenderMethod::Blocks) };
    let mut renderer = TerminalRenderer::new(fixed, Some((80, 24)), RenderMethod::Auto).unwrap();
    for _ in 0..45 {
        renderer.update_performance_metrics(200_000);
    }
    assert_eq!(renderer.quality_factor(), 1000);
}

#[test]
fn failed_write_of_blocks_redraws_in_full() {
    let frame = create_test_frame(32, 32);
    let mut health = ProtocolHealth::new();
    let mut renderer =
        TerminalRenderer::new(config(RenderMethod::Blocks), Some((80, 24)), RenderMethod::Auto)
            .unwrap();
    let mut first = Vec::new();
    render(&mut renderer, &mut health, &frame, 33_000, &mut first, &mut |_| true).unwrap();
    let mut failed = Vec::new();
    let result = render(&mut renderer, &mut health, &frame, 33_000, &mut failed, &mut |_| false);
    assert_eq!(result, Err(RenderError::ProtocolFailure(RenderMethod::Blocks)));
    // the same frame was not written again in full, since nothing had changed
    assert!(failed[0].len() < first[0].len());
    // after the failure nothing is known of the screen
    let mut third = Vec::new();
    render(&mut renderer, &mut health, &frame, 33_000, &mut third, &mut |_| true).unwrap();
    assert_eq!(third[0], first[0]);
}
