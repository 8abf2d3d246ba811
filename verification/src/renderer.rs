//! The renderer: it sizes each frame for the terminal, picks the way to
//! resize it, encodes it for the method in use, and falls back to half
//! blocks for good when a protocol fails.
//!
//! The renderer neither resizes on the GPU nor writes to the terminal. It
//! says what is to be done next, and is told how it went.

use vstd::prelude::*;
use crate::ansi::{clear_screen, push_bytes, push_clear_screen};
use crate::blocks::{frame_hashes, frame_output, BlockArea, BlockRenderer};
use crate::config::{RenderConfig, RenderMethod};
use crate::detect::{detection_of, method_after_query, Detection, TerminalEnv};
use crate::error::RenderError;
use crate::frame::{
    frame_error, outcome_view, resize_outcome, resized_dimensions, thumbnail_outcome, FrameError,
    FrameView, VideoFrame,
};
use crate::health::{HealthView, ProtocolHealth};
use crate::iterm::{encode_iterm, iterm_outcome};
use crate::kitty::{encode_kitty, kitty_outcome, FAILED_WRITE_MS};
use crate::quality::{at_least, effective_quality_of, QualityController, QualityView};
use crate::sixel::{encode_sixel, sixel_output};

verus! {

/// The least size, in pixels a side, of a frame rendered as blocks.
pub const MIN_BLOCK_DIMENSION: u32 = 16;

/// The least size, in pixels a side, of a frame rendered by a graphical
/// protocol.
pub const MIN_GRAPHICAL_DIMENSION: u32 = 32;

/// Targets with a side below this are resized by the quick thumbnail.
pub const FAST_RESIZE_BELOW: u32 = 32;

/// How a frame gets its target size.
#[derive(Clone, Copy, Debug, PartialEq, Eq, Structural)]
pub enum ResizePath {
    /// It has the size already.
    Keep,
    /// By the quick thumbnail, to at most this many pixels a side.
    Thumbnail(u32),
    /// On the GPU, and on the CPU if that does not work out.
    Gpu,
    /// On the CPU.
    Cpu,
}

/// What the renderer waits for.
#[derive(Clone, Copy, Debug, PartialEq, Eq, Structural)]
pub enum Stage {
    /// The next frame.
    Idle,
    /// The frame resized on the GPU to this size.
    Resizing { width: u32, height: u32 },
    /// Word on how the frame, encoded for this method, was written.
    Writing { method: RenderMethod },
    /// Word on how the frame, encoded as blocks after a protocol failed, was
    /// written.
    WritingFallback,
}

/// How an attempt to resize on the GPU went.
pub enum GpuAttempt {
    /// The shared pipeline was busy for too long.
    LockTimedOut,
    /// There is no pipeline.
    Unavailable,
    /// The pipeline broke down.
    Failed,
    /// The resized pixels.
    Resized(Vec<u8>),
}

/// What the renderer is told.
pub enum RenderEvent {
    /// A frame is to be rendered, `elapsed_us` microseconds after the one
    /// before. `kitty_path` is where a PNG file for the terminal may be
    /// saved.
    Begin { elapsed_us: u64, kitty_path: String },
    /// The GPU is done.
    GpuFinished(GpuAttempt),
    /// The bytes were written, or not, within `elapsed_ms` milliseconds.
    Written { succeeded: bool, elapsed_ms: u64 },
}

/// What the renderer asks for.
pub enum RenderStep {
    /// Resize the frame on the GPU to this size and report back.
    ResizeOnGpu { width: u32, height: u32 },
    /// Save `file`, if there is one, at the path given at the beginning;
    /// then write `bytes` to the terminal, flush, and report back.
    Write { file: Option<Vec<u8>>, bytes: Vec<u8> },
    /// The frame is done with.
    Done(Result<(), RenderError>),
}

/// What a renderer asks for, in terms of what it holds.
pub enum StepView {
    ResizeOnGpu { width: u32, height: u32 },
    Write { file: Option<Seq<u8>>, bytes: Seq<u8> },
    Done(Result<(), RenderError>),
}

impl View for RenderStep {
    type V = StepView;

    open spec fn view(&self) -> StepView {
        match self {
            RenderStep::ResizeOnGpu { width, height } => StepView::ResizeOnGpu {
                width: *width,
                height: *height,
            },
            RenderStep::Write { file, bytes } => StepView::Write {
                file: match file {
                    Some(f) => Some(f@),
                    None => None,
                },
                bytes: bytes@,
            },
            RenderStep::Done(result) => StepView::Done(*result),
        }
    }
}

/// What a renderer is: its configuration, the method it settled on, the
/// size of the terminal, the state of the quality controller, the row hashes
/// of the frame drawn last as blocks, what it waits for, the resized frame in
/// flight, and the path for PNG files.
pub struct RendererView {
    pub config: RenderConfig,
    pub effective_method: RenderMethod,
    pub term_width: u16,
    pub term_height: u16,
    pub quality: QualityView,
    pub row_hashes: Seq<u64>,
    pub stage: Stage,
    pub pending: Option<FrameView>,
    pub kitty_path: Seq<char>,
}

/// The cells between an offset and the edge of the terminal.
pub open spec fn room(total: u16, offset: u16) -> int {
    if total > offset {
        total - offset
    } else {
        0
    }
}

/// The method that a look at the terminal leads to, given how the kitty test
/// went and what the terminal answered to the device attributes query.
pub open spec fn best_method(
    kitty_window_id: bool,
    iterm_session_id: bool,
    term: Seq<char>,
    kitty_test_passed: bool,
    sixel_answer: Option<Seq<char>>,
) -> RenderMethod {
    match detection_of(kitty_window_id, iterm_session_id, term) {
        Detection::Decided(method) => method,
        Detection::NeedsKittyTest => if kitty_test_passed {
            RenderMethod::Kitty
        } else {
            RenderMethod::Blocks
        },
        Detection::NeedsSixelQuery => method_after_query(term, sixel_answer),
    }
}

impl RendererView {
    /// Where blocks are drawn.
    pub open spec fn area(self) -> BlockArea {
        BlockArea {
            x: self.config.x,
            y: self.config.y,
            term_width: self.term_width,
            term_height: self.term_height,
        }
    }

    /// Whether the renderer draws blocks by its own method.
    pub open spec fn uses_blocks(self) -> bool {
        self.effective_method == RenderMethod::Blocks
    }

    /// The size that a frame is fitted into: the configured size or the room
    /// on the terminal, with the proportions of the frame if they are kept.
    pub open spec fn base_dimensions(self, frame_width: u32, frame_height: u32) -> (int, int) {
        let width = match self.config.width {
            Some(w) => w as int,
            None => room(self.term_width, self.config.x),
        };
        let height = match self.config.height {
            Some(h) => h as int,
            None => room(self.term_height, self.config.y),
        };
        resized_dimensions(
            frame_width,
            frame_height,
            width as u32,
            height as u32,
            self.config.maintain_aspect,
        )
    }

    /// The effective quality, in thousandths.
    pub open spec fn effective_quality(self) -> int {
        effective_quality_of(self.config.quality, self.quality.quality_factor, self.uses_blocks())
    }

    /// The least size of a side.
    pub open spec fn min_dimension(self) -> int {
        if self.uses_blocks() {
            MIN_BLOCK_DIMENSION as int
        } else {
            MIN_GRAPHICAL_DIMENSION as int
        }
    }

    /// The size that a frame is rendered at: the base size scaled by the
    /// effective quality, each side at least the least size.
    pub open spec fn target_dimensions(self, frame_width: u32, frame_height: u32) -> (int, int) {
        let (width, height) = self.base_dimensions(frame_width, frame_height);
        (
            at_least(width * self.effective_quality() / 1000, self.min_dimension()),
            at_least(height * self.effective_quality() / 1000, self.min_dimension()),
        )
    }

    /// How a frame gets a target size.
    pub open spec fn resize_path(self, frame: FrameView, width: u32, height: u32) -> ResizePath {
        if frame.width == width && frame.height == height {
            ResizePath::Keep
        } else if width < FAST_RESIZE_BELOW || height < FAST_RESIZE_BELOW {
            ResizePath::Thumbnail(if width > height { width } else { height })
        } else if !self.uses_blocks() && self.config.enable_gpu {
            ResizePath::Gpu
        } else {
            ResizePath::Cpu
        }
    }

    /// The frame resized without the GPU.
    pub open spec fn resized_on_cpu(self, frame: FrameView, path: ResizePath, width: u32, height: u32) -> Result<
        FrameView,
        FrameError,
    > {
        match path {
            ResizePath::Keep => Ok(frame),
            ResizePath::Thumbnail(max_dimension) => thumbnail_outcome(frame, max_dimension),
            _ => resize_outcome(frame, width, height, self.config.maintain_aspect),
        }
    }

    /// The frame after an attempt on the GPU: around the pixels that came
    /// back if they make up an image of the size asked for, resized on the
    /// CPU otherwise.
    pub open spec fn resized_after_gpu(
        self,
        frame: FrameView,
        pixels: Option<Seq<u8>>,
        width: u32,
        height: u32,
    ) -> Result<FrameView, FrameError> {
        if pixels is Some && frame_error(pixels.unwrap().len(), width, height) is None {
            Ok(frame.with_image(pixels.unwrap(), width, height))
        } else {
            resize_outcome(frame, width, height, self.config.maintain_aspect)
        }
    }

    /// A frame encoded for a method: the file to save first, the bytes to
    /// write, and the row hashes afterwards. An image drawn by a graphical
    /// protocol leaves no rows of blocks on the screen to compare with.
    pub open spec fn encoded(self, method: RenderMethod, frame: FrameView) -> Result<
        (Option<Seq<u8>>, Seq<u8>, Seq<u64>),
        RenderError,
    > {
        match method {
            RenderMethod::Kitty => match kitty_outcome(
                frame,
                self.kitty_path,
                self.config.x,
                self.config.y,
            ) {
                Ok((png, bytes)) => Ok((Some(png), bytes, Seq::empty())),
                Err(e) => Err(e),
            },
            RenderMethod::ITerm => match iterm_outcome(frame, self.config.x, self.config.y) {
                Ok(bytes) => Ok((None, bytes, Seq::empty())),
                Err(e) => Err(e),
            },
            RenderMethod::Sixel => Ok(
                (None, sixel_output(frame, self.config.x, self.config.y), Seq::empty()),
            ),
            _ => Ok(
                (
                    None,
                    frame_output(self.row_hashes, frame, self.area()),
                    frame_hashes(frame, self.area()),
                ),
            ),
        }
    }

    /// What is written when a protocol has failed: the screen is cleared,
    /// and the frame is drawn as blocks in full.
    pub open spec fn fallback_bytes(self, frame: FrameView) -> Seq<u8> {
        clear_screen() + frame_output(Seq::empty(), frame, self.area())
    }
}

/// The state of the renderer, the shared state of the protocols, and what
/// is asked for, after one step.
pub struct Outcome {
    pub renderer: RendererView,
    pub health: HealthView,
    pub step: StepView,
}

/// A graphical protocol, as opposed to blocks.
pub open spec fn is_graphical(method: RenderMethod) -> bool {
    method == RenderMethod::Kitty || method == RenderMethod::ITerm || method == RenderMethod::Sixel
}

/// The step after a protocol failed on a frame: the failure is noted for
/// good, and the frame goes out again as blocks on a cleared screen.
pub open spec fn fall_back(
    renderer: RendererView,
    health: HealthView,
    method: RenderMethod,
    frame: FrameView,
) -> Outcome {
    Outcome {
        renderer: RendererView {
            stage: Stage::WritingFallback,
            pending: None,
            row_hashes: frame_hashes(frame, renderer.area()),
            ..renderer
        },
        health: health.after_failure(method),
        step: StepView::Write { file: None, bytes: renderer.fallback_bytes(frame) },
    }
}

/// The step once the frame has its size, or could not get it: the method is
/// chosen and the frame is encoded for it. A frame that could not be resized
/// is an error; a frame that a graphical protocol cannot encode counts as a
/// failure of that protocol.
pub open spec fn dispatch(
    renderer: RendererView,
    health: HealthView,
    resized: Result<FrameView, FrameError>,
) -> Outcome {
    match resized {
        Err(e) => Outcome {
            renderer: RendererView { stage: Stage::Idle, pending: None, ..renderer },
            health,
            step: StepView::Done(Err(RenderError::InvariantViolation(e))),
        },
        Ok(frame) => {
            let method = health.select(renderer.effective_method);
            match renderer.encoded(method, frame) {
                Ok((file, bytes, hashes)) => Outcome {
                    renderer: RendererView {
                        stage: Stage::Writing { method },
                        pending: Some(frame),
                        row_hashes: hashes,
                        ..renderer
                    },
                    health,
                    step: StepView::Write { file, bytes },
                },
                Err(_) => fall_back(renderer, health, method, frame),
            }
        },
    }
}

/// The step at the beginning of a frame: the frame time is taken note of,
/// the target size is worked out, and the frame is resized, or the GPU is
/// asked to.
pub open spec fn begin(
    renderer: RendererView,
    health: HealthView,
    frame: FrameView,
    elapsed_us: u64,
    kitty_path: Seq<char>,
) -> Outcome {
    let timed = RendererView {
        quality: renderer.quality.after_frame(
            elapsed_us,
            renderer.config.adaptive_resolution,
            renderer.config.target_fps,
        ),
        kitty_path,
        ..renderer
    };
    let (w, h) = timed.target_dimensions(frame.width, frame.height);
    let path = timed.resize_path(frame, w as u32, h as u32);
    if path == ResizePath::Gpu {
        Outcome {
            renderer: RendererView {
                stage: Stage::Resizing { width: w as u32, height: h as u32 },
                pending: None,
                ..timed
            },
            health,
            step: StepView::ResizeOnGpu { width: w as u32, height: h as u32 },
        }
    } else {
        dispatch(timed, health, timed.resized_on_cpu(frame, path, w as u32, h as u32))
    }
}

/// The step after word on a write. A write that took kitty more than a
/// second counts as failed. After a failed write of blocks nothing is known
/// of the screen, so the next frame is drawn in full.
pub open spec fn written(
    renderer: RendererView,
    health: HealthView,
    succeeded: bool,
    elapsed_ms: u64,
) -> Outcome {
    let idle = RendererView { stage: Stage::Idle, pending: None, ..renderer };
    let blank = RendererView { row_hashes: Seq::empty(), ..idle };
    match renderer.stage {
        Stage::Writing { method } => {
            let in_time = !(method == RenderMethod::Kitty && elapsed_ms > FAILED_WRITE_MS);
            if succeeded && in_time {
                Outcome {
                    renderer: idle,
                    health: health.after_success(method),
                    step: StepView::Done(Ok(())),
                }
            } else if is_graphical(method) && renderer.pending is Some {
                fall_back(renderer, health, method, renderer.pending.unwrap())
            } else {
                Outcome {
                    renderer: blank,
                    health,
                    step: StepView::Done(Err(RenderError::ProtocolFailure(method))),
                }
            }
        },
        Stage::WritingFallback => if succeeded {
            Outcome {
                renderer: idle,
                health: health.after_success(RenderMethod::Blocks),
                step: StepView::Done(Ok(())),
            }
        } else {
            Outcome {
                renderer: blank,
                health,
                step: StepView::Done(Err(RenderError::ProtocolFailure(RenderMethod::Blocks))),
            }
        },
        _ => Outcome { renderer: idle, health, step: StepView::Done(Err(RenderError::OutOfTurn)) },
    }
}

/// The pixels that an attempt on the GPU brought back.
pub open spec fn attempt_pixels(attempt: GpuAttempt) -> Option<Seq<u8>> {
    match attempt {
        GpuAttempt::Resized(pixels) => Some(pixels@),
        _ => None,
    }
}

/// The step that an event leads to.
pub open spec fn step(
    renderer: RendererView,
    health: HealthView,
    frame: FrameView,
    event: RenderEvent,
) -> Outcome {
    match event {
        RenderEvent::Begin { elapsed_us, kitty_path } => if renderer.stage == Stage::Idle {
            begin(renderer, health, frame, elapsed_us, kitty_path@)
        } else {
            Outcome {
                renderer: RendererView { stage: Stage::Idle, pending: None, ..renderer },
                health,
                step: StepView::Done(Err(RenderError::OutOfTurn)),
            }
        },
        RenderEvent::GpuFinished(attempt) => match renderer.stage {
            Stage::Resizing { width, height } => dispatch(
                renderer,
                health,
                renderer.resized_after_gpu(frame, attempt_pixels(attempt), width, height),
            ),
            _ => Outcome {
                renderer: RendererView { stage: Stage::Idle, pending: None, ..renderer },
                health,
                step: StepView::Done(Err(RenderError::OutOfTurn)),
            },
        },
        RenderEvent::Written { succeeded, elapsed_ms } => written(
            renderer,
            health,
            succeeded,
            elapsed_ms,
        ),
    }
}

/// A renderer for one terminal.
pub struct TerminalRenderer {
    config: RenderConfig,
    effective_method: RenderMethod,
    term_width: u16,
    term_height: u16,
    quality: QualityController,
    blocks: BlockRenderer,
    stage: Stage,
    pending: Option<VideoFrame>,
    kitty_path: String,
}

impl View for TerminalRenderer {
    type V = RendererView;

    closed spec fn view(&self) -> RendererView {
        RendererView {
            config: self.config,
            effective_method: self.effective_method,
            term_width: self.term_width,
            term_height: self.term_height,
            quality: self.quality@,
            row_hashes: self.blocks.previous_hashes(),
            stage: self.stage,
            pending: match self.pending {
                Some(frame) => Some(frame@),
                None => None,
            },
            kitty_path: self.kitty_path@,
        }
    }
}

impl TerminalRenderer {
    /// The renderer is in order: its method is settled, its quality factor
    /// is in range, the frame in flight is a proper frame, and there is a
    /// frame in flight while word on its write is waited for.
    pub closed spec fn wf(&self) -> bool {
        &&& self.effective_method != RenderMethod::Auto
        &&& self.quality.wf()
        &&& self.blocks.wf()
        &&& self.pending matches Some(frame) ==> frame.well_formed()
        &&& self.stage matches Stage::Writing { .. } ==> self.pending is Some
    }

    /// What holds of a renderer that is in order.
    pub proof fn lemma_wf(&self)
        requires
            self.wf(),
        ensures
            self@.effective_method != RenderMethod::Auto,
            self@.quality.well_formed(),
            self@.pending matches Some(frame) ==> frame.well_formed(),
            self@.stage matches Stage::Writing { .. } ==> self@.pending is Some,
    {
    }

    /// A write of a graphical protocol that failed, or that took kitty too
    /// long, always leads to the fallback: the protocol is marked as failed,
    /// and the frame in flight goes out again as blocks.
    pub proof fn lemma_failed_write_falls_back(
        &self,
        health: HealthView,
        method: RenderMethod,
        succeeded: bool,
        elapsed_ms: u64,
    )
        requires
            self.wf(),
            self@.stage == (Stage::Writing { method }),
            is_graphical(method),
            !succeeded || (method == RenderMethod::Kitty && elapsed_ms > FAILED_WRITE_MS),
        ensures
            self@.pending is Some,
            written(self@, health, succeeded, elapsed_ms) == fall_back(
                self@,
                health,
                method,
                self@.pending.unwrap(),
            ),
            written(self@, health, succeeded, elapsed_ms).health.has_failed(method),
    {
    }

    /// Whether a configuration needs a look at the terminal before a
    /// renderer can be made.
    pub fn needs_detection(config: &RenderConfig) -> (out: bool)
        ensures
            out == (config.method == RenderMethod::Auto),
    {
        match config.method {
            RenderMethod::Auto => true,
            _ => false,
        }
    }

    /// The best method for a terminal. `kitty_test_passed` says whether the
    /// test image could be written, `sixel_answer` is what the terminal
    /// answered to the device attributes query; each is looked at only
    /// where the environment calls for it.
    pub fn detect_best_method(
        env: &TerminalEnv,
        kitty_test_passed: bool,
        sixel_answer: Option<&str>,
    ) -> (out: RenderMethod)
        ensures
            out == best_method(
                env.kitty_window_id,
                env.iterm_session_id,
                env.term@,
                kitty_test_passed,
                match sixel_answer {
                    Some(text) => Some(text@),
                    None => None,
                },
            ),
            out != RenderMethod::Auto,
    {
        match crate::detect::detect_from_environment(env) {
            Detection::Decided(method) => {
                assert(method == RenderMethod::ITerm || method == RenderMethod::Sixel);
                method
            },
            Detection::NeedsKittyTest => crate::detect::after_kitty_test(kitty_test_passed),
            Detection::NeedsSixelQuery => crate::detect::after_sixel_query(env, sixel_answer),
        }
    }

    /// A renderer for a terminal of the given size. Without the size there
    /// is no renderer. The method is the configured one; for the automatic
    /// method it is the detected one, and blocks if nothing was detected.
    pub fn new(config: RenderConfig, terminal_size: Option<(u16, u16)>, detected: RenderMethod) -> (out:
        Result<TerminalRenderer, RenderError>)
        ensures
            match out {
                Ok(renderer) => {
                    &&& terminal_size matches Some(size) && renderer@ == (RendererView {
                        config,
                        effective_method: if config.method != RenderMethod::Auto {
                            config.method
                        } else if detected != RenderMethod::Auto {
                            detected
                        } else {
                            RenderMethod::Blocks
                        },
                        term_width: size.0,
                        term_height: size.1,
                        quality: QualityView {
                            frame_times: Seq::empty(),
                            quality_factor: 1000,
                            frames_since_adjust: 0,
                        },
                        row_hashes: Seq::empty(),
                        stage: Stage::Idle,
                        pending: None,
                        kitty_path: Seq::empty(),
                    })
                    &&& renderer.wf()
                },
                Err(e) => terminal_size is None && e == RenderError::ResourceUnavailable,
            },
    {
        let (term_width, term_height) = match terminal_size {
            Some(size) => size,
            None => {
                return Err(RenderError::ResourceUnavailable);
            },
        };
        let effective_method = match config.method {
            RenderMethod::Auto => match detected {
                RenderMethod::Auto => RenderMethod::Blocks,
                method => method,
            },
            method => method,
        };
        Ok(
            TerminalRenderer {
                config,
                effective_method,
                term_width,
                term_height,
                quality: QualityController::new(),
                blocks: BlockRenderer::new(),
                stage: Stage::Idle,
                pending: None,
                kitty_path: String::new(),
            },
        )
    }

    /// The method that the renderer settled on.
    pub fn effective_method(&self) -> (out: RenderMethod)
        ensures
            out == self@.effective_method,
    {
        self.effective_method
    }

    /// The configuration.
    pub fn config(&self) -> (out: RenderConfig)
        ensures
            out == self@.config,
    {
        self.config
    }

    /// The quality factor, in thousandths.
    pub fn quality_factor(&self) -> (out: u32)
        requires
            self.wf(),
        ensures
            out == self@.quality.quality_factor,
            200 <= out <= 1000,
    {
        self.quality.quality_factor()
    }

    /// What the renderer waits for.
    pub fn stage(&self) -> (out: Stage)
        ensures
            out == self@.stage,
    {
        self.stage
    }

    /// Whether the GPU pipeline is worth setting up ahead of the first
    /// frame.
    pub fn wants_gpu(&self) -> (out: bool)
        ensures
            out == (self@.config.enable_gpu && !self@.uses_blocks()),
    {
        let blocks = match self.effective_method {
            RenderMethod::Blocks => true,
            _ => false,
        };
        self.config.enable_gpu && !blocks
    }

    fn area(&self) -> (out: BlockArea)
        ensures
            out == self@.area(),
    {
        BlockArea {
            x: self.config.x,
            y: self.config.y,
            term_width: self.term_width,
            term_height: self.term_height,
        }
    }

    fn uses_blocks(&self) -> (out: bool)
        ensures
            out == self@.uses_blocks(),
    {
        match self.effective_method {
            RenderMethod::Blocks => true,
            _ => false,
        }
    }

    /// The sequence that sets a foreground and a background colour.
    pub fn get_color_code(&mut self, fg: [u16; 3], bg: [u16; 3]) -> (out: Vec<u8>)
        requires
            old(self).wf(),
        ensures
            final(self).wf(),
            final(self)@ == old(self)@,
            out@ == crate::ansi::color_code(fg@, bg@),
    {
        self.blocks.get_color_code(fg, bg)
    }

    /// Takes note of a frame that came `elapsed_us` microseconds after the
    /// one before, and adjusts the quality factor where it is due.
    pub fn update_performance_metrics(&mut self, elapsed_us: u64)
        requires
            old(self).wf(),
        ensures
            final(self).wf(),
            final(self)@ == (RendererView {
                quality: old(self)@.quality.after_frame(
                    elapsed_us,
                    old(self)@.config.adaptive_resolution,
                    old(self)@.config.target_fps,
                ),
                ..old(self)@
            }),
    {
        self.quality.record_frame(
            elapsed_us,
            self.config.adaptive_resolution,
            self.config.target_fps,
        );
    }

    /// The size that a frame is fitted into.
    pub fn calculate_dimensions(&self, frame: &VideoFrame) -> (out: (u32, u32))
        requires
            frame.well_formed(),
        ensures
            (out.0 as int, out.1 as int) == self@.base_dimensions(frame.width, frame.height),
    {
        let width: u32 = match self.config.width {
            Some(w) => w,
            None => if self.term_width > self.config.x {
                (self.term_width - self.config.x) as u32
            } else {
                0
            },
        };
        let height: u32 = match self.config.height {
            Some(h) => h,
            None => if self.term_height > self.config.y {
                (self.term_height - self.config.y) as u32
            } else {
                0
            },
        };
        frame.resize_target(width, height, self.config.maintain_aspect)
    }

    /// The size that a frame is rendered at.
    pub fn calculate_dimensions_with_quality(&self, frame: &VideoFrame) -> (out: (u32, u32))
        requires
            self.wf(),
            frame.well_formed(),
        ensures
            (out.0 as int, out.1 as int) == self@.target_dimensions(frame.width, frame.height),
            out.0 >= self@.min_dimension(),
            out.1 >= self@.min_dimension(),
    {
        let (base_width, base_height) = self.calculate_dimensions(frame);
        let blocks = self.uses_blocks();
        let quality = self.quality.effective_quality(self.config.quality, blocks);
        let floor = if blocks {
            MIN_BLOCK_DIMENSION
        } else {
            MIN_GRAPHICAL_DIMENSION
        };
        (scale(base_width, quality, floor), scale(base_height, quality, floor))
    }

    /// How a frame gets a target size.
    pub fn choose_resize_path(&self, frame: &VideoFrame, width: u32, height: u32) -> (out: ResizePath)
        ensures
            out == self@.resize_path(frame@, width, height),
    {
        if !frame.needs_resize(width, height) {
            ResizePath::Keep
        } else if width < FAST_RESIZE_BELOW || height < FAST_RESIZE_BELOW {
            ResizePath::Thumbnail(if width > height { width } else { height })
        } else if !self.uses_blocks() && self.config.enable_gpu {
            ResizePath::Gpu
        } else {
            ResizePath::Cpu
        }
    }

    /// Resizes a frame without the GPU.
    pub fn resize_on_cpu(&self, frame: &VideoFrame, path: ResizePath, width: u32, height: u32) -> (out:
        Result<VideoFrame, FrameError>)
        requires
            frame.well_formed(),
        ensures
            outcome_view(out) == self@.resized_on_cpu(frame@, path, width, height),
            out matches Ok(resized) ==> resized.well_formed(),
    {
        match path {
            ResizePath::Keep => Ok(frame.clone()),
            ResizePath::Thumbnail(max_dimension) => frame.fast_thumbnail(max_dimension),
            _ => frame.resize(width, height, self.config.maintain_aspect),
        }
    }

    /// The frame after an attempt on the GPU. Where the attempt brought
    /// nothing of use, the frame is resized on the CPU.
    pub fn finish_gpu_resize(&self, frame: &VideoFrame, attempt: GpuAttempt, width: u32, height: u32) -> (out:
        Result<VideoFrame, FrameError>)
        requires
            frame.well_formed(),
        ensures
            outcome_view(out) == self@.resized_after_gpu(
                frame@,
                attempt_pixels(attempt),
                width,
                height,
            ),
            out matches Ok(resized) ==> resized.well_formed(),
    {
        match attempt {
            GpuAttempt::Resized(pixels) => {
                match frame.resize_from_data(width, height, pixels) {
                    Ok(resized) => Ok(resized),
                    Err(_) => frame.resize(width, height, self.config.maintain_aspect),
                }
            },
            _ => frame.resize(width, height, self.config.maintain_aspect),
        }
    }

    /// Draws a frame as half blocks. Rows that did not change since the
    /// frame drawn last are left out.
    pub fn render_blocks(&mut self, frame: &VideoFrame) -> (out: Vec<u8>)
        requires
            old(self).wf(),
            frame.well_formed(),
        ensures
            final(self).wf(),
            out@ == frame_output(old(self)@.row_hashes, frame@, old(self)@.area()),
            final(self)@ == (RendererView {
                row_hashes: frame_hashes(frame@, old(self)@.area()),
                ..old(self)@
            }),
    {
        let area = self.area();
        self.blocks.render(frame, area).bytes
    }

    /// Encodes a frame as a sixel image.
    pub fn render_sixel(&self, frame: &VideoFrame) -> (out: Vec<u8>)
        requires
            frame.well_formed(),
        ensures
            out@ == sixel_output(frame@, self@.config.x, self@.config.y),
    {
        encode_sixel(frame, self.config.x, self.config.y)
    }

    /// Encodes a frame for the inline image protocol.
    pub fn render_iterm(&self, frame: &VideoFrame) -> (out: Result<Vec<u8>, RenderError>)
        requires
            frame.well_formed(),
        ensures
            match out {
                Ok(bytes) => iterm_outcome(frame@, self@.config.x, self@.config.y) == Ok::<
                    Seq<u8>,
                    RenderError,
                >(bytes@),
                Err(e) => iterm_outcome(frame@, self@.config.x, self@.config.y) == Err::<
                    Seq<u8>,
                    RenderError,
                >(e),
            },
    {
        encode_iterm(frame, self.config.x, self.config.y)
    }

    /// Encodes a frame for the kitty protocol: the PNG file to save at
    /// `path`, and the bytes to write.
    pub fn render_kitty(&self, frame: &VideoFrame, path: &str) -> (out: Result<
        (Vec<u8>, Vec<u8>),
        RenderError,
    >)
        requires
            frame.well_formed(),
        ensures
            match out {
                Ok(pair) => kitty_outcome(frame@, path@, self@.config.x, self@.config.y) == Ok::<
                    (Seq<u8>, Seq<u8>),
                    RenderError,
                >((pair.0@, pair.1@)),
                Err(e) => kitty_outcome(frame@, path@, self@.config.x, self@.config.y) == Err::<
                    (Seq<u8>, Seq<u8>),
                    RenderError,
                >(e),
            },
    {
        match encode_kitty(frame, path, self.config.x, self.config.y) {
            Ok(kitty) => Ok((kitty.png, kitty.bytes)),
            Err(e) => Err(e),
        }
    }

    fn encode(&mut self, method: RenderMethod, frame: &VideoFrame) -> (out: Result<
        (Option<Vec<u8>>, Vec<u8>),
        RenderError,
    >)
        requires
            old(self).wf(),
            frame.well_formed(),
        ensures
            final(self).wf(),
            match out {
                Ok(pair) => old(self)@.encoded(method, frame@) == Ok::<
                    (Option<Seq<u8>>, Seq<u8>, Seq<u64>),
                    RenderError,
                >(
                    (
                        match pair.0 {
                            Some(file) => Some(file@),
                            None => None,
                        },
                        pair.1@,
                        final(self)@.row_hashes,
                    ),
                ),
                Err(_) => old(self)@.encoded(method, frame@) is Err && final(self)@.row_hashes
                    == old(self)@.row_hashes,
            },
            final(self)@ == (RendererView { row_hashes: final(self)@.row_hashes, ..old(self)@ }),
    {
        match method {
            RenderMethod::Kitty => {
                match encode_kitty(frame, self.kitty_path.as_str(), self.config.x, self.config.y) {
                    Ok(kitty) => {
                        self.blocks.invalidate();
                        Ok((Some(kitty.png), kitty.bytes))
                    },
                    Err(e) => Err(e),
                }
            },
            RenderMethod::ITerm => {
                match encode_iterm(frame, self.config.x, self.config.y) {
                    Ok(bytes) => {
                        self.blocks.invalidate();
                        Ok((None, bytes))
                    },
                    Err(e) => Err(e),
                }
            },
            RenderMethod::Sixel => {
                self.blocks.invalidate();
                Ok((None, encode_sixel(frame, self.config.x, self.config.y)))
            },
            _ => {
                let bytes = self.render_blocks(frame);
                Ok((None, bytes))
            },
        }
    }

    fn fall_back(&mut self, health: &mut ProtocolHealth, method: RenderMethod, frame: &VideoFrame) -> (out:
        RenderStep)
        requires
            old(self).wf(),
            old(health).wf(),
            frame.well_formed(),
        ensures
            final(self).wf(),
            final(health).wf(),
            (Outcome { renderer: final(self)@, health: final(health)@, step: out@ }) == fall_back(
                old(self)@,
                old(health)@,
                method,
                frame@,
            ),
    {
        health.record_failure(method);
        self.blocks.invalidate();
        let mut bytes: Vec<u8> = Vec::new();
        push_clear_screen(&mut bytes);
        let drawn = self.render_blocks(frame);
        push_bytes(&mut bytes, drawn.as_slice());
        self.stage = Stage::WritingFallback;
        self.pending = None;
        RenderStep::Write { file: None, bytes }
    }

    fn dispatch(&mut self, health: &mut ProtocolHealth, resized: Result<VideoFrame, FrameError>) -> (out:
        RenderStep)
        requires
            old(self).wf(),
            old(health).wf(),
            resized matches Ok(frame) ==> frame.well_formed(),
        ensures
            final(self).wf(),
            final(health).wf(),
            (Outcome { renderer: final(self)@, health: final(health)@, step: out@ }) == dispatch(
                old(self)@,
                old(health)@,
                outcome_view(resized),
            ),
    {
        match resized {
            Err(e) => {
                self.stage = Stage::Idle;
                self.pending = None;
                RenderStep::Done(Err(RenderError::InvariantViolation(e)))
            },
            Ok(frame) => {
                let method = health.select_method(self.effective_method);
                match self.encode(method, &frame) {
                    Ok(pair) => {
                        self.stage = Stage::Writing { method };
                        self.pending = Some(frame);
                        RenderStep::Write { file: pair.0, bytes: pair.1 }
                    },
                    Err(_) => self.fall_back(health, method, &frame),
                }
            },
        }
    }

    /// Takes the rendering of a frame one step further. The caller begins
    /// with `Begin`, does what is asked for, reports back with the event
    /// that belongs to it, and goes on until the step is `Done`. `frame` is
    /// the frame being rendered, the same at every step.
    ///
    /// A protocol that cannot encode the frame, or whose write fails, is
    /// marked as failed for good in `health`; the same frame then goes out as
    /// blocks on a cleared screen, and the result of the frame is the result
    /// of that write.
    pub fn render(&mut self, health: &mut ProtocolHealth, frame: &VideoFrame, event: RenderEvent) -> (out:
        RenderStep)
        requires
            old(self).wf(),
            old(health).wf(),
            frame.well_formed(),
        ensures
            final(self).wf(),
            final(health).wf(),
            (Outcome { renderer: final(self)@, health: final(health)@, step: out@ }) == step(
                old(self)@,
                old(health)@,
                frame@,
                event,
            ),
    {
        match event {
            RenderEvent::Begin { elapsed_us, kitty_path } => {
                match self.stage {
                    Stage::Idle => {},
                    _ => {
                        self.stage = Stage::Idle;
                        self.pending = None;
                        return RenderStep::Done(Err(RenderError::OutOfTurn));
                    },
                }
                self.update_performance_metrics(elapsed_us);
                self.kitty_path = kitty_path;
                let (width, height) = self.calculate_dimensions_with_quality(frame);
                let path = self.choose_resize_path(frame, width, height);
                match path {
                    ResizePath::Gpu => {
                        self.stage = Stage::Resizing { width, height };
                        self.pending = None;
                        RenderStep::ResizeOnGpu { width, height }
                    },
                    _ => {
                        let resized = self.resize_on_cpu(frame, path, width, height);
                        self.dispatch(health, resized)
                    },
                }
            },
            RenderEvent::GpuFinished(attempt) => {
                match self.stage {
                    Stage::Resizing { width, height } => {
                        let resized = self.finish_gpu_resize(frame, attempt, width, height);
                        self.dispatch(health, resized)
                    },
                    _ => {
                        self.stage = Stage::Idle;
                        self.pending = None;
                        RenderStep::Done(Err(RenderError::OutOfTurn))
                    },
                }
            },
            RenderEvent::Written { succeeded, elapsed_ms } => {
                let stage = self.stage;
                match stage {
                    Stage::Writing { method } => {
                        let too_slow = match method {
                            RenderMethod::Kitty => elapsed_ms > FAILED_WRITE_MS,
                            _ => false,
                        };
                        let graphical = match method {
                            RenderMethod::Kitty | RenderMethod::ITerm | RenderMethod::Sixel => true,
                            _ => false,
                        };
                        if succeeded && !too_slow {
                            health.record_success(method);
                            self.stage = Stage::Idle;
                            self.pending = None;
                            RenderStep::Done(Ok(()))
                        } else {
                            let pending = self.pending.take();
                            self.stage = Stage::Idle;
                            match pending {
                                Some(resized) => {
                                    if graphical {
                                        self.fall_back(health, method, &resized)
                                    } else {
                                        self.stage = Stage::Idle;
                                        self.blocks.invalidate();
                                        RenderStep::Done(Err(RenderError::ProtocolFailure(method)))
                                    }
                                },
                                None => {
                                    self.stage = Stage::Idle;
                                    self.blocks.invalidate();
                                    RenderStep::Done(Err(RenderError::ProtocolFailure(method)))
                                },
                            }
                        }
                    },
                    Stage::WritingFallback => {
                        self.stage = Stage::Idle;
                        self.pending = None;
                        if succeeded {
                            health.record_success(RenderMethod::Blocks);
                            RenderStep::Done(Ok(()))
                        } else {
                            self.blocks.invalidate();
                            RenderStep::Done(Err(RenderError::ProtocolFailure(RenderMethod::Blocks)))
                        }
                    },
                    _ => {
                        self.stage = Stage::Idle;
                        self.pending = None;
                        RenderStep::Done(Err(RenderError::OutOfTurn))
                    },
                }
            },
        }
    }
}

fn scale(base: u32, quality: u32, floor: u32) -> (out: u32)
    requires
        quality <= 1000,
    ensures
        out == at_least(base * quality / 1000, floor as int),
        out >= floor,
{
    assert(base * quality <= 0xffff_ffff * 1000) by (nonlinear_arith)
        requires
            base <= 0xffff_ffff,
            quality <= 1000,
    ;
    assert(base * quality / 1000 <= base) by (nonlinear_arith)
        requires
            0 <= base,
            0 <= quality <= 1000,
    ;
    let scaled: u64 = (base as u64) * (quality as u64) / 1000;
    if scaled < floor as u64 {
        floor
    } else {
        scaled as u32
    }
}

} // verus!
