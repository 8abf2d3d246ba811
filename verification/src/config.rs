//! What a renderer is configured with.

use vstd::prelude::*;

verus! {

/// The ways a frame can be shown in a terminal.
#[derive(Debug, Clone, Copy, PartialEq, Eq, Structural)]
pub enum RenderMethod {
    /// The kitty graphics protocol.
    Kitty,
    /// The inline image protocol of iTerm2.
    ITerm,
    /// Sixel graphics.
    Sixel,
    /// Unicode half blocks with 24-bit colours.
    Blocks,
    /// Whatever the terminal is found to support.
    Auto,
}

/// The configuration of a renderer. Qualities are thousandths, so that 1000
/// is full quality; frame rates are thousandths of a frame per second.
#[derive(Debug, Clone, Copy, PartialEq, Eq, Structural)]
pub struct RenderConfig {
    /// The method to render with.
    pub method: RenderMethod,
    /// Width of the target in cells; the room on the terminal if `None`.
    pub width: Option<u32>,
    /// Height of the target in cells; the room on the terminal if `None`.
    pub height: Option<u32>,
    /// Keep the proportions of the frame.
    pub maintain_aspect: bool,
    /// Column offset in cells.
    pub x: u16,
    /// Row offset in cells.
    pub y: u16,
    /// Quality in thousandths, above 0 and up to 1000.
    pub quality: u32,
    /// Lower the resolution when the frame rate drops.
    pub adaptive_resolution: bool,
    /// The frame rate to hold, in thousandths of a frame per second.
    pub target_fps: u32,
    /// Compose rows on several threads where possible.
    pub enable_threading: bool,
    /// The largest frame side to work on.
    pub max_frame_dimension: Option<u32>,
    /// Resize on the GPU where possible.
    pub enable_gpu: bool,
}

/// Whether the process runs under continuous integration, going by the value
/// of `CI` and by whether `GITHUB_ACTIONS` and `GITLAB_CI` are set.
pub fn is_automated_environment(ci_is_true: bool, github_actions: bool, gitlab_ci: bool) -> (out:
    bool)
    ensures
        out == (ci_is_true || github_actions || gitlab_ci),
{
    ci_is_true || github_actions || gitlab_ci
}

impl RenderConfig {
    /// The default configuration: automatic method, the whole terminal,
    /// proportions kept, quality 0.8, adaptive, 30 frames per second,
    /// threads on, frames up to 1024 pixels a side. The GPU is used unless
    /// the process runs in an automated environment.
    pub open spec fn default_value(automated: bool) -> RenderConfig {
        RenderConfig {
            method: RenderMethod::Auto,
            width: None,
            height: None,
            maintain_aspect: true,
            x: 0,
            y: 0,
            quality: 800,
            adaptive_resolution: true,
            target_fps: 30_000,
            enable_threading: true,
            max_frame_dimension: Some(1024u32),
            enable_gpu: !automated,
        }
    }

    /// The default configuration, in or outside of an automated environment.
    pub fn default_for(automated: bool) -> (out: RenderConfig)
        ensures
            out == RenderConfig::default_value(automated),
    {
        RenderConfig {
            method: RenderMethod::Auto,
            width: None,
            height: None,
            maintain_aspect: true,
            x: 0,
            y: 0,
            quality: 800,
            adaptive_resolution: true,
            target_fps: 30_000,
            enable_threading: true,
            max_frame_dimension: Some(1024),
            enable_gpu: !automated,
        }
    }
}

impl Default for RenderConfig {
    /// The default configuration outside of automated environments.
    fn default() -> (out: RenderConfig)
        ensures
            out == RenderConfig::default_value(false),
    {
        RenderConfig::default_for(false)
    }
}

} // verus!
