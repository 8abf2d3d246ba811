//! Video frames as live images in a terminal.
//!
//! The library holds everything about playing video in a terminal that can
//! be decided without touching the terminal: how frames are buffered between
//! decoder and display, how large a frame is drawn and at what quality, how
//! it is encoded for each graphics protocol, and what happens when a
//! protocol fails. Reading, decoding, resizing on a GPU and writing are left
//! to the caller, who is told what to do and reports how it went.
//!
//! Times are whole microseconds, qualities are thousandths, and frame rates
//! are thousandths of a frame per second.

pub mod ansi;
pub mod blend;
pub mod blocks;
pub mod browser;
pub mod buffer;
pub mod commands;
pub mod config;
pub mod detect;
pub mod error;
pub mod frame;
pub mod gpu;
pub mod health;
pub mod imaging;
pub mod iterm;
pub mod kitty;
pub mod media;
pub mod playback;
pub mod prefetch;
pub mod quality;
pub mod renderer;
pub mod sixel;
pub mod text;
pub mod ui;

pub use crate::buffer::FrameBuffer;
pub use crate::config::{RenderConfig, RenderMethod};
pub use crate::error::RenderError;
pub use crate::frame::{FrameError, VideoFrame};
pub use crate::gpu::GpuProcessor;
pub use crate::health::ProtocolHealth;
pub use crate::media::{
    detect_media_type, extract_youtube_id, is_youtube_url, MediaSourceType, YouTubeConfig,
};
pub use crate::renderer::TerminalRenderer;
