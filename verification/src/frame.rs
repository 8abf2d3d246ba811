//! A decoded video frame: raw RGBA pixels with their size and timing.

use vstd::prelude::*;
use crate::imaging::{
    box_side, resample, resample_fits, resampled_pixels, thumbnail, thumbnail_image, ResizeFilter,
    MAX_RESAMPLE_SIDE, THUMBNAIL_SOURCE_LIMIT,
};

verus! {

/// Microseconds in one second. Timestamps and durations are whole
/// microseconds.
pub const MICROS_PER_SECOND: i64 = 1_000_000;

/// Why a frame could not be made.
#[derive(Clone, Copy, Debug, PartialEq, Eq, Structural)]
pub enum FrameError {
    /// The width or the height is zero.
    ZeroDimension,
    /// The pixel buffer does not hold four bytes for each pixel.
    BufferSizeMismatch,
    /// The image is larger than a buffer can hold, or has a side longer
    /// than the resampler can work on.
    TooLarge,
}

/// A decoded frame. The pixels are RGBA, row by row, four bytes each.
#[derive(Debug)]
pub struct VideoFrame {
    /// RGBA bytes, `4 * width * height` of them.
    pub pixels: Vec<u8>,
    /// Presentation time in microseconds.
    pub timestamp: i64,
    /// Time on screen in microseconds.
    pub duration: i64,
    /// Width in pixels.
    pub width: u32,
    /// Height in pixels.
    pub height: u32,
}

/// What a frame is: its pixels, its size and its timing.
pub struct FrameView {
    pub pixels: Seq<u8>,
    pub width: u32,
    pub height: u32,
    pub timestamp: i64,
    pub duration: i64,
}

impl FrameView {
    /// The frame has a pixel in each direction and four bytes for each.
    pub open spec fn well_formed(self) -> bool {
        &&& self.width > 0
        &&& self.height > 0
        &&& self.pixels.len() == 4 * self.width * self.height
    }

    /// The same frame with other pixels and another size.
    pub open spec fn with_image(self, pixels: Seq<u8>, width: u32, height: u32) -> FrameView {
        FrameView { pixels, width, height, timestamp: self.timestamp, duration: self.duration }
    }

    /// Byte `channel` of the pixel at column `x` of row `y`.
    pub open spec fn channel(self, x: int, y: int, channel: int) -> u8 {
        self.pixels[4 * (y * self.width + x) + channel]
    }

    /// The four bytes of the pixel at column `x` of row `y`.
    pub open spec fn pixel(self, x: int, y: int) -> Seq<u8> {
        self.pixels.subrange(4 * (y * self.width + x), 4 * (y * self.width + x) + 4)
    }
}

impl View for VideoFrame {
    type V = FrameView;

    open spec fn view(&self) -> FrameView {
        FrameView {
            pixels: self.pixels@,
            width: self.width,
            height: self.height,
            timestamp: self.timestamp,
            duration: self.duration,
        }
    }
}

/// The size that keeps the proportions of a `width` x `height` image and fits
/// a `target_width` x `target_height` box, rounded down. The box is filled
/// along the side that limits the image.
pub open spec fn aspect_fit(width: u32, height: u32, target_width: u32, target_height: u32) -> (
    int,
    int,
) {
    if target_width * height > width * target_height {
        ((target_height * width) / (height as int), target_height as int)
    } else {
        (target_width as int, (target_width * height) / (width as int))
    }
}

/// The size that a resize to a target gives.
pub open spec fn resized_dimensions(
    width: u32,
    height: u32,
    target_width: u32,
    target_height: u32,
    maintain_aspect_ratio: bool,
) -> (int, int) {
    if maintain_aspect_ratio {
        aspect_fit(width, height, target_width, target_height)
    } else {
        (target_width as int, target_height as int)
    }
}

/// The filter for a resize from one size to another: the smooth one where
/// the larger of the two scale factors is below 0.7 or above 1.5, the
/// nearest pixel otherwise.
pub open spec fn filter_for(width: u32, height: u32, new_width: u32, new_height: u32) -> ResizeFilter {
    let shrinks = 10 * new_width < 7 * width && 10 * new_height < 7 * height;
    let grows = 2 * new_width > 3 * width || 2 * new_height > 3 * height;
    if shrinks || grows {
        ResizeFilter::Triangle
    } else {
        ResizeFilter::Nearest
    }
}

/// What `resize` returns for a frame and a target.
pub open spec fn resize_outcome(
    frame: FrameView,
    target_width: u32,
    target_height: u32,
    maintain_aspect_ratio: bool,
) -> Result<FrameView, FrameError> {
    let (w, h) = resized_dimensions(
        frame.width,
        frame.height,
        target_width,
        target_height,
        maintain_aspect_ratio,
    );
    if frame.width == target_width && frame.height == target_height {
        Ok(frame)
    } else if w == 0 || h == 0 {
        Err(FrameError::ZeroDimension)
    } else if !resample_fits(frame.width, frame.height, w as u32, h as u32) {
        Err(FrameError::TooLarge)
    } else {
        Ok(
            frame.with_image(
                resampled_pixels(
                    frame.pixels,
                    frame.width,
                    frame.height,
                    w as u32,
                    h as u32,
                    filter_for(frame.width, frame.height, w as u32, h as u32)
                        == ResizeFilter::Triangle,
                ),
                w as u32,
                h as u32,
            ),
        )
    }
}

/// The box that a thumbnail of at most `max_dimension` pixels a side is
/// fitted into: the longer side is `max_dimension`, the other in proportion,
/// rounded down.
pub open spec fn thumbnail_box(width: u32, height: u32, max_dimension: u32) -> (int, int) {
    if width > height {
        (max_dimension as int, (max_dimension * height) / (width as int))
    } else {
        ((max_dimension * width) / (height as int), max_dimension as int)
    }
}

/// What `fast_thumbnail` returns for a frame and a limit. A frame that is
/// within the limit is kept. A frame with more pixels, or a longer side,
/// than the thumbnail can be made from is resized, with its proportions,
/// into a square of the limit. Any other frame becomes the thumbnail that
/// fits its box.
pub open spec fn thumbnail_outcome(frame: FrameView, max_dimension: u32) -> Result<
    FrameView,
    FrameError,
> {
    let (box_w, box_h) = thumbnail_box(frame.width, frame.height, max_dimension);
    let small = thumbnail_image(
        frame.pixels,
        frame.width,
        frame.height,
        box_w as u32,
        box_h as u32,
    );
    if frame.width <= max_dimension && frame.height <= max_dimension {
        Ok(frame)
    } else if frame.width * frame.height > THUMBNAIL_SOURCE_LIMIT || frame.width
        > MAX_RESAMPLE_SIDE || frame.height > MAX_RESAMPLE_SIDE {
        resize_outcome(frame, max_dimension, max_dimension, true)
    } else if 4 * box_side(box_w as u32) * box_side(box_h as u32) > isize::MAX {
        Err(FrameError::TooLarge)
    } else {
        Ok(frame.with_image(small.0, small.1, small.2))
    }
}

/// The view of a result of frames.
pub open spec fn outcome_view(out: Result<VideoFrame, FrameError>) -> Result<FrameView, FrameError> {
    match out {
        Ok(frame) => Ok(frame@),
        Err(e) => Err(e),
    }
}

/// The error that stands in the way of a frame of the given size and
/// buffer length, if any.
pub open spec fn frame_error(len: nat, width: u32, height: u32) -> Option<FrameError> {
    if width == 0 || height == 0 {
        Some(FrameError::ZeroDimension)
    } else if len != 4 * width * height {
        Some(FrameError::BufferSizeMismatch)
    } else {
        None
    }
}

fn packed_size(width: u32, height: u32) -> (out: u128)
    ensures
        out == 4 * width * height,
        out <= 4 * 0xffff_ffff * 0xffff_ffff,
{
    assert(4 * width * height == 4 * (width * height)) by (nonlinear_arith);
    assert(width * height <= 0xffff_ffff * 0xffff_ffff) by (nonlinear_arith)
        requires
            width <= 0xffff_ffff,
            height <= 0xffff_ffff,
    ;
    4 * ((width as u128) * (height as u128))
}

fn same_length(len: usize, width: u32, height: u32) -> (out: bool)
    ensures
        out == (len == 4 * width * height),
{
    len as u128 == packed_size(width, height)
}

impl Clone for VideoFrame {
    /// A copy of the frame.
    fn clone(&self) -> (out: Self)
        ensures
            out@ == self@,
    {
        let pixels = self.pixels.clone();
        assert(pixels@ =~= self.pixels@);
        VideoFrame {
            pixels,
            timestamp: self.timestamp,
            duration: self.duration,
            width: self.width,
            height: self.height,
        }
    }
}

impl VideoFrame {
    /// The frame holds four bytes for each of its pixels and is not empty.
    pub open spec fn well_formed(&self) -> bool {
        self@.well_formed()
    }

    /// Makes a frame of `width` x `height` from RGBA bytes. The buffer must
    /// hold exactly four bytes for each pixel, and there must be a pixel.
    pub fn new(pixels: Vec<u8>, width: u32, height: u32, timestamp: i64, duration: i64) -> (out:
        Result<VideoFrame, FrameError>)
        ensures
            match out {
                Ok(frame) => {
                    &&& frame_error(pixels@.len(), width, height) is None
                    &&& frame.well_formed()
                    &&& frame@ == (FrameView { pixels: pixels@, width, height, timestamp, duration })
                },
                Err(e) => frame_error(pixels@.len(), width, height) == Some(e),
            },
    {
        if width == 0 || height == 0 {
            return Err(FrameError::ZeroDimension);
        }
        if !same_length(pixels.len(), width, height) {
            return Err(FrameError::BufferSizeMismatch);
        }
        Ok(VideoFrame { pixels, timestamp, duration, width, height })
    }

    /// Whether the frame holds four bytes for each of its pixels and is not
    /// empty.
    pub fn is_well_formed(&self) -> (out: bool)
        ensures
            out == self.well_formed(),
    {
        self.width > 0 && self.height > 0 && same_length(
            self.pixels.len(),
            self.width,
            self.height,
        )
    }

    /// The RGBA bytes of the frame.
    pub fn as_rgba_bytes(&self) -> (out: &[u8])
        ensures
            out@ == self@.pixels,
    {
        self.pixels.as_slice()
    }

    /// The four bytes of the pixel in column `col` of line `y`.
    pub fn pixel_at(&self, col: u32, y: u32) -> (out: [u8; 4])
        requires
            self.well_formed(),
            col < self.width,
            y < self.height,
        ensures
            out@ == self@.pixel(col as int, y as int),
            out[3] == self@.channel(col as int, y as int, 3),
    {
        assert(y * self.width + col < self.width * self.height) by (nonlinear_arith)
            requires
                col < self.width,
                y < self.height,
        ;
        assert(4 * (self.width * self.height) == 4 * self.width * self.height)
            by (nonlinear_arith);
        assert(0 <= y * self.width) by (nonlinear_arith);
        let len = self.pixels.len();
        assert(4 * (y * self.width + col) + 4 <= len);
        let at: usize = 4 * (y as usize * self.width as usize + col as usize);
        let out = [self.pixels[at], self.pixels[at + 1], self.pixels[at + 2], self.pixels[at + 3]];
        assert(out@ =~= self@.pixel(col as int, y as int));
        out
    }

    /// The same frame shown at another time.
    pub fn with_timestamp(self, timestamp: i64) -> (out: VideoFrame)
        ensures
            out@ == (FrameView { timestamp, ..self@ }),
    {
        VideoFrame {
            pixels: self.pixels,
            timestamp,
            duration: self.duration,
            width: self.width,
            height: self.height,
        }
    }

    /// Whether the frame differs in size from the target.
    pub fn needs_resize(&self, target_width: u32, target_height: u32) -> (out: bool)
        ensures
            out == (self.width != target_width || self.height != target_height),
    {
        self.width != target_width || self.height != target_height
    }

    /// The longer side of the frame.
    pub fn max_dimension(&self) -> (out: u32)
        ensures
            out >= self.width,
            out >= self.height,
            out == self.width || out == self.height,
    {
        if self.width >= self.height {
            self.width
        } else {
            self.height
        }
    }

    /// The size that `resize` aims at.
    pub fn resize_target(
        &self,
        target_width: u32,
        target_height: u32,
        maintain_aspect_ratio: bool,
    ) -> (out: (u32, u32))
        requires
            self.well_formed(),
        ensures
            (out.0 as int, out.1 as int) == resized_dimensions(
                self.width,
                self.height,
                target_width,
                target_height,
                maintain_aspect_ratio,
            ),
    {
        if !maintain_aspect_ratio {
            return (target_width, target_height);
        }
        let w = self.width as u64;
        let h = self.height as u64;
        let tw = target_width as u64;
        let th = target_height as u64;
        assert(tw * h <= 0xffff_ffff * 0xffff_ffff && w * th <= 0xffff_ffff * 0xffff_ffff)
            by (nonlinear_arith)
            requires
                tw <= 0xffff_ffff,
                th <= 0xffff_ffff,
                w <= 0xffff_ffff,
                h <= 0xffff_ffff,
        ;
        if tw * h > w * th {
            assert((th * w) / (h as int) <= tw) by (nonlinear_arith)
                requires
                    tw * h > w * th,
                    h > 0,
            ;
            (((th * w) / h) as u32, target_height)
        } else {
            assert((tw * h) / (w as int) <= th) by (nonlinear_arith)
                requires
                    tw * h <= w * th,
                    w > 0,
            ;
            (target_width, ((tw * h) / w) as u32)
        }
    }

    /// The frame resized to a target, by the CPU. With
    /// `maintain_aspect_ratio` the result keeps the proportions of the frame
    /// and fits the target; without, it has the target's size. A frame that
    /// already has the target's size is copied.
    pub fn resize(&self, target_width: u32, target_height: u32, maintain_aspect_ratio: bool) -> (out:
        Result<VideoFrame, FrameError>)
        requires
            self.well_formed(),
        ensures
            outcome_view(out) == resize_outcome(
                self@,
                target_width,
                target_height,
                maintain_aspect_ratio,
            ),
            out matches Ok(frame) ==> frame.well_formed(),
    {
        if self.width == target_width && self.height == target_height {
            return Ok(self.clone());
        }
        let (w, h) = self.resize_target(target_width, target_height, maintain_aspect_ratio);
        if w == 0 || h == 0 {
            return Err(FrameError::ZeroDimension);
        }
        let limit = isize::MAX as u128;
        assert(16 * self.width * h == 4 * (4 * self.width * h)) by (nonlinear_arith);
        if self.width > MAX_RESAMPLE_SIDE || self.height > MAX_RESAMPLE_SIDE || w
            > MAX_RESAMPLE_SIDE || h > MAX_RESAMPLE_SIDE || 4 * packed_size(self.width, h) > limit
            || packed_size(w, h) > limit {
            return Err(FrameError::TooLarge);
        }
        let filter = choose_filter(self.width, self.height, w, h);
        let pixels = resample(&self.pixels, self.width, self.height, w, h, filter);
        Ok(
            VideoFrame {
                pixels,
                timestamp: self.timestamp,
                duration: self.duration,
                width: w,
                height: h,
            },
        )
    }

    /// A frame of the given size around pixels that were resized elsewhere,
    /// with the timing of this frame.
    pub fn resize_from_data(&self, width: u32, height: u32, data: Vec<u8>) -> (out: Result<
        VideoFrame,
        FrameError,
    >)
        ensures
            match out {
                Ok(frame) => {
                    &&& frame_error(data@.len(), width, height) is None
                    &&& frame.well_formed()
                    &&& frame@ == self@.with_image(data@, width, height)
                },
                Err(e) => frame_error(data@.len(), width, height) == Some(e),
            },
    {
        VideoFrame::new(data, width, height, self.timestamp, self.duration)
    }

    /// The box that `fast_thumbnail` fits the frame into.
    pub fn thumbnail_target(&self, max_dimension: u32) -> (out: (u32, u32))
        requires
            self.well_formed(),
        ensures
            (out.0 as int, out.1 as int) == thumbnail_box(self.width, self.height, max_dimension),
            out.0 <= max_dimension,
            out.1 <= max_dimension,
            max_dimension <= self.width || max_dimension <= self.height ==> out.0 <= self.width
                && out.1 <= self.height,
    {
        let w = self.width as u64;
        let h = self.height as u64;
        let m = max_dimension as u64;
        assert(m * h <= 0xffff_ffff * 0xffff_ffff && m * w <= 0xffff_ffff * 0xffff_ffff)
            by (nonlinear_arith)
            requires
                m <= 0xffff_ffff,
                w <= 0xffff_ffff,
                h <= 0xffff_ffff,
        ;
        if w > h {
            assert((m * h) / (w as int) <= m) by (nonlinear_arith)
                requires
                    h < w,
                    0 <= m,
            ;
            assert(m <= w ==> (m * h) / (w as int) <= h) by (nonlinear_arith)
                requires
                    0 < w,
                    0 <= h,
                    0 <= m,
            ;
            (max_dimension, ((m * h) / w) as u32)
        } else {
            assert((m * w) / (h as int) <= m) by (nonlinear_arith)
                requires
                    w <= h,
                    h > 0,
                    0 <= m,
            ;
            assert(m <= h ==> (m * w) / (h as int) <= w) by (nonlinear_arith)
                requires
                    0 < h,
                    0 <= w,
                    0 <= m,
            ;
            (((m * w) / h) as u32, max_dimension)
        }
    }

    /// A quick, coarse copy of the frame whose longer side is at most
    /// `max_dimension`. A frame that is small enough already is copied.
    pub fn fast_thumbnail(&self, max_dimension: u32) -> (out: Result<VideoFrame, FrameError>)
        requires
            self.well_formed(),
        ensures
            outcome_view(out) == thumbnail_outcome(self@, max_dimension),
            out matches Ok(frame) ==> frame.well_formed(),
    {
        if self.max_dimension() <= max_dimension {
            return Ok(self.clone());
        }
        assert(self.width * self.height <= 0xffff_ffff * 0xffff_ffff) by (nonlinear_arith)
            requires
                self.width <= 0xffff_ffff,
                self.height <= 0xffff_ffff,
        ;
        if (self.width as u64) * (self.height as u64) > THUMBNAIL_SOURCE_LIMIT as u64 || self.width
            > MAX_RESAMPLE_SIDE || self.height > MAX_RESAMPLE_SIDE {
            return self.resize(max_dimension, max_dimension, true);
        }
        let (box_w, box_h) = self.thumbnail_target(max_dimension);
        if packed_size(at_least_one(box_w), at_least_one(box_h)) > isize::MAX as u128 {
            return Err(FrameError::TooLarge);
        }
        let (pixels, width, height) = thumbnail(
            &self.pixels,
            self.width,
            self.height,
            box_w,
            box_h,
        );
        Ok(VideoFrame { pixels, timestamp: self.timestamp, duration: self.duration, width, height })
    }
}

fn at_least_one(value: u32) -> (out: u32)
    ensures
        out == box_side(value),
{
    if value > 1 {
        value
    } else {
        1
    }
}

/// Picks the filter for a resize from one size to another.
pub fn choose_filter(width: u32, height: u32, new_width: u32, new_height: u32) -> (out:
    ResizeFilter)
    ensures
        out == filter_for(width, height, new_width, new_height),
{
    let w = width as u64;
    let h = height as u64;
    let nw = new_width as u64;
    let nh = new_height as u64;
    let shrinks = 10 * nw < 7 * w && 10 * nh < 7 * h;
    let grows = 2 * nw > 3 * w || 2 * nh > 3 * h;
    if shrinks || grows {
        ResizeFilter::Triangle
    } else {
        ResizeFilter::Nearest
    }
}

} // verus!
