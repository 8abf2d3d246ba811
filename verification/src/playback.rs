//! Small rules of playback: how large the frame buffer is, when to decode
//! ahead, where a seek lands, what a volume may be, and which button a click
//! hits.

use vstd::prelude::*;

verus! {

/// Seconds of video that the frame buffer holds.
pub const BUFFER_SECONDS: u64 = 5;

/// The frame rate assumed where a stream gives none of use, in thousandths
/// of a frame per second.
pub const DEFAULT_FRAME_RATE: u32 = 30_000;

/// The highest frame rate taken at its word, in frames per second.
pub const HIGHEST_FRAME_RATE: i64 = 1000;

/// The loudest volume.
pub const MAX_VOLUME: i32 = 100;

/// Buttons in the playback row.
pub const BUTTONS: u32 = 5;

/// The frames that five seconds of video at a frame rate hold, rounded up.
/// The frame rate is in thousandths of a frame per second.
pub open spec fn frames_to_buffer(frame_rate: u32) -> int {
    (BUFFER_SECONDS * frame_rate + 999) / 1000
}

/// The capacity of the frame buffer for a frame rate.
pub fn buffer_capacity(frame_rate: u32) -> (out: usize)
    ensures
        out == frames_to_buffer(frame_rate),
{
    ((BUFFER_SECONDS * frame_rate as u64 + 999) / 1000) as usize
}

/// Whether to decode a frame ahead: while the buffer is less than half
/// full.
pub fn wants_prefetch(frames_in_buffer: usize, capacity: usize) -> (out: bool)
    ensures
        out == (frames_in_buffer < capacity / 2),
{
    frames_in_buffer < capacity / 2
}

/// The frame rate of a stream that states it as a fraction, in thousandths
/// of a frame per second: the fraction where it lies above zero and at most
/// at a thousand, the default otherwise.
pub open spec fn stated_frame_rate(numerator: i32, denominator: i32) -> int {
    if denominator > 0 && numerator > 0 && numerator <= HIGHEST_FRAME_RATE * denominator {
        numerator as int * 1000 / denominator as int
    } else if denominator < 0 && numerator < 0 && -numerator <= HIGHEST_FRAME_RATE * (-denominator) {
        (-numerator) * 1000 / (-denominator as int)
    } else {
        DEFAULT_FRAME_RATE as int
    }
}

/// The frame rate of a stream that states it as a fraction.
pub fn frame_rate_or_default(numerator: i32, denominator: i32) -> (out: u32)
    ensures
        out == stated_frame_rate(numerator, denominator),
{
    let n = numerator as i64;
    let d = denominator as i64;
    if d > 0 && n > 0 && n <= HIGHEST_FRAME_RATE * d {
        assert(n * 1000 / (d as int) <= 1_000_000) by (nonlinear_arith)
            requires
                0 < n <= 1000 * d,
                d > 0,
        ;
        ((n as u64 * 1000) / (d as u64)) as u32
    } else if d < 0 && n < 0 && -n <= HIGHEST_FRAME_RATE * (-d) {
        assert((-n) * 1000 / (-d as int) <= 1_000_000) by (nonlinear_arith)
            requires
                0 < -n <= 1000 * (-d),
                -d > 0,
        ;
        (((-n) as u64 * 1000) / ((-d) as u64)) as u32
    } else {
        DEFAULT_FRAME_RATE
    }
}

/// A volume kept between 0 and 100.
pub fn clamp_volume(volume: i32) -> (out: i32)
    ensures
        0 <= out <= MAX_VOLUME,
        0 <= volume <= MAX_VOLUME ==> out == volume,
        volume < 0 ==> out == 0,
        volume > MAX_VOLUME ==> out == MAX_VOLUME,
{
    if volume < 0 {
        0
    } else if volume > MAX_VOLUME {
        MAX_VOLUME
    } else {
        volume
    }
}

/// Where a seek by `delta` from `position` lands, both in microseconds: not
/// before the start, and not beyond what a timestamp can hold.
pub open spec fn seek_landing(position: i64, delta: i64) -> int {
    if position + delta < 0 {
        0
    } else if position + delta > i64::MAX {
        i64::MAX as int
    } else {
        position + delta
    }
}

/// Where a seek by `delta` from `position` lands.
pub fn seek_target(position: i64, delta: i64) -> (out: i64)
    ensures
        out == seek_landing(position, delta),
{
    let sum: i128 = position as i128 + delta as i128;
    if sum < 0 {
        0
    } else if sum > i64::MAX as i128 {
        i64::MAX
    } else {
        sum as i64
    }
}

/// The button of the playback row under a column: the row is split into
/// five parts of equal width. Columns left of the row count as its first
/// column.
pub open spec fn button_under(column: u16, left: u16, width: u16) -> int {
    let offset = if column > left {
        column - left
    } else {
        0
    };
    let index = offset * BUTTONS / (width as int);
    if index < BUTTONS {
        index
    } else {
        BUTTONS - 1
    }
}

/// The button of the playback row under a column.
pub fn clicked_button(column: u16, left: u16, width: u16) -> (out: usize)
    requires
        width > 0,
    ensures
        out == button_under(column, left, width),
        out < BUTTONS,
{
    let offset: u32 = if column > left {
        (column - left) as u32
    } else {
        0
    };
    let index = offset * BUTTONS / (width as u32);
    if index < BUTTONS {
        index as usize
    } else {
        (BUTTONS - 1) as usize
    }
}

/// The position, in microseconds, that a click on the progress bar asks
/// for: the share of the bar left of the click, of the duration.
pub open spec fn position_under(column: u16, left: u16, width: u16, duration: i64) -> int {
    let offset = if column > left {
        column - left
    } else {
        0
    };
    let inside = if offset > width {
        width as int
    } else {
        offset
    };
    duration * inside / (width as int)
}

/// The position that a click on the progress bar asks for.
pub fn clicked_position(column: u16, left: u16, width: u16, duration: i64) -> (out: i64)
    requires
        width > 0,
        duration >= 0,
    ensures
        out == position_under(column, left, width, duration),
        0 <= out <= duration,
{
    let offset: i128 = if column > left {
        (column - left) as i128
    } else {
        0
    };
    let inside: i128 = if offset > width as i128 {
        width as i128
    } else {
        offset
    };
    assert(0 <= duration * inside <= duration * width) by (nonlinear_arith)
        requires
            0 <= inside <= width,
            0 <= duration,
    ;
    assert(duration * width <= 0x7fff_ffff_ffff_ffff * 0xffff) by (nonlinear_arith)
        requires
            0 <= duration <= 0x7fff_ffff_ffff_ffff,
            0 < width <= 0xffff,
    ;
    assert(duration * inside / (width as int) <= duration) by (nonlinear_arith)
        requires
            0 <= duration * inside <= duration * width,
            width > 0,
    ;
    assert(0 <= duration * inside / (width as int)) by (nonlinear_arith)
        requires
            0 <= duration * inside,
            width > 0,
    ;
    ((duration as i128 * inside) / (width as i128)) as i64
}

} // verus!
