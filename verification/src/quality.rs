//! The adaptive quality controller: it watches how long frames take and
//! scales the render resolution to hold a target frame rate.
//!
//! Times are whole microseconds, frame rates are thousandths of a frame per
//! second, and qualities are thousandths, so that every comparison is exact.

use std::collections::VecDeque;
use vstd::prelude::*;
use vstd::relations::{sorted_by, total_ordering};
use vstd::seq_lib::{lemma_sorted_unique, to_multiset_build, to_multiset_insert};

verus! {

/// The quality that stands for 1.0.
pub const QUALITY_SCALE: u32 = 1000;

/// The lowest quality factor, 0.2.
pub const MIN_QUALITY: u32 = 200;

/// The lowest effective quality of a graphical protocol, 0.4.
pub const MIN_GRAPHICAL_QUALITY: u32 = 400;

/// Frame times kept in the rolling window.
pub const WINDOW_SIZE: usize = 15;

/// Frames between two adjustments of the quality factor.
pub const ADJUST_INTERVAL: usize = 15;

/// A frame time counts only if it is longer than this, one millisecond.
pub const MIN_FRAME_TIME: u64 = 1_000;

/// A frame time counts only if it is shorter than this, one second.
pub const MAX_FRAME_TIME: u64 = 1_000_000;

/// The frame time assumed while the window is empty, 33 milliseconds.
pub const DEFAULT_FRAME_TIME: u64 = 33_000;

/// What the controller knows: the recent frame times, oldest first, the
/// quality factor, and the frames seen since the factor was last adjusted.
pub struct QualityView {
    pub frame_times: Seq<u64>,
    pub quality_factor: u32,
    pub frames_since_adjust: nat,
}

/// The order of frame times.
pub open spec fn shorter_or_equal() -> spec_fn(u64, u64) -> bool {
    |a: u64, b: u64| a <= b
}

/// Whether a frame time is taken into the window.
pub open spec fn is_representative(frame_time: u64) -> bool {
    MIN_FRAME_TIME < frame_time < MAX_FRAME_TIME
}

/// The window after a frame time arrived: a representative one is appended,
/// and the oldest one leaves when the window overflows.
pub open spec fn window_after(window: Seq<u64>, frame_time: u64) -> Seq<u64> {
    if is_representative(frame_time) {
        let grown = window.push(frame_time);
        if grown.len() > WINDOW_SIZE {
            grown.subrange(1, grown.len() as int)
        } else {
            grown
        }
    } else {
        window
    }
}

/// The median of the window: the middle one of the sorted frame times, or the
/// mean of the two in the middle. An empty window has the default frame time.
pub open spec fn median_frame_time(window: Seq<u64>) -> int {
    let sorted = window.sort_by(shorter_or_equal());
    let mid = sorted.len() as int / 2;
    if sorted.len() == 0 {
        DEFAULT_FRAME_TIME as int
    } else if sorted.len() % 2 == 0 {
        (sorted[mid - 1] + sorted[mid]) / 2
    } else {
        sorted[mid] as int
    }
}

/// `fps < target * tenths / 10`, where `fps` is one frame per `frame_time`
/// microseconds and `target` is in thousandths of a frame per second.
pub open spec fn slower_than(frame_time: int, target: u32, tenths: int) -> bool {
    10_000_000_000 < tenths * target * frame_time
}

/// `fps > target * tenths / 10`, in the same units.
pub open spec fn faster_than(frame_time: int, target: u32, tenths: int) -> bool {
    10_000_000_000 > tenths * target * frame_time
}

/// The larger of two numbers.
pub open spec fn at_least(value: int, floor: int) -> int {
    if value < floor {
        floor
    } else {
        value
    }
}

/// The smaller of two numbers.
pub open spec fn at_most(value: int, ceiling: int) -> int {
    if value > ceiling {
        ceiling
    } else {
        value
    }
}

/// The quality factor after an adjustment. Far too slow: times 0.7; too slow:
/// times 0.85; both not below 0.2. Far faster than needed: times 1.2; faster:
/// times 1.07; both not above 1.0. In between the factor stays.
pub open spec fn adjusted_factor(factor: u32, frame_time: int, target: u32) -> int {
    if slower_than(frame_time, target, 4) {
        at_least(factor * 7 / 10, MIN_QUALITY as int)
    } else if slower_than(frame_time, target, 7) {
        at_least(factor * 85 / 100, MIN_QUALITY as int)
    } else if faster_than(frame_time, target, 17) && factor < QUALITY_SCALE {
        at_most(factor * 12 / 10, QUALITY_SCALE as int)
    } else if faster_than(frame_time, target, 13) && factor < QUALITY_SCALE {
        at_most(factor * 107 / 100, QUALITY_SCALE as int)
    } else {
        factor as int
    }
}

/// The frame count after one more frame.
pub open spec fn counted(frames: nat) -> nat {
    if frames < usize::MAX {
        frames + 1
    } else {
        frames
    }
}

impl QualityView {
    /// The factor is between 0.2 and 1.0, and the window holds at most
    /// fifteen representative frame times.
    pub open spec fn well_formed(self) -> bool {
        &&& MIN_QUALITY <= self.quality_factor <= QUALITY_SCALE
        &&& self.frame_times.len() <= WINDOW_SIZE
        &&& forall|i: int|
            0 <= i < self.frame_times.len() ==> is_representative(#[trigger] self.frame_times[i])
        &&& self.frames_since_adjust <= usize::MAX
    }

    /// The controller after a frame that took `frame_time` microseconds. The
    /// factor is adjusted on every fifteenth frame, and only where the
    /// resolution is adaptive.
    pub open spec fn after_frame(self, frame_time: u64, adaptive: bool, target: u32) -> QualityView {
        let window = window_after(self.frame_times, frame_time);
        let frames = counted(self.frames_since_adjust);
        if adaptive && frames >= ADJUST_INTERVAL {
            QualityView {
                frame_times: window,
                quality_factor: adjusted_factor(
                    self.quality_factor,
                    median_frame_time(window),
                    target,
                ) as u32,
                frames_since_adjust: 0,
            }
        } else {
            QualityView {
                frame_times: window,
                quality_factor: self.quality_factor,
                frames_since_adjust: frames,
            }
        }
    }
}

/// The configured quality scaled by the factor, kept between 0.2 and 1.0;
/// a graphical protocol gets at least 0.4.
pub open spec fn effective_quality_of(quality: u32, factor: u32, blocks: bool) -> int {
    let scaled = at_most(at_least(quality * factor / 1000, MIN_QUALITY as int), QUALITY_SCALE as int);
    if blocks {
        scaled
    } else {
        at_least(scaled, MIN_GRAPHICAL_QUALITY as int)
    }
}

/// An adjustment never takes the factor out of the range from 0.2 to 1.0.
pub proof fn lemma_adjusted_factor_in_range(factor: u32, frame_time: int, target: u32)
    requires
        MIN_QUALITY <= factor <= QUALITY_SCALE,
    ensures
        MIN_QUALITY <= adjusted_factor(factor, frame_time, target) <= QUALITY_SCALE,
{
}

/// Whatever frame times arrive, the factor stays between 0.2 and 1.0 and the
/// window stays within its size.
pub proof fn lemma_after_frame_well_formed(
    state: QualityView,
    frame_time: u64,
    adaptive: bool,
    target: u32,
)
    requires
        state.well_formed(),
    ensures
        state.after_frame(frame_time, adaptive, target).well_formed(),
{
    lemma_adjusted_factor_in_range(
        state.quality_factor,
        median_frame_time(window_after(state.frame_times, frame_time)),
        target,
    );
    let window = window_after(state.frame_times, frame_time);
    assert forall|i: int| 0 <= i < window.len() implies is_representative(
        #[trigger] window[i],
    ) by {
        if is_representative(frame_time) {
            let grown = state.frame_times.push(frame_time);
            if grown.len() > WINDOW_SIZE {
                assert(window[i] == grown[i + 1]);
            }
            assert(forall|k: int| 0 <= k < grown.len() ==> is_representative(#[trigger] grown[k]));
        }
    }
}

/// The states that a run of frame times leads through.
pub open spec fn after_frames(
    state: QualityView,
    frame_times: Seq<u64>,
    adaptive: bool,
    target: u32,
) -> QualityView
    decreases frame_times.len(),
{
    if frame_times.len() == 0 {
        state
    } else {
        after_frames(state, frame_times.drop_last(), adaptive, target).after_frame(
            frame_times.last(),
            adaptive,
            target,
        )
    }
}

/// For every sequence of frame times fed to the controller, the quality
/// factor stays between 0.2 and 1.0.
pub proof fn lemma_quality_factor_stays_in_range(
    state: QualityView,
    frame_times: Seq<u64>,
    adaptive: bool,
    target: u32,
)
    requires
        state.well_formed(),
    ensures
        after_frames(state, frame_times, adaptive, target).well_formed(),
        MIN_QUALITY <= after_frames(state, frame_times, adaptive, target).quality_factor
            <= QUALITY_SCALE,
    decreases frame_times.len(),
{
    if frame_times.len() > 0 {
        lemma_quality_factor_stays_in_range(state, frame_times.drop_last(), adaptive, target);
        lemma_after_frame_well_formed(
            after_frames(state, frame_times.drop_last(), adaptive, target),
            frame_times.last(),
            adaptive,
            target,
        );
    }
}

proof fn lemma_order_is_total()
    ensures
        total_ordering(shorter_or_equal()),
{
    let leq = shorter_or_equal();
    assert(vstd::relations::reflexive(leq));
    assert(vstd::relations::antisymmetric(leq));
    assert(vstd::relations::transitive(leq));
    assert(vstd::relations::strongly_connected(leq));
}

/// Sorts frame times, shortest first.
pub fn sorted_frame_times(times: &VecDeque<u64>) -> (out: Vec<u64>)
    ensures
        out@ == times@.sort_by(shorter_or_equal()),
        out.len() == times.len(),
{
    let mut out: Vec<u64> = Vec::new();
    let mut i: usize = 0;
    assert(times@.subrange(0, 0) =~= Seq::<u64>::empty());
    while i < times.len()
        invariant
            i <= times.len(),
            out.len() == i,
            sorted_by(out@, shorter_or_equal()),
            out@.to_multiset() == times@.subrange(0, i as int).to_multiset(),
        decreases times.len() - i,
    {
        let value = times[i];
        let mut at: usize = 0;
        while at < out.len() && out[at] <= value
            invariant
                at <= out.len(),
                forall|k: int| 0 <= k < at ==> out[k] <= value,
            decreases out.len() - at,
        {
            at += 1;
        }
        let ghost before = out@;
        out.insert(at, value);
        proof {
            to_multiset_insert(before, at as int, value);
            let prefix = times@.subrange(0, i as int);
            to_multiset_build(prefix, value);
            assert(times@.subrange(0, i as int + 1) =~= prefix.push(value));
            assert forall|a: int, b: int| 0 <= a < b < out.len() implies (
            #[trigger] shorter_or_equal()(out[a], out[b])) by {
                if b < at {
                    assert(shorter_or_equal()(before[a], before[b]));
                } else if b == at {
                } else if a < at {
                    assert(shorter_or_equal()(before[a], before[b - 1]));
                } else if a == at {
                    assert(shorter_or_equal()(before[at as int], before[b - 1]) || b - 1 == at);
                } else {
                    assert(shorter_or_equal()(before[a - 1], before[b - 1]));
                }
            }
        }
        i += 1;
    }
    proof {
        assert(times@.subrange(0, times.len() as int) =~= times@);
        lemma_order_is_total();
        times@.lemma_sort_by_ensures(shorter_or_equal());
        lemma_sorted_unique(out@, times@.sort_by(shorter_or_equal()), shorter_or_equal());
        assert(out@.len() == times@.len()) by {
            out@.to_multiset_ensures();
            times@.to_multiset_ensures();
        }
    }
    out
}

/// The rolling window of frame times and the quality factor derived from it.
pub struct QualityController {
    frame_times: VecDeque<u64>,
    quality_factor: u32,
    frames_since_adjust: usize,
}

impl View for QualityController {
    type V = QualityView;

    closed spec fn view(&self) -> QualityView {
        QualityView {
            frame_times: self.frame_times@,
            quality_factor: self.quality_factor,
            frames_since_adjust: self.frames_since_adjust as nat,
        }
    }
}

impl QualityController {
    /// The factor is between 0.2 and 1.0, and the window holds at most
    /// fifteen representative frame times.
    pub open spec fn wf(&self) -> bool {
        self@.well_formed()
    }

    /// A controller at full quality with an empty window.
    pub fn new() -> (out: QualityController)
        ensures
            out.wf(),
            out@ == (QualityView {
                frame_times: Seq::empty(),
                quality_factor: QUALITY_SCALE,
                frames_since_adjust: 0,
            }),
    {
        QualityController {
            frame_times: VecDeque::new(),
            quality_factor: QUALITY_SCALE,
            frames_since_adjust: 0,
        }
    }

    /// The quality factor, in thousandths.
    pub fn quality_factor(&self) -> (out: u32)
        requires
            self.wf(),
        ensures
            out == self@.quality_factor,
            MIN_QUALITY <= out <= QUALITY_SCALE,
    {
        self.quality_factor
    }

    /// The median of the frame times in the window, in microseconds.
    pub fn median_frame_time(&self) -> (out: u64)
        requires
            self.wf(),
        ensures
            out == median_frame_time(self@.frame_times),
            MIN_FRAME_TIME < out < MAX_FRAME_TIME,
    {
        let sorted = sorted_frame_times(&self.frame_times);
        proof {
            lemma_order_is_total();
            self@.frame_times.lemma_sort_by_ensures(shorter_or_equal());
            assert forall|i: int| 0 <= i < sorted.len() implies is_representative(
                #[trigger] sorted[i],
            ) by {
                let x = sorted[i];
                assert(sorted@.contains(x));
                if !self@.frame_times.contains(x) {
                    assert(!sorted@.contains(x));
                }
                let k = choose|k: int|
                    0 <= k < self@.frame_times.len() && self@.frame_times[k] == x;
                assert(is_representative(self@.frame_times[k]));
            }
        }
        let len = sorted.len();
        if len == 0 {
            DEFAULT_FRAME_TIME
        } else if len % 2 == 0 {
            (sorted[len / 2 - 1] + sorted[len / 2]) / 2
        } else {
            sorted[len / 2]
        }
    }

    /// Takes note of a frame that came `frame_time` microseconds after the
    /// one before. On every fifteenth frame, where `adaptive` is set, the
    /// quality factor is adjusted against `target_fps`, which is in
    /// thousandths of a frame per second.
    pub fn record_frame(&mut self, frame_time: u64, adaptive: bool, target_fps: u32)
        requires
            old(self).wf(),
        ensures
            final(self).wf(),
            final(self)@ == old(self)@.after_frame(frame_time, adaptive, target_fps),
    {
        proof {
            lemma_after_frame_well_formed(old(self)@, frame_time, adaptive, target_fps);
        }
        if MIN_FRAME_TIME < frame_time && frame_time < MAX_FRAME_TIME {
            self.frame_times.push_back(frame_time);
            if self.frame_times.len() > WINDOW_SIZE {
                self.frame_times.pop_front();
            }
        }
        assert(self.frame_times@ =~= window_after(old(self)@.frame_times, frame_time));
        if self.frames_since_adjust < usize::MAX {
            self.frames_since_adjust += 1;
        }
        if adaptive && self.frames_since_adjust >= ADJUST_INTERVAL {
            self.frames_since_adjust = 0;
            let median = self.median_frame_time();
            self.quality_factor = adjust_factor(self.quality_factor, median, target_fps);
        }
    }

    /// The quality at which the next frame is rendered: the configured
    /// quality scaled by the factor.
    pub fn effective_quality(&self, configured: u32, blocks: bool) -> (out: u32)
        requires
            self.wf(),
        ensures
            out == effective_quality_of(configured, self@.quality_factor, blocks),
            MIN_QUALITY <= out <= QUALITY_SCALE,
            !blocks ==> out >= MIN_GRAPHICAL_QUALITY,
    {
        assert(configured * self.quality_factor <= 0xffff_ffff * 1000) by (nonlinear_arith)
            requires
                configured <= 0xffff_ffff,
                self.quality_factor <= 1000,
        ;
        let scaled: u64 = (configured as u64) * (self.quality_factor as u64) / 1000;
        let clamped: u32 = if scaled < MIN_QUALITY as u64 {
            MIN_QUALITY
        } else if scaled > QUALITY_SCALE as u64 {
            QUALITY_SCALE
        } else {
            scaled as u32
        };
        if !blocks && clamped < MIN_GRAPHICAL_QUALITY {
            MIN_GRAPHICAL_QUALITY
        } else {
            clamped
        }
    }
}

/// Adjusts a quality factor against the median frame time and the target
/// frame rate.
pub fn adjust_factor(factor: u32, frame_time: u64, target_fps: u32) -> (out: u32)
    requires
        MIN_QUALITY <= factor <= QUALITY_SCALE,
        frame_time < MAX_FRAME_TIME,
    ensures
        out == adjusted_factor(factor, frame_time as int, target_fps),
        MIN_QUALITY <= out <= QUALITY_SCALE,
{
    assert(target_fps * frame_time <= 0xffff_ffff * 1_000_000) by (nonlinear_arith)
        requires
            target_fps <= 0xffff_ffff,
            frame_time < 1_000_000,
    ;
    let load: u64 = (target_fps as u64) * frame_time;
    assert(forall|tenths: int| #[trigger]
        (tenths * target_fps * frame_time) == tenths * (target_fps * frame_time)) by {
        assert forall|tenths: int| #[trigger]
            (tenths * target_fps * frame_time) == tenths * (target_fps * frame_time) by {
            assert(tenths * target_fps * frame_time == tenths * (target_fps * frame_time))
                by (nonlinear_arith);
        }
    }
    let limit: u64 = 10_000_000_000;
    if limit < 4 * load {
        floor_at(factor * 7 / 10, MIN_QUALITY)
    } else if limit < 7 * load {
        floor_at(factor * 85 / 100, MIN_QUALITY)
    } else if limit > 17 * load && factor < QUALITY_SCALE {
        cap_at(factor * 12 / 10, QUALITY_SCALE)
    } else if limit > 13 * load && factor < QUALITY_SCALE {
        cap_at(factor * 107 / 100, QUALITY_SCALE)
    } else {
        factor
    }
}

fn floor_at(value: u32, floor: u32) -> (out: u32)
    ensures
        out == at_least(value as int, floor as int),
{
    if value < floor {
        floor
    } else {
        value
    }
}

fn cap_at(value: u32, ceiling: u32) -> (out: u32)
    ensures
        out == at_most(value as int, ceiling as int),
{
    if value > ceiling {
        ceiling
    } else {
        value
    }
}

} // verus!
