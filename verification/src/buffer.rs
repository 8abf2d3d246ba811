//! A bounded buffer of decoded frames between the decoder and the display.
//!
//! Frames are kept in the order in which they were added. A lookup table
//! from millisecond to index answers exact queries; it is rebuilt whenever
//! frames leave the buffer.

use std::collections::{HashMap, VecDeque};
use vstd::prelude::*;
use crate::frame::{FrameView, VideoFrame};

verus! {

/// How far behind the playback position frames are kept, in microseconds.
pub const REWIND_WINDOW: i64 = 2_000_000;

/// What a buffer is: its frames in the order they were added, its capacity,
/// the playback position in microseconds, and whether a worker is filling it.
pub struct BufferView {
    pub frames: Seq<FrameView>,
    pub capacity: nat,
    pub position: i64,
    pub prefetching: bool,
}

/// The views of a run of frames.
pub open spec fn frame_views(frames: Seq<VideoFrame>) -> Seq<FrameView> {
    Seq::new(frames.len(), |i: int| frames[i]@)
}

/// The millisecond that a timestamp falls into, rounded towards zero.
pub open spec fn millis_bucket(timestamp: i64) -> i64 {
    if timestamp >= 0 {
        (timestamp / 1000) as i64
    } else {
        (-((-timestamp) / 1000)) as i64
    }
}

/// The distance between two timestamps.
pub open spec fn distance(a: i64, b: i64) -> int {
    if a >= b {
        a - b
    } else {
        b - a
    }
}

/// The frames that are not older than `cutoff`, in their order.
pub open spec fn retained(frames: Seq<FrameView>, cutoff: int) -> Seq<FrameView>
    decreases frames.len(),
{
    if frames.len() == 0 {
        frames
    } else {
        let rest = retained(frames.drop_last(), cutoff);
        if frames.last().timestamp >= cutoff {
            rest.push(frames.last())
        } else {
            rest
        }
    }
}

/// The frames left by a cleanup at a playback position: those older than the
/// rewind window go, unless the window reaches back to the start.
pub open spec fn cleaned(frames: Seq<FrameView>, position: i64) -> Seq<FrameView> {
    if position - REWIND_WINDOW <= 0 {
        frames
    } else {
        retained(frames, position - REWIND_WINDOW)
    }
}

/// The frames that meet a new frame: a full buffer is cleaned up first.
pub open spec fn before_add(buffer: BufferView) -> Seq<FrameView> {
    if buffer.frames.len() >= buffer.capacity {
        cleaned(buffer.frames, buffer.position)
    } else {
        buffer.frames
    }
}

impl BufferView {
    /// Frame `i` falls into millisecond `key`.
    pub open spec fn in_bucket(self, i: int, key: i64) -> bool {
        0 <= i < self.frames.len() && millis_bucket(self.frames[i].timestamp) == key
    }

    /// Some frame falls into the millisecond of `timestamp`.
    pub open spec fn has_exact_match(self, timestamp: i64) -> bool {
        exists|i: int| self.in_bucket(i, millis_bucket(timestamp))
    }

    /// Frame `i` is the last one added that falls into the millisecond of
    /// `timestamp`.
    pub open spec fn is_exact_match(self, timestamp: i64, i: int) -> bool {
        &&& self.in_bucket(i, millis_bucket(timestamp))
        &&& forall|j: int| i < j ==> !self.in_bucket(j, millis_bucket(timestamp))
    }

    /// Frame `i` is the first one among those closest to `timestamp`.
    pub open spec fn is_nearest(self, timestamp: i64, i: int) -> bool {
        &&& 0 <= i < self.frames.len()
        &&& forall|j: int|
            0 <= j < self.frames.len() ==> distance(self.frames[i].timestamp, timestamp)
                <= distance(#[trigger] self.frames[j].timestamp, timestamp)
        &&& forall|j: int|
            0 <= j < i ==> distance(self.frames[i].timestamp, timestamp) < distance(
                #[trigger] self.frames[j].timestamp,
                timestamp,
            )
    }

    /// Frame `i` is the one that a query for `timestamp` returns: an exact
    /// match by the millisecond where there is one, the nearest frame
    /// otherwise.
    pub open spec fn selects(self, timestamp: i64, i: int) -> bool {
        if self.has_exact_match(timestamp) {
            self.is_exact_match(timestamp, i)
        } else {
            self.is_nearest(timestamp, i)
        }
    }

    /// Frame `i` lies after the playback position.
    pub open spec fn is_ahead(self, i: int) -> bool {
        0 <= i < self.frames.len() && self.frames[i].timestamp > self.position
    }

    /// Some frame lies after the playback position.
    pub open spec fn has_next(self) -> bool {
        exists|i: int| self.is_ahead(i)
    }

    /// Frame `i` is the next one to show: of the frames after the playback
    /// position the one with the least timestamp, the first of them where
    /// several share it.
    pub open spec fn is_next(self, i: int) -> bool {
        &&& self.is_ahead(i)
        &&& forall|j: int|
            self.is_ahead(j) ==> self.frames[i].timestamp <= (
            #[trigger] self.frames[j]).timestamp
        &&& forall|j: int|
            0 <= j < i && self.is_ahead(j) ==> self.frames[i].timestamp < (
            #[trigger] self.frames[j]).timestamp
    }

    /// Frame `i` is the one that `next_frame` returns.
    pub open spec fn advances_to(self, i: int) -> bool {
        if self.has_next() {
            self.is_next(i)
        } else {
            i == self.frames.len() - 1
        }
    }
}

/// A query selects at most one frame.
pub proof fn lemma_selection_is_unique(buffer: BufferView, timestamp: i64, i: int, j: int)
    requires
        buffer.selects(timestamp, i),
        buffer.selects(timestamp, j),
    ensures
        i == j,
{
    if buffer.has_exact_match(timestamp) {
        if i < j {
            assert(!buffer.in_bucket(j, millis_bucket(timestamp)));
        } else if j < i {
            assert(!buffer.in_bucket(i, millis_bucket(timestamp)));
        }
    } else {
        if i < j {
            assert(distance(buffer.frames[j].timestamp, timestamp) < distance(
                buffer.frames[i].timestamp,
                timestamp,
            ));
        } else if j < i {
            assert(distance(buffer.frames[i].timestamp, timestamp) < distance(
                buffer.frames[j].timestamp,
                timestamp,
            ));
        }
    }
}

/// At most one frame is the next to show.
pub proof fn lemma_next_is_unique(buffer: BufferView, i: int, j: int)
    requires
        buffer.advances_to(i),
        buffer.advances_to(j),
    ensures
        i == j,
{
    if buffer.has_next() {
        if i < j {
            assert(buffer.frames[j].timestamp < buffer.frames[i].timestamp);
        } else if j < i {
            assert(buffer.frames[i].timestamp < buffer.frames[j].timestamp);
        }
    }
}

/// A cleanup keeps the order of the frames and never adds one.
pub proof fn lemma_retained_is_shorter(frames: Seq<FrameView>, cutoff: int)
    ensures
        retained(frames, cutoff).len() <= frames.len(),
        forall|i: int|
            0 <= i < retained(frames, cutoff).len() ==> (#[trigger] retained(
                frames,
                cutoff,
            )[i]).timestamp >= cutoff,
        (forall|i: int| 0 <= i < frames.len() ==> (#[trigger] frames[i]).timestamp >= cutoff)
            ==> retained(frames, cutoff) == frames,
    decreases frames.len(),
{
    if frames.len() > 0 {
        lemma_retained_is_shorter(frames.drop_last(), cutoff);
        if forall|i: int| 0 <= i < frames.len() ==> (#[trigger] frames[i]).timestamp >= cutoff {
            assert forall|i: int| 0 <= i < frames.drop_last().len() implies (
            #[trigger] frames.drop_last()[i]).timestamp >= cutoff by {
                assert(frames.drop_last()[i] == frames[i]);
            }
            assert(frames.drop_last().push(frames.last()) =~= frames);
        }
    }
}

/// The lookup table of a run of frames: each millisecond that holds a frame
/// leads to the last frame added to it.
spec fn bucket_index(frames: Seq<FrameView>) -> Map<i64, usize>
    decreases frames.len(),
{
    if frames.len() == 0 {
        Map::empty()
    } else {
        bucket_index(frames.drop_last()).insert(
            millis_bucket(frames.last().timestamp),
            (frames.len() - 1) as usize,
        )
    }
}

proof fn lemma_bucket_index(frames: Seq<FrameView>, key: i64)
    requires
        frames.len() <= usize::MAX,
    ensures
        bucket_index(frames).contains_key(key) <==> exists|i: int|
            0 <= i < frames.len() && millis_bucket(#[trigger] frames[i].timestamp) == key,
        bucket_index(frames).contains_key(key) ==> {
            let i = bucket_index(frames)[key] as int;
            &&& 0 <= i < frames.len()
            &&& millis_bucket(frames[i].timestamp) == key
            &&& forall|j: int|
                i < j < frames.len() ==> millis_bucket(#[trigger] frames[j].timestamp) != key
        },
    decreases frames.len(),
{
    if frames.len() > 0 {
        let init = frames.drop_last();
        lemma_bucket_index(init, key);
        assert forall|i: int| 0 <= i < init.len() implies init[i] == frames[i] by {}
        if millis_bucket(frames.last().timestamp) == key {
            assert(millis_bucket(frames[frames.len() - 1].timestamp) == key);
        } else {
            if bucket_index(init).contains_key(key) {
                let i = choose|i: int|
                    0 <= i < init.len() && millis_bucket(#[trigger] init[i].timestamp) == key;
                assert(millis_bucket(frames[i].timestamp) == key);
            }
            if exists|i: int|
                0 <= i < frames.len() && millis_bucket(#[trigger] frames[i].timestamp) == key {
                let i = choose|i: int|
                    0 <= i < frames.len() && millis_bucket(#[trigger] frames[i].timestamp) == key;
                assert(i < init.len());
                assert(millis_bucket(init[i].timestamp) == key);
            }
        }
    }
}

/// Computes the millisecond that a timestamp falls into.
pub fn timestamp_key(timestamp: i64) -> (out: i64)
    ensures
        out == millis_bucket(timestamp),
{
    if timestamp >= 0 {
        timestamp / 1000
    } else {
        let magnitude: u64 = (-(timestamp + 1)) as u64 + 1;
        -((magnitude / 1000) as i64)
    }
}

fn timestamp_distance(a: i64, b: i64) -> (out: i128)
    ensures
        out == distance(a, b),
{
    if a >= b {
        a as i128 - b as i128
    } else {
        b as i128 - a as i128
    }
}

/// A bounded buffer of decoded frames.
pub struct FrameBuffer {
    frames: VecDeque<VideoFrame>,
    timestamp_map: HashMap<i64, usize>,
    capacity: usize,
    prefetching: bool,
    current_position: i64,
}

impl View for FrameBuffer {
    type V = BufferView;

    closed spec fn view(&self) -> BufferView {
        BufferView {
            frames: frame_views(self.frames@),
            capacity: self.capacity as nat,
            position: self.current_position,
            prefetching: self.prefetching,
        }
    }
}

impl FrameBuffer {
    /// The lookup table agrees with the frames.
    pub closed spec fn index_consistent(&self) -> bool {
        self.timestamp_map@ == bucket_index(frame_views(self.frames@))
    }

    /// The buffer holds no more frames than its capacity, and its lookup
    /// table agrees with its frames.
    pub open spec fn wf(&self) -> bool {
        &&& self.index_consistent()
        &&& self@.frames.len() <= self@.capacity
    }

    /// An empty buffer for up to `capacity` frames, at position zero.
    pub fn new(capacity: usize) -> (out: FrameBuffer)
        ensures
            out.wf(),
            out@ == (BufferView {
                frames: Seq::empty(),
                capacity: capacity as nat,
                position: 0,
                prefetching: false,
            }),
    {
        let out = FrameBuffer {
            frames: VecDeque::new(),
            timestamp_map: HashMap::new(),
            capacity,
            prefetching: false,
            current_position: 0,
        };
        assert(frame_views(out.frames@) =~= Seq::empty());
        out
    }

    /// Whether a frame offered now would be turned away: the buffer is
    /// full, and a cleanup would not make room.
    pub fn is_full(&self) -> (out: bool)
        requires
            self.wf(),
        ensures
            out == (before_add(self@).len() >= self@.capacity),
    {
        let len = self.frames.len();
        if len < self.capacity {
            return false;
        }
        let cutoff: i128 = self.current_position as i128 - REWIND_WINDOW as i128;
        if cutoff <= 0 {
            return true;
        }
        let ghost views = frame_views(self.frames@);
        let mut kept: usize = 0;
        let mut i: usize = 0;
        assert(views.subrange(0, 0) =~= Seq::<FrameView>::empty());
        while i < len
            invariant
                i <= len,
                len == self.frames.len(),
                views == frame_views(self.frames@),
                kept <= i,
                kept == retained(views.subrange(0, i as int), cutoff as int).len(),
            decreases len - i,
        {
            proof {
                let prefix = views.subrange(0, i as int + 1);
                assert(prefix.drop_last() =~= views.subrange(0, i as int));
                assert(prefix.last() == self.frames@[i as int]@);
            }
            if self.frames[i].timestamp as i128 >= cutoff {
                kept += 1;
            }
            i += 1;
        }
        assert(views.subrange(0, len as int) =~= views);
        kept >= self.capacity
    }

    /// Offers a frame for the end of the buffer. A full buffer is cleaned up
    /// first; if it is still full, nothing changes and the frame is handed
    /// back.
    pub fn offer_frame(&mut self, frame: VideoFrame) -> (rejected: Option<VideoFrame>)
        requires
            old(self).wf(),
        ensures
            final(self).wf(),
            rejected is None <==> before_add(old(self)@).len() < old(self)@.capacity,
            rejected is None ==> final(self)@ == (BufferView {
                frames: before_add(old(self)@).push(frame@),
                ..old(self)@
            }),
            rejected matches Some(back) ==> back == frame && final(self)@ == old(self)@,
    {
        if self.frames.len() >= self.capacity {
            proof {
                lemma_retained_is_shorter(
                    old(self)@.frames,
                    old(self)@.position - REWIND_WINDOW,
                );
            }
            self.cleanup_old_frames();
            if self.frames.len() >= self.capacity {
                proof {
                    let cutoff = old(self)@.position - REWIND_WINDOW;
                    if cutoff > 0 {
                        lemma_retained_keeps_all(old(self)@.frames, cutoff);
                    }
                }
                return Some(frame);
            }
        }
        let key = timestamp_key(frame.timestamp);
        let index = self.frames.len();
        let ghost before = frame_views(self.frames@);
        self.timestamp_map.insert(key, index);
        self.frames.push_back(frame);
        proof {
            assert(frame_views(self.frames@) =~= before.push(frame@));
            assert(before.push(frame@).drop_last() =~= before);
        }
        None
    }

    /// Adds a frame at the end. A full buffer is cleaned up first; if it is
    /// still full, the frame is turned away and nothing changes.
    pub fn add_frame(&mut self, frame: VideoFrame) -> (added: bool)
        requires
            old(self).wf(),
        ensures
            final(self).wf(),
            added == (before_add(old(self)@).len() < old(self)@.capacity),
            added ==> final(self)@ == (BufferView {
                frames: before_add(old(self)@).push(frame@),
                ..old(self)@
            }),
            !added ==> final(self)@ == old(self)@,
    {
        self.offer_frame(frame).is_none()
    }

    /// The frame for a timestamp: the last frame added within the same
    /// millisecond where there is one, the frame nearest to the timestamp
    /// otherwise. `None` only from an empty buffer.
    pub fn get_frame_at(&self, timestamp: i64) -> (out: Option<VideoFrame>)
        requires
            self.wf(),
        ensures
            out is None <==> self@.frames.len() == 0,
            out matches Some(frame) ==> exists|i: int|
                self@.selects(timestamp, i) && frame@ == #[trigger] self@.frames[i],
    {
        if self.frames.len() == 0 {
            return None;
        }
        let key = timestamp_key(timestamp);
        proof {
            lemma_bucket_index(self@.frames, key);
        }
        match self.timestamp_map.get(&key) {
            Some(index) => {
                let index: usize = *index;
                let frame = self.frames[index].clone();
                proof {
                    let i = index as int;
                    assert(self@.in_bucket(i, key));
                    assert(self@.is_exact_match(timestamp, i));
                    assert(frame@ == self@.frames[i]);
                }
                return Some(frame);
            },
            None => {},
        }
        proof {
            assert forall|i: int| !self@.in_bucket(i, key) by {
                if self@.in_bucket(i, key) {
                    assert(millis_bucket(self@.frames[i].timestamp) == key);
                }
            }
        }
        let mut best: usize = 0;
        let mut best_distance: i128 = timestamp_distance(self.frames[0].timestamp, timestamp);
        let mut i: usize = 1;
        while i < self.frames.len()
            invariant
                1 <= i <= self.frames.len(),
                best < i,
                best_distance == distance(self@.frames[best as int].timestamp, timestamp),
                forall|j: int|
                    0 <= j < i ==> best_distance <= distance(
                        #[trigger] self@.frames[j].timestamp,
                        timestamp,
                    ),
                forall|j: int|
                    0 <= j < best ==> best_distance < distance(
                        #[trigger] self@.frames[j].timestamp,
                        timestamp,
                    ),
            decreases self.frames.len() - i,
        {
            let d = timestamp_distance(self.frames[i].timestamp, timestamp);
            if d < best_distance {
                best = i;
                best_distance = d;
            }
            i += 1;
        }
        let frame = self.frames[best].clone();
        proof {
            assert(self@.is_nearest(timestamp, best as int));
            assert(frame@ == self@.frames[best as int]);
        }
        Some(frame)
    }

    /// The next frame to show, and the playback position moves to it: of the
    /// frames after the position the one with the least timestamp. When none
    /// is left, the last frame added is shown. `None` only from an empty
    /// buffer.
    pub fn next_frame(&mut self) -> (out: Option<VideoFrame>)
        requires
            old(self).wf(),
        ensures
            final(self).wf(),
            out is None <==> old(self)@.frames.len() == 0,
            out is None ==> final(self)@ == old(self)@,
            out matches Some(frame) ==> {
                &&& exists|i: int|
                    old(self)@.advances_to(i) && frame@ == #[trigger] old(self)@.frames[i]
                &&& final(self)@ == (BufferView { position: frame.timestamp, ..old(self)@ })
            },
    {
        let len = self.frames.len();
        if len == 0 {
            return None;
        }
        let mut best: Option<usize> = None;
        let mut i: usize = 0;
        while i < len
            invariant
                i <= len,
                len == self.frames.len(),
                *self == *old(self),
                best matches Some(b) ==> b < i && self@.is_ahead(b as int),
                best is None ==> forall|j: int| 0 <= j < i ==> !self@.is_ahead(j),
                best matches Some(b) ==> forall|j: int|
                    0 <= j < i && self@.is_ahead(j) ==> self@.frames[b as int].timestamp <= (
                    #[trigger] self@.frames[j]).timestamp,
                best matches Some(b) ==> forall|j: int|
                    0 <= j < b && self@.is_ahead(j) ==> self@.frames[b as int].timestamp < (
                    #[trigger] self@.frames[j]).timestamp,
            decreases len - i,
        {
            let timestamp = self.frames[i].timestamp;
            if timestamp > self.current_position {
                let better = match best {
                    Some(b) => timestamp < self.frames[b].timestamp,
                    None => true,
                };
                if better {
                    best = Some(i);
                }
            }
            i += 1;
        }
        let chosen: usize = match best {
            Some(b) => {
                proof {
                    assert(self@.is_ahead(b as int));
                    assert(self@.is_next(b as int));
                }
                b
            },
            None => {
                proof {
                    assert forall|j: int| !self@.is_ahead(j) by {}
                }
                len - 1
            },
        };
        let frame = self.frames[chosen].clone();
        assert(frame@ == old(self)@.frames[chosen as int]);
        self.current_position = frame.timestamp;
        Some(frame)
    }

    /// The frame at the playback position, as `get_frame_at` finds it.
    pub fn current_frame(&self) -> (out: Option<VideoFrame>)
        requires
            self.wf(),
        ensures
            out is None <==> self@.frames.len() == 0,
            out matches Some(frame) ==> exists|i: int|
                self@.selects(self@.position, i) && frame@ == #[trigger] self@.frames[i],
    {
        self.get_frame_at(self.current_position)
    }

    /// Moves the playback position and drops the frames that are older than
    /// the rewind window behind it.
    pub fn seek(&mut self, timestamp: i64)
        requires
            old(self).wf(),
        ensures
            final(self).wf(),
            final(self)@ == (BufferView {
                frames: cleaned(old(self)@.frames, timestamp),
                position: timestamp,
                ..old(self)@
            }),
    {
        self.current_position = timestamp;
        self.cleanup_old_frames();
    }

    /// The number of frames held, the capacity, and the playback position.
    pub fn status(&self) -> (out: (usize, usize, i64))
        requires
            self.wf(),
        ensures
            out.0 == self@.frames.len(),
            out.1 == self@.capacity,
            out.2 == self@.position,
            out.0 <= out.1,
    {
        (self.frames.len(), self.capacity, self.current_position)
    }

    /// Drops every frame and returns to position zero.
    pub fn clear(&mut self)
        ensures
            final(self).wf(),
            final(self)@ == (BufferView { frames: Seq::empty(), position: 0, ..old(self)@ }),
    {
        self.frames.clear();
        self.timestamp_map.clear();
        self.current_position = 0;
        assert(frame_views(self.frames@) =~= Seq::empty());
    }

    /// Notes that a worker starts to fill the buffer. Returns whether it may
    /// start: `false` while another one is at work.
    pub fn start_prefetching(&mut self) -> (started: bool)
        ensures
            started == !old(self)@.prefetching,
            final(self)@ == (BufferView { prefetching: true, ..old(self)@ }),
            old(self).wf() ==> final(self).wf(),
    {
        let started = !self.prefetching;
        self.prefetching = true;
        started
    }

    /// Notes that the worker has been stopped. Returns whether there was one
    /// to stop and to wait for.
    pub fn stop_prefetching(&mut self) -> (stopped: bool)
        ensures
            stopped == old(self)@.prefetching,
            final(self)@ == (BufferView { prefetching: false, ..old(self)@ }),
            old(self).wf() ==> final(self).wf(),
    {
        let stopped = self.prefetching;
        self.prefetching = false;
        stopped
    }

    /// Drops the frames that are older than the rewind window behind the
    /// playback position, and rebuilds the lookup table.
    pub fn cleanup_old_frames(&mut self)
        requires
            old(self).wf(),
        ensures
            final(self).wf(),
            final(self)@ == (BufferView {
                frames: cleaned(old(self)@.frames, old(self)@.position),
                ..old(self)@
            }),
    {
        let cutoff: i128 = self.current_position as i128 - REWIND_WINDOW as i128;
        if cutoff <= 0 {
            return;
        }
        let ghost all = self.frames@;
        let mut kept: VecDeque<VideoFrame> = VecDeque::new();
        let mut index: HashMap<i64, usize> = HashMap::new();
        let total = self.frames.len();
        let mut seen: usize = 0;
        assert(frame_views(all).subrange(0, 0) =~= Seq::empty());
        assert(frame_views(kept@) =~= Seq::empty());
        while seen < total
            invariant
                seen <= total,
                total == all.len(),
                self.frames@ == all.subrange(seen as int, total as int),
                self.capacity == old(self).capacity,
                self.current_position == old(self).current_position,
                self.prefetching == old(self).prefetching,
                total <= self.capacity,
                kept.len() <= seen,
                frame_views(kept@) == retained(
                    frame_views(all).subrange(0, seen as int),
                    cutoff as int,
                ),
                index@ == bucket_index(frame_views(kept@)),
            decreases total - seen,
        {
            let frame = self.frames.pop_front().unwrap();
            proof {
                assert(frame == all[seen as int]);
                assert(self.frames@ =~= all.subrange(seen as int + 1, total as int));
                let prefix = frame_views(all).subrange(0, seen as int + 1);
                assert(prefix.drop_last() =~= frame_views(all).subrange(0, seen as int));
                assert(prefix.last() == frame@);
            }
            if frame.timestamp as i128 >= cutoff {
                let key = timestamp_key(frame.timestamp);
                let at = kept.len();
                let ghost before = frame_views(kept@);
                index.insert(key, at);
                kept.push_back(frame);
                proof {
                    assert(frame_views(kept@) =~= before.push(frame@));
                    assert(before.push(frame@).drop_last() =~= before);
                }
            }
            seen += 1;
        }
        proof {
            assert(frame_views(all).subrange(0, total as int) =~= frame_views(all));
        }
        self.frames = kept;
        self.timestamp_map = index;
    }
}

proof fn lemma_retained_keeps_all(frames: Seq<FrameView>, cutoff: int)
    requires
        retained(frames, cutoff).len() >= frames.len(),
    ensures
        retained(frames, cutoff) == frames,
    decreases frames.len(),
{
    if frames.len() > 0 {
        lemma_retained_is_shorter(frames.drop_last(), cutoff);
        lemma_retained_keeps_all(frames.drop_last(), cutoff);
        assert(frames.drop_last().push(frames.last()) =~= frames);
    }
}

} // verus!
