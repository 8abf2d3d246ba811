//! The decisions of the worker that fills a frame buffer ahead of playback.
//!
//! The worker itself, with its thread and its decoder, belongs to the
//! caller. It asks here what to do next, and reports what the decoder gave.

use vstd::prelude::*;
use crate::buffer::{before_add, BufferView, FrameBuffer};
use crate::frame::VideoFrame;

verus! {

/// Decode errors in a row after which the worker gives up.
pub const MAX_DECODE_ERRORS: u32 = 5;

/// Milliseconds to sleep while the buffer is full.
pub const FULL_SLEEP_MS: u64 = 100;

/// Milliseconds to sleep after a decode error.
pub const RETRY_SLEEP_MS: u64 = 50;

/// What the decoder gave.
#[derive(Clone, Copy, Debug, PartialEq, Eq, Structural)]
pub enum DecodeOutcome {
    /// A frame.
    Frame,
    /// The end of the stream.
    EndOfStream,
    /// An error.
    Error,
}

/// What the worker does next.
#[derive(Clone, Copy, Debug, PartialEq, Eq, Structural)]
pub enum PrefetchAction {
    /// Decode a frame and hand what the decoder gave to the worker.
    Decode,
    /// Offer the frame that did not fit to the buffer again.
    Store,
    /// Sleep for so many milliseconds, then ask again.
    Sleep(u64),
    /// Leave.
    Stop,
}

/// The state of the worker.
#[derive(Clone, Copy, Debug, PartialEq, Eq, Structural)]
pub struct PrefetchWorker {
    /// Frames decoded so far.
    pub frames_decoded: u64,
    /// Decode errors since the last frame.
    pub consecutive_errors: u32,
    /// The last decode failed, and the pause after it is still due.
    pub retry_pending: bool,
    /// The stream has ended, or the worker has given up.
    pub finished: bool,
}

impl PrefetchWorker {
    /// The worker counts no more errors in a row than make it give up, and
    /// has given up once it counts that many.
    pub open spec fn wf(self) -> bool {
        &&& self.consecutive_errors <= MAX_DECODE_ERRORS
        &&& self.consecutive_errors == MAX_DECODE_ERRORS ==> self.finished
    }

    /// The action for a worker in this state: it leaves when told to stop or
    /// when it is finished, pauses after an error, sleeps while the buffer is
    /// full, offers a frame that it holds back, and decodes otherwise.
    pub open spec fn action(self, stop_requested: bool, buffer_full: bool, holding: bool) -> PrefetchAction {
        if stop_requested || self.finished {
            PrefetchAction::Stop
        } else if self.retry_pending {
            PrefetchAction::Sleep(RETRY_SLEEP_MS)
        } else if buffer_full {
            PrefetchAction::Sleep(FULL_SLEEP_MS)
        } else if holding {
            PrefetchAction::Store
        } else {
            PrefetchAction::Decode
        }
    }

    /// The state after an action was handed out: a pause that was due is
    /// not due any more.
    pub open spec fn after_action(self, stop_requested: bool) -> PrefetchWorker {
        if stop_requested || self.finished {
            self
        } else {
            PrefetchWorker { retry_pending: false, ..self }
        }
    }

    /// The state after the decoder gave something: a frame is counted and
    /// ends a run of errors; the end of the stream finishes the worker; an
    /// error is counted, and the fifth in a row finishes the worker.
    pub open spec fn after_outcome(self, outcome: DecodeOutcome) -> PrefetchWorker {
        match outcome {
            DecodeOutcome::Frame => PrefetchWorker {
                frames_decoded: if self.frames_decoded < u64::MAX {
                    (self.frames_decoded + 1) as u64
                } else {
                    self.frames_decoded
                },
                consecutive_errors: 0,
                retry_pending: false,
                finished: self.finished,
            },
            DecodeOutcome::EndOfStream => PrefetchWorker { finished: true, ..self },
            DecodeOutcome::Error => {
                let errors = if self.consecutive_errors < MAX_DECODE_ERRORS {
                    (self.consecutive_errors + 1) as u32
                } else {
                    self.consecutive_errors
                };
                PrefetchWorker {
                    consecutive_errors: errors,
                    retry_pending: errors < MAX_DECODE_ERRORS,
                    finished: self.finished || errors >= MAX_DECODE_ERRORS,
                    ..self
                }
            },
        }
    }

    /// A worker that has decoded nothing yet.
    pub fn new() -> (out: PrefetchWorker)
        ensures
            out.wf(),
            out == (PrefetchWorker {
                frames_decoded: 0,
                consecutive_errors: 0,
                retry_pending: false,
                finished: false,
            }),
    {
        PrefetchWorker {
            frames_decoded: 0,
            consecutive_errors: 0,
            retry_pending: false,
            finished: false,
        }
    }

    /// What to do next. `stop_requested` is the stop flag of the buffer,
    /// `buffer_full` says whether the buffer would turn a frame away, and
    /// `holding` whether a frame that did not fit is held back.
    pub fn next_action(&mut self, stop_requested: bool, buffer_full: bool, holding: bool) -> (out:
        PrefetchAction)
        requires
            old(self).wf(),
        ensures
            final(self).wf(),
            out == old(self).action(stop_requested, buffer_full, holding),
            *final(self) == old(self).after_action(stop_requested),
    {
        if stop_requested || self.finished {
            PrefetchAction::Stop
        } else if self.retry_pending {
            self.retry_pending = false;
            PrefetchAction::Sleep(RETRY_SLEEP_MS)
        } else if buffer_full {
            PrefetchAction::Sleep(FULL_SLEEP_MS)
        } else if holding {
            PrefetchAction::Store
        } else {
            PrefetchAction::Decode
        }
    }

    /// Takes a frame that the decoder gave: the frame is counted and put
    /// into the buffer. A frame that the buffer turns away is handed back, to
    /// be held and offered again.
    pub fn accept(&mut self, buffer: &mut FrameBuffer, frame: VideoFrame) -> (left: Option<
        VideoFrame,
    >)
        requires
            old(self).wf(),
            old(buffer).wf(),
        ensures
            final(self).wf(),
            *final(self) == old(self).after_outcome(DecodeOutcome::Frame),
            final(buffer).wf(),
            left is None <==> before_add(old(buffer)@).len() < old(buffer)@.capacity,
            left is None ==> final(buffer)@ == (BufferView {
                frames: before_add(old(buffer)@).push(frame@),
                ..old(buffer)@
            }),
            left matches Some(back) ==> back == frame && final(buffer)@ == old(buffer)@,
    {
        self.record(DecodeOutcome::Frame);
        buffer.offer_frame(frame)
    }

    /// Takes note of what the decoder gave.
    pub fn record(&mut self, outcome: DecodeOutcome)
        requires
            old(self).wf(),
        ensures
            final(self).wf(),
            *final(self) == old(self).after_outcome(outcome),
    {
        match outcome {
            DecodeOutcome::Frame => {
                if self.frames_decoded < u64::MAX {
                    self.frames_decoded += 1;
                }
                self.consecutive_errors = 0;
                self.retry_pending = false;
            },
            DecodeOutcome::EndOfStream => {
                self.finished = true;
            },
            DecodeOutcome::Error => {
                if self.consecutive_errors < MAX_DECODE_ERRORS {
                    self.consecutive_errors += 1;
                }
                self.retry_pending = self.consecutive_errors < MAX_DECODE_ERRORS;
                if self.consecutive_errors >= MAX_DECODE_ERRORS {
                    self.finished = true;
                }
            },
        }
    }
}

/// The state after a run of outcomes.
pub open spec fn after_outcomes(worker: PrefetchWorker, outcomes: Seq<DecodeOutcome>) -> PrefetchWorker
    decreases outcomes.len(),
{
    if outcomes.len() == 0 {
        worker
    } else {
        after_outcomes(worker, outcomes.drop_last()).after_outcome(outcomes.last())
    }
}

/// The errors in a row at the end of a run of outcomes that is all errors.
proof fn lemma_errors_are_counted(worker: PrefetchWorker, outcomes: Seq<DecodeOutcome>)
    requires
        worker.wf(),
        forall|i: int| 0 <= i < outcomes.len() ==> outcomes[i] == DecodeOutcome::Error,
    ensures
        after_outcomes(worker, outcomes).wf(),
        after_outcomes(worker, outcomes).consecutive_errors == (if worker.consecutive_errors
            + outcomes.len() < MAX_DECODE_ERRORS {
            worker.consecutive_errors + outcomes.len()
        } else {
            MAX_DECODE_ERRORS as int
        }),
    decreases outcomes.len(),
{
    if outcomes.len() > 0 {
        lemma_errors_are_counted(worker, outcomes.drop_last());
    }
}

/// Five decode errors in a row make the worker give up: it is finished, and
/// whatever the buffer looks like, it leaves.
pub proof fn lemma_gives_up_after_errors(
    worker: PrefetchWorker,
    outcomes: Seq<DecodeOutcome>,
    buffer_full: bool,
)
    requires
        worker.wf(),
        outcomes.len() >= MAX_DECODE_ERRORS,
        forall|i: int| 0 <= i < outcomes.len() ==> outcomes[i] == DecodeOutcome::Error,
    ensures
        after_outcomes(worker, outcomes).finished,
        forall|holding: bool| #[trigger]
            after_outcomes(worker, outcomes).action(false, buffer_full, holding)
                == PrefetchAction::Stop,
{
    lemma_errors_are_counted(worker, outcomes);
}

/// A worker that is told to stop leaves at once, whatever its state.
pub proof fn lemma_stop_is_obeyed(worker: PrefetchWorker, buffer_full: bool, holding: bool)
    ensures
        worker.action(true, buffer_full, holding) == PrefetchAction::Stop,
{
}

/// While the buffer is full the worker neither decodes nor offers a frame:
/// it sleeps, or leaves, and asks again.
pub proof fn lemma_full_buffer_is_left_alone(
    worker: PrefetchWorker,
    stop_requested: bool,
    holding: bool,
)
    ensures
        worker.action(stop_requested, true, holding) != PrefetchAction::Decode,
        worker.action(stop_requested, true, holding) != PrefetchAction::Store,
{
}

/// A worker that goes on and finds room in the buffer first offers the frame
/// that it holds back, and decodes the next one only when it holds none.
pub proof fn lemma_held_frame_goes_first(worker: PrefetchWorker)
    requires
        !worker.finished,
        !worker.retry_pending,
    ensures
        worker.action(false, false, true) == PrefetchAction::Store,
        worker.action(false, false, false) == PrefetchAction::Decode,
{
}

} // verus!
