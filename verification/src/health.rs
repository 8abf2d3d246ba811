//! Which protocols have failed in this process, and which method rendered
//! last. A protocol that failed once is never tried again.

use vstd::prelude::*;
use crate::config::RenderMethod;

verus! {

/// What is known of the protocols.
pub struct HealthView {
    pub kitty_failed: bool,
    pub iterm_failed: bool,
    pub sixel_failed: bool,
    pub last_method: Option<RenderMethod>,
}

impl HealthView {
    /// Whether a method has failed. Blocks never count as failed.
    pub open spec fn has_failed(self, method: RenderMethod) -> bool {
        match method {
            RenderMethod::Kitty => self.kitty_failed,
            RenderMethod::ITerm => self.iterm_failed,
            RenderMethod::Sixel => self.sixel_failed,
            _ => false,
        }
    }

    /// Whether any protocol has failed.
    pub open spec fn any_failed(self) -> bool {
        self.kitty_failed || self.iterm_failed || self.sixel_failed
    }

    /// Once a protocol has failed, blocks are the method that rendered last,
    /// and the method that rendered last is never the automatic one.
    pub open spec fn well_formed(self) -> bool {
        &&& self.any_failed() ==> self.last_method == Some(RenderMethod::Blocks)
        &&& self.last_method != Some(RenderMethod::Auto)
    }

    /// The method for the next frame of a renderer whose own method is
    /// `effective`: blocks if that method has failed, else the method that
    /// rendered last, else `effective`.
    pub open spec fn select(self, effective: RenderMethod) -> RenderMethod {
        if self.has_failed(effective) {
            RenderMethod::Blocks
        } else {
            match self.last_method {
                Some(method) => method,
                None => effective,
            }
        }
    }

    /// After `method` failed: it is marked, and blocks rendered last.
    pub open spec fn after_failure(self, method: RenderMethod) -> HealthView {
        HealthView {
            kitty_failed: self.kitty_failed || method == RenderMethod::Kitty,
            iterm_failed: self.iterm_failed || method == RenderMethod::ITerm,
            sixel_failed: self.sixel_failed || method == RenderMethod::Sixel,
            last_method: Some(RenderMethod::Blocks),
        }
    }

    /// After `method` rendered a frame: it rendered last, unless a protocol
    /// has failed before; then blocks stay. The automatic method renders as
    /// blocks.
    pub open spec fn after_success(self, method: RenderMethod) -> HealthView {
        HealthView {
            last_method: if self.any_failed() || method == RenderMethod::Auto {
                Some(RenderMethod::Blocks)
            } else {
                Some(method)
            },
            ..self
        }
    }
}

/// One thing that happens to the shared state.
pub enum HealthEvent {
    /// A method rendered a frame.
    Success(RenderMethod),
    /// A method failed.
    Failure(RenderMethod),
}

/// The state after an event.
pub open spec fn after_event(state: HealthView, event: HealthEvent) -> HealthView {
    match event {
        HealthEvent::Success(method) => state.after_success(method),
        HealthEvent::Failure(method) => state.after_failure(method),
    }
}

/// The state after a run of events.
pub open spec fn after_events(state: HealthView, events: Seq<HealthEvent>) -> HealthView
    decreases events.len(),
{
    if events.len() == 0 {
        state
    } else {
        after_event(after_events(state, events.drop_last()), events.last())
    }
}

/// Blocks are the fallback: they are selected for every renderer once any
/// protocol has failed.
pub proof fn lemma_failure_selects_blocks(state: HealthView, effective: RenderMethod)
    requires
        state.well_formed(),
        state.any_failed(),
    ensures
        state.select(effective) == RenderMethod::Blocks,
{
}

/// After a protocol has failed once, whatever happens afterwards, it stays
/// marked, and every renderer that shares the state is given blocks: the
/// failed protocol is never selected again.
pub proof fn lemma_failed_protocol_is_never_retried(
    state: HealthView,
    failed: RenderMethod,
    later: Seq<HealthEvent>,
    effective: RenderMethod,
)
    requires
        state.well_formed(),
        failed == RenderMethod::Kitty || failed == RenderMethod::ITerm || failed
            == RenderMethod::Sixel,
    ensures
        after_events(state.after_failure(failed), later).well_formed(),
        after_events(state.after_failure(failed), later).has_failed(failed),
        after_events(state.after_failure(failed), later).select(effective) == RenderMethod::Blocks,
    decreases later.len(),
{
    if later.len() > 0 {
        lemma_failed_protocol_is_never_retried(state, failed, later.drop_last(), effective);
    }
}

/// The state of the protocols that the renderers of a process share.
#[derive(Debug)]
pub struct ProtocolHealth {
    kitty_failed: bool,
    iterm_failed: bool,
    sixel_failed: bool,
    last_method: Option<RenderMethod>,
}

impl View for ProtocolHealth {
    type V = HealthView;

    closed spec fn view(&self) -> HealthView {
        HealthView {
            kitty_failed: self.kitty_failed,
            iterm_failed: self.iterm_failed,
            sixel_failed: self.sixel_failed,
            last_method: self.last_method,
        }
    }
}

impl ProtocolHealth {
    /// Once a protocol has failed, blocks are the method that rendered last.
    pub open spec fn wf(&self) -> bool {
        self@.well_formed()
    }

    /// No protocol has failed, and nothing has rendered yet.
    pub fn new() -> (out: ProtocolHealth)
        ensures
            out.wf(),
            out@ == (HealthView {
                kitty_failed: false,
                iterm_failed: false,
                sixel_failed: false,
                last_method: None,
            }),
    {
        ProtocolHealth {
            kitty_failed: false,
            iterm_failed: false,
            sixel_failed: false,
            last_method: None,
        }
    }

    /// Whether a method has failed.
    pub fn has_failed(&self, method: RenderMethod) -> (out: bool)
        ensures
            out == self@.has_failed(method),
    {
        match method {
            RenderMethod::Kitty => self.kitty_failed,
            RenderMethod::ITerm => self.iterm_failed,
            RenderMethod::Sixel => self.sixel_failed,
            _ => false,
        }
    }

    /// The method that rendered last.
    pub fn last_method(&self) -> (out: Option<RenderMethod>)
        ensures
            out == self@.last_method,
    {
        self.last_method
    }

    /// The method for the next frame of a renderer whose own method is
    /// `effective`.
    pub fn select_method(&self, effective: RenderMethod) -> (out: RenderMethod)
        requires
            self.wf(),
        ensures
            out == self@.select(effective),
            self@.any_failed() ==> out == RenderMethod::Blocks,
            !self@.has_failed(out),
            effective != RenderMethod::Auto ==> out != RenderMethod::Auto,
    {
        if self.has_failed(effective) {
            RenderMethod::Blocks
        } else {
            match self.last_method {
                Some(method) => method,
                None => effective,
            }
        }
    }

    /// Notes that a method failed. The mark is never taken back.
    pub fn record_failure(&mut self, method: RenderMethod)
        requires
            old(self).wf(),
        ensures
            final(self).wf(),
            final(self)@ == old(self)@.after_failure(method),
            forall|m: RenderMethod| old(self)@.has_failed(m) ==> final(self)@.has_failed(m),
    {
        match method {
            RenderMethod::Kitty => {
                self.kitty_failed = true;
            },
            RenderMethod::ITerm => {
                self.iterm_failed = true;
            },
            RenderMethod::Sixel => {
                self.sixel_failed = true;
            },
            _ => {},
        }
        self.last_method = Some(RenderMethod::Blocks);
    }

    /// Notes that a method rendered a frame.
    pub fn record_success(&mut self, method: RenderMethod)
        requires
            old(self).wf(),
        ensures
            final(self).wf(),
            final(self)@ == old(self)@.after_success(method),
            forall|m: RenderMethod| old(self)@.has_failed(m) ==> final(self)@.has_failed(m),
    {
        let any_failed = self.kitty_failed || self.iterm_failed || self.sixel_failed;
        let is_auto = match method {
            RenderMethod::Auto => true,
            _ => false,
        };
        if any_failed || is_auto {
            self.last_method = Some(RenderMethod::Blocks);
        } else {
            self.last_method = Some(method);
        }
    }
}

} // verus!
