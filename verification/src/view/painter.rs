//! Handing a recorded frame to the terminal backend.
//!
//! The backend performs one request at a time and may fail at any of them.
//! A painter decides, from how the last request fared, whether there is a
//! next one: the first failure ends the frame, and what the frame still held
//! (its commit, above all) is never handed out.

use super::call::DrawCall;
use crate::errors::RenderError;
use vstd::prelude::*;

verus! {

/// The progress of painting one frame.
#[derive(Clone, Copy, Debug, PartialEq, Eq, Structural)]
pub struct Painter {
    handed: usize,
    failed: bool,
}

/// The mathematical value of a painter: how many requests it has handed out,
/// and whether the backend has failed at one of them.
pub struct PainterView {
    pub handed: nat,
    pub failed: bool,
}

impl PainterView {
    /// A painter that has handed out nothing.
    pub open spec fn start() -> PainterView {
        PainterView { handed: 0, failed: false }
    }

    /// Whether the painter hands out nothing more, for a frame of `len`
    /// requests, once it learns how the last request fared.
    pub open spec fn stops(self, len: nat, last_ok: bool) -> bool {
        self.failed || (self.handed > 0 && !last_ok) || self.handed >= len
    }

    /// The painter after it has learnt how the last request fared and has
    /// handed out the next one, if there is a next one. The outcome is of no
    /// account while nothing has been handed out.
    pub open spec fn step(self, len: nat, last_ok: bool) -> PainterView {
        if self.failed || (self.handed > 0 && !last_ok) {
            PainterView { handed: self.handed, failed: true }
        } else if self.handed >= len {
            self
        } else {
            PainterView { handed: self.handed + 1, failed: false }
        }
    }

    /// The painter of a frame of `len` requests after its first step and one
    /// more step for each of the outcomes, in order.
    pub open spec fn run(len: nat, outcomes: Seq<bool>) -> PainterView
        decreases outcomes.len(),
    {
        if outcomes.len() == 0 {
            PainterView::start().step(len, true)
        } else {
            PainterView::run(len, outcomes.drop_last()).step(len, outcomes.last())
        }
    }
}

impl View for Painter {
    type V = PainterView;

    closed spec fn view(&self) -> PainterView {
        PainterView { handed: self.handed as nat, failed: self.failed }
    }
}

impl Painter {
    /// A painter that has handed out nothing.
    pub fn new() -> (painter: Painter)
        ensures
            painter@ == PainterView::start(),
    {
        Painter { handed: 0, failed: false }
    }

    /// Takes the outcome of the request handed out last and hands out the
    /// next request of the frame, if the painting goes on. It does not when
    /// the backend has failed, now or earlier, or when the frame is through.
    pub fn step<'a>(
        &mut self,
        calls: &'a Vec<DrawCall>,
        last: &Result<(), RenderError>,
    ) -> (next: Option<&'a DrawCall>)
        ensures
            final(self)@ == old(self)@.step(calls@.len(), last is Ok),
            next is None <==> old(self)@.stops(calls@.len(), last is Ok),
            next matches Some(call) ==> *call == calls@[old(self)@.handed as int],
    {
        if self.failed {
            return None;
        }
        if self.handed > 0 && last.is_err() {
            self.failed = true;
            return None;
        }
        if self.handed >= calls.len() {
            return None;
        }
        let call = &calls[self.handed];
        self.handed = self.handed + 1;
        Some(call)
    }

    /// The number of requests handed out so far.
    pub fn handed(&self) -> (handed: usize)
        ensures
            handed == self@.handed,
    {
        self.handed
    }

    /// How the painting went: an error if the backend failed at a request
    /// whose outcome this painter was given.
    pub fn result(&self) -> (result: Result<(), RenderError>)
        ensures
            result is Err <==> self@.failed,
    {
        if self.failed {
            Err(RenderError {})
        } else {
            Ok(())
        }
    }
}

/// While the backend has not failed, the painter has handed out one request
/// more than it has outcomes, or the whole frame.
pub proof fn lemma_painter_progress(len: nat, outcomes: Seq<bool>)
    ensures
        PainterView::run(len, outcomes).handed <= len,
        PainterView::run(len, outcomes).handed <= outcomes.len() + 1,
        !PainterView::run(len, outcomes).failed ==> PainterView::run(len, outcomes).handed == (
            if len <= outcomes.len() {
                len
            } else {
                outcomes.len() + 1
            }
        ),
        (forall|i: int| 0 <= i < outcomes.len() ==> outcomes[i]) ==> !PainterView::run(
            len,
            outcomes,
        ).failed,
    decreases outcomes.len(),
{
    if outcomes.len() > 0 {
        let earlier = outcomes.drop_last();
        lemma_painter_progress(len, earlier);
        if forall|i: int| 0 <= i < outcomes.len() ==> outcomes[i] {
            assert forall|i: int| 0 <= i < earlier.len() implies earlier[i] by {
                assert(earlier[i] == outcomes[i]);
            }
            assert(outcomes.last());
        }
    }
}

/// Once the backend has failed at request `k`, no request after it is ever
/// handed out, whatever is reported later: the commit, which ends a frame,
/// reaches the backend only if every request before it succeeded.
pub proof fn lemma_painter_stops_at_failure(len: nat, outcomes: Seq<bool>, k: int)
    requires
        0 <= k < outcomes.len(),
        !outcomes[k],
    ensures
        PainterView::run(len, outcomes).handed <= k + 1,
        k < len ==> PainterView::run(len, outcomes).failed,
    decreases outcomes.len(),
{
    let earlier = outcomes.drop_last();
    lemma_painter_progress(len, earlier);
    if k < outcomes.len() - 1 {
        assert(earlier[k] == outcomes[k]);
        lemma_painter_stops_at_failure(len, earlier, k);
    }
}

} // verus!
