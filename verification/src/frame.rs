//! The protocol of one frame: begin, acquire a target (with one retry), record
//! passes, submit and present.
//!
//! The device work is the caller's. Each function here takes what happened,
//! moves the cycle to its next state and answers with what to do next.

use vstd::prelude::*;
use crate::context::SurfaceError;

verus! {

/// Where the cycle stands.
///
/// `Idle`, `AcquireFailed` and `Submitted` are states of rest: no frame is in
/// flight, and the last two record how the previous frame ended.
#[derive(Clone, Copy, Debug, PartialEq, Eq, Structural)]
pub enum FrameState {
    /// No frame was begun yet, or the last one was discarded.
    Idle,
    /// A target was asked for; `retried` tells whether this is the second try.
    Acquiring { retried: bool },
    /// A target is held and nothing was recorded yet.
    Ready,
    /// The last frame was skipped for want of a target.
    AcquireFailed,
    /// Passes were recorded for the target that is held.
    Composing,
    /// The last frame was submitted and presented.
    Submitted,
}

impl FrameState {
    /// No frame is in flight.
    pub open spec fn at_rest(&self) -> bool {
        *self == FrameState::Idle || *self == FrameState::AcquireFailed || *self
            == FrameState::Submitted
    }

    /// A target is held, so a frame context is alive.
    pub open spec fn holds_target(&self) -> bool {
        *self == FrameState::Ready || *self == FrameState::Composing
    }

    /// Whether no frame is in flight.
    pub fn is_at_rest(&self) -> (rest: bool)
        ensures
            rest == self.at_rest(),
    {
        match self {
            FrameState::Idle => true,
            FrameState::AcquireFailed => true,
            FrameState::Submitted => true,
            _ => false,
        }
    }
}

/// What can happen to the cycle.
#[derive(Clone, Copy, Debug, PartialEq, Eq, Structural)]
pub enum FrameEvent {
    /// A redraw was requested.
    Begin,
    /// The surface answered a request for a target: with one (`None`) or with
    /// an error.
    Acquired(Option<SurfaceError>),
    /// The passes of the frame are about to be recorded.
    Compose,
    /// The frame is handed in for submission.
    End,
    /// The frame is given up without submission.
    Discard,
}

/// What the caller does after an event.
#[derive(Clone, Copy, Debug, PartialEq, Eq, Structural)]
pub enum FrameAction {
    /// Nothing: the event does not fit the state, which stays.
    Refuse,
    /// Ask the surface for the next target.
    Acquire,
    /// Configure the surface again with the configuration in force, then ask
    /// once more.
    Reconfigure,
    /// Create the command encoder for the target.
    Encode,
    /// Record the passes.
    Record,
    /// Skip the frame: nothing is encoded, submitted or presented.
    Skip,
    /// Submit the recorded commands once and present the target once.
    SubmitAndPresent,
    /// Release the target unpresented.
    Release,
}

/// The cycle's transition function: the state after `event` and the action it
/// asks for.
pub open spec fn step(state: FrameState, event: FrameEvent) -> (FrameState, FrameAction) {
    match event {
        FrameEvent::Begin => if state.at_rest() {
            (FrameState::Acquiring { retried: false }, FrameAction::Acquire)
        } else {
            (state, FrameAction::Refuse)
        },
        FrameEvent::Acquired(failure) => match state {
            FrameState::Acquiring { retried } => match failure {
                None => (FrameState::Ready, FrameAction::Encode),
                Some(error) => if !retried && error.is_transient() {
                    (FrameState::Acquiring { retried: true }, FrameAction::Reconfigure)
                } else {
                    (FrameState::AcquireFailed, FrameAction::Skip)
                },
            },
            _ => (state, FrameAction::Refuse),
        },
        FrameEvent::Compose => if state == FrameState::Ready {
            (FrameState::Composing, FrameAction::Record)
        } else {
            (state, FrameAction::Refuse)
        },
        FrameEvent::End => if state.holds_target() {
            (FrameState::Submitted, FrameAction::SubmitAndPresent)
        } else {
            (state, FrameAction::Refuse)
        },
        FrameEvent::Discard => if state.holds_target() {
            (FrameState::Idle, FrameAction::Release)
        } else {
            (state, FrameAction::Refuse)
        },
    }
}

/// The time between two frames: from `last` to `now`, zero where the clock
/// went back, and `previous` where there was no frame before.
pub open spec fn elapsed(last: Option<u64>, now: u64, previous: u64) -> u64 {
    match last {
        Some(then) => if now >= then {
            (now - then) as u64
        } else {
            0
        },
        None => previous,
    }
}

/// What is done to the queue and the surface at the end of a frame.
#[derive(Clone, Copy, Debug, PartialEq, Eq, Structural)]
pub enum QueueOp {
    /// Submit the frame's command buffer.
    Submit,
    /// Present the frame's target.
    Present,
    /// Trim the glyph atlas.
    TrimAtlas,
}

/// The operations that end a frame, in order.
pub open spec fn end_ops() -> Seq<QueueOp> {
    seq![QueueOp::Submit, QueueOp::Present, QueueOp::TrimAtlas]
}

/// How often `op` stands in `ops`.
pub open spec fn count_op(ops: Seq<QueueOp>, op: QueueOp) -> nat
    decreases ops.len(),
{
    if ops.len() == 0 {
        0
    } else {
        count_op(ops.drop_last(), op) + if ops.last() == op {
            1nat
        } else {
            0nat
        }
    }
}

/// The one frame in flight: the target that was acquired for it and the time
/// since the frame before. It cannot be copied, and ending or discarding the
/// frame uses it up.
pub struct FrameContext<T> {
    target: T,
    delta_time: u64,
}

impl<T> FrameContext<T> {
    /// The acquired target.
    pub closed spec fn target(&self) -> T {
        self.target
    }

    /// Nanoseconds since the previous frame began.
    pub closed spec fn delta_time(&self) -> u64 {
        self.delta_time
    }

    /// The acquired target.
    pub fn get_target(&self) -> (target: &T)
        ensures
            *target == self.target(),
    {
        &self.target
    }

    /// Nanoseconds since the previous frame began.
    pub fn get_delta_time(&self) -> (delta: u64)
        ensures
            delta == self.delta_time(),
    {
        self.delta_time
    }
}

/// The answer to a reported acquisition.
pub enum AcquireStep<T> {
    /// The frame can be recorded into this context.
    Ready(FrameContext<T>),
    /// Configure the surface again and report the next acquisition.
    Retry,
    /// No frame this time.
    Skip,
}

impl<T> AcquireStep<T> {
    /// The action that the answer stands for. `Skip` also answers a report
    /// that nothing asked for.
    pub open spec fn action(&self) -> FrameAction {
        match self {
            AcquireStep::Ready(_) => FrameAction::Encode,
            AcquireStep::Retry => FrameAction::Reconfigure,
            AcquireStep::Skip => FrameAction::Skip,
        }
    }
}

/// The failure in a reported acquisition, if any.
pub open spec fn failure_of<T>(outcome: Result<T, SurfaceError>) -> Option<SurfaceError> {
    match outcome {
        Ok(_) => None,
        Err(error) => Some(error),
    }
}

/// The frame cycle with its clock.
pub struct FrameCycle {
    state: FrameState,
    last_frame_time: Option<u64>,
    delta_time: u64,
}

impl FrameCycle {
    /// Where the cycle stands.
    pub closed spec fn state(&self) -> FrameState {
        self.state
    }

    /// When the last frame began, in nanoseconds of the caller's clock.
    pub closed spec fn last_frame_time(&self) -> Option<u64> {
        self.last_frame_time
    }

    /// Nanoseconds between the beginnings of the last two frames.
    pub closed spec fn delta_time(&self) -> u64 {
        self.delta_time
    }

    /// A cycle in which no frame was begun.
    pub fn new() -> (cycle: FrameCycle)
        ensures
            cycle.state() == FrameState::Idle,
            cycle.last_frame_time() == None::<u64>,
            cycle.delta_time() == 0,
    {
        FrameCycle { state: FrameState::Idle, last_frame_time: None, delta_time: 0 }
    }

    /// Where the cycle stands.
    pub fn get_state(&self) -> (state: FrameState)
        ensures
            state == self.state(),
    {
        self.state
    }

    /// Nanoseconds between the beginnings of the last two frames.
    pub fn get_delta_time(&self) -> (delta: u64)
        ensures
            delta == self.delta_time(),
    {
        self.delta_time
    }

    /// Begins a frame at time `now`, unless one is in flight. The clock is
    /// read once here, for all passes of the frame.
    pub fn begin(&mut self, now: u64) -> (action: FrameAction)
        ensures
            (final(self).state(), action) == step(old(self).state(), FrameEvent::Begin),
            action == FrameAction::Acquire ==> final(self).last_frame_time() == Some(now)
                && final(self).delta_time() == elapsed(
                old(self).last_frame_time(),
                now,
                old(self).delta_time(),
            ),
            action != FrameAction::Acquire ==> *final(self) == *old(self),
    {
        if !self.state.is_at_rest() {
            return FrameAction::Refuse;
        }
        match self.last_frame_time {
            Some(then) => {
                self.delta_time = if now >= then {
                    now - then
                } else {
                    0
                };
            },
            None => {},
        }
        self.last_frame_time = Some(now);
        self.state = FrameState::Acquiring { retried: false };
        FrameAction::Acquire
    }

    /// Takes the surface's answer to a request for a target.
    ///
    /// A target makes the frame ready. A stale or lost surface is retried
    /// once, after a reconfiguration; any other error, and any error of the
    /// second try, skips the frame. A report that no request stands behind is
    /// answered with `Skip` and changes nothing.
    pub fn acquired<T>(&mut self, outcome: Result<T, SurfaceError>) -> (next: AcquireStep<T>)
        ensures
            final(self).state() == step(
                old(self).state(),
                FrameEvent::Acquired(failure_of(outcome)),
            ).0,
            old(self).state() is Acquiring ==> next.action() == step(
                old(self).state(),
                FrameEvent::Acquired(failure_of(outcome)),
            ).1,
            !(old(self).state() is Acquiring) ==> next is Skip && *final(self) == *old(self),
            next matches AcquireStep::Ready(context) ==> outcome == Ok::<T, SurfaceError>(
                context.target(),
            ) && context.delta_time() == old(self).delta_time(),
            final(self).last_frame_time() == old(self).last_frame_time(),
            final(self).delta_time() == old(self).delta_time(),
    {
        let retried = match self.state {
            FrameState::Acquiring { retried } => retried,
            _ => {
                return AcquireStep::Skip;
            },
        };
        match outcome {
            Ok(target) => {
                self.state = FrameState::Ready;
                AcquireStep::Ready(FrameContext { target, delta_time: self.delta_time })
            },
            Err(error) => {
                if !retried && error.transient() {
                    self.state = FrameState::Acquiring { retried: true };
                    AcquireStep::Retry
                } else {
                    self.state = FrameState::AcquireFailed;
                    AcquireStep::Skip
                }
            },
        }
    }

    /// Marks that the passes of the frame are being recorded.
    pub fn compose(&mut self) -> (action: FrameAction)
        ensures
            (final(self).state(), action) == step(old(self).state(), FrameEvent::Compose),
            action == FrameAction::Refuse ==> *final(self) == *old(self),
            final(self).last_frame_time() == old(self).last_frame_time(),
            final(self).delta_time() == old(self).delta_time(),
    {
        match self.state {
            FrameState::Ready => {
                self.state = FrameState::Composing;
                FrameAction::Record
            },
            _ => FrameAction::Refuse,
        }
    }

    /// Ends the frame: hands the target back together with the operations
    /// that finish it, each exactly once. Where no target is held the context
    /// is stale: it is dropped and nothing is to be done.
    pub fn end<T>(&mut self, context: FrameContext<T>) -> (finished: Option<(T, Vec<QueueOp>)>)
        ensures
            final(self).state() == step(old(self).state(), FrameEvent::End).0,
            finished is Some <==> old(self).state().holds_target(),
            finished matches Some(pair) ==> pair.0 == context.target() && pair.1@ == end_ops(),
            finished is None ==> *final(self) == *old(self),
            final(self).last_frame_time() == old(self).last_frame_time(),
            final(self).delta_time() == old(self).delta_time(),
    {
        match self.state {
            FrameState::Ready | FrameState::Composing => {
                self.state = FrameState::Submitted;
                let mut ops: Vec<QueueOp> = Vec::new();
                ops.push(QueueOp::Submit);
                ops.push(QueueOp::Present);
                ops.push(QueueOp::TrimAtlas);
                assert(ops@ =~= end_ops());
                Some((context.target, ops))
            },
            _ => None,
        }
    }

    /// Gives the frame up: hands the target back for release and returns to
    /// `Idle`. Where no target is held the context is stale and dropped.
    pub fn discard<T>(&mut self, context: FrameContext<T>) -> (released: Option<T>)
        ensures
            final(self).state() == step(old(self).state(), FrameEvent::Discard).0,
            released is Some <==> old(self).state().holds_target(),
            released matches Some(target) ==> target == context.target(),
            released is None ==> *final(self) == *old(self),
            final(self).last_frame_time() == old(self).last_frame_time(),
            final(self).delta_time() == old(self).delta_time(),
    {
        match self.state {
            FrameState::Ready | FrameState::Composing => {
                self.state = FrameState::Idle;
                Some(context.target)
            },
            _ => None,
        }
    }
}

/// A frame that is begun at rest, gets its target at the first try and is
/// ended at once is submitted: the cycle asks for the target, then for the
/// encoder, then for one submission and one presentation, and is at rest
/// again.
pub proof fn lemma_begin_end_submits_once(state: FrameState)
    requires
        state.at_rest(),
    ensures
        ({
            let begun = step(state, FrameEvent::Begin);
            let acquired = step(begun.0, FrameEvent::Acquired(None));
            let ended = step(acquired.0, FrameEvent::End);
            &&& begun.1 == FrameAction::Acquire
            &&& acquired == (FrameState::Ready, FrameAction::Encode)
            &&& ended == (FrameState::Submitted, FrameAction::SubmitAndPresent)
            &&& ended.0.at_rest()
        }),
        count_op(end_ops(), QueueOp::Submit) == 1,
        count_op(end_ops(), QueueOp::Present) == 1,
{
    lemma_end_ops_counts();
}

/// The operations that end a frame hold each operation once.
pub proof fn lemma_end_ops_counts()
    ensures
        count_op(end_ops(), QueueOp::Submit) == 1,
        count_op(end_ops(), QueueOp::Present) == 1,
        count_op(end_ops(), QueueOp::TrimAtlas) == 1,
{
    let three = end_ops();
    let two = seq![QueueOp::Submit, QueueOp::Present];
    let one = seq![QueueOp::Submit];
    let none = Seq::<QueueOp>::empty();
    assert(three.drop_last() =~= two);
    assert(two.drop_last() =~= one);
    assert(one.drop_last() =~= none);
    assert(count_op(none, QueueOp::Submit) == 0);
    assert(count_op(none, QueueOp::Present) == 0);
    assert(count_op(none, QueueOp::TrimAtlas) == 0);
    assert(count_op(one, QueueOp::Submit) == 1);
    assert(count_op(one, QueueOp::Present) == 0);
    assert(count_op(one, QueueOp::TrimAtlas) == 0);
    assert(count_op(two, QueueOp::Submit) == 1);
    assert(count_op(two, QueueOp::Present) == 1);
    assert(count_op(two, QueueOp::TrimAtlas) == 0);
}

/// A frame whose acquisition fails and, where it is tried again, fails
/// again is skipped: the cycle never asks for an encoder, retries at most
/// once and only a stale or lost surface, and ends at rest in
/// `AcquireFailed`.
pub proof fn lemma_failed_acquisition_skips(
    state: FrameState,
    first: SurfaceError,
    second: SurfaceError,
)
    requires
        state.at_rest(),
    ensures
        ({
            let begun = step(state, FrameEvent::Begin);
            let once = step(begun.0, FrameEvent::Acquired(Some(first)));
            let twice = step(once.0, FrameEvent::Acquired(Some(second)));
            &&& begun.1 == FrameAction::Acquire
            &&& once.1 != FrameAction::Encode
            &&& first.is_transient() ==> once.1 == FrameAction::Reconfigure && twice == (
                FrameState::AcquireFailed,
                FrameAction::Skip,
            )
            &&& !first.is_transient() ==> once == (FrameState::AcquireFailed, FrameAction::Skip)
        }),
{
}

/// While a frame is in flight no other can be begun: the cycle refuses and
/// stays where it is.
pub proof fn lemma_one_frame_at_a_time(state: FrameState)
    requires
        !state.at_rest(),
    ensures
        step(state, FrameEvent::Begin) == (state, FrameAction::Refuse),
{
}

} // verus!
