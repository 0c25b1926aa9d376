//! Supervision of one streaming engine run.
//!
//! The engine runs as a child process whose output is read in fixed-size
//! blocks and handed, block by block, to a caller-supplied sink.  The
//! blocking work — reading the pipe, invoking the sink, waiting on the
//! process — is the driver's; this module owns every decision.  The driver
//! feeds each observation in as a `StreamEvent` and performs the
//! `StreamAction` it gets back, so the whole protocol of a run is decided
//! and proved here: chunks go out in read order, and the process is reaped
//! exactly once on every path, success or failure, before a result is
//! reported.

use crate::errors::LlmError;
use vstd::prelude::*;

verus! {

/// One observation a driver hands back to the supervisor.
#[derive(Debug, Clone, PartialEq)]
pub enum StreamEvent {
    /// A block of engine output was read from the pipe.
    BlockRead(String),
    /// The engine's output pipe reached end of stream.
    Eof,
    /// The sink accepted the chunk last emitted.
    SinkAccepted,
    /// The sink refused the chunk last emitted.
    SinkRefused,
    /// The process was reaped; carries whether it exited successfully.
    Exited(bool),
}

/// The next thing the supervisor tells its driver to do.
#[derive(Debug, PartialEq)]
pub enum StreamAction {
    /// Read the next block from the engine's output pipe.
    ReadNext,
    /// Hand this chunk to the sink.
    Emit(String),
    /// Wait for the process to exit and hand back its status.
    Reap,
    /// The run is over; report this result to the caller.
    Finish(Result<(), LlmError>),
}

/// Where a streaming run stands.
#[derive(Debug, Clone, Copy, PartialEq, Eq, Structural)]
pub enum SupervisorState {
    /// Awaiting the next block of output.
    Reading,
    /// A chunk has been handed out; awaiting the sink's verdict.
    AwaitingSink,
    /// The stream is exhausted, or the sink refused a chunk; the driver
    /// has been told to reap and the exit status is awaited.
    AwaitingExit { sink_failed: bool },
    /// The run is over; no further event is admitted.
    Finished,
}

/// Whether `e` is an event a driver can hand the supervisor in state `s`.
pub open spec fn admits(s: SupervisorState, e: StreamEvent) -> bool {
    match (s, e) {
        (SupervisorState::Reading, StreamEvent::BlockRead(_)) => true,
        (SupervisorState::Reading, StreamEvent::Eof) => true,
        (SupervisorState::AwaitingSink, StreamEvent::SinkAccepted) => true,
        (SupervisorState::AwaitingSink, StreamEvent::SinkRefused) => true,
        (SupervisorState::AwaitingExit { .. }, StreamEvent::Exited(_)) => true,
        _ => false,
    }
}

/// The state a run moves to when `e` arrives in state `s`.
pub open spec fn next_state(s: SupervisorState, e: StreamEvent) -> SupervisorState {
    match (s, e) {
        (SupervisorState::Reading, StreamEvent::BlockRead(_)) => SupervisorState::AwaitingSink,
        (SupervisorState::Reading, StreamEvent::Eof) => SupervisorState::AwaitingExit {
            sink_failed: false,
        },
        (SupervisorState::AwaitingSink, StreamEvent::SinkAccepted) => SupervisorState::Reading,
        (SupervisorState::AwaitingSink, StreamEvent::SinkRefused) => SupervisorState::AwaitingExit {
            sink_failed: true,
        },
        (SupervisorState::AwaitingExit { .. }, StreamEvent::Exited(_)) => SupervisorState::Finished,
        (other, _) => other,
    }
}

/// The result a run reports when the process exits: a sink failure takes
/// precedence, then the exit status decides; partial output already
/// delivered is never retracted, so a non-success exit is reported even
/// after chunks went out.
pub open spec fn exit_result(sink_failed: bool, success: bool) -> Result<(), LlmError> {
    if sink_failed {
        Err(LlmError::SinkFailure)
    } else if success {
        Ok(())
    } else {
        Err(LlmError::EngineExitError)
    }
}

/// The action the driver is told to take when `e` arrives in state `s`.
pub open spec fn action_of(s: SupervisorState, e: StreamEvent) -> StreamAction {
    match (s, e) {
        (SupervisorState::Reading, StreamEvent::BlockRead(c)) => StreamAction::Emit(c),
        (SupervisorState::Reading, StreamEvent::Eof) => StreamAction::Reap,
        (SupervisorState::AwaitingSink, StreamEvent::SinkAccepted) => StreamAction::ReadNext,
        (SupervisorState::AwaitingSink, StreamEvent::SinkRefused) => StreamAction::Reap,
        (SupervisorState::AwaitingExit { sink_failed }, StreamEvent::Exited(ok)) =>
            StreamAction::Finish(exit_result(sink_failed, ok)),
        _ => StreamAction::ReadNext,
    }
}

/// The supervisor of one streaming run: holds the state of the run and
/// decides, event by event, what the driver does next.
pub struct StreamSupervisor {
    state: SupervisorState,
}

impl View for StreamSupervisor {
    type V = SupervisorState;

    closed spec fn view(&self) -> SupervisorState {
        self.state
    }
}

impl StreamSupervisor {
    /// A fresh supervisor for one engine run, awaiting the first block.
    pub fn new() -> (s: Self)
        ensures
            s@ == SupervisorState::Reading,
    {
        StreamSupervisor { state: SupervisorState::Reading }
    }

    /// Whether `event` may be handed to `step` in the current state.
    pub fn admits_event(&self, event: &StreamEvent) -> (r: bool)
        ensures
            r == admits(self@, *event),
    {
        match (self.state, event) {
            (SupervisorState::Reading, StreamEvent::BlockRead(_)) => true,
            (SupervisorState::Reading, StreamEvent::Eof) => true,
            (SupervisorState::AwaitingSink, StreamEvent::SinkAccepted) => true,
            (SupervisorState::AwaitingSink, StreamEvent::SinkRefused) => true,
            (SupervisorState::AwaitingExit { .. }, StreamEvent::Exited(_)) => true,
            _ => false,
        }
    }

    /// Advances the run by one event and returns the next action.
    pub fn step(&mut self, event: StreamEvent) -> (a: StreamAction)
        requires
            admits(old(self)@, event),
        ensures
            final(self)@ == next_state(old(self)@, event),
            a == action_of(old(self)@, event),
    {
        let s0 = self.state;
        match (s0, event) {
            (SupervisorState::Reading, StreamEvent::BlockRead(c)) => {
                self.state = SupervisorState::AwaitingSink;
                StreamAction::Emit(c)
            },
            (SupervisorState::Reading, StreamEvent::Eof) => {
                self.state = SupervisorState::AwaitingExit { sink_failed: false };
                StreamAction::Reap
            },
            (SupervisorState::AwaitingSink, StreamEvent::SinkAccepted) => {
                self.state = SupervisorState::Reading;
                StreamAction::ReadNext
            },
            (SupervisorState::AwaitingSink, StreamEvent::SinkRefused) => {
                self.state = SupervisorState::AwaitingExit { sink_failed: true };
                StreamAction::Reap
            },
            (SupervisorState::AwaitingExit { sink_failed }, StreamEvent::Exited(ok)) => {
                self.state = SupervisorState::Finished;
                if sink_failed {
                    StreamAction::Finish(Err(LlmError::SinkFailure))
                } else if ok {
                    StreamAction::Finish(Ok(()))
                } else {
                    StreamAction::Finish(Err(LlmError::EngineExitError))
                }
            },
            _ => vstd::pervasive::unreached(),
        }
    }
}

/// The state after driving `s0` through `events` in order.
pub open spec fn run_state(s0: SupervisorState, events: Seq<StreamEvent>) -> SupervisorState
    decreases events.len(),
{
    if events.len() == 0 {
        s0
    } else {
        run_state(next_state(s0, events[0]), events.drop_first())
    }
}

/// Every event of `events` is admitted in the state where it arrives.
pub open spec fn trace_admitted(s0: SupervisorState, events: Seq<StreamEvent>) -> bool
    decreases events.len(),
{
    events.len() == 0 || (admits(s0, events[0]) && trace_admitted(
        next_state(s0, events[0]),
        events.drop_first(),
    ))
}

/// The actions a driver is told to take along `events`, in order.
pub open spec fn actions_of(s0: SupervisorState, events: Seq<StreamEvent>) -> Seq<StreamAction>
    decreases events.len(),
{
    if events.len() == 0 {
        Seq::empty()
    } else {
        seq![action_of(s0, events[0])] + actions_of(next_state(s0, events[0]), events.drop_first())
    }
}

/// How many of `actions` reap the process.
pub open spec fn reap_count(actions: Seq<StreamAction>) -> int
    decreases actions.len(),
{
    if actions.len() == 0 {
        0
    } else {
        (if actions[0] is Reap {
            1int
        } else {
            0int
        }) + reap_count(actions.drop_first())
    }
}

/// How many reaps a state records as already ordered.
pub open spec fn reaps_recorded(s: SupervisorState) -> int {
    match s {
        SupervisorState::Reading => 0,
        SupervisorState::AwaitingSink => 0,
        SupervisorState::AwaitingExit { .. } => 1,
        SupervisorState::Finished => 1,
    }
}

proof fn lemma_reap_balance(s0: SupervisorState, events: Seq<StreamEvent>)
    requires
        trace_admitted(s0, events),
    ensures
        reap_count(actions_of(s0, events)) == reaps_recorded(run_state(s0, events))
            - reaps_recorded(s0),
    decreases events.len(),
{
    if events.len() > 0 {
        let s1 = next_state(s0, events[0]);
        lemma_reap_balance(s1, events.drop_first());
        assert((seq![action_of(s0, events[0])] + actions_of(s1, events.drop_first())).drop_first()
            =~= actions_of(s1, events.drop_first()));
    }
}

/// Law: a streaming run that is driven, one admitted event after another,
/// from its start to `Finished` orders exactly one reap of the engine
/// process — on the success path, on engine failure and on sink failure
/// alike.  No run leaves the child process un-reaped, and none reaps it
/// twice.
pub proof fn lemma_stream_reaps_exactly_once(events: Seq<StreamEvent>)
    requires
        trace_admitted(SupervisorState::Reading, events),
        run_state(SupervisorState::Reading, events) is Finished,
    ensures
        reap_count(actions_of(SupervisorState::Reading, events)) == 1,
{
    lemma_reap_balance(SupervisorState::Reading, events);
}

/// The contents of the blocks read along `events`, in arrival order.
pub open spec fn blocks_of(events: Seq<StreamEvent>) -> Seq<Seq<char>>
    decreases events.len(),
{
    if events.len() == 0 {
        Seq::empty()
    } else {
        let rest = blocks_of(events.drop_first());
        match events[0] {
            StreamEvent::BlockRead(c) => seq![c@] + rest,
            _ => rest,
        }
    }
}

/// The contents of the chunks emitted to the sink along `actions`, in
/// emission order.
pub open spec fn emits_of(actions: Seq<StreamAction>) -> Seq<Seq<char>>
    decreases actions.len(),
{
    if actions.len() == 0 {
        Seq::empty()
    } else {
        let rest = emits_of(actions.drop_first());
        match actions[0] {
            StreamAction::Emit(c) => seq![c@] + rest,
            _ => rest,
        }
    }
}

proof fn lemma_emits_blocks_from(s0: SupervisorState, events: Seq<StreamEvent>)
    requires
        trace_admitted(s0, events),
    ensures
        emits_of(actions_of(s0, events)) == blocks_of(events),
    decreases events.len(),
{
    if events.len() > 0 {
        let s1 = next_state(s0, events[0]);
        lemma_emits_blocks_from(s1, events.drop_first());
        assert((seq![action_of(s0, events[0])] + actions_of(s1, events.drop_first())).drop_first()
            =~= actions_of(s1, events.drop_first()));
        match events[0] {
            StreamEvent::BlockRead(c) => {
                assert(emits_of(actions_of(s0, events)) =~= seq![c@] + blocks_of(
                    events.drop_first(),
                ));
            },
            _ => {
                assert(emits_of(actions_of(s0, events)) =~= blocks_of(events.drop_first()));
            },
        }
    }
}

/// Law: along any admitted run, the chunks handed to the sink are exactly
/// the blocks read from the engine, in read order — no chunk is dropped,
/// re-emitted or reordered, and nothing is batched beyond the blocks as
/// they arrived.
pub proof fn lemma_stream_emits_blocks_in_order(events: Seq<StreamEvent>)
    requires
        trace_admitted(SupervisorState::Reading, events),
    ensures
        emits_of(actions_of(SupervisorState::Reading, events)) == blocks_of(events),
{
    lemma_emits_blocks_from(SupervisorState::Reading, events);
}

} // verus!
