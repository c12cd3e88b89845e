//! The loop that receives events from the agent, emits plans and passes events on.

use vstd::prelude::*;

use crate::event::SequenceMeta;
use crate::failure::Failure;
use crate::plan_emitter::{resumed_sequence, Emitter, SequenceFile};

verus! {

/// What the loop does next. `seq` is the number of the next event to be emitted.
#[derive(Debug, Clone, Copy, PartialEq, Eq, Structural)]
pub enum LoopState {
    /// Wait for an event or a signal.
    Waiting { seq: u64 },
    /// Emit the plan that was received.
    Emitting { seq: u64 },
    /// Record the number of the plan that was emitted.
    Recording { seq: u64 },
    /// Pass the event on. After the agent has shut down it is the last one.
    Forwarding { seq: u64, is_last: bool },
    /// Emit the shutdown.
    Announcing { seq: u64 },
    /// Tell the agent to abort.
    Interrupting { seq: u64 },
    Stopped { seq: u64 },
}

/// What happened.
#[derive(Debug, Clone, Copy, PartialEq, Eq, Structural)]
pub enum LoopEvent {
    /// The process was asked to end.
    Signal,
    /// The agent reported a plan.
    PlanUpdate,
    /// The agent has shut down.
    ShutdownComplete,
    /// The agent reported something else.
    OtherEvent,
    /// Nothing more can be received.
    ReceiveError,
    /// The plan was emitted, or not.
    Emitted(bool),
    /// The number was recorded, or not.
    Recorded(bool),
    /// The event was passed on, or nobody listens any more.
    Forwarded(bool),
    /// The shutdown was emitted, or not.
    Announced(bool),
    /// The agent was told to abort, or could not be.
    Interrupted(bool),
}

/// The number of the next event.
pub open spec fn sequence_of(state: LoopState) -> u64 {
    match state {
        LoopState::Waiting { seq } => seq,
        LoopState::Emitting { seq } => seq,
        LoopState::Recording { seq } => seq,
        LoopState::Forwarding { seq, .. } => seq,
        LoopState::Announcing { seq } => seq,
        LoopState::Interrupting { seq } => seq,
        LoopState::Stopped { seq } => seq,
    }
}

/// Whether this can happen in this state.
pub open spec fn can_happen(state: LoopState, event: LoopEvent) -> bool {
    match state {
        LoopState::Waiting { .. } => event is Signal || event is PlanUpdate || event
            is ShutdownComplete || event is OtherEvent || event is ReceiveError,
        LoopState::Emitting { .. } => event is Emitted,
        LoopState::Recording { .. } => event is Recorded,
        LoopState::Forwarding { .. } => event is Forwarded,
        LoopState::Announcing { .. } => event is Announced,
        LoopState::Interrupting { .. } => event is Interrupted,
        LoopState::Stopped { .. } => false,
    }
}

/// Whether the loop can go on after an event: it can happen, and where a number is used up there is
/// a next one.
pub open spec fn can_advance(state: LoopState, event: LoopEvent) -> bool {
    &&& can_happen(state, event)
    &&& state is Recording ==> sequence_of(state) < u64::MAX
}

/// What the loop does after an event. Only a plan that was emitted uses up its number; a number
/// that could not be recorded is used up all the same.
pub open spec fn next_loop_state(
    state: LoopState,
    has_emitter: bool,
    event: LoopEvent,
) -> LoopState {
    match (state, event) {
        (LoopState::Waiting { seq }, LoopEvent::Signal) => if has_emitter {
            LoopState::Announcing { seq }
        } else {
            LoopState::Interrupting { seq }
        },
        (LoopState::Waiting { seq }, LoopEvent::PlanUpdate) => if has_emitter {
            LoopState::Emitting { seq }
        } else {
            LoopState::Forwarding { seq, is_last: false }
        },
        (LoopState::Waiting { seq }, LoopEvent::ShutdownComplete) => LoopState::Forwarding {
            seq,
            is_last: true,
        },
        (LoopState::Waiting { seq }, LoopEvent::OtherEvent) => LoopState::Forwarding {
            seq,
            is_last: false,
        },
        (LoopState::Emitting { seq }, LoopEvent::Emitted(true)) => LoopState::Recording { seq },
        (LoopState::Emitting { seq }, LoopEvent::Emitted(false)) => LoopState::Forwarding {
            seq,
            is_last: false,
        },
        (LoopState::Recording { seq }, LoopEvent::Recorded(_)) => LoopState::Forwarding {
            seq: (seq + 1) as u64,
            is_last: false,
        },
        (LoopState::Forwarding { seq, is_last }, LoopEvent::Forwarded(passed)) => if passed
            && !is_last {
            LoopState::Waiting { seq }
        } else {
            LoopState::Stopped { seq }
        },
        (LoopState::Announcing { seq }, LoopEvent::Announced(_)) => LoopState::Interrupting { seq },
        (s, _) => LoopState::Stopped { seq: sequence_of(s) },
    }
}

/// Decides what the loop does after an event.
pub fn advance(state: LoopState, has_emitter: bool, event: LoopEvent) -> (r: LoopState)
    requires
        can_advance(state, event),
    ensures
        r == next_loop_state(state, has_emitter, event),
{
    match state {
        LoopState::Waiting { seq } => match event {
            LoopEvent::Signal => if has_emitter {
                LoopState::Announcing { seq }
            } else {
                LoopState::Interrupting { seq }
            },
            LoopEvent::PlanUpdate => if has_emitter {
                LoopState::Emitting { seq }
            } else {
                LoopState::Forwarding { seq, is_last: false }
            },
            LoopEvent::ShutdownComplete => LoopState::Forwarding { seq, is_last: true },
            LoopEvent::OtherEvent => LoopState::Forwarding { seq, is_last: false },
            _ => LoopState::Stopped { seq },
        },
        LoopState::Emitting { seq } => match event {
            LoopEvent::Emitted(true) => LoopState::Recording { seq },
            _ => LoopState::Forwarding { seq, is_last: false },
        },
        LoopState::Recording { seq } => LoopState::Forwarding { seq: seq + 1, is_last: false },
        LoopState::Forwarding { seq, is_last } => match event {
            LoopEvent::Forwarded(true) => if is_last {
                LoopState::Stopped { seq }
            } else {
                LoopState::Waiting { seq }
            },
            _ => LoopState::Stopped { seq },
        },
        LoopState::Announcing { seq } => LoopState::Interrupting { seq },
        LoopState::Interrupting { seq } => LoopState::Stopped { seq },
        LoopState::Stopped { seq } => LoopState::Stopped { seq },
    }
}

/// The state that a series of events leads to.
pub open spec fn state_after(
    start: LoopState,
    has_emitter: bool,
    events: Seq<LoopEvent>,
) -> LoopState
    decreases events.len(),
{
    if events.len() == 0 {
        start
    } else {
        next_loop_state(
            state_after(start, has_emitter, events.drop_last()),
            has_emitter,
            events.last(),
        )
    }
}

/// Whether the loop can go on after each of a series of events.
pub open spec fn is_history(
    start: LoopState,
    has_emitter: bool,
    events: Seq<LoopEvent>,
) -> bool
    decreases events.len(),
{
    events.len() > 0 ==> {
        &&& is_history(start, has_emitter, events.drop_last())
        &&& can_advance(state_after(start, has_emitter, events.drop_last()), events.last())
    }
}

/// The numbers under which plans were emitted in the course of a series of events.
pub open spec fn emitted_numbers(
    start: LoopState,
    has_emitter: bool,
    events: Seq<LoopEvent>,
) -> Seq<u64>
    decreases events.len(),
{
    if events.len() == 0 {
        Seq::empty()
    } else {
        let before = state_after(start, has_emitter, events.drop_last());
        let numbers = emitted_numbers(start, has_emitter, events.drop_last());
        if before is Emitting && events.last() == LoopEvent::Emitted(true) {
            numbers.push(sequence_of(before))
        } else {
            numbers
        }
    }
}

/// Receivers get contiguous numbers: whatever happens, the plans that are emitted bear the
/// numbers from the first one on, in order, without a gap and without a repetition; and the next
/// one will bear the number after the last. A plan that could not be emitted leaves no gap.
pub proof fn emitted_numbers_are_contiguous(
    first: u64,
    has_emitter: bool,
    events: Seq<LoopEvent>,
)
    requires
        is_history(LoopState::Waiting { seq: first }, has_emitter, events),
    ensures
        ({
            let start = LoopState::Waiting { seq: first };
            let numbers = emitted_numbers(start, has_emitter, events);
            let state = state_after(start, has_emitter, events);
            &&& forall|i: int| 0 <= i < numbers.len() ==> #[trigger] numbers[i] == first + i
            &&& numbers.len() <= events.len()
            &&& sequence_of(state) + (if state is Recording {
                1int
            } else {
                0
            }) == first + numbers.len()
            &&& state is Recording ==> numbers.len() > 0 && numbers.last() == sequence_of(state)
        }),
    decreases events.len(),
{
    if events.len() > 0 {
        emitted_numbers_are_contiguous(first, has_emitter, events.drop_last());
    }
}

/// The end of a run is reported under the number after those of its plans, which no plan of the run
/// bears.
pub proof fn final_numbers_are_fresh(first: u64, has_emitter: bool, events: Seq<LoopEvent>)
    requires
        is_history(LoopState::Waiting { seq: first }, has_emitter, events),
        state_after(LoopState::Waiting { seq: first }, has_emitter, events) is Announcing,
    ensures
        ({
            let start = LoopState::Waiting { seq: first };
            let numbers = emitted_numbers(start, has_emitter, events);
            let number = sequence_of(state_after(start, has_emitter, events));
            &&& number == first + numbers.len()
            &&& !numbers.contains(number)
        }),
{
    emitted_numbers_are_contiguous(first, has_emitter, events);
}

/// Without an emitter no plan is emitted and no number is used up.
pub proof fn no_emitter_no_numbers(first: u64, events: Seq<LoopEvent>)
    requires
        is_history(LoopState::Waiting { seq: first }, false, events),
    ensures
        emitted_numbers(LoopState::Waiting { seq: first }, false, events) == Seq::<u64>::empty(),
        sequence_of(state_after(LoopState::Waiting { seq: first }, false, events)) == first,
        !(state_after(LoopState::Waiting { seq: first }, false, events) is Emitting),
        !(state_after(LoopState::Waiting { seq: first }, false, events) is Recording),
    decreases events.len(),
{
    if events.len() > 0 {
        no_emitter_no_numbers(first, events.drop_last());
    }
}

/// A restart keeps the numbers contiguous: a run that finds the record of the last emitted plan
/// goes on with the number that the loop itself would have used next.
pub proof fn restart_goes_on_where_the_loop_was(
    c: Emitter,
    seq: u64,
    has_emitter: bool,
    recorded: bool,
)
    requires
        c.plan_state_path is Some,
        seq < u64::MAX,
    ensures
        resumed_sequence(c, SequenceFile::Record(SequenceMeta { last_seq: seq })) == Ok::<
            int,
            Failure,
        >(
            sequence_of(
                next_loop_state(
                    LoopState::Recording { seq },
                    has_emitter,
                    LoopEvent::Recorded(recorded),
                ),
            ) as int,
        ),
{
}

/// A plan that cannot be emitted does no harm: the loop goes on as after any other event, under
/// the same number.
pub proof fn failed_emissions_are_harmless(seq: u64, has_emitter: bool)
    ensures
        next_loop_state(LoopState::Emitting { seq }, has_emitter, LoopEvent::Emitted(false))
            == next_loop_state(LoopState::Waiting { seq }, has_emitter, LoopEvent::OtherEvent),
{
}

/// Once the process is asked to end, the loop stops whatever comes back, and has told the agent
/// to abort by then.
pub proof fn signals_end_the_loop(seq: u64, has_emitter: bool, announced: bool, interrupted: bool)
    ensures
        ({
            let first = next_loop_state(LoopState::Waiting { seq }, has_emitter, LoopEvent::Signal);
            let second = if has_emitter {
                next_loop_state(first, has_emitter, LoopEvent::Announced(announced))
            } else {
                first
            };
            &&& second == (LoopState::Interrupting { seq })
            &&& next_loop_state(second, has_emitter, LoopEvent::Interrupted(interrupted)) == (
            LoopState::Stopped { seq })
        }),
{
}

/// The loop goes on: with or without an emitter, an event of the agent that is not its shutdown
/// and is passed on leads back to waiting, under the same number.
pub proof fn passed_events_lead_back_to_waiting(seq: u64, has_emitter: bool)
    ensures
        ({
            let other = next_loop_state(
                LoopState::Waiting { seq },
                has_emitter,
                LoopEvent::OtherEvent,
            );
            let plan = next_loop_state(
                LoopState::Waiting { seq },
                false,
                LoopEvent::PlanUpdate,
            );
            &&& next_loop_state(other, has_emitter, LoopEvent::Forwarded(true)) == (
            LoopState::Waiting { seq })
            &&& next_loop_state(plan, false, LoopEvent::Forwarded(true)) == (LoopState::Waiting { seq })
        }),
        next_loop_state(
            LoopState::Forwarding { seq, is_last: false },
            has_emitter,
            LoopEvent::Forwarded(true),
        ) == (LoopState::Waiting { seq }),
{
}

/// A plan that is emitted uses up its number, whether or not that is recorded, and is passed on
/// like any event; one that is not keeps it.
pub proof fn emitted_plans_use_up_their_number(seq: u64, recorded: bool)
    requires
        seq < u64::MAX,
    ensures
        ({
            let emitting = next_loop_state(
                LoopState::Waiting { seq },
                true,
                LoopEvent::PlanUpdate,
            );
            let recording = next_loop_state(emitting, true, LoopEvent::Emitted(true));
            let passing = next_loop_state(recording, true, LoopEvent::Recorded(recorded));
            let failed = next_loop_state(emitting, true, LoopEvent::Emitted(false));
            &&& emitting == (LoopState::Emitting { seq })
            &&& recording == (LoopState::Recording { seq })
            &&& next_loop_state(passing, true, LoopEvent::Forwarded(true)) == (LoopState::Waiting {
                seq: (seq + 1) as u64,
            })
            &&& next_loop_state(failed, true, LoopEvent::Forwarded(true)) == (LoopState::Waiting {
                seq,
            })
        }),
{
}

/// The shutdown of the agent is passed on too, and the loop stops after it.
pub proof fn shutdowns_are_passed_on(seq: u64, has_emitter: bool, passed: bool)
    ensures
        ({
            let last = next_loop_state(
                LoopState::Waiting { seq },
                has_emitter,
                LoopEvent::ShutdownComplete,
            );
            &&& last is Forwarding
            &&& next_loop_state(last, has_emitter, LoopEvent::Forwarded(passed)) == (
            LoopState::Stopped { seq })
        }),
{
}

/// The loop stops for these reasons alone: nothing can be received, nobody listens, the agent has
/// shut down, or the process was asked to end.
pub proof fn loops_stop_for_a_reason(state: LoopState, has_emitter: bool, event: LoopEvent)
    requires
        can_advance(state, event),
    ensures
        next_loop_state(state, has_emitter, event) is Stopped <==> {
            ||| state is Waiting && event is ReceiveError
            ||| state is Forwarding && event == LoopEvent::Forwarded(false)
            ||| state matches LoopState::Forwarding { is_last, .. } && is_last
            ||| state is Interrupting
        },
        next_loop_state(state, has_emitter, event) is Interrupting <==> {
            ||| state is Waiting && event is Signal && !has_emitter
            ||| state is Announcing
        },
        next_loop_state(state, has_emitter, event) matches LoopState::Forwarding { is_last, .. }
            ==> (is_last <==> event is ShutdownComplete),
        sequence_of(next_loop_state(state, has_emitter, event)) == sequence_of(state)
            + if state is Recording {
            1int
        } else {
            0
        },
{
}

/// What can happen depends on what the loop does: it hears of the agent and of signals while it
/// waits, of nothing once it has stopped, and otherwise of what came of its own act.
pub proof fn loops_hear_of_what_they_do(state: LoopState, event: LoopEvent)
    ensures
        state is Waiting ==> (can_happen(state, event) <==> event is Signal || event is PlanUpdate
            || event is ShutdownComplete || event is OtherEvent || event is ReceiveError),
        state is Emitting ==> (can_happen(state, event) <==> event is Emitted),
        state is Recording ==> (can_happen(state, event) <==> event is Recorded),
        state is Forwarding ==> (can_happen(state, event) <==> event is Forwarded),
        state is Announcing ==> (can_happen(state, event) <==> event is Announced),
        state is Interrupting ==> (can_happen(state, event) <==> event is Interrupted),
        state is Stopped ==> !can_happen(state, event),
{
}

} // verus!
