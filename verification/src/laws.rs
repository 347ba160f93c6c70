//! What holds of every call, whatever the bus answers.

use crate::bridge::{indexed, PayloadView, SettlementView};
use crate::call::{
    dispatched, resolution, step, ActionView, EventView, OperationView, PendingCallView, Phase,
};
use crate::error::{BridgeErrorView, ErrorKind};
use crate::proxy::{
    active_state_read, get_unit_call, login_manager_call, part_of_read, restart_unit_call,
    start_unit_call, stop_unit_call, ArgumentsView, CallKind, ReplyView,
};
use vstd::prelude::*;

verus! {

/// The call after a sequence of events, the first of them first.
pub open spec fn run(call: PendingCallView, events: Seq<EventView>) -> PendingCallView
    decreases events.len(),
{
    if events.len() == 0 {
        call
    } else {
        run(step(call, events.first()).0, events.drop_first())
    }
}

/// How often the call asks for its handle to be settled along a sequence of events.
pub open spec fn settlements(call: PendingCallView, events: Seq<EventView>) -> nat
    decreases events.len(),
{
    if events.len() == 0 {
        0
    } else {
        let next = step(call, events.first());
        let now: nat = if next.1 is Settle {
            1
        } else {
            0
        };
        now + settlements(next.0, events.drop_first())
    }
}

/// A step never moves a call back to an earlier phase, and never changes the
/// operation that the call carries out.
pub proof fn lemma_no_backward_step(call: PendingCallView, event: EventView)
    ensures
        step(call, event).0.phase.rank() >= call.phase.rank(),
        step(call, event).0.operation == call.operation,
{
}

/// A call asks for its handle to be settled in the step that takes it to the settled
/// phase, and in no other.
pub proof fn lemma_settle_marks_arrival(call: PendingCallView, event: EventView)
    ensures
        step(call, event).1 is Settle <==> call.phase != Phase::Settled && step(
            call,
            event,
        ).0.phase == Phase::Settled,
{
}

/// The settled phase is terminal: no event moves a settled call or makes it ask for
/// anything.
pub proof fn lemma_settled_is_terminal(call: PendingCallView, events: Seq<EventView>)
    requires
        call.phase == Phase::Settled,
    ensures
        run(call, events) == call,
        settlements(call, events) == 0,
        forall|event: EventView| #[trigger] step(call, event) == (call, ActionView::Idle),
    decreases events.len(),
{
    if events.len() > 0 {
        lemma_settled_is_terminal(call, events.drop_first());
    }
}

/// Whatever the events and their order, a call asks for its handle to be settled
/// exactly once if the events take it to the settled phase, and not at all if they do
/// not or if it was settled before them.
pub proof fn lemma_settles_exactly_once(call: PendingCallView, events: Seq<EventView>)
    ensures
        settlements(call, events) == if call.phase != Phase::Settled && run(
            call,
            events,
        ).phase == Phase::Settled {
            1nat
        } else {
            0nat
        },
    decreases events.len(),
{
    if call.phase == Phase::Settled {
        lemma_settled_is_terminal(call, events);
    } else if events.len() > 0 {
        let next = step(call, events.first());
        lemma_settle_marks_arrival(call, events.first());
        lemma_settles_exactly_once(next.0, events.drop_first());
        if next.0.phase == Phase::Settled {
            lemma_settled_is_terminal(next.0, events.drop_first());
        }
    }
}

/// No call is left unsettled: once taken up, a call whose requests are all answered,
/// with whatever replies, settles after its first or its second reply, and has then
/// asked for its handle to be settled exactly once. A call that has nothing to look
/// up settles after its first reply.
pub proof fn lemma_every_call_settles(
    operation: OperationView,
    first: ReplyView,
    second: ReplyView,
)
    ensures
        ({
            let taken_up = step(dispatched(operation), EventView::Spawned);
            let answered = step(taken_up.0, EventView::Replied(first));
            let finished = step(answered.0, EventView::Replied(second));
            &&& taken_up.1 is Send
            &&& answered.1 is Settle || answered.1 is Send
            &&& answered.1 is Settle ==> answered.0.phase == Phase::Settled
            &&& answered.1 is Send ==> finished.1 is Settle && finished.0.phase == Phase::Settled
            &&& operation.lookup() is None ==> answered.1 is Settle
            &&& operation.lookup() is Some ==> taken_up.0.phase == Phase::Resolving
        }),
        run(
            dispatched(operation),
            seq![EventView::Spawned, EventView::Replied(first), EventView::Replied(second)],
        ).phase == Phase::Settled,
        settlements(
            dispatched(operation),
            seq![EventView::Spawned, EventView::Replied(first), EventView::Replied(second)],
        ) == 1,
{
    let events = seq![EventView::Spawned, EventView::Replied(first), EventView::Replied(second)];
    let taken_up = step(dispatched(operation), EventView::Spawned);
    let answered = step(taken_up.0, EventView::Replied(first));
    let finished = step(answered.0, EventView::Replied(second));
    let after_one = events.drop_first();
    let after_two = after_one.drop_first();
    let after_three = after_two.drop_first();
    assert(events.first() == EventView::Spawned);
    assert(after_one.first() == EventView::Replied(first));
    assert(after_two.first() == EventView::Replied(second));
    assert(after_three.len() == 0);
    assert(run(finished.0, after_three) == finished.0);
    assert(run(answered.0, after_two) == finished.0);
    assert(run(taken_up.0, after_one) == finished.0);
    assert(run(dispatched(operation), events) == finished.0);
    lemma_settles_exactly_once(dispatched(operation), events);
}

/// A read on a unit object resolves the unit's name before anything else: its first
/// request is the lookup of that name. If the lookup fails, the call settles at once
/// with the lookup's failure, its message as the lookup gave it, and the read is
/// never sent.
pub proof fn lemma_resolution_comes_first(
    operation: OperationView,
    unit: Seq<char>,
    reply: ReplyView,
    later: Seq<EventView>,
)
    requires
        operation == (OperationView::UnitActiveState { unit }) || operation == (
        OperationView::UnitPartOf { unit }),
    ensures
        step(dispatched(operation), EventView::Spawned) == (
            dispatched(operation).moved_to(Phase::Resolving),
            ActionView::Send(get_unit_call(unit)),
        ),
        resolution(reply) matches Err(error) ==> {
            let resolving = dispatched(operation).moved_to(Phase::Resolving);
            let failed = step(resolving, EventView::Replied(reply));
            &&& failed.1 == ActionView::Settle(SettlementView::Rejected(error.message()))
            &&& failed.0.phase == Phase::Settled
            &&& run(failed.0, later) == failed.0
            &&& forall|event: EventView| #[trigger] step(failed.0, event).1 == ActionView::Idle
        },
        reply matches ReplyView::Failed(message) ==> {
            &&& resolution(reply) == Err::<Seq<char>, BridgeErrorView>(
                BridgeErrorView { kind: ErrorKind::Lookup, detail: message },
            )
            &&& step(
                dispatched(operation).moved_to(Phase::Resolving),
                EventView::Replied(reply),
            ).1 == ActionView::Settle(SettlementView::Rejected(message))
        },
{
    if let Err(error) = resolution(reply) {
        let resolving = dispatched(operation).moved_to(Phase::Resolving);
        let failed = step(resolving, EventView::Replied(reply));
        lemma_settled_is_terminal(failed.0, later);
    }
}

/// Once the unit is resolved, a read on a unit object sends the one read that it is
/// for, on the unit that the lookup named.
pub proof fn lemma_read_follows_resolution(
    operation: OperationView,
    unit: Seq<char>,
    target: Seq<char>,
)
    requires
        operation == (OperationView::UnitActiveState { unit }) || operation == (
        OperationView::UnitPartOf { unit }),
    ensures
        step(
            dispatched(operation).moved_to(Phase::Resolving),
            EventView::Replied(ReplyView::ObjectPath(target)),
        ) == (
            dispatched(operation).moved_to(Phase::Executing),
            ActionView::Send(operation.request(target)),
        ),
        operation is UnitActiveState ==> operation.request(target) == active_state_read(target),
        operation is UnitPartOf ==> operation.request(target) == part_of_read(target),
{
}

/// Start, stop and restart make one request each, to the service manager and without
/// a lookup. The request carries the name and the mode as the host gave them. The call
/// resolves without a value when the service manager accepts the job, and rejects
/// with the request's own message when the request fails; either way nothing else is
/// sent.
pub proof fn lemma_job_request_is_the_only_one(
    operation: OperationView,
    unit: Seq<char>,
    mode: Seq<char>,
    job: Seq<char>,
    message: Seq<char>,
)
    requires
        operation == (OperationView::StartUnit { unit, mode }) || operation == (
        OperationView::StopUnit { unit, mode }) || operation == (OperationView::RestartUnit {
            unit,
            mode,
        }),
    ensures
        ({
            let taken_up = step(dispatched(operation), EventView::Spawned);
            let request = if operation is StartUnit {
                start_unit_call(unit, mode)
            } else if operation is StopUnit {
                stop_unit_call(unit, mode)
            } else {
                restart_unit_call(unit, mode)
            };
            &&& taken_up == (
                dispatched(operation).moved_to(Phase::Executing),
                ActionView::Send(request),
            )
            &&& request.arguments == (ArgumentsView::UnitAndMode { unit, mode })
            &&& step(taken_up.0, EventView::Replied(ReplyView::ObjectPath(job))) == (
                dispatched(operation).moved_to(Phase::Settled),
                ActionView::Settle(SettlementView::Resolved(PayloadView::Nothing)),
            )
            &&& step(taken_up.0, EventView::Replied(ReplyView::Failed(message))) == (
                dispatched(operation).moved_to(Phase::Settled),
                ActionView::Settle(SettlementView::Rejected(message)),
            )
        }),
{
}

/// A failure that the remote side or the transport reports reaches the host with its
/// message unchanged, whichever request it answers.
pub proof fn lemma_failure_is_carried_unchanged(
    operation: OperationView,
    phase: Phase,
    message: Seq<char>,
)
    requires
        phase == Phase::Resolving || phase == Phase::Executing,
    ensures
        step(
            dispatched(operation).moved_to(phase),
            EventView::Replied(ReplyView::Failed(message)),
        ) == (
            dispatched(operation).moved_to(Phase::Settled),
            ActionView::Settle(SettlementView::Rejected(message)),
        ),
{
}

/// A unit that is part of no other unit has an empty list of them, not a failure:
/// whether its property holds no names or is not there at all, the call resolves with
/// the empty array.
pub proof fn lemma_no_membership_is_empty(unit: Seq<char>, reply: ReplyView)
    requires
        reply == ReplyView::TextList(Seq::empty()) || reply == ReplyView::Absent,
    ensures
        step(
            dispatched(OperationView::UnitPartOf { unit }).moved_to(Phase::Executing),
            EventView::Replied(reply),
        ).1 == ActionView::Settle(
            SettlementView::Resolved(PayloadView::Array(Seq::empty())),
        ),
{
    assert(indexed(Seq::<Seq<char>>::empty()) =~= Seq::empty());
}

/// Reboot and power-off make one request each, to the login manager and without a
/// lookup. The request carries the flag as the host gave it, and the call resolves
/// without a value when the request is acknowledged.
pub proof fn lemma_power_request_forwards_flag(operation: OperationView, interactive: bool)
    requires
        operation == (OperationView::Reboot { interactive }) || operation == (
        OperationView::PowerOff { interactive }),
    ensures
        ({
            let taken_up = step(dispatched(operation), EventView::Spawned);
            let member = if operation is Reboot {
                "Reboot"@
            } else {
                "PowerOff"@
            };
            &&& taken_up.0.phase == Phase::Executing
            &&& taken_up.1 == ActionView::Send(login_manager_call(member, interactive))
            &&& taken_up.1->Send_0.arguments == (ArgumentsView::Interactive { interactive })
            &&& taken_up.1->Send_0.kind == CallKind::Method
            &&& step(taken_up.0, EventView::Replied(ReplyView::Empty)) == (
                taken_up.0.moved_to(Phase::Settled),
                ActionView::Settle(SettlementView::Resolved(PayloadView::Nothing)),
            )
        }),
{
}

} // verus!
