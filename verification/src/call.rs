//! The call orchestrator: what one call does between its dispatch and its settlement.
//!
//! A call is a small state machine. It is told what happened (`Event`) and answers with
//! what to do next (`Action`): send a request over the bus, settle the handle that the
//! host holds, or nothing. It never waits and never touches the bus itself, so the task
//! that drives it can suspend between two steps for as long as the bus takes.

use crate::bridge::{
    outcome_view, settle, settlement_of, Settlement, SettlementView, Value, ValueView,
};
use crate::error::{BridgeError, BridgeErrorView, ErrorKind};
use crate::proxy::{
    active_state_read, get_unit_call, part_of_read, power_off_call, reboot_call,
    restart_unit_call, start_unit_call, stop_unit_call, Job, LoginManager, RemoteCall,
    RemoteCallView, Reply, ReplyView, ServiceManager, Unit,
};
use vstd::prelude::*;

verus! {

/// What the host asks for.
#[derive(Clone, Debug, PartialEq, Eq)]
pub enum Operation {
    UnitActiveState { unit: String },
    UnitPartOf { unit: String },
    StartUnit { unit: String, mode: String },
    StopUnit { unit: String, mode: String },
    RestartUnit { unit: String, mode: String },
    Reboot { interactive: bool },
    PowerOff { interactive: bool },
}

/// An operation as contracts see it.
pub enum OperationView {
    UnitActiveState { unit: Seq<char> },
    UnitPartOf { unit: Seq<char> },
    StartUnit { unit: Seq<char>, mode: Seq<char> },
    StopUnit { unit: Seq<char>, mode: Seq<char> },
    RestartUnit { unit: Seq<char>, mode: Seq<char> },
    Reboot { interactive: bool },
    PowerOff { interactive: bool },
}

impl View for Operation {
    type V = OperationView;

    open spec fn view(&self) -> OperationView {
        match self {
            Operation::UnitActiveState { unit } => OperationView::UnitActiveState { unit: unit@ },
            Operation::UnitPartOf { unit } => OperationView::UnitPartOf { unit: unit@ },
            Operation::StartUnit { unit, mode } => OperationView::StartUnit {
                unit: unit@,
                mode: mode@,
            },
            Operation::StopUnit { unit, mode } => OperationView::StopUnit {
                unit: unit@,
                mode: mode@,
            },
            Operation::RestartUnit { unit, mode } => OperationView::RestartUnit {
                unit: unit@,
                mode: mode@,
            },
            Operation::Reboot { interactive } => OperationView::Reboot {
                interactive: *interactive,
            },
            Operation::PowerOff { interactive } => OperationView::PowerOff {
                interactive: *interactive,
            },
        }
    }
}

/// Where a call stands. A call only ever moves down this list.
#[derive(Clone, Copy, Debug, PartialEq, Eq, Structural)]
pub enum Phase {
    /// Handed to the background executor; nothing has been sent.
    Dispatched,
    /// The lookup of the unit is under way.
    Resolving,
    /// The request that carries the operation out is under way.
    Executing,
    /// The handle of the host has been settled.
    Settled,
}

impl Phase {
    /// The position of the phase in the order in which a call passes through them.
    pub open spec fn rank(self) -> nat {
        match self {
            Phase::Dispatched => 0,
            Phase::Resolving => 1,
            Phase::Executing => 2,
            Phase::Settled => 3,
        }
    }
}

impl OperationView {
    /// The name that the operation has to resolve before it can make its request: the
    /// unit's, for a read on a unit object. Every other operation makes its request
    /// at once: start, stop and restart go to the service manager by name, reboot and
    /// power-off to the login manager.
    pub open spec fn lookup(self) -> Option<Seq<char>> {
        match self {
            OperationView::UnitActiveState { unit } => Some(unit),
            OperationView::UnitPartOf { unit } => Some(unit),
            _ => None,
        }
    }

    /// The request that carries the operation out. `target` is the object path that
    /// the lookup resolved to; only a read on a unit object has a use for it.
    pub open spec fn request(self, target: Seq<char>) -> RemoteCallView {
        match self {
            OperationView::UnitActiveState { .. } => active_state_read(target),
            OperationView::UnitPartOf { .. } => part_of_read(target),
            OperationView::StartUnit { unit, mode } => start_unit_call(unit, mode),
            OperationView::StopUnit { unit, mode } => stop_unit_call(unit, mode),
            OperationView::RestartUnit { unit, mode } => restart_unit_call(unit, mode),
            OperationView::Reboot { interactive } => reboot_call(interactive),
            OperationView::PowerOff { interactive } => power_off_call(interactive),
        }
    }

    /// The first step of the operation: the phase it enters and the request it sends.
    /// A read on a unit object begins with the lookup of the unit; every other
    /// operation begins with its one request.
    pub open spec fn opening(self) -> (Phase, RemoteCallView) {
        match self.lookup() {
            Some(unit) => (Phase::Resolving, get_unit_call(unit)),
            None => (Phase::Executing, self.request(Seq::empty())),
        }
    }

    /// The terminal result of the operation, given the reply to its request.
    pub open spec fn outcome(self, reply: ReplyView) -> Result<ValueView, BridgeErrorView> {
        match self {
            OperationView::UnitActiveState { .. } => match reply.text() {
                Ok(text) => Ok(ValueView::Text(text)),
                Err(error) => Err(error),
            },
            OperationView::UnitPartOf { .. } => match reply.text_list() {
                Ok(list) => Ok(ValueView::List(list)),
                Err(error) => Err(error),
            },
            OperationView::StartUnit { .. }
            | OperationView::StopUnit { .. }
            | OperationView::RestartUnit { .. } => match reply.object_path() {
                Ok(_) => Ok(ValueView::Nothing),
                Err(error) => Err(error),
            },
            OperationView::Reboot { .. } | OperationView::PowerOff { .. } => match reply.acknowledged() {
                Ok(_) => Ok(ValueView::Nothing),
                Err(error) => Err(error),
            },
        }
    }
}

/// The unit that a lookup resolved to, as its object path. A lookup that the remote
/// side or the transport failed is a lookup failure with the same detail.
pub open spec fn resolution(reply: ReplyView) -> Result<Seq<char>, BridgeErrorView> {
    match reply.object_path() {
        Ok(path) => Ok(path),
        Err(error) => if error.kind == ErrorKind::RemoteCall {
            Err(BridgeErrorView { kind: ErrorKind::Lookup, detail: error.detail })
        } else {
            Err(error)
        },
    }
}

/// Decodes the reply to the lookup of a unit.
pub fn resolve(reply: Reply) -> (resolved: Result<Unit, BridgeError>)
    ensures
        match resolved {
            Ok(unit) => resolution(reply@) == Ok::<Seq<char>, BridgeErrorView>(unit@),
            Err(error) => resolution(reply@) == Err::<Seq<char>, BridgeErrorView>(error@),
        },
{
    match Unit::from_reply(reply) {
        Ok(unit) => Ok(unit),
        Err(error) => if error.kind == ErrorKind::RemoteCall {
            Err(BridgeError::new(ErrorKind::Lookup, error.detail))
        } else {
            Err(error)
        },
    }
}

impl Operation {
    /// The name that the operation has to resolve before it can make its request, if
    /// it has to resolve one.
    pub fn lookup(&self) -> (name: Option<&String>)
        ensures
            match name {
                Some(unit) => self@.lookup() == Some(unit@),
                None => self@.lookup() == None::<Seq<char>>,
            },
    {
        match self {
            Operation::UnitActiveState { unit } => Some(unit),
            Operation::UnitPartOf { unit } => Some(unit),
            _ => None,
        }
    }

    /// The request that carries the operation out. `target` is the unit that the
    /// lookup resolved to; only a read on a unit object has a use for it.
    pub fn request(&self, target: &Unit) -> (call: RemoteCall)
        ensures
            call@ == self@.request(target@),
    {
        match self {
            Operation::UnitActiveState { .. } => target.active_state(),
            Operation::UnitPartOf { .. } => target.part_of(),
            Operation::StartUnit { unit, mode } => ServiceManager.start_unit(
                unit.as_str(),
                mode.as_str(),
            ),
            Operation::StopUnit { unit, mode } => ServiceManager.stop_unit(
                unit.as_str(),
                mode.as_str(),
            ),
            Operation::RestartUnit { unit, mode } => ServiceManager.restart_unit(
                unit.as_str(),
                mode.as_str(),
            ),
            Operation::Reboot { interactive } => LoginManager.reboot(*interactive),
            Operation::PowerOff { interactive } => LoginManager.power_off(*interactive),
        }
    }

    /// The first step of the operation: the phase it enters and the request it sends.
    pub fn opening(&self) -> (first: (Phase, RemoteCall))
        ensures
            (first.0, first.1@) == self@.opening(),
    {
        match self {
            Operation::UnitActiveState { unit } | Operation::UnitPartOf { unit } => (
                Phase::Resolving,
                ServiceManager.get_unit(unit.as_str()),
            ),
            Operation::StartUnit { unit, mode } => (
                Phase::Executing,
                ServiceManager.start_unit(unit.as_str(), mode.as_str()),
            ),
            Operation::StopUnit { unit, mode } => (
                Phase::Executing,
                ServiceManager.stop_unit(unit.as_str(), mode.as_str()),
            ),
            Operation::RestartUnit { unit, mode } => (
                Phase::Executing,
                ServiceManager.restart_unit(unit.as_str(), mode.as_str()),
            ),
            Operation::Reboot { interactive } => (
                Phase::Executing,
                LoginManager.reboot(*interactive),
            ),
            Operation::PowerOff { interactive } => (
                Phase::Executing,
                LoginManager.power_off(*interactive),
            ),
        }
    }

    /// The terminal result of the operation, given the reply to its request.
    pub fn outcome(&self, reply: Reply) -> (outcome: Result<Value, BridgeError>)
        ensures
            outcome_view(outcome) == self@.outcome(reply@),
    {
        match self {
            Operation::UnitActiveState { .. } => match reply.into_text() {
                Ok(text) => Ok(Value::Text(text)),
                Err(error) => Err(error),
            },
            Operation::UnitPartOf { .. } => match reply.into_text_list() {
                Ok(list) => Ok(Value::List(list)),
                Err(error) => Err(error),
            },
            Operation::StartUnit { .. }
            | Operation::StopUnit { .. }
            | Operation::RestartUnit { .. } => match Job::from_reply(reply) {
                Ok(_) => Ok(Value::Nothing),
                Err(error) => Err(error),
            },
            Operation::Reboot { .. } | Operation::PowerOff { .. } => match reply.into_acknowledged() {
                Ok(_) => Ok(Value::Nothing),
                Err(error) => Err(error),
            },
        }
    }
}

/// What a call is told.
#[derive(Clone, Debug, PartialEq, Eq)]
pub enum Event {
    /// The background executor has taken the call up.
    Spawned,
    /// The request that the call sent last has been answered.
    Replied(Reply),
}

/// An event as contracts see it.
pub enum EventView {
    Spawned,
    Replied(ReplyView),
}

impl View for Event {
    type V = EventView;

    open spec fn view(&self) -> EventView {
        match self {
            Event::Spawned => EventView::Spawned,
            Event::Replied(reply) => EventView::Replied(reply@),
        }
    }
}

/// What a call wants done.
#[derive(Clone, Debug, PartialEq, Eq)]
pub enum Action {
    /// Carry the request out and hand the reply back as `Event::Replied`.
    Send(RemoteCall),
    /// Settle the handle of the host, on the thread of the host.
    Settle(Settlement),
    /// Nothing: the event changed nothing.
    Idle,
}

/// An action as contracts see it.
pub enum ActionView {
    Send(RemoteCallView),
    Settle(SettlementView),
    Idle,
}

impl View for Action {
    type V = ActionView;

    open spec fn view(&self) -> ActionView {
        match self {
            Action::Send(call) => ActionView::Send(call@),
            Action::Settle(settlement) => ActionView::Settle(settlement@),
            Action::Idle => ActionView::Idle,
        }
    }
}

/// One call of the host on its way to its settlement. A call cannot be copied: every
/// step uses the call up and hands its successor back, so that one dispatch leads to
/// one settlement.
#[derive(Debug, PartialEq, Eq)]
pub struct PendingCall {
    operation: Operation,
    phase: Phase,
}

/// A pending call as contracts see it.
pub struct PendingCallView {
    pub operation: OperationView,
    pub phase: Phase,
}

impl View for PendingCall {
    type V = PendingCallView;

    closed spec fn view(&self) -> PendingCallView {
        PendingCallView { operation: self.operation@, phase: self.phase }
    }
}

/// The call for an operation that has just been dispatched.
pub open spec fn dispatched(operation: OperationView) -> PendingCallView {
    PendingCallView { operation, phase: Phase::Dispatched }
}

impl PendingCallView {
    /// The same call in another phase.
    pub open spec fn moved_to(self, phase: Phase) -> PendingCallView {
        PendingCallView { operation: self.operation, phase }
    }
}

/// One step of a call: the call after the event, and what it wants done.
///
/// A dispatched call that is taken up sends its first request: the lookup of the
/// unit for a read on a unit object, the request proper for every other operation. A
/// call that is resolving its unit goes on to the request proper when the lookup
/// succeeds, and settles with the lookup's failure when it does not. A call that is
/// executing settles with the result of its request. Every other event changes
/// nothing.
pub open spec fn step(call: PendingCallView, event: EventView) -> (PendingCallView, ActionView) {
    match (call.phase, event) {
        (Phase::Dispatched, EventView::Spawned) => {
            let first = call.operation.opening();
            (call.moved_to(first.0), ActionView::Send(first.1))
        },
        (Phase::Resolving, EventView::Replied(reply)) => match resolution(reply) {
            Ok(target) => (
                call.moved_to(Phase::Executing),
                ActionView::Send(call.operation.request(target)),
            ),
            Err(error) => (
                call.moved_to(Phase::Settled),
                ActionView::Settle(settlement_of(Err(error))),
            ),
        },
        (Phase::Executing, EventView::Replied(reply)) => (
            call.moved_to(Phase::Settled),
            ActionView::Settle(settlement_of(call.operation.outcome(reply))),
        ),
        _ => (call, ActionView::Idle),
    }
}

impl PendingCall {
    /// The call for an operation that has just been dispatched.
    pub fn new(operation: Operation) -> (call: PendingCall)
        ensures
            call@ == dispatched(operation@),
    {
        PendingCall { operation, phase: Phase::Dispatched }
    }

    /// The operation that the call carries out.
    pub fn operation(&self) -> (operation: &Operation)
        ensures
            operation@ == self@.operation,
    {
        &self.operation
    }

    /// Where the call stands.
    pub fn phase(&self) -> (phase: Phase)
        ensures
            phase == self@.phase,
    {
        self.phase
    }

    /// Whether the handle of the host has been settled.
    pub fn is_settled(&self) -> (settled: bool)
        ensures
            settled == (self@.phase == Phase::Settled),
    {
        self.phase == Phase::Settled
    }

    /// Takes one step: hands back the call after the event, and what it wants done.
    pub fn advance(self, event: Event) -> (next: (PendingCall, Action))
        ensures
            (next.0@, next.1@) == step(self@, event@),
    {
        let PendingCall { operation, phase } = self;
        match (phase, event) {
            (Phase::Dispatched, Event::Spawned) => {
                let (phase, request) = operation.opening();
                (PendingCall { operation, phase }, Action::Send(request))
            },
            (Phase::Resolving, Event::Replied(reply)) => match resolve(reply) {
                Ok(target) => {
                    let request = operation.request(&target);
                    (PendingCall { operation, phase: Phase::Executing }, Action::Send(request))
                },
                Err(error) => (
                    PendingCall { operation, phase: Phase::Settled },
                    Action::Settle(settle(Err(error))),
                ),
            },
            (Phase::Executing, Event::Replied(reply)) => {
                let outcome = operation.outcome(reply);
                (PendingCall { operation, phase: Phase::Settled }, Action::Settle(settle(outcome)))
            },
            (phase, _) => (PendingCall { operation, phase }, Action::Idle),
        }
    }
}

} // verus!
