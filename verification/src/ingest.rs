//! The ingest loop, as a machine that is told what happened and answers with
//! what to do next.
//!
//! Each inbound message runs through a fixed sequence: it is decoded, its
//! record is written, the trigger is consulted, the action is invoked where
//! the trigger asks for it, and the trigger state is written back. Only then
//! is the next message received. The machine holds the place in that
//! sequence; the caller performs each command and reports its outcome.

use vstd::prelude::*;
use crate::json::{Json, JsonView, parsed};
use crate::key::{fresh_record_key, is_record_key};
use crate::reading::{
    DataRecord,
    DecodeError,
    GrowattMessage,
    Tracking,
    decode,
    decode_text_spec,
    document_spec,
    soc_spec,
};
use crate::trigger::{Decision, State, Thresholds, decide_spec, settle_spec};

verus! {

/// The seconds to wait before the loop is started again after it stopped.
pub const RESTART_DELAY_SECS: u64 = 5;

/// A decoded message, ready for the sink and for the trigger.
#[derive(Debug, PartialEq, Eq)]
pub struct Prepared {
    /// The key under which the record is to be created.
    pub key: String,
    /// The record's document.
    pub document: Json,
    /// What the trigger needs of the reading.
    pub tracking: Tracking,
}

/// Turns a reading into its record, under the given key.
pub fn prepare(msg: GrowattMessage, key: String) -> (p: Prepared)
    ensures
        p.key == key,
        p.document@ == document_spec(msg@),
        p.tracking.soc == soc_spec(msg@.values),
{
    let record = DataRecord::from(msg);
    let tracking = record.track();
    Prepared { key, document: record.into_document(), tracking }
}

/// What `ingest_msg` may return for a payload that reads as `text`: the fault
/// where the payload is no reading, and else the reading's record under some
/// key.
pub open spec fn ingest_msg_spec(
    text: Option<JsonView>,
    r: Result<Prepared, DecodeError>,
) -> bool {
    match decode_text_spec(text) {
        Ok(reading) => {
            &&& r matches Ok(p)
            &&& is_record_key(p.key@)
            &&& p.document@ == document_spec(reading)
            &&& p.tracking.soc == soc_spec(reading.values)
        },
        Err(e) => r == Err::<Prepared, DecodeError>(e),
    }
}

/// Decodes a payload and prepares its record under a fresh key. A payload
/// that is no reading prepares nothing.
pub fn ingest_msg(payload: &[u8]) -> (r: Result<Prepared, DecodeError>)
    ensures
        ingest_msg_spec(parsed(payload@), r),
{
    match decode(payload) {
        Ok(msg) => Ok(prepare(msg, fresh_record_key())),
        Err(e) => Err(e),
    }
}

/// Where the loop stands.
#[derive(Clone, Copy, Debug, PartialEq, Eq)]
pub enum Phase {
    /// Waiting for the transport.
    Receiving,
    /// The record of a message is being written; `tracking` is what the
    /// message gave the trigger.
    StoringRecord { tracking: Tracking },
    /// The action is running for this state of charge.
    Acting { soc: i64 },
    /// The trigger state is being written.
    StoringState,
    /// The transport failed; the loop is over.
    Stopped,
}

/// The ingest loop: the trigger, its thresholds, and the place in the
/// sequence.
#[derive(Clone, Copy, Debug, PartialEq, Eq)]
pub struct Ingest {
    pub thresholds: Thresholds,
    pub state: State,
    pub phase: Phase,
}

/// What happened.
#[derive(Debug, PartialEq, Eq)]
pub enum Event {
    /// The transport delivered a message, and this is what `ingest_msg` made
    /// of its payload.
    Message(Result<Prepared, DecodeError>),
    /// The transport reported something other than a message.
    Other,
    /// The transport connection failed.
    TransportFailed,
    /// The record write ended; `true` means that the store took the record.
    RecordStored(bool),
    /// The action ended; `true` means that it ran and reported success.
    ActionFinished(bool),
    /// The state write ended; `true` means that the store took the state.
    StateStored(bool),
}

/// What to do next.
#[derive(Debug, PartialEq, Eq)]
pub enum Command {
    /// Wait for the transport's next notification.
    Receive,
    /// Create the record `document` under `key`; never overwrite.
    StoreRecord { key: String, document: Json },
    /// Invoke the action with `soc` as its only argument.
    Invoke { soc: i64 },
    /// Overwrite the stored trigger state with `state`.
    StoreState { state: State },
    /// Leave the loop, wait `delay_secs` seconds, and start afresh.
    Restart { delay_secs: u64 },
}

/// A failure to report. None of them but `Transport` ends the loop.
#[derive(Clone, Copy, Debug, PartialEq, Eq)]
pub enum Fault {
    /// The message was no reading; it was skipped.
    Decode(DecodeError),
    /// The record was not stored.
    Record,
    /// The action did not succeed; the trigger stays idle.
    Action,
    /// The trigger state was not stored; the state in memory stands.
    StateWrite,
    /// The transport connection failed.
    Transport,
}

/// The machine's answer to an event.
#[derive(Debug, PartialEq, Eq)]
pub struct Step {
    pub command: Command,
    /// A failure that the event brought, to be reported.
    pub fault: Option<Fault>,
}

/// The event does not belong to the phase the loop is in.
#[derive(Clone, Copy, Debug, PartialEq, Eq)]
pub struct OutOfTurn;

/// `Some(fault)` unless `ok`.
pub open spec fn fault_unless(ok: bool, fault: Fault) -> Option<Fault> {
    if ok {
        None
    } else {
        Some(fault)
    }
}

/// The machine after the trigger has been consulted for `soc`, and the
/// command that follows: the action where the trigger fires, the state write
/// otherwise.
pub open spec fn consult_spec(m: Ingest, soc: Option<i64>) -> (Ingest, Command) {
    match decide_spec(m.thresholds, m.state, soc) {
        Decision::Fire(v) => (
            Ingest { phase: Phase::Acting { soc: v }, ..m },
            Command::Invoke { soc: v },
        ),
        d => {
            let state = settle_spec(m.state, d, false);
            (Ingest { state, phase: Phase::StoringState, ..m }, Command::StoreState { state })
        },
    }
}

/// The transition: the machine and its answer after `e`, or `None` where `e`
/// does not belong to the phase `m` is in.
pub open spec fn step_spec(m: Ingest, e: Event) -> Option<(Ingest, Step)> {
    match (m.phase, e) {
        (Phase::Receiving, Event::Message(Ok(p))) => Some(
            (
                Ingest { phase: Phase::StoringRecord { tracking: p.tracking }, ..m },
                Step {
                    command: Command::StoreRecord { key: p.key, document: p.document },
                    fault: None,
                },
            ),
        ),
        (Phase::Receiving, Event::Message(Err(e))) => Some(
            (m, Step { command: Command::Receive, fault: Some(Fault::Decode(e)) }),
        ),
        (Phase::Receiving, Event::Other) => Some(
            (m, Step { command: Command::Receive, fault: None }),
        ),
        (Phase::Receiving, Event::TransportFailed) => Some(
            (
                Ingest { phase: Phase::Stopped, ..m },
                Step {
                    command: Command::Restart { delay_secs: RESTART_DELAY_SECS },
                    fault: Some(Fault::Transport),
                },
            ),
        ),
        (Phase::StoringRecord { tracking }, Event::RecordStored(ok)) => {
            let (next, command) = consult_spec(m, tracking.soc);
            Some((next, Step { command, fault: fault_unless(ok, Fault::Record) }))
        },
        (Phase::Acting { soc }, Event::ActionFinished(ok)) => {
            let state = settle_spec(m.state, Decision::Fire(soc), ok);
            Some(
                (
                    Ingest { state, phase: Phase::StoringState, ..m },
                    Step {
                        command: Command::StoreState { state },
                        fault: fault_unless(ok, Fault::Action),
                    },
                ),
            )
        },
        (Phase::StoringState, Event::StateStored(ok)) => Some(
            (
                Ingest { phase: Phase::Receiving, ..m },
                Step { command: Command::Receive, fault: fault_unless(ok, Fault::StateWrite) },
            ),
        ),
        _ => None,
    }
}

/// The machine after `e`; as it was, where `e` is out of turn.
pub open spec fn next_spec(m: Ingest, e: Event) -> Ingest {
    match step_spec(m, e) {
        Some((next, _)) => next,
        None => m,
    }
}

/// The command that answers `e`, where `e` is in turn.
pub open spec fn command_spec(m: Ingest, e: Event) -> Option<Command> {
    match step_spec(m, e) {
        Some((_, step)) => Some(step.command),
        None => None,
    }
}

/// Only a failure of the transport ends the loop: a message that is no
/// reading, a failed write and a failed action all lead on to a next command.
pub proof fn law_only_transport_failure_stops(m: Ingest, e: Event)
    requires
        step_spec(m, e) is Some,
    ensures
        command_spec(m, e) matches Some(Command::Restart { .. }) <==> e is TransportFailed,
        next_spec(m, e).phase is Stopped <==> e is TransportFailed,
        e is TransportFailed ==> command_spec(m, e) == Some(
            Command::Restart { delay_secs: RESTART_DELAY_SECS },
        ),
{
}

/// One message at a time: once a message has been taken, the loop receives
/// again only when the state write has ended, and every message that was a
/// reading gets there, whatever its writes and its action come to.
pub proof fn law_state_is_written_before_next_message(m: Ingest, e: Event)
    requires
        step_spec(m, e) is Some,
        m.phase != Phase::Receiving,
    ensures
        next_spec(m, e).phase is Receiving <==> m.phase is StoringState,
        command_spec(m, e) == Some(Command::Receive) <==> m.phase is StoringState,
        m.phase is Acting ==> next_spec(m, e).phase is StoringState,
        m.phase is StoringRecord ==> next_spec(m, e).phase is StoringState || next_spec(
            m,
            e,
        ).phase is Acting,
        next_spec(m, e).phase is StoringState ==> command_spec(m, e) == Some(
            Command::StoreState { state: next_spec(m, e).state },
        ),
{
}

/// The action is invoked only for a reading at or above the high threshold
/// that meets an idle trigger, and with that reading's state of charge.
pub proof fn law_action_runs_on_crossings_only(m: Ingest, e: Event, soc: i64)
    requires
        command_spec(m, e) == Some(Command::Invoke { soc }),
    ensures
        e is RecordStored,
        m.phase == (Phase::StoringRecord { tracking: Tracking { soc: Some(soc) } }),
        !m.state.is_triggered(),
        soc >= m.thresholds.high,
        next_spec(m, e).phase == (Phase::Acting { soc }),
{
}

/// The trigger becomes fired only when an action that the loop was running
/// reports success; a failed action leaves the state as it was.
pub proof fn law_fired_means_action_succeeded(m: Ingest, e: Event)
    ensures
        !m.state.is_triggered() && next_spec(m, e).state.is_triggered() ==> m.phase is Acting
            && e == Event::ActionFinished(true),
        e == Event::ActionFinished(false) ==> next_spec(m, e).state == m.state,
{
}

impl Ingest {
    /// The loop is sound: its band is valid, and the action runs only for a
    /// reading that an idle trigger fires on.
    pub open spec fn wf(&self) -> bool {
        &&& self.thresholds.valid()
        &&& self.phase matches Phase::Acting { soc } ==> decide_spec(
            self.thresholds,
            self.state,
            Some(soc),
        ) == Decision::Fire(soc)
    }

    /// The loop at its start: the trigger state is the stored one, or the
    /// default where nothing was stored, and the loop is about to receive.
    pub fn start(thresholds: Thresholds, stored: Option<State>) -> (m: Ingest)
        ensures
            m.thresholds == thresholds,
            m.state == (match stored {
                Some(s) => s,
                None => State { triggered: None },
            }),
            m.phase == Phase::Receiving,
            thresholds.valid() ==> m.wf(),
    {
        let state = match stored {
            Some(s) => s,
            None => State::default(),
        };
        Ingest { thresholds, state, phase: Phase::Receiving }
    }

    /// Consults the trigger for `soc` and moves on: to the action where the
    /// trigger fires, to the state write otherwise.
    fn consult(&mut self, soc: Option<i64>) -> (command: Command)
        ensures
            (*final(self), command) == consult_spec(*old(self), soc),
            old(self).thresholds.valid() ==> final(self).wf(),
    {
        let decision = self.state.decide(&self.thresholds, soc);
        match decision {
            Decision::Fire(v) => {
                self.phase = Phase::Acting { soc: v };
                Command::Invoke { soc: v }
            },
            _ => {
                self.state = self.state.settle(decision, false);
                self.phase = Phase::StoringState;
                Command::StoreState { state: self.state }
            },
        }
    }

    /// Takes an event and answers with the next command. An event that does
    /// not belong to the phase the loop is in is refused, and the loop stays
    /// as it was.
    pub fn step(&mut self, event: Event) -> (r: Result<Step, OutOfTurn>)
        ensures
            match step_spec(*old(self), event) {
                Some((next, step)) => *final(self) == next && r == Ok::<Step, OutOfTurn>(step),
                None => *final(self) == *old(self) && r is Err,
            },
            old(self).wf() ==> final(self).wf(),
    {
        match self.phase {
            Phase::Receiving => match event {
                Event::Message(Ok(p)) => {
                    self.phase = Phase::StoringRecord { tracking: p.tracking };
                    Ok(
                        Step {
                            command: Command::StoreRecord { key: p.key, document: p.document },
                            fault: None,
                        },
                    )
                },
                Event::Message(Err(e)) => Ok(
                    Step { command: Command::Receive, fault: Some(Fault::Decode(e)) },
                ),
                Event::Other => Ok(Step { command: Command::Receive, fault: None }),
                Event::TransportFailed => {
                    self.phase = Phase::Stopped;
                    Ok(
                        Step {
                            command: Command::Restart { delay_secs: RESTART_DELAY_SECS },
                            fault: Some(Fault::Transport),
                        },
                    )
                },
                _ => Err(OutOfTurn),
            },
            Phase::StoringRecord { tracking } => match event {
                Event::RecordStored(ok) => {
                    let command = self.consult(tracking.soc);
                    Ok(Step { command, fault: if ok { None } else { Some(Fault::Record) } })
                },
                _ => Err(OutOfTurn),
            },
            Phase::Acting { soc } => match event {
                Event::ActionFinished(ok) => {
                    self.state = self.state.settle(Decision::Fire(soc), ok);
                    self.phase = Phase::StoringState;
                    Ok(
                        Step {
                            command: Command::StoreState { state: self.state },
                            fault: if ok { None } else { Some(Fault::Action) },
                        },
                    )
                },
                _ => Err(OutOfTurn),
            },
            Phase::StoringState => match event {
                Event::StateStored(ok) => {
                    self.phase = Phase::Receiving;
                    Ok(
                        Step {
                            command: Command::Receive,
                            fault: if ok { None } else { Some(Fault::StateWrite) },
                        },
                    )
                },
                _ => Err(OutOfTurn),
            },
            Phase::Stopped => Err(OutOfTurn),
        }
    }

    /// Takes a message's payload off the transport: decodes it, prepares its
    /// record, and steps. The answer is that of `step` for what `ingest_msg`
    /// made of the payload.
    pub fn on_publish(&mut self, payload: &[u8]) -> (r: Result<Step, OutOfTurn>)
        ensures
            old(self).phase != Phase::Receiving ==> *final(self) == *old(self) && r is Err,
            old(self).phase == Phase::Receiving ==> exists|made: Result<Prepared, DecodeError>|
                ingest_msg_spec(parsed(payload@), made) && step_spec(
                    *old(self),
                    Event::Message(made),
                ) == Some((*final(self), r->Ok_0)) && r is Ok,
            old(self).wf() ==> final(self).wf(),
    {
        match self.phase {
            Phase::Receiving => {
                let made = ingest_msg(payload);
                self.step(Event::Message(made))
            },
            _ => Err(OutOfTurn),
        }
    }
}

} // verus!
