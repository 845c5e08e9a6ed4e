use vstd::prelude::*;

use crate::state_machine::StateMachine;
use crate::state_machine::command::{CommandInput, CommandOutput, CommandQueueMachine};
use crate::state_machine::telemetry::{
    Position, PositionView, TelemetryInput, TelemetryMachine, TelemetryOutput,
};

verus! {

/// The per-unit mutable state shared between producer and consumer tasks: a
/// queue of pending commands and the latest telemetry, each held in its own
/// state machine.
///
/// A context is reached through the entity registry only, inside a narrow
/// scoped access, so a single task mutates it at a time.
pub struct UnitContext {
    command_machine: CommandQueueMachine,
    telemetry_machine: TelemetryMachine,
}

impl UnitContext {
    /// The queue of pending command payloads, oldest first.
    pub closed spec fn commands(self) -> Seq<Vec<u8>> {
        self.command_machine@
    }

    /// The latest stored telemetry position, if any.
    pub closed spec fn telemetry_latest(self) -> Option<PositionView> {
        self.telemetry_machine.latest()
    }

    /// Whether the stored telemetry has changed since the last poll.
    pub closed spec fn telemetry_pending(self) -> bool {
        self.telemetry_machine.is_pending()
    }

    pub fn new() -> (r: Self)
        ensures
            r.commands() == Seq::<Vec<u8>>::empty(),
            r.telemetry_latest() is None,
            !r.telemetry_pending(),
    {
        UnitContext {
            command_machine: CommandQueueMachine::new(),
            telemetry_machine: TelemetryMachine::new(),
        }
    }

    /// Append a command payload at the back of the unit's queue.
    pub fn enqueue_command(&mut self, cmd: Vec<u8>)
        ensures
            final(self).commands() == old(self).commands().push(cmd),
            final(self).telemetry_latest() == old(self).telemetry_latest(),
            final(self).telemetry_pending() == old(self).telemetry_pending(),
    {
        self.command_machine.process_input(CommandInput::Enqueue(cmd));
    }

    /// Drain the oldest pending command, if any, in strict FIFO order.
    pub fn poll_command(&mut self) -> (r: Option<Vec<u8>>)
        ensures
            final(self).telemetry_latest() == old(self).telemetry_latest(),
            final(self).telemetry_pending() == old(self).telemetry_pending(),
            match r {
                Some(cmd) => {
                    &&& old(self).commands().len() > 0
                    &&& cmd == old(self).commands()[0]
                    &&& final(self).commands() == old(self).commands().subrange(
                        1,
                        old(self).commands().len() as int,
                    )
                },
                None => {
                    &&& old(self).commands().len() == 0
                    &&& final(self).commands() == old(self).commands()
                },
            },
    {
        match self.command_machine.poll_output() {
            Some(CommandOutput::Command(bytes)) => Some(bytes),
            None => None,
        }
    }

    /// Overwrite the unit's telemetry with a freshly reported position.
    pub fn update_telemetry(&mut self, pos: Position)
        ensures
            final(self).commands() == old(self).commands(),
            final(self).telemetry_latest() == Some(pos@),
            final(self).telemetry_pending(),
    {
        self.telemetry_machine.process_input(TelemetryInput::Position(pos));
    }

    /// Drain the latest telemetry position if it changed since the last poll.
    pub fn poll_telemetry(&mut self) -> (r: Option<Position>)
        ensures
            final(self).commands() == old(self).commands(),
            final(self).telemetry_latest() == old(self).telemetry_latest(),
            !final(self).telemetry_pending(),
            r is Some <==> (old(self).telemetry_pending() && old(self).telemetry_latest() is Some),
            r matches Some(p) ==> old(self).telemetry_latest() == Some(p@),
    {
        match self.telemetry_machine.poll_output() {
            Some(TelemetryOutput::PositionUpdate(pos)) => Some(pos),
            None => None,
        }
    }
}

impl Default for UnitContext {
    fn default() -> (r: Self)
        ensures
            r.commands() == Seq::<Vec<u8>>::empty(),
            r.telemetry_latest() is None,
            !r.telemetry_pending(),
    {
        UnitContext::new()
    }
}

} // verus!
