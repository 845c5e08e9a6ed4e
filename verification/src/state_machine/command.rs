use std::collections::VecDeque;
use vstd::prelude::*;

use super::StateMachine;

verus! {

/// A state machine that buffers opaque command payloads and hands them back
/// in strict first-in-first-out order, one per poll.
pub struct CommandQueueMachine {
    pending_commands: VecDeque<Vec<u8>>,
}

impl View for CommandQueueMachine {
    type V = Seq<Vec<u8>>;

    closed spec fn view(&self) -> Seq<Vec<u8>> {
        self.pending_commands@
    }
}

impl CommandQueueMachine {
    pub fn new() -> (r: Self)
        ensures
            r@ == Seq::<Vec<u8>>::empty(),
    {
        CommandQueueMachine { pending_commands: VecDeque::new() }
    }

    /// Number of commands waiting to be polled.
    pub fn pending_count(&self) -> (r: usize)
        ensures
            r == self@.len(),
    {
        self.pending_commands.len()
    }

    /// Whether no command is waiting.
    pub fn is_empty(&self) -> (r: bool)
        ensures
            r == (self@.len() == 0),
    {
        self.pending_commands.len() == 0
    }

    fn enqueue(&mut self, cmd: Vec<u8>)
        ensures
            final(self)@ == old(self)@.push(cmd),
    {
        self.pending_commands.push_back(cmd);
    }

    fn dequeue(&mut self) -> (r: Option<Vec<u8>>)
        ensures
            match r {
                Some(cmd) => {
                    &&& old(self)@.len() > 0
                    &&& cmd == old(self)@[0]
                    &&& final(self)@ == old(self)@.subrange(1, old(self)@.len() as int)
                },
                None => {
                    &&& old(self)@.len() == 0
                    &&& final(self)@ == old(self)@
                },
            },
    {
        self.pending_commands.pop_front()
    }
}

impl Default for CommandQueueMachine {
    fn default() -> (r: Self)
        ensures
            r@ == Seq::<Vec<u8>>::empty(),
    {
        CommandQueueMachine::new()
    }
}

pub enum CommandInput {
    Enqueue(Vec<u8>),
}

pub enum CommandOutput {
    Command(Vec<u8>),
}

impl StateMachine for CommandQueueMachine {
    type Input = CommandInput;

    type Output = CommandOutput;

    /// Enqueueing appends the command at the back of the queue.
    fn process_input(&mut self, input: CommandInput)
        ensures
            match input {
                CommandInput::Enqueue(cmd) => final(self)@ == old(self)@.push(cmd),
            },
    {
        match input {
            CommandInput::Enqueue(cmd) => self.enqueue(cmd),
        }
    }

    /// Polling drains the oldest queued command; an empty queue polls to
    /// nothing.
    fn poll_output(&mut self) -> (r: Option<CommandOutput>)
        ensures
            match r {
                Some(CommandOutput::Command(cmd)) => {
                    &&& old(self)@.len() > 0
                    &&& cmd == old(self)@[0]
                    &&& final(self)@ == old(self)@.subrange(1, old(self)@.len() as int)
                },
                None => {
                    &&& old(self)@.len() == 0
                    &&& final(self)@ == old(self)@
                },
            },
    {
        match self.dequeue() {
            Some(cmd) => Some(CommandOutput::Command(cmd)),
            None => None,
        }
    }
}

} // verus!
