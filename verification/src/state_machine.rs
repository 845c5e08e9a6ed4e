use vstd::prelude::*;

pub mod command;
pub mod echo;
pub mod telemetry;
pub mod wrappers;

verus! {

/// The [`StateMachine`] trait provides calling semantics and indicates the
/// upholding of invariants that guarantee deterministic behavior.
///
/// A state machine accepts a tagged [`Input`](StateMachine::Input) value
/// through [`process_input`](StateMachine::process_input), which mutates
/// internal state only, and exposes a tagged [`Output`](StateMachine::Output)
/// value through [`poll_output`](StateMachine::poll_output), which drains at
/// most one pending output per call and must be polled repeatedly to drain
/// multiple pending outputs. Polling is a non-blocking check, never a wait.
///
/// Implementors must be pure: no interior mutability, no I/O, no system time,
/// no system randomness, no concurrency, no blocking. Any such external value
/// (a timestamp, a random seed) must arrive pre-computed as part of an Input
/// value, so that identical input sequences produce identical output sequences
/// and identical internal state, independent of timing. Time and randomness
/// can be injected generically through the [`wrappers`] module.
pub trait StateMachine {
    /// The type of input that is [processed](StateMachine::process_input) by
    /// the state machine.
    ///
    /// This is often an enum containing all the possible variants of input,
    /// but can also be a struct when there is only one input variant.
    type Input;

    /// The type of output that is [polled](StateMachine::poll_output) by the
    /// state machine.
    ///
    /// This is often an enum containing all the possible variants of output,
    /// but can also be a struct when there is only one output variant.
    type Output;

    /// Process the provided `input` into the state machine.
    ///
    /// The implementor of this method provides the dispatch mapping from the
    /// unified [`Input`](StateMachine::Input) type of this trait to the
    /// corresponding method of the state machine.
    fn process_input(&mut self, input: Self::Input);

    /// Poll the state machine for output, returning the first available
    /// output if present.
    ///
    /// The implementor of this trait provides the dispatch mapping from the
    /// polling methods of the state machine to the unified
    /// [`Output`](StateMachine::Output) type of this trait.
    fn poll_output(&mut self) -> Option<Self::Output>;
}

} // verus!
