//! Common wrappers to provide generic functionality to
//! [`StateMachine`](super::StateMachine) containers that want to provide
//! injected behavior for common state machine dependencies.
//!
//! State machines must receive system resources (time, entropy)
//! deterministically via input; these wrappers let an impure outer runner
//! produce such values and pass them in.

use vstd::prelude::*;

verus! {

/// The [`SystemResource`] trait indicates that a type is a resource inherently
/// provided by the system context of the application.
///
/// Provides a single method [`generate`](SystemResource::generate) which takes
/// no input, producing an instance of the resource from only the implicit
/// system context. Nothing can be promised of the produced value: it depends
/// on the state of the system at the moment of the call.
///
/// This is intended for usage with [`SystemInput`] in order to define generic
/// handling of system input into a [`StateMachine`](super::StateMachine).
pub trait SystemResource: Sized {
    /// Produce an instance of this resource with no direct input, drawing only
    /// from the implicitly available global system context.
    fn generate() -> Self;
}

impl<A: SystemResource> SystemResource for (A,) {
    fn generate() -> Self {
        (A::generate(),)
    }
}

impl<A: SystemResource, B: SystemResource> SystemResource for (A, B) {
    fn generate() -> Self {
        (A::generate(), B::generate())
    }
}

impl<A: SystemResource, B: SystemResource, C: SystemResource> SystemResource for (A, B, C) {
    fn generate() -> Self {
        (A::generate(), B::generate(), C::generate())
    }
}

impl<A: SystemResource, B: SystemResource, C: SystemResource, D: SystemResource> SystemResource for (
    A,
    B,
    C,
    D,
) {
    fn generate() -> Self {
        (A::generate(), B::generate(), C::generate(), D::generate())
    }
}

#[verifier::external_type_specification]
#[verifier::external_body]
pub struct ExInstant(std::time::Instant);

/// Relies on std::time::Instant::now: reads the monotonic clock, so nothing
/// is promised of the returned value.
#[verifier::external_body]
fn instant_now() -> std::time::Instant {
    std::time::Instant::now()
}

impl SystemResource for std::time::Instant {
    fn generate() -> Self {
        instant_now()
    }
}

/// A [`StateMachine`](super::StateMachine) input wrapper for providing
/// [`SystemResource`] to the state machine.
pub enum SystemInput<I, S> {
    Input(I),
    System(S),
}

/// The output wrapper uses `Result<T, E>` to be able to provide an additional
/// "wait value" when output isn't present.
///
/// Note that state machines still may return `None` if no wait value is
/// applicable.
pub type WrappedOutput<T, E> = Result<T, E>;

} // verus!
