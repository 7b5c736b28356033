//! The suspend/resume abstraction: what a computation reports when advanced,
//! the context threaded through every advance, the events a computation can
//! emit, and the `Computation` trait itself.

use vstd::prelude::*;

verus! {

/// What one advance of a computation reports: either the computation is
/// finished and yields its result, or it cannot make further progress yet
/// and must be advanced again later.
pub enum Step<T> {
    Complete(T),
    Suspended,
}

/// An observable event reported by the layered computations while they
/// advance.  The driver's caller decides how to render them; the core only
/// guarantees their order.
#[derive(Clone, Copy, Debug, PartialEq, Eq, Structural)]
pub enum Event {
    /// The outer computation instantiated its child.
    MainCreatesHello,
    /// The outer computation is about to advance its child.
    MainPollsHello,
    /// The outer computation observed its child complete.
    MainSawHelloComplete,
    /// The outer computation observed its child suspend.
    MainSawHelloPending,
    /// The middle computation instantiated its child.
    HelloCreatesPrint,
    /// The middle computation is about to advance its child.
    HelloPollsPrint,
    /// The middle computation observed its child complete.
    HelloSawPrintComplete,
    /// The middle computation observed its child suspend.
    HelloSawPrintPending,
    /// The leaf computation performed its one observable side effect.
    PrintEffect,
}

/// The context handed to every advance.  It carries the capability to
/// register a wake notification for use when a computation suspends pending
/// an external event.  In this core no computation ever parks waiting for an
/// external wake — every leaf completes on its first advance — so the context
/// holds no state and is threaded through for structural completeness.
pub struct Context {}

impl Context {
    pub fn new() -> (cx: Context) {
        Context {}
    }
}

/// A computation that is advanced step by step by its owner until it reports
/// `Complete`.
///
/// The specification functions describe the computation's future behaviour:
/// `next_completes` says whether the very next advance completes,
/// `next_emits` gives the events that next advance appends to the log,
/// `pending_emits` gives every event still to be emitted before completion,
/// `output_spec` gives the value the computation completes with, and
/// `steps_left` bounds how many more advances can occur before completion.
/// The contract on `advance` ties them together: each suspension strictly
/// decreases `steps_left`, so an owner that keeps advancing is guaranteed to
/// reach `Complete` — the cooperative-progress guarantee a single-threaded
/// driver relies on.
pub trait Computation: Sized {
    type Output;

    /// Whether the next advance reports `Complete`.
    spec fn next_completes(&self) -> bool;

    /// The events the next advance appends to the log.
    spec fn next_emits(&self) -> Seq<Event>;

    /// Every event still to be emitted from now until completion.
    spec fn pending_emits(&self) -> Seq<Event>;

    /// The value this computation completes with.
    spec fn output_spec(&self) -> Self::Output;

    /// An upper bound on the number of further advances before completion.
    spec fn steps_left(&self) -> nat;

    /// Advance the computation by one step, appending the events it emits to
    /// `log`.  Once it has reported `Complete`, advancing again is allowed
    /// here only because every computation in this core makes its terminal
    /// state explicit and reports `Complete` from it immediately.
    fn advance(&mut self, cx: &mut Context, log: &mut Vec<Event>) -> (r: Step<Self::Output>)
        ensures
            final(log)@ == old(log)@ + old(self).next_emits(),
            old(self).next_completes() ==> {
                &&& r == Step::Complete(old(self).output_spec())
                &&& old(self).pending_emits() == old(self).next_emits()
            },
            !old(self).next_completes() ==> {
                &&& r is Suspended
                &&& final(self).steps_left() < old(self).steps_left()
                &&& final(self).output_spec() == old(self).output_spec()
                &&& old(self).pending_emits() == old(self).next_emits()
                    + final(self).pending_emits()
            },
    ;
}

} // verus!
