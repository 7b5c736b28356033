//! The three layered state-machine computations: what a sequential,
//! multi-step suspendable routine looks like when its suspension points are
//! written out by hand.  Each machine owns its child inside the "awaiting"
//! variant itself, so a child exists exactly while it is being awaited and
//! an ill-formed state is unrepresentable.

use vstd::prelude::*;

use crate::task::Computation;
use crate::task::Context;
use crate::task::Event;
use crate::task::Step;

verus! {

/// The leaf computation.  It has no child: its whole state is whether its
/// one observable side effect has already happened.
pub struct PrintAsyncFuture {
    pub done: bool,
}

/// Build a fresh leaf computation whose side effect has not yet occurred.
pub fn print_async() -> (f: PrintAsyncFuture)
    ensures
        !f.done,
{
    PrintAsyncFuture { done: false }
}

impl Computation for PrintAsyncFuture {
    type Output = ();

    open spec fn next_completes(&self) -> bool {
        true
    }

    open spec fn next_emits(&self) -> Seq<Event> {
        if self.done {
            Seq::empty()
        } else {
            seq![Event::PrintEffect]
        }
    }

    open spec fn pending_emits(&self) -> Seq<Event> {
        self.next_emits()
    }

    open spec fn output_spec(&self) -> () {
        ()
    }

    open spec fn steps_left(&self) -> nat {
        0
    }

    /// On the first advance, perform the side effect and complete; on every
    /// later advance, complete again without repeating the effect.
    fn advance(&mut self, _cx: &mut Context, log: &mut Vec<Event>) -> (r: Step<()>)
        ensures
            final(self).done,
    {
        if !self.done {
            log.push(Event::PrintEffect);
            self.done = true;
            proof {
                assert(log@ =~= old(log)@ + old(self).next_emits());
            }
            Step::Complete(())
        } else {
            proof {
                assert(log@ =~= old(log)@ + old(self).next_emits());
            }
            Step::Complete(())
        }
    }
}

/// The middle computation: a state machine that instantiates the leaf and
/// then awaits it.  The child is owned by the awaiting variant, so it exists
/// exactly while this machine is awaiting it.
pub enum HelloFuture {
    Start,
    AwaitingPrint(PrintAsyncFuture),
    Done,
}

/// Build the middle computation in its start state.
pub fn hello() -> (f: HelloFuture)
    ensures
        f is Start,
{
    HelloFuture::Start
}

impl Computation for HelloFuture {
    type Output = ();

    open spec fn next_completes(&self) -> bool {
        true
    }

    open spec fn next_emits(&self) -> Seq<Event> {
        match self {
            HelloFuture::Start => seq![Event::HelloCreatesPrint, Event::HelloPollsPrint]
                + PrintAsyncFuture { done: false }.next_emits()
                + seq![Event::HelloSawPrintComplete],
            HelloFuture::AwaitingPrint(child) => seq![Event::HelloPollsPrint]
                + child.next_emits() + seq![Event::HelloSawPrintComplete],
            HelloFuture::Done => Seq::empty(),
        }
    }

    open spec fn pending_emits(&self) -> Seq<Event> {
        self.next_emits()
    }

    open spec fn output_spec(&self) -> () {
        ()
    }

    open spec fn steps_left(&self) -> nat {
        0
    }

    /// On `Start`, instantiate the child and immediately continue advancing
    /// it — maximal progress within one call.  While awaiting, advance the
    /// child; completion of the child completes this machine, suspension
    /// propagates upward with the child retained.  `Done` reports complete
    /// immediately.
    fn advance(&mut self, cx: &mut Context, log: &mut Vec<Event>) -> (r: Step<()>)
        ensures
            *final(self) is Done,
    {
        match self {
            HelloFuture::Start => {
                log.push(Event::HelloCreatesPrint);
                let mut child = print_async();
                log.push(Event::HelloPollsPrint);
                match child.advance(cx, log) {
                    Step::Complete(()) => {
                        log.push(Event::HelloSawPrintComplete);
                        *self = HelloFuture::Done;
                        proof {
                            assert(log@ =~= old(log)@ + old(self).next_emits());
                        }
                        Step::Complete(())
                    },
                    Step::Suspended => {
                        log.push(Event::HelloSawPrintPending);
                        *self = HelloFuture::AwaitingPrint(child);
                        Step::Suspended
                    },
                }
            },
            HelloFuture::AwaitingPrint(child) => {
                log.push(Event::HelloPollsPrint);
                match child.advance(cx, log) {
                    Step::Complete(()) => {
                        log.push(Event::HelloSawPrintComplete);
                        *self = HelloFuture::Done;
                        proof {
                            assert(log@ =~= old(log)@ + old(self).next_emits());
                        }
                        Step::Complete(())
                    },
                    Step::Suspended => {
                        log.push(Event::HelloSawPrintPending);
                        Step::Suspended
                    },
                }
            },
            HelloFuture::Done => {
                proof {
                    assert(log@ =~= old(log)@ + old(self).next_emits());
                }
                Step::Complete(())
            },
        }
    }
}

/// The outer computation: the top of the chain, instantiating the middle
/// computation and awaiting it.  This is what the driver owns and advances.
pub enum TokioMainFuture {
    Start,
    AwaitingHello(HelloFuture),
    Done,
}

/// Build the outer computation in its start state.
pub fn tokio_main() -> (f: TokioMainFuture)
    ensures
        f is Start,
{
    TokioMainFuture::Start
}

impl Computation for TokioMainFuture {
    type Output = ();

    open spec fn next_completes(&self) -> bool {
        true
    }

    open spec fn next_emits(&self) -> Seq<Event> {
        match self {
            TokioMainFuture::Start => seq![Event::MainCreatesHello, Event::MainPollsHello]
                + HelloFuture::Start.next_emits() + seq![Event::MainSawHelloComplete],
            TokioMainFuture::AwaitingHello(child) => seq![Event::MainPollsHello]
                + child.next_emits() + seq![Event::MainSawHelloComplete],
            TokioMainFuture::Done => Seq::empty(),
        }
    }

    open spec fn pending_emits(&self) -> Seq<Event> {
        self.next_emits()
    }

    open spec fn output_spec(&self) -> () {
        ()
    }

    open spec fn steps_left(&self) -> nat {
        0
    }

    /// Same shape as the middle machine, one layer up.
    fn advance(&mut self, cx: &mut Context, log: &mut Vec<Event>) -> (r: Step<()>)
        ensures
            *final(self) is Done,
    {
        match self {
            TokioMainFuture::Start => {
                log.push(Event::MainCreatesHello);
                let mut child = hello();
                log.push(Event::MainPollsHello);
                match child.advance(cx, log) {
                    Step::Complete(()) => {
                        log.push(Event::MainSawHelloComplete);
                        *self = TokioMainFuture::Done;
                        proof {
                            assert(log@ =~= old(log)@ + old(self).next_emits());
                        }
                        Step::Complete(())
                    },
                    Step::Suspended => {
                        log.push(Event::MainSawHelloPending);
                        *self = TokioMainFuture::AwaitingHello(child);
                        Step::Suspended
                    },
                }
            },
            TokioMainFuture::AwaitingHello(child) => {
                log.push(Event::MainPollsHello);
                match child.advance(cx, log) {
                    Step::Complete(()) => {
                        log.push(Event::MainSawHelloComplete);
                        *self = TokioMainFuture::Done;
                        proof {
                            assert(log@ =~= old(log)@ + old(self).next_emits());
                        }
                        Step::Complete(())
                    },
                    Step::Suspended => {
                        log.push(Event::MainSawHelloPending);
                        Step::Suspended
                    },
                }
            },
            TokioMainFuture::Done => {
                proof {
                    assert(log@ =~= old(log)@ + old(self).next_emits());
                }
                Step::Complete(())
            },
        }
    }
}

/// Law: with leaves that complete synchronously, nothing in the layered
/// chain ever truly suspends — whatever state the chain is in, its very next
/// advance completes.  Together with the contract on `Computation::advance`
/// this says that a single driver advance call returns `Complete`, with no
/// residual suspended state left behind.
pub proof fn lemma_chain_completes_in_one_advance(f: TokioMainFuture)
    ensures
        f.next_completes(),
{
}

/// The total emission of `n` successive advances of a leaf that starts in
/// state `f`: each advance appends `next_emits` and leaves the leaf done,
/// exactly as `PrintAsyncFuture::advance` ensures.
pub open spec fn leaf_emissions(f: PrintAsyncFuture, n: nat) -> Seq<Event>
    decreases n,
{
    if n == 0 {
        Seq::empty()
    } else {
        f.next_emits() + leaf_emissions(PrintAsyncFuture { done: true }, (n - 1) as nat)
    }
}

proof fn lemma_done_leaf_emits_nothing(n: nat)
    ensures
        leaf_emissions(PrintAsyncFuture { done: true }, n) =~= Seq::<Event>::empty(),
    decreases n,
{
    if n > 0 {
        lemma_done_leaf_emits_nothing((n - 1) as nat);
    }
}

/// Law: the leaf's side effect occurs exactly once.  However many advances
/// a fresh leaf receives, everything it ever emits is exactly one
/// `PrintEffect` — the first advance performs the effect and every later
/// advance emits nothing.
pub proof fn lemma_leaf_effect_once(f: PrintAsyncFuture, n: nat)
    requires
        !f.done,
        n >= 1,
    ensures
        leaf_emissions(f, n) =~= seq![Event::PrintEffect],
{
    lemma_done_leaf_emits_nothing((n - 1) as nat);
}

} // verus!
