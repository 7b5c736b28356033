//! The single-threaded driver: it owns the one top-level computation and
//! advances it repeatedly until it reports completion.

use vstd::prelude::*;

use crate::task::Computation;
use crate::task::Context;
use crate::task::Event;
use crate::task::Step;

verus! {

/// Advance `c` until it completes and return its result.
///
/// On `Suspended` the driver simply retries: in a richer environment this is
/// where it would park until a registered wake fired, and the cooperative
/// contract on `Computation::advance` — every suspension strictly decreases
/// `steps_left` — is exactly what guarantees that retrying terminates.  The
/// returned value and the events appended to `log` are pinned down by the
/// computation's own specification.
#[verifier::loop_isolation(false)]
pub fn run<C: Computation>(c: C, cx: &mut Context, log: &mut Vec<Event>) -> (r: C::Output)
    ensures
        r == c.output_spec(),
        final(log)@ == old(log)@ + c.pending_emits(),
{
    let mut comp = c;
    let ghost c0 = comp;
    loop
        invariant
            comp.output_spec() == c0.output_spec(),
            log@ + comp.pending_emits() == old(log)@ + c0.pending_emits(),
        decreases comp.steps_left(),
    {
        match comp.advance(cx, log) {
            Step::Complete(v) => {
                proof {
                    assert(log@ =~= old(log)@ + c0.pending_emits());
                }
                return v;
            },
            Step::Suspended => {
                proof {
                    assert(log@ + comp.pending_emits() =~= old(log)@ + c0.pending_emits());
                }
            },
        }
    }
}

} // verus!
