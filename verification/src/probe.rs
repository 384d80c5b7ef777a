//! Settling probe outcomes: the decision layer of the probe runner. The
//! transport layer executes the requests (concurrently across targets) and
//! hands each target's two transport outcomes back; the functions here turn
//! them into the target's final `ProbeOutcome`.

use vstd::prelude::*;
use crate::classify::{SpecTarget, Target};
use crate::interpret::{
    is_readable, is_writable, outcome_view, spec_readable, spec_writable, HttpResponse,
    SpecHttpResponse,
};

verus! {

/// The result of probing one target: whether anonymous read and write
/// access were observed. Not mutated after creation.
#[derive(Clone, Debug)]
pub struct ProbeOutcome {
    pub target: Target,
    pub readable: bool,
    pub writable: bool,
}

/// The mathematical value of a `ProbeOutcome`.
pub struct SpecProbeOutcome {
    pub target: SpecTarget,
    pub readable: bool,
    pub writable: bool,
}

impl View for ProbeOutcome {
    type V = SpecProbeOutcome;

    open spec fn view(&self) -> SpecProbeOutcome {
        SpecProbeOutcome {
            target: self.target@,
            readable: self.readable,
            writable: self.writable,
        }
    }
}

/// The transport outcomes gathered for one target: the read-probe response
/// and the write-probe response, each absent on transport failure.
pub struct ProbeEvidence {
    pub target: Target,
    pub read: Option<HttpResponse>,
    pub write: Option<HttpResponse>,
}

/// The outcome a target must settle to, given the two transport outcomes.
pub open spec fn spec_settle(
    t: SpecTarget,
    read: Option<SpecHttpResponse>,
    write: Option<SpecHttpResponse>,
) -> SpecProbeOutcome {
    SpecProbeOutcome {
        target: t,
        readable: spec_readable(t.provider, read),
        writable: spec_writable(write),
    }
}

/// Settle one target's outcome from its two transport outcomes. A transport
/// error in either probe downgrades that capability to `false`; it never
/// aborts the run.
pub fn settle(target: Target, read: Option<HttpResponse>, write: Option<HttpResponse>) -> (r:
    ProbeOutcome)
    ensures
        r@ == spec_settle(target@, outcome_view(read), outcome_view(write)),
{
    let readable = is_readable(target.provider, &read);
    let writable = is_writable(&write);
    ProbeOutcome { target, readable, writable }
}

/// Settle every target of a finished run: exactly one outcome per target,
/// in the order the evidence was collected, each settled independently of
/// the others.
pub fn settle_all(items: Vec<ProbeEvidence>) -> (r: Vec<ProbeOutcome>)
    ensures
        r@.len() == items@.len(),
        forall|i: int|
            0 <= i < items@.len() ==> r@[i]@ == spec_settle(
                items@[i].target@,
                outcome_view(items@[i].read),
                outcome_view(items@[i].write),
            ),
{
    let ghost orig = items@;
    let mut rest = items;
    let mut out: Vec<ProbeOutcome> = Vec::new();
    while rest.len() > 0
        invariant
            out@.len() + rest@.len() == orig.len(),
            rest@ == orig.subrange(out@.len() as int, orig.len() as int),
            forall|i: int|
                0 <= i < out@.len() ==> out@[i]@ == spec_settle(
                    orig[i].target@,
                    outcome_view(orig[i].read),
                    outcome_view(orig[i].write),
                ),
        decreases rest.len(),
    {
        let ghost done = out@.len() as int;
        let e = rest.remove(0);
        proof {
            assert(e == orig[done]);
            assert(rest@ =~= orig.subrange(done + 1, orig.len() as int));
        }
        let o = settle(e.target, e.read, e.write);
        out.push(o);
    }
    out
}

/// A target both of whose probes failed at the transport level (for
/// instance, both timed out) settles to no access at all.
pub proof fn lemma_timeout_settles_to_no_access(t: SpecTarget)
    ensures
        !spec_settle(t, None::<SpecHttpResponse>, None::<SpecHttpResponse>).readable,
        !spec_settle(t, None::<SpecHttpResponse>, None::<SpecHttpResponse>).writable,
{
}

} // verus!
