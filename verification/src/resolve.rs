//! Tool-candidate resolution: choose among alternative binary names.
//!
//! Given an ordered list of candidate executable names, the resolver offers
//! them for probing one at a time, in order, and stops at the first candidate
//! whose probe succeeded. The probes themselves (spawning the candidate with
//! a version-query flag) are run by the surrounding binary, which feeds each
//! outcome back with `record`. The resolver never offers a candidate after
//! one has succeeded, and never returns a candidate whose probe failed: when
//! every probe failed, resolution yields nothing rather than a guess.

use vstd::prelude::*;

verus! {

/// Deterministic fallback chain over candidate binary names.
pub struct ToolResolver {
    candidates: Vec<String>,
    outcomes: Vec<bool>,
}

impl ToolResolver {
    /// The candidate names, in probe order.
    pub closed spec fn spec_candidates(self) -> Seq<Seq<char>> {
        self.candidates@.map_values(|s: String| s@)
    }

    /// The probe outcomes recorded so far, one per probed candidate, in order.
    pub closed spec fn spec_outcomes(self) -> Seq<bool> {
        self.outcomes@
    }

    /// How many candidates have been probed.
    pub open spec fn num_probed(self) -> nat {
        self.spec_outcomes().len()
    }

    /// The index of the resolved candidate: the last probe, when it succeeded.
    /// Well-formedness makes it the first success overall.
    pub open spec fn spec_resolved(self) -> Option<int> {
        if self.num_probed() > 0 && self.spec_outcomes().last() {
            Some(self.num_probed() - 1)
        } else {
            None
        }
    }

    /// Structural invariant: no candidate is probed past the end of the list,
    /// and every probe before the last one failed — probing stops at the
    /// first success, so only the last recorded outcome can be a success.
    pub closed spec fn wf(self) -> bool {
        &&& self.outcomes@.len() <= self.candidates@.len()
        &&& forall|j: int| 0 <= j < self.outcomes@.len() - 1 ==> !self.outcomes@[j]
    }

    /// Resolution is still undecided: no probe succeeded yet and candidates
    /// remain to try.
    pub open spec fn spec_pending(self) -> bool {
        self.spec_resolved() is None && self.num_probed() < self.spec_candidates().len()
    }

    /// Start a fallback chain over the given candidate names.
    pub fn new(candidates: Vec<String>) -> (r: ToolResolver)
        ensures
            r.wf(),
            r.spec_candidates() == candidates@.map_values(|s: String| s@),
            r.num_probed() == 0,
    {
        ToolResolver { candidates, outcomes: Vec::new() }
    }

    /// The next candidate to probe: the first one not yet tried. Yields
    /// nothing once a probe has succeeded or every candidate has been tried,
    /// so no candidate is ever probed after an earlier one succeeded.
    pub fn pending(&self) -> (r: Option<&String>)
        requires
            self.wf(),
        ensures
            r is Some <==> self.spec_pending(),
            r is Some ==> (r->0)@ == self.spec_candidates()[self.num_probed() as int],
    {
        if self.outcomes.len() > 0 && self.outcomes[self.outcomes.len() - 1] {
            None
        } else if self.outcomes.len() < self.candidates.len() {
            Some(&self.candidates[self.outcomes.len()])
        } else {
            None
        }
    }

    /// Record the outcome of probing the pending candidate.
    pub fn record(&mut self, ok: bool)
        requires
            old(self).wf(),
            old(self).spec_pending(),
        ensures
            final(self).wf(),
            final(self).spec_candidates() == old(self).spec_candidates(),
            final(self).spec_outcomes() == old(self).spec_outcomes().push(ok),
    {
        self.outcomes.push(ok);
    }

    /// The result of a finished chain: the index of the first candidate whose
    /// probe succeeded, or nothing when every candidate failed.
    pub fn resolution(&self) -> (r: Option<usize>)
        requires
            self.wf(),
            !self.spec_pending(),
        ensures
            match r {
                Some(i) => i < self.spec_candidates().len() && self.spec_outcomes()[i as int]
                    && (forall|j: int| 0 <= j < i ==> !self.spec_outcomes()[j]),
                None => self.num_probed() == self.spec_candidates().len() && (forall|j: int|
                    0 <= j < self.spec_outcomes().len() ==> !self.spec_outcomes()[j]),
            },
    {
        if self.outcomes.len() > 0 && self.outcomes[self.outcomes.len() - 1] {
            Some(self.outcomes.len() - 1)
        } else {
            None
        }
    }

    /// Probing respects the candidate order and never goes past the first
    /// success: once resolved to index `i`, exactly the first `i + 1`
    /// candidates were probed, every probe before `i` failed, and no
    /// candidate after `i` was ever run.
    pub proof fn lemma_no_probe_after_success(self)
        requires
            self.wf(),
            self.spec_resolved() is Some,
        ensures
            self.num_probed() == self.spec_resolved()->0 + 1,
            self.spec_outcomes()[self.spec_resolved()->0],
            forall|j: int| 0 <= j < self.spec_resolved()->0 ==> !self.spec_outcomes()[j],
    {
    }
}

} // verus!
