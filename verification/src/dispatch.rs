//! The dispatch driver's sequencing point. Challenge requests may arrive
//! from several producers at once; everything that must not race — sequence
//! numbers, the at-most-one in-flight rule, the authoritative mode check
//! before submission, the retry-or-drop rule — is decided here.

use vstd::prelude::*;
use crate::retry::RetryBudget;
use crate::types::ChallengeRequest;
use crate::types::ChallengerMode;

verus! {

/// Parameters a submission is attempted with.
#[derive(Clone, Copy, Debug, PartialEq, Eq, Structural)]
pub struct SubmissionParams {
    pub gas_limit: u64,
    pub priority_fee_per_gas: u64,
}

/// The priority fee a retried submission is raised to: an eighth more,
/// rounded up, saturating at the top of the range.
pub open spec fn bumped_fee(fee: u64) -> u64 {
    if fee + fee / 8 + 1 > u64::MAX {
        u64::MAX
    } else {
        (fee + fee / 8 + 1) as u64
    }
}

/// The parameters a retried submission is adjusted to: same gas limit,
/// raised priority fee.
pub open spec fn adjusted_params(p: SubmissionParams) -> SubmissionParams {
    SubmissionParams { gas_limit: p.gas_limit, priority_fee_per_gas: bumped_fee(p.priority_fee_per_gas) }
}

/// Raise the parameters for one more submission attempt.
pub fn adjust_params(p: &SubmissionParams) -> (r: SubmissionParams)
    ensures
        r == adjusted_params(*p),
{
    let bump: u64 = p.priority_fee_per_gas / 8 + 1;
    let fee: u64 = match p.priority_fee_per_gas.checked_add(bump) {
        Some(f) => f,
        None => u64::MAX,
    };
    SubmissionParams { gas_limit: p.gas_limit, priority_fee_per_gas: fee }
}

/// A challenge request with the sequence number the dispatcher assigned it.
#[derive(Clone, Copy, Debug, PartialEq, Eq)]
pub struct SequencedChallenge {
    pub sequence: u64,
    pub request: ChallengeRequest,
}

/// What the dispatch loop does after one submission attempt.
#[derive(Clone, Copy, Debug, PartialEq, Eq)]
pub enum DispatchStep {
    /// The transaction was accepted; this request's lifecycle ends here.
    Submitted,
    /// A transient failure with budget left: attempt again, with these
    /// adjusted parameters.
    Retry(SubmissionParams),
    /// The budget is exhausted: drop the request, reporting its sequence
    /// number for audit; never fatal, the loop continues.
    Dropped(u64),
}

/// Decide the dispatch loop's next move after one submission attempt.
pub fn after_submission_attempt(
    accepted: bool,
    sequence: u64,
    params: &SubmissionParams,
    budget: &mut RetryBudget,
) -> (r: DispatchStep)
    ensures
        accepted ==> r == DispatchStep::Submitted && *final(budget) == *old(budget),
        !accepted && old(budget).remaining > 0 ==> r == DispatchStep::Retry(
            adjusted_params(*params),
        ) && final(budget).remaining == old(budget).remaining - 1,
        !accepted && old(budget).remaining == 0 ==> r == DispatchStep::Dropped(sequence)
            && *final(budget) == *old(budget),
{
    if accepted {
        DispatchStep::Submitted
    } else if budget.on_transient_failure() {
        DispatchStep::Retry(adjust_params(params))
    } else {
        DispatchStep::Dropped(sequence)
    }
}

/// The dispatcher's own state: the operating mode it was configured with,
/// the next sequence number to hand out, and whether a transaction is in
/// flight for the signing identity.
#[derive(Clone, Copy, Debug, PartialEq, Eq)]
pub struct TxDispatcher {
    pub mode: ChallengerMode,
    pub next_sequence: u64,
    pub in_flight: bool,
}

impl TxDispatcher {
    /// A fresh dispatcher: sequence numbers start at zero, nothing in
    /// flight.
    pub fn new(mode: ChallengerMode) -> (r: TxDispatcher)
        ensures
            r.mode == mode,
            r.next_sequence == 0,
            !r.in_flight,
    {
        TxDispatcher { mode, next_sequence: 0, in_flight: false }
    }

    /// Accept one challenge request, assigning it the next sequence number.
    pub fn accept(&mut self, request: ChallengeRequest) -> (out: SequencedChallenge)
        requires
            old(self).next_sequence < u64::MAX,
        ensures
            out.sequence == old(self).next_sequence,
            out.request == request,
            final(self).next_sequence == old(self).next_sequence + 1,
            final(self).mode == old(self).mode,
            final(self).in_flight == old(self).in_flight,
    {
        let sequence: u64 = self.next_sequence;
        self.next_sequence = self.next_sequence + 1;
        SequencedChallenge { sequence, request }
    }

    /// Serialize one batch of concurrently arrived requests: each gets the
    /// next sequence number, in arrival order.
    pub fn accept_all(&mut self, requests: &Vec<ChallengeRequest>) -> (out: Vec<
        SequencedChallenge,
    >)
        requires
            old(self).next_sequence + requests@.len() <= u64::MAX,
        ensures
            out@.len() == requests@.len(),
            forall|i: int|
                0 <= i < out@.len() ==> #[trigger] out@[i].sequence == old(self).next_sequence
                    + i,
            forall|i: int| 0 <= i < out@.len() ==> #[trigger] out@[i].request == requests@[i],
            final(self).next_sequence == old(self).next_sequence + requests@.len(),
            final(self).mode == old(self).mode,
            final(self).in_flight == old(self).in_flight,
    {
        let mut out: Vec<SequencedChallenge> = Vec::new();
        let mut i: usize = 0;
        while i < requests.len()
            invariant
                i <= requests@.len(),
                old(self).next_sequence + requests@.len() <= u64::MAX,
                self.next_sequence == old(self).next_sequence + i,
                self.mode == old(self).mode,
                self.in_flight == old(self).in_flight,
                out@.len() == i,
                forall|k: int|
                    0 <= k < i ==> #[trigger] out@[k].sequence == old(self).next_sequence + k,
                forall|k: int| 0 <= k < i ==> #[trigger] out@[k].request == requests@[k],
            decreases requests@.len() - i,
        {
            let sequenced = self.accept(requests[i]);
            out.push(sequenced);
            i += 1;
        }
        out
    }

    /// The authoritative mode check, made immediately before submission:
    /// only listen-and-respond submits.
    pub fn should_submit(&self) -> (r: bool)
        ensures
            r == (self.mode == ChallengerMode::ListenAndRespond),
    {
        self.mode == ChallengerMode::ListenAndRespond
    }

    /// Take the submission slot. At most one transaction is in flight per
    /// signing identity, so the slot must be free.
    pub fn begin_submission(&mut self)
        requires
            !old(self).in_flight,
        ensures
            final(self).in_flight,
            final(self).mode == old(self).mode,
            final(self).next_sequence == old(self).next_sequence,
    {
        self.in_flight = true;
    }

    /// Release the submission slot once the attempt has concluded.
    pub fn finish_submission(&mut self)
        requires
            old(self).in_flight,
        ensures
            !final(self).in_flight,
            final(self).mode == old(self).mode,
            final(self).next_sequence == old(self).next_sequence,
    {
        self.in_flight = false;
    }
}

/// Whether some request in the batch carries sequence number `s`.
pub open spec fn some_request_has(out: Seq<SequencedChallenge>, s: int) -> bool {
    exists|i: int| 0 <= i < out.len() && #[trigger] out[i].sequence == s
}

/// Law: the sequence numbers handed out for one serialized batch have no
/// duplicates and no gaps — every number from the starting point up to the
/// batch's end is assigned to exactly one request.
pub proof fn lemma_sequences_dense(out: Seq<SequencedChallenge>, start: u64)
    requires
        start + out.len() <= u64::MAX,
        forall|i: int| 0 <= i < out.len() ==> #[trigger] out[i].sequence == start + i,
    ensures
        forall|i: int, j: int|
            0 <= i < out.len() && 0 <= j < out.len() && i != j ==> out[i].sequence
                != out[j].sequence,
        forall|s: int| start <= s < start + out.len() ==> #[trigger] some_request_has(out, s),
{
    assert forall|s: int| start <= s < start + out.len() implies #[trigger] some_request_has(
        out,
        s,
    ) by {
        assert(out[s - start].sequence == s);
    }
}

} // verus!
