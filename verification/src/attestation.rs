//! The attestation driver's decision: compare a claimed root against the
//! trusted source's root, count divergences, and raise a challenge when the
//! mode allows responding.

use vstd::prelude::*;
use crate::telemetry::increment_root_mismatch_count;
use crate::telemetry::MismatchCounter;
use crate::types::ChallengeRequest;
use crate::types::ChallengerMode;
use crate::types::DisputeGameRecord;
use crate::types::OutputRoot;

verus! {

/// The counter reading after one attestation check.
pub open spec fn count_after(count: nat, claimed: Seq<u8>, trusted: Seq<u8>) -> nat {
    if claimed == trusted {
        count
    } else {
        count + 1
    }
}

/// The challenge, if any, that one attestation check produces: exactly one
/// on a mismatch in listen-and-respond mode, carrying the trusted root as
/// evidence; none otherwise.
pub open spec fn challenge_of(
    record: DisputeGameRecord,
    trusted: OutputRoot,
    mode: ChallengerMode,
) -> Option<ChallengeRequest> {
    if record.claimed_root@ != trusted@ && mode == ChallengerMode::ListenAndRespond {
        Some(ChallengeRequest { game: record, evidence: trusted })
    } else {
        None
    }
}

/// One step of the attestation driver: given a routed record and the root
/// the trusted source returned for the disputed block, compare byte for
/// byte; on a mismatch, bump the counter and — only in listen-and-respond
/// mode — produce the challenge.
pub fn check_attestation(
    record: &DisputeGameRecord,
    trusted: &OutputRoot,
    mode: ChallengerMode,
    counter: &mut MismatchCounter,
) -> (r: Option<ChallengeRequest>)
    requires
        old(counter).count < u64::MAX,
    ensures
        final(counter).count == count_after(
            old(counter).count as nat,
            record.claimed_root@,
            trusted@,
        ),
        r == challenge_of(*record, *trusted, mode),
{
    if record.claimed_root.equals(trusted) {
        None
    } else {
        increment_root_mismatch_count(counter);
        if mode == ChallengerMode::ListenAndRespond {
            Some(ChallengeRequest { game: *record, evidence: *trusted })
        } else {
            None
        }
    }
}

/// Law: on a divergence the counter rises by exactly one, whatever the
/// mode; listen-and-respond yields exactly one challenge, carrying the
/// trusted root as evidence; listen-only yields none.
pub proof fn lemma_mismatch_step(
    record: DisputeGameRecord,
    trusted: OutputRoot,
    mode: ChallengerMode,
    count: nat,
)
    requires
        record.claimed_root@ != trusted@,
    ensures
        count_after(count, record.claimed_root@, trusted@) == count + 1,
        mode == ChallengerMode::ListenAndRespond ==> challenge_of(record, trusted, mode)
            == Some(ChallengeRequest { game: record, evidence: trusted }),
        mode == ChallengerMode::ListenOnly ==> challenge_of(record, trusted, mode) is None,
{
}

/// Law: the mismatch counter is monotonic — no attestation step, matching
/// or not, ever lowers it.
pub proof fn lemma_counter_monotone(count: nat, claimed: Seq<u8>, trusted: Seq<u8>)
    ensures
        count_after(count, claimed, trusted) >= count,
{
}

/// Law: on agreement the counter is unchanged and no challenge is produced,
/// whatever the mode.
pub proof fn lemma_match_step(
    record: DisputeGameRecord,
    trusted: OutputRoot,
    mode: ChallengerMode,
    count: nat,
)
    requires
        record.claimed_root@ == trusted@,
    ensures
        count_after(count, record.claimed_root@, trusted@) == count,
        challenge_of(record, trusted, mode) is None,
{
}

} // verus!
