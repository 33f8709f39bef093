use vstd::prelude::*;
use crate::codec::encode;
use crate::codec::spec_encode_message;
use crate::errors::FairLendError;
use crate::policy::get_ltv_for_tier;
use crate::policy::spec_ltv_for_tier;
use crate::record::spec_record_covers;
use crate::record::verify_ed25519_ix_data;
use crate::timestamp::check_freshness;
use crate::timestamp::spec_is_fresh;
use crate::timestamp::spec_is_future;
use crate::timestamp::spec_is_stale;

verus! {

/// One sibling instruction record bundled in the same atomic transaction: the
/// identifier of the program that produced it (its origin) and its raw,
/// untrusted data bytes.
pub struct InstructionRecord {
    pub program_id: [u8; 32],
    pub data: Vec<u8>,
}

/// Immutable engine configuration, set once at initialization: the trusted
/// attester's public key (the only accepted signer of attestations) and the
/// identifier of the well-known signature-verification authority whose
/// records count as trust evidence.
pub struct VerifierConfig {
    pub attester_key: [u8; 32],
    pub authority_id: [u8; 32],
}

/// The structured approval record produced only on full success; write-once
/// and immutable.
#[derive(Clone, Copy, Debug, PartialEq, Eq)]
pub struct BorrowApproved {
    pub user: [u8; 32],
    pub score: u64,
    pub tier: u8,
    pub max_ltv: u8,
    pub timestamp: i64,
}

/// A sibling record counts as a match when its origin is the configured
/// verification authority and its bytes parse to cover the trusted attester
/// key and exactly the expected message.
pub open spec fn spec_instruction_matches(
    rec: InstructionRecord,
    config: VerifierConfig,
    expected_message: Seq<u8>,
) -> bool {
    &&& rec.program_id@ == config.authority_id@
    &&& spec_record_covers(rec.data@, config.attester_key@, expected_message)
}

/// Some record at a position strictly below `scan_bound` matches.
pub open spec fn spec_match_exists(
    instructions: Seq<InstructionRecord>,
    scan_bound: int,
    config: VerifierConfig,
    expected_message: Seq<u8>,
) -> bool {
    exists|i: int|
        0 <= i < scan_bound && spec_instruction_matches(instructions[i], config, expected_message)
}

/// Positions eligible for scanning: strictly before the caller's own index,
/// and only as far as records actually exist.
pub open spec fn spec_scan_bound(len: int, current_index: int) -> int {
    if current_index <= len {
        current_index
    } else {
        len
    }
}

/// Compares two 32-byte identifiers for exact byte equality.
#[verifier::loop_isolation(false)]
fn bytes32_eq(a: &[u8; 32], b: &[u8; 32]) -> (r: bool)
    ensures
        r == (a@ == b@),
{
    let mut i: usize = 0;
    while i < 32
        invariant
            i <= 32,
            forall|k: int| 0 <= k < i ==> a@[k] == b@[k],
        decreases 32 - i,
    {
        if a[i] != b[i] {
            return false;
        }
        i = i + 1;
    }
    proof {
        assert(a@ =~= b@);
    }
    true
}

/// Scans the sibling records at positions strictly before `current_index`,
/// skipping wrong-origin or non-matching records without error, and reports
/// whether any record matches the expected signer and message. Scanning
/// stops at the first match; since only existence is reported, the result is
/// exactly "some eligible sibling matches".
#[verifier::loop_isolation(false)]
pub fn find_matching_record(
    instructions: &Vec<InstructionRecord>,
    current_index: usize,
    config: &VerifierConfig,
    expected_message: &Vec<u8>,
) -> (found: bool)
    ensures
        found == spec_match_exists(
            instructions@,
            spec_scan_bound(instructions@.len() as int, current_index as int),
            *config,
            expected_message@,
        ),
{
    let bound: usize = if current_index <= instructions.len() {
        current_index
    } else {
        instructions.len()
    };
    let mut i: usize = 0;
    while i < bound
        invariant
            i <= bound,
            !spec_match_exists(instructions@, i as int, *config, expected_message@),
        decreases bound - i,
    {
        let rec = &instructions[i];
        let origin_ok = bytes32_eq(&rec.program_id, &config.authority_id);
        let mut matched = false;
        if origin_ok {
            matched = verify_ed25519_ix_data(
                rec.data.as_slice(),
                &config.attester_key,
                expected_message.as_slice(),
            );
        }
        if matched {
            proof {
                assert(spec_instruction_matches(instructions@[i as int], *config, expected_message@));
            }
            return true;
        }
        proof {
            assert(!spec_instruction_matches(instructions@[i as int], *config, expected_message@));
        }
        i = i + 1;
    }
    false
}

/// Scanner law: if any one eligible sibling record has the right origin and
/// covers the expected signer and message, the scan reports a match, no
/// matter what other records — wrong-origin, malformed, or non-matching —
/// stand before or after it.
pub proof fn lemma_one_matching_sibling_suffices(
    instructions: Seq<InstructionRecord>,
    scan_bound: int,
    i: int,
    config: VerifierConfig,
    expected_message: Seq<u8>,
)
    requires
        0 <= i < scan_bound,
        spec_instruction_matches(instructions[i], config, expected_message),
    ensures
        spec_match_exists(instructions, scan_bound, config, expected_message),
{
}

/// The complete borrow-validation gate: freshness, attestation verification
/// against the sibling records, then tier policy, failing fast in that order.
///
/// For any inputs:
/// - a stale timestamp yields `StaleAttestation`;
/// - otherwise a too-far-future timestamp yields `InvalidTimestamp`;
/// - otherwise, if no sibling record before `current_index` matches the
///   trusted attester key and the canonical encoding of the attestation
///   tuple, the call yields `InvalidSignature`;
/// - otherwise a tier below 2 yields `TierTooLow`;
/// - otherwise the call succeeds with the approval event carrying the
///   attested tuple and the tier's maximum LTV.
pub fn validate_borrow(
    config: &VerifierConfig,
    user: &[u8; 32],
    score: u64,
    tier: u8,
    timestamp: i64,
    now: i64,
    instructions: &Vec<InstructionRecord>,
    current_index: usize,
) -> (r: Result<BorrowApproved, FairLendError>)
    ensures
        spec_is_stale(now, timestamp) ==> r == Err::<BorrowApproved, FairLendError>(
            FairLendError::StaleAttestation,
        ),
        !spec_is_stale(now, timestamp) && spec_is_future(now, timestamp) ==> r == Err::<
            BorrowApproved,
            FairLendError,
        >(FairLendError::InvalidTimestamp),
        spec_is_fresh(now, timestamp) && !spec_match_exists(
            instructions@,
            spec_scan_bound(instructions@.len() as int, current_index as int),
            *config,
            spec_encode_message(user@, score, tier, timestamp),
        ) ==> r == Err::<BorrowApproved, FairLendError>(FairLendError::InvalidSignature),
        spec_is_fresh(now, timestamp) && spec_match_exists(
            instructions@,
            spec_scan_bound(instructions@.len() as int, current_index as int),
            *config,
            spec_encode_message(user@, score, tier, timestamp),
        ) && tier < 2 ==> r == Err::<BorrowApproved, FairLendError>(FairLendError::TierTooLow),
        spec_is_fresh(now, timestamp) && spec_match_exists(
            instructions@,
            spec_scan_bound(instructions@.len() as int, current_index as int),
            *config,
            spec_encode_message(user@, score, tier, timestamp),
        ) && tier >= 2 ==> r == Ok::<BorrowApproved, FairLendError>(
            (BorrowApproved {
                user: *user,
                score,
                tier,
                max_ltv: spec_ltv_for_tier(tier),
                timestamp,
            }),
        ),
{
    match check_freshness(now, timestamp) {
        Err(e) => {
            return Err(e);
        },
        Ok(()) => {},
    }
    let expected_message = encode(user, score, tier, timestamp);
    let found = find_matching_record(instructions, current_index, config, &expected_message);
    if !found {
        return Err(FairLendError::InvalidSignature);
    }
    if tier < 2 {
        return Err(FairLendError::TierTooLow);
    }
    let max_ltv = get_ltv_for_tier(tier);
    Ok(BorrowApproved { user: *user, score, tier, max_ltv, timestamp })
}

} // verus!
