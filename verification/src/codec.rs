use vstd::prelude::*;
use vstd::bytes::lemma_auto_spec_u64_to_from_le_bytes;
use vstd::bytes::spec_u64_to_le_bytes;
use vstd::bytes::u64_to_le_bytes;

verus! {

/// The canonical attestation message is exactly 49 bytes long:
/// identity(32) | score as little-endian u64 (8) | tier (1) |
/// timestamp as little-endian two's-complement i64 (8).
pub const EXPECTED_MESSAGE_LEN: usize = 49;

/// The two's-complement reinterpretation of a signed 64-bit timestamp as an
/// unsigned value, so that its little-endian bytes are those the attester
/// writes when serializing the signed timestamp.
pub open spec fn spec_timestamp_as_u64(x: i64) -> u64 {
    if x >= 0 {
        x as u64
    } else {
        (x + 0x1_0000_0000_0000_0000) as u64
    }
}

/// The canonical byte message the attester must have signed for a given
/// attestation tuple: fixed field order, little-endian multi-byte fields.
pub open spec fn spec_encode_message(
    identity: Seq<u8>,
    score: u64,
    tier: u8,
    timestamp: i64,
) -> Seq<u8> {
    identity + spec_u64_to_le_bytes(score) + seq![tier] + spec_u64_to_le_bytes(
        spec_timestamp_as_u64(timestamp),
    )
}

/// Serializes an attestation tuple into the canonical message to be compared
/// against the message a sibling record claims was signed. Deterministic and
/// total: the result is a pure function of the inputs, always 49 bytes.
pub fn encode(identity: &[u8; 32], score: u64, tier: u8, timestamp: i64) -> (msg: Vec<u8>)
    ensures
        msg@ == spec_encode_message(identity@, score, tier, timestamp),
        msg@.len() == EXPECTED_MESSAGE_LEN,
{
    let mut msg: Vec<u8> = Vec::new();
    let mut i: usize = 0;
    while i < 32
        invariant
            i <= 32,
            msg@ == identity@.subrange(0, i as int),
        decreases 32 - i,
    {
        msg.push(identity[i]);
        proof {
            assert(msg@ =~= identity@.subrange(0, i + 1));
        }
        i = i + 1;
    }
    proof {
        assert(msg@ =~= identity@);
    }
    let mut score_bytes = u64_to_le_bytes(score);
    msg.append(&mut score_bytes);
    msg.push(tier);
    let ts_unsigned: u64 = if timestamp >= 0 {
        timestamp as u64
    } else {
        ((timestamp as i128) + 0x1_0000_0000_0000_0000i128) as u64
    };
    let mut ts_bytes = u64_to_le_bytes(ts_unsigned);
    msg.append(&mut ts_bytes);
    proof {
        lemma_auto_spec_u64_to_from_le_bytes();
        assert(msg@ =~= spec_encode_message(identity@, score, tier, timestamp));
    }
    msg
}

/// Codec law: the canonical encoding of any attestation tuple is exactly 49
/// bytes, and, being a spec-level function of the tuple alone, it is
/// deterministic: equal tuples always encode to equal messages.
pub proof fn lemma_encode_message_len(identity: Seq<u8>, score: u64, tier: u8, timestamp: i64)
    requires
        identity.len() == 32,
    ensures
        spec_encode_message(identity, score, tier, timestamp).len() == EXPECTED_MESSAGE_LEN,
{
    lemma_auto_spec_u64_to_from_le_bytes();
}

} // verus!
