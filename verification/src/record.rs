use vstd::prelude::*;

verus! {

/// Minimum length of a signature-verification record: a 16-byte header
/// followed by at least a 64-byte signature and a 32-byte public key.
pub const MIN_RECORD_LEN: usize = 112;

/// Length of the record header.
pub const RECORD_HEADER_LEN: usize = 16;

/// The little-endian 16-bit value stored at byte offsets `i` and `i + 1`.
pub open spec fn spec_le_u16_at(data: Seq<u8>, i: int) -> int {
    data[i] + 256 * data[i + 1]
}

/// Offset of the claimed public key, read from the record header.
pub open spec fn spec_public_key_offset(data: Seq<u8>) -> int {
    spec_le_u16_at(data, 6)
}

/// Offset of the claimed signed message, read from the record header.
pub open spec fn spec_message_data_offset(data: Seq<u8>) -> int {
    spec_le_u16_at(data, 10)
}

/// Declared length of the claimed signed message, read from the record header.
pub open spec fn spec_message_data_size(data: Seq<u8>) -> int {
    spec_le_u16_at(data, 12)
}

/// A record's bytes parse successfully and cover exactly the expected signer
/// key and expected message: the record is long enough, declares at least one
/// signature, its first signature entry's offsets are in bounds, the 32 bytes
/// at the public-key offset equal `expected_signer`, and the declared message
/// slice equals `expected_message` byte for byte (same length, no prefix or
/// partial match).
pub open spec fn spec_record_covers(
    data: Seq<u8>,
    expected_signer: Seq<u8>,
    expected_message: Seq<u8>,
) -> bool {
    let pk_off = spec_public_key_offset(data);
    let msg_off = spec_message_data_offset(data);
    let msg_size = spec_message_data_size(data);
    &&& data.len() >= MIN_RECORD_LEN
    &&& data[0] != 0
    &&& pk_off + 32 <= data.len()
    &&& msg_off + msg_size <= data.len()
    &&& data.subrange(pk_off, pk_off + 32) == expected_signer
    &&& msg_size == expected_message.len()
    &&& data.subrange(msg_off, msg_off + msg_size) == expected_message
}

/// Defensively parses one signature-verification record and checks that it
/// covers the expected signer and message.
///
/// Header layout (16 bytes, little-endian multi-byte fields):
/// numSignatures(1) | padding(1) | signatureOffset(2) |
/// signatureInstructionIndex(2) | publicKeyOffset(2) |
/// publicKeyInstructionIndex(2) | messageDataOffset(2) | messageDataSize(2) |
/// messageInstructionIndex(2). Only the first signature entry is inspected.
///
/// All header-derived offsets are bounds-checked before any byte access;
/// malformed or adversarial layouts return `false` ("no match"), never a
/// panic or an out-of-bounds read.
#[verifier::loop_isolation(false)]
pub fn verify_ed25519_ix_data(
    data: &[u8],
    expected_signer: &[u8; 32],
    expected_message: &[u8],
) -> (r: bool)
    ensures
        r == spec_record_covers(data@, expected_signer@, expected_message@),
{
    if data.len() < MIN_RECORD_LEN {
        return false;
    }
    let num_signatures = data[0];
    if num_signatures == 0 {
        return false;
    }
    let public_key_offset: usize = data[6] as usize + 256 * (data[7] as usize);
    let message_data_offset: usize = data[10] as usize + 256 * (data[11] as usize);
    let message_data_size: usize = data[12] as usize + 256 * (data[13] as usize);
    if public_key_offset + 32 > data.len() {
        return false;
    }
    if message_data_offset + message_data_size > data.len() {
        return false;
    }
    let ghost pk_off = spec_public_key_offset(data@);
    let mut i: usize = 0;
    while i < 32
        invariant
            i <= 32,
            forall|k: int| 0 <= k < i ==> data@[pk_off + k] == expected_signer@[k],
        decreases 32 - i,
    {
        if data[public_key_offset + i] != expected_signer[i] {
            proof {
                assert(data@.subrange(pk_off, pk_off + 32)[i as int] != expected_signer@[i as int]);
            }
            return false;
        }
        i = i + 1;
    }
    proof {
        assert(data@.subrange(pk_off, pk_off + 32) =~= expected_signer@);
    }
    if message_data_size != expected_message.len() {
        return false;
    }
    let ghost msg_off = spec_message_data_offset(data@);
    let ghost msg_size = spec_message_data_size(data@);
    let mut j: usize = 0;
    while j < message_data_size
        invariant
            j <= message_data_size,
            forall|k: int| 0 <= k < j ==> data@[msg_off + k] == expected_message@[k],
        decreases message_data_size - j,
    {
        if data[message_data_offset + j] != expected_message[j] {
            proof {
                assert(data@.subrange(msg_off, msg_off + msg_size)[j as int]
                    != expected_message@[j as int]);
            }
            return false;
        }
        j = j + 1;
    }
    proof {
        assert(data@.subrange(msg_off, msg_off + msg_size) =~= expected_message@);
    }
    true
}

/// Parser law: a record shorter than the 112-byte minimum never parses, so it
/// can never cover any signer and message.
pub proof fn lemma_short_record_rejected(
    data: Seq<u8>,
    expected_signer: Seq<u8>,
    expected_message: Seq<u8>,
)
    requires
        data.len() < MIN_RECORD_LEN,
    ensures
        !spec_record_covers(data, expected_signer, expected_message),
{
}

/// Parser law: a well-formed record — long enough, with at least one declared
/// signature, in-bounds offsets, the expected signer's key at the public-key
/// offset, and exactly the expected message at the message offset — always
/// passes the parse-and-compare check.
pub proof fn lemma_wellformed_record_covers(
    data: Seq<u8>,
    expected_signer: Seq<u8>,
    expected_message: Seq<u8>,
)
    requires
        data.len() >= MIN_RECORD_LEN,
        data[0] != 0,
        spec_public_key_offset(data) + 32 <= data.len(),
        spec_message_data_offset(data) + spec_message_data_size(data) <= data.len(),
        data.subrange(spec_public_key_offset(data), spec_public_key_offset(data) + 32)
            == expected_signer,
        spec_message_data_size(data) == expected_message.len(),
        data.subrange(
            spec_message_data_offset(data),
            spec_message_data_offset(data) + spec_message_data_size(data),
        ) == expected_message,
    ensures
        spec_record_covers(data, expected_signer, expected_message),
{
}

/// Parser law: flipping any single byte of the message region of a record
/// that covers a given signer and message (at a position outside the 16-byte
/// header, so that the header still parses identically) yields a record that
/// no longer covers that signer and message.
pub proof fn lemma_flipped_message_byte_rejected(
    data: Seq<u8>,
    flipped: Seq<u8>,
    expected_signer: Seq<u8>,
    expected_message: Seq<u8>,
    j: int,
)
    requires
        spec_record_covers(data, expected_signer, expected_message),
        flipped.len() == data.len(),
        RECORD_HEADER_LEN <= j,
        spec_message_data_offset(data) <= j < spec_message_data_offset(data)
            + spec_message_data_size(data),
        flipped[j] != data[j],
        forall|k: int| 0 <= k < data.len() && k != j ==> flipped[k] == data[k],
    ensures
        !spec_record_covers(flipped, expected_signer, expected_message),
{
    assert(flipped[6] == data[6]);
    assert(flipped[7] == data[7]);
    assert(flipped[10] == data[10]);
    assert(flipped[11] == data[11]);
    assert(flipped[12] == data[12]);
    assert(flipped[13] == data[13]);
    let msg_off = spec_message_data_offset(data);
    let msg_size = spec_message_data_size(data);
    assert(spec_message_data_offset(flipped) == msg_off);
    assert(spec_message_data_size(flipped) == msg_size);
    if spec_record_covers(flipped, expected_signer, expected_message) {
        assert(flipped.subrange(msg_off, msg_off + msg_size)[j - msg_off] == flipped[j]);
        assert(data.subrange(msg_off, msg_off + msg_size)[j - msg_off] == data[j]);
        assert(expected_message[j - msg_off] == data[j]);
        assert(expected_message[j - msg_off] == flipped[j]);
        assert(false);
    }
}

} // verus!
