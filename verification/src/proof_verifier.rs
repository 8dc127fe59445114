use vstd::prelude::*;
use crate::ids::{
    AccountId, Hash256, account_le_bytes, bytes_eq, hash_le_bytes, hash_to_bytes, push_u128_le,
    push_u32_le, u32_le_bytes,
};

verus! {

/// A reputation change attested by a proof, applied saturating in either
/// direction so the score never leaves the `u32` range.
#[derive(Clone, Copy, Debug, PartialEq, Eq, Structural)]
pub struct ReputationDelta {
    pub is_gain: bool,
    pub magnitude: u32,
}

/// The public inputs a listing proof is bound to: the claimed seller
/// commitment, the claim's nullifier, and the asset being listed.
#[derive(Clone, Copy, Debug, PartialEq, Eq, Structural)]
pub struct ListingInputs {
    pub commitment: Hash256,
    pub nullifier: Hash256,
    pub asset_id: u32,
}

/// The public inputs a reputation proof is bound to: the seller whose score
/// changes, the claim's nullifier, and the attested delta.
#[derive(Clone, Copy, Debug, PartialEq, Eq, Structural)]
pub struct ReputationInputs {
    pub seller: AccountId,
    pub nullifier: Hash256,
    pub delta: ReputationDelta,
}

/// The byte encoding of listing public inputs: the journal a listing guest
/// commits.
pub open spec fn listing_inputs_bytes(inp: ListingInputs) -> Seq<u8> {
    hash_le_bytes(inp.commitment) + hash_le_bytes(inp.nullifier) + u32_le_bytes(inp.asset_id)
}

/// The byte encoding of reputation public inputs: the journal a reputation
/// guest commits.
pub open spec fn reputation_inputs_bytes(inp: ReputationInputs) -> Seq<u8> {
    account_le_bytes(inp.seller) + hash_le_bytes(inp.nullifier) + seq![
        if inp.delta.is_gain {
            1u8
        } else {
            0u8
        },
    ] + u32_le_bytes(inp.delta.magnitude)
}

/// The bytes a listing proof must carry as its journal.
pub fn encode_listing_inputs(inp: &ListingInputs) -> (r: Vec<u8>)
    ensures
        r@ == listing_inputs_bytes(*inp),
{
    let mut out: Vec<u8> = Vec::new();
    push_u128_le(&mut out, inp.commitment.lo);
    push_u128_le(&mut out, inp.commitment.hi);
    push_u128_le(&mut out, inp.nullifier.lo);
    push_u128_le(&mut out, inp.nullifier.hi);
    push_u32_le(&mut out, inp.asset_id);
    proof {
        assert(out@ =~= listing_inputs_bytes(*inp));
    }
    out
}

/// The bytes a reputation proof must carry as its journal.
pub fn encode_reputation_inputs(inp: &ReputationInputs) -> (r: Vec<u8>)
    ensures
        r@ == reputation_inputs_bytes(*inp),
{
    let mut out: Vec<u8> = Vec::new();
    push_u128_le(&mut out, inp.seller.lo);
    push_u128_le(&mut out, inp.seller.hi);
    push_u128_le(&mut out, inp.nullifier.lo);
    push_u128_le(&mut out, inp.nullifier.hi);
    out.push(if inp.delta.is_gain { 1 } else { 0 });
    push_u32_le(&mut out, inp.delta.magnitude);
    proof {
        assert(out@ =~= reputation_inputs_bytes(*inp));
    }
    out
}

/// The largest proof blob the verifier looks at. `risc0_zkvm::Receipt` is a
/// recursive type and its documentation warns that bytes from unrestricted
/// third parties must go through a depth-limited codec, or a crafted blob can
/// overflow the stack of a recursive-descent decoder; bincode enforces no
/// depth limit, so the depth is bounded here by bounding the bytes. A few
/// dozen serialized bytes feed each nesting level, so this cap keeps the
/// decoding depth in the low hundreds, while the compact receipt kinds meant
/// for handing to third-party verifiers fit comfortably. Longer blobs are
/// rejected like any other malformed proof.
pub const MAX_PROOF_BYTES: usize = 8192;

/// What `risc0_zkvm::Receipt::verify` decides for a serialized receipt and a
/// 32-byte method digest: whether the bytes are a receipt that
/// cryptographically proves a successful execution of that method.
pub uninterp spec fn receipt_accepted(proof: Seq<u8>, method_id: Seq<u8>) -> bool;

/// The journal carried by a serialized receipt: the public outputs the guest
/// committed; the empty sequence where the bytes are not a receipt at all.
pub uninterp spec fn receipt_journal(proof: Seq<u8>) -> Seq<u8>;

/// Relies on `risc0_zkvm::Receipt::verify_with_context`: it returns `Ok`
/// exactly when the seal cryptographically verifies against the given method
/// digest, the guest halted successfully, and the journal is the attested
/// one. The receipt arrives as an opaque byte blob; bincode deserialization
/// converts it, and malformed bytes are rejected like any cryptographic
/// failure. The blob must stay under `MAX_PROOF_BYTES`: `Receipt` is
/// recursive and bincode has no depth limit, so a longer blob could overflow
/// the decoder's stack; verified callers reject such blobs before this call.
/// Development mode is pinned off (the default context would read it from the
/// environment), so the result is a function of the bytes alone and a receipt
/// with no real seal is never accepted.
#[verifier::external_body]
fn receipt_verify(proof: &Vec<u8>, method_id: &Vec<u8>) -> (r: bool)
    requires
        proof@.len() <= MAX_PROOF_BYTES,
        method_id@.len() == 32,
    ensures
        r == receipt_accepted(proof@, method_id@),
{
    let id: [u8; 32] = match method_id.as_slice().try_into() {
        Ok(a) => a,
        Err(_) => return false,
    };
    let receipt: risc0_zkvm::Receipt = match bincode::deserialize(proof.as_slice()) {
        Ok(r) => r,
        Err(_) => return false,
    };
    let ctx = risc0_zkvm::VerifierContext::default().with_dev_mode(false);
    match receipt.verify_with_context(&ctx, risc0_zkvm::sha::Digest::from(id)) {
        Ok(()) => true,
        Err(_) => false,
    }
}

/// Relies on `risc0_zkvm::Receipt`'s public `journal.bytes` field: the raw
/// public outputs the guest committed; bincode deserialization converts the
/// blob, and bytes that are no receipt yield the empty journal. The blob must
/// stay under `MAX_PROOF_BYTES` for the same reason as in `receipt_verify`.
#[verifier::external_body]
fn receipt_journal_bytes(proof: &Vec<u8>) -> (r: Vec<u8>)
    requires
        proof@.len() <= MAX_PROOF_BYTES,
    ensures
        r@ == receipt_journal(proof@),
{
    match bincode::deserialize::<risc0_zkvm::Receipt>(proof.as_slice()) {
        Ok(receipt) => receipt.journal.bytes,
        Err(_) => Vec::new(),
    }
}

/// Whether a proof blob is accepted for the given method digest and bound to
/// exactly these listing public inputs: it is no longer than the verifier
/// looks at, its seal verifies, and its journal is the inputs' encoding.
pub open spec fn listing_proof_accepted(method: Hash256, proof: Seq<u8>, inp: ListingInputs) -> bool {
    &&& proof.len() <= MAX_PROOF_BYTES
    &&& receipt_accepted(proof, hash_le_bytes(method))
    &&& receipt_journal(proof) == listing_inputs_bytes(inp)
}

/// Whether a proof blob is accepted for the given method digest and bound to
/// exactly these reputation public inputs.
pub open spec fn reputation_proof_accepted(
    method: Hash256,
    proof: Seq<u8>,
    inp: ReputationInputs,
) -> bool {
    &&& proof.len() <= MAX_PROOF_BYTES
    &&& receipt_accepted(proof, hash_le_bytes(method))
    &&& receipt_journal(proof) == reputation_inputs_bytes(inp)
}

/// Whether the proof blob is small enough to look at and its journal holds
/// exactly these listing public inputs, whatever the seal is worth.
pub fn journal_matches_listing(proof: &Vec<u8>, inp: &ListingInputs) -> (r: bool)
    ensures
        r == (proof@.len() <= MAX_PROOF_BYTES && receipt_journal(proof@)
            == listing_inputs_bytes(*inp)),
{
    if proof.len() > MAX_PROOF_BYTES {
        return false;
    }
    let journal = receipt_journal_bytes(proof);
    let expected = encode_listing_inputs(inp);
    bytes_eq(&journal, &expected)
}

/// Whether the proof blob is small enough to look at and its journal holds
/// exactly these reputation public inputs, whatever the seal is worth.
pub fn journal_matches_reputation(proof: &Vec<u8>, inp: &ReputationInputs) -> (r: bool)
    ensures
        r == (proof@.len() <= MAX_PROOF_BYTES && receipt_journal(proof@)
            == reputation_inputs_bytes(*inp)),
{
    if proof.len() > MAX_PROOF_BYTES {
        return false;
    }
    let journal = receipt_journal_bytes(proof);
    let expected = encode_reputation_inputs(inp);
    bytes_eq(&journal, &expected)
}

/// The verifier-side contract for listings: accept exactly the proofs that
/// verify under the listing method digest and are bound to these public
/// inputs. Malformed bytes, wrong-length blobs, a wrong journal and a
/// cryptographic failure are indistinguishable: all return `false`, and
/// nothing is mutated.
pub fn verify_listing(method: &Hash256, proof: &Vec<u8>, inp: &ListingInputs) -> (r: bool)
    ensures
        r == listing_proof_accepted(*method, proof@, *inp),
{
    if proof.len() > MAX_PROOF_BYTES {
        return false;
    }
    let id = hash_to_bytes(method);
    if !receipt_verify(proof, &id) {
        return false;
    }
    journal_matches_listing(proof, inp)
}

/// The verifier-side contract for reputation updates: accept exactly the
/// proofs that verify under the reputation method digest and are bound to
/// these public inputs.
pub fn verify_reputation(method: &Hash256, proof: &Vec<u8>, inp: &ReputationInputs) -> (r: bool)
    ensures
        r == reputation_proof_accepted(*method, proof@, *inp),
{
    if proof.len() > MAX_PROOF_BYTES {
        return false;
    }
    let id = hash_to_bytes(method);
    if !receipt_verify(proof, &id) {
        return false;
    }
    journal_matches_reputation(proof, inp)
}

} // verus!
