use marketplace::ids::{AccountId, Hash256, bytes_eq, hash_to_bytes};
use marketplace::market::Marketplace;
use marketplace::proof_verifier::{
    ListingInputs, MAX_PROOF_BYTES, ReputationDelta, ReputationInputs, encode_listing_inputs,
    encode_reputation_inputs, journal_matches_listing, journal_matches_reputation,
};
use marketplace::records::{Asset, MarketplaceError, SaleStatus, UserProfile};

use risc0_zkvm::sha::Digest;
use risc0_zkvm::{FakeReceipt, InnerReceipt, Receipt, ReceiptClaim};

fn h(v: u128) -> Hash256 {
    Hash256 { hi: 0, lo: v }
}

fn acct(v: u128) -> AccountId {
    AccountId { hi: 0, lo: v }
}

fn hash_bytes(x: &Hash256) -> [u8; 32] {
    let mut out = [0u8; 32];
    out[..16].copy_from_slice(&x.lo.to_le_bytes());
    out[16..].copy_from_slice(&x.hi.to_le_bytes());
    out
}

/// A receipt whose journal is under our control but whose seal proves
/// nothing: verification must reject it while the journal stays readable.
fn fake_receipt_bytes(method: &Hash256, journal: Vec<u8>) -> Vec<u8> {
    let claim = ReceiptClaim::ok(Digest::from(hash_bytes(method)), journal.clone());
    let receipt = Receipt::new(InnerReceipt::Fake(FakeReceipt::new(claim)), journal);
    bincode::serialize(&receipt).expect("a receipt serializes")
}

fn small_market() -> Marketplace {
    let seller = acct(10);
    let assets = vec![Asset {
        id: 1,
        account_owner: seller,
        name: "first".to_string(),
        description: Vec::new(),
        purchasable: false,
    }];
    let users = vec![UserProfile { account_id: seller, reputation: 50 }];
    Marketplace::new(assets, users, h(900), h(901))
}

#[test]
fn hash_encoding_is_little_endian() {
    let v = Hash256 { hi: 0x0102, lo: 0x0304 };
    let encoded = hash_to_bytes(&v);
    assert_eq!(encoded.as_slice(), &hash_bytes(&v));
    assert_eq!(encoded[0], 0x04);
    assert_eq!(encoded[1], 0x03);
    assert_eq!(encoded[16], 0x02);
    assert_eq!(encoded[17], 0x01);
    assert_eq!(encoded.len(), 32);
}

#[test]
fn listing_inputs_encode_to_exact_bytes() {
    let inp = ListingInputs {
        commitment: Hash256 { hi: 2, lo: 1 },
        nullifier: Hash256 { hi: 4, lo: 3 },
        asset_id: 0x01020304,
    };
    let got = encode_listing_inputs(&inp);
    let mut expected = Vec::new();
    expected.extend_from_slice(&1u128.to_le_bytes());
    expected.extend_from_slice(&2u128.to_le_bytes());
    expected.extend_from_slice(&3u128.to_le_bytes());
    expected.extend_from_slice(&4u128.to_le_bytes());
    expected.extend_from_slice(&[0x04, 0x03, 0x02, 0x01]);
    assert_eq!(got, expected);
}

#[test]
fn reputation_inputs_encode_to_exact_bytes() {
    let inp = ReputationInputs {
        seller: AccountId { hi: 6, lo: 5 },
        nullifier: Hash256 { hi: 8, lo: 7 },
        delta: ReputationDelta { is_gain: false, magnitude: 9 },
    };
    let got = encode_reputation_inputs(&inp);
    let mut expected = Vec::new();
    expected.extend_from_slice(&5u128.to_le_bytes());
    expected.extend_from_slice(&6u128.to_le_bytes());
    expected.extend_from_slice(&7u128.to_le_bytes());
    expected.extend_from_slice(&8u128.to_le_bytes());
    expected.push(0);
    expected.extend_from_slice(&9u32.to_le_bytes());
    assert_eq!(got, expected);
}

#[test]
fn bytes_eq_compares_contents() {
    assert!(bytes_eq(&vec![1, 2, 3], &vec![1, 2, 3]));
    assert!(!bytes_eq(&vec![1, 2, 3], &vec![1, 2, 4]));
    assert!(!bytes_eq(&vec![1, 2, 3], &vec![1, 2]));
}

#[test]
fn journal_binding_reads_the_journal_not_the_blob() {
    let method = h(900);
    let inp = ListingInputs { commitment: h(1), nullifier: h(2), asset_id: 1 };
    let proof = fake_receipt_bytes(&method, encode_listing_inputs(&inp));
    assert!(journal_matches_listing(&proof, &inp));
    let other = ListingInputs { commitment: h(1), nullifier: h(3), asset_id: 1 };
    assert!(!journal_matches_listing(&proof, &other));
    assert!(!journal_matches_listing(&vec![1, 2, 3], &inp));
}

#[test]
fn journal_binding_for_reputation_inputs() {
    let method = h(901);
    let inp = ReputationInputs {
        seller: acct(10),
        nullifier: h(5),
        delta: ReputationDelta { is_gain: true, magnitude: 3 },
    };
    let proof = fake_receipt_bytes(&method, encode_reputation_inputs(&inp));
    assert!(journal_matches_reputation(&proof, &inp));
    let other = ReputationInputs {
        seller: acct(11),
        nullifier: h(5),
        delta: ReputationDelta { is_gain: true, magnitude: 3 },
    };
    assert!(!journal_matches_reputation(&proof, &other));
}

#[test]
fn garbage_proof_is_rejected_as_invalid() {
    let seller = acct(10);
    let mut m = small_market();
    m.register_seller(h(1));
    let inp = ListingInputs { commitment: h(1), nullifier: h(2), asset_id: 1 };
    let r = m.put_asset_on_sale(seller, 100, &vec![1, 2, 3], &inp);
    assert_eq!(r, Err(MarketplaceError::InvalidProof));
    assert_eq!(m.sale().status, SaleStatus::Closed);
    assert_eq!(m.asset_purchasable(1), Some(false));
    assert!(!m.is_nullifier_spent(&h(2)));
}

#[test]
fn oversized_proof_blob_is_rejected_without_decoding() {
    let seller = acct(10);
    let mut m = small_market();
    m.register_seller(h(1));
    let inp = ListingInputs { commitment: h(1), nullifier: h(2), asset_id: 1 };
    // A receipt is a recursive type: a long crafted blob could nest deeply,
    // so anything over the cap is turned away before deserialization.
    let oversized = vec![0u8; MAX_PROOF_BYTES + 1];
    let r = m.put_asset_on_sale(seller, 100, &oversized, &inp);
    assert_eq!(r, Err(MarketplaceError::InvalidProof));
    assert_eq!(m.sale().status, SaleStatus::Closed);
    assert!(!m.is_nullifier_spent(&h(2)));
    assert!(!journal_matches_listing(&oversized, &inp));
    let rep_inp = ReputationInputs {
        seller,
        nullifier: h(3),
        delta: ReputationDelta { is_gain: true, magnitude: 1 },
    };
    assert_eq!(
        m.update_seller_reputation(&oversized, &rep_inp),
        Err(MarketplaceError::InvalidProof)
    );
}

#[test]
fn unproven_receipt_is_rejected_even_with_matching_journal() {
    let seller = acct(10);
    let mut m = small_market();
    m.register_seller(h(1));
    let inp = ListingInputs { commitment: h(1), nullifier: h(2), asset_id: 1 };
    let proof = fake_receipt_bytes(&h(900), encode_listing_inputs(&inp));
    let r = m.put_asset_on_sale(seller, 100, &proof, &inp);
    assert_eq!(r, Err(MarketplaceError::InvalidProof));
    assert_eq!(m.sale().status, SaleStatus::Closed);
    assert!(!m.is_nullifier_spent(&h(2)));
}

#[test]
fn unproven_receipt_is_rejected_for_reputation() {
    let mut m = small_market();
    let inp = ReputationInputs {
        seller: acct(10),
        nullifier: h(5),
        delta: ReputationDelta { is_gain: true, magnitude: 3 },
    };
    let proof = fake_receipt_bytes(&h(901), encode_reputation_inputs(&inp));
    let r = m.update_seller_reputation(&proof, &inp);
    assert_eq!(r, Err(MarketplaceError::InvalidProof));
    assert_eq!(m.reputation_of(&acct(10)), Some(50));
    assert!(!m.is_nullifier_spent(&h(5)));
}
