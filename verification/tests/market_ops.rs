use marketplace::ids::{AccountId, Hash256};
use marketplace::market::{Marketplace, saturating_apply};
use marketplace::proof_verifier::{ListingInputs, ReputationDelta, ReputationInputs};
use marketplace::records::{Asset, Event, MarketplaceError, Sale, SaleStatus, UserProfile};
use marketplace::sets::NullifierSet;

fn h(v: u128) -> Hash256 {
    Hash256 { hi: 0, lo: v }
}

fn acct(v: u128) -> AccountId {
    AccountId { hi: 0, lo: v }
}

fn asset(id: u32, owner: AccountId, name: &str) -> Asset {
    Asset {
        id,
        account_owner: owner,
        name: name.to_string(),
        description: Vec::new(),
        purchasable: false,
    }
}

fn market_with_two_assets() -> Marketplace {
    let seller = acct(10);
    let assets = vec![asset(1, seller, "first"), asset(2, seller, "second")];
    let users = vec![UserProfile { account_id: seller, reputation: 50 }];
    Marketplace::new(assets, users, h(900), h(901))
}

fn listing(commitment: Hash256, nullifier: Hash256, asset_id: u32) -> ListingInputs {
    ListingInputs { commitment, nullifier, asset_id }
}

#[test]
fn sale_scenario_list_then_buy() {
    let seller = acct(10);
    let buyer = acct(11);
    let mut m = market_with_two_assets();
    m.register_seller(h(1));
    let r = m.apply_listing(seller, 100, true, &listing(h(1), h(2), 1));
    assert_eq!(r, Ok(()));
    assert_eq!(
        m.sale(),
        Sale { status: SaleStatus::OnGoing, price: 100, asset_id: 1 }
    );
    assert_eq!(m.asset_purchasable(1), Some(true));

    let r2 = m.buy_asset(1, buyer, 100, 150);
    assert_eq!(r2, Ok(()));
    assert_eq!(m.sale().status, SaleStatus::Closed);
    assert_eq!(m.asset_owner(1), Some(buyer));
    assert_eq!(m.asset_purchasable(1), Some(false));
    let bought = m
        .events
        .iter()
        .filter(|e| matches!(e, Event::ItemBought(_)))
        .count();
    assert_eq!(bought, 1);
}

#[test]
fn second_listing_while_ongoing_rejected() {
    let seller = acct(10);
    let mut m = market_with_two_assets();
    m.register_seller(h(1));
    assert_eq!(m.apply_listing(seller, 100, true, &listing(h(1), h(2), 1)), Ok(()));
    let before = m.sale();
    let r = m.apply_listing(seller, 80, true, &listing(h(1), h(3), 2));
    assert_eq!(r, Err(MarketplaceError::InvalidSaleTransition));
    assert_eq!(m.sale(), before);
    assert_eq!(m.asset_purchasable(2), Some(false));
    assert!(!m.is_nullifier_spent(&h(3)));
}

#[test]
fn reused_nullifier_rejected_for_reputation() {
    let seller = acct(10);
    let mut m = market_with_two_assets();
    m.register_seller(h(1));
    assert_eq!(m.apply_listing(seller, 100, true, &listing(h(1), h(2), 1)), Ok(()));
    let inp = ReputationInputs {
        seller,
        nullifier: h(2),
        delta: ReputationDelta { is_gain: true, magnitude: 5 },
    };
    let r = m.apply_reputation(true, &inp);
    assert_eq!(r, Err(MarketplaceError::NullifierSpent));
    assert_eq!(m.reputation_of(&seller), Some(50));
}

#[test]
fn reputation_update_applies_delta_and_emits() {
    let seller = acct(10);
    let mut m = market_with_two_assets();
    let inp = ReputationInputs {
        seller,
        nullifier: h(7),
        delta: ReputationDelta { is_gain: true, magnitude: 5 },
    };
    assert_eq!(m.apply_reputation(true, &inp), Ok(()));
    assert_eq!(m.reputation_of(&seller), Some(55));
    assert!(m.is_nullifier_spent(&h(7)));
    assert!(m.events.iter().any(|e| matches!(
        e,
        Event::ReputationUpdated(u) if u.new_score == 55 && u.seller_id == seller
    )));
    let again = m.apply_reputation(true, &inp);
    assert_eq!(again, Err(MarketplaceError::NullifierSpent));
    assert_eq!(m.reputation_of(&seller), Some(55));
}

#[test]
fn registration_is_idempotent() {
    let mut m = market_with_two_assets();
    m.register_seller(h(1));
    assert_eq!(m.commitment_count(), 1);
    m.register_seller(h(1));
    assert_eq!(m.commitment_count(), 1);
    assert!(m.is_registered(&h(1)));
    m.register_seller(h(5));
    assert_eq!(m.commitment_count(), 2);
}

#[test]
fn nullifier_replay_is_reported() {
    let mut s = NullifierSet::new();
    assert!(s.try_consume(h(9)));
    assert!(!s.try_consume(h(9)));
    assert!(!s.try_consume(h(9)));
    assert!(s.try_consume(h(10)));
}

#[test]
fn reputation_saturates_at_both_ends() {
    assert_eq!(
        saturating_apply(u32::MAX - 1, &ReputationDelta { is_gain: true, magnitude: 5 }),
        u32::MAX
    );
    assert_eq!(
        saturating_apply(3, &ReputationDelta { is_gain: false, magnitude: 5 }),
        0
    );
    assert_eq!(
        saturating_apply(50, &ReputationDelta { is_gain: true, magnitude: 5 }),
        55
    );
    assert_eq!(
        saturating_apply(50, &ReputationDelta { is_gain: false, magnitude: 5 }),
        45
    );
}

#[test]
fn reputation_saturates_through_the_controller() {
    let seller = acct(10);
    let mut m = market_with_two_assets();
    let up = ReputationInputs {
        seller,
        nullifier: h(20),
        delta: ReputationDelta { is_gain: true, magnitude: u32::MAX },
    };
    assert_eq!(m.apply_reputation(true, &up), Ok(()));
    assert_eq!(m.reputation_of(&seller), Some(u32::MAX));
    let down = ReputationInputs {
        seller,
        nullifier: h(21),
        delta: ReputationDelta { is_gain: false, magnitude: u32::MAX },
    };
    assert_eq!(m.apply_reputation(true, &down), Ok(()));
    assert_eq!(m.reputation_of(&seller), Some(0));
}

#[test]
fn listing_guards_reject_in_order() {
    let seller = acct(10);
    let mut m = market_with_two_assets();
    let r = m.apply_listing(seller, 100, true, &listing(h(1), h(2), 1));
    assert_eq!(r, Err(MarketplaceError::NotRegistered));
    m.register_seller(h(1));
    let r = m.apply_listing(seller, 100, false, &listing(h(1), h(2), 1));
    assert_eq!(r, Err(MarketplaceError::InvalidProof));
    let r = m.apply_listing(seller, 100, true, &listing(h(1), h(2), 99));
    assert_eq!(r, Err(MarketplaceError::StorageFault));
    assert_eq!(m.sale().status, SaleStatus::Closed);
    assert!(!m.is_nullifier_spent(&h(2)));
}

#[test]
fn buy_guards_reject_price_funds_and_closed_sale() {
    let seller = acct(10);
    let buyer = acct(11);
    let mut m = market_with_two_assets();
    let r = m.buy_asset(1, buyer, 100, 150);
    assert_eq!(r, Err(MarketplaceError::InvalidSaleTransition));
    m.register_seller(h(1));
    assert_eq!(m.apply_listing(seller, 100, true, &listing(h(1), h(2), 1)), Ok(()));
    assert_eq!(
        m.buy_asset(1, buyer, 99, 150),
        Err(MarketplaceError::PriceMismatch)
    );
    assert_eq!(
        m.buy_asset(1, buyer, 100, 99),
        Err(MarketplaceError::InsufficientFunds)
    );
    assert_eq!(
        m.buy_asset(2, buyer, 100, 150),
        Err(MarketplaceError::InvalidSaleTransition)
    );
    assert_eq!(m.asset_owner(1), Some(seller));
    assert_eq!(m.buy_asset(1, buyer, 100, 100), Ok(()));
}

#[test]
fn cancel_requires_owner_and_allows_relisting() {
    let seller = acct(10);
    let stranger = acct(12);
    let mut m = market_with_two_assets();
    m.register_seller(h(1));
    assert_eq!(m.apply_listing(seller, 100, true, &listing(h(1), h(2), 1)), Ok(()));
    assert_eq!(
        m.cancel_sale(stranger),
        Err(MarketplaceError::InvalidSaleTransition)
    );
    assert_eq!(m.sale().status, SaleStatus::OnGoing);
    assert_eq!(m.cancel_sale(seller), Ok(()));
    assert_eq!(m.sale().status, SaleStatus::Cancelled);
    assert_eq!(m.asset_purchasable(1), Some(false));
    assert_eq!(m.apply_listing(seller, 70, true, &listing(h(1), h(3), 2)), Ok(()));
    assert_eq!(
        m.sale(),
        Sale { status: SaleStatus::OnGoing, price: 70, asset_id: 2 }
    );
}

#[test]
fn review_is_stored_and_moves_no_score() {
    let seller = acct(10);
    let mut m = market_with_two_assets();
    let before_events = m.events.len();
    m.give_seller_review(seller, vec![4, 5, 6]);
    assert_eq!(m.reviews.len(), 1);
    assert_eq!(m.reviews[0].seller, seller);
    assert_eq!(m.reviews[0].payload, vec![4, 5, 6]);
    assert_eq!(m.reputation_of(&seller), Some(50));
    assert_eq!(m.events.len(), before_events);
}

#[test]
fn missing_seller_is_a_storage_fault() {
    let mut m = market_with_two_assets();
    let inp = ReputationInputs {
        seller: acct(99),
        nullifier: h(30),
        delta: ReputationDelta { is_gain: true, magnitude: 1 },
    };
    assert_eq!(m.apply_reputation(true, &inp), Err(MarketplaceError::StorageFault));
    assert!(!m.is_nullifier_spent(&h(30)));
}
