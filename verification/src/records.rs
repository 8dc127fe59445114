use vstd::prelude::*;
use crate::ids::AccountId;

verus! {

/// The state of the single sale slot of a marketplace instance.
#[derive(Clone, Copy, Debug, PartialEq, Eq, Structural)]
pub enum SaleStatus {
    Closed,
    OnGoing,
    Cancelled,
}

/// The single active-sale record of a marketplace instance.
#[derive(Clone, Copy, Debug, PartialEq, Eq, Structural)]
pub struct Sale {
    pub status: SaleStatus,
    pub price: u32,
    pub asset_id: u32,
}

/// A registered user and the reputation that proofs have attested so far.
#[derive(Clone, Copy, Debug, PartialEq, Eq, Structural)]
pub struct UserProfile {
    pub account_id: AccountId,
    pub reputation: u32,
}

/// An asset held by the marketplace registry.
#[derive(Clone, Debug, PartialEq, Eq)]
pub struct Asset {
    pub id: u32,
    pub account_owner: AccountId,
    pub name: String,
    pub description: Vec<u8>,
    pub purchasable: bool,
}

/// An opaque encrypted review stored for a seller.
#[derive(Clone, Debug, PartialEq, Eq)]
pub struct Review {
    pub seller: AccountId,
    pub payload: Vec<u8>,
}

/// Event emitted when an item is put on sale.
#[derive(Clone, Copy, Debug, PartialEq, Eq, Structural)]
pub struct ItemOnsale {
    pub seller_id: AccountId,
}

/// Event emitted when an item is bought.
#[derive(Clone, Copy, Debug, PartialEq, Eq, Structural)]
pub struct ItemBought {
    pub account_id: AccountId,
}

/// Event emitted when a reputation proof is consumed.
#[derive(Clone, Copy, Debug, PartialEq, Eq, Structural)]
pub struct ReputationUpdated {
    pub seller_id: AccountId,
    pub new_score: u32,
}

/// An event of the marketplace, in emission order.
#[derive(Clone, Copy, Debug, PartialEq, Eq, Structural)]
pub enum Event {
    ItemOnsale(ItemOnsale),
    ItemBought(ItemBought),
    ReputationUpdated(ReputationUpdated),
}

/// Why an operation was rejected. Every rejection is all-or-nothing: the
/// marketplace state is exactly what it was before the call.
#[derive(Clone, Copy, Debug, PartialEq, Eq, Structural)]
pub enum MarketplaceError {
    /// The proof verifier rejected the proof, or it was bound to other
    /// public inputs than the claimed ones.
    InvalidProof,
    /// The claim's nullifier was already consumed by an earlier operation.
    NullifierSpent,
    /// The claimed seller commitment was never registered.
    NotRegistered,
    /// The sale slot or the asset cannot make the requested transition.
    InvalidSaleTransition,
    /// The buyer's balance does not cover the sale price.
    InsufficientFunds,
    /// The offered price differs from the sale price.
    PriceMismatch,
    /// A record the operation needs is missing from the registry.
    StorageFault,
}

} // verus!
