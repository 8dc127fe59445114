use vstd::prelude::*;
use crate::ids::{AccountId, Hash256};
use crate::records::{
    Asset, Event, ItemBought, ItemOnsale, MarketplaceError, ReputationUpdated, Review, Sale,
    SaleStatus, UserProfile,
};
use crate::sets::{CommitmentSet, NullifierSet};
use crate::proof_verifier::{
    ListingInputs, ReputationDelta, ReputationInputs, listing_proof_accepted,
    reputation_proof_accepted, verify_listing, verify_reputation,
};

verus! {

/// `a` with its `purchasable` flag set to `p`.
pub open spec fn with_purchasable(a: Asset, p: bool) -> Asset {
    Asset {
        id: a.id,
        account_owner: a.account_owner,
        name: a.name,
        description: a.description,
        purchasable: p,
    }
}

/// `a` handed over to `buyer` and taken off sale.
pub open spec fn sold_to(a: Asset, buyer: AccountId) -> Asset {
    Asset {
        id: a.id,
        account_owner: buyer,
        name: a.name,
        description: a.description,
        purchasable: false,
    }
}

/// `rep` moved by `d`, saturating at the ends of the `u32` range.
pub open spec fn apply_delta(rep: u32, d: ReputationDelta) -> u32 {
    if d.is_gain {
        if rep + d.magnitude > u32::MAX {
            u32::MAX
        } else {
            (rep + d.magnitude) as u32
        }
    } else {
        if rep < d.magnitude {
            0u32
        } else {
            (rep - d.magnitude) as u32
        }
    }
}

/// Reputation saturation: applying any delta to any score keeps the score
/// inside the `u32` range.
pub proof fn lemma_reputation_saturation(rep: u32, d: ReputationDelta)
    ensures
        0 <= apply_delta(rep, d) <= u32::MAX,
{
}

/// `rep` moved by `d`, saturating: never underflows or overflows.
pub fn saturating_apply(rep: u32, d: &ReputationDelta) -> (r: u32)
    ensures
        r == apply_delta(rep, *d),
{
    if d.is_gain {
        if rep > u32::MAX - d.magnitude {
            u32::MAX
        } else {
            rep + d.magnitude
        }
    } else {
        if rep < d.magnitude {
            0
        } else {
            rep - d.magnitude
        }
    }
}

/// No two assets share an id.
pub open spec fn assets_unique(assets: Seq<Asset>) -> bool {
    forall|i: int, j: int|
        0 <= i < j < assets.len() ==> assets[i].id != assets[j].id
}

/// No two users share an account id.
pub open spec fn users_unique(users: Seq<UserProfile>) -> bool {
    forall|i: int, j: int|
        0 <= i < j < users.len() ==> users[i].account_id != users[j].account_id
}

/// Two in-range positions holding the same asset id are the same position.
pub proof fn lemma_unique_asset_index(assets: Seq<Asset>, i: int, j: int)
    requires
        assets_unique(assets),
        0 <= i < assets.len(),
        0 <= j < assets.len(),
        assets[i].id == assets[j].id,
    ensures
        i == j,
{
    if i < j {
        assert(assets[i].id != assets[j].id);
    } else if j < i {
        assert(assets[j].id != assets[i].id);
    }
}

/// Two in-range positions holding the same account id are the same position.
pub proof fn lemma_unique_user_index(users: Seq<UserProfile>, i: int, j: int)
    requires
        users_unique(users),
        0 <= i < users.len(),
        0 <= j < users.len(),
        users[i].account_id == users[j].account_id,
    ensures
        i == j,
{
    if i < j {
        assert(users[i].account_id != users[j].account_id);
    } else if j < i {
        assert(users[j].account_id != users[i].account_id);
    }
}

/// The whole persistent state of one marketplace instance: registry records,
/// the commitment and nullifier sets, the single sale slot, the digests of
/// the two guest methods whose proofs gate transitions, and the events
/// emitted so far.
#[verifier::ext_equal]
pub struct Marketplace {
    pub users: Vec<UserProfile>,
    pub assets: Vec<Asset>,
    pub current_sale: Sale,
    pub spent_nullifiers: NullifierSet,
    pub commitments: CommitmentSet,
    pub listing_method: Hash256,
    pub reputation_method: Hash256,
    pub events: Vec<Event>,
    pub reviews: Vec<Review>,
}

impl Marketplace {
    /// Some asset carries this id.
    pub open spec fn spec_has_asset(self, id: u32) -> bool {
        exists|i: int| 0 <= i < self.assets@.len() && self.assets@[i].id == id
    }

    /// The asset carrying `id` (meaningful under `wf` when `spec_has_asset`).
    pub open spec fn spec_asset_at(self, id: u32) -> Asset {
        self.assets@[choose|i: int| 0 <= i < self.assets@.len() && self.assets@[i].id == id]
    }

    /// Some user carries this account id.
    pub open spec fn spec_has_user(self, a: AccountId) -> bool {
        exists|i: int| 0 <= i < self.users@.len() && self.users@[i].account_id == a
    }

    /// The profile of `a` (meaningful under `wf` when `spec_has_user`).
    pub open spec fn spec_user_at(self, a: AccountId) -> UserProfile {
        self.users@[choose|i: int| 0 <= i < self.users@.len() && self.users@[i].account_id == a]
    }

    /// Single active sale: an asset is purchasable exactly when it is the
    /// asset of an ongoing sale. With unique asset ids this bounds the
    /// purchasable assets to at most one.
    pub open spec fn single_sale(self) -> bool {
        forall|i: int|
            0 <= i < self.assets@.len() ==> (self.assets@[i].purchasable <==> (
            self.current_sale.status is OnGoing && self.assets@[i].id
                == self.current_sale.asset_id))
    }

    /// The marketplace invariant: both sets are duplicate-free, registry keys
    /// are unique, and at most one sale is active.
    pub open spec fn wf(self) -> bool {
        &&& self.commitments.wf()
        &&& self.spent_nullifiers.wf()
        &&& assets_unique(self.assets@)
        &&& users_unique(self.users@)
        &&& self.single_sale()
    }

    /// Initializes the marketplace: the given registry records, empty
    /// commitment and nullifier sets, no events, and the sale slot closed.
    pub fn new(
        assets_list: Vec<Asset>,
        users_list: Vec<UserProfile>,
        listing_method: Hash256,
        reputation_method: Hash256,
    ) -> (m: Marketplace)
        requires
            assets_unique(assets_list@),
            users_unique(users_list@),
            forall|i: int| 0 <= i < assets_list@.len() ==> !assets_list@[i].purchasable,
        ensures
            m.wf(),
            m.users@ == users_list@,
            m.assets@ == assets_list@,
            m.current_sale == (Sale { status: SaleStatus::Closed, price: 0u32, asset_id: 0u32 }),
            m.spent_nullifiers@ == Set::<Hash256>::empty(),
            m.commitments@ == Set::<Hash256>::empty(),
            m.listing_method == listing_method,
            m.reputation_method == reputation_method,
            m.events@ == Seq::<Event>::empty(),
            m.reviews@ == Seq::<Review>::empty(),
    {
        let init_sale = Sale { status: SaleStatus::Closed, price: 0, asset_id: 0 };
        Marketplace {
            users: users_list,
            assets: assets_list,
            current_sale: init_sale,
            spent_nullifiers: NullifierSet::new(),
            commitments: CommitmentSet::new(),
            listing_method,
            reputation_method,
            events: Vec::new(),
            reviews: Vec::new(),
        }
    }

    /// The position of the asset carrying `id`, if any.
    fn find_asset(&self, id: u32) -> (r: Option<usize>)
        ensures
            match r {
                Option::Some(i) => i < self.assets@.len() && self.assets@[i as int].id == id
                    && self.spec_has_asset(id),
                Option::None => !self.spec_has_asset(id),
            },
    {
        let mut i: usize = 0;
        while i < self.assets.len()
            invariant
                i <= self.assets@.len(),
                forall|j: int| 0 <= j < i ==> self.assets@[j].id != id,
            decreases self.assets@.len() - i,
        {
            if self.assets[i].id == id {
                return Some(i);
            }
            i = i + 1;
        }
        None
    }

    /// The position of the user carrying `a`, if any.
    fn find_user(&self, a: &AccountId) -> (r: Option<usize>)
        ensures
            match r {
                Option::Some(i) => i < self.users@.len() && self.users@[i as int].account_id == *a
                    && self.spec_has_user(*a),
                Option::None => !self.spec_has_user(*a),
            },
    {
        let mut i: usize = 0;
        while i < self.users.len()
            invariant
                i <= self.users@.len(),
                forall|j: int| 0 <= j < i ==> self.users@[j].account_id != *a,
            decreases self.users@.len() - i,
        {
            if self.users[i].account_id == *a {
                return Some(i);
            }
            i = i + 1;
        }
        None
    }

    /// Registers a seller commitment. Always succeeds; registering the same
    /// commitment again is an idempotent no-op. Silent: no event is emitted,
    /// which preserves the anonymity of registration.
    pub fn register_seller(&mut self, new_hash: Hash256)
        requires
            old(self).wf(),
        ensures
            final(self).wf(),
            final(self).commitments@ == old(self).commitments@.insert(new_hash),
            old(self).commitments@.contains(new_hash) ==> *final(self) == *old(self),
            final(self).users == old(self).users,
            final(self).assets == old(self).assets,
            final(self).current_sale == old(self).current_sale,
            final(self).spent_nullifiers == old(self).spent_nullifiers,
            final(self).listing_method == old(self).listing_method,
            final(self).reputation_method == old(self).reputation_method,
            final(self).events == old(self).events,
            final(self).reviews == old(self).reviews,
    {
        let ghost pre = *self;
        self.commitments.register(new_hash);
        proof {
            if pre.commitments@.contains(new_hash) {
                assert(*self =~= pre);
            }
        }
    }

    /// The guards of a listing, applied in this order: seller registration,
    /// proof verification, record lookup, sale-transition validity, nullifier
    /// freshness. `None` means every guard passes. The nullifier guard comes
    /// last so that its check-and-insert is the first mutation: a rejection
    /// for any reason leaves the whole state untouched.
    pub open spec fn listing_guard(self, accepted: bool, inp: ListingInputs) -> Option<
        MarketplaceError,
    > {
        if !self.commitments@.contains(inp.commitment) {
            Option::Some(MarketplaceError::NotRegistered)
        } else if !accepted {
            Option::Some(MarketplaceError::InvalidProof)
        } else if !self.spec_has_asset(inp.asset_id) {
            Option::Some(MarketplaceError::StorageFault)
        } else if self.current_sale.status is OnGoing || self.spec_asset_at(
            inp.asset_id,
        ).purchasable {
            Option::Some(MarketplaceError::InvalidSaleTransition)
        } else if self.spent_nullifiers@.contains(inp.nullifier) {
            Option::Some(MarketplaceError::NullifierSpent)
        } else {
            Option::None
        }
    }

    /// What a successful listing does: the nullifier is consumed, the listed
    /// asset becomes purchasable, the sale slot goes ongoing at the given
    /// price, an `ItemOnsale` event is emitted, and nothing else changes.
    pub open spec fn listing_applied(
        pre: Marketplace,
        post: Marketplace,
        seller: AccountId,
        price: u32,
        inp: ListingInputs,
    ) -> bool {
        &&& post.users@ == pre.users@
        &&& post.commitments == pre.commitments
        &&& post.spent_nullifiers@ == pre.spent_nullifiers@.insert(inp.nullifier)
        &&& post.current_sale == (Sale {
            status: SaleStatus::OnGoing,
            price,
            asset_id: inp.asset_id,
        })
        &&& post.assets@.len() == pre.assets@.len()
        &&& (forall|i: int|
            0 <= i < pre.assets@.len() ==> post.assets@[i] == (if pre.assets@[i].id
                == inp.asset_id {
                with_purchasable(pre.assets@[i], true)
            } else {
                pre.assets@[i]
            }))
        &&& post.events@ == pre.events@.push(Event::ItemOnsale(ItemOnsale { seller_id: seller }))
        &&& post.reviews@ == pre.reviews@
        &&& post.listing_method == pre.listing_method
        &&& post.reputation_method == pre.reputation_method
    }

    /// Relates a listing call to its result, for a fixed verifier answer:
    /// a rejection carries the first failing guard's error and leaves the
    /// state untouched; a success is applied as `listing_applied` says.
    pub open spec fn listing_outcome(
        pre: Marketplace,
        post: Marketplace,
        r: Result<(), MarketplaceError>,
        seller: AccountId,
        price: u32,
        accepted: bool,
        inp: ListingInputs,
    ) -> bool {
        match pre.listing_guard(accepted, inp) {
            Option::Some(e) => r == Result::<(), MarketplaceError>::Err(e) && post == pre,
            Option::None => r == Result::<(), MarketplaceError>::Ok(())
                && Self::listing_applied(pre, post, seller, price, inp),
        }
    }

    /// Applies the listing transition, with the proof verifier's answer
    /// passed in as `accepted`. This is the whole decision logic of `put_asset_on_sale`;
    /// it is public so that a caller who verified the proof elsewhere can
    /// drive the same transition.
    pub fn apply_listing(
        &mut self,
        seller: AccountId,
        price: u32,
        accepted: bool,
        inp: &ListingInputs,
    ) -> (r: Result<(), MarketplaceError>)
        requires
            old(self).wf(),
        ensures
            final(self).wf(),
            Self::listing_outcome(*old(self), *final(self), r, seller, price, accepted, *inp),
            old(self).spent_nullifiers@.subset_of(final(self).spent_nullifiers@),
            old(self).commitments@.subset_of(final(self).commitments@),
    {
        if !self.commitments.contains(&inp.commitment) {
            return Err(MarketplaceError::NotRegistered);
        }
        if !accepted {
            return Err(MarketplaceError::InvalidProof);
        }
        let idx = match self.find_asset(inp.asset_id) {
            Some(i) => i,
            None => {
                return Err(MarketplaceError::StorageFault);
            },
        };
        proof {
            lemma_unique_asset_index(
                self.assets@,
                idx as int,
                choose|i: int|
                    0 <= i < self.assets@.len() && self.assets@[i].id == inp.asset_id,
            );
            assert(self.spec_asset_at(inp.asset_id) == self.assets@[idx as int]);
        }
        if self.current_sale.status == SaleStatus::OnGoing || self.assets[idx].purchasable {
            return Err(MarketplaceError::InvalidSaleTransition);
        }
        let fresh = self.spent_nullifiers.try_consume(inp.nullifier);
        if !fresh {
            proof {
                assert(*self =~= *old(self));
            }
            return Err(MarketplaceError::NullifierSpent);
        }
        let mut listed = self.assets.remove(idx);
        listed.purchasable = true;
        self.assets.insert(idx, listed);
        self.current_sale = Sale { status: SaleStatus::OnGoing, price, asset_id: inp.asset_id };
        self.events.push(Event::ItemOnsale(ItemOnsale { seller_id: seller }));
        proof {
            let pre = *old(self);
            assert(self.assets@ =~= pre.assets@.update(
                idx as int,
                with_purchasable(pre.assets@[idx as int], true),
            ));
            assert forall|i: int, j: int|
                0 <= i < j < self.assets@.len() implies self.assets@[i].id
                != self.assets@[j].id by {
                assert(pre.assets@[i].id == self.assets@[i].id);
                assert(pre.assets@[j].id == self.assets@[j].id);
            }
            assert forall|i: int|
                0 <= i < self.assets@.len() implies (self.assets@[i].purchasable <==> (
            self.current_sale.status is OnGoing && self.assets@[i].id
                == self.current_sale.asset_id)) by {
                if i != idx as int && pre.assets@[i].id == inp.asset_id {
                    lemma_unique_asset_index(pre.assets@, i, idx as int);
                }
            }
            assert(Self::listing_applied(pre, *self, seller, price, *inp));
        }
        Ok(())
    }

    /// Lists an asset for sale. Requires that the claimed commitment was
    /// registered, that the proof verifies under the listing method digest
    /// and is bound to exactly these public inputs, that the sale slot is
    /// free and the asset is not already on sale, and that the claim's
    /// nullifier is fresh; the nullifier is consumed together with the
    /// transition. Any rejection is all-or-nothing.
    pub fn put_asset_on_sale(
        &mut self,
        seller: AccountId,
        price: u32,
        zk_proof: &Vec<u8>,
        inp: &ListingInputs,
    ) -> (r: Result<(), MarketplaceError>)
        requires
            old(self).wf(),
        ensures
            final(self).wf(),
            Self::listing_outcome(
                *old(self),
                *final(self),
                r,
                seller,
                price,
                listing_proof_accepted(old(self).listing_method, zk_proof@, *inp),
                *inp,
            ),
            old(self).spent_nullifiers@.subset_of(final(self).spent_nullifiers@),
            old(self).commitments@.subset_of(final(self).commitments@),
    {
        let method = self.listing_method;
        let accepted = verify_listing(&method, zk_proof, inp);
        self.apply_listing(seller, price, accepted, inp)
    }

    /// The guards of a purchase, in order: an ongoing sale of this asset, the
    /// offered price equal to the sale price, a buyer balance that covers it,
    /// and the asset present in the registry.
    pub open spec fn buy_guard(self, asset_id: u32, price: u32, buyer_balance: u32) -> Option<
        MarketplaceError,
    > {
        if !(self.current_sale.status is OnGoing) || self.current_sale.asset_id != asset_id {
            Option::Some(MarketplaceError::InvalidSaleTransition)
        } else if price != self.current_sale.price {
            Option::Some(MarketplaceError::PriceMismatch)
        } else if buyer_balance < price {
            Option::Some(MarketplaceError::InsufficientFunds)
        } else if !self.spec_has_asset(asset_id) {
            Option::Some(MarketplaceError::StorageFault)
        } else {
            Option::None
        }
    }

    /// What a completed purchase does: ownership moves to the buyer
    /// atomically with the sale closing, the asset leaves sale, an
    /// `ItemBought` event is emitted, and nothing else changes.
    pub open spec fn purchase_applied(
        pre: Marketplace,
        post: Marketplace,
        asset_id: u32,
        buyer: AccountId,
    ) -> bool {
        &&& post.users@ == pre.users@
        &&& post.commitments == pre.commitments
        &&& post.spent_nullifiers == pre.spent_nullifiers
        &&& post.current_sale == (Sale {
            status: SaleStatus::Closed,
            price: pre.current_sale.price,
            asset_id: pre.current_sale.asset_id,
        })
        &&& post.assets@.len() == pre.assets@.len()
        &&& (forall|i: int|
            0 <= i < pre.assets@.len() ==> post.assets@[i] == (if pre.assets@[i].id == asset_id {
                sold_to(pre.assets@[i], buyer)
            } else {
                pre.assets@[i]
            }))
        &&& post.events@ == pre.events@.push(Event::ItemBought(ItemBought { account_id: buyer }))
        &&& post.reviews@ == pre.reviews@
        &&& post.listing_method == pre.listing_method
        &&& post.reputation_method == pre.reputation_method
    }

    /// Relates a purchase call to its result: a rejection carries the first
    /// failing guard's error and leaves the state untouched; a success is
    /// applied as `purchase_applied` says.
    pub open spec fn purchase_outcome(
        pre: Marketplace,
        post: Marketplace,
        r: Result<(), MarketplaceError>,
        asset_id: u32,
        buyer: AccountId,
        price: u32,
        buyer_balance: u32,
    ) -> bool {
        match pre.buy_guard(asset_id, price, buyer_balance) {
            Option::Some(e) => r == Result::<(), MarketplaceError>::Err(e) && post == pre,
            Option::None => r == Result::<(), MarketplaceError>::Ok(()) && Self::purchase_applied(
                pre,
                post,
                asset_id,
                buyer,
            ),
        }
    }

    /// Buys the asset of the ongoing sale. The buyer's balance is a fact of
    /// the surrounding ledger and arrives as an argument; the guard rejects a
    /// balance below the price. On success ownership transfers atomically
    /// with the sale closing.
    pub fn buy_asset(
        &mut self,
        asset_id: u32,
        buyer: AccountId,
        price: u32,
        buyer_balance: u32,
    ) -> (r: Result<(), MarketplaceError>)
        requires
            old(self).wf(),
        ensures
            final(self).wf(),
            Self::purchase_outcome(
                *old(self),
                *final(self),
                r,
                asset_id,
                buyer,
                price,
                buyer_balance,
            ),
            old(self).spent_nullifiers@.subset_of(final(self).spent_nullifiers@),
            old(self).commitments@.subset_of(final(self).commitments@),
    {
        if self.current_sale.status != SaleStatus::OnGoing || self.current_sale.asset_id
            != asset_id {
            return Err(MarketplaceError::InvalidSaleTransition);
        }
        if price != self.current_sale.price {
            return Err(MarketplaceError::PriceMismatch);
        }
        if buyer_balance < price {
            return Err(MarketplaceError::InsufficientFunds);
        }
        let idx = match self.find_asset(asset_id) {
            Some(i) => i,
            None => {
                return Err(MarketplaceError::StorageFault);
            },
        };
        let mut bought = self.assets.remove(idx);
        bought.account_owner = buyer;
        bought.purchasable = false;
        self.assets.insert(idx, bought);
        self.current_sale.status = SaleStatus::Closed;
        self.events.push(Event::ItemBought(ItemBought { account_id: buyer }));
        proof {
            let pre = *old(self);
            assert(self.assets@ =~= pre.assets@.update(
                idx as int,
                sold_to(pre.assets@[idx as int], buyer),
            ));
            assert forall|i: int, j: int|
                0 <= i < j < self.assets@.len() implies self.assets@[i].id
                != self.assets@[j].id by {
                assert(pre.assets@[i].id == self.assets@[i].id);
                assert(pre.assets@[j].id == self.assets@[j].id);
            }
            assert forall|i: int|
                0 <= i < self.assets@.len() implies !self.assets@[i].purchasable by {
                if i != idx as int && pre.assets@[i].id == asset_id {
                    lemma_unique_asset_index(pre.assets@, i, idx as int);
                }
            }
            assert(Self::purchase_applied(pre, *self, asset_id, buyer));
        }
        Ok(())
    }

    /// The guards of a cancellation: an ongoing sale whose asset the caller
    /// owns. A caller who is not the owner cannot drive this transition.
    pub open spec fn cancel_guard(self, caller: AccountId) -> Option<MarketplaceError> {
        if !(self.current_sale.status is OnGoing) {
            Option::Some(MarketplaceError::InvalidSaleTransition)
        } else if !self.spec_has_asset(self.current_sale.asset_id) {
            Option::Some(MarketplaceError::StorageFault)
        } else if self.spec_asset_at(self.current_sale.asset_id).account_owner != caller {
            Option::Some(MarketplaceError::InvalidSaleTransition)
        } else {
            Option::None
        }
    }

    /// What a cancellation does: the sale slot goes to `Cancelled`, the asset
    /// leaves sale, and nothing else changes; a later listing may reopen the
    /// slot from either resting state.
    pub open spec fn cancel_applied(pre: Marketplace, post: Marketplace) -> bool {
        &&& post.users@ == pre.users@
        &&& post.commitments == pre.commitments
        &&& post.spent_nullifiers == pre.spent_nullifiers
        &&& post.current_sale == (Sale {
            status: SaleStatus::Cancelled,
            price: pre.current_sale.price,
            asset_id: pre.current_sale.asset_id,
        })
        &&& post.assets@.len() == pre.assets@.len()
        &&& (forall|i: int|
            0 <= i < pre.assets@.len() ==> post.assets@[i] == (if pre.assets@[i].id
                == pre.current_sale.asset_id {
                with_purchasable(pre.assets@[i], false)
            } else {
                pre.assets@[i]
            }))
        &&& post.events@ == pre.events@
        &&& post.reviews@ == pre.reviews@
        &&& post.listing_method == pre.listing_method
        &&& post.reputation_method == pre.reputation_method
    }

    /// Cancels the ongoing sale. Only the owner of the asset on sale may
    /// cancel; the slot rests at `Cancelled` until the next listing.
    pub fn cancel_sale(&mut self, caller: AccountId) -> (r: Result<(), MarketplaceError>)
        requires
            old(self).wf(),
        ensures
            final(self).wf(),
            ({
                match old(self).cancel_guard(caller) {
                    Option::Some(e) => r == Result::<(), MarketplaceError>::Err(e) && *final(self)
                        == *old(self),
                    Option::None => r == Result::<(), MarketplaceError>::Ok(())
                        && Self::cancel_applied(*old(self), *final(self)),
                }
            }),
            old(self).spent_nullifiers@.subset_of(final(self).spent_nullifiers@),
            old(self).commitments@.subset_of(final(self).commitments@),
    {
        if self.current_sale.status != SaleStatus::OnGoing {
            return Err(MarketplaceError::InvalidSaleTransition);
        }
        let sale_asset = self.current_sale.asset_id;
        let idx = match self.find_asset(sale_asset) {
            Some(i) => i,
            None => {
                return Err(MarketplaceError::StorageFault);
            },
        };
        proof {
            lemma_unique_asset_index(
                self.assets@,
                idx as int,
                choose|i: int| 0 <= i < self.assets@.len() && self.assets@[i].id == sale_asset,
            );
            assert(self.spec_asset_at(sale_asset) == self.assets@[idx as int]);
        }
        if self.assets[idx].account_owner != caller {
            return Err(MarketplaceError::InvalidSaleTransition);
        }
        let mut withdrawn = self.assets.remove(idx);
        withdrawn.purchasable = false;
        self.assets.insert(idx, withdrawn);
        self.current_sale.status = SaleStatus::Cancelled;
        proof {
            let pre = *old(self);
            assert(self.assets@ =~= pre.assets@.update(
                idx as int,
                with_purchasable(pre.assets@[idx as int], false),
            ));
            assert forall|i: int, j: int|
                0 <= i < j < self.assets@.len() implies self.assets@[i].id
                != self.assets@[j].id by {
                assert(pre.assets@[i].id == self.assets@[i].id);
                assert(pre.assets@[j].id == self.assets@[j].id);
            }
            assert forall|i: int|
                0 <= i < self.assets@.len() implies !self.assets@[i].purchasable by {
                if i != idx as int && pre.assets@[i].id == sale_asset {
                    lemma_unique_asset_index(pre.assets@, i, idx as int);
                }
            }
            assert(Self::cancel_applied(pre, *self));
        }
        Ok(())
    }

    /// The guards of a reputation update, in order: proof verification,
    /// seller lookup, nullifier freshness. As with listings, the nullifier's
    /// check-and-insert is the first mutation.
    pub open spec fn reputation_guard(self, accepted: bool, inp: ReputationInputs) -> Option<
        MarketplaceError,
    > {
        if !accepted {
            Option::Some(MarketplaceError::InvalidProof)
        } else if !self.spec_has_user(inp.seller) {
            Option::Some(MarketplaceError::StorageFault)
        } else if self.spent_nullifiers@.contains(inp.nullifier) {
            Option::Some(MarketplaceError::NullifierSpent)
        } else {
            Option::None
        }
    }

    /// What a successful reputation update does: the nullifier is consumed,
    /// the seller's score moves by the attested delta saturating within the
    /// `u32` range, a `ReputationUpdated` event carries the new score, and
    /// nothing else changes.
    pub open spec fn reputation_applied(
        pre: Marketplace,
        post: Marketplace,
        inp: ReputationInputs,
    ) -> bool {
        &&& post.users@.len() == pre.users@.len()
        &&& (forall|i: int|
            0 <= i < pre.users@.len() ==> post.users@[i] == (if pre.users@[i].account_id
                == inp.seller {
                UserProfile {
                    account_id: inp.seller,
                    reputation: apply_delta(pre.users@[i].reputation, inp.delta),
                }
            } else {
                pre.users@[i]
            }))
        &&& post.assets@ == pre.assets@
        &&& post.commitments == pre.commitments
        &&& post.spent_nullifiers@ == pre.spent_nullifiers@.insert(inp.nullifier)
        &&& post.current_sale == pre.current_sale
        &&& post.events@ == pre.events@.push(
            Event::ReputationUpdated(
                ReputationUpdated {
                    seller_id: inp.seller,
                    new_score: apply_delta(pre.spec_user_at(inp.seller).reputation, inp.delta),
                },
            ),
        )
        &&& post.reviews@ == pre.reviews@
        &&& post.listing_method == pre.listing_method
        &&& post.reputation_method == pre.reputation_method
    }

    /// Relates a reputation-update call to its result, for a fixed
    /// verifier answer.
    pub open spec fn reputation_outcome(
        pre: Marketplace,
        post: Marketplace,
        r: Result<(), MarketplaceError>,
        accepted: bool,
        inp: ReputationInputs,
    ) -> bool {
        match pre.reputation_guard(accepted, inp) {
            Option::Some(e) => r == Result::<(), MarketplaceError>::Err(e) && post == pre,
            Option::None => r == Result::<(), MarketplaceError>::Ok(())
                && Self::reputation_applied(pre, post, inp),
        }
    }

    /// Applies the reputation transition, with the proof verifier's answer
    /// passed in as `accepted`. This is the whole decision logic of
    /// `update_seller_reputation`.
    pub fn apply_reputation(&mut self, accepted: bool, inp: &ReputationInputs) -> (r: Result<
        (),
        MarketplaceError,
    >)
        requires
            old(self).wf(),
        ensures
            final(self).wf(),
            Self::reputation_outcome(*old(self), *final(self), r, accepted, *inp),
            old(self).spent_nullifiers@.subset_of(final(self).spent_nullifiers@),
            old(self).commitments@.subset_of(final(self).commitments@),
    {
        if !accepted {
            return Err(MarketplaceError::InvalidProof);
        }
        let idx = match self.find_user(&inp.seller) {
            Some(i) => i,
            None => {
                return Err(MarketplaceError::StorageFault);
            },
        };
        proof {
            lemma_unique_user_index(
                self.users@,
                idx as int,
                choose|i: int|
                    0 <= i < self.users@.len() && self.users@[i].account_id == inp.seller,
            );
            assert(self.spec_user_at(inp.seller) == self.users@[idx as int]);
        }
        let fresh = self.spent_nullifiers.try_consume(inp.nullifier);
        if !fresh {
            proof {
                assert(*self =~= *old(self));
            }
            return Err(MarketplaceError::NullifierSpent);
        }
        let old_profile = self.users[idx];
        let new_score = saturating_apply(old_profile.reputation, &inp.delta);
        let mut updated = self.users.remove(idx);
        updated.reputation = new_score;
        self.users.insert(idx, updated);
        self.events.push(
            Event::ReputationUpdated(
                ReputationUpdated { seller_id: inp.seller, new_score },
            ),
        );
        proof {
            let pre = *old(self);
            assert(self.users@ =~= pre.users@.update(
                idx as int,
                UserProfile { account_id: inp.seller, reputation: new_score },
            ));
            assert forall|i: int, j: int|
                0 <= i < j < self.users@.len() implies self.users@[i].account_id
                != self.users@[j].account_id by {
                assert(pre.users@[i].account_id == self.users@[i].account_id);
                assert(pre.users@[j].account_id == self.users@[j].account_id);
            }
            assert forall|i: int|
                0 <= i < pre.users@.len() implies self.users@[i] == (if pre.users@[i].account_id
                == inp.seller {
                UserProfile {
                    account_id: inp.seller,
                    reputation: apply_delta(pre.users@[i].reputation, inp.delta),
                }
            } else {
                pre.users@[i]
            }) by {
                if i != idx as int && pre.users@[i].account_id == inp.seller {
                    lemma_unique_user_index(pre.users@, i, idx as int);
                }
            }
            assert(Self::reputation_applied(pre, *self, *inp));
        }
        Ok(())
    }

    /// Updates a seller's reputation. Requires a proof that verifies under
    /// the reputation method digest and is bound to exactly these public
    /// inputs, a seller present in the registry, and a fresh nullifier; the
    /// nullifier is consumed together with the saturating score change. Any
    /// rejection is all-or-nothing.
    pub fn update_seller_reputation(&mut self, review_proof: &Vec<u8>, inp: &ReputationInputs) -> (r:
        Result<(), MarketplaceError>)
        requires
            old(self).wf(),
        ensures
            final(self).wf(),
            Self::reputation_outcome(
                *old(self),
                *final(self),
                r,
                reputation_proof_accepted(old(self).reputation_method, review_proof@, *inp),
                *inp,
            ),
            old(self).spent_nullifiers@.subset_of(final(self).spent_nullifiers@),
            old(self).commitments@.subset_of(final(self).commitments@),
    {
        let method = self.reputation_method;
        let accepted = verify_reputation(&method, review_proof, inp);
        self.apply_reputation(accepted, inp)
    }

    /// Stores an opaque encrypted review for a seller. Bookkeeping only, and
    /// deliberately decoupled from reputation: a review never moves a score;
    /// scores move only through `update_seller_reputation`, which is proof-
    /// and nullifier-gated.
    pub fn give_seller_review(&mut self, seller: AccountId, encrypted_change: Vec<u8>)
        requires
            old(self).wf(),
        ensures
            final(self).wf(),
            final(self).reviews@ == old(self).reviews@.push(
                Review { seller, payload: encrypted_change },
            ),
            final(self).users == old(self).users,
            final(self).assets == old(self).assets,
            final(self).current_sale == old(self).current_sale,
            final(self).spent_nullifiers == old(self).spent_nullifiers,
            final(self).commitments == old(self).commitments,
            final(self).listing_method == old(self).listing_method,
            final(self).reputation_method == old(self).reputation_method,
            final(self).events == old(self).events,
    {
        self.reviews.push(Review { seller, payload: encrypted_change });
    }

    /// The current sale record.
    pub fn sale(&self) -> (s: Sale)
        ensures
            s == self.current_sale,
    {
        self.current_sale
    }

    /// Whether `c` was registered as a seller commitment.
    pub fn is_registered(&self, c: &Hash256) -> (r: bool)
        ensures
            r == self.commitments@.contains(*c),
    {
        self.commitments.contains(c)
    }

    /// Whether `n` was already consumed. Diagnostics only.
    pub fn is_nullifier_spent(&self, n: &Hash256) -> (r: bool)
        ensures
            r == self.spent_nullifiers@.contains(*n),
    {
        self.spent_nullifiers.contains(n)
    }

    /// How many distinct commitments were registered.
    pub fn commitment_count(&self) -> (n: usize)
        requires
            self.wf(),
        ensures
            n == self.commitments@.len(),
    {
        self.commitments.len()
    }

    /// The reputation of `account`, if such a user is registered.
    pub fn reputation_of(&self, account: &AccountId) -> (r: Option<u32>)
        requires
            self.wf(),
        ensures
            self.spec_has_user(*account) ==> r == Option::Some(
                self.spec_user_at(*account).reputation,
            ),
            !self.spec_has_user(*account) ==> r is None,
    {
        match self.find_user(account) {
            Some(i) => {
                proof {
                    lemma_unique_user_index(
                        self.users@,
                        i as int,
                        choose|j: int|
                            0 <= j < self.users@.len() && self.users@[j].account_id == *account,
                    );
                }
                Some(self.users[i].reputation)
            },
            None => None,
        }
    }

    /// Whether the asset carrying `id` is on sale, if it exists.
    pub fn asset_purchasable(&self, id: u32) -> (r: Option<bool>)
        requires
            self.wf(),
        ensures
            self.spec_has_asset(id) ==> r == Option::Some(self.spec_asset_at(id).purchasable),
            !self.spec_has_asset(id) ==> r is None,
    {
        match self.find_asset(id) {
            Some(i) => {
                proof {
                    lemma_unique_asset_index(
                        self.assets@,
                        i as int,
                        choose|j: int| 0 <= j < self.assets@.len() && self.assets@[j].id == id,
                    );
                }
                Some(self.assets[i].purchasable)
            },
            None => None,
        }
    }

    /// The owner of the asset carrying `id`, if it exists.
    pub fn asset_owner(&self, id: u32) -> (r: Option<AccountId>)
        requires
            self.wf(),
        ensures
            self.spec_has_asset(id) ==> r == Option::Some(self.spec_asset_at(id).account_owner),
            !self.spec_has_asset(id) ==> r is None,
    {
        match self.find_asset(id) {
            Some(i) => {
                proof {
                    lemma_unique_asset_index(
                        self.assets@,
                        i as int,
                        choose|j: int| 0 <= j < self.assets@.len() && self.assets@[j].id == id,
                    );
                }
                Some(self.assets[i].account_owner)
            },
            None => None,
        }
    }
}

/// Replay rejection at the listing entry point: a listing whose nullifier
/// was already consumed by any earlier operation is rejected with
/// `NullifierSpent` whenever every other guard passes, whatever proof is
/// presented.
pub proof fn lemma_listing_replay_rejected(m: Marketplace, accepted: bool, inp: ListingInputs)
    requires
        m.spent_nullifiers@.contains(inp.nullifier),
        m.commitments@.contains(inp.commitment),
        accepted,
        m.spec_has_asset(inp.asset_id),
        !(m.current_sale.status is OnGoing),
        !m.spec_asset_at(inp.asset_id).purchasable,
    ensures
        m.listing_guard(accepted, inp) == Option::Some(MarketplaceError::NullifierSpent),
{
}

/// Replay rejection at the reputation entry point: a reputation update whose
/// nullifier was already consumed by any earlier operation is rejected with
/// `NullifierSpent` whenever every other guard passes, whatever proof is
/// presented.
pub proof fn lemma_reputation_replay_rejected(
    m: Marketplace,
    accepted: bool,
    inp: ReputationInputs,
)
    requires
        m.spent_nullifiers@.contains(inp.nullifier),
        accepted,
        m.spec_has_user(inp.seller),
    ensures
        m.reputation_guard(accepted, inp) == Option::Some(MarketplaceError::NullifierSpent),
{
}

/// A listing attempted while another sale is ongoing is rejected with
/// `InvalidSaleTransition` and leaves the state exactly as it was. Stated for
/// a registered caller with an accepted proof and a present asset: when an
/// earlier guard fails too, that guard's error wins instead, per the guard
/// order.
pub proof fn lemma_listing_while_ongoing_rejected(
    pre: Marketplace,
    post: Marketplace,
    r: Result<(), MarketplaceError>,
    seller: AccountId,
    price: u32,
    accepted: bool,
    inp: ListingInputs,
)
    requires
        pre.commitments@.contains(inp.commitment),
        accepted,
        pre.spec_has_asset(inp.asset_id),
        pre.current_sale.status is OnGoing,
        Marketplace::listing_outcome(pre, post, r, seller, price, accepted, inp),
    ensures
        r == Result::<(), MarketplaceError>::Err(MarketplaceError::InvalidSaleTransition),
        post == pre,
{
}

/// Ownership transfer is atomic with sale closure: under the invariant, for a
/// buyer who does not already own the asset, a purchase call changes the
/// asset's owner exactly when it closes an ongoing sale in the same step; a
/// rejected call changes neither.
pub proof fn lemma_ownership_transfer_atomic(
    pre: Marketplace,
    post: Marketplace,
    r: Result<(), MarketplaceError>,
    asset_id: u32,
    buyer: AccountId,
    price: u32,
    buyer_balance: u32,
)
    requires
        pre.wf(),
        pre.spec_has_asset(asset_id),
        pre.spec_asset_at(asset_id).account_owner != buyer,
        Marketplace::purchase_outcome(pre, post, r, asset_id, buyer, price, buyer_balance),
    ensures
        (post.spec_asset_at(asset_id).account_owner != pre.spec_asset_at(
            asset_id,
        ).account_owner) <==> (r is Ok && pre.current_sale.status is OnGoing
            && post.current_sale.status is Closed),
{
    match pre.buy_guard(asset_id, price, buyer_balance) {
        Option::Some(e) => {
        },
        Option::None => {
            let c_pre = choose|i: int|
                0 <= i < pre.assets@.len() && pre.assets@[i].id == asset_id;
            assert(post.assets@[c_pre] == sold_to(pre.assets@[c_pre], buyer));
            assert(post.assets@[c_pre].id == asset_id);
            assert(post.spec_has_asset(asset_id));
            let c_post = choose|i: int|
                0 <= i < post.assets@.len() && post.assets@[i].id == asset_id;
            assert(pre.assets@[c_post].id == asset_id) by {
                if pre.assets@[c_post].id != asset_id {
                    assert(post.assets@[c_post] == pre.assets@[c_post]);
                }
            }
            lemma_unique_asset_index(pre.assets@, c_pre, c_post);
            assert(post.spec_asset_at(asset_id).account_owner == buyer);
        },
    }
}

/// Single active sale: under the marketplace invariant at most one asset is
/// purchasable at any observable point, it is the asset of the current sale,
/// and a purchasable asset exists only while the sale is ongoing.
pub proof fn lemma_single_active_sale(m: Marketplace, i: int, j: int)
    requires
        m.wf(),
        0 <= i < m.assets@.len(),
        0 <= j < m.assets@.len(),
        m.assets@[i].purchasable,
        m.assets@[j].purchasable,
    ensures
        i == j,
        m.current_sale.status is OnGoing,
        m.assets@[i].id == m.current_sale.asset_id,
{
    lemma_unique_asset_index(m.assets@, i, j);
}

} // verus!
