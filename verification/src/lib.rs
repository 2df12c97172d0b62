//! A verified token-marketplace core: time-bounded auctions, fixed-price
//! unit sales, and off-auction purchase offers over non-fungible and
//! semi-fungible tokens, with an exact settlement engine and a
//! claimable-balance fallback for recipients that cannot take direct
//! transfers.
//!
//! The crate is the decision and settlement engine alone. The host chain
//! performs the transfers that an operation returns, supplies the caller,
//! the time, the attached payment and the token metadata as arguments, and
//! holds the one [`storage::Marketplace`] value between calls.

pub mod auction;
pub mod auction_model;
pub mod bidding;
pub mod events;
pub mod offer;
pub mod offer_model;
pub mod seller_mock;
pub mod storage;
pub mod token_distribution;
pub mod token_whitelist;
pub mod types;
pub mod views;

use vstd::prelude::*;

use crate::auction_model::PERCENTAGE_TOTAL;
use crate::bidding::BiddingModule;
use crate::offer::OfferModule;
use crate::storage::StorageModule;
use crate::token_whitelist::TokenWhitelistModule;
use crate::types::Address;
use crate::types::MarketplaceError;
use crate::views::ViewsModule;

verus! {

/// The marketplace contract: deployment and operator configuration, over
/// the auction, bidding, settlement, offer, whitelist and view modules.
pub trait EsdtNftMarketplace: BiddingModule + OfferModule + ViewsModule + TokenWhitelistModule {
    /// Deploys a marketplace owned by `owner` with the given cut, which
    /// must lie strictly between 0 and 100%; the stores start empty.
    fn init(owner: Address, bid_cut_percentage: u64) -> (r: Result<Self, MarketplaceError>)
        requires
            !owner.is_zero_spec(),
        ensures
            r is Err <==> !(0 < bid_cut_percentage < PERCENTAGE_TOTAL),
            r matches Err(e) ==> e == MarketplaceError::InvalidParameters,
            r matches Ok(m) ==> {
                &&& m.wf()
                &&& m.sc_owner() == owner
                &&& m.cut() == bid_cut_percentage
                &&& m.auction_store() == Seq::<Option<crate::auction_model::Auction>>::empty()
                &&& m.offer_store() == Seq::<Option<crate::offer_model::Offer>>::empty()
                &&& m.claim_entries() == Seq::<crate::storage::ClaimEntry>::empty()
                &&& m.whitelist() == Seq::<crate::types::EgldOrEsdtTokenIdentifier>::empty()
            },
    ;

    /// Changes the marketplace cut for listings made from now on; only the
    /// operator may, and only to a value strictly between 0 and 100%.
    /// Records already stored keep their snapshotted percentages.
    fn set_percentage_cut(&mut self, new_cut_percentage: u64, caller: Address) -> (r: Result<
        (),
        MarketplaceError,
    >)
        requires
            old(self).wf(),
        ensures
            final(self).wf(),
            final(self).sc_owner() == old(self).sc_owner(),
            final(self).auction_store() == old(self).auction_store(),
            final(self).offer_store() == old(self).offer_store(),
            final(self).claim_entries() == old(self).claim_entries(),
            final(self).whitelist() == old(self).whitelist(),
            r is Err <==> (caller != old(self).sc_owner() || !(0 < new_cut_percentage
                < PERCENTAGE_TOTAL)),
            r matches Err(e) ==> e == (if caller != old(self).sc_owner() {
                MarketplaceError::NotAuthorized
            } else {
                MarketplaceError::InvalidParameters
            }) && final(self).cut() == old(self).cut(),
            r is Ok ==> final(self).cut() == new_cut_percentage,
    ;

    /// The validated cut update shared by deployment and reconfiguration.
    fn try_set_bid_cut_percentage(&mut self, new_cut_percentage: u64) -> (r: Result<
        (),
        MarketplaceError,
    >)
        requires
            old(self).wf(),
        ensures
            final(self).wf(),
            final(self).sc_owner() == old(self).sc_owner(),
            final(self).auction_store() == old(self).auction_store(),
            final(self).offer_store() == old(self).offer_store(),
            final(self).claim_entries() == old(self).claim_entries(),
            final(self).whitelist() == old(self).whitelist(),
            r is Err <==> !(0 < new_cut_percentage < PERCENTAGE_TOTAL),
            r matches Err(e) ==> e == MarketplaceError::InvalidParameters && final(self).cut()
                == old(self).cut(),
            r is Ok ==> final(self).cut() == new_cut_percentage,
    ;
}

impl EsdtNftMarketplace for crate::storage::Marketplace {
    fn init(owner: Address, bid_cut_percentage: u64) -> Result<Self, MarketplaceError> {
        if !(0 < bid_cut_percentage && bid_cut_percentage < PERCENTAGE_TOTAL) {
            return Err(MarketplaceError::InvalidParameters);
        }
        Ok(
            crate::storage::Marketplace {
                owner,
                bid_cut_percentage,
                auctions: Vec::new(),
                offers: Vec::new(),
                claimable: Vec::new(),
                whitelisted_tokens: Vec::new(),
            },
        )
    }

    fn set_percentage_cut(&mut self, new_cut_percentage: u64, caller: Address) -> Result<
        (),
        MarketplaceError,
    > {
        if !(caller == self.owner) {
            return Err(MarketplaceError::NotAuthorized);
        }
        self.try_set_bid_cut_percentage(new_cut_percentage)
    }

    fn try_set_bid_cut_percentage(&mut self, new_cut_percentage: u64) -> Result<
        (),
        MarketplaceError,
    > {
        if !(0 < new_cut_percentage && new_cut_percentage < PERCENTAGE_TOTAL) {
            return Err(MarketplaceError::InvalidParameters);
        }
        self.bid_cut_percentage = new_cut_percentage;
        Ok(())
    }
}

} // verus!
