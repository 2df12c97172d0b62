//! Read-only queries: every stored field of an auction by id, each behind
//! an explicit "not found" sentinel rather than an error.

use vstd::prelude::*;

use crate::auction::AuctionModule;
use crate::auction_model::Auction;
use crate::auction_model::AuctionType;
use crate::storage::record_of;
use crate::storage::StorageModule;
use crate::types::Address;
use crate::types::EgldOrEsdtTokenIdentifier;

verus! {

/// Mirrors of the stored auction fields, by id.
pub trait ViewsModule: AuctionModule {
    /// Whether the id names a live auction.
    fn does_auction_exist(&self, auction_id: u64) -> (r: bool)
        ensures
            r == (record_of(self.auction_store(), auction_id) is Some),
    ;

    /// The auctioned asset: identifier, nonce and remaining quantity.
    fn get_auctioned_token(&self, auction_id: u64) -> (r: Option<(u64, u64, u64)>)
        ensures
            r == match record_of(self.auction_store(), auction_id) {
                Some(a) => Some(
                    (
                        a.auctioned_tokens.token_identifier,
                        a.auctioned_tokens.token_nonce,
                        a.auctioned_tokens.amount,
                    ),
                ),
                None => None::<(u64, u64, u64)>,
            },
    ;

    /// The auction's kind; `Unlisted` for an id with no live record.
    fn get_auction_type(&self, auction_id: u64) -> (r: AuctionType)
        ensures
            r == match record_of(self.auction_store(), auction_id) {
                Some(a) => a.auction_type,
                None => AuctionType::Unlisted,
            },
    ;

    /// The accepted payment token and nonce.
    fn get_payment_token_for_auction(&self, auction_id: u64) -> (r: Option<
        (EgldOrEsdtTokenIdentifier, u64),
    >)
        ensures
            r == match record_of(self.auction_store(), auction_id) {
                Some(a) => Some((a.payment_token, a.payment_nonce)),
                None => None::<(EgldOrEsdtTokenIdentifier, u64)>,
            },
    ;

    /// The minimum bid and the bound; an unbounded auction reports 0.
    fn get_min_max_bid(&self, auction_id: u64) -> (r: Option<(u64, u64)>)
        ensures
            r == match record_of(self.auction_store(), auction_id) {
                Some(a) => Some(
                    (
                        a.min_bid,
                        match a.max_bid {
                            Some(m) => m,
                            None => 0u64,
                        },
                    ),
                ),
                None => None::<(u64, u64)>,
            },
    ;

    /// When bidding opens.
    fn get_start_time(&self, auction_id: u64) -> (r: Option<u64>)
        ensures
            r == match record_of(self.auction_store(), auction_id) {
                Some(a) => Some(a.start_time),
                None => None::<u64>,
            },
    ;

    /// When bidding closes.
    fn get_deadline(&self, auction_id: u64) -> (r: Option<u64>)
        ensures
            r == match record_of(self.auction_store(), auction_id) {
                Some(a) => Some(a.deadline),
                None => None::<u64>,
            },
    ;

    /// The seller.
    fn get_original_owner(&self, auction_id: u64) -> (r: Option<Address>)
        ensures
            r == match record_of(self.auction_store(), auction_id) {
                Some(a) => Some(a.original_owner),
                None => None::<Address>,
            },
    ;

    /// The standing bid; 0 while unsold.
    fn get_current_winning_bid(&self, auction_id: u64) -> (r: Option<u64>)
        ensures
            r == match record_of(self.auction_store(), auction_id) {
                Some(a) => Some(a.current_bid),
                None => None::<u64>,
            },
    ;

    /// The standing winner; the zero address while unsold.
    fn get_current_winner(&self, auction_id: u64) -> (r: Option<Address>)
        ensures
            r == match record_of(self.auction_store(), auction_id) {
                Some(a) => Some(a.current_winner),
                None => None::<Address>,
            },
    ;

    /// The whole record.
    fn get_full_auction_data(&self, auction_id: u64) -> (r: Option<Auction>)
        ensures
            r == record_of(self.auction_store(), auction_id),
    ;
}

impl ViewsModule for crate::storage::Marketplace {
    fn does_auction_exist(&self, auction_id: u64) -> bool {
        match self.auction_by_id(auction_id) {
            Some(_) => true,
            None => false,
        }
    }

    fn get_auctioned_token(&self, auction_id: u64) -> Option<(u64, u64, u64)> {
        match self.auction_by_id(auction_id) {
            Some(a) => Some(
                (
                    a.auctioned_tokens.token_identifier,
                    a.auctioned_tokens.token_nonce,
                    a.auctioned_tokens.amount,
                ),
            ),
            None => None,
        }
    }

    fn get_auction_type(&self, auction_id: u64) -> AuctionType {
        match self.auction_by_id(auction_id) {
            Some(a) => a.auction_type,
            None => AuctionType::Unlisted,
        }
    }

    fn get_payment_token_for_auction(&self, auction_id: u64) -> Option<
        (EgldOrEsdtTokenIdentifier, u64),
    > {
        match self.auction_by_id(auction_id) {
            Some(a) => Some((a.payment_token, a.payment_nonce)),
            None => None,
        }
    }

    fn get_min_max_bid(&self, auction_id: u64) -> Option<(u64, u64)> {
        match self.auction_by_id(auction_id) {
            Some(a) => Some(
                (
                    a.min_bid,
                    match a.max_bid {
                        Some(m) => m,
                        None => 0,
                    },
                ),
            ),
            None => None,
        }
    }

    fn get_start_time(&self, auction_id: u64) -> Option<u64> {
        match self.auction_by_id(auction_id) {
            Some(a) => Some(a.start_time),
            None => None,
        }
    }

    fn get_deadline(&self, auction_id: u64) -> Option<u64> {
        match self.auction_by_id(auction_id) {
            Some(a) => Some(a.deadline),
            None => None,
        }
    }

    fn get_original_owner(&self, auction_id: u64) -> Option<Address> {
        match self.auction_by_id(auction_id) {
            Some(a) => Some(a.original_owner),
            None => None,
        }
    }

    fn get_current_winning_bid(&self, auction_id: u64) -> Option<u64> {
        match self.auction_by_id(auction_id) {
            Some(a) => Some(a.current_bid),
            None => None,
        }
    }

    fn get_current_winner(&self, auction_id: u64) -> Option<Address> {
        match self.auction_by_id(auction_id) {
            Some(a) => Some(a.current_winner),
            None => None,
        }
    }

    fn get_full_auction_data(&self, auction_id: u64) -> Option<Auction> {
        self.auction_by_id(auction_id)
    }
}

} // verus!
