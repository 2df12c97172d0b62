//! Event payloads. The host chain is what actually writes a log entry;
//! this module only assembles, from a record, the exact payload each
//! operation reports, so that what is logged is pinned down like any other
//! result.

use vstd::prelude::*;

use crate::auction_model::Auction;
use crate::auction_model::AuctionType;
use crate::offer_model::Offer;
use crate::storage::StorageModule;
use crate::types::Address;
use crate::types::EgldOrEsdtTokenIdentifier;

verus! {

/// The payload of a new listing's log entry.
#[derive(Clone, Copy, PartialEq, Eq, Structural, Debug)]
pub struct AuctionTokenEvent {
    pub auction_token_id: u64,
    pub auctioned_token_nonce: u64,
    pub auction_id: u64,
    pub auctioned_token_amount: u64,
    pub seller: Address,
    pub min_bid: u64,
    pub max_bid: u64,
    pub start_time: u64,
    pub deadline: u64,
    pub accepted_payment_token: EgldOrEsdtTokenIdentifier,
    pub accepted_payment_token_nonce: u64,
    pub auction_type: AuctionType,
    pub creator_royalties_percentage: u64,
}

/// The payload of a bid's, an auction end's or a unit purchase's log
/// entry: the asset, the account and the amount concerned.
#[derive(Clone, Copy, PartialEq, Eq, Structural, Debug)]
pub struct AuctionActivityEvent {
    pub auction_token_id: u64,
    pub auctioned_token_nonce: u64,
    pub auction_id: u64,
    pub token_amount: u64,
    pub account: Address,
    pub bid_amount: u64,
}

/// The payload of a withdrawal's log entry.
#[derive(Clone, Copy, PartialEq, Eq, Structural, Debug)]
pub struct WithdrawEvent {
    pub auction_token_id: u64,
    pub auctioned_token_nonce: u64,
    pub auction_id: u64,
    pub nr_auctioned_tokens: u64,
    pub seller: Address,
}

/// The payload of an offer's creation, withdrawal or acceptance log entry.
#[derive(Clone, Copy, PartialEq, Eq, Structural, Debug)]
pub struct OfferTokenEvent {
    pub offer_id: u64,
    pub offer_token_id: u64,
    pub offer_token_nonce: u64,
    pub offer_amount: u64,
    pub payment_token_type: EgldOrEsdtTokenIdentifier,
    pub payment_token_nonce: u64,
    pub payment_amount: u64,
    pub buyer: Address,
    pub seller: Address,
    pub start_time: u64,
    pub deadline: u64,
}

/// The offer event payload shared by creation, withdrawal and acceptance;
/// `seller` is the zero address except on acceptance.
pub open spec fn offer_event_of(offer_id: u64, offer: Offer, seller: Address) -> OfferTokenEvent {
    OfferTokenEvent {
        offer_id,
        offer_token_id: offer.offer_token.token_identifier,
        offer_token_nonce: offer.offer_token.token_nonce,
        offer_amount: offer.offer_token.amount,
        payment_token_type: offer.payment.token_identifier,
        payment_token_nonce: offer.payment.token_nonce,
        payment_amount: offer.payment.amount,
        buyer: offer.offer_owner,
        seller,
        start_time: offer.start_time,
        deadline: offer.deadline,
    }
}

/// Builders for the log payload of each operation.
pub trait EventsModule: StorageModule {
    /// The log payload of a new listing.
    fn emit_auction_token_event(&self, auction_id: u64, auction: Auction) -> (r: AuctionTokenEvent)
        ensures
            r == (AuctionTokenEvent {
                auction_token_id: auction.auctioned_tokens.token_identifier,
                auctioned_token_nonce: auction.auctioned_tokens.token_nonce,
                auction_id,
                auctioned_token_amount: auction.auctioned_tokens.amount,
                seller: auction.original_owner,
                min_bid: auction.min_bid,
                max_bid: (match auction.max_bid {
                    Some(m) => m,
                    None => 0u64,
                }),
                start_time: auction.start_time,
                deadline: auction.deadline,
                accepted_payment_token: auction.payment_token,
                accepted_payment_token_nonce: auction.payment_nonce,
                auction_type: auction.auction_type,
                creator_royalties_percentage: auction.creator_royalties_percentage,
            }),
    ;

    /// The log payload of an accepted bid: the standing winner and bid.
    fn emit_bid_event(&self, auction_id: u64, auction: Auction) -> (r: AuctionActivityEvent)
        ensures
            r == (AuctionActivityEvent {
                auction_token_id: auction.auctioned_tokens.token_identifier,
                auctioned_token_nonce: auction.auctioned_tokens.token_nonce,
                auction_id,
                token_amount: auction.auctioned_tokens.amount,
                account: auction.current_winner,
                bid_amount: auction.current_bid,
            }),
    ;

    /// The log payload of an ended auction: the winner and winning bid.
    fn emit_end_auction_event(&self, auction_id: u64, auction: Auction) -> (r:
        AuctionActivityEvent)
        ensures
            r == (AuctionActivityEvent {
                auction_token_id: auction.auctioned_tokens.token_identifier,
                auctioned_token_nonce: auction.auctioned_tokens.token_nonce,
                auction_id,
                token_amount: auction.auctioned_tokens.amount,
                account: auction.current_winner,
                bid_amount: auction.current_bid,
            }),
    ;

    /// The log payload of a unit purchase: the buyer, the bought quantity
    /// and the fixed unit price.
    fn emit_buy_sft_event(&self, auction_id: u64, auction: Auction, nr_bought_tokens: u64) -> (r:
        AuctionActivityEvent)
        ensures
            r == (AuctionActivityEvent {
                auction_token_id: auction.auctioned_tokens.token_identifier,
                auctioned_token_nonce: auction.auctioned_tokens.token_nonce,
                auction_id,
                token_amount: nr_bought_tokens,
                account: auction.current_winner,
                bid_amount: auction.min_bid,
            }),
    ;

    /// The log payload of a withdrawal.
    fn emit_withdraw_event(&self, auction_id: u64, auction: Auction) -> (r: WithdrawEvent)
        ensures
            r == (WithdrawEvent {
                auction_token_id: auction.auctioned_tokens.token_identifier,
                auctioned_token_nonce: auction.auctioned_tokens.token_nonce,
                auction_id,
                nr_auctioned_tokens: auction.auctioned_tokens.amount,
                seller: auction.original_owner,
            }),
    ;

    /// The log payload of a created offer.
    fn emit_offer_token_event(&self, offer_id: u64, offer: Offer) -> (r: OfferTokenEvent)
        ensures
            r == offer_event_of(offer_id, offer, Address::zero_spec()),
    ;

    /// The log payload of a withdrawn offer.
    fn emit_withdraw_offer_event(&self, offer_id: u64, offer: Offer) -> (r: OfferTokenEvent)
        ensures
            r == offer_event_of(offer_id, offer, Address::zero_spec()),
    ;

    /// The log payload of an accepted offer, naming the accepting seller.
    fn emit_accept_offer_event(&self, offer_id: u64, offer: Offer, seller: Address) -> (r:
        OfferTokenEvent)
        ensures
            r == offer_event_of(offer_id, offer, seller),
    ;
}

impl EventsModule for crate::storage::Marketplace {
    fn emit_auction_token_event(&self, auction_id: u64, auction: Auction) -> AuctionTokenEvent {
        AuctionTokenEvent {
            auction_token_id: auction.auctioned_tokens.token_identifier,
            auctioned_token_nonce: auction.auctioned_tokens.token_nonce,
            auction_id,
            auctioned_token_amount: auction.auctioned_tokens.amount,
            seller: auction.original_owner,
            min_bid: auction.min_bid,
            max_bid: match auction.max_bid {
                Some(m) => m,
                None => 0,
            },
            start_time: auction.start_time,
            deadline: auction.deadline,
            accepted_payment_token: auction.payment_token,
            accepted_payment_token_nonce: auction.payment_nonce,
            auction_type: auction.auction_type,
            creator_royalties_percentage: auction.creator_royalties_percentage,
        }
    }

    fn emit_bid_event(&self, auction_id: u64, auction: Auction) -> AuctionActivityEvent {
        AuctionActivityEvent {
            auction_token_id: auction.auctioned_tokens.token_identifier,
            auctioned_token_nonce: auction.auctioned_tokens.token_nonce,
            auction_id,
            token_amount: auction.auctioned_tokens.amount,
            account: auction.current_winner,
            bid_amount: auction.current_bid,
        }
    }

    fn emit_end_auction_event(&self, auction_id: u64, auction: Auction) -> AuctionActivityEvent {
        AuctionActivityEvent {
            auction_token_id: auction.auctioned_tokens.token_identifier,
            auctioned_token_nonce: auction.auctioned_tokens.token_nonce,
            auction_id,
            token_amount: auction.auctioned_tokens.amount,
            account: auction.current_winner,
            bid_amount: auction.current_bid,
        }
    }

    fn emit_buy_sft_event(
        &self,
        auction_id: u64,
        auction: Auction,
        nr_bought_tokens: u64,
    ) -> AuctionActivityEvent {
        AuctionActivityEvent {
            auction_token_id: auction.auctioned_tokens.token_identifier,
            auctioned_token_nonce: auction.auctioned_tokens.token_nonce,
            auction_id,
            token_amount: nr_bought_tokens,
            account: auction.current_winner,
            bid_amount: auction.min_bid,
        }
    }

    fn emit_withdraw_event(&self, auction_id: u64, auction: Auction) -> WithdrawEvent {
        WithdrawEvent {
            auction_token_id: auction.auctioned_tokens.token_identifier,
            auctioned_token_nonce: auction.auctioned_tokens.token_nonce,
            auction_id,
            nr_auctioned_tokens: auction.auctioned_tokens.amount,
            seller: auction.original_owner,
        }
    }

    fn emit_offer_token_event(&self, offer_id: u64, offer: Offer) -> OfferTokenEvent {
        OfferTokenEvent {
            offer_id,
            offer_token_id: offer.offer_token.token_identifier,
            offer_token_nonce: offer.offer_token.token_nonce,
            offer_amount: offer.offer_token.amount,
            payment_token_type: offer.payment.token_identifier,
            payment_token_nonce: offer.payment.token_nonce,
            payment_amount: offer.payment.amount,
            buyer: offer.offer_owner,
            seller: Address::zero(),
            start_time: offer.start_time,
            deadline: offer.deadline,
        }
    }

    fn emit_withdraw_offer_event(&self, offer_id: u64, offer: Offer) -> OfferTokenEvent {
        OfferTokenEvent {
            offer_id,
            offer_token_id: offer.offer_token.token_identifier,
            offer_token_nonce: offer.offer_token.token_nonce,
            offer_amount: offer.offer_token.amount,
            payment_token_type: offer.payment.token_identifier,
            payment_token_nonce: offer.payment.token_nonce,
            payment_amount: offer.payment.amount,
            buyer: offer.offer_owner,
            seller: Address::zero(),
            start_time: offer.start_time,
            deadline: offer.deadline,
        }
    }

    fn emit_accept_offer_event(
        &self,
        offer_id: u64,
        offer: Offer,
        seller: Address,
    ) -> OfferTokenEvent {
        OfferTokenEvent {
            offer_id,
            offer_token_id: offer.offer_token.token_identifier,
            offer_token_nonce: offer.offer_token.token_nonce,
            offer_amount: offer.offer_token.amount,
            payment_token_type: offer.payment.token_identifier,
            payment_token_nonce: offer.payment.token_nonce,
            payment_amount: offer.payment.amount,
            buyer: offer.offer_owner,
            seller,
            start_time: offer.start_time,
            deadline: offer.deadline,
        }
    }
}

} // verus!
