//! The auction record and its well-formedness rules.

use vstd::prelude::*;

use crate::types::Address;
use crate::types::EgldOrEsdtTokenIdentifier;
use crate::types::EsdtTokenPayment;

verus! {

/// 100% in basis points.
pub const PERCENTAGE_TOTAL: u64 = 10_000;

/// The quantity at and below which an auctioned token is a unique NFT.
pub const NFT_AMOUNT: u64 = 1;

/// How a listing sells its asset.
#[derive(Clone, Copy, PartialEq, Eq, Structural, Debug)]
pub enum AuctionType {
    /// Placeholder reported by queries for ids with no live record.
    Unlisted,
    /// A single unique token, sold to the highest bidder.
    Nft,
    /// A quantity of a semi-fungible token, sold all at once to the highest
    /// bidder.
    SftAll,
    /// A quantity of a semi-fungible token, sold unit by unit at a fixed
    /// price; each purchase settles immediately.
    SftOnePerPayment,
}

/// One live listing. Percentages are snapshotted at creation time and are
/// immune to later configuration changes.
#[derive(Clone, Copy, PartialEq, Eq, Structural, Debug)]
pub struct Auction {
    pub auctioned_tokens: EsdtTokenPayment,
    pub auction_type: AuctionType,

    pub payment_token: EgldOrEsdtTokenIdentifier,
    pub payment_nonce: u64,
    pub min_bid: u64,
    pub max_bid: Option<u64>,
    pub min_bid_diff: u64,
    pub start_time: u64,
    pub deadline: u64,

    pub original_owner: Address,
    pub current_bid: u64,
    pub current_winner: Address,
    pub marketplace_cut_percentage: u64,
    pub creator_royalties_percentage: u64,
}

impl Auction {
    /// The invariant of every stored auction record: positive prices and
    /// quantities, ordered bounds and times, percentages that leave the
    /// seller a share, a fixed price for unit-by-unit sales, and a current
    /// bid that is within bounds and present exactly when a winner is.
    pub open spec fn wf(self) -> bool {
        &&& self.auction_type != AuctionType::Unlisted
        &&& self.auctioned_tokens.token_nonce > 0
        &&& self.auctioned_tokens.amount > 0
        &&& (self.auction_type == AuctionType::Nft ==> self.auctioned_tokens.amount
            == NFT_AMOUNT)
        &&& self.min_bid > 0
        &&& (self.max_bid matches Some(m) ==> self.min_bid <= m)
        &&& (self.auction_type == AuctionType::SftOnePerPayment ==> self.max_bid == Some(
            self.min_bid,
        ))
        &&& self.start_time < self.deadline
        &&& self.marketplace_cut_percentage + self.creator_royalties_percentage
            < PERCENTAGE_TOTAL
        &&& (self.payment_token.is_egld_spec() ==> self.payment_nonce == 0)
        &&& !self.original_owner.is_zero_spec()
        &&& (self.current_winner.is_zero_spec() <==> self.current_bid == 0)
        &&& (self.auction_type != AuctionType::SftOnePerPayment && self.current_bid > 0 ==> {
            &&& self.current_bid >= self.min_bid
            &&& (self.max_bid matches Some(m) ==> self.current_bid <= m)
            &&& self.current_winner != self.original_owner
        })
    }
}

} // verus!
