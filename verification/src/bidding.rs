//! Bidding on auctions and buying from unit-by-unit sales.
//!
//! A bid refunds the outbid bidder and overwrites the record's bid and
//! winner; a purchase settles immediately, decrements the remaining
//! quantity and deletes the record on depletion.

use vstd::prelude::*;

use crate::auction::AuctionModule;
use crate::auction_model::Auction;
use crate::auction_model::AuctionType;
use crate::auction_model::NFT_AMOUNT;
use crate::storage::claim_headroom;
use crate::storage::claimable_of;
use crate::storage::record_of;
use crate::storage::same_config;
use crate::storage::StorageModule;
use crate::token_distribution::direct_seq;
use crate::token_distribution::end_distribution_effect;
use crate::token_distribution::payout;
use crate::token_distribution::transfer_contrib;
use crate::token_distribution::TokenDistributionModule;
use crate::types::Address;
use crate::types::EgldOrEsdtTokenIdentifier;
use crate::types::EsdtTokenData;
use crate::types::EsdtTokenPayment;
use crate::types::MarketplaceError;
use crate::types::Transfer;

verus! {

/// The checks shared by bidding and buying, in order: the id must name the
/// given asset, the seller may not bid, the auction must have started and
/// not ended, and the payment must be in the listed token.
pub open spec fn common_bid_error(
    a: Auction,
    nft_type: u64,
    nft_nonce: u64,
    payment_token: EgldOrEsdtTokenIdentifier,
    payment_nonce: u64,
    caller: Address,
    now: u64,
) -> Option<MarketplaceError> {
    if !(a.auctioned_tokens.token_identifier == nft_type && a.auctioned_tokens.token_nonce
        == nft_nonce) {
        Some(MarketplaceError::WrongAsset)
    } else if a.original_owner == caller {
        Some(MarketplaceError::BidRuleViolation)
    } else if now < a.start_time {
        Some(MarketplaceError::TimingViolation)
    } else if now >= a.deadline {
        Some(MarketplaceError::TimingViolation)
    } else if !(payment_token == a.payment_token && payment_nonce == a.payment_nonce) {
        Some(MarketplaceError::WrongAsset)
    } else {
        None
    }
}

/// Why a bid is rejected, or `None` when it is accepted; the checks apply
/// in this order. A bid must beat the current one, reach the minimum, stay
/// at or under the bound, not repeat the winner, and — once a bid stands
/// and a bound is set — improve by at least the minimum increment unless it
/// hits the bound.
pub open spec fn bid_error(
    rec: Option<Auction>,
    nft_type: u64,
    nft_nonce: u64,
    payment_token: EgldOrEsdtTokenIdentifier,
    payment_nonce: u64,
    payment_amount: u64,
    caller: Address,
    now: u64,
) -> Option<MarketplaceError> {
    match rec {
        None => Some(MarketplaceError::NotFound),
        Some(a) => {
            let common = common_bid_error(
                a,
                nft_type,
                nft_nonce,
                payment_token,
                payment_nonce,
                caller,
                now,
            );
            let above_max = match a.max_bid {
                Some(max) => payment_amount > max,
                None => false,
            };
            let below_max = match a.max_bid {
                Some(max) => payment_amount < max,
                None => false,
            };
            if common is Some {
                common
            } else if a.auction_type == AuctionType::SftOnePerPayment {
                Some(MarketplaceError::InvalidParameters)
            } else if a.current_winner == caller {
                Some(MarketplaceError::BidRuleViolation)
            } else if payment_amount < a.min_bid {
                Some(MarketplaceError::BidRuleViolation)
            } else if payment_amount <= a.current_bid {
                Some(MarketplaceError::BidRuleViolation)
            } else if above_max {
                Some(MarketplaceError::BidRuleViolation)
            } else if a.current_bid > 0 && below_max && payment_amount - a.current_bid
                < a.min_bid_diff {
                Some(MarketplaceError::BidRuleViolation)
            } else {
                None
            }
        },
    }
}

/// The record after an accepted bid: only the bid and the winner change.
pub open spec fn bid_updated_auction(a: Auction, caller: Address, payment_amount: u64) -> Auction {
    Auction { current_bid: payment_amount, current_winner: caller, ..a }
}

/// The refund owed to the standing winner when it is outbid: the full
/// current bid, in the auction's payment token.
pub open spec fn refund_payout(a: Auction) -> Transfer {
    payout(a.current_winner, a.payment_token, a.payment_nonce, a.current_bid as int)
}

/// How many units a buyer asks for: an absent argument means one.
pub open spec fn resolved_buy_amount(opt_sft_buy_amount: Option<u64>) -> u64 {
    match opt_sft_buy_amount {
        Some(amt) => amt,
        None => NFT_AMOUNT,
    }
}

/// Why a purchase from a unit-by-unit sale is rejected, or `None` when it
/// is accepted. The paid amount must equal units times unit price exactly.
pub open spec fn buy_sft_error(
    rec: Option<Auction>,
    nft_type: u64,
    nft_nonce: u64,
    payment_token: EgldOrEsdtTokenIdentifier,
    payment_nonce: u64,
    payment_amount: u64,
    opt_sft_buy_amount: Option<u64>,
    caller: Address,
    now: u64,
) -> Option<MarketplaceError> {
    match rec {
        None => Some(MarketplaceError::NotFound),
        Some(a) => {
            let common = common_bid_error(
                a,
                nft_type,
                nft_nonce,
                payment_token,
                payment_nonce,
                caller,
                now,
            );
            let buy_amount = resolved_buy_amount(opt_sft_buy_amount);
            if common is Some {
                common
            } else if buy_amount == 0 {
                Some(MarketplaceError::InvalidParameters)
            } else if a.auction_type != AuctionType::SftOnePerPayment {
                Some(MarketplaceError::InvalidParameters)
            } else if buy_amount > a.auctioned_tokens.amount {
                Some(MarketplaceError::InsufficientQuantity)
            } else if buy_amount * a.min_bid != payment_amount {
                Some(MarketplaceError::InsufficientQuantity)
            } else {
                None
            }
        },
    }
}

/// The record after an accepted purchase: the buyer stands as winner with
/// the paid amount as bid, and the bought units leave the remaining
/// quantity.
pub open spec fn bought_auction(
    a: Auction,
    caller: Address,
    payment_amount: u64,
    buy_amount: u64,
) -> Auction {
    Auction {
        current_winner: caller,
        current_bid: payment_amount,
        auctioned_tokens: EsdtTokenPayment {
            amount: (a.auctioned_tokens.amount - buy_amount) as u64,
            ..a.auctioned_tokens
        },
        ..a
    }
}

/// Across any two consecutively accepted bids on the same auction the bid
/// strictly increases, and the second bid's refund repays the first bidder
/// exactly its full bid in the auction's payment token.
pub proof fn lemma_bids_strictly_increase(
    a0: Auction,
    caller1: Address,
    p1: u64,
    now1: u64,
    caller2: Address,
    p2: u64,
    now2: u64,
)
    requires
        !caller1.is_zero_spec(),
        bid_error(
            Some(a0),
            a0.auctioned_tokens.token_identifier,
            a0.auctioned_tokens.token_nonce,
            a0.payment_token,
            a0.payment_nonce,
            p1,
            caller1,
            now1,
        ) is None,
        bid_error(
            Some(bid_updated_auction(a0, caller1, p1)),
            a0.auctioned_tokens.token_identifier,
            a0.auctioned_tokens.token_nonce,
            a0.payment_token,
            a0.payment_nonce,
            p2,
            caller2,
            now2,
        ) is None,
    ensures
        a0.current_bid < p1 < p2,
        !bid_updated_auction(a0, caller1, p1).current_winner.is_zero_spec(),
        refund_payout(bid_updated_auction(a0, caller1, p1)) == payout(
            caller1,
            a0.payment_token,
            a0.payment_nonce,
            p1 as int,
        ),
{
}

/// Bidding and unit-by-unit buying.
pub trait BiddingModule: AuctionModule {
    /// Places a bid of the attached payment on an auction. On success the
    /// outbid bidder, if any, is refunded its full bid (pushed directly or
    /// credited as claimable), and the record holds the new bid and winner.
    fn bid(
        &mut self,
        auction_id: u64,
        nft_type: u64,
        nft_nonce: u64,
        payment_token: EgldOrEsdtTokenIdentifier,
        payment_nonce: u64,
        payment_amount: u64,
        caller: Address,
        now: u64,
    ) -> (r: Result<Vec<Transfer>, MarketplaceError>)
        requires
            old(self).wf(),
            !caller.is_zero_spec(),
            claim_headroom(old(self).claim_entries()),
        ensures
            final(self).wf(),
            same_config(old(self), final(self)),
            final(self).offer_store() == old(self).offer_store(),
            r is Err <==> bid_error(
                record_of(old(self).auction_store(), auction_id),
                nft_type,
                nft_nonce,
                payment_token,
                payment_nonce,
                payment_amount,
                caller,
                now,
            ) is Some,
            r matches Err(e) ==> Some(e) == bid_error(
                record_of(old(self).auction_store(), auction_id),
                nft_type,
                nft_nonce,
                payment_token,
                payment_nonce,
                payment_amount,
                caller,
                now,
            ) && final(self).auction_store() == old(self).auction_store() && final(self).claim_entries() == old(self).claim_entries(),
            r matches Ok(transfers) ==> record_of(old(self).auction_store(), auction_id)
                matches Some(a) && final(self).auction_store() == old(self).auction_store().update(
                auction_id - 1,
                Some(bid_updated_auction(a, caller, payment_amount)),
            ) && (if !a.current_winner.is_zero_spec() {
                &&& transfers@ =~= direct_seq(refund_payout(a))
                &&& (forall|ad: Address, t: EgldOrEsdtTokenIdentifier, n: u64|
                    claimable_of(final(self).claim_entries(), ad, t, n) == claimable_of(
                        old(self).claim_entries(),
                        ad,
                        t,
                        n,
                    ) + transfer_contrib(refund_payout(a), ad, t, n))
            } else {
                &&& transfers@ =~= Seq::<Transfer>::empty()
                &&& final(self).claim_entries() == old(self).claim_entries()
            }),
    ;

    /// Buys units from a unit-by-unit sale, paying exactly units times the
    /// fixed unit price. Settlement happens immediately: the bid is split
    /// and the units delivered; the record loses the units and dies when
    /// none remain.
    fn buy_sft(
        &mut self,
        auction_id: u64,
        nft_type: u64,
        nft_nonce: u64,
        payment_token: EgldOrEsdtTokenIdentifier,
        payment_nonce: u64,
        payment_amount: u64,
        opt_sft_buy_amount: Option<u64>,
        caller: Address,
        now: u64,
        nft_info: EsdtTokenData,
    ) -> (r: Result<Vec<Transfer>, MarketplaceError>)
        requires
            old(self).wf(),
            !caller.is_zero_spec(),
            claim_headroom(old(self).claim_entries()),
        ensures
            final(self).wf(),
            same_config(old(self), final(self)),
            final(self).offer_store() == old(self).offer_store(),
            r is Err <==> buy_sft_error(
                record_of(old(self).auction_store(), auction_id),
                nft_type,
                nft_nonce,
                payment_token,
                payment_nonce,
                payment_amount,
                opt_sft_buy_amount,
                caller,
                now,
            ) is Some,
            r matches Err(e) ==> Some(e) == buy_sft_error(
                record_of(old(self).auction_store(), auction_id),
                nft_type,
                nft_nonce,
                payment_token,
                payment_nonce,
                payment_amount,
                opt_sft_buy_amount,
                caller,
                now,
            ) && final(self).auction_store() == old(self).auction_store() && final(self).claim_entries() == old(self).claim_entries(),
            r matches Ok(transfers) ==> record_of(old(self).auction_store(), auction_id)
                matches Some(a) && end_distribution_effect(
                bid_updated_auction(a, caller, payment_amount),
                Some(resolved_buy_amount(opt_sft_buy_amount)),
                nft_info,
                old(self).sc_owner(),
                old(self).claim_entries(),
                final(self).claim_entries(),
                Seq::<Transfer>::empty(),
                transfers@,
            ) && final(self).auction_store() == old(self).auction_store().update(
                auction_id - 1,
                if resolved_buy_amount(opt_sft_buy_amount) == a.auctioned_tokens.amount {
                    None
                } else {
                    Some(
                        bought_auction(
                            a,
                            caller,
                            payment_amount,
                            resolved_buy_amount(opt_sft_buy_amount),
                        ),
                    )
                },
            ),
    ;

    /// The shared validation of `bid` and `buy_sft`, with no effect on the
    /// state.
    fn common_bid_checks(
        &self,
        auction: &Auction,
        nft_type: u64,
        nft_nonce: u64,
        payment_token: EgldOrEsdtTokenIdentifier,
        payment_nonce: u64,
        caller: Address,
        now: u64,
    ) -> (r: Result<(), MarketplaceError>)
        ensures
            r is Err <==> common_bid_error(
                *auction,
                nft_type,
                nft_nonce,
                payment_token,
                payment_nonce,
                caller,
                now,
            ) is Some,
            r matches Err(e) ==> Some(e) == common_bid_error(
                *auction,
                nft_type,
                nft_nonce,
                payment_token,
                payment_nonce,
                caller,
                now,
            ),
    ;
}

impl BiddingModule for crate::storage::Marketplace {
    fn bid(
        &mut self,
        auction_id: u64,
        nft_type: u64,
        nft_nonce: u64,
        payment_token: EgldOrEsdtTokenIdentifier,
        payment_nonce: u64,
        payment_amount: u64,
        caller: Address,
        now: u64,
    ) -> Result<Vec<Transfer>, MarketplaceError> {
        let auction = match self.try_get_auction(auction_id) {
            Ok(a) => a,
            Err(e) => {
                return Err(e);
            },
        };
        match self.common_bid_checks(
            &auction,
            nft_type,
            nft_nonce,
            payment_token,
            payment_nonce,
            caller,
            now,
        ) {
            Ok(u) => u,
            Err(e) => {
                return Err(e);
            },
        };
        if auction.auction_type == AuctionType::SftOnePerPayment {
            return Err(MarketplaceError::InvalidParameters);
        }
        if auction.current_winner == caller {
            return Err(MarketplaceError::BidRuleViolation);
        }
        if payment_amount < auction.min_bid {
            return Err(MarketplaceError::BidRuleViolation);
        }
        if payment_amount <= auction.current_bid {
            return Err(MarketplaceError::BidRuleViolation);
        }
        match auction.max_bid {
            Some(max) => if payment_amount > max {
                return Err(MarketplaceError::BidRuleViolation);
            },
            None => {},
        }
        if auction.current_bid > 0 {
            match auction.max_bid {
                Some(max) => if payment_amount < max && payment_amount - auction.current_bid
                    < auction.min_bid_diff {
                    return Err(MarketplaceError::BidRuleViolation);
                },
                None => {},
            }
        }
        let mut out: Vec<Transfer> = Vec::new();
        if !auction.current_winner.is_zero() {
            proof {
                crate::token_distribution::lemma_claimable_headroom(
                    self.claim_entries(),
                    auction.current_winner,
                    auction.payment_token,
                    auction.payment_nonce,
                );
            }
            self.transfer_or_save_payment(
                auction.current_winner,
                auction.payment_token,
                auction.payment_nonce,
                auction.current_bid,
                &mut out,
            );
        }
        let ghost mid_claims = self.claim_entries();
        let mut updated = auction;
        updated.current_bid = payment_amount;
        updated.current_winner = caller;
        let n_slots = self.auctions.len();
        proof {
            assert(record_of(old(self).auction_store(), auction_id) == Some(auction));
            assert(auction_id <= n_slots as u64);
            assert(updated == bid_updated_auction(auction, caller, payment_amount));
            assert(updated.wf());
        }
        let slot: usize = (auction_id - 1) as usize;
        self.auctions[slot] = Some(updated);
        proof {
            assert(self.auction_store() =~= old(self).auction_store().update(
                auction_id - 1,
                Some(bid_updated_auction(auction, caller, payment_amount)),
            ));
            assert forall|i: int|
                0 <= i < self.auctions@.len() implies ((#[trigger] self.auctions@[i])
                matches Some(a) ==> a.wf()) by {
                if i != auction_id - 1 {
                    assert(self.auctions@[i] == old(self).auction_store()[i]);
                }
            }
            assert(self.claim_entries() == mid_claims);
            if !auction.current_winner.is_zero_spec() {
                assert(out@ =~= direct_seq(refund_payout(auction)));
                assert forall|ad: Address, t: EgldOrEsdtTokenIdentifier, n: u64|
                    claimable_of(self.claim_entries(), ad, t, n) == claimable_of(
                    old(self).claim_entries(),
                    ad,
                    t,
                    n,
                ) + transfer_contrib(refund_payout(auction), ad, t, n) by {
                    assert(claimable_of(mid_claims, ad, t, n) == claimable_of(
                        old(self).claim_entries(),
                        ad,
                        t,
                        n,
                    ) + transfer_contrib(
                        payout(
                            auction.current_winner,
                            auction.payment_token,
                            auction.payment_nonce,
                            auction.current_bid as int,
                        ),
                        ad,
                        t,
                        n,
                    ));
                }
            } else {
                assert(out@ =~= Seq::<Transfer>::empty());
            }
        }
        Ok(out)
    }

    fn buy_sft(
        &mut self,
        auction_id: u64,
        nft_type: u64,
        nft_nonce: u64,
        payment_token: EgldOrEsdtTokenIdentifier,
        payment_nonce: u64,
        payment_amount: u64,
        opt_sft_buy_amount: Option<u64>,
        caller: Address,
        now: u64,
        nft_info: EsdtTokenData,
    ) -> Result<Vec<Transfer>, MarketplaceError> {
        let auction = match self.try_get_auction(auction_id) {
            Ok(a) => a,
            Err(e) => {
                return Err(e);
            },
        };
        match self.common_bid_checks(
            &auction,
            nft_type,
            nft_nonce,
            payment_token,
            payment_nonce,
            caller,
            now,
        ) {
            Ok(u) => u,
            Err(e) => {
                return Err(e);
            },
        };
        let sft_buy_amount = match opt_sft_buy_amount {
            Some(amt) => amt,
            None => NFT_AMOUNT,
        };
        if sft_buy_amount == 0 {
            return Err(MarketplaceError::InvalidParameters);
        }
        if auction.auction_type != AuctionType::SftOnePerPayment {
            return Err(MarketplaceError::InvalidParameters);
        }
        if sft_buy_amount > auction.auctioned_tokens.amount {
            return Err(MarketplaceError::InsufficientQuantity);
        }
        proof {
            vstd::arithmetic::mul::lemma_mul_upper_bound(
                sft_buy_amount as int,
                u64::MAX as int,
                auction.min_bid as int,
                u64::MAX as int,
            );
        }
        let sft_total_value = (sft_buy_amount as u128) * (auction.min_bid as u128);
        if sft_total_value != payment_amount as u128 {
            return Err(MarketplaceError::InsufficientQuantity);
        }
        let mut updated = auction;
        updated.current_winner = caller;
        updated.current_bid = payment_amount;
        proof {
            vstd::arithmetic::mul::lemma_mul_strictly_positive(
                sft_buy_amount as int,
                auction.min_bid as int,
            );
            assert(updated == bid_updated_auction(auction, caller, payment_amount));
            assert(updated.wf());
        }
        let mut out: Vec<Transfer> = Vec::new();
        self.distribute_tokens_after_auction_end(&updated, Some(sft_buy_amount), nft_info,
            &mut out);
        let n_slots = self.auctions.len();
        proof {
            assert(record_of(old(self).auction_store(), auction_id) == Some(auction));
            assert(auction_id <= n_slots as u64);
        }
        let slot: usize = (auction_id - 1) as usize;
        let remaining = auction.auctioned_tokens.amount - sft_buy_amount;
        if remaining == 0 {
            self.auctions[slot] = None;
        } else {
            let stored = Auction {
                auctioned_tokens: EsdtTokenPayment {
                    amount: remaining,
                    ..updated.auctioned_tokens
                },
                ..updated
            };
            proof {
                assert(stored == bought_auction(auction, caller, payment_amount, sft_buy_amount));
                assert(stored.wf());
            }
            self.auctions[slot] = Some(stored);
        }
        proof {
            assert(self.auction_store() =~= old(self).auction_store().update(
                auction_id - 1,
                if resolved_buy_amount(opt_sft_buy_amount) == auction.auctioned_tokens.amount {
                    None
                } else {
                    Some(
                        bought_auction(
                            auction,
                            caller,
                            payment_amount,
                            resolved_buy_amount(opt_sft_buy_amount),
                        ),
                    )
                },
            ));
            assert forall|i: int|
                0 <= i < self.auctions@.len() implies ((#[trigger] self.auctions@[i])
                matches Some(a) ==> a.wf()) by {
                if i != auction_id - 1 {
                    assert(self.auctions@[i] == old(self).auction_store()[i]);
                }
            }
        }
        Ok(out)
    }

    fn common_bid_checks(
        &self,
        auction: &Auction,
        nft_type: u64,
        nft_nonce: u64,
        payment_token: EgldOrEsdtTokenIdentifier,
        payment_nonce: u64,
        caller: Address,
        now: u64,
    ) -> Result<(), MarketplaceError> {
        if !(auction.auctioned_tokens.token_identifier == nft_type
            && auction.auctioned_tokens.token_nonce == nft_nonce) {
            return Err(MarketplaceError::WrongAsset);
        }
        if auction.original_owner == caller {
            return Err(MarketplaceError::BidRuleViolation);
        }
        if now < auction.start_time {
            return Err(MarketplaceError::TimingViolation);
        }
        if now >= auction.deadline {
            return Err(MarketplaceError::TimingViolation);
        }
        if !(payment_token == auction.payment_token && payment_nonce == auction.payment_nonce) {
            return Err(MarketplaceError::WrongAsset);
        }
        Ok(())
    }
}

} // verus!
