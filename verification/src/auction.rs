//! The auction registry: creating a listing, ending it, and withdrawing it.
//!
//! Every operation takes the facts the host alone knows — the caller, the
//! current time, the attached asset and the token metadata — as arguments,
//! validates before any mutation, and returns either the direct transfers
//! the host must perform or the error kind, leaving the state untouched on
//! rejection.

use vstd::prelude::*;

use crate::auction_model::Auction;
use crate::auction_model::AuctionType;
use crate::auction_model::NFT_AMOUNT;
use crate::auction_model::PERCENTAGE_TOTAL;
use crate::storage::claim_headroom;
use crate::storage::claimable_of;
use crate::storage::record_of;
use crate::storage::same_config;
use crate::storage::StorageModule;
use crate::token_distribution::asset_payout;
use crate::token_distribution::direct_seq;
use crate::token_distribution::end_distribution_effect;
use crate::token_distribution::transfer_contrib;
use crate::token_distribution::TokenDistributionModule;
use crate::types::Address;
use crate::types::EgldOrEsdtTokenIdentifier;
use crate::types::EsdtTokenData;
use crate::types::EsdtTokenPayment;
use crate::types::MarketplaceError;
use crate::types::Transfer;

verus! {

/// The start time a listing gets: an absent or zero argument means "now".
pub open spec fn resolved_start_time(opt_start_time: Option<u64>, now: u64) -> u64 {
    match opt_start_time {
        Some(st) => if st == 0 {
            now
        } else {
            st
        },
        None => now,
    }
}

/// An absent flag means an ordinary (not unit-by-unit) sale.
pub open spec fn resolved_sft_max_one(opt_sft_max_one_per_payment: Option<bool>) -> bool {
    match opt_sft_max_one_per_payment {
        Some(b) => b,
        None => false,
    }
}

/// The payment nonce a listing gets: the native currency always sits at
/// nonce 0; for a token an absent argument means 0.
pub open spec fn resolved_payment_nonce(
    accepted_payment_token: EgldOrEsdtTokenIdentifier,
    opt_accepted_payment_token_nonce: Option<u64>,
) -> u64 {
    if accepted_payment_token.is_egld_spec() {
        0
    } else {
        match opt_accepted_payment_token_nonce {
            Some(n) => n,
            None => 0,
        }
    }
}

/// A quantity of one is a unique NFT; more units sell all at once or unit
/// by unit as the flag asks.
pub open spec fn listed_auction_type(nft_amount: u64, sft_max_one: bool) -> AuctionType {
    if nft_amount > NFT_AMOUNT {
        if sft_max_one {
            AuctionType::SftOnePerPayment
        } else {
            AuctionType::SftAll
        }
    } else {
        AuctionType::Nft
    }
}

/// Why a listing request is rejected, or `None` when it is accepted; the
/// checks apply in this order. `start_time` is the resolved start time and
/// `cut`/`royalties` the percentages snapshotted into the record.
pub open spec fn list_error(
    nft_nonce: u64,
    nft_amount: u64,
    min_bid: u64,
    max_bid: u64,
    deadline: u64,
    sft_max_one: bool,
    now: u64,
    start_time: u64,
    cut: u64,
    royalties: u64,
) -> Option<MarketplaceError> {
    if sft_max_one && min_bid != max_bid {
        Some(MarketplaceError::InvalidParameters)
    } else if max_bid > 0 && min_bid > max_bid {
        Some(MarketplaceError::InvalidParameters)
    } else if min_bid == 0 {
        Some(MarketplaceError::InvalidParameters)
    } else if nft_amount == 0 {
        Some(MarketplaceError::InvalidParameters)
    } else if nft_nonce == 0 {
        Some(MarketplaceError::InvalidParameters)
    } else if deadline <= now {
        Some(MarketplaceError::TimingViolation)
    } else if !(start_time >= now && start_time < deadline) {
        Some(MarketplaceError::InvalidParameters)
    } else if cut + royalties >= PERCENTAGE_TOTAL {
        Some(MarketplaceError::RoyaltyOverflow)
    } else {
        None
    }
}

/// The record an accepted listing stores: the asset and resolved terms, the
/// caller as seller, no bid yet, and the percentages snapshotted now.
pub open spec fn listed_auction(
    nft_type: u64,
    nft_nonce: u64,
    nft_amount: u64,
    min_bid: u64,
    max_bid: u64,
    deadline: u64,
    accepted_payment_token: EgldOrEsdtTokenIdentifier,
    opt_min_bid_diff: Option<u64>,
    opt_sft_max_one_per_payment: Option<bool>,
    opt_accepted_payment_token_nonce: Option<u64>,
    opt_start_time: Option<u64>,
    caller: Address,
    now: u64,
    cut: u64,
    royalties: u64,
) -> Auction {
    Auction {
        auctioned_tokens: EsdtTokenPayment {
            token_identifier: nft_type,
            token_nonce: nft_nonce,
            amount: nft_amount,
        },
        auction_type: listed_auction_type(
            nft_amount,
            resolved_sft_max_one(opt_sft_max_one_per_payment),
        ),
        payment_token: accepted_payment_token,
        payment_nonce: resolved_payment_nonce(
            accepted_payment_token,
            opt_accepted_payment_token_nonce,
        ),
        min_bid,
        max_bid: if max_bid > 0 {
            Some(max_bid)
        } else {
            None
        },
        min_bid_diff: (match opt_min_bid_diff {
            Some(d) => d,
            None => 0,
        }),
        start_time: resolved_start_time(opt_start_time, now),
        deadline,
        original_owner: caller,
        current_bid: 0,
        current_winner: Address::zero_spec(),
        marketplace_cut_percentage: cut,
        creator_royalties_percentage: royalties,
    }
}

/// An accepted listing stores a well-formed record; in particular the
/// snapshotted marketplace cut and creator royalties leave the seller a
/// share. Together with `list_error`'s last check this is the royalty
/// guard: a listing is stored only with `cut + royalties < 10000`, and one
/// that fails only that check is rejected with `RoyaltyOverflow` (see
/// `lemma_royalty_overflow_rejection`).
pub proof fn lemma_listed_auction_wf(
    nft_type: u64,
    nft_nonce: u64,
    nft_amount: u64,
    min_bid: u64,
    max_bid: u64,
    deadline: u64,
    accepted_payment_token: EgldOrEsdtTokenIdentifier,
    opt_min_bid_diff: Option<u64>,
    opt_sft_max_one_per_payment: Option<bool>,
    opt_accepted_payment_token_nonce: Option<u64>,
    opt_start_time: Option<u64>,
    caller: Address,
    now: u64,
    cut: u64,
    royalties: u64,
)
    requires
        !caller.is_zero_spec(),
        list_error(
            nft_nonce,
            nft_amount,
            min_bid,
            max_bid,
            deadline,
            resolved_sft_max_one(opt_sft_max_one_per_payment),
            now,
            resolved_start_time(opt_start_time, now),
            cut,
            royalties,
        ) is None,
    ensures
        listed_auction(
            nft_type,
            nft_nonce,
            nft_amount,
            min_bid,
            max_bid,
            deadline,
            accepted_payment_token,
            opt_min_bid_diff,
            opt_sft_max_one_per_payment,
            opt_accepted_payment_token_nonce,
            opt_start_time,
            caller,
            now,
            cut,
            royalties,
        ).wf(),
        listed_auction(
            nft_type,
            nft_nonce,
            nft_amount,
            min_bid,
            max_bid,
            deadline,
            accepted_payment_token,
            opt_min_bid_diff,
            opt_sft_max_one_per_payment,
            opt_accepted_payment_token_nonce,
            opt_start_time,
            caller,
            now,
            cut,
            royalties,
        ).marketplace_cut_percentage + listed_auction(
            nft_type,
            nft_nonce,
            nft_amount,
            min_bid,
            max_bid,
            deadline,
            accepted_payment_token,
            opt_min_bid_diff,
            opt_sft_max_one_per_payment,
            opt_accepted_payment_token_nonce,
            opt_start_time,
            caller,
            now,
            cut,
            royalties,
        ).creator_royalties_percentage < PERCENTAGE_TOTAL,
{
}

/// A listing request that passes every check except the percentage guard —
/// witnessed by the same request being accepted with zero percentages — is
/// rejected with exactly `RoyaltyOverflow`.
pub proof fn lemma_royalty_overflow_rejection(
    nft_nonce: u64,
    nft_amount: u64,
    min_bid: u64,
    max_bid: u64,
    deadline: u64,
    sft_max_one: bool,
    now: u64,
    start_time: u64,
    cut: u64,
    royalties: u64,
)
    requires
        list_error(
            nft_nonce,
            nft_amount,
            min_bid,
            max_bid,
            deadline,
            sft_max_one,
            now,
            start_time,
            0,
            0,
        ) is None,
        cut + royalties >= PERCENTAGE_TOTAL,
    ensures
        list_error(
            nft_nonce,
            nft_amount,
            min_bid,
            max_bid,
            deadline,
            sft_max_one,
            now,
            start_time,
            cut,
            royalties,
        ) == Some(MarketplaceError::RoyaltyOverflow),
{
}

/// Why ending an auction is rejected: an unknown id, neither the deadline
/// passed nor the maximum bid reached, or a unit-by-unit sale (which has no
/// end event; it dies by depletion).
pub open spec fn end_auction_error(rec: Option<Auction>, now: u64) -> Option<MarketplaceError> {
    match rec {
        None => Some(MarketplaceError::NotFound),
        Some(a) => {
            let max_bid_reached = match a.max_bid {
                Some(max) => a.current_bid == max,
                None => false,
            };
            if !(now > a.deadline || max_bid_reached) {
                Some(MarketplaceError::TimingViolation)
            } else if a.auction_type == AuctionType::SftOnePerPayment {
                Some(MarketplaceError::InvalidParameters)
            } else {
                None
            }
        },
    }
}

/// Why withdrawing an auction is rejected: an unknown id, a caller other
/// than the seller, or a live bid (funds at risk) on anything but a
/// unit-by-unit sale, which settles incrementally and pools no bid.
pub open spec fn withdraw_error(
    rec: Option<Auction>,
    caller: Address,
) -> Option<MarketplaceError> {
    match rec {
        None => Some(MarketplaceError::NotFound),
        Some(a) => {
            if a.original_owner != caller {
                Some(MarketplaceError::NotAuthorized)
            } else if !(a.current_bid == 0 || a.auction_type == AuctionType::SftOnePerPayment) {
                Some(MarketplaceError::AuctionHasBids)
            } else {
                None
            }
        },
    }
}

/// The auction registry: listing, ending and withdrawing. Ids are one
/// global counter starting at 1, never reused.
pub trait AuctionModule: TokenDistributionModule {
    /// Lists the attached asset (`nft_type`, `nft_nonce`, `nft_amount`) for
    /// auction under the given terms and returns the new id. The caller
    /// becomes the seller; the current marketplace cut and the asset's
    /// royalty percentage are snapshotted into the record. Rejected with
    /// `InvalidParameters` on a broken invariant, `TimingViolation` on a
    /// deadline not in the future, and `RoyaltyOverflow` when cut plus
    /// royalties would reach 100%.
    fn auction_token(
        &mut self,
        nft_type: u64,
        nft_nonce: u64,
        nft_amount: u64,
        min_bid: u64,
        max_bid: u64,
        deadline: u64,
        accepted_payment_token: EgldOrEsdtTokenIdentifier,
        opt_min_bid_diff: Option<u64>,
        opt_sft_max_one_per_payment: Option<bool>,
        opt_accepted_payment_token_nonce: Option<u64>,
        opt_start_time: Option<u64>,
        caller: Address,
        now: u64,
        nft_info: EsdtTokenData,
    ) -> (r: Result<u64, MarketplaceError>)
        requires
            old(self).wf(),
            !caller.is_zero_spec(),
            old(self).auction_store().len() < u64::MAX,
        ensures
            final(self).wf(),
            same_config(old(self), final(self)),
            final(self).offer_store() == old(self).offer_store(),
            final(self).claim_entries() == old(self).claim_entries(),
            r is Err <==> list_error(
                nft_nonce,
                nft_amount,
                min_bid,
                max_bid,
                deadline,
                resolved_sft_max_one(opt_sft_max_one_per_payment),
                now,
                resolved_start_time(opt_start_time, now),
                old(self).cut(),
                nft_info.royalties,
            ) is Some,
            r matches Err(e) ==> Some(e) == list_error(
                nft_nonce,
                nft_amount,
                min_bid,
                max_bid,
                deadline,
                resolved_sft_max_one(opt_sft_max_one_per_payment),
                now,
                resolved_start_time(opt_start_time, now),
                old(self).cut(),
                nft_info.royalties,
            ) && final(self).auction_store() == old(self).auction_store(),
            r matches Ok(id) ==> id == old(self).auction_store().len() + 1 && final(self).auction_store() == old(self).auction_store().push(
                Some(
                    listed_auction(
                        nft_type,
                        nft_nonce,
                        nft_amount,
                        min_bid,
                        max_bid,
                        deadline,
                        accepted_payment_token,
                        opt_min_bid_diff,
                        opt_sft_max_one_per_payment,
                        opt_accepted_payment_token_nonce,
                        opt_start_time,
                        caller,
                        now,
                        old(self).cut(),
                        nft_info.royalties,
                    ),
                ),
            ),
    ;

    /// Ends an auction: legal once the deadline has passed or the bid sits
    /// at the bound. With a winner the bid is split and the asset
    /// delivered; with none the asset returns to the seller. The record is
    /// deleted either way; the returned transfers are what the host must
    /// push.
    fn end_auction(&mut self, auction_id: u64, now: u64, nft_info: EsdtTokenData) -> (r: Result<
        Vec<Transfer>,
        MarketplaceError,
    >)
        requires
            old(self).wf(),
            claim_headroom(old(self).claim_entries()),
        ensures
            final(self).wf(),
            same_config(old(self), final(self)),
            final(self).offer_store() == old(self).offer_store(),
            r is Err <==> end_auction_error(record_of(old(self).auction_store(), auction_id), now)
                is Some,
            r matches Err(e) ==> Some(e) == end_auction_error(
                record_of(old(self).auction_store(), auction_id),
                now,
            ) && final(self).auction_store() == old(self).auction_store() && final(self).claim_entries() == old(self).claim_entries(),
            r matches Ok(transfers) ==> record_of(old(self).auction_store(), auction_id)
                matches Some(a) && final(self).auction_store() == old(self).auction_store().update(auction_id - 1, None::<Auction>) && end_distribution_effect(
                a,
                None,
                nft_info,
                old(self).sc_owner(),
                old(self).claim_entries(),
                final(self).claim_entries(),
                Seq::<Transfer>::empty(),
                transfers@,
            ),
    ;

    /// Withdraws a listing: only the seller may, and only while no bid is
    /// at risk (a unit-by-unit sale may always be withdrawn). The record is
    /// deleted and the unsold asset goes back to the seller.
    fn withdraw(&mut self, auction_id: u64, caller: Address) -> (r: Result<
        Vec<Transfer>,
        MarketplaceError,
    >)
        requires
            old(self).wf(),
            claim_headroom(old(self).claim_entries()),
        ensures
            final(self).wf(),
            same_config(old(self), final(self)),
            final(self).offer_store() == old(self).offer_store(),
            r is Err <==> withdraw_error(record_of(old(self).auction_store(), auction_id), caller)
                is Some,
            r matches Err(e) ==> Some(e) == withdraw_error(
                record_of(old(self).auction_store(), auction_id),
                caller,
            ) && final(self).auction_store() == old(self).auction_store() && final(self).claim_entries() == old(self).claim_entries(),
            r matches Ok(transfers) ==> record_of(old(self).auction_store(), auction_id)
                matches Some(a) && final(self).auction_store() == old(self).auction_store().update(auction_id - 1, None::<Auction>) && transfers@ =~= direct_seq(
                asset_payout(a, caller, a.auctioned_tokens.amount as int),
            ) && (forall|ad: Address, t: EgldOrEsdtTokenIdentifier, n: u64|
                claimable_of(final(self).claim_entries(), ad, t, n) == claimable_of(
                    old(self).claim_entries(),
                    ad,
                    t,
                    n,
                ) + transfer_contrib(
                    asset_payout(a, caller, a.auctioned_tokens.amount as int),
                    ad,
                    t,
                    n,
                )),
    ;

    /// The record of a live auction id, or `NotFound`.
    fn try_get_auction(&self, auction_id: u64) -> (r: Result<Auction, MarketplaceError>)
        ensures
            r matches Ok(a) ==> record_of(self.auction_store(), auction_id) == Some(a),
            r is Err <==> record_of(self.auction_store(), auction_id) is None,
            r matches Err(e) ==> e == MarketplaceError::NotFound,
    ;
}

impl AuctionModule for crate::storage::Marketplace {
    fn auction_token(
        &mut self,
        nft_type: u64,
        nft_nonce: u64,
        nft_amount: u64,
        min_bid: u64,
        max_bid: u64,
        deadline: u64,
        accepted_payment_token: EgldOrEsdtTokenIdentifier,
        opt_min_bid_diff: Option<u64>,
        opt_sft_max_one_per_payment: Option<bool>,
        opt_accepted_payment_token_nonce: Option<u64>,
        opt_start_time: Option<u64>,
        caller: Address,
        now: u64,
        nft_info: EsdtTokenData,
    ) -> Result<u64, MarketplaceError> {
        let start_time = match opt_start_time {
            Some(st) => if st == 0 {
                now
            } else {
                st
            },
            None => now,
        };
        let sft_max_one = match opt_sft_max_one_per_payment {
            Some(b) => b,
            None => false,
        };
        if sft_max_one && min_bid != max_bid {
            return Err(MarketplaceError::InvalidParameters);
        }
        if max_bid > 0 && min_bid > max_bid {
            return Err(MarketplaceError::InvalidParameters);
        }
        if min_bid == 0 {
            return Err(MarketplaceError::InvalidParameters);
        }
        if nft_amount == 0 {
            return Err(MarketplaceError::InvalidParameters);
        }
        if nft_nonce == 0 {
            return Err(MarketplaceError::InvalidParameters);
        }
        if deadline <= now {
            return Err(MarketplaceError::TimingViolation);
        }
        if !(start_time >= now && start_time < deadline) {
            return Err(MarketplaceError::InvalidParameters);
        }
        let marketplace_cut_percentage = self.bid_cut_percentage();
        let creator_royalties_percentage = nft_info.royalties;
        if creator_royalties_percentage >= PERCENTAGE_TOTAL || marketplace_cut_percentage
            + creator_royalties_percentage >= PERCENTAGE_TOTAL {
            return Err(MarketplaceError::RoyaltyOverflow);
        }
        let min_bid_diff = match opt_min_bid_diff {
            Some(d) => d,
            None => 0,
        };
        let accepted_payment_nft_nonce = if accepted_payment_token.is_egld() {
            0
        } else {
            match opt_accepted_payment_token_nonce {
                Some(n) => n,
                None => 0,
            }
        };
        let auction_id = self.last_valid_auction_id() + 1;
        let auction_type = if nft_amount > NFT_AMOUNT {
            if sft_max_one {
                AuctionType::SftOnePerPayment
            } else {
                AuctionType::SftAll
            }
        } else {
            AuctionType::Nft
        };
        let auction = Auction {
            auctioned_tokens: EsdtTokenPayment {
                token_identifier: nft_type,
                token_nonce: nft_nonce,
                amount: nft_amount,
            },
            auction_type,
            payment_token: accepted_payment_token,
            payment_nonce: accepted_payment_nft_nonce,
            min_bid,
            max_bid: if max_bid > 0 {
                Some(max_bid)
            } else {
                None
            },
            min_bid_diff,
            start_time,
            deadline,
            original_owner: caller,
            current_bid: 0,
            current_winner: Address::zero(),
            marketplace_cut_percentage,
            creator_royalties_percentage,
        };
        proof {
            lemma_listed_auction_wf(
                nft_type,
                nft_nonce,
                nft_amount,
                min_bid,
                max_bid,
                deadline,
                accepted_payment_token,
                opt_min_bid_diff,
                opt_sft_max_one_per_payment,
                opt_accepted_payment_token_nonce,
                opt_start_time,
                caller,
                now,
                marketplace_cut_percentage,
                creator_royalties_percentage,
            );
            assert(auction == listed_auction(
                nft_type,
                nft_nonce,
                nft_amount,
                min_bid,
                max_bid,
                deadline,
                accepted_payment_token,
                opt_min_bid_diff,
                opt_sft_max_one_per_payment,
                opt_accepted_payment_token_nonce,
                opt_start_time,
                caller,
                now,
                marketplace_cut_percentage,
                creator_royalties_percentage,
            ));
        }
        self.auctions.push(Some(auction));
        proof {
            let pre = old(self).auction_store();
            assert forall|i: int|
                0 <= i < self.auctions@.len() implies ((#[trigger] self.auctions@[i])
                matches Some(a) ==> a.wf()) by {
                if i < pre.len() {
                    assert(self.auctions@[i] == pre[i]);
                } else {
                    assert(self.auctions@[i] == Some(auction));
                }
            }
        }
        Ok(auction_id)
    }

    fn end_auction(&mut self, auction_id: u64, now: u64, nft_info: EsdtTokenData) -> Result<
        Vec<Transfer>,
        MarketplaceError,
    > {
        let auction = match self.try_get_auction(auction_id) {
            Ok(a) => a,
            Err(e) => {
                return Err(e);
            },
        };
        let deadline_reached = now > auction.deadline;
        let max_bid_reached = match auction.max_bid {
            Some(max) => auction.current_bid == max,
            None => false,
        };
        if !(deadline_reached || max_bid_reached) {
            return Err(MarketplaceError::TimingViolation);
        }
        if auction.auction_type == AuctionType::SftOnePerPayment {
            return Err(MarketplaceError::InvalidParameters);
        }
        proof {
            assert(record_of(old(self).auction_store(), auction_id) == Some(auction));
            assert(1 <= auction_id <= old(self).auction_store().len());
        }
        let mut out: Vec<Transfer> = Vec::new();
        self.distribute_tokens_after_auction_end(&auction, None, nft_info, &mut out);
        let n_slots = self.auctions.len();
        proof {
            assert(auction_id <= n_slots as u64);
        }
        let slot: usize = (auction_id - 1) as usize;
        self.auctions[slot] = None;
        proof {
            let mid = old(self).auction_store().update(auction_id - 1, None::<Auction>);
            assert(self.auction_store() =~= mid);
            assert forall|i: int|
                0 <= i < self.auctions@.len() implies ((#[trigger] self.auctions@[i])
                matches Some(a) ==> a.wf()) by {
                if i != auction_id - 1 {
                    assert(self.auctions@[i] == old(self).auction_store()[i]);
                }
            }
        }
        Ok(out)
    }

    fn withdraw(&mut self, auction_id: u64, caller: Address) -> Result<
        Vec<Transfer>,
        MarketplaceError,
    > {
        let auction = match self.try_get_auction(auction_id) {
            Ok(a) => a,
            Err(e) => {
                return Err(e);
            },
        };
        if !(auction.original_owner == caller) {
            return Err(MarketplaceError::NotAuthorized);
        }
        if !(auction.current_bid == 0 || auction.auction_type == AuctionType::SftOnePerPayment) {
            return Err(MarketplaceError::AuctionHasBids);
        }
        proof {
            assert(record_of(old(self).auction_store(), auction_id) == Some(auction));
            assert(1 <= auction_id <= old(self).auction_store().len());
        }
        let n_slots = self.auctions.len();
        proof {
            assert(auction_id <= n_slots as u64);
        }
        let slot: usize = (auction_id - 1) as usize;
        self.auctions[slot] = None;
        proof {
            assert(self.auction_store() =~= old(self).auction_store().update(
                auction_id - 1,
                None::<Auction>,
            ));
            assert forall|i: int|
                0 <= i < self.auctions@.len() implies ((#[trigger] self.auctions@[i])
                matches Some(a) ==> a.wf()) by {
                if i != auction_id - 1 {
                    assert(self.auctions@[i] == old(self).auction_store()[i]);
                }
            }
            crate::token_distribution::lemma_claimable_headroom(
                self.claim_entries(),
                caller,
                EgldOrEsdtTokenIdentifier::Esdt(auction.auctioned_tokens.token_identifier),
                auction.auctioned_tokens.token_nonce,
            );
        }
        let mut out: Vec<Transfer> = Vec::new();
        self.transfer_or_save_payment(
            caller,
            EgldOrEsdtTokenIdentifier::Esdt(auction.auctioned_tokens.token_identifier),
            auction.auctioned_tokens.token_nonce,
            auction.auctioned_tokens.amount,
            &mut out,
        );
        proof {
            assert(asset_payout(auction, caller, auction.auctioned_tokens.amount as int)
                == crate::token_distribution::payout(
                caller,
                EgldOrEsdtTokenIdentifier::Esdt(auction.auctioned_tokens.token_identifier),
                auction.auctioned_tokens.token_nonce,
                auction.auctioned_tokens.amount as int,
            ));
            assert(out@ =~= direct_seq(
                asset_payout(auction, caller, auction.auctioned_tokens.amount as int),
            ));
        }
        Ok(out)
    }

    fn try_get_auction(&self, auction_id: u64) -> Result<Auction, MarketplaceError> {
        match self.auction_by_id(auction_id) {
            Some(a) => Ok(a),
            None => Err(MarketplaceError::NotFound),
        }
    }
}

} // verus!
