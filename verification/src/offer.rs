//! The offer registry: standing purchase proposals, their withdrawal and
//! their acceptance, including the paired withdraw-an-auction-then-accept
//! flow.
//!
//! Policy notes, fixed here once: accepting an offer does not itself touch
//! live auctions on the same asset — a seller whose asset sits in a
//! zero-bid auction uses the explicit paired call instead; and nothing
//! limits how many offers one account may hold open for the same asset.
//! Royalties are recomputed at acceptance time from the metadata the host
//! supplies, and the marketplace cut is read live, not snapshotted.

use vstd::prelude::*;

use crate::auction::AuctionModule;
use crate::auction_model::Auction;
use crate::auction_model::PERCENTAGE_TOTAL;
use crate::offer_model::Offer;
use crate::storage::claim_headroom;
use crate::storage::claimable_of;
use crate::storage::record_of;
use crate::storage::same_config;
use crate::storage::StorageModule;
use crate::token_distribution::asset_payout;
use crate::token_distribution::cut_amount;
use crate::token_distribution::direct_seq;
use crate::token_distribution::payout;
use crate::token_distribution::transfer_contrib;
use crate::token_distribution::TokenDistributionModule;
use crate::types::Address;
use crate::types::EgldOrEsdtTokenIdentifier;
use crate::types::EgldOrEsdtTokenPayment;
use crate::types::EsdtTokenData;
use crate::types::EsdtTokenPayment;
use crate::types::MarketplaceError;
use crate::types::Transfer;

verus! {

/// The marketplace-cut part of an accepted offer's payment.
pub open spec fn offer_bid_cut(o: Offer, cut_bp: u64) -> int {
    cut_amount(o.payment.amount as int, cut_bp as int)
}

/// The creator-royalty part of an accepted offer's payment.
pub open spec fn offer_creator_royalties(o: Offer, royalties_bp: u64) -> int {
    cut_amount(o.payment.amount as int, royalties_bp as int)
}

/// What the accepting seller keeps of the payment.
pub open spec fn offer_seller_proceeds(o: Offer, cut_bp: u64, royalties_bp: u64) -> int {
    o.payment.amount - offer_creator_royalties(o, royalties_bp) - offer_bid_cut(o, cut_bp)
}

/// The delivery of the wanted asset, in full, to the offeror.
pub open spec fn offer_asset_payout(o: Offer) -> Transfer {
    payout(
        o.offer_owner,
        EgldOrEsdtTokenIdentifier::Esdt(o.offer_token.token_identifier),
        o.offer_token.token_nonce,
        o.offer_token.amount as int,
    )
}

/// The marketplace-cut delivery of an accepted offer.
pub open spec fn offer_cut_payout(o: Offer, cut_bp: u64, owner: Address) -> Transfer {
    payout(owner, o.payment.token_identifier, o.payment.token_nonce, offer_bid_cut(o, cut_bp))
}

/// The creator-royalties delivery of an accepted offer.
pub open spec fn offer_royalties_payout(o: Offer, royalties_bp: u64, creator: Address) -> Transfer {
    payout(
        creator,
        o.payment.token_identifier,
        o.payment.token_nonce,
        offer_creator_royalties(o, royalties_bp),
    )
}

/// The seller's delivery of an accepted offer.
pub open spec fn offer_seller_payout(
    o: Offer,
    cut_bp: u64,
    royalties_bp: u64,
    seller: Address,
) -> Transfer {
    payout(
        seller,
        o.payment.token_identifier,
        o.payment.token_nonce,
        offer_seller_proceeds(o, cut_bp, royalties_bp),
    )
}

/// The full effect of accepting an offer on the claimable ledger and the
/// requested transfers: the asset to the offeror, then the cut to the
/// operator, royalties to the creator and the rest of the payment to the
/// seller, each pushed or credited as its recipient demands.
pub open spec fn accept_offer_effect(
    o: Offer,
    cut_bp: u64,
    nft_info: EsdtTokenData,
    owner: Address,
    seller: Address,
    pre_claims: Seq<crate::storage::ClaimEntry>,
    post_claims: Seq<crate::storage::ClaimEntry>,
    pre_out: Seq<Transfer>,
    post_out: Seq<Transfer>,
) -> bool {
    let d1 = offer_asset_payout(o);
    let d2 = offer_cut_payout(o, cut_bp, owner);
    let d3 = offer_royalties_payout(o, nft_info.royalties, nft_info.creator);
    let d4 = offer_seller_payout(o, cut_bp, nft_info.royalties, seller);
    &&& post_out =~= pre_out + direct_seq(d1) + direct_seq(d2) + direct_seq(d3) + direct_seq(d4)
    &&& (forall|ad: Address, t: EgldOrEsdtTokenIdentifier, n: u64|
        claimable_of(post_claims, ad, t, n) == claimable_of(pre_claims, ad, t, n)
            + transfer_contrib(d1, ad, t, n) + transfer_contrib(d2, ad, t, n) + transfer_contrib(
            d3,
            ad,
            t,
            n,
        ) + transfer_contrib(d4, ad, t, n))
}

/// The guard applied while the marketplace itself holds enough of the
/// wanted asset: the offeror must then name a live, bid-free auction of
/// that asset, so that an accepted offer cannot dispossess an active
/// bidder.
pub open spec fn check_nft_error(
    desired_nft_id: u64,
    desired_amount: u64,
    marketplace_balance: u64,
    opt_auction_id: Option<u64>,
    auctions: Seq<Option<Auction>>,
) -> Option<MarketplaceError> {
    if marketplace_balance >= desired_amount {
        match opt_auction_id {
            None => Some(MarketplaceError::InvalidParameters),
            Some(id) => match record_of(auctions, id) {
                None => Some(MarketplaceError::NotFound),
                Some(a) => {
                    if a.auctioned_tokens.token_identifier != desired_nft_id {
                        Some(MarketplaceError::WrongAsset)
                    } else if a.current_bid != 0 {
                        Some(MarketplaceError::AuctionHasBids)
                    } else {
                        None
                    }
                },
            },
        }
    } else {
        None
    }
}

/// Why creating an offer is rejected, or `None` when it is accepted; the
/// checks apply in this order. `marketplace_balance` is how much of the
/// wanted asset the marketplace itself holds, as reported by the host.
pub open spec fn send_offer_error(
    desired_nft_id: u64,
    desired_nft_nonce: u64,
    desired_amount: u64,
    payment_amount: u64,
    deadline: u64,
    now: u64,
    marketplace_balance: u64,
    opt_auction_id: Option<u64>,
    auctions: Seq<Option<Auction>>,
) -> Option<MarketplaceError> {
    if desired_nft_nonce == 0 {
        Some(MarketplaceError::InvalidParameters)
    } else if desired_amount == 0 {
        Some(MarketplaceError::InvalidParameters)
    } else if payment_amount == 0 {
        Some(MarketplaceError::InvalidParameters)
    } else if deadline <= now {
        Some(MarketplaceError::TimingViolation)
    } else {
        check_nft_error(
            desired_nft_id,
            desired_amount,
            marketplace_balance,
            opt_auction_id,
            auctions,
        )
    }
}

/// The record an accepted offer request stores.
pub open spec fn created_offer(
    desired_nft_id: u64,
    desired_nft_nonce: u64,
    desired_amount: u64,
    payment: EgldOrEsdtTokenPayment,
    caller: Address,
    now: u64,
    deadline: u64,
) -> Offer {
    Offer {
        offer_token: EsdtTokenPayment {
            token_identifier: desired_nft_id,
            token_nonce: desired_nft_nonce,
            amount: desired_amount,
        },
        payment,
        start_time: now,
        deadline,
        offer_owner: caller,
    }
}

/// Why withdrawing an offer is rejected: an unknown id or a caller other
/// than the offeror.
pub open spec fn withdraw_offer_error(
    rec: Option<Offer>,
    caller: Address,
) -> Option<MarketplaceError> {
    match rec {
        None => Some(MarketplaceError::NotFound),
        Some(o) => {
            if o.offer_owner != caller {
                Some(MarketplaceError::NotAuthorized)
            } else {
                None
            }
        },
    }
}

/// The refund a withdrawn offer pays its offeror: the escrowed payment in
/// full, always as a direct transfer.
pub open spec fn offer_refund_transfer(o: Offer, caller: Address) -> Transfer {
    Transfer {
        to: caller,
        token: o.payment.token_identifier,
        nonce: o.payment.token_nonce,
        amount: o.payment.amount as u128,
    }
}

/// Why accepting an offer is rejected, or `None` when it is accepted; the
/// checks apply in this order. The delivered asset must match the wanted
/// asset exactly; royalties are recomputed now and rechecked against the
/// live cut.
pub open spec fn accept_offer_error(
    rec: Option<Offer>,
    nft_token: u64,
    nft_nonce: u64,
    nft_amount: u64,
    seller: Address,
    now: u64,
    cut_bp: u64,
    royalties_bp: u64,
) -> Option<MarketplaceError> {
    match rec {
        None => Some(MarketplaceError::NotFound),
        Some(o) => {
            if nft_amount != o.offer_token.amount {
                Some(MarketplaceError::WrongAsset)
            } else if nft_token != o.offer_token.token_identifier {
                Some(MarketplaceError::WrongAsset)
            } else if nft_nonce != o.offer_token.token_nonce {
                Some(MarketplaceError::WrongAsset)
            } else if now >= o.deadline {
                Some(MarketplaceError::TimingViolation)
            } else if o.offer_owner == seller {
                Some(MarketplaceError::NotAuthorized)
            } else if cut_bp + royalties_bp >= PERCENTAGE_TOTAL {
                Some(MarketplaceError::RoyaltyOverflow)
            } else {
                None
            }
        },
    }
}

/// Why the paired withdraw-then-accept call is rejected, or `None` when it
/// goes through; the checks apply in this order. The named auction must
/// hold exactly the wanted asset, be bid-free and belong to the caller,
/// and the offer must be acceptable by the caller now.
pub open spec fn withdraw_auction_accept_offer_error(
    arec: Option<Auction>,
    orec: Option<Offer>,
    caller: Address,
    now: u64,
    cut_bp: u64,
    royalties_bp: u64,
) -> Option<MarketplaceError> {
    match arec {
        None => Some(MarketplaceError::NotFound),
        Some(a) => match orec {
            None => Some(MarketplaceError::NotFound),
            Some(o) => {
                if a.auctioned_tokens.token_identifier != o.offer_token.token_identifier {
                    Some(MarketplaceError::WrongAsset)
                } else if a.auctioned_tokens.amount != o.offer_token.amount {
                    Some(MarketplaceError::WrongAsset)
                } else if a.current_bid != 0 {
                    Some(MarketplaceError::AuctionHasBids)
                } else if a.original_owner != caller {
                    Some(MarketplaceError::NotAuthorized)
                } else if now >= o.deadline {
                    Some(MarketplaceError::TimingViolation)
                } else if o.offer_owner == caller {
                    Some(MarketplaceError::NotAuthorized)
                } else if cut_bp + royalties_bp >= PERCENTAGE_TOTAL {
                    Some(MarketplaceError::RoyaltyOverflow)
                } else {
                    None
                }
            },
        },
    }
}

/// The offer registry. Offer ids are one global counter starting at 1,
/// never reused.
pub trait OfferModule: AuctionModule {
    /// Creates an offer: the attached payment goes into the marketplace's
    /// custody for the offer's lifetime, and the new id is returned. While
    /// the marketplace holds enough of the wanted asset, the offeror must
    /// name a live bid-free auction of it.
    fn send_offer(
        &mut self,
        desired_nft_id: u64,
        desired_nft_nonce: u64,
        desired_amount: u64,
        deadline: u64,
        opt_auction_id: Option<u64>,
        payment: EgldOrEsdtTokenPayment,
        caller: Address,
        now: u64,
        marketplace_balance: u64,
    ) -> (r: Result<u64, MarketplaceError>)
        requires
            old(self).wf(),
            !caller.is_zero_spec(),
            payment.token_identifier.is_egld_spec() ==> payment.token_nonce == 0,
            old(self).offer_store().len() < u64::MAX,
        ensures
            final(self).wf(),
            same_config(old(self), final(self)),
            final(self).auction_store() == old(self).auction_store(),
            final(self).claim_entries() == old(self).claim_entries(),
            r is Err <==> send_offer_error(
                desired_nft_id,
                desired_nft_nonce,
                desired_amount,
                payment.amount,
                deadline,
                now,
                marketplace_balance,
                opt_auction_id,
                old(self).auction_store(),
            ) is Some,
            r matches Err(e) ==> Some(e) == send_offer_error(
                desired_nft_id,
                desired_nft_nonce,
                desired_amount,
                payment.amount,
                deadline,
                now,
                marketplace_balance,
                opt_auction_id,
                old(self).auction_store(),
            ) && final(self).offer_store() == old(self).offer_store(),
            r matches Ok(id) ==> id == old(self).offer_store().len() + 1 && final(self).offer_store() == old(self).offer_store().push(
                Some(
                    created_offer(
                        desired_nft_id,
                        desired_nft_nonce,
                        desired_amount,
                        payment,
                        caller,
                        now,
                        deadline,
                    ),
                ),
            ),
    ;

    /// The guard behind `send_offer`: while the marketplace holds enough
    /// of the wanted asset, the named auction must exist, carry that asset
    /// and be bid-free.
    fn check_nft_in_marketplace(
        &self,
        desired_nft_id: u64,
        desired_nft_nonce: u64,
        desired_amount: u64,
        opt_auction_id: Option<u64>,
        marketplace_balance: u64,
    ) -> (r: Result<(), MarketplaceError>)
        ensures
            r is Err <==> check_nft_error(
                desired_nft_id,
                desired_amount,
                marketplace_balance,
                opt_auction_id,
                self.auction_store(),
            ) is Some,
            r matches Err(e) ==> Some(e) == check_nft_error(
                desired_nft_id,
                desired_amount,
                marketplace_balance,
                opt_auction_id,
                self.auction_store(),
            ),
    ;

    /// Withdraws an offer: only the offeror may, the escrowed payment is
    /// refunded in full as one direct transfer, and the record is deleted.
    fn withdraw_offer(&mut self, offer_id: u64, caller: Address) -> (r: Result<
        Vec<Transfer>,
        MarketplaceError,
    >)
        requires
            old(self).wf(),
        ensures
            final(self).wf(),
            same_config(old(self), final(self)),
            final(self).auction_store() == old(self).auction_store(),
            final(self).claim_entries() == old(self).claim_entries(),
            r is Err <==> withdraw_offer_error(record_of(old(self).offer_store(), offer_id), caller)
                is Some,
            r matches Err(e) ==> Some(e) == withdraw_offer_error(
                record_of(old(self).offer_store(), offer_id),
                caller,
            ) && final(self).offer_store() == old(self).offer_store(),
            r matches Ok(transfers) ==> record_of(old(self).offer_store(), offer_id)
                matches Some(o) && final(self).offer_store() == old(self).offer_store().update(
                offer_id - 1,
                None::<Offer>,
            ) && transfers@ =~= seq![offer_refund_transfer(o, caller)],
    ;

    /// Accepts an offer: the caller delivers the wanted asset (attached to
    /// the call) and receives the payment minus the live marketplace cut
    /// and the freshly resolved creator royalties; the asset goes to the
    /// offeror and the record is deleted.
    fn accept_offer(
        &mut self,
        offer_id: u64,
        nft_token: u64,
        nft_nonce: u64,
        nft_amount: u64,
        caller: Address,
        now: u64,
        nft_info: EsdtTokenData,
    ) -> (r: Result<Vec<Transfer>, MarketplaceError>)
        requires
            old(self).wf(),
            claim_headroom(old(self).claim_entries()),
        ensures
            final(self).wf(),
            same_config(old(self), final(self)),
            final(self).auction_store() == old(self).auction_store(),
            r is Err <==> accept_offer_error(
                record_of(old(self).offer_store(), offer_id),
                nft_token,
                nft_nonce,
                nft_amount,
                caller,
                now,
                old(self).cut(),
                nft_info.royalties,
            ) is Some,
            r matches Err(e) ==> Some(e) == accept_offer_error(
                record_of(old(self).offer_store(), offer_id),
                nft_token,
                nft_nonce,
                nft_amount,
                caller,
                now,
                old(self).cut(),
                nft_info.royalties,
            ) && final(self).offer_store() == old(self).offer_store() && final(self).claim_entries() == old(self).claim_entries(),
            r matches Ok(transfers) ==> record_of(old(self).offer_store(), offer_id)
                matches Some(o) && final(self).offer_store() == old(self).offer_store().update(
                offer_id - 1,
                None::<Offer>,
            ) && accept_offer_effect(
                o,
                old(self).cut(),
                nft_info,
                old(self).sc_owner(),
                caller,
                old(self).claim_entries(),
                final(self).claim_entries(),
                Seq::<Transfer>::empty(),
                transfers@,
            ),
    ;

    /// The paired flow: withdraws the caller's bid-free auction of the
    /// wanted asset (its units return to the caller) and then accepts the
    /// offer, in one atomic operation.
    fn withdraw_auction_and_accept_offer(
        &mut self,
        auction_id: u64,
        offer_id: u64,
        caller: Address,
        now: u64,
        nft_info: EsdtTokenData,
    ) -> (r: Result<Vec<Transfer>, MarketplaceError>)
        requires
            old(self).wf(),
            claim_headroom(old(self).claim_entries()),
        ensures
            final(self).wf(),
            same_config(old(self), final(self)),
            r is Err <==> withdraw_auction_accept_offer_error(
                record_of(old(self).auction_store(), auction_id),
                record_of(old(self).offer_store(), offer_id),
                caller,
                now,
                old(self).cut(),
                nft_info.royalties,
            ) is Some,
            r matches Err(e) ==> Some(e) == withdraw_auction_accept_offer_error(
                record_of(old(self).auction_store(), auction_id),
                record_of(old(self).offer_store(), offer_id),
                caller,
                now,
                old(self).cut(),
                nft_info.royalties,
            ) && final(self).auction_store() == old(self).auction_store() && final(self).offer_store() == old(self).offer_store() && final(self).claim_entries() == old(self).claim_entries(),
            r matches Ok(transfers) ==> record_of(old(self).auction_store(), auction_id)
                matches Some(a) && record_of(old(self).offer_store(), offer_id) matches Some(o)
                && final(self).auction_store() == old(self).auction_store().update(
                auction_id - 1,
                None::<Auction>,
            ) && final(self).offer_store() == old(self).offer_store().update(
                offer_id - 1,
                None::<Offer>,
            ) && transfers@ =~= direct_seq(asset_payout(a, caller, a.auctioned_tokens.amount as int))
                + direct_seq(offer_asset_payout(o)) + direct_seq(
                offer_cut_payout(o, old(self).cut(), old(self).sc_owner()),
            ) + direct_seq(offer_royalties_payout(o, nft_info.royalties, nft_info.creator))
                + direct_seq(offer_seller_payout(o, old(self).cut(), nft_info.royalties, caller))
                && (forall|ad: Address, t: EgldOrEsdtTokenIdentifier, n: u64|
                claimable_of(final(self).claim_entries(), ad, t, n) == claimable_of(
                    old(self).claim_entries(),
                    ad,
                    t,
                    n,
                ) + transfer_contrib(
                    asset_payout(a, caller, a.auctioned_tokens.amount as int),
                    ad,
                    t,
                    n,
                ) + transfer_contrib(offer_asset_payout(o), ad, t, n) + transfer_contrib(
                    offer_cut_payout(o, old(self).cut(), old(self).sc_owner()),
                    ad,
                    t,
                    n,
                ) + transfer_contrib(
                    offer_royalties_payout(o, nft_info.royalties, nft_info.creator),
                    ad,
                    t,
                    n,
                ) + transfer_contrib(
                    offer_seller_payout(o, old(self).cut(), nft_info.royalties, caller),
                    ad,
                    t,
                    n,
                )),
    ;

    /// Settles an already validated acceptance: delivers the asset and the
    /// payment split, and deletes the offer record.
    fn accept_offer_common(
        &mut self,
        seller: Address,
        offer_id: u64,
        offer: Offer,
        nft_info: EsdtTokenData,
        out: &mut Vec<Transfer>,
    )
        requires
            old(self).wf(),
            record_of(old(self).offer_store(), offer_id) == Some(offer),
            old(self).cut() + nft_info.royalties < PERCENTAGE_TOTAL,
            forall|ad: Address, t: EgldOrEsdtTokenIdentifier, n: u64|
                claimable_of(old(self).claim_entries(), ad, t, n) + 0x4_0000_0000_0000_0000
                    <= u128::MAX,
        ensures
            final(self).wf(),
            same_config(old(self), final(self)),
            final(self).auction_store() == old(self).auction_store(),
            final(self).offer_store() == old(self).offer_store().update(
                offer_id - 1,
                None::<Offer>,
            ),
            accept_offer_effect(
                offer,
                old(self).cut(),
                nft_info,
                old(self).sc_owner(),
                seller,
                old(self).claim_entries(),
                final(self).claim_entries(),
                old(out)@,
                final(out)@,
            ),
    ;

    /// The record of a live offer id, or `NotFound`.
    fn try_get_offer(&self, offer_id: u64) -> (r: Result<Offer, MarketplaceError>)
        ensures
            r matches Ok(o) ==> record_of(self.offer_store(), offer_id) == Some(o),
            r is Err <==> record_of(self.offer_store(), offer_id) is None,
            r matches Err(e) ==> e == MarketplaceError::NotFound,
    ;
}

impl OfferModule for crate::storage::Marketplace {
    fn send_offer(
        &mut self,
        desired_nft_id: u64,
        desired_nft_nonce: u64,
        desired_amount: u64,
        deadline: u64,
        opt_auction_id: Option<u64>,
        payment: EgldOrEsdtTokenPayment,
        caller: Address,
        now: u64,
        marketplace_balance: u64,
    ) -> Result<u64, MarketplaceError> {
        if desired_nft_nonce == 0 {
            return Err(MarketplaceError::InvalidParameters);
        }
        if desired_amount == 0 {
            return Err(MarketplaceError::InvalidParameters);
        }
        if payment.amount == 0 {
            return Err(MarketplaceError::InvalidParameters);
        }
        if deadline <= now {
            return Err(MarketplaceError::TimingViolation);
        }
        match self.check_nft_in_marketplace(
            desired_nft_id,
            desired_nft_nonce,
            desired_amount,
            opt_auction_id,
            marketplace_balance,
        ) {
            Ok(u) => u,
            Err(e) => {
                return Err(e);
            },
        };
        let offer = Offer {
            offer_token: EsdtTokenPayment {
                token_identifier: desired_nft_id,
                token_nonce: desired_nft_nonce,
                amount: desired_amount,
            },
            payment,
            start_time: now,
            deadline,
            offer_owner: caller,
        };
        let offer_id = self.last_valid_offer_id() + 1;
        self.offers.push(Some(offer));
        proof {
            let pre = old(self).offer_store();
            assert(offer == created_offer(
                desired_nft_id,
                desired_nft_nonce,
                desired_amount,
                payment,
                caller,
                now,
                deadline,
            ));
            assert forall|i: int|
                0 <= i < self.offers@.len() implies ((#[trigger] self.offers@[i]) matches Some(o)
                ==> o.wf()) by {
                if i < pre.len() {
                    assert(self.offers@[i] == pre[i]);
                } else {
                    assert(self.offers@[i] == Some(offer));
                }
            }
        }
        Ok(offer_id)
    }

    fn check_nft_in_marketplace(
        &self,
        desired_nft_id: u64,
        desired_nft_nonce: u64,
        desired_amount: u64,
        opt_auction_id: Option<u64>,
        marketplace_balance: u64,
    ) -> Result<(), MarketplaceError> {
        if marketplace_balance >= desired_amount {
            match opt_auction_id {
                None => Err(MarketplaceError::InvalidParameters),
                Some(auction_id) => {
                    let auction = match self.try_get_auction(auction_id) {
                        Ok(a) => a,
                        Err(e) => {
                            return Err(e);
                        },
                    };
                    if auction.auctioned_tokens.token_identifier != desired_nft_id {
                        Err(MarketplaceError::WrongAsset)
                    } else if auction.current_bid != 0 {
                        Err(MarketplaceError::AuctionHasBids)
                    } else {
                        Ok(())
                    }
                },
            }
        } else {
            Ok(())
        }
    }

    fn withdraw_offer(&mut self, offer_id: u64, caller: Address) -> Result<
        Vec<Transfer>,
        MarketplaceError,
    > {
        let offer = match self.try_get_offer(offer_id) {
            Ok(o) => o,
            Err(e) => {
                return Err(e);
            },
        };
        if offer.offer_owner != caller {
            return Err(MarketplaceError::NotAuthorized);
        }
        let n_slots = self.offers.len();
        proof {
            assert(record_of(old(self).offer_store(), offer_id) == Some(offer));
            assert(offer_id <= n_slots as u64);
        }
        let slot: usize = (offer_id - 1) as usize;
        self.offers[slot] = None;
        proof {
            assert(self.offer_store() =~= old(self).offer_store().update(
                offer_id - 1,
                None::<Offer>,
            ));
            assert forall|i: int|
                0 <= i < self.offers@.len() implies ((#[trigger] self.offers@[i]) matches Some(o)
                ==> o.wf()) by {
                if i != offer_id - 1 {
                    assert(self.offers@[i] == old(self).offer_store()[i]);
                }
            }
        }
        let mut out: Vec<Transfer> = Vec::new();
        let refund = Transfer {
            to: caller,
            token: offer.payment.token_identifier,
            nonce: offer.payment.token_nonce,
            amount: offer.payment.amount as u128,
        };
        out.push(refund);
        proof {
            assert(out@ =~= seq![offer_refund_transfer(offer, caller)]);
        }
        Ok(out)
    }

    fn accept_offer(
        &mut self,
        offer_id: u64,
        nft_token: u64,
        nft_nonce: u64,
        nft_amount: u64,
        caller: Address,
        now: u64,
        nft_info: EsdtTokenData,
    ) -> Result<Vec<Transfer>, MarketplaceError> {
        let offer = match self.try_get_offer(offer_id) {
            Ok(o) => o,
            Err(e) => {
                return Err(e);
            },
        };
        if nft_amount != offer.offer_token.amount {
            return Err(MarketplaceError::WrongAsset);
        }
        if nft_token != offer.offer_token.token_identifier {
            return Err(MarketplaceError::WrongAsset);
        }
        if nft_nonce != offer.offer_token.token_nonce {
            return Err(MarketplaceError::WrongAsset);
        }
        if now >= offer.deadline {
            return Err(MarketplaceError::TimingViolation);
        }
        if offer.offer_owner == caller {
            return Err(MarketplaceError::NotAuthorized);
        }
        let cut_bp = self.bid_cut_percentage();
        if nft_info.royalties >= PERCENTAGE_TOTAL || cut_bp + nft_info.royalties
            >= PERCENTAGE_TOTAL {
            return Err(MarketplaceError::RoyaltyOverflow);
        }
        proof {
            assert forall|ad: Address, t: EgldOrEsdtTokenIdentifier, n: u64|
                claimable_of(old(self).claim_entries(), ad, t, n) + 0x4_0000_0000_0000_0000
                    <= u128::MAX by {
                crate::token_distribution::lemma_claimable_headroom(
                    old(self).claim_entries(),
                    ad,
                    t,
                    n,
                );
            }
        }
        let mut out: Vec<Transfer> = Vec::new();
        self.accept_offer_common(caller, offer_id, offer, nft_info, &mut out);
        Ok(out)
    }

    fn withdraw_auction_and_accept_offer(
        &mut self,
        auction_id: u64,
        offer_id: u64,
        caller: Address,
        now: u64,
        nft_info: EsdtTokenData,
    ) -> Result<Vec<Transfer>, MarketplaceError> {
        let auction = match self.try_get_auction(auction_id) {
            Ok(a) => a,
            Err(e) => {
                return Err(e);
            },
        };
        let offer = match self.try_get_offer(offer_id) {
            Ok(o) => o,
            Err(e) => {
                return Err(e);
            },
        };
        if auction.auctioned_tokens.token_identifier != offer.offer_token.token_identifier {
            return Err(MarketplaceError::WrongAsset);
        }
        if auction.auctioned_tokens.amount != offer.offer_token.amount {
            return Err(MarketplaceError::WrongAsset);
        }
        if auction.current_bid != 0 {
            return Err(MarketplaceError::AuctionHasBids);
        }
        if auction.original_owner != caller {
            return Err(MarketplaceError::NotAuthorized);
        }
        if now >= offer.deadline {
            return Err(MarketplaceError::TimingViolation);
        }
        if offer.offer_owner == caller {
            return Err(MarketplaceError::NotAuthorized);
        }
        let cut_bp = self.bid_cut_percentage();
        if nft_info.royalties >= PERCENTAGE_TOTAL || cut_bp + nft_info.royalties
            >= PERCENTAGE_TOTAL {
            return Err(MarketplaceError::RoyaltyOverflow);
        }
        let n_slots = self.auctions.len();
        proof {
            assert(record_of(old(self).auction_store(), auction_id) == Some(auction));
            assert(auction_id <= n_slots as u64);
        }
        let slot: usize = (auction_id - 1) as usize;
        self.auctions[slot] = None;
        proof {
            assert(self.auction_store() =~= old(self).auction_store().update(
                auction_id - 1,
                None::<Auction>,
            ));
            assert forall|i: int|
                0 <= i < self.auctions@.len() implies ((#[trigger] self.auctions@[i])
                matches Some(a) ==> a.wf()) by {
                if i != auction_id - 1 {
                    assert(self.auctions@[i] == old(self).auction_store()[i]);
                }
            }
            crate::token_distribution::lemma_claimable_headroom(
                self.claim_entries(),
                caller,
                EgldOrEsdtTokenIdentifier::Esdt(auction.auctioned_tokens.token_identifier),
                auction.auctioned_tokens.token_nonce,
            );
        }
        let mut out: Vec<Transfer> = Vec::new();
        self.transfer_or_save_payment(
            caller,
            EgldOrEsdtTokenIdentifier::Esdt(auction.auctioned_tokens.token_identifier),
            auction.auctioned_tokens.token_nonce,
            auction.auctioned_tokens.amount,
            &mut out,
        );
        let ghost d0 = asset_payout(auction, caller, auction.auctioned_tokens.amount as int);
        let ghost claims0 = old(self).claim_entries();
        let ghost claims1 = self.claim_entries();
        proof {
            assert(d0 == payout(
                caller,
                EgldOrEsdtTokenIdentifier::Esdt(auction.auctioned_tokens.token_identifier),
                auction.auctioned_tokens.token_nonce,
                auction.auctioned_tokens.amount as int,
            ));
            assert(out@ =~= direct_seq(d0));
            assert forall|ad: Address, t: EgldOrEsdtTokenIdentifier, n: u64|
                claimable_of(claims1, ad, t, n) + 0x4_0000_0000_0000_0000 <= u128::MAX by {
                crate::token_distribution::lemma_claimable_headroom(claims0, ad, t, n);
                assert(claimable_of(claims1, ad, t, n) == claimable_of(claims0, ad, t, n)
                    + crate::token_distribution::transfer_contrib(
                    payout(
                        caller,
                        EgldOrEsdtTokenIdentifier::Esdt(auction.auctioned_tokens.token_identifier),
                        auction.auctioned_tokens.token_nonce,
                        auction.auctioned_tokens.amount as int,
                    ),
                    ad,
                    t,
                    n,
                ));
            }
        }
        self.accept_offer_common(caller, offer_id, offer, nft_info, &mut out);
        proof {
            let d1 = offer_asset_payout(offer);
            let d2 = offer_cut_payout(offer, old(self).cut(), old(self).sc_owner());
            let d3 = offer_royalties_payout(offer, nft_info.royalties, nft_info.creator);
            let d4 = offer_seller_payout(offer, old(self).cut(), nft_info.royalties, caller);
            assert(out@ =~= direct_seq(d0) + direct_seq(d1) + direct_seq(d2) + direct_seq(d3)
                + direct_seq(d4));
            assert forall|ad: Address, t: EgldOrEsdtTokenIdentifier, n: u64|
                claimable_of(self.claim_entries(), ad, t, n) == claimable_of(claims0, ad, t, n)
                    + transfer_contrib(d0, ad, t, n) + transfer_contrib(d1, ad, t, n)
                    + transfer_contrib(d2, ad, t, n) + transfer_contrib(d3, ad, t, n)
                    + transfer_contrib(d4, ad, t, n) by {
                assert(claimable_of(claims1, ad, t, n) == claimable_of(claims0, ad, t, n)
                    + transfer_contrib(d0, ad, t, n));
                assert(claimable_of(self.claim_entries(), ad, t, n) == claimable_of(
                    claims1,
                    ad,
                    t,
                    n,
                ) + transfer_contrib(d1, ad, t, n) + transfer_contrib(d2, ad, t, n)
                    + transfer_contrib(d3, ad, t, n) + transfer_contrib(d4, ad, t, n));
            }
        }
        Ok(out)
    }

    fn accept_offer_common(
        &mut self,
        seller: Address,
        offer_id: u64,
        offer: Offer,
        nft_info: EsdtTokenData,
        out: &mut Vec<Transfer>,
    ) {
        let owner = self.owner;
        let cut_bp = self.bid_cut_percentage();
        let creator_amt = self.calculate_cut_amount(offer.payment.amount, nft_info.royalties);
        let cut_amt = self.calculate_cut_amount(offer.payment.amount, cut_bp);
        proof {
            crate::token_distribution::lemma_bid_split_total(
                offer.payment.amount as int,
                nft_info.royalties as int,
                cut_bp as int,
            );
        }
        let seller_amt = offer.payment.amount - creator_amt - cut_amt;
        let ghost claims0 = self.claim_entries();
        let ghost out0 = out@;
        let ghost d1 = offer_asset_payout(offer);
        let ghost d2 = offer_cut_payout(offer, cut_bp, owner);
        let ghost d3 = offer_royalties_payout(offer, nft_info.royalties, nft_info.creator);
        let ghost d4 = offer_seller_payout(offer, cut_bp, nft_info.royalties, seller);
        self.transfer_or_save_payment(
            offer.offer_owner,
            EgldOrEsdtTokenIdentifier::Esdt(offer.offer_token.token_identifier),
            offer.offer_token.token_nonce,
            offer.offer_token.amount,
            out,
        );
        let ghost claims1 = self.claim_entries();
        self.transfer_or_save_payment(
            owner,
            offer.payment.token_identifier,
            offer.payment.token_nonce,
            cut_amt,
            out,
        );
        let ghost claims2 = self.claim_entries();
        self.transfer_or_save_payment(
            nft_info.creator,
            offer.payment.token_identifier,
            offer.payment.token_nonce,
            creator_amt,
            out,
        );
        let ghost claims3 = self.claim_entries();
        self.transfer_or_save_payment(
            seller,
            offer.payment.token_identifier,
            offer.payment.token_nonce,
            seller_amt,
            out,
        );
        let ghost claims4 = self.claim_entries();
        proof {
            assert(d1 == payout(
                offer.offer_owner,
                EgldOrEsdtTokenIdentifier::Esdt(offer.offer_token.token_identifier),
                offer.offer_token.token_nonce,
                offer.offer_token.amount as int,
            ));
            assert(d2 == payout(
                owner,
                offer.payment.token_identifier,
                offer.payment.token_nonce,
                cut_amt as int,
            ));
            assert(d3 == payout(
                nft_info.creator,
                offer.payment.token_identifier,
                offer.payment.token_nonce,
                creator_amt as int,
            ));
            assert(d4 == payout(
                seller,
                offer.payment.token_identifier,
                offer.payment.token_nonce,
                seller_amt as int,
            ));
        }
        let n_slots = self.offers.len();
        proof {
            assert(record_of(old(self).offer_store(), offer_id) == Some(offer));
            assert(offer_id <= n_slots as u64);
        }
        let slot: usize = (offer_id - 1) as usize;
        self.offers[slot] = None;
        proof {
            assert(self.offer_store() =~= old(self).offer_store().update(
                offer_id - 1,
                None::<Offer>,
            ));
            assert forall|i: int|
                0 <= i < self.offers@.len() implies ((#[trigger] self.offers@[i]) matches Some(o)
                ==> o.wf()) by {
                if i != offer_id - 1 {
                    assert(self.offers@[i] == old(self).offer_store()[i]);
                }
            }
            assert(out@ =~= out0 + direct_seq(d1) + direct_seq(d2) + direct_seq(d3) + direct_seq(
                d4,
            ));
            assert forall|ad: Address, t: EgldOrEsdtTokenIdentifier, n: u64|
                claimable_of(self.claim_entries(), ad, t, n) == claimable_of(claims0, ad, t, n)
                    + transfer_contrib(d1, ad, t, n) + transfer_contrib(d2, ad, t, n)
                    + transfer_contrib(d3, ad, t, n) + transfer_contrib(d4, ad, t, n) by {
                assert(claimable_of(claims1, ad, t, n) == claimable_of(claims0, ad, t, n)
                    + transfer_contrib(d1, ad, t, n));
                assert(claimable_of(claims2, ad, t, n) == claimable_of(claims1, ad, t, n)
                    + transfer_contrib(d2, ad, t, n));
                assert(claimable_of(claims3, ad, t, n) == claimable_of(claims2, ad, t, n)
                    + transfer_contrib(d3, ad, t, n));
                assert(claimable_of(claims4, ad, t, n) == claimable_of(claims3, ad, t, n)
                    + transfer_contrib(d4, ad, t, n));
                assert(self.claim_entries() == claims4);
            }
        }
    }

    fn try_get_offer(&self, offer_id: u64) -> Result<Offer, MarketplaceError> {
        match self.offer_by_id(offer_id) {
            Some(o) => Ok(o),
            None => Err(MarketplaceError::NotFound),
        }
    }
}

} // verus!
