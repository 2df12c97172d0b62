//! The settlement engine: splitting a winning bid into creator, marketplace
//! and seller shares, and delivering value either as a direct push transfer
//! or as a credit on the claimable ledger when the recipient is a contract
//! account that cannot safely take a push.

use vstd::prelude::*;

use crate::auction_model::Auction;
use crate::auction_model::AuctionType;
use crate::auction_model::NFT_AMOUNT;
use crate::auction_model::PERCENTAGE_TOTAL;
use crate::storage::claimable_of;
use crate::storage::entries_egld_at_nonce_zero;
use crate::storage::entries_unique;
use crate::storage::entry_matches;
use crate::storage::lemma_claimable_absent;
use crate::storage::lemma_claimable_push;
use crate::storage::lemma_claimable_unique;
use crate::storage::lemma_claimable_update;
use crate::storage::same_config;
use crate::storage::ClaimEntry;
use crate::storage::StorageModule;
use crate::storage::CLAIMABLE_HEADROOM;
use crate::types::Address;
use crate::types::EgldOrEsdtTokenIdentifier;
use crate::types::EsdtTokenData;
use crate::types::Transfer;

verus! {

/// How one winning amount is split. The seller's share absorbs the rounding
/// remainder, so the three parts always sum to the amount that was split.
#[derive(Clone, Copy, PartialEq, Eq, Structural, Debug)]
pub struct BidSplitAmounts {
    pub creator: u64,
    pub marketplace: u64,
    pub seller: u64,
}

/// `total * cut_bp / 10000`, rounded down.
pub open spec fn cut_amount(total: int, cut_bp: int) -> int {
    total * cut_bp / (PERCENTAGE_TOTAL as int)
}

/// The creator-royalty part of the current winning bid.
pub open spec fn creator_royalties(a: Auction) -> int {
    cut_amount(a.current_bid as int, a.creator_royalties_percentage as int)
}

/// The marketplace-cut part of the current winning bid.
pub open spec fn bid_cut(a: Auction) -> int {
    cut_amount(a.current_bid as int, a.marketplace_cut_percentage as int)
}

/// What remains for the seller once royalties and cut are taken out.
pub open spec fn seller_proceeds(a: Auction) -> int {
    a.current_bid - creator_royalties(a) - bid_cut(a)
}

/// A cut is never negative and never exceeds what it is cut from.
pub proof fn lemma_cut_amount_bounds(total: int, cut_bp: int)
    by (nonlinear_arith)
    requires
        0 <= total,
        0 <= cut_bp < PERCENTAGE_TOTAL,
    ensures
        0 <= cut_amount(total, cut_bp) <= total,
{
}

/// No value is created or destroyed by the split: whenever the two
/// percentages leave the seller a share, the creator, marketplace and seller
/// parts of any amount sum to exactly that amount.
pub proof fn lemma_bid_split_total(amount: int, royalty_bp: int, cut_bp: int)
    by (nonlinear_arith)
    requires
        0 <= amount,
        0 <= royalty_bp,
        0 <= cut_bp,
        royalty_bp + cut_bp < PERCENTAGE_TOTAL,
    ensures
        0 <= cut_amount(amount, royalty_bp),
        0 <= cut_amount(amount, cut_bp),
        cut_amount(amount, royalty_bp) + cut_amount(amount, cut_bp) <= amount,
        cut_amount(amount, royalty_bp) + cut_amount(amount, cut_bp) + (amount - cut_amount(
            amount,
            royalty_bp,
        ) - cut_amount(amount, cut_bp)) == amount,
{
}

/// One intended delivery, before the push-or-credit decision.
pub open spec fn payout(
    to: Address,
    token: EgldOrEsdtTokenIdentifier,
    nonce: u64,
    amount: int,
) -> Transfer {
    Transfer { to, token, nonce, amount: amount as u128 }
}

/// What a delivery adds to the claimable balance of a key: its amount when
/// the recipient is a contract account and the key is the recipient's,
/// nothing otherwise.
pub open spec fn transfer_contrib(
    d: Transfer,
    address: Address,
    token: EgldOrEsdtTokenIdentifier,
    nonce: u64,
) -> int {
    if d.to.is_contract && d.to == address && d.token == token && d.nonce == nonce {
        d.amount as int
    } else {
        0
    }
}

/// The direct push transfers a delivery asks of the host: the delivery
/// itself, unless it goes to a contract account or is empty.
pub open spec fn direct_seq(d: Transfer) -> Seq<Transfer> {
    if !d.to.is_contract && d.amount > 0 {
        seq![d]
    } else {
        Seq::<Transfer>::empty()
    }
}

/// The marketplace-cut delivery of a settlement.
pub open spec fn cut_payout(a: Auction, owner: Address) -> Transfer {
    payout(owner, a.payment_token, a.payment_nonce, bid_cut(a))
}

/// The creator-royalties delivery of a settlement.
pub open spec fn royalties_payout(a: Auction, creator: Address) -> Transfer {
    payout(creator, a.payment_token, a.payment_nonce, creator_royalties(a))
}

/// The seller's delivery of a settlement.
pub open spec fn seller_payout(a: Auction) -> Transfer {
    payout(a.original_owner, a.payment_token, a.payment_nonce, seller_proceeds(a))
}

/// An asset delivery: `amount` units of the auctioned token.
pub open spec fn asset_payout(a: Auction, to: Address, amount: int) -> Transfer {
    payout(
        to,
        EgldOrEsdtTokenIdentifier::Esdt(a.auctioned_tokens.token_identifier),
        a.auctioned_tokens.token_nonce,
        amount,
    )
}

/// How many units of the asset the winner receives: one for a unique NFT,
/// the purchased quantity for a unit-by-unit sale, everything otherwise.
pub open spec fn nft_payout_amount(a: Auction, opt_sft_amount: Option<u64>) -> int {
    match a.auction_type {
        AuctionType::SftOnePerPayment => match opt_sft_amount {
            Some(amt) => amt as int,
            None => NFT_AMOUNT as int,
        },
        AuctionType::Nft => NFT_AMOUNT as int,
        _ => a.auctioned_tokens.amount as int,
    }
}

/// The full effect of settling `a` on the claimable ledger and on the
/// requested transfers. With a winner: the marketplace cut goes to the
/// operator, royalties to the creator, the rest of the bid to the seller,
/// and the asset to the winner. With no winner: the asset returns to the
/// seller. Each delivery is pushed directly or credited on the ledger as
/// its recipient demands.
pub open spec fn end_distribution_effect(
    a: Auction,
    opt_sft_amount: Option<u64>,
    nft_info: EsdtTokenData,
    owner: Address,
    pre_claims: Seq<ClaimEntry>,
    post_claims: Seq<ClaimEntry>,
    pre_out: Seq<Transfer>,
    post_out: Seq<Transfer>,
) -> bool {
    if !a.current_winner.is_zero_spec() {
        let d1 = cut_payout(a, owner);
        let d2 = royalties_payout(a, nft_info.creator);
        let d3 = seller_payout(a);
        let d4 = asset_payout(a, a.current_winner, nft_payout_amount(a, opt_sft_amount));
        &&& post_out =~= pre_out + direct_seq(d1) + direct_seq(d2) + direct_seq(d3) + direct_seq(
            d4,
        )
        &&& (forall|ad: Address, t: EgldOrEsdtTokenIdentifier, n: u64|
            claimable_of(post_claims, ad, t, n) == claimable_of(pre_claims, ad, t, n)
                + transfer_contrib(d1, ad, t, n) + transfer_contrib(d2, ad, t, n)
                + transfer_contrib(d3, ad, t, n) + transfer_contrib(d4, ad, t, n))
    } else {
        let d = asset_payout(a, a.original_owner, a.auctioned_tokens.amount as int);
        &&& post_out =~= pre_out + direct_seq(d)
        &&& (forall|ad: Address, t: EgldOrEsdtTokenIdentifier, n: u64|
            claimable_of(post_claims, ad, t, n) == claimable_of(pre_claims, ad, t, n)
                + transfer_contrib(d, ad, t, n))
    }
}

/// With unique keys and headroom on every entry, no key's balance exceeds
/// the headroom bound.
pub proof fn lemma_claimable_headroom(
    entries: Seq<ClaimEntry>,
    address: Address,
    token: EgldOrEsdtTokenIdentifier,
    nonce: u64,
)
    requires
        entries_unique(entries),
        crate::storage::claim_headroom(entries),
    ensures
        0 <= claimable_of(entries, address, token, nonce) <= CLAIMABLE_HEADROOM,
{
    lemma_claimable_nonneg(entries, address, token, nonce);
    if exists|i: int|
        0 <= i < entries.len() && entry_matches(#[trigger] entries[i], address, token, nonce) {
        let i = choose|i: int|
            0 <= i < entries.len() && entry_matches(#[trigger] entries[i], address, token, nonce);
        lemma_claimable_unique(entries, i, address, token, nonce);
    } else {
        assert forall|j: int| 0 <= j < entries.len() implies !entry_matches(
            #[trigger] entries[j],
            address,
            token,
            nonce,
        ) by {}
        lemma_claimable_absent(entries, address, token, nonce);
    }
}

/// A claimable balance is never negative.
pub proof fn lemma_claimable_nonneg(
    entries: Seq<ClaimEntry>,
    address: Address,
    token: EgldOrEsdtTokenIdentifier,
    nonce: u64,
)
    ensures
        0 <= claimable_of(entries, address, token, nonce),
    decreases entries.len(),
{
    if entries.len() > 0 {
        lemma_claimable_nonneg(entries.drop_first(), address, token, nonce);
    }
}

/// The ledger with every entry of one key set to zero; nothing else moves.
pub open spec fn cleared_key(
    entries: Seq<ClaimEntry>,
    address: Address,
    token: EgldOrEsdtTokenIdentifier,
    nonce: u64,
) -> Seq<ClaimEntry> {
    entries.map_values(
        |e: ClaimEntry|
            if entry_matches(e, address, token, nonce) {
                ClaimEntry { amount: 0, ..e }
            } else {
                e
            },
    )
}

/// What one claim call does, pair by pair in order: each pair with a
/// positive balance is cleared; a native-currency balance joins the one
/// aggregated native payment, every other balance becomes one payment to
/// the destination. A pair with nothing claimable is a no-op, so a
/// duplicated pair pays only once. Returns the ledger afterwards, the
/// native total, and the token payments.
pub open spec fn claim_spec(
    entries: Seq<ClaimEntry>,
    caller: Address,
    dest: Address,
    pairs: Seq<(EgldOrEsdtTokenIdentifier, u64)>,
) -> (Seq<ClaimEntry>, int, Seq<Transfer>)
    decreases pairs.len(),
{
    if pairs.len() == 0 {
        (entries, 0, Seq::<Transfer>::empty())
    } else {
        let t = pairs.first().0;
        let n = pairs.first().1;
        let amt = claimable_of(entries, caller, t, n);
        let entries1 = if amt > 0 {
            cleared_key(entries, caller, t, n)
        } else {
            entries
        };
        let rest = claim_spec(entries1, caller, dest, pairs.drop_first());
        (
            rest.0,
            (if t.is_egld_spec() && amt > 0 {
                amt
            } else {
                0
            }) + rest.1,
            (if !t.is_egld_spec() && amt > 0 {
                seq![Transfer { to: dest, token: t, nonce: n, amount: amt as u128 }]
            } else {
                Seq::<Transfer>::empty()
            }) + rest.2,
        )
    }
}

/// With unique keys, no balance exceeds one entry's range.
pub proof fn lemma_claimable_fits(
    entries: Seq<ClaimEntry>,
    address: Address,
    token: EgldOrEsdtTokenIdentifier,
    nonce: u64,
)
    requires
        entries_unique(entries),
    ensures
        0 <= claimable_of(entries, address, token, nonce) <= u128::MAX,
{
    lemma_claimable_nonneg(entries, address, token, nonce);
    if exists|i: int|
        0 <= i < entries.len() && entry_matches(#[trigger] entries[i], address, token, nonce) {
        let i = choose|i: int|
            0 <= i < entries.len() && entry_matches(#[trigger] entries[i], address, token, nonce);
        lemma_claimable_unique(entries, i, address, token, nonce);
    } else {
        lemma_claimable_absent(entries, address, token, nonce);
    }
}

/// Clearing one key zeroes that key's balance and leaves every other
/// balance as it was.
pub proof fn lemma_cleared_key_claimable(
    entries: Seq<ClaimEntry>,
    address: Address,
    token: EgldOrEsdtTokenIdentifier,
    nonce: u64,
    a2: Address,
    t2: EgldOrEsdtTokenIdentifier,
    n2: u64,
)
    ensures
        claimable_of(cleared_key(entries, address, token, nonce), a2, t2, n2) == (if a2 == address
            && t2 == token && n2 == nonce {
            0
        } else {
            claimable_of(entries, a2, t2, n2)
        }),
    decreases entries.len(),
{
    if entries.len() > 0 {
        assert(cleared_key(entries, address, token, nonce).drop_first() =~= cleared_key(
            entries.drop_first(),
            address,
            token,
            nonce,
        ));
        lemma_cleared_key_claimable(
            entries.drop_first(),
            address,
            token,
            nonce,
            a2,
            t2,
            n2,
        );
    }
}

/// Claiming never raises any balance.
pub proof fn lemma_claim_spec_monotone(
    entries: Seq<ClaimEntry>,
    caller: Address,
    dest: Address,
    pairs: Seq<(EgldOrEsdtTokenIdentifier, u64)>,
    a2: Address,
    t2: EgldOrEsdtTokenIdentifier,
    n2: u64,
)
    ensures
        0 <= claimable_of(claim_spec(entries, caller, dest, pairs).0, a2, t2, n2)
            <= claimable_of(entries, a2, t2, n2),
    decreases pairs.len(),
{
    lemma_claimable_nonneg(entries, a2, t2, n2);
    if pairs.len() == 0 {
        lemma_claimable_nonneg(claim_spec(entries, caller, dest, pairs).0, a2, t2, n2);
    } else {
        let t = pairs.first().0;
        let n = pairs.first().1;
        let amt = claimable_of(entries, caller, t, n);
        let entries1 = if amt > 0 {
            cleared_key(entries, caller, t, n)
        } else {
            entries
        };
        lemma_cleared_key_claimable(entries, caller, t, n, a2, t2, n2);
        lemma_claim_spec_monotone(entries1, caller, dest, pairs.drop_first(), a2, t2, n2);
    }
}

/// Claiming clears every listed pair: after the call the caller's balance
/// at each listed (token, nonce) is zero.
pub proof fn lemma_claim_clears_listed(
    entries: Seq<ClaimEntry>,
    caller: Address,
    dest: Address,
    pairs: Seq<(EgldOrEsdtTokenIdentifier, u64)>,
    i: int,
)
    requires
        0 <= i < pairs.len(),
    ensures
        claimable_of(claim_spec(entries, caller, dest, pairs).0, caller, pairs[i].0, pairs[i].1)
            == 0,
    decreases pairs.len(),
{
    let t = pairs.first().0;
    let n = pairs.first().1;
    let amt = claimable_of(entries, caller, t, n);
    let entries1 = if amt > 0 {
        cleared_key(entries, caller, t, n)
    } else {
        entries
    };
    if i == 0 {
        lemma_cleared_key_claimable(entries, caller, t, n, caller, t, n);
        lemma_claim_spec_monotone(entries1, caller, dest, pairs.drop_first(), caller, t, n);
    } else {
        assert(pairs.drop_first()[i - 1] == pairs[i]);
        lemma_claim_clears_listed(entries1, caller, dest, pairs.drop_first(), i - 1);
    }
}

/// A claim of pairs with nothing claimable is a no-op: it moves no entry,
/// pays no native total and emits no payment.
pub proof fn lemma_claim_of_nothing(
    entries: Seq<ClaimEntry>,
    caller: Address,
    dest: Address,
    pairs: Seq<(EgldOrEsdtTokenIdentifier, u64)>,
)
    requires
        forall|i: int|
            0 <= i < pairs.len() ==> claimable_of(
                entries,
                caller,
                (#[trigger] pairs[i]).0,
                pairs[i].1,
            ) == 0,
    ensures
        claim_spec(entries, caller, dest, pairs).0 == entries,
        claim_spec(entries, caller, dest, pairs).1 == 0,
        claim_spec(entries, caller, dest, pairs).2 =~= Seq::<Transfer>::empty(),
    decreases pairs.len(),
{
    if pairs.len() > 0 {
        assert(claimable_of(entries, caller, pairs[0].0, pairs[0].1) == 0);
        assert forall|i: int|
            0 <= i < pairs.drop_first().len() implies claimable_of(
            entries,
            caller,
            (#[trigger] pairs.drop_first()[i]).0,
            pairs.drop_first()[i].1,
        ) == 0 by {
            assert(pairs.drop_first()[i] == pairs[i + 1]);
        }
        lemma_claim_of_nothing(entries, caller, dest, pairs.drop_first());
    }
}

/// The claim round trip: claiming clears what it pays, so claiming the
/// same pairs again finds nothing — the ledger stays put, the native total
/// is zero and no payment is emitted.
pub proof fn lemma_claim_round_trip(
    entries: Seq<ClaimEntry>,
    caller: Address,
    dest: Address,
    pairs: Seq<(EgldOrEsdtTokenIdentifier, u64)>,
)
    ensures
        claim_spec(claim_spec(entries, caller, dest, pairs).0, caller, dest, pairs).0
            == claim_spec(entries, caller, dest, pairs).0,
        claim_spec(claim_spec(entries, caller, dest, pairs).0, caller, dest, pairs).1 == 0,
        claim_spec(claim_spec(entries, caller, dest, pairs).0, caller, dest, pairs).2
            =~= Seq::<Transfer>::empty(),
{
    let once = claim_spec(entries, caller, dest, pairs).0;
    assert forall|i: int|
        0 <= i < pairs.len() implies claimable_of(
        once,
        caller,
        (#[trigger] pairs[i]).0,
        pairs[i].1,
    ) == 0 by {
        lemma_claim_clears_listed(entries, caller, dest, pairs, i);
    }
    lemma_claim_of_nothing(once, caller, dest, pairs);
}

/// One settlement conserves value: the marketplace, creator and seller
/// deliveries of a settled auction carry exactly the winning bid among
/// them, and each delivery lands in full either as a direct transfer or as
/// a claimable credit for its recipient.
pub proof fn lemma_settlement_conserves_value(a: Auction, owner: Address, creator: Address)
    requires
        a.wf(),
    ensures
        cut_payout(a, owner).amount + royalties_payout(a, creator).amount + seller_payout(
            a,
        ).amount == a.current_bid,
        forall|d: Transfer|
            (#[trigger] transfer_contrib(d, d.to, d.token, d.nonce)) + (if !d.to.is_contract {
                d.amount as int
            } else {
                0
            }) == d.amount as int,
{
    lemma_bid_split_total(
        a.current_bid as int,
        a.creator_royalties_percentage as int,
        a.marketplace_cut_percentage as int,
    );
}

/// The settlement engine, shared by auctions, unit sales and offers.
pub trait TokenDistributionModule: StorageModule {
    /// `total_amount * cut_percentage / 10000`, rounded down.
    fn calculate_cut_amount(&self, total_amount: u64, cut_percentage: u64) -> (r: u64)
        requires
            cut_percentage < PERCENTAGE_TOTAL,
        ensures
            r == cut_amount(total_amount as int, cut_percentage as int),
    ;

    /// Splits the auction's current bid into creator, marketplace and seller
    /// shares; the three always sum to the bid.
    fn calculate_winning_bid_split(&self, auction: &Auction) -> (r: BidSplitAmounts)
        requires
            auction.wf(),
        ensures
            r.creator == creator_royalties(*auction),
            r.marketplace == bid_cut(*auction),
            r.seller == seller_proceeds(*auction),
            r.creator + r.marketplace + r.seller == auction.current_bid,
    ;

    /// Delivers `amount` of a token to `to`: pushed onto `out` as a direct
    /// transfer for an ordinary account, credited on the claimable ledger
    /// for a contract account, and a no-op for an empty amount.
    fn transfer_or_save_payment(
        &mut self,
        to: Address,
        token_id: EgldOrEsdtTokenIdentifier,
        nonce: u64,
        amount: u64,
        out: &mut Vec<Transfer>,
    )
        requires
            old(self).wf(),
            token_id.is_egld_spec() ==> nonce == 0,
            to.is_contract ==> claimable_of(old(self).claim_entries(), to, token_id, nonce)
                + amount <= u128::MAX,
        ensures
            final(self).wf(),
            same_config(old(self), final(self)),
            final(self).auction_store() == old(self).auction_store(),
            final(self).offer_store() == old(self).offer_store(),
            forall|ad: Address, t: EgldOrEsdtTokenIdentifier, n: u64|
                claimable_of(final(self).claim_entries(), ad, t, n) == claimable_of(
                    old(self).claim_entries(),
                    ad,
                    t,
                    n,
                ) + transfer_contrib(payout(to, token_id, nonce, amount as int), ad, t, n),
            final(out)@ == old(out)@ + direct_seq(payout(to, token_id, nonce, amount as int)),
    ;

    /// Settles an ended auction or one purchased quantity: computes the
    /// split of the current bid and delivers every share and the asset, or
    /// returns the asset to the seller when there is no winner.
    fn distribute_tokens_after_auction_end(
        &mut self,
        auction: &Auction,
        opt_sft_amount: Option<u64>,
        nft_info: EsdtTokenData,
        out: &mut Vec<Transfer>,
    )
        requires
            old(self).wf(),
            auction.wf(),
            crate::storage::claim_headroom(old(self).claim_entries()),
        ensures
            final(self).wf(),
            same_config(old(self), final(self)),
            final(self).auction_store() == old(self).auction_store(),
            final(self).offer_store() == old(self).offer_store(),
            end_distribution_effect(
                *auction,
                opt_sft_amount,
                nft_info,
                old(self).sc_owner(),
                old(self).claim_entries(),
                final(self).claim_entries(),
                old(out)@,
                final(out)@,
            ),
    ;

    /// Clears the caller's claimable balances for the listed (token, nonce)
    /// pairs, in order, and pays them out to `claim_destination`: the
    /// native currency as one aggregated total, every other token as one
    /// payment each. A pair with nothing claimable is skipped, not an
    /// error; a duplicated pair pays only once.
    fn claim_tokens(
        &mut self,
        caller: Address,
        claim_destination: Address,
        token_nonce_pairs: Vec<(EgldOrEsdtTokenIdentifier, u64)>,
    ) -> (r: (u128, Vec<Transfer>))
        requires
            old(self).wf(),
        ensures
            final(self).wf(),
            same_config(old(self), final(self)),
            final(self).auction_store() == old(self).auction_store(),
            final(self).offer_store() == old(self).offer_store(),
            final(self).claim_entries() == claim_spec(
                old(self).claim_entries(),
                caller,
                claim_destination,
                token_nonce_pairs@,
            ).0,
            r.0 == claim_spec(
                old(self).claim_entries(),
                caller,
                claim_destination,
                token_nonce_pairs@,
            ).1,
            r.1@ == claim_spec(
                old(self).claim_entries(),
                caller,
                claim_destination,
                token_nonce_pairs@,
            ).2,
    ;
}

/// Reads and clears one claimable balance: returns the balance of the key
/// and zeroes its entry when it was positive.
fn take_claimable(
    m: &mut crate::storage::Marketplace,
    caller: Address,
    token: EgldOrEsdtTokenIdentifier,
    nonce: u64,
) -> (amt: u128)
    requires
        old(m).wf(),
    ensures
        final(m).wf(),
        same_config(old(m), final(m)),
        final(m).auction_store() == old(m).auction_store(),
        final(m).offer_store() == old(m).offer_store(),
        amt == claimable_of(old(m).claim_entries(), caller, token, nonce),
        final(m).claim_entries() == (if amt > 0 {
            cleared_key(old(m).claim_entries(), caller, token, nonce)
        } else {
            old(m).claim_entries()
        }),
{
    let n = m.claimable.len();
    let mut i: usize = 0;
    while i < n
        invariant
            *m == *old(m),
            old(m).wf(),
            n == m.claimable@.len(),
            0 <= i <= n,
            forall|j: int|
                0 <= j < i ==> !entry_matches(#[trigger] m.claimable@[j], caller, token, nonce),
        decreases n - i,
    {
        let e = m.claimable[i];
        if e.address == caller && e.token == token && e.nonce == nonce {
            proof {
                lemma_claimable_unique(m.claimable@, i as int, caller, token, nonce);
            }
            if e.amount > 0 {
                let cleared = ClaimEntry { amount: 0, ..e };
                m.claimable[i] = cleared;
                proof {
                    let pre = old(m).claim_entries();
                    assert forall|j: int|
                        0 <= j < m.claimable@.len() implies m.claimable@[j] == cleared_key(
                        pre,
                        caller,
                        token,
                        nonce,
                    )[j] by {
                        if j != i {
                            assert(!entry_matches(pre[j], caller, token, nonce));
                        }
                    }
                    assert(m.claim_entries() =~= cleared_key(pre, caller, token, nonce));
                    assert(entries_unique(m.claimable@)) by {
                        assert forall|p: int, q: int|
                            0 <= p < q < m.claimable@.len() implies !entry_matches(
                            #[trigger] m.claimable@[p],
                            (#[trigger] m.claimable@[q]).address,
                            m.claimable@[q].token,
                            m.claimable@[q].nonce,
                        ) by {
                            assert(m.claimable@[p].address == pre[p].address
                                && m.claimable@[p].token == pre[p].token && m.claimable@[p].nonce
                                == pre[p].nonce);
                            assert(m.claimable@[q].address == pre[q].address
                                && m.claimable@[q].token == pre[q].token && m.claimable@[q].nonce
                                == pre[q].nonce);
                        }
                    }
                }
            }
            return e.amount;
        }
        i = i + 1;
    }
    proof {
        lemma_claimable_absent(m.claimable@, caller, token, nonce);
    }
    0
}

impl TokenDistributionModule for crate::storage::Marketplace {
    fn calculate_cut_amount(&self, total_amount: u64, cut_percentage: u64) -> u64 {
        proof {
            lemma_cut_amount_bounds(total_amount as int, cut_percentage as int);
            vstd::arithmetic::mul::lemma_mul_upper_bound(
                total_amount as int,
                u64::MAX as int,
                cut_percentage as int,
                PERCENTAGE_TOTAL as int,
            );
        }
        ((total_amount as u128) * (cut_percentage as u128) / (PERCENTAGE_TOTAL as u128)) as u64
    }

    fn calculate_winning_bid_split(&self, auction: &Auction) -> BidSplitAmounts {
        let creator_amt = self.calculate_cut_amount(
            auction.current_bid,
            auction.creator_royalties_percentage,
        );
        let marketplace_amt = self.calculate_cut_amount(
            auction.current_bid,
            auction.marketplace_cut_percentage,
        );
        proof {
            lemma_bid_split_total(
                auction.current_bid as int,
                auction.creator_royalties_percentage as int,
                auction.marketplace_cut_percentage as int,
            );
        }
        let seller_amt = auction.current_bid - creator_amt - marketplace_amt;
        BidSplitAmounts { creator: creator_amt, marketplace: marketplace_amt, seller: seller_amt }
    }

    fn transfer_or_save_payment(
        &mut self,
        to: Address,
        token_id: EgldOrEsdtTokenIdentifier,
        nonce: u64,
        amount: u64,
        out: &mut Vec<Transfer>,
    ) {
        if amount == 0 {
            return ;
        }
        if to.is_contract {
            let n = self.claimable.len();
            let mut i: usize = 0;
            while i < n
                invariant
                    *self == *old(self),
                    *out == *old(out),
                    old(self).wf(),
                    to.is_contract,
                    amount > 0,
                    claimable_of(old(self).claimable@, to, token_id, nonce) + amount
                        <= u128::MAX,
                    n == self.claimable@.len(),
                    0 <= i <= n,
                    forall|j: int|
                        0 <= j < i ==> !entry_matches(
                            #[trigger] self.claimable@[j],
                            to,
                            token_id,
                            nonce,
                        ),
                decreases n - i,
            {
                let e = self.claimable[i];
                if e.address == to && e.token == token_id && e.nonce == nonce {
                    proof {
                        lemma_claimable_unique(self.claimable@, i as int, to, token_id, nonce);
                    }
                    let updated = ClaimEntry { amount: e.amount + amount as u128, ..e };
                    self.claimable[i] = updated;
                    proof {
                        let pre = old(self).claimable@;
                        assert forall|ad: Address, t: EgldOrEsdtTokenIdentifier, n2: u64|
                            claimable_of(self.claimable@, ad, t, n2) == claimable_of(
                            pre,
                            ad,
                            t,
                            n2,
                        ) + transfer_contrib(payout(to, token_id, nonce, amount as int), ad, t, n2)
                        by {
                            lemma_claimable_update(pre, i as int, updated, ad, t, n2);
                        }
                        assert(final(out)@ =~= old(out)@ + direct_seq(
                            payout(to, token_id, nonce, amount as int),
                        ));
                    }
                    return ;
                }
                i = i + 1;
            }
            let entry = ClaimEntry { address: to, token: token_id, nonce, amount: amount as u128 };
            self.claimable.push(entry);
            proof {
                let pre = old(self).claimable@;
                assert forall|ad: Address, t: EgldOrEsdtTokenIdentifier, n2: u64|
                    claimable_of(self.claimable@, ad, t, n2) == claimable_of(pre, ad, t, n2)
                        + transfer_contrib(payout(to, token_id, nonce, amount as int), ad, t, n2)
                by {
                    lemma_claimable_push(pre, entry, ad, t, n2);
                }
                assert(entries_unique(self.claimable@)) by {
                    assert forall|p: int, q: int|
                        0 <= p < q < self.claimable@.len() implies !entry_matches(
                        #[trigger] self.claimable@[p],
                        (#[trigger] self.claimable@[q]).address,
                        self.claimable@[q].token,
                        self.claimable@[q].nonce,
                    ) by {
                        if q == pre.len() {
                            assert(self.claimable@[p] == pre[p]);
                        } else {
                            assert(self.claimable@[p] == pre[p]);
                            assert(self.claimable@[q] == pre[q]);
                        }
                    }
                }
                assert(entries_egld_at_nonce_zero(self.claimable@)) by {
                    assert forall|j: int|
                        0 <= j < self.claimable@.len() && (
                        #[trigger] self.claimable@[j]).token.is_egld_spec()
                        implies self.claimable@[j].nonce == 0 by {
                        if j < pre.len() {
                            assert(self.claimable@[j] == pre[j]);
                        }
                    }
                }
                assert(final(out)@ =~= old(out)@ + direct_seq(
                    payout(to, token_id, nonce, amount as int),
                ));
            }
        } else {
            let t = Transfer { to, token: token_id, nonce, amount: amount as u128 };
            out.push(t);
            proof {
                assert(final(out)@ =~= old(out)@ + direct_seq(
                    payout(to, token_id, nonce, amount as int),
                ));
            }
        }
    }

    fn distribute_tokens_after_auction_end(
        &mut self,
        auction: &Auction,
        opt_sft_amount: Option<u64>,
        nft_info: EsdtTokenData,
        out: &mut Vec<Transfer>,
    ) {
        let ghost pre_claims = self.claim_entries();
        let ghost pre_out = out@;
        if !auction.current_winner.is_zero() {
            let bid_split_amounts = self.calculate_winning_bid_split(auction);
            let owner = self.owner;
            let ghost d1 = cut_payout(*auction, owner);
            let ghost d2 = royalties_payout(*auction, nft_info.creator);
            let ghost d3 = seller_payout(*auction);
            proof {
                lemma_claimable_headroom(pre_claims, owner, auction.payment_token,
                    auction.payment_nonce);
            }
            self.transfer_or_save_payment(
                owner,
                auction.payment_token,
                auction.payment_nonce,
                bid_split_amounts.marketplace,
                out,
            );
            let ghost claims1 = self.claim_entries();
            proof {
                lemma_claimable_headroom(pre_claims, nft_info.creator, auction.payment_token,
                    auction.payment_nonce);
            }
            self.transfer_or_save_payment(
                nft_info.creator,
                auction.payment_token,
                auction.payment_nonce,
                bid_split_amounts.creator,
                out,
            );
            let ghost claims2 = self.claim_entries();
            proof {
                lemma_claimable_headroom(pre_claims, auction.original_owner,
                    auction.payment_token, auction.payment_nonce);
            }
            self.transfer_or_save_payment(
                auction.original_owner,
                auction.payment_token,
                auction.payment_nonce,
                bid_split_amounts.seller,
                out,
            );
            let ghost claims3 = self.claim_entries();
            let nft_amount_to_send: u64 = match auction.auction_type {
                AuctionType::SftOnePerPayment => match opt_sft_amount {
                    Some(amt) => amt,
                    None => NFT_AMOUNT,
                },
                AuctionType::Nft => NFT_AMOUNT,
                _ => auction.auctioned_tokens.amount,
            };
            let ghost d4 = asset_payout(
                *auction,
                auction.current_winner,
                nft_payout_amount(*auction, opt_sft_amount),
            );
            proof {
                lemma_claimable_headroom(
                    pre_claims,
                    auction.current_winner,
                    EgldOrEsdtTokenIdentifier::Esdt(auction.auctioned_tokens.token_identifier),
                    auction.auctioned_tokens.token_nonce,
                );
            }
            self.transfer_or_save_payment(
                auction.current_winner,
                EgldOrEsdtTokenIdentifier::Esdt(auction.auctioned_tokens.token_identifier),
                auction.auctioned_tokens.token_nonce,
                nft_amount_to_send,
                out,
            );
            proof {
                assert(out@ =~= pre_out + direct_seq(d1) + direct_seq(d2) + direct_seq(d3)
                    + direct_seq(d4));
                assert forall|ad: Address, t: EgldOrEsdtTokenIdentifier, n: u64|
                    claimable_of(self.claim_entries(), ad, t, n) == claimable_of(pre_claims, ad, t, n)
                        + transfer_contrib(d1, ad, t, n) + transfer_contrib(d2, ad, t, n)
                        + transfer_contrib(d3, ad, t, n) + transfer_contrib(d4, ad, t, n) by {
                    assert(d1 == payout(
                        owner,
                        auction.payment_token,
                        auction.payment_nonce,
                        bid_split_amounts.marketplace as int,
                    ));
                    assert(d2 == payout(
                        nft_info.creator,
                        auction.payment_token,
                        auction.payment_nonce,
                        bid_split_amounts.creator as int,
                    ));
                    assert(d3 == payout(
                        auction.original_owner,
                        auction.payment_token,
                        auction.payment_nonce,
                        bid_split_amounts.seller as int,
                    ));
                    assert(d4 == payout(
                        auction.current_winner,
                        EgldOrEsdtTokenIdentifier::Esdt(auction.auctioned_tokens.token_identifier),
                        auction.auctioned_tokens.token_nonce,
                        nft_amount_to_send as int,
                    ));
                    assert(claimable_of(claims1, ad, t, n) == claimable_of(pre_claims, ad, t, n)
                        + transfer_contrib(d1, ad, t, n));
                    assert(claimable_of(claims2, ad, t, n) == claimable_of(claims1, ad, t, n)
                        + transfer_contrib(d2, ad, t, n));
                    assert(claimable_of(claims3, ad, t, n) == claimable_of(claims2, ad, t, n)
                        + transfer_contrib(d3, ad, t, n));
                    assert(claimable_of(self.claim_entries(), ad, t, n) == claimable_of(
                        claims3,
                        ad,
                        t,
                        n,
                    ) + transfer_contrib(d4, ad, t, n));
                }
            }
        } else {
            let ghost d = asset_payout(
                *auction,
                auction.original_owner,
                auction.auctioned_tokens.amount as int,
            );
            proof {
                lemma_claimable_headroom(
                    pre_claims,
                    auction.original_owner,
                    EgldOrEsdtTokenIdentifier::Esdt(auction.auctioned_tokens.token_identifier),
                    auction.auctioned_tokens.token_nonce,
                );
            }
            self.transfer_or_save_payment(
                auction.original_owner,
                EgldOrEsdtTokenIdentifier::Esdt(auction.auctioned_tokens.token_identifier),
                auction.auctioned_tokens.token_nonce,
                auction.auctioned_tokens.amount,
                out,
            );
        }
    }

    fn claim_tokens(
        &mut self,
        caller: Address,
        claim_destination: Address,
        token_nonce_pairs: Vec<(EgldOrEsdtTokenIdentifier, u64)>,
    ) -> (u128, Vec<Transfer>) {
        let ghost e0 = self.claim_entries();
        let ghost pairs = token_nonce_pairs@;
        let mut egld_payment_amount: u128 = 0;
        let mut output_payments: Vec<Transfer> = Vec::new();
        let n = token_nonce_pairs.len();
        let mut i: usize = 0;
        proof {
            assert(pairs.skip(0) =~= pairs);
            lemma_claimable_fits(e0, caller, EgldOrEsdtTokenIdentifier::Egld, 0);
        }
        while i < n
            invariant
                old(self).wf(),
                self.wf(),
                e0 == old(self).claim_entries(),
                pairs == token_nonce_pairs@,
                same_config(old(self), self),
                self.auction_store() == old(self).auction_store(),
                self.offer_store() == old(self).offer_store(),
                n == pairs.len(),
                0 <= i <= n,
                claim_spec(e0, caller, claim_destination, pairs).0 == claim_spec(
                    self.claim_entries(),
                    caller,
                    claim_destination,
                    pairs.skip(i as int),
                ).0,
                claim_spec(e0, caller, claim_destination, pairs).1 == egld_payment_amount
                    + claim_spec(
                    self.claim_entries(),
                    caller,
                    claim_destination,
                    pairs.skip(i as int),
                ).1,
                claim_spec(e0, caller, claim_destination, pairs).2 =~= output_payments@
                    + claim_spec(
                    self.claim_entries(),
                    caller,
                    claim_destination,
                    pairs.skip(i as int),
                ).2,
                egld_payment_amount + claimable_of(
                    self.claim_entries(),
                    caller,
                    EgldOrEsdtTokenIdentifier::Egld,
                    0,
                ) <= u128::MAX,
            decreases n - i,
        {
            let ghost pre_step = self.claim_entries();
            let (token_id, token_nonce) = token_nonce_pairs[i];
            proof {
                assert(pairs.skip(i as int).first() == pairs[i as int]);
                assert(pairs.skip(i as int).drop_first() =~= pairs.skip(i as int + 1));
                lemma_claimable_fits(pre_step, caller, token_id, token_nonce);
            }
            let amount = take_claimable(self, caller, token_id, token_nonce);
            if amount > 0 {
                if token_id.is_egld() {
                    proof {
                        if token_nonce != 0 {
                            lemma_claimable_absent(pre_step, caller, token_id, token_nonce);
                        }
                        lemma_cleared_key_claimable(
                            pre_step,
                            caller,
                            token_id,
                            token_nonce,
                            caller,
                            EgldOrEsdtTokenIdentifier::Egld,
                            0,
                        );
                    }
                    egld_payment_amount = egld_payment_amount + amount;
                } else {
                    let payment = Transfer {
                        to: claim_destination,
                        token: token_id,
                        nonce: token_nonce,
                        amount,
                    };
                    output_payments.push(payment);
                    proof {
                        lemma_cleared_key_claimable(
                            pre_step,
                            caller,
                            token_id,
                            token_nonce,
                            caller,
                            EgldOrEsdtTokenIdentifier::Egld,
                            0,
                        );
                        lemma_claimable_nonneg(
                            self.claim_entries(),
                            caller,
                            EgldOrEsdtTokenIdentifier::Egld,
                            0,
                        );
                    }
                }
            }
            i = i + 1;
        }
        proof {
            assert(pairs.skip(n as int) =~= Seq::<(EgldOrEsdtTokenIdentifier, u64)>::empty());
            assert(claim_spec(e0, caller, claim_destination, pairs).0 == self.claim_entries());
            assert(claim_spec(e0, caller, claim_destination, pairs).1 == egld_payment_amount);
            assert(claim_spec(e0, caller, claim_destination, pairs).2 =~= output_payments@);
        }
        (egld_payment_amount, output_payments)
    }
}

} // verus!
