//! Persisted state: the auction and offer stores, the claimable-balance
//! ledger, the marketplace configuration, and the `StorageModule` trait
//! through which every other module reads and describes that state.
//!
//! Records are stored in id order: auction id `i` lives at slot `i - 1`, and
//! a deleted record leaves `None` behind, so ids are never reused. The
//! claimable ledger holds one entry per (address, token, nonce) key.

use vstd::prelude::*;

use crate::auction_model::Auction;
use crate::offer_model::Offer;
use crate::types::Address;
use crate::types::EgldOrEsdtTokenIdentifier;

verus! {

/// Headroom demanded of every claimable balance before an operation that
/// credits the ledger: one operation credits a key at most eight times,
/// each by less than 2^64, so balances at or below this bound cannot
/// overflow their `u128` during the operation.
pub const CLAIMABLE_HEADROOM: u128 = u128::MAX - 0x8_0000_0000_0000_0000;

/// One claimable balance: what `address` may later claim in `token`/`nonce`.
#[derive(Clone, Copy, PartialEq, Eq, Structural, Debug)]
pub struct ClaimEntry {
    pub address: Address,
    pub token: EgldOrEsdtTokenIdentifier,
    pub nonce: u64,
    pub amount: u128,
}

/// Whether `entry` is the balance of the (address, token, nonce) key.
pub open spec fn entry_matches(
    entry: ClaimEntry,
    address: Address,
    token: EgldOrEsdtTokenIdentifier,
    nonce: u64,
) -> bool {
    entry.address == address && entry.token == token && entry.nonce == nonce
}

/// What one entry contributes to the balance of a key.
pub open spec fn entry_contrib(
    entry: ClaimEntry,
    address: Address,
    token: EgldOrEsdtTokenIdentifier,
    nonce: u64,
) -> int {
    if entry_matches(entry, address, token, nonce) {
        entry.amount as int
    } else {
        0
    }
}

/// The claimable balance of a key: the sum of every matching entry. With the
/// well-formedness invariant (keys unique) this is the one matching entry's
/// amount, or zero.
pub open spec fn claimable_of(
    entries: Seq<ClaimEntry>,
    address: Address,
    token: EgldOrEsdtTokenIdentifier,
    nonce: u64,
) -> int
    decreases entries.len(),
{
    if entries.len() == 0 {
        0
    } else {
        entry_contrib(entries.first(), address, token, nonce) + claimable_of(
            entries.drop_first(),
            address,
            token,
            nonce,
        )
    }
}

/// Every balance leaves the headroom that one more operation needs.
pub open spec fn claim_headroom(entries: Seq<ClaimEntry>) -> bool {
    forall|i: int|
        0 <= i < entries.len() ==> (#[trigger] entries[i]).amount <= CLAIMABLE_HEADROOM
}

/// No two entries share a key.
pub open spec fn entries_unique(entries: Seq<ClaimEntry>) -> bool {
    forall|i: int, j: int|
        0 <= i < j < entries.len() ==> !entry_matches(
            #[trigger] entries[i],
            (#[trigger] entries[j]).address,
            entries[j].token,
            entries[j].nonce,
        )
}

/// Every native-currency balance sits at nonce 0: nothing ever credits the
/// native currency at another nonce, and the claim operation's aggregation
/// of the native total relies on it.
pub open spec fn entries_egld_at_nonce_zero(entries: Seq<ClaimEntry>) -> bool {
    forall|i: int|
        0 <= i < entries.len() ==> ((#[trigger] entries[i]).token.is_egld_spec()
            ==> entries[i].nonce == 0)
}

/// The record with a given id in an id-ordered store, if it is live.
pub open spec fn record_of<T>(records: Seq<Option<T>>, id: u64) -> Option<T> {
    if 1 <= id && id <= records.len() {
        records[id - 1]
    } else {
        None
    }
}

/// The whole persisted state of one marketplace.
#[derive(Debug)]
pub struct Marketplace {
    pub owner: Address,
    pub bid_cut_percentage: u64,
    pub auctions: Vec<Option<Auction>>,
    pub offers: Vec<Option<Offer>>,
    pub claimable: Vec<ClaimEntry>,
    pub whitelisted_tokens: Vec<EgldOrEsdtTokenIdentifier>,
}

/// Read access to the persisted state. The spec functions are the model that
/// every module's contract speaks of; the executable functions are the plain
/// stored-value queries.
pub trait StorageModule: Sized {
    /// The marketplace operator's address.
    spec fn sc_owner(&self) -> Address;

    /// The marketplace cut in basis points, applied to listings made now.
    spec fn cut(&self) -> u64;

    /// All auction slots, in id order; slot `i` holds id `i + 1`.
    spec fn auction_store(&self) -> Seq<Option<Auction>>;

    /// All offer slots, in id order; slot `i` holds id `i + 1`.
    spec fn offer_store(&self) -> Seq<Option<Offer>>;

    /// The claimable-balance ledger.
    spec fn claim_entries(&self) -> Seq<ClaimEntry>;

    /// The payment-token whitelist, in insertion order.
    spec fn whitelist(&self) -> Seq<EgldOrEsdtTokenIdentifier>;

    /// The state invariant: a valid configuration, well-formed records, and
    /// a claimable ledger with one bounded entry per key.
    spec fn wf(&self) -> bool;

    fn bid_cut_percentage(&self) -> (r: u64)
        ensures
            r == self.cut(),
    ;

    fn last_valid_auction_id(&self) -> (r: u64)
        ensures
            r == self.auction_store().len(),
    ;

    fn last_valid_offer_id(&self) -> (r: u64)
        ensures
            r == self.offer_store().len(),
    ;

    fn auction_by_id(&self, auction_id: u64) -> (r: Option<Auction>)
        ensures
            r == record_of(self.auction_store(), auction_id),
    ;

    fn offer_by_id(&self, offer_id: u64) -> (r: Option<Offer>)
        ensures
            r == record_of(self.offer_store(), offer_id),
    ;

    fn claimable_amount(
        &self,
        address: Address,
        token: EgldOrEsdtTokenIdentifier,
        token_nonce: u64,
    ) -> (r: u128)
        requires
            self.wf(),
        ensures
            r == claimable_of(self.claim_entries(), address, token, token_nonce),
    ;
}

impl StorageModule for Marketplace {
    open spec fn sc_owner(&self) -> Address {
        self.owner
    }

    open spec fn cut(&self) -> u64 {
        self.bid_cut_percentage
    }

    open spec fn auction_store(&self) -> Seq<Option<Auction>> {
        self.auctions@
    }

    open spec fn offer_store(&self) -> Seq<Option<Offer>> {
        self.offers@
    }

    open spec fn claim_entries(&self) -> Seq<ClaimEntry> {
        self.claimable@
    }

    open spec fn whitelist(&self) -> Seq<EgldOrEsdtTokenIdentifier> {
        self.whitelisted_tokens@
    }

    open spec fn wf(&self) -> bool {
        &&& !self.owner.is_zero_spec()
        &&& 0 < self.bid_cut_percentage < crate::auction_model::PERCENTAGE_TOTAL
        &&& (forall|i: int|
            0 <= i < self.auctions@.len() ==> ((#[trigger] self.auctions@[i]) matches Some(a)
                ==> a.wf()))
        &&& (forall|i: int|
            0 <= i < self.offers@.len() ==> ((#[trigger] self.offers@[i]) matches Some(o)
                ==> o.wf()))
        &&& entries_unique(self.claimable@)
        &&& entries_egld_at_nonce_zero(self.claimable@)
    }

    fn bid_cut_percentage(&self) -> u64 {
        self.bid_cut_percentage
    }

    fn last_valid_auction_id(&self) -> u64 {
        self.auctions.len() as u64
    }

    fn last_valid_offer_id(&self) -> u64 {
        self.offers.len() as u64
    }

    fn auction_by_id(&self, auction_id: u64) -> Option<Auction> {
        if 1 <= auction_id && auction_id <= self.auctions.len() as u64 {
            self.auctions[(auction_id - 1) as usize]
        } else {
            None
        }
    }

    fn offer_by_id(&self, offer_id: u64) -> Option<Offer> {
        if 1 <= offer_id && offer_id <= self.offers.len() as u64 {
            self.offers[(offer_id - 1) as usize]
        } else {
            None
        }
    }

    fn claimable_amount(
        &self,
        address: Address,
        token: EgldOrEsdtTokenIdentifier,
        token_nonce: u64,
    ) -> u128 {
        let n = self.claimable.len();
        let mut i: usize = 0;
        while i < n
            invariant
                n == self.claimable@.len(),
                0 <= i <= n,
                self.wf(),
                forall|j: int|
                    0 <= j < i ==> !entry_matches(
                        #[trigger] self.claimable@[j],
                        address,
                        token,
                        token_nonce,
                    ),
            decreases n - i,
        {
            let e = self.claimable[i];
            if e.address == address && e.token == token && e.nonce == token_nonce {
                proof {
                    lemma_claimable_unique(self.claimable@, i as int, address, token, token_nonce);
                }
                return e.amount;
            }
            i = i + 1;
        }
        proof {
            lemma_claimable_absent(self.claimable@, address, token, token_nonce);
        }
        0
    }
}

/// The operator's identity, the cut and the whitelist are untouched.
pub open spec fn same_config<S: StorageModule>(pre: &S, post: &S) -> bool {
    &&& post.sc_owner() == pre.sc_owner()
    &&& post.cut() == pre.cut()
    &&& post.whitelist() == pre.whitelist()
}

/// Everything but the whitelist is untouched.
pub open spec fn same_config_but_whitelist<S: StorageModule>(pre: &S, post: &S) -> bool {
    &&& post.sc_owner() == pre.sc_owner()
    &&& post.cut() == pre.cut()
    &&& post.auction_store() == pre.auction_store()
    &&& post.offer_store() == pre.offer_store()
    &&& post.claim_entries() == pre.claim_entries()
}

/// Appending an entry adds exactly its contribution to every key.
pub proof fn lemma_claimable_push(
    entries: Seq<ClaimEntry>,
    entry: ClaimEntry,
    address: Address,
    token: EgldOrEsdtTokenIdentifier,
    nonce: u64,
)
    ensures
        claimable_of(entries.push(entry), address, token, nonce) == claimable_of(
            entries,
            address,
            token,
            nonce,
        ) + entry_contrib(entry, address, token, nonce),
    decreases entries.len(),
{
    if entries.len() == 0 {
        assert(entries.push(entry).drop_first() =~= Seq::<ClaimEntry>::empty());
        assert(entries.push(entry).first() == entry);
        assert(claimable_of(Seq::<ClaimEntry>::empty(), address, token, nonce) == 0);
    } else {
        assert(entries.push(entry).drop_first() =~= entries.drop_first().push(entry));
        assert(entries.push(entry).first() == entries.first());
        lemma_claimable_push(entries.drop_first(), entry, address, token, nonce);
    }
}

/// Replacing entry `i` swaps its contribution for the new one, at every key.
pub proof fn lemma_claimable_update(
    entries: Seq<ClaimEntry>,
    i: int,
    entry: ClaimEntry,
    address: Address,
    token: EgldOrEsdtTokenIdentifier,
    nonce: u64,
)
    requires
        0 <= i < entries.len(),
    ensures
        claimable_of(entries.update(i, entry), address, token, nonce) == claimable_of(
            entries,
            address,
            token,
            nonce,
        ) - entry_contrib(entries[i], address, token, nonce) + entry_contrib(
            entry,
            address,
            token,
            nonce,
        ),
    decreases entries.len(),
{
    if i == 0 {
        assert(entries.update(0, entry).drop_first() =~= entries.drop_first());
        assert(entries.update(0, entry).first() == entry);
    } else {
        assert(entries.update(i, entry).drop_first() =~= entries.drop_first().update(
            i - 1,
            entry,
        ));
        assert(entries.update(i, entry).first() == entries.first());
        assert(entries.drop_first()[i - 1] == entries[i]);
        lemma_claimable_update(entries.drop_first(), i - 1, entry, address, token, nonce);
    }
}

/// A key matched by no entry has claimable balance zero.
pub proof fn lemma_claimable_absent(
    entries: Seq<ClaimEntry>,
    address: Address,
    token: EgldOrEsdtTokenIdentifier,
    nonce: u64,
)
    requires
        forall|j: int| 0 <= j < entries.len() ==> !entry_matches(
            #[trigger] entries[j],
            address,
            token,
            nonce,
        ),
    ensures
        claimable_of(entries, address, token, nonce) == 0,
    decreases entries.len(),
{
    if entries.len() > 0 {
        assert(entries.drop_first() =~= entries.subrange(1, entries.len() as int));
        lemma_claimable_absent(entries.drop_first(), address, token, nonce);
    }
}

/// With unique keys, the balance of a key held by entry `i` is exactly that
/// entry's amount.
pub proof fn lemma_claimable_unique(
    entries: Seq<ClaimEntry>,
    i: int,
    address: Address,
    token: EgldOrEsdtTokenIdentifier,
    nonce: u64,
)
    requires
        entries_unique(entries),
        0 <= i < entries.len(),
        entry_matches(entries[i], address, token, nonce),
    ensures
        claimable_of(entries, address, token, nonce) == entries[i].amount,
    decreases entries.len(),
{
    if i == 0 {
        assert forall|j: int| 0 <= j < entries.drop_first().len() implies !entry_matches(
            #[trigger] entries.drop_first()[j],
            address,
            token,
            nonce,
        ) by {
            assert(entries.drop_first()[j] == entries[j + 1]);
        }
        lemma_claimable_absent(entries.drop_first(), address, token, nonce);
    } else {
        assert(entries.drop_first()[i - 1] == entries[i]);
        assert(entries_unique(entries.drop_first())) by {
            assert forall|p: int, q: int|
                0 <= p < q < entries.drop_first().len() implies !entry_matches(
                #[trigger] entries.drop_first()[p],
                (#[trigger] entries.drop_first()[q]).address,
                entries.drop_first()[q].token,
                entries.drop_first()[q].nonce,
            ) by {
                assert(entries.drop_first()[p] == entries[p + 1]);
                assert(entries.drop_first()[q] == entries[q + 1]);
            }
        }
        lemma_claimable_unique(entries.drop_first(), i - 1, address, token, nonce);
        assert(!entry_matches(entries[0], address, token, nonce));
    }
}

} // verus!
