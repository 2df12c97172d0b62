//! A model of the collaborator contract used to exercise pull payments: a
//! contract account cannot receive push transfers, so the marketplace
//! credits it on the claimable ledger, and this contract later pulls one
//! of its own balances out, delivered to whoever asked it to.

use vstd::prelude::*;

use crate::storage::claimable_of;
use crate::storage::same_config;
use crate::storage::Marketplace;
use crate::storage::StorageModule;
use crate::token_distribution::claim_spec;
use crate::token_distribution::TokenDistributionModule;
use crate::types::Address;
use crate::types::EgldOrEsdtTokenIdentifier;
use crate::types::Transfer;

verus! {

/// The pull-payment collaborator: it claims its own claimable balance for
/// one (token, nonce) pair from the marketplace and has it delivered to
/// its caller.
pub trait Adder: Sized {
    /// The contract account this collaborator runs as.
    spec fn sc_address(&self) -> Address;

    fn init(address: Address) -> (r: Self)
        ensures
            r.sc_address() == address,
    ;

    /// Claims this contract's balance for the pair and delivers it to
    /// `caller`: the marketplace clears the balance and reports the native
    /// total and token payments owed.
    fn claim(
        &self,
        marketplace: &mut Marketplace,
        token_id: EgldOrEsdtTokenIdentifier,
        token_nonce: u64,
        caller: Address,
    ) -> (r: (u128, Vec<Transfer>))
        requires
            old(marketplace).wf(),
        ensures
            final(marketplace).wf(),
            same_config(old(marketplace), final(marketplace)),
            final(marketplace).auction_store() == old(marketplace).auction_store(),
            final(marketplace).offer_store() == old(marketplace).offer_store(),
            claimable_of(
                final(marketplace).claim_entries(),
                self.sc_address(),
                token_id,
                token_nonce,
            ) == 0,
            final(marketplace).claim_entries() == claim_spec(
                old(marketplace).claim_entries(),
                self.sc_address(),
                caller,
                seq![(token_id, token_nonce)],
            ).0,
            r.0 == claim_spec(
                old(marketplace).claim_entries(),
                self.sc_address(),
                caller,
                seq![(token_id, token_nonce)],
            ).1,
            r.1@ == claim_spec(
                old(marketplace).claim_entries(),
                self.sc_address(),
                caller,
                seq![(token_id, token_nonce)],
            ).2,
    ;
}

/// The one account this crate gives the collaborator.
pub struct SellerContractMock {
    pub address: Address,
}

impl Adder for SellerContractMock {
    open spec fn sc_address(&self) -> Address {
        self.address
    }

    fn init(address: Address) -> Self {
        SellerContractMock { address }
    }

    fn claim(
        &self,
        marketplace: &mut Marketplace,
        token_id: EgldOrEsdtTokenIdentifier,
        token_nonce: u64,
        caller: Address,
    ) -> (u128, Vec<Transfer>) {
        let mut token_nonce_pairs: Vec<(EgldOrEsdtTokenIdentifier, u64)> = Vec::new();
        token_nonce_pairs.push((token_id, token_nonce));
        proof {
            assert(token_nonce_pairs@ =~= seq![(token_id, token_nonce)]);
        }
        let r = marketplace.claim_tokens(self.address, caller, token_nonce_pairs);
        proof {
            crate::token_distribution::lemma_claim_clears_listed(
                old(marketplace).claim_entries(),
                self.address,
                caller,
                seq![(token_id, token_nonce)],
                0,
            );
        }
        r
    }
}

} // verus!
