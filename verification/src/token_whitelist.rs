//! The payment-token whitelist: operator-managed, and consulted only while
//! it is non-empty (an empty whitelist admits every token).

use vstd::prelude::*;

use crate::storage::same_config_but_whitelist;
use crate::storage::StorageModule;
use crate::types::Address;
use crate::types::EgldOrEsdtTokenIdentifier;
use crate::types::MarketplaceError;

verus! {

/// Keeps a token exactly when the removal batch does not name it.
pub open spec fn not_removed(
    removals: Seq<EgldOrEsdtTokenIdentifier>,
) -> spec_fn(EgldOrEsdtTokenIdentifier) -> bool {
    |t: EgldOrEsdtTokenIdentifier| !removals.contains(t)
}

/// The whitelist after adding a batch, in order: each token joins the end
/// unless it is already present.
pub open spec fn whitelist_after_add(
    whitelist: Seq<EgldOrEsdtTokenIdentifier>,
    tokens: Seq<EgldOrEsdtTokenIdentifier>,
) -> Seq<EgldOrEsdtTokenIdentifier>
    decreases tokens.len(),
{
    if tokens.len() == 0 {
        whitelist
    } else {
        whitelist_after_add(
            if whitelist.contains(tokens.first()) {
                whitelist
            } else {
                whitelist.push(tokens.first())
            },
            tokens.drop_first(),
        )
    }
}

/// Whitelist administration.
pub trait TokenWhitelistModule: StorageModule {
    /// Adds tokens to the whitelist; only the operator may. A token
    /// already present is left alone.
    fn add_tokens_to_whitelist(
        &mut self,
        tokens_to_add: Vec<EgldOrEsdtTokenIdentifier>,
        caller: Address,
    ) -> (r: Result<(), MarketplaceError>)
        requires
            old(self).wf(),
        ensures
            final(self).wf(),
            same_config_but_whitelist(old(self), final(self)),
            r is Err <==> caller != old(self).sc_owner(),
            r matches Err(e) ==> e == MarketplaceError::NotAuthorized && final(self).whitelist()
                == old(self).whitelist(),
            r is Ok ==> final(self).whitelist() == whitelist_after_add(
                old(self).whitelist(),
                tokens_to_add@,
            ),
    ;

    /// Removes tokens from the whitelist; only the operator may. Every
    /// occurrence of a listed token leaves; order is otherwise kept.
    fn remove_tokens_from_whitelist(
        &mut self,
        tokens_to_remove: Vec<EgldOrEsdtTokenIdentifier>,
        caller: Address,
    ) -> (r: Result<(), MarketplaceError>)
        requires
            old(self).wf(),
        ensures
            final(self).wf(),
            same_config_but_whitelist(old(self), final(self)),
            r is Err <==> caller != old(self).sc_owner(),
            r matches Err(e) ==> e == MarketplaceError::NotAuthorized && final(self).whitelist()
                == old(self).whitelist(),
            r is Ok ==> final(self).whitelist() == old(self).whitelist().filter(
                not_removed(tokens_to_remove@),
            ),
    ;

    /// Accepts a token while the whitelist is empty or holds it; rejects
    /// it otherwise.
    fn require_token_whitelisted(&self, token_id: EgldOrEsdtTokenIdentifier) -> (r: Result<
        (),
        MarketplaceError,
    >)
        ensures
            r is Err <==> (self.whitelist().len() > 0 && !self.whitelist().contains(token_id)),
            r matches Err(e) ==> e == MarketplaceError::InvalidParameters,
    ;
}

/// Whether the vector holds the token.
fn whitelist_contains(
    tokens: &Vec<EgldOrEsdtTokenIdentifier>,
    token_id: EgldOrEsdtTokenIdentifier,
) -> (r: bool)
    ensures
        r == tokens@.contains(token_id),
{
    let n = tokens.len();
    let mut i: usize = 0;
    while i < n
        invariant
            n == tokens@.len(),
            0 <= i <= n,
            forall|j: int| 0 <= j < i ==> tokens@[j] != token_id,
        decreases n - i,
    {
        if tokens[i] == token_id {
            return true;
        }
        i = i + 1;
    }
    false
}

impl TokenWhitelistModule for crate::storage::Marketplace {
    fn add_tokens_to_whitelist(
        &mut self,
        tokens_to_add: Vec<EgldOrEsdtTokenIdentifier>,
        caller: Address,
    ) -> Result<(), MarketplaceError> {
        if !(caller == self.owner) {
            return Err(MarketplaceError::NotAuthorized);
        }
        let ghost wl0 = self.whitelist();
        let ghost ts = tokens_to_add@;
        let n = tokens_to_add.len();
        let mut i: usize = 0;
        proof {
            assert(ts.skip(0) =~= ts);
        }
        while i < n
            invariant
                old(self).wf(),
                self.wf(),
                ts == tokens_to_add@,
                same_config_but_whitelist(old(self), self),
                n == ts.len(),
                0 <= i <= n,
                wl0 == old(self).whitelist(),
                whitelist_after_add(wl0, ts) == whitelist_after_add(
                    self.whitelist(),
                    ts.skip(i as int),
                ),
            decreases n - i,
        {
            proof {
                assert(ts.skip(i as int).first() == ts[i as int]);
                assert(ts.skip(i as int).drop_first() =~= ts.skip(i as int + 1));
            }
            let token_id = tokens_to_add[i];
            if !whitelist_contains(&self.whitelisted_tokens, token_id) {
                self.whitelisted_tokens.push(token_id);
            }
            i = i + 1;
        }
        proof {
            assert(ts.skip(n as int) =~= Seq::<EgldOrEsdtTokenIdentifier>::empty());
        }
        Ok(())
    }

    fn remove_tokens_from_whitelist(
        &mut self,
        tokens_to_remove: Vec<EgldOrEsdtTokenIdentifier>,
        caller: Address,
    ) -> Result<(), MarketplaceError> {
        if !(caller == self.owner) {
            return Err(MarketplaceError::NotAuthorized);
        }
        let ghost wl0 = self.whitelist();
        let ghost kept_pred = not_removed(tokens_to_remove@);
        let mut kept: Vec<EgldOrEsdtTokenIdentifier> = Vec::new();
        let n = self.whitelisted_tokens.len();
        let mut i: usize = 0;
        while i < n
            invariant
                n == self.whitelisted_tokens@.len(),
                0 <= i <= n,
                wl0 == self.whitelisted_tokens@,
                kept_pred == not_removed(tokens_to_remove@),
                kept@ == wl0.subrange(0, i as int).filter(kept_pred),
            decreases n - i,
        {
            let token_id = self.whitelisted_tokens[i];
            proof {
                reveal(Seq::filter);
                assert(wl0.subrange(0, i as int + 1).drop_last() =~= wl0.subrange(0, i as int));
                assert(wl0.subrange(0, i as int + 1).last() == wl0[i as int]);
            }
            if !whitelist_contains(&tokens_to_remove, token_id) {
                kept.push(token_id);
            }
            i = i + 1;
        }
        proof {
            assert(wl0.subrange(0, n as int) =~= wl0);
        }
        self.whitelisted_tokens = kept;
        Ok(())
    }

    fn require_token_whitelisted(&self, token_id: EgldOrEsdtTokenIdentifier) -> Result<
        (),
        MarketplaceError,
    > {
        if self.whitelisted_tokens.len() > 0 {
            if !whitelist_contains(&self.whitelisted_tokens, token_id) {
                return Err(MarketplaceError::InvalidParameters);
            }
        }
        Ok(())
    }
}

} // verus!
