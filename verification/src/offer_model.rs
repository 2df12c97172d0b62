//! The offer record and its well-formedness rules.

use vstd::prelude::*;

use crate::types::Address;
use crate::types::EgldOrEsdtTokenPayment;
use crate::types::EsdtTokenPayment;

verus! {

/// A standing purchase proposal: the offeror escrows `payment` with the
/// marketplace and asks for `offer_token` in exchange. Independent of any
/// auction.
#[derive(Clone, Copy, PartialEq, Eq, Structural, Debug)]
pub struct Offer {
    pub offer_token: EsdtTokenPayment,
    pub payment: EgldOrEsdtTokenPayment,
    pub start_time: u64,
    pub deadline: u64,
    pub offer_owner: Address,
}

impl Offer {
    /// The invariant of every stored offer record.
    pub open spec fn wf(self) -> bool {
        &&& self.offer_token.token_nonce > 0
        &&& self.offer_token.amount > 0
        &&& self.payment.amount > 0
        &&& (self.payment.token_identifier.is_egld_spec() ==> self.payment.token_nonce == 0)
        &&& self.start_time < self.deadline
        &&& !self.offer_owner.is_zero_spec()
    }
}

} // verus!
