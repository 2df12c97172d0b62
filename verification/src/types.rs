//! Plain data model shared by every module: addresses, token identifiers,
//! payments, the transfer actions an operation asks the host to perform, and
//! the error kinds with which an operation can be rejected.
//!
//! The host ledger is kept outside this crate: an address is an opaque numeric
//! identity together with the one fact about it that the settlement rules
//! read, namely whether it is a contract account (which cannot safely receive
//! an unsolicited push transfer and is paid through the claimable-balance
//! ledger instead).

use vstd::prelude::*;

verus! {

/// An account identity. `id` 0 is the reserved sentinel used for "no winner".
/// `is_contract` records whether the account is a contract account, a static
/// property of an address on the host chain; direct push transfers are unsafe
/// for contract accounts, so settlement credits them on the claimable ledger.
#[derive(Clone, Copy, PartialEq, Eq, Structural, Debug)]
pub struct Address {
    pub id: u64,
    pub is_contract: bool,
}

impl Address {
    /// The "no winner" sentinel.
    pub open spec fn zero_spec() -> Address {
        Address { id: 0, is_contract: false }
    }

    pub fn zero() -> (r: Address)
        ensures
            r == Address::zero_spec(),
    {
        Address { id: 0, is_contract: false }
    }

    pub open spec fn is_zero_spec(self) -> bool {
        self == Address::zero_spec()
    }

    pub fn is_zero(self) -> (r: bool)
        ensures
            r == self.is_zero_spec(),
    {
        self.id == 0 && !self.is_contract
    }
}

/// A payment token: either the chain's native currency or a token identified
/// by a numeric identifier.
#[derive(Clone, Copy, PartialEq, Eq, Structural, Debug)]
pub enum EgldOrEsdtTokenIdentifier {
    Egld,
    Esdt(u64),
}

impl EgldOrEsdtTokenIdentifier {
    pub open spec fn is_egld_spec(self) -> bool {
        self == EgldOrEsdtTokenIdentifier::Egld
    }

    pub fn is_egld(self) -> (r: bool)
        ensures
            r == self.is_egld_spec(),
    {
        match self {
            EgldOrEsdtTokenIdentifier::Egld => true,
            EgldOrEsdtTokenIdentifier::Esdt(_) => false,
        }
    }
}

/// A quantity of one token kind at one nonce, as attached to a call or held
/// in an auction record. The identifier is a (non-native) token identifier.
#[derive(Clone, Copy, PartialEq, Eq, Structural, Debug)]
pub struct EsdtTokenPayment {
    pub token_identifier: u64,
    pub token_nonce: u64,
    pub amount: u64,
}

/// A payment in either the native currency or a token.
#[derive(Clone, Copy, PartialEq, Eq, Structural, Debug)]
pub struct EgldOrEsdtTokenPayment {
    pub token_identifier: EgldOrEsdtTokenIdentifier,
    pub token_nonce: u64,
    pub amount: u64,
}

/// Token metadata as resolved by the host for a (token, nonce) pair: the
/// creator's royalty percentage in basis points and the creator's address.
/// Operations that settle value take one of these as an input.
#[derive(Clone, Copy, PartialEq, Eq, Structural, Debug)]
pub struct EsdtTokenData {
    pub royalties: u64,
    pub creator: Address,
}

/// One direct push transfer that the host must perform on behalf of a
/// completed operation. Amounts are widened to `u128` so that accumulated
/// claimable balances can be paid out in one transfer.
#[derive(Clone, Copy, PartialEq, Eq, Structural, Debug)]
pub struct Transfer {
    pub to: Address,
    pub token: EgldOrEsdtTokenIdentifier,
    pub nonce: u64,
    pub amount: u128,
}

/// Why an operation was rejected. Every rejection leaves the marketplace
/// state exactly as it was.
#[derive(Clone, Copy, PartialEq, Eq, Structural, Debug)]
pub enum MarketplaceError {
    /// The auction or offer id does not resolve to a live record.
    NotFound,
    /// The caller is not the principal the operation requires.
    NotAuthorized,
    /// A malformed argument: zero quantity, bad price bounds, an operation
    /// applied to an auction kind that does not support it.
    InvalidParameters,
    /// Marketplace cut plus creator royalties would reach or exceed 100%.
    RoyaltyOverflow,
    /// Too early or too late: before the start time, after the deadline, or a
    /// deadline that is not in the future.
    TimingViolation,
    /// The asset or payment attached to the call does not match the record.
    WrongAsset,
    /// A bidding rule was broken: self-bid, repeated bid, below the minimum,
    /// not increasing, above the maximum, or an increment that is too small.
    BidRuleViolation,
    /// A buy asks for more units than remain, or pays other than the exact
    /// price.
    InsufficientQuantity,
    /// Withdrawal refused because the auction already holds a bid.
    AuctionHasBids,
}

} // verus!
