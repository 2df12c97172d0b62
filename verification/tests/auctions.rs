use esdt_nft_marketplace::auction::AuctionModule;
use esdt_nft_marketplace::auction_model::AuctionType;
use esdt_nft_marketplace::bidding::BiddingModule;
use esdt_nft_marketplace::storage::Marketplace;
use esdt_nft_marketplace::storage::StorageModule;
use esdt_nft_marketplace::token_distribution::TokenDistributionModule;
use esdt_nft_marketplace::token_whitelist::TokenWhitelistModule;
use esdt_nft_marketplace::types::Address;
use esdt_nft_marketplace::types::EgldOrEsdtTokenIdentifier;
use esdt_nft_marketplace::types::EsdtTokenData;
use esdt_nft_marketplace::types::MarketplaceError;
use esdt_nft_marketplace::types::Transfer;
use esdt_nft_marketplace::views::ViewsModule;
use esdt_nft_marketplace::EsdtNftMarketplace;

const NFT: u64 = 7;
const PAY: u64 = 9;

fn addr(id: u64) -> Address {
    Address { id, is_contract: false }
}

fn contract_addr(id: u64) -> Address {
    Address { id, is_contract: true }
}

fn owner() -> Address {
    addr(90)
}

fn seller() -> Address {
    addr(1)
}

fn creator() -> Address {
    addr(4)
}

fn nft_info() -> EsdtTokenData {
    EsdtTokenData { royalties: 500, creator: creator() }
}

fn market() -> Marketplace {
    Marketplace::init(owner(), 250).unwrap()
}

/// Lists the standard single-item auction: min 100, max 200, deadline 1100,
/// listed at time 1000 by the seller. Returns the auction id.
fn list_nft(m: &mut Marketplace) -> u64 {
    m.auction_token(
        NFT,
        1,
        1,
        100,
        200,
        1100,
        EgldOrEsdtTokenIdentifier::Esdt(PAY),
        None,
        None,
        None,
        None,
        seller(),
        1000,
        nft_info(),
    )
    .unwrap()
}

fn esdt_pay(m: &mut Marketplace, id: u64, amount: u64, bidder: Address, now: u64) -> Result<Vec<Transfer>, MarketplaceError> {
    m.bid(id, NFT, 1, EgldOrEsdtTokenIdentifier::Esdt(PAY), 0, amount, bidder, now)
}

#[test]
fn init_go() {
    let m = market();
    assert_eq!(m.bid_cut_percentage(), 250);
    assert_eq!(m.last_valid_auction_id(), 0);
    assert_eq!(m.last_valid_offer_id(), 0);
    assert_eq!(
        Marketplace::init(owner(), 0).unwrap_err(),
        MarketplaceError::InvalidParameters
    );
    assert_eq!(
        Marketplace::init(owner(), 10_000).unwrap_err(),
        MarketplaceError::InvalidParameters
    );
}

#[test]
fn set_cut_percentage_is_owner_only() {
    let mut m = market();
    assert_eq!(
        m.set_percentage_cut(300, addr(2)).unwrap_err(),
        MarketplaceError::NotAuthorized
    );
    assert_eq!(
        m.set_percentage_cut(10_000, owner()).unwrap_err(),
        MarketplaceError::InvalidParameters
    );
    m.set_percentage_cut(300, owner()).unwrap();
    assert_eq!(m.bid_cut_percentage(), 300);
    m.try_set_bid_cut_percentage(250).unwrap();
    assert_eq!(m.bid_cut_percentage(), 250);
}

#[test]
fn auction_token_go() {
    let mut m = market();
    let id = list_nft(&mut m);
    assert_eq!(id, 1);
    assert!(m.does_auction_exist(1));
    let a = m.get_full_auction_data(1).unwrap();
    assert_eq!(a.auction_type, AuctionType::Nft);
    assert_eq!(a.min_bid, 100);
    assert_eq!(a.max_bid, Some(200));
    assert_eq!(a.current_bid, 0);
    assert_eq!(a.marketplace_cut_percentage, 250);
    assert_eq!(a.creator_royalties_percentage, 500);
    // The stored snapshot always leaves the seller a share.
    assert!(a.marketplace_cut_percentage + a.creator_royalties_percentage < 10_000);
}

#[test]
fn royalty_overflow_is_rejected() {
    let mut m = market();
    let too_high = EsdtTokenData { royalties: 9_750, creator: creator() };
    let r = m.auction_token(
        NFT,
        1,
        1,
        100,
        200,
        1100,
        EgldOrEsdtTokenIdentifier::Esdt(PAY),
        None,
        None,
        None,
        None,
        seller(),
        1000,
        too_high,
    );
    assert_eq!(r.unwrap_err(), MarketplaceError::RoyaltyOverflow);
    assert!(!m.does_auction_exist(1));
}

#[test]
fn listing_validations() {
    let mut m = market();
    let tok = EgldOrEsdtTokenIdentifier::Esdt(PAY);
    // min bid must be positive
    let r = m.auction_token(NFT, 1, 1, 0, 0, 1100, tok, None, None, None, None, seller(), 1000, nft_info());
    assert_eq!(r.unwrap_err(), MarketplaceError::InvalidParameters);
    // fungible tokens (nonce 0) cannot be auctioned
    let r = m.auction_token(NFT, 0, 1, 100, 0, 1100, tok, None, None, None, None, seller(), 1000, nft_info());
    assert_eq!(r.unwrap_err(), MarketplaceError::InvalidParameters);
    // min above max
    let r = m.auction_token(NFT, 1, 1, 300, 200, 1100, tok, None, None, None, None, seller(), 1000, nft_info());
    assert_eq!(r.unwrap_err(), MarketplaceError::InvalidParameters);
    // deadline in the past
    let r = m.auction_token(NFT, 1, 1, 100, 200, 900, tok, None, None, None, None, seller(), 1000, nft_info());
    assert_eq!(r.unwrap_err(), MarketplaceError::TimingViolation);
    // start time after deadline
    let r = m.auction_token(NFT, 1, 1, 100, 200, 1100, tok, None, None, None, Some(1200), seller(), 1000, nft_info());
    assert_eq!(r.unwrap_err(), MarketplaceError::InvalidParameters);
    // fixed-price sale needs min == max
    let r = m.auction_token(NFT, 1, 10, 5, 6, 1100, tok, None, Some(true), None, None, seller(), 1000, nft_info());
    assert_eq!(r.unwrap_err(), MarketplaceError::InvalidParameters);
}

#[test]
fn bid_first_go() {
    let mut m = market();
    let id = list_nft(&mut m);
    let transfers = esdt_pay(&mut m, id, 150, addr(2), 1010).unwrap();
    assert!(transfers.is_empty());
    assert_eq!(m.get_current_winning_bid(id), Some(150));
    assert_eq!(m.get_current_winner(id), Some(addr(2)));
}

#[test]
fn bid_second_go() {
    let mut m = market();
    let id = list_nft(&mut m);
    esdt_pay(&mut m, id, 150, addr(2), 1010).unwrap();
    let transfers = esdt_pay(&mut m, id, 180, addr(3), 1020).unwrap();
    // exactly one refund of the full outbid amount
    assert_eq!(transfers.len(), 1);
    assert_eq!(
        transfers[0],
        Transfer { to: addr(2), token: EgldOrEsdtTokenIdentifier::Esdt(PAY), nonce: 0, amount: 150 }
    );
    assert_eq!(m.get_current_winning_bid(id), Some(180));
}

#[test]
fn bid_max_go() {
    let mut m = market();
    let id = list_nft(&mut m);
    esdt_pay(&mut m, id, 200, addr(2), 1010).unwrap();
    // max bid reached: the auction may be ended before the deadline
    let transfers = m.end_auction(id, 1020, nft_info()).unwrap();
    assert_eq!(transfers.len(), 4);
    assert!(!m.does_auction_exist(id));
}

#[test]
fn invalid_bids_go() {
    let mut m = market();
    let id = list_nft(&mut m);
    // below the minimum
    assert_eq!(esdt_pay(&mut m, id, 99, addr(2), 1010).unwrap_err(), MarketplaceError::BidRuleViolation);
    // above the bound
    assert_eq!(esdt_pay(&mut m, id, 201, addr(2), 1010).unwrap_err(), MarketplaceError::BidRuleViolation);
    // wrong payment token
    let r = m.bid(id, NFT, 1, EgldOrEsdtTokenIdentifier::Egld, 0, 150, addr(2), 1010);
    assert_eq!(r.unwrap_err(), MarketplaceError::WrongAsset);
    // wrong asset named
    let r = m.bid(id, NFT + 1, 1, EgldOrEsdtTokenIdentifier::Esdt(PAY), 0, 150, addr(2), 1010);
    assert_eq!(r.unwrap_err(), MarketplaceError::WrongAsset);
    // too late
    assert_eq!(esdt_pay(&mut m, id, 150, addr(2), 1100).unwrap_err(), MarketplaceError::TimingViolation);
    // repeated winner
    esdt_pay(&mut m, id, 150, addr(2), 1010).unwrap();
    assert_eq!(esdt_pay(&mut m, id, 160, addr(2), 1011).unwrap_err(), MarketplaceError::BidRuleViolation);
}

#[test]
fn bid_on_missing_auction_fails() {
    let mut m = market();
    assert_eq!(esdt_pay(&mut m, 999, 50, addr(2), 1010).unwrap_err(), MarketplaceError::NotFound);
}

#[test]
fn seller_cannot_bid() {
    let mut m = market();
    let id = list_nft(&mut m);
    assert_eq!(esdt_pay(&mut m, id, 150, seller(), 1010).unwrap_err(), MarketplaceError::BidRuleViolation);
}

#[test]
fn equal_rebid_fails() {
    let mut m = market();
    let id = list_nft(&mut m);
    esdt_pay(&mut m, id, 150, addr(2), 1010).unwrap();
    // a different account bidding the same amount is not an increase
    assert_eq!(esdt_pay(&mut m, id, 150, addr(3), 1011).unwrap_err(), MarketplaceError::BidRuleViolation);
}

#[test]
fn auction_with_start_time_go() {
    let mut m = market();
    let id = m
        .auction_token(
            NFT,
            1,
            1,
            100,
            200,
            1100,
            EgldOrEsdtTokenIdentifier::Esdt(PAY),
            None,
            None,
            None,
            Some(1050),
            seller(),
            1000,
            nft_info(),
        )
        .unwrap();
    assert_eq!(m.get_start_time(id), Some(1050));
    assert_eq!(esdt_pay(&mut m, id, 150, addr(2), 1010).unwrap_err(), MarketplaceError::TimingViolation);
    esdt_pay(&mut m, id, 150, addr(2), 1050).unwrap();
}

#[test]
fn auction_with_min_bid_delta_go() {
    let mut m = market();
    let id = m
        .auction_token(
            NFT,
            1,
            1,
            100,
            200,
            1100,
            EgldOrEsdtTokenIdentifier::Esdt(PAY),
            Some(25),
            None,
            None,
            None,
            seller(),
            1000,
            nft_info(),
        )
        .unwrap();
    esdt_pay(&mut m, id, 100, addr(2), 1010).unwrap();
    // improvement below the required increment
    assert_eq!(esdt_pay(&mut m, id, 110, addr(3), 1011).unwrap_err(), MarketplaceError::BidRuleViolation);
    esdt_pay(&mut m, id, 125, addr(3), 1012).unwrap();
}

#[test]
fn auction_with_min_bid_delta_buy_now_go() {
    let mut m = market();
    let id = m
        .auction_token(
            NFT,
            1,
            1,
            100,
            200,
            1100,
            EgldOrEsdtTokenIdentifier::Esdt(PAY),
            Some(25),
            None,
            None,
            None,
            seller(),
            1000,
            nft_info(),
        )
        .unwrap();
    esdt_pay(&mut m, id, 190, addr(2), 1010).unwrap();
    // hitting the bound is allowed even though the step is below the increment
    esdt_pay(&mut m, id, 200, addr(3), 1011).unwrap();
    assert_eq!(m.get_current_winning_bid(id), Some(200));
}

#[test]
fn auction_end_deadline_go() {
    let mut m = market();
    let id = list_nft(&mut m);
    esdt_pay(&mut m, id, 150, addr(2), 1010).unwrap();
    let refund = esdt_pay(&mut m, id, 180, addr(3), 1020).unwrap();
    assert_eq!(refund[0].amount, 150);
    // too early to end: deadline not passed, bid below the bound
    assert_eq!(m.end_auction(id, 1050, nft_info()).unwrap_err(), MarketplaceError::TimingViolation);
    let transfers = m.end_auction(id, 1101, nft_info()).unwrap();
    // marketplace cut, creator royalties, seller proceeds, asset to winner
    let pay = EgldOrEsdtTokenIdentifier::Esdt(PAY);
    assert_eq!(
        transfers,
        vec![
            Transfer { to: owner(), token: pay, nonce: 0, amount: 4 },
            Transfer { to: creator(), token: pay, nonce: 0, amount: 9 },
            Transfer { to: seller(), token: pay, nonce: 0, amount: 167 },
            Transfer { to: addr(3), token: EgldOrEsdtTokenIdentifier::Esdt(NFT), nonce: 1, amount: 1 },
        ]
    );
    assert!(!m.does_auction_exist(id));
}

#[test]
fn auction_end_max_bid_go() {
    let mut m = market();
    let id = list_nft(&mut m);
    esdt_pay(&mut m, id, 200, addr(2), 1010).unwrap();
    let transfers = m.end_auction(id, 1011, nft_info()).unwrap();
    assert_eq!(transfers.len(), 4);
    // 200 * 2.5% = 5 cut, 200 * 5% = 10 royalties, 185 to the seller
    assert_eq!(transfers[0].amount, 5);
    assert_eq!(transfers[1].amount, 10);
    assert_eq!(transfers[2].amount, 185);
}

#[test]
fn end_with_no_bids_returns_asset() {
    let mut m = market();
    let id = list_nft(&mut m);
    let transfers = m.end_auction(id, 1101, nft_info()).unwrap();
    assert_eq!(
        transfers,
        vec![Transfer { to: seller(), token: EgldOrEsdtTokenIdentifier::Esdt(NFT), nonce: 1, amount: 1 }]
    );
    assert!(!m.does_auction_exist(id));
}

#[test]
fn auction_sft_sell_all_go() {
    let mut m = market();
    let id = m
        .auction_token(
            NFT,
            1,
            10,
            100,
            0,
            1100,
            EgldOrEsdtTokenIdentifier::Esdt(PAY),
            None,
            None,
            None,
            None,
            seller(),
            1000,
            nft_info(),
        )
        .unwrap();
    assert_eq!(m.get_auction_type(id), AuctionType::SftAll);
    assert_eq!(m.get_min_max_bid(id), Some((100, 0)));
}

#[test]
fn bid_sft_sell_all_first_go() {
    let mut m = market();
    let id = m
        .auction_token(
            NFT,
            1,
            10,
            100,
            0,
            1100,
            EgldOrEsdtTokenIdentifier::Esdt(PAY),
            None,
            None,
            None,
            None,
            seller(),
            1000,
            nft_info(),
        )
        .unwrap();
    esdt_pay(&mut m, id, 100, addr(2), 1010).unwrap();
    assert_eq!(m.get_current_winning_bid(id), Some(100));
}

#[test]
fn bid_sft_sell_all_second_go() {
    let mut m = market();
    let id = m
        .auction_token(
            NFT,
            1,
            10,
            100,
            0,
            1100,
            EgldOrEsdtTokenIdentifier::Esdt(PAY),
            None,
            None,
            None,
            None,
            seller(),
            1000,
            nft_info(),
        )
        .unwrap();
    esdt_pay(&mut m, id, 100, addr(2), 1010).unwrap();
    let transfers = esdt_pay(&mut m, id, 120, addr(3), 1020).unwrap();
    assert_eq!(transfers[0].amount, 100);
    assert_eq!(transfers[0].to, addr(2));
}

#[test]
fn auction_sell_all_end_deadline_go() {
    let mut m = market();
    let id = m
        .auction_token(
            NFT,
            1,
            10,
            100,
            0,
            1100,
            EgldOrEsdtTokenIdentifier::Esdt(PAY),
            None,
            None,
            None,
            None,
            seller(),
            1000,
            nft_info(),
        )
        .unwrap();
    esdt_pay(&mut m, id, 100, addr(2), 1010).unwrap();
    let transfers = m.end_auction(id, 1101, nft_info()).unwrap();
    // the whole remaining quantity goes to the winner
    assert_eq!(
        transfers[3],
        Transfer { to: addr(2), token: EgldOrEsdtTokenIdentifier::Esdt(NFT), nonce: 1, amount: 10 }
    );
}

#[test]
fn auction_sft_sell_one_by_one_go() {
    let mut m = market();
    let id = m
        .auction_token(
            NFT,
            1,
            10,
            5,
            5,
            1100,
            EgldOrEsdtTokenIdentifier::Esdt(PAY),
            None,
            Some(true),
            None,
            None,
            seller(),
            1000,
            nft_info(),
        )
        .unwrap();
    assert_eq!(m.get_auction_type(id), AuctionType::SftOnePerPayment);
    // a unit-by-unit sale takes no bids
    assert_eq!(esdt_pay(&mut m, id, 5, addr(2), 1010).unwrap_err(), MarketplaceError::InvalidParameters);
}

#[test]
fn auction_sell_one_by_one_end_deadline_go() {
    let mut m = market();
    let id = m
        .auction_token(
            NFT,
            1,
            10,
            5,
            5,
            1100,
            EgldOrEsdtTokenIdentifier::Esdt(PAY),
            None,
            Some(true),
            None,
            None,
            seller(),
            1000,
            nft_info(),
        )
        .unwrap();
    // a unit-by-unit sale has no end event; it dies by depletion or withdrawal
    assert_eq!(m.end_auction(id, 1101, nft_info()).unwrap_err(), MarketplaceError::InvalidParameters);
    let transfers = m.withdraw(id, seller()).unwrap();
    assert_eq!(transfers[0].amount, 10);
    assert!(!m.does_auction_exist(id));
}

#[test]
fn buy_sft_sell_one_by_one_go() {
    let mut m = market();
    let id = m
        .auction_token(
            NFT,
            1,
            10,
            5,
            5,
            1100,
            EgldOrEsdtTokenIdentifier::Esdt(PAY),
            None,
            Some(true),
            None,
            None,
            seller(),
            1000,
            nft_info(),
        )
        .unwrap();
    // 4 units at unit price 5 cost exactly 20
    let transfers = m
        .buy_sft(id, NFT, 1, EgldOrEsdtTokenIdentifier::Esdt(PAY), 0, 20, Some(4), addr(2), 1010, nft_info())
        .unwrap();
    // 20 * 2.5% = 0 (floored), 20 * 5% = 1, 19 to the seller, 4 units out
    assert_eq!(transfers.len(), 3);
    assert_eq!(transfers[0].amount, 1);
    assert_eq!(transfers[0].to, creator());
    assert_eq!(transfers[1].amount, 19);
    assert_eq!(transfers[1].to, seller());
    assert_eq!(
        transfers[2],
        Transfer { to: addr(2), token: EgldOrEsdtTokenIdentifier::Esdt(NFT), nonce: 1, amount: 4 }
    );
    assert_eq!(m.get_auctioned_token(id), Some((NFT, 1, 6)));
    assert!(m.does_auction_exist(id));
}

#[test]
fn buy_sft_sell_one_by_one_second_go() {
    let mut m = market();
    let id = m
        .auction_token(
            NFT,
            1,
            10,
            5,
            5,
            1100,
            EgldOrEsdtTokenIdentifier::Esdt(PAY),
            None,
            Some(true),
            None,
            None,
            seller(),
            1000,
            nft_info(),
        )
        .unwrap();
    m.buy_sft(id, NFT, 1, EgldOrEsdtTokenIdentifier::Esdt(PAY), 0, 20, Some(4), addr(2), 1010, nft_info())
        .unwrap();
    // buying the remaining 6 units depletes and deletes the record
    m.buy_sft(id, NFT, 1, EgldOrEsdtTokenIdentifier::Esdt(PAY), 0, 30, Some(6), addr(3), 1020, nft_info())
        .unwrap();
    assert!(!m.does_auction_exist(id));
}

#[test]
fn bid_sft_sell_one_by_one_multiple_go() {
    let mut m = market();
    let id = m
        .auction_token(
            NFT,
            1,
            10,
            5,
            5,
            1100,
            EgldOrEsdtTokenIdentifier::Esdt(PAY),
            None,
            Some(true),
            None,
            None,
            seller(),
            1000,
            nft_info(),
        )
        .unwrap();
    // wrong exact payment
    let r = m.buy_sft(id, NFT, 1, EgldOrEsdtTokenIdentifier::Esdt(PAY), 0, 21, Some(4), addr(2), 1010, nft_info());
    assert_eq!(r.unwrap_err(), MarketplaceError::InsufficientQuantity);
    // more units than remain
    let r = m.buy_sft(id, NFT, 1, EgldOrEsdtTokenIdentifier::Esdt(PAY), 0, 55, Some(11), addr(2), 1010, nft_info());
    assert_eq!(r.unwrap_err(), MarketplaceError::InsufficientQuantity);
    // an absent quantity means one unit
    m.buy_sft(id, NFT, 1, EgldOrEsdtTokenIdentifier::Esdt(PAY), 0, 5, None, addr(2), 1010, nft_info())
        .unwrap();
    assert_eq!(m.get_auctioned_token(id), Some((NFT, 1, 9)));
}

#[test]
fn withdraw_go() {
    let mut m = market();
    let id = list_nft(&mut m);
    assert_eq!(m.withdraw(id, addr(2)).unwrap_err(), MarketplaceError::NotAuthorized);
    let transfers = m.withdraw(id, seller()).unwrap();
    assert_eq!(
        transfers,
        vec![Transfer { to: seller(), token: EgldOrEsdtTokenIdentifier::Esdt(NFT), nonce: 1, amount: 1 }]
    );
    assert!(!m.does_auction_exist(id));
}

#[test]
fn withdraw_with_bids_fails() {
    let mut m = market();
    let id = list_nft(&mut m);
    esdt_pay(&mut m, id, 150, addr(2), 1010).unwrap();
    assert_eq!(m.withdraw(id, seller()).unwrap_err(), MarketplaceError::AuctionHasBids);
}

#[test]
fn withdraw_after_end_auction_go() {
    let mut m = market();
    let id = list_nft(&mut m);
    esdt_pay(&mut m, id, 150, addr(2), 1010).unwrap();
    m.end_auction(id, 1101, nft_info()).unwrap();
    // the record is gone; ids are never reused
    assert_eq!(m.withdraw(id, seller()).unwrap_err(), MarketplaceError::NotFound);
    let id2 = list_nft(&mut m);
    assert_eq!(id2, 2);
}

#[test]
fn specific_token_auctioned_go() {
    let mut m = market();
    let id = m
        .auction_token(
            NFT,
            1,
            1,
            100,
            200,
            1100,
            EgldOrEsdtTokenIdentifier::Esdt(PAY),
            None,
            None,
            Some(3),
            None,
            seller(),
            1000,
            nft_info(),
        )
        .unwrap();
    assert_eq!(
        m.get_payment_token_for_auction(id),
        Some((EgldOrEsdtTokenIdentifier::Esdt(PAY), 3))
    );
    // payment at the wrong nonce is the wrong asset
    let r = m.bid(id, NFT, 1, EgldOrEsdtTokenIdentifier::Esdt(PAY), 0, 150, addr(2), 1010);
    assert_eq!(r.unwrap_err(), MarketplaceError::WrongAsset);
    m.bid(id, NFT, 1, EgldOrEsdtTokenIdentifier::Esdt(PAY), 3, 150, addr(2), 1010).unwrap();
}

#[test]
fn view_functions_go() {
    let mut m = market();
    let id = list_nft(&mut m);
    assert!(m.does_auction_exist(id));
    assert_eq!(m.get_auctioned_token(id), Some((NFT, 1, 1)));
    assert_eq!(m.get_auction_type(id), AuctionType::Nft);
    assert_eq!(m.get_payment_token_for_auction(id), Some((EgldOrEsdtTokenIdentifier::Esdt(PAY), 0)));
    assert_eq!(m.get_min_max_bid(id), Some((100, 200)));
    assert_eq!(m.get_start_time(id), Some(1000));
    assert_eq!(m.get_deadline(id), Some(1100));
    assert_eq!(m.get_original_owner(id), Some(seller()));
    assert_eq!(m.get_current_winning_bid(id), Some(0));
    assert_eq!(m.get_current_winner(id), Some(Address { id: 0, is_contract: false }));
    assert!(m.get_full_auction_data(id).is_some());
    // a missing id answers with the explicit sentinel, not an error
    assert!(!m.does_auction_exist(55));
    assert_eq!(m.get_auctioned_token(55), None);
    assert_eq!(m.get_auction_type(55), AuctionType::Unlisted);
    assert_eq!(m.get_full_auction_data(55), None);
    assert_eq!(m.try_get_auction(55).unwrap_err(), MarketplaceError::NotFound);
}

#[test]
fn bid_with_token_whitelist_go() {
    let mut m = market();
    let egld = EgldOrEsdtTokenIdentifier::Egld;
    let pay = EgldOrEsdtTokenIdentifier::Esdt(PAY);
    // an empty whitelist admits everything
    m.require_token_whitelisted(pay).unwrap();
    assert_eq!(
        m.add_tokens_to_whitelist(vec![pay], addr(2)).unwrap_err(),
        MarketplaceError::NotAuthorized
    );
    m.add_tokens_to_whitelist(vec![pay, pay], owner()).unwrap();
    m.require_token_whitelisted(pay).unwrap();
    assert_eq!(m.require_token_whitelisted(egld).unwrap_err(), MarketplaceError::InvalidParameters);
    m.add_tokens_to_whitelist(vec![egld], owner()).unwrap();
    m.require_token_whitelisted(egld).unwrap();
    m.remove_tokens_from_whitelist(vec![pay], owner()).unwrap();
    assert_eq!(m.require_token_whitelisted(pay).unwrap_err(), MarketplaceError::InvalidParameters);
    m.require_token_whitelisted(egld).unwrap();
}

#[test]
fn escrow_credit_and_claim_round_trip() {
    let mut m = market();
    // the seller is a contract account: its proceeds go to the claimable
    // ledger instead of a direct push
    let sc_seller = contract_addr(5);
    let id = m
        .auction_token(
            NFT,
            1,
            1,
            100,
            200,
            1100,
            EgldOrEsdtTokenIdentifier::Esdt(PAY),
            None,
            None,
            None,
            None,
            sc_seller,
            1000,
            nft_info(),
        )
        .unwrap();
    esdt_pay(&mut m, id, 180, addr(3), 1020).unwrap();
    let transfers = m.end_auction(id, 1101, nft_info()).unwrap();
    // cut, royalties and the asset still move directly; the seller's 167 is credited
    assert_eq!(transfers.len(), 3);
    let pay = EgldOrEsdtTokenIdentifier::Esdt(PAY);
    assert_eq!(m.claimable_amount(sc_seller, pay, 0), 167);
    // total delivered across both paths equals the split bid
    assert_eq!(transfers[0].amount + transfers[1].amount + 167, 180);
    let (egld_total, payments) = m.claim_tokens(sc_seller, addr(6), vec![(pay, 0)]);
    assert_eq!(egld_total, 0);
    assert_eq!(payments, vec![Transfer { to: addr(6), token: pay, nonce: 0, amount: 167 }]);
    assert_eq!(m.claimable_amount(sc_seller, pay, 0), 0);
    // a second claim of the same pair yields nothing
    let (egld_again, payments_again) = m.claim_tokens(sc_seller, addr(6), vec![(pay, 0)]);
    assert_eq!(egld_again, 0);
    assert!(payments_again.is_empty());
}

#[test]
fn claim_aggregates_native_currency() {
    let mut m = market();
    let sc_seller = contract_addr(5);
    let id = m
        .auction_token(
            NFT,
            1,
            1,
            100,
            200,
            1100,
            EgldOrEsdtTokenIdentifier::Egld,
            None,
            None,
            None,
            None,
            sc_seller,
            1000,
            nft_info(),
        )
        .unwrap();
    m.bid(id, NFT, 1, EgldOrEsdtTokenIdentifier::Egld, 0, 180, addr(3), 1020).unwrap();
    m.end_auction(id, 1101, nft_info()).unwrap();
    let egld = EgldOrEsdtTokenIdentifier::Egld;
    assert_eq!(m.claimable_amount(sc_seller, egld, 0), 167);
    // duplicated pairs pay only once, and the native total is one payment
    let (egld_total, payments) = m.claim_tokens(sc_seller, addr(6), vec![(egld, 0), (egld, 0)]);
    assert_eq!(egld_total, 167);
    assert!(payments.is_empty());
    assert_eq!(m.claimable_amount(sc_seller, egld, 0), 0);
}

#[test]
fn outbid_contract_account_is_credited() {
    let mut m = market();
    let sc_bidder = contract_addr(8);
    let id = list_nft(&mut m);
    m.bid(id, NFT, 1, EgldOrEsdtTokenIdentifier::Esdt(PAY), 0, 150, sc_bidder, 1010).unwrap();
    // the refund cannot be pushed to a contract account; it is credited
    let transfers = esdt_pay(&mut m, id, 180, addr(3), 1020).unwrap();
    assert!(transfers.is_empty());
    assert_eq!(m.claimable_amount(sc_bidder, EgldOrEsdtTokenIdentifier::Esdt(PAY), 0), 150);
}

#[test]
fn split_is_exact() {
    let m = market();
    assert_eq!(m.calculate_cut_amount(180, 250), 4);
    assert_eq!(m.calculate_cut_amount(180, 500), 9);
    assert_eq!(m.calculate_cut_amount(19, 9_999), 18);
    assert_eq!(m.calculate_cut_amount(0, 9_999), 0);
    let a = esdt_nft_marketplace::auction_model::Auction {
        auctioned_tokens: esdt_nft_marketplace::types::EsdtTokenPayment {
            token_identifier: NFT,
            token_nonce: 1,
            amount: 1,
        },
        auction_type: AuctionType::Nft,
        payment_token: EgldOrEsdtTokenIdentifier::Esdt(PAY),
        payment_nonce: 0,
        min_bid: 100,
        max_bid: Some(200),
        min_bid_diff: 0,
        start_time: 1000,
        deadline: 1100,
        original_owner: seller(),
        current_bid: 177,
        current_winner: addr(3),
        marketplace_cut_percentage: 250,
        creator_royalties_percentage: 333,
    };
    let split = m.calculate_winning_bid_split(&a);
    // 177 * 3.33% = 5 (floored), 177 * 2.5% = 4 (floored), remainder to the seller
    assert_eq!(split.creator, 5);
    assert_eq!(split.marketplace, 4);
    assert_eq!(split.seller, 168);
    assert_eq!(split.creator + split.marketplace + split.seller, 177);
}
