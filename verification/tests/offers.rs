use esdt_nft_marketplace::auction::AuctionModule;
use esdt_nft_marketplace::bidding::BiddingModule;
use esdt_nft_marketplace::events::EventsModule;
use esdt_nft_marketplace::offer::OfferModule;
use esdt_nft_marketplace::seller_mock::Adder;
use esdt_nft_marketplace::seller_mock::SellerContractMock;
use esdt_nft_marketplace::storage::Marketplace;
use esdt_nft_marketplace::storage::StorageModule;
use esdt_nft_marketplace::token_distribution::TokenDistributionModule;
use esdt_nft_marketplace::types::Address;
use esdt_nft_marketplace::types::EgldOrEsdtTokenIdentifier;
use esdt_nft_marketplace::types::EgldOrEsdtTokenPayment;
use esdt_nft_marketplace::types::EsdtTokenData;
use esdt_nft_marketplace::types::MarketplaceError;
use esdt_nft_marketplace::types::Transfer;
use esdt_nft_marketplace::views::ViewsModule;
use esdt_nft_marketplace::EsdtNftMarketplace;

const NFT: u64 = 7;
const PAY: u64 = 9;

fn addr(id: u64) -> Address {
    Address { id, is_contract: false }
}

fn owner() -> Address {
    addr(90)
}

fn seller() -> Address {
    addr(1)
}

fn offeror() -> Address {
    addr(2)
}

fn creator() -> Address {
    addr(4)
}

fn nft_info() -> EsdtTokenData {
    EsdtTokenData { royalties: 500, creator: creator() }
}

fn market() -> Marketplace {
    Marketplace::init(owner(), 250).unwrap()
}

fn payment_of(amount: u64) -> EgldOrEsdtTokenPayment {
    EgldOrEsdtTokenPayment {
        token_identifier: EgldOrEsdtTokenIdentifier::Esdt(PAY),
        token_nonce: 0,
        amount,
    }
}

/// Creates the standard offer: 1 unit of the asset for 100, open until
/// time 2000, sent at time 1000 with no competing marketplace balance.
fn send_std_offer(m: &mut Marketplace) -> u64 {
    m.send_offer(NFT, 1, 1, 2000, None, payment_of(100), offeror(), 1000, 0).unwrap()
}

#[test]
fn offer_token_go() {
    let mut m = market();
    let id = send_std_offer(&mut m);
    assert_eq!(id, 1);
    assert_eq!(m.last_valid_offer_id(), 1);
    let o = m.try_get_offer(id).unwrap();
    assert_eq!(o.offer_owner, offeror());
    assert_eq!(o.payment.amount, 100);
    assert_eq!(o.start_time, 1000);
    assert_eq!(o.deadline, 2000);
}

#[test]
fn offer_validations() {
    let mut m = market();
    // fungible tokens cannot be asked for
    let r = m.send_offer(NFT, 0, 1, 2000, None, payment_of(100), offeror(), 1000, 0);
    assert_eq!(r.unwrap_err(), MarketplaceError::InvalidParameters);
    // zero quantity
    let r = m.send_offer(NFT, 1, 0, 2000, None, payment_of(100), offeror(), 1000, 0);
    assert_eq!(r.unwrap_err(), MarketplaceError::InvalidParameters);
    // zero payment
    let r = m.send_offer(NFT, 1, 1, 2000, None, payment_of(0), offeror(), 1000, 0);
    assert_eq!(r.unwrap_err(), MarketplaceError::InvalidParameters);
    // deadline in the past
    let r = m.send_offer(NFT, 1, 1, 900, None, payment_of(100), offeror(), 1000, 0);
    assert_eq!(r.unwrap_err(), MarketplaceError::TimingViolation);
}

#[test]
fn offer_with_held_asset_needs_auction_reference() {
    let mut m = market();
    // the marketplace holds the asset, so an auction id must be named
    let r = m.send_offer(NFT, 1, 1, 2000, None, payment_of(100), offeror(), 1000, 1);
    assert_eq!(r.unwrap_err(), MarketplaceError::InvalidParameters);
    let r = m.send_offer(NFT, 1, 1, 2000, Some(9), payment_of(100), offeror(), 1000, 1);
    assert_eq!(r.unwrap_err(), MarketplaceError::NotFound);
    let auction_id = m
        .auction_token(
            NFT,
            1,
            1,
            100,
            200,
            1100,
            EgldOrEsdtTokenIdentifier::Esdt(PAY),
            None,
            None,
            None,
            None,
            seller(),
            1000,
            nft_info(),
        )
        .unwrap();
    m.send_offer(NFT, 1, 1, 2000, Some(auction_id), payment_of(100), offeror(), 1000, 1).unwrap();
}

#[test]
fn offer_token_with_active_auction_bid_after_offer_go() {
    let mut m = market();
    let auction_id = m
        .auction_token(
            NFT,
            1,
            1,
            100,
            200,
            1100,
            EgldOrEsdtTokenIdentifier::Esdt(PAY),
            None,
            None,
            None,
            None,
            seller(),
            1000,
            nft_info(),
        )
        .unwrap();
    let offer_id = m
        .send_offer(NFT, 1, 1, 2000, Some(auction_id), payment_of(100), offeror(), 1000, 1)
        .unwrap();
    m.bid(auction_id, NFT, 1, EgldOrEsdtTokenIdentifier::Esdt(PAY), 0, 150, addr(3), 1010)
        .unwrap();
    // once a bid stands, the paired flow refuses to dispossess the bidder
    let r = m.withdraw_auction_and_accept_offer(auction_id, offer_id, seller(), 1020, nft_info());
    assert_eq!(r.unwrap_err(), MarketplaceError::AuctionHasBids);
}

#[test]
fn offer_token_with_active_auction_no_bid_go() {
    let mut m = market();
    let auction_id = m
        .auction_token(
            NFT,
            1,
            1,
            100,
            200,
            1100,
            EgldOrEsdtTokenIdentifier::Esdt(PAY),
            None,
            None,
            None,
            None,
            seller(),
            1000,
            nft_info(),
        )
        .unwrap();
    let offer_id = m
        .send_offer(NFT, 1, 1, 2000, Some(auction_id), payment_of(100), offeror(), 1000, 1)
        .unwrap();
    let transfers = m
        .withdraw_auction_and_accept_offer(auction_id, offer_id, seller(), 1020, nft_info())
        .unwrap();
    let pay = EgldOrEsdtTokenIdentifier::Esdt(PAY);
    let asset = EgldOrEsdtTokenIdentifier::Esdt(NFT);
    // the withdrawn asset returns to the seller, goes out to the offeror,
    // and the payment splits 2 cut / 5 royalties / 93 proceeds
    assert_eq!(
        transfers,
        vec![
            Transfer { to: seller(), token: asset, nonce: 1, amount: 1 },
            Transfer { to: offeror(), token: asset, nonce: 1, amount: 1 },
            Transfer { to: owner(), token: pay, nonce: 0, amount: 2 },
            Transfer { to: creator(), token: pay, nonce: 0, amount: 5 },
            Transfer { to: seller(), token: pay, nonce: 0, amount: 93 },
        ]
    );
    assert!(!m.does_auction_exist(auction_id));
    assert_eq!(m.try_get_offer(offer_id).unwrap_err(), MarketplaceError::NotFound);
}

#[test]
fn offer_token_with_active_auction_with_bid_go() {
    let mut m = market();
    let auction_id = m
        .auction_token(
            NFT,
            1,
            1,
            100,
            200,
            1100,
            EgldOrEsdtTokenIdentifier::Esdt(PAY),
            None,
            None,
            None,
            None,
            seller(),
            1000,
            nft_info(),
        )
        .unwrap();
    m.bid(auction_id, NFT, 1, EgldOrEsdtTokenIdentifier::Esdt(PAY), 0, 150, addr(3), 1005)
        .unwrap();
    // with a live bid the marketplace holds the asset and the named
    // auction already has bids: the offer cannot even be created
    let r = m.send_offer(NFT, 1, 1, 2000, Some(auction_id), payment_of(100), offeror(), 1010, 1);
    assert_eq!(r.unwrap_err(), MarketplaceError::AuctionHasBids);
}

#[test]
fn offer_token_withdraw_reoffer_go() {
    let mut m = market();
    let id = send_std_offer(&mut m);
    m.withdraw_offer(id, offeror()).unwrap();
    let id2 = send_std_offer(&mut m);
    // ids are never reused
    assert_eq!(id2, 2);
    assert_eq!(m.try_get_offer(1).unwrap_err(), MarketplaceError::NotFound);
    assert!(m.try_get_offer(2).is_ok());
}

#[test]
fn withdraw_offer_refunds_in_full() {
    let mut m = market();
    let id = send_std_offer(&mut m);
    assert_eq!(m.withdraw_offer(id, addr(3)).unwrap_err(), MarketplaceError::NotAuthorized);
    let transfers = m.withdraw_offer(id, offeror()).unwrap();
    assert_eq!(
        transfers,
        vec![Transfer { to: offeror(), token: EgldOrEsdtTokenIdentifier::Esdt(PAY), nonce: 0, amount: 100 }]
    );
    assert_eq!(m.try_get_offer(id).unwrap_err(), MarketplaceError::NotFound);
    assert_eq!(m.withdraw_offer(id, offeror()).unwrap_err(), MarketplaceError::NotFound);
}

#[test]
fn offer_token_accept_go() {
    let mut m = market();
    let id = send_std_offer(&mut m);
    let transfers = m.accept_offer(id, NFT, 1, 1, seller(), 1500, nft_info()).unwrap();
    let pay = EgldOrEsdtTokenIdentifier::Esdt(PAY);
    let asset = EgldOrEsdtTokenIdentifier::Esdt(NFT);
    assert_eq!(
        transfers,
        vec![
            Transfer { to: offeror(), token: asset, nonce: 1, amount: 1 },
            Transfer { to: owner(), token: pay, nonce: 0, amount: 2 },
            Transfer { to: creator(), token: pay, nonce: 0, amount: 5 },
            Transfer { to: seller(), token: pay, nonce: 0, amount: 93 },
        ]
    );
    assert_eq!(m.try_get_offer(id).unwrap_err(), MarketplaceError::NotFound);
}

#[test]
fn accept_offer_validations() {
    let mut m = market();
    let id = send_std_offer(&mut m);
    assert_eq!(
        m.accept_offer(55, NFT, 1, 1, seller(), 1500, nft_info()).unwrap_err(),
        MarketplaceError::NotFound
    );
    // wrong quantity, identifier or nonce
    assert_eq!(
        m.accept_offer(id, NFT, 1, 2, seller(), 1500, nft_info()).unwrap_err(),
        MarketplaceError::WrongAsset
    );
    assert_eq!(
        m.accept_offer(id, NFT + 1, 1, 1, seller(), 1500, nft_info()).unwrap_err(),
        MarketplaceError::WrongAsset
    );
    assert_eq!(
        m.accept_offer(id, NFT, 2, 1, seller(), 1500, nft_info()).unwrap_err(),
        MarketplaceError::WrongAsset
    );
    // expired
    assert_eq!(
        m.accept_offer(id, NFT, 1, 1, seller(), 2000, nft_info()).unwrap_err(),
        MarketplaceError::TimingViolation
    );
    // the offeror may not accept its own offer
    assert_eq!(
        m.accept_offer(id, NFT, 1, 1, offeror(), 1500, nft_info()).unwrap_err(),
        MarketplaceError::NotAuthorized
    );
    // royalties are recomputed at acceptance time
    let high = EsdtTokenData { royalties: 9_800, creator: creator() };
    assert_eq!(
        m.accept_offer(id, NFT, 1, 1, seller(), 1500, high).unwrap_err(),
        MarketplaceError::RoyaltyOverflow
    );
    // the record survives every rejection
    assert!(m.try_get_offer(id).is_ok());
}

#[test]
fn claim_of_unknown_pair_is_noop() {
    let mut m = market();
    let (egld_total, payments) =
        m.claim_tokens(addr(2), addr(2), vec![(EgldOrEsdtTokenIdentifier::Esdt(PAY), 0)]);
    assert_eq!(egld_total, 0);
    assert!(payments.is_empty());
    let (egld_total, payments) = m.claim_tokens(addr(2), addr(2), vec![]);
    assert_eq!(egld_total, 0);
    assert!(payments.is_empty());
}

#[test]
fn seller_mock_pulls_its_balance() {
    let mut m = market();
    let sc_seller = Address { id: 5, is_contract: true };
    // a contract seller's proceeds land on the claimable ledger
    let auction_id = m
        .auction_token(
            NFT,
            1,
            1,
            100,
            200,
            1100,
            EgldOrEsdtTokenIdentifier::Esdt(PAY),
            None,
            None,
            None,
            None,
            sc_seller,
            1000,
            nft_info(),
        )
        .unwrap();
    m.bid(auction_id, NFT, 1, EgldOrEsdtTokenIdentifier::Esdt(PAY), 0, 180, addr(3), 1020)
        .unwrap();
    m.end_auction(auction_id, 1101, nft_info()).unwrap();
    let pay = EgldOrEsdtTokenIdentifier::Esdt(PAY);
    assert_eq!(m.claimable_amount(sc_seller, pay, 0), 167);
    let mock = SellerContractMock::init(sc_seller);
    let (egld_total, payments) = mock.claim(&mut m, pay, 0, addr(6));
    assert_eq!(egld_total, 0);
    assert_eq!(payments, vec![Transfer { to: addr(6), token: pay, nonce: 0, amount: 167 }]);
    assert_eq!(m.claimable_amount(sc_seller, pay, 0), 0);
}

#[test]
fn event_payloads_mirror_records() {
    let mut m = market();
    let auction_id = m
        .auction_token(
            NFT,
            1,
            1,
            100,
            200,
            1100,
            EgldOrEsdtTokenIdentifier::Esdt(PAY),
            None,
            None,
            None,
            None,
            seller(),
            1000,
            nft_info(),
        )
        .unwrap();
    let a = m.get_full_auction_data(auction_id).unwrap();
    let listed = m.emit_auction_token_event(auction_id, a);
    assert_eq!(listed.auction_id, auction_id);
    assert_eq!(listed.seller, seller());
    assert_eq!(listed.min_bid, 100);
    assert_eq!(listed.max_bid, 200);
    assert_eq!(listed.creator_royalties_percentage, 500);
    m.bid(auction_id, NFT, 1, EgldOrEsdtTokenIdentifier::Esdt(PAY), 0, 150, addr(3), 1010)
        .unwrap();
    let a = m.get_full_auction_data(auction_id).unwrap();
    let bid_ev = m.emit_bid_event(auction_id, a);
    assert_eq!(bid_ev.account, addr(3));
    assert_eq!(bid_ev.bid_amount, 150);
    let end_ev = m.emit_end_auction_event(auction_id, a);
    assert_eq!(end_ev.bid_amount, 150);
    let wd_ev = m.emit_withdraw_event(auction_id, a);
    assert_eq!(wd_ev.seller, seller());
    let offer_id = send_std_offer(&mut m);
    let o = m.try_get_offer(offer_id).unwrap();
    let offer_ev = m.emit_offer_token_event(offer_id, o);
    assert_eq!(offer_ev.buyer, offeror());
    assert_eq!(offer_ev.payment_amount, 100);
    assert_eq!(offer_ev.seller, Address { id: 0, is_contract: false });
    let wd_offer_ev = m.emit_withdraw_offer_event(offer_id, o);
    assert_eq!(wd_offer_ev.offer_id, offer_id);
    let accept_ev = m.emit_accept_offer_event(offer_id, o, seller());
    assert_eq!(accept_ev.seller, seller());
}
