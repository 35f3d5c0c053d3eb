use videown::market::Videown;
use videown::types::{Error, Event, PSP34Error, Trade, Transfer};

const A: u64 = 1;
const B: u64 = 2;
const C: u64 = 3;
const ASSET: u64 = 1;

fn in_sale_error() -> PSP34Error {
    PSP34Error::Custom(String::from("TransferTokenInSale"))
}

/// A owns asset 1; B holds 1000 of the payment currency.
fn setup() -> Videown {
    let mut m = Videown::new();
    m.mint(A, ASSET).unwrap();
    m.deposit(B, 1000);
    m
}

/// As `setup`, with asset 1 listed by A at 100.
fn listed() -> Videown {
    let mut m = setup();
    m.ask(A, ASSET, 100).unwrap();
    m
}

#[test]
fn owner_lists_and_plain_transfer_is_refused() {
    let mut m = setup();
    assert_eq!(m.ask(A, ASSET, 100), Ok(()));
    assert_eq!(m.price(ASSET), Some(100));
    assert_eq!(m.transfer(A, C, ASSET), Err(in_sale_error()));
    assert_eq!(m.owner_of(ASSET), Some(A));
    assert_eq!(m.price(ASSET), Some(100));
}

#[test]
fn non_owner_cannot_ask() {
    let mut m = listed();
    assert_eq!(m.ask(C, ASSET, 50), Err(Error::NotTokenOwner));
    assert_eq!(m.price(ASSET), Some(100));

    let mut fresh = setup();
    assert_eq!(fresh.ask(C, ASSET, 50), Err(Error::NotTokenOwner));
    assert_eq!(fresh.price(ASSET), None);
}

#[test]
fn buyer_pays_listed_price() {
    let mut m = listed();
    let events_before = m.events().len();
    assert_eq!(m.buy(B, ASSET, 100), Ok(()));
    assert_eq!(m.price(ASSET), None);
    assert_eq!(m.owner_of(ASSET), Some(B));
    assert_eq!(m.native_balance(&A), 100);
    assert_eq!(m.native_balance(&B), 900);
    let new_events = &m.events()[events_before..];
    assert_eq!(
        new_events,
        &[
            Event::Transfer(Transfer { from: Some(A), to: Some(B), id: ASSET }),
            Event::Trade(Trade { seller: A, buyer: B, id: ASSET, price: 100 }),
        ]
    );
    let trades = m.events().iter().filter(|e| matches!(e, Event::Trade(_))).count();
    assert_eq!(trades, 1);
    assert_eq!(m.balance_of(&A), 0);
    assert_eq!(m.balance_of(&B), 1);
    assert_eq!(m.total_supply(), 1);
}

#[test]
fn wrong_payment_changes_nothing() {
    let mut m = listed();
    let events_before = m.events().len();
    assert_eq!(m.buy(B, ASSET, 99), Err(Error::NotMatchPrice));
    assert_eq!(m.native_balance(&A), 0);
    assert_eq!(m.native_balance(&B), 1000);
    assert_eq!(m.owner_of(ASSET), Some(A));
    assert_eq!(m.price(ASSET), Some(100));
    assert_eq!(m.events().len(), events_before);
    assert_eq!(m.buy(B, ASSET, 101), Err(Error::NotMatchPrice));
}

#[test]
fn owner_cannot_buy_own_asset() {
    let mut m = listed();
    m.deposit(A, 500);
    assert_eq!(m.buy(A, ASSET, 100), Err(Error::SelfBuy));
    assert_eq!(m.price(ASSET), Some(100));
    assert_eq!(m.native_balance(&A), 500);
}

#[test]
fn cancel_unblocks_transfer() {
    let mut m = listed();
    assert_eq!(m.cancel(A, ASSET), Ok(()));
    assert_eq!(m.price(ASSET), None);
    assert_eq!(m.transfer(A, C, ASSET), Ok(()));
    assert_eq!(m.owner_of(ASSET), Some(C));
    assert_eq!(m.balance_of(&A), 0);
    assert_eq!(m.balance_of(&C), 1);
}

#[test]
fn price_read_twice_agrees() {
    let m = listed();
    assert_eq!(m.price(ASSET), m.price(ASSET));
    assert_eq!(m.price(ASSET), Some(100));
    assert_eq!(m.price(7), m.price(7));
    assert_eq!(m.price(7), None);
}

#[test]
fn second_ask_replaces_price() {
    let mut m = listed();
    assert_eq!(m.ask(A, ASSET, 100), Ok(()));
    assert_eq!(m.price(ASSET), Some(100));
    assert_eq!(m.ask(A, ASSET, 250), Ok(()));
    assert_eq!(m.price(ASSET), Some(250));
    assert_eq!(m.buy(B, ASSET, 100), Err(Error::NotMatchPrice));
    assert_eq!(m.buy(B, ASSET, 250), Ok(()));
    assert_eq!(m.native_balance(&A), 250);
}

#[test]
fn zero_price_listing() {
    let mut m = setup();
    assert_eq!(m.ask(A, ASSET, 0), Ok(()));
    assert_eq!(m.price(ASSET), Some(0));
    assert_eq!(m.buy(C, ASSET, 0), Ok(()));
    assert_eq!(m.owner_of(ASSET), Some(C));
}

#[test]
fn missing_asset_is_reported_by_registry() {
    let mut m = setup();
    let missing = Err(Error::Psp34(PSP34Error::TokenNotExists));
    assert_eq!(m.ask(A, 9, 10), missing);
    assert_eq!(m.buy(B, 9, 10), missing);
    assert_eq!(m.cancel(A, 9), missing);
    assert_eq!(m.transfer(A, B, 9), Err(PSP34Error::TokenNotExists));
    assert_eq!(m.price(9), None);
}

#[test]
fn buying_unlisted_asset_fails() {
    let mut m = setup();
    assert_eq!(m.buy(B, ASSET, 100), Err(Error::NotInSale));
    assert_eq!(m.owner_of(ASSET), Some(A));
}

#[test]
fn cancel_errors() {
    let mut m = setup();
    assert_eq!(m.cancel(A, ASSET), Err(Error::NotInSale));
    m.ask(A, ASSET, 100).unwrap();
    assert_eq!(m.cancel(C, ASSET), Err(Error::NotTokenOwner));
    assert_eq!(m.price(ASSET), Some(100));
}

#[test]
fn payment_failure_changes_nothing() {
    let mut m = listed();
    assert_eq!(m.buy(C, ASSET, 100), Err(Error::NativeTransfer));
    assert_eq!(m.owner_of(ASSET), Some(A));
    assert_eq!(m.price(ASSET), Some(100));
    assert_eq!(m.native_balance(&C), 0);

    let mut full = listed();
    full.deposit(A, u128::MAX);
    assert_eq!(full.buy(B, ASSET, 100), Err(Error::NativeTransfer));
    assert_eq!(full.native_balance(&B), 1000);
    assert_eq!(full.native_balance(&A), u128::MAX);
}

#[test]
fn transfer_by_non_owner_is_refused() {
    let mut m = setup();
    assert_eq!(m.transfer(B, C, ASSET), Err(PSP34Error::NotApproved));
    assert_eq!(m.owner_of(ASSET), Some(A));
}

#[test]
fn transfer_guard_follows_listing() {
    let mut m = setup();
    assert_eq!(m._before_token_transfer(Some(&A), Some(&B), &ASSET), Ok(()));
    m.ask(A, ASSET, 5).unwrap();
    assert_eq!(m._before_token_transfer(Some(&A), Some(&B), &ASSET), Err(in_sale_error()));
    assert_eq!(m._before_token_transfer(None, None, &ASSET), Err(in_sale_error()));
    m.cancel(A, ASSET).unwrap();
    assert_eq!(m._before_token_transfer(None, None, &ASSET), Ok(()));
}

#[test]
fn minting_twice_is_refused() {
    let mut m = setup();
    assert_eq!(m.mint(B, ASSET), Err(PSP34Error::TokenExists));
    assert_eq!(m.mint(B, 2), Ok(()));
    assert_eq!(m.total_supply(), 2);
    assert_eq!(m.balance_of(&B), 1);
    assert_eq!(
        m.events().last(),
        Some(&Event::Transfer(Transfer { from: None, to: Some(B), id: 2 }))
    );
}

#[test]
fn balance_hooks_count_assets() {
    let mut m = Videown::new();
    m._increase_balance(&A, &ASSET, true);
    m._increase_balance(&A, &2, false);
    assert_eq!(m.balance_of(&A), 2);
    assert_eq!(m.total_supply(), 1);
    m._decrease_balance(&A, &ASSET, true);
    assert_eq!(m.balance_of(&A), 1);
    assert_eq!(m.total_supply(), 0);
}

#[test]
fn errors_convert_between_layers() {
    assert_eq!(
        PSP34Error::from(Error::TransferTokenInSale),
        PSP34Error::Custom(String::from("TransferTokenInSale"))
    );
    assert_eq!(
        PSP34Error::from(Error::SelfBuy),
        PSP34Error::Custom(String::from("Undefined for PSP34"))
    );
    assert_eq!(
        PSP34Error::from(Error::NotInSale),
        PSP34Error::Custom(String::from("Undefined for PSP34"))
    );
    assert_eq!(Error::from(PSP34Error::NotApproved), Error::Psp34(PSP34Error::NotApproved));
}
