use accelerator::fee_rate::FeeRate;
use accelerator::session::{Accelerator, ConfirmationCheck, FeeRateCheck, Ready};
use accelerator::types::{Address, Error, Network, RawTransaction, TransactionInfo, Txid};

fn txid() -> Txid {
    Txid { bytes: [7u8; 32] }
}

fn address(network: Network) -> Address {
    Address { network, text: String::from("bc1qexampledestination") }
}

fn request(network: Network, num: u64, den: u64) -> Accelerator {
    Accelerator {
        address: address(network),
        tx: txid(),
        dry_run: false,
        fee_rate: FeeRate::new(num, den).unwrap(),
    }
}

fn pending(fee: Option<u64>) -> Option<TransactionInfo> {
    Some(TransactionInfo { confirmations: 0, fee })
}

fn raw(size: u64) -> Option<RawTransaction> {
    Some(RawTransaction { size })
}

#[test]
fn accepts_pending_transaction_below_threshold() {
    // fee 500 over size 250 is a current rate of 2.0, below the threshold 5.0
    let check = request(Network::Mainnet, 5, 1).run(Network::Mainnet).unwrap();
    let check = check.resolve(true).unwrap();
    let check = check.resolve(pending(Some(500))).unwrap();
    let ready = check.resolve(raw(250)).unwrap();
    assert_eq!(ready, Ready { txid: txid(), dry_run: false });
}

#[test]
fn rejects_rate_already_at_threshold() {
    // same transaction, but the requested threshold 1.0 is below the rate 2.0
    let check = request(Network::Mainnet, 1, 1).run(Network::Mainnet).unwrap();
    let check = check.resolve(true).unwrap();
    let check = check.resolve(pending(Some(500))).unwrap();
    assert_eq!(check.resolve(raw(250)), Err(Error::FeeRateAlreadySufficient));
}

#[test]
fn rejects_confirmed_transaction() {
    let check = request(Network::Mainnet, 1000, 1).run(Network::Mainnet).unwrap();
    let check = check.resolve(true).unwrap();
    let confirmed = Some(TransactionInfo { confirmations: 1, fee: Some(1) });
    assert_eq!(check.resolve(confirmed), Err(Error::AlreadyConfirmed));
}

#[test]
fn rejects_negative_confirmation_count() {
    let check = request(Network::Mainnet, 1000, 1).run(Network::Mainnet).unwrap();
    let check = check.resolve(true).unwrap();
    let conflicted = Some(TransactionInfo { confirmations: -1, fee: None });
    assert_eq!(check.resolve(conflicted), Err(Error::AlreadyConfirmed));
}

#[test]
fn rejects_mainnet_address_on_test_network() {
    let outcome = request(Network::Mainnet, 5, 1).run(Network::Testnet);
    assert_eq!(outcome.unwrap_err(), Error::InvalidAddressForNetwork);
}

#[test]
fn rejects_address_the_wallet_does_not_own() {
    let check = request(Network::Regtest, 5, 1).run(Network::Regtest).unwrap();
    assert_eq!(check.resolve(false), Err(Error::AddressNotOwned));
}

#[test]
fn absent_fee_passes_any_positive_threshold() {
    // no recorded fee counts as a rate of zero, below even a threshold of 0.001
    let check = request(Network::Mainnet, 1, 1000).run(Network::Mainnet).unwrap();
    let check = check.resolve(true).unwrap();
    let check = check.resolve(pending(None)).unwrap();
    assert_eq!(check.resolve(raw(250)), Ok(Ready { txid: txid(), dry_run: false }));
}

#[test]
fn absent_fee_passes_even_for_zero_size() {
    let check = request(Network::Mainnet, 1, 1000).run(Network::Mainnet).unwrap();
    let check = check.resolve(true).unwrap();
    let check = check.resolve(pending(None)).unwrap();
    assert!(check.resolve(raw(0)).is_ok());
}

#[test]
fn absent_fee_fails_a_zero_threshold() {
    // a rate of zero is not strictly below a threshold of zero
    let check = request(Network::Mainnet, 0, 1).run(Network::Mainnet).unwrap();
    let check = check.resolve(true).unwrap();
    let check = check.resolve(pending(None)).unwrap();
    assert_eq!(check.resolve(raw(250)), Err(Error::FeeRateAlreadySufficient));
}

#[test]
fn missing_transaction_info_is_not_found() {
    let check = request(Network::Mainnet, 5, 1).run(Network::Mainnet).unwrap();
    let check = check.resolve(true).unwrap();
    assert_eq!(check.resolve(None), Err(Error::TransactionNotFound));
}

#[test]
fn missing_raw_transaction_is_not_found() {
    let check = request(Network::Mainnet, 5, 1).run(Network::Mainnet).unwrap();
    let check = check.resolve(true).unwrap();
    let check = check.resolve(pending(Some(500))).unwrap();
    assert_eq!(check.resolve(None), Err(Error::TransactionNotFound));
}

#[test]
fn rate_exactly_at_threshold_is_sufficient() {
    // fee 500 over size 250 is exactly the threshold 2.0; not strictly below
    let check = request(Network::Mainnet, 2, 1).run(Network::Mainnet).unwrap();
    let check = check.resolve(true).unwrap();
    let check = check.resolve(pending(Some(500))).unwrap();
    assert_eq!(check.resolve(raw(250)), Err(Error::FeeRateAlreadySufficient));
}

#[test]
fn fractional_threshold_is_compared_exactly() {
    // rate 2.0 against the threshold 5/2 = 2.5: strictly below, so it passes
    let check = request(Network::Mainnet, 5, 2).run(Network::Mainnet).unwrap();
    let check = check.resolve(true).unwrap();
    let check = check.resolve(pending(Some(500))).unwrap();
    assert!(check.resolve(raw(250)).is_ok());
}

#[test]
fn recorded_fee_with_zero_size_is_sufficient() {
    // with a recorded fee and size zero no rate is strictly below anything
    let check = request(Network::Mainnet, 1000, 1).run(Network::Mainnet).unwrap();
    let check = check.resolve(true).unwrap();
    let check = check.resolve(pending(Some(0))).unwrap();
    assert_eq!(check.resolve(raw(0)), Err(Error::FeeRateAlreadySufficient));
}

#[test]
fn huge_values_do_not_overflow_the_comparison() {
    let check = request(Network::Mainnet, u64::MAX, u64::MAX).run(Network::Mainnet).unwrap();
    let check = check.resolve(true).unwrap();
    let check = check.resolve(pending(Some(u64::MAX))).unwrap();
    // rate MAX / MAX = 1.0 against threshold MAX / MAX = 1.0: not below
    assert_eq!(check.resolve(raw(u64::MAX)), Err(Error::FeeRateAlreadySufficient));
}

#[test]
fn fee_rate_constructor_rejects_zero_denominator() {
    assert!(FeeRate::new(3, 0).is_none());
    assert_eq!(FeeRate::new(3, 2), Some(FeeRate { num: 3, den: 2 }));
}

#[test]
fn whole_number_fee_rate_has_unit_denominator() {
    let rate = FeeRate::from_units_per_vbyte(7);
    assert_eq!(rate, FeeRate { num: 7, den: 1 });
}

#[test]
fn dry_run_flag_is_carried_to_the_ready_state() {
    let mut acc = request(Network::Signet, 5, 1);
    acc.dry_run = true;
    let check = acc.run(Network::Signet).unwrap();
    let check = check.resolve(true).unwrap();
    let check = check.resolve(pending(Some(100))).unwrap();
    let ready = check.resolve(raw(100)).unwrap();
    assert!(ready.dry_run);
}

#[test]
fn checked_address_and_txid_are_passed_through() {
    let acc = request(Network::Testnet, 5, 1);
    let check = acc.run(Network::Testnet).unwrap();
    assert_eq!(check.address.text, address(Network::Testnet).text);
    assert_eq!(check.address.network, Network::Testnet);
    let check: ConfirmationCheck = check.resolve(true).unwrap();
    assert_eq!(check.txid, txid());
    let check: FeeRateCheck = check.resolve(pending(Some(9))).unwrap();
    assert_eq!(check.txid, txid());
    assert_eq!(check.fee, Some(9));
}
