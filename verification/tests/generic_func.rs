use dbc_pallets::dispatch::{DispatchError, Origin};
use dbc_pallets::generic_func::{Error, Event, FeeTransfer, Pallet};

#[test]
fn update_nonce_counts_and_encodes_little_endian() {
    let mut p: Pallet<u64> = Pallet::new();
    assert_eq!(p.rand_nonce(), 0);
    assert_eq!(p.update_nonce(), vec![1, 0, 0, 0, 0, 0, 0, 0]);
    assert_eq!(p.rand_nonce(), 1);
    p.rand_nonce = 0x0102_0304_0506_0707;
    assert_eq!(p.update_nonce(), vec![8, 7, 6, 5, 4, 3, 2, 1]);
}

#[test]
fn update_nonce_wraps_after_max() {
    let mut p: Pallet<u64> = Pallet::new();
    p.rand_nonce = u64::MAX;
    assert_eq!(p.update_nonce(), vec![0; 8]);
    assert_eq!(p.rand_nonce(), 0);
}

#[test]
fn only_root_sets_fee_and_collector() {
    let mut p: Pallet<u64> = Pallet::new();
    assert_eq!(p.set_fixed_tx_fee(Origin::Signed(5), 10), Err(DispatchError::BadOrigin));
    assert_eq!(p.fixed_tx_fee(), 0);
    assert_eq!(p.set_fixed_tx_fee(Origin::Root, 10), Ok(()));
    assert_eq!(p.fixed_tx_fee(), 10);
    assert_eq!(p.set_tx_fee_collector(Origin::Unsigned, 3), Err(DispatchError::BadOrigin));
    assert_eq!(p.tx_fee_collector(), None);
    assert_eq!(p.set_tx_fee_collector(Origin::Root, 3), Ok(()));
    assert_eq!(p.tx_fee_collector(), Some(3));
}

#[test]
fn pay_fixed_tx_fee_needs_more_than_fee_and_collector() {
    let mut p: Pallet<u64> = Pallet::new();
    p.set_fixed_tx_fee(Origin::Root, 10).unwrap();
    assert_eq!(p.pay_fixed_tx_fee(1, 11), Err(()));
    p.set_tx_fee_collector(Origin::Root, 9).unwrap();
    assert_eq!(p.pay_fixed_tx_fee(1, 10), Err(()));
    assert_eq!(p.pay_fixed_tx_fee(1, 11), Ok(FeeTransfer { from: 1, to: 9, amount: 10 }));
}

#[test]
fn deposit_into_treasury_outcomes() {
    assert_eq!(Pallet::<u64>::deposit_into_treasury(Origin::Root, 5, true), Err(DispatchError::BadOrigin));
    assert_eq!(
        Pallet::<u64>::deposit_into_treasury(Origin::Signed(4), 5, false),
        Err(DispatchError::Module(Error::FreeBalanceNotEnough))
    );
    assert_eq!(Pallet::<u64>::deposit_into_treasury(Origin::Signed(4), 5, true), Ok(Event::DonateToTreasury(4, 5)));
}
