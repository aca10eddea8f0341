use dbc_pallets::dispatch::{DispatchError, Origin};
use dbc_pallets::transient_rental::{
    DlcTransfer, Error, HardwareInfo, InternetCafeInfo, MachineInfo, Pallet, RentInfo, StakeInfo, DLC_ASSET_ID,
};

fn acct(b: u8) -> [u8; 32] {
    [b; 32]
}

fn machine(owner: [u8; 32], id: &[u8], stake: u128) -> MachineInfo<[u8; 32], u32> {
    MachineInfo {
        machine_owner: owner,
        machine_id: id.to_vec(),
        hardware_info: HardwareInfo { gpu_num: 2, ..Default::default() },
        rent_info: RentInfo { rent_price: 3, rent_duration: 60, rent_start_block: 10 },
        stake_info: StakeInfo { stake_multiple: 1, stake_dlc_amount: stake },
        internet_cafe_info: InternetCafeInfo { internet_cafe_id: b"cafe".to_vec() },
    }
}

fn pallet_with_admin() -> Pallet<u32> {
    let mut p: Pallet<u32> = Pallet::new(*b"dbc/trnt");
    p.set_admin(Origin::Root, acct(1)).unwrap();
    p
}

#[test]
fn account_id_is_modl_prefix_id_and_zeros() {
    let p: Pallet<u32> = Pallet::new(*b"py/trsry");
    let mut expected = [0u8; 32];
    expected[..4].copy_from_slice(b"modl");
    expected[4..12].copy_from_slice(b"py/trsry");
    assert_eq!(p.account_id(), expected);
}

#[test]
fn set_admin_needs_root() {
    let mut p: Pallet<u32> = Pallet::new([0; 8]);
    assert_eq!(p.set_admin(Origin::Signed(acct(1)), acct(1)), Err(DispatchError::BadOrigin));
    assert_eq!(p.ensure_admin(acct(1)), Err(Error::AdminNotExist));
    assert_eq!(p.admin(), None);
    assert_eq!(p.set_admin(Origin::Root, acct(1)), Ok(()));
    assert_eq!(p.admin(), Some(acct(1)));
    assert_eq!(p.ensure_admin(acct(1)), Ok(()));
    assert_eq!(p.ensure_admin(acct(2)), Err(Error::RequireAdmin));
}

#[test]
fn only_admin_changes_committee() {
    let mut p = pallet_with_admin();
    assert_eq!(p.change_committee(Origin::Signed(acct(2)), acct(5), true), Err(DispatchError::Module(Error::RequireAdmin)));
    assert_eq!(p.change_committee(Origin::Root, acct(5), true), Err(DispatchError::BadOrigin));
    assert_eq!(p.ensure_committee(acct(5)), Err(Error::RequireAdmin));
    assert_eq!(p.change_committee(Origin::Signed(acct(1)), acct(5), true), Ok(()));
    assert_eq!(p.change_committee(Origin::Signed(acct(1)), acct(3), true), Ok(()));
    assert_eq!(p.committee, vec![acct(3), acct(5)]);
    assert_eq!(p.ensure_committee(acct(5)), Ok(()));
    assert_eq!(p.change_committee(Origin::Signed(acct(1)), acct(5), false), Ok(()));
    assert_eq!(p.ensure_committee(acct(5)), Err(Error::RequireAdmin));
}

#[test]
fn change_committee_without_admin_is_refused() {
    let mut p: Pallet<u32> = Pallet::new([0; 8]);
    assert_eq!(p.change_committee(Origin::Signed(acct(1)), acct(5), true), Err(DispatchError::Module(Error::AdminNotExist)));
}

#[test]
fn committee_vouches_for_miners() {
    let mut p = pallet_with_admin();
    assert_eq!(
        p.change_verified_miner(Origin::Signed(acct(4)), acct(7), true),
        Err(DispatchError::Module(Error::RequireAdmin))
    );
    p.change_committee(Origin::Signed(acct(1)), acct(4), true).unwrap();
    assert_eq!(p.change_verified_miner(Origin::Signed(acct(4)), acct(7), true), Ok(()));
    assert_eq!(p.verified_miner, vec![acct(7)]);
    assert_eq!(p.change_verified_miner(Origin::Signed(acct(4)), acct(7), false), Ok(()));
    assert!(p.verified_miner.is_empty());
}

#[test]
fn submit_machine_locks_stake_once() {
    let mut p = pallet_with_admin();
    let owner = acct(9);
    let id = b"m1".to_vec();
    let info = machine(owner, b"m1", 100);
    assert_eq!(p.submit_machine(Origin::Unsigned, &id, &info, 500), Err(DispatchError::BadOrigin));
    assert_eq!(
        p.submit_machine(Origin::Signed(owner), &id, &info, 99),
        Err(DispatchError::Module(Error::InsufficientDLCBalance))
    );
    assert_eq!(p.machine_online_locked(&id), 0);
    let transfer = p.submit_machine(Origin::Signed(owner), &id, &info, 100).unwrap();
    assert_eq!(transfer, DlcTransfer { asset_id: DLC_ASSET_ID, from: owner, to: p.account_id(), amount: 100 });
    assert_eq!(p.find_machine(&id), None);
    assert_eq!(p.complete_submit_machine::<()>(id.clone(), info.clone(), Ok(())), Ok(()));
    assert_eq!(p.machine_online_locked(&id), 100);
    assert_eq!(p.find_machine(&id), Some(0));
    assert_eq!(p.machines[0].machine_info, machine(owner, b"m1", 100));
    assert_eq!(p.machine_info(&id), Some(&machine(owner, b"m1", 100)));
    assert_eq!(p.machine_info(&b"m2".to_vec()), None);
    assert_eq!(p.find_machine(&b"m2".to_vec()), None);
    assert_eq!(
        p.submit_machine(Origin::Signed(owner), &id, &machine(owner, b"m1", 5), 500),
        Err(DispatchError::Module(Error::MachineIdExist))
    );
    assert_eq!(p.machine_online_locked(&id), 100);
}

#[test]
fn failed_stake_transfer_leaves_storage_unchanged() {
    let mut p = pallet_with_admin();
    let owner = acct(9);
    let id = b"m7".to_vec();
    let info = machine(owner, b"m7", 40);
    p.submit_machine(Origin::Signed(owner), &id, &info, 40).unwrap();
    let before = p.clone();
    assert_eq!(p.complete_submit_machine(id.clone(), info, Err("transfer failed")), Err("transfer failed"));
    assert_eq!(p, before);
    assert_eq!(p.machine_online_locked(&id), 0);
}

#[test]
fn rent_machine_needs_committee_member() {
    let mut p = pallet_with_admin();
    assert_eq!(p.rent_machine(Origin::Root, b"m".to_vec()), Err(DispatchError::BadOrigin));
    assert_eq!(p.rent_machine(Origin::Signed(acct(6)), b"m".to_vec()), Err(DispatchError::Module(Error::RequireAdmin)));
    p.change_committee(Origin::Signed(acct(1)), acct(6), true).unwrap();
    assert_eq!(p.rent_machine(Origin::Signed(acct(6)), b"m".to_vec()), Ok(()));
}
