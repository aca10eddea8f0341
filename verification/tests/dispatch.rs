use dbc_pallets::dispatch::{ensure_root, ensure_signed, DispatchError, Origin};

#[test]
fn ensure_root_accepts_only_root() {
    assert_eq!(ensure_root::<u64, ()>(&Origin::Root), Ok(()));
    assert_eq!(ensure_root::<u64, ()>(&Origin::Signed(3)), Err(DispatchError::BadOrigin));
    assert_eq!(ensure_root::<u64, ()>(&Origin::Unsigned), Err(DispatchError::BadOrigin));
}

#[test]
fn ensure_signed_gives_signer() {
    assert_eq!(ensure_signed::<u64, ()>(&Origin::Signed(3)), Ok(3));
    assert_eq!(ensure_signed::<u64, ()>(&Origin::Root), Err(DispatchError::BadOrigin));
    assert_eq!(ensure_signed::<u64, ()>(&Origin::Unsigned), Err(DispatchError::BadOrigin));
}
