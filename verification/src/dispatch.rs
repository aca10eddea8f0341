//! Who a call comes from, and why a call is refused before it reaches the
//! pallet's own logic.
use vstd::prelude::*;
use crate::sort_key::SortKey;

verus! {

/// The origin of a call.
#[derive(Clone, Debug, PartialEq, Eq)]
pub enum Origin<AccountId> {
    /// The chain's superuser.
    Root,
    /// A call signed by an account.
    Signed(AccountId),
    /// An unsigned call.
    Unsigned,
}

/// Why a call fails: a wrong origin, or an error of the pallet.
#[derive(Clone, Copy, Debug, PartialEq, Eq)]
pub enum DispatchError<E> {
    BadOrigin,
    Module(E),
}

/// Accepts only the root origin.
pub fn ensure_root<AccountId, E>(origin: &Origin<AccountId>) -> (r: Result<(), DispatchError<E>>)
    ensures
        r == (if origin is Root {
            Ok::<(), DispatchError<E>>(())
        } else {
            Err(DispatchError::BadOrigin)
        }),
{
    match origin {
        Origin::Root => Ok(()),
        _ => Err(DispatchError::BadOrigin),
    }
}

/// Accepts only a signed origin, and gives back the signer.
pub fn ensure_signed<AccountId: SortKey, E>(origin: &Origin<AccountId>) -> (r: Result<AccountId, DispatchError<E>>)
    ensures
        match origin {
            Origin::Signed(who) => r matches Ok(w) && w@ == who@,
            _ => r == Err::<AccountId, DispatchError<E>>(DispatchError::BadOrigin),
        },
{
    match origin {
        Origin::Signed(who) => Ok(who.clone_key()),
        _ => Err(DispatchError::BadOrigin),
    }
}

} // verus!
