//! The generic-func pallet: a global transaction fee and its collector, a
//! treasury donation, and the nonce that salts random draws.
use vstd::prelude::*;
use crate::dispatch::{ensure_root, ensure_signed, DispatchError, Origin};
use crate::sort_key::SortKey;

verus! {

/// The SCALE encoding of a `u64`: its eight bytes, least significant first.
pub open spec fn u64_le_bytes(x: u64) -> Seq<u8> {
    Seq::new(8, |i: int| ((x >> ((8 * i) as u64)) & 0xffu64) as u8)
}

/// The encoding is little-endian: byte `i` weighs `256^i`, so the bytes add
/// up to the number.
pub proof fn law_u64_le_bytes_value(x: u64)
    ensures
        u64_le_bytes(x).len() == 8,
        x == u64_le_bytes(x)[0] + u64_le_bytes(x)[1] * 0x100 + u64_le_bytes(x)[2] * 0x1_0000
            + u64_le_bytes(x)[3] * 0x100_0000 + u64_le_bytes(x)[4] * 0x1_0000_0000
            + u64_le_bytes(x)[5] * 0x100_0000_0000 + u64_le_bytes(x)[6] * 0x1_0000_0000_0000
            + u64_le_bytes(x)[7] * 0x100_0000_0000_0000,
{
    let b = u64_le_bytes(x);
    let b0 = b[0];
    let b1 = b[1];
    let b2 = b[2];
    let b3 = b[3];
    let b4 = b[4];
    let b5 = b[5];
    let b6 = b[6];
    let b7 = b[7];
    assert(x == b0 + b1 * 0x100 + b2 * 0x1_0000 + b3 * 0x100_0000 + b4 * 0x1_0000_0000 + b5 * 0x100_0000_0000
        + b6 * 0x1_0000_0000_0000 + b7 * 0x100_0000_0000_0000) by (bit_vector)
        requires
            b0 == ((x >> 0u64) & 0xffu64) as u8,
            b1 == ((x >> 8u64) & 0xffu64) as u8,
            b2 == ((x >> 16u64) & 0xffu64) as u8,
            b3 == ((x >> 24u64) & 0xffu64) as u8,
            b4 == ((x >> 32u64) & 0xffu64) as u8,
            b5 == ((x >> 40u64) & 0xffu64) as u8,
            b6 == ((x >> 48u64) & 0xffu64) as u8,
            b7 == ((x >> 56u64) & 0xffu64) as u8,
    ;
}

/// Distinct numbers have distinct encodings.
pub proof fn law_u64_le_bytes_injective(a: u64, b: u64)
    requires
        a != b,
    ensures
        u64_le_bytes(a) != u64_le_bytes(b),
{
    if u64_le_bytes(a) == u64_le_bytes(b) {
        assert(u64_le_bytes(a)[0] == u64_le_bytes(b)[0]);
        assert(u64_le_bytes(a)[1] == u64_le_bytes(b)[1]);
        assert(u64_le_bytes(a)[2] == u64_le_bytes(b)[2]);
        assert(u64_le_bytes(a)[3] == u64_le_bytes(b)[3]);
        assert(u64_le_bytes(a)[4] == u64_le_bytes(b)[4]);
        assert(u64_le_bytes(a)[5] == u64_le_bytes(b)[5]);
        assert(u64_le_bytes(a)[6] == u64_le_bytes(b)[6]);
        assert(u64_le_bytes(a)[7] == u64_le_bytes(b)[7]);
        assert(a == b) by (bit_vector)
            requires
                ((a >> 0u64) & 0xffu64) as u8 == ((b >> 0u64) & 0xffu64) as u8,
                ((a >> 8u64) & 0xffu64) as u8 == ((b >> 8u64) & 0xffu64) as u8,
                ((a >> 16u64) & 0xffu64) as u8 == ((b >> 16u64) & 0xffu64) as u8,
                ((a >> 24u64) & 0xffu64) as u8 == ((b >> 24u64) & 0xffu64) as u8,
                ((a >> 32u64) & 0xffu64) as u8 == ((b >> 32u64) & 0xffu64) as u8,
                ((a >> 40u64) & 0xffu64) as u8 == ((b >> 40u64) & 0xffu64) as u8,
                ((a >> 48u64) & 0xffu64) as u8 == ((b >> 48u64) & 0xffu64) as u8,
                ((a >> 56u64) & 0xffu64) as u8 == ((b >> 56u64) & 0xffu64) as u8,
        ;
    }
}

/// Calls `parity_scale_codec::Encode::encode` on a `u64`. The codec writes a
/// fixed-width integer as its little-endian bytes (`to_le_bytes`), which is
/// what the contract claims.
#[verifier::external_body]
fn scale_encode_u64(x: u64) -> (r: Vec<u8>)
    ensures
        r@ == u64_le_bytes(x),
{
    parity_scale_codec::Encode::encode(&x)
}

/// The nonce that follows `n`: one more, wrapping to 0 after `u64::MAX`.
pub open spec fn next_nonce(n: u64) -> u64 {
    if n == u64::MAX {
        0
    } else {
        (n + 1) as u64
    }
}

/// The nonce counts up by one, and after `u64::MAX` starts again at 0.
pub proof fn law_next_nonce(n: u64)
    ensures
        n < u64::MAX ==> next_nonce(n) == n + 1,
        n == u64::MAX ==> next_nonce(n) == 0,
{
}

/// Each nonce has its own successor: the nonce runs through every value of
/// `u64` before it comes back.
pub proof fn law_next_nonce_injective(a: u64, b: u64)
    requires
        a != b,
    ensures
        next_nonce(a) != next_nonce(b),
{
}

/// Each update of the nonce gives a subject for the random draw that differs
/// from the one before.
pub proof fn law_subject_changes(n: u64)
    ensures
        u64_le_bytes(next_nonce(n)) != u64_le_bytes(n),
{
    law_u64_le_bytes_injective(next_nonce(n), n);
}

/// Events of the pallet.
#[derive(Clone, Debug, PartialEq, Eq)]
pub enum Event<AccountId> {
    /// An account gave an amount to the treasury.
    DonateToTreasury(AccountId, u128),
}

/// Errors of the pallet.
#[derive(Clone, Copy, Debug, PartialEq, Eq, Structural)]
pub enum Error {
    FreeBalanceNotEnough,
}

/// A transfer of the fixed fee that the caller is to make through the
/// currency.
#[derive(Clone, Debug, PartialEq, Eq)]
pub struct FeeTransfer<AccountId> {
    pub from: AccountId,
    pub to: AccountId,
    pub amount: u128,
}

/// The pallet's storage.
#[derive(Clone, Debug, PartialEq, Eq)]
pub struct Pallet<AccountId> {
    /// Nonce that salts each random draw.
    pub rand_nonce: u64,
    /// Fee that each rental transaction pays.
    pub fixed_tx_fee: u128,
    /// Account that receives the fees.
    pub tx_fee_collector: Option<AccountId>,
}

impl<AccountId: SortKey> Pallet<AccountId> {
    /// Storage as at genesis: nonce 0, fee 0, no collector.
    pub fn new() -> (r: Self)
        ensures
            r.rand_nonce == 0,
            r.fixed_tx_fee == 0,
            r.tx_fee_collector is None,
    {
        Pallet { rand_nonce: 0, fixed_tx_fee: 0, tx_fee_collector: None }
    }

    pub fn rand_nonce(&self) -> (r: u64)
        ensures
            r == self.rand_nonce,
    {
        self.rand_nonce
    }

    pub fn fixed_tx_fee(&self) -> (r: u128)
        ensures
            r == self.fixed_tx_fee,
    {
        self.fixed_tx_fee
    }

    pub fn tx_fee_collector(&self) -> (r: Option<AccountId>)
        ensures
            r is Some <==> self.tx_fee_collector is Some,
            r matches Some(c) ==> c@ == self.tx_fee_collector->0@,
    {
        match &self.tx_fee_collector {
            Some(c) => Some(c.clone_key()),
            None => None,
        }
    }

    /// Root sets the fee that each rental transaction pays.
    pub fn set_fixed_tx_fee(&mut self, origin: Origin<AccountId>, tx_fee: u128) -> (r: Result<(), DispatchError<Error>>)
        ensures
            r == (if origin is Root {
                Ok::<(), DispatchError<Error>>(())
            } else {
                Err(DispatchError::BadOrigin)
            }),
            final(self).fixed_tx_fee == (if origin is Root { tx_fee } else { old(self).fixed_tx_fee }),
            final(self).rand_nonce == old(self).rand_nonce,
            final(self).tx_fee_collector == old(self).tx_fee_collector,
    {
        ensure_root(&origin)?;
        self.fixed_tx_fee = tx_fee;
        Ok(())
    }

    /// Root sets the account that receives the fees.
    pub fn set_tx_fee_collector(&mut self, origin: Origin<AccountId>, who: AccountId) -> (r: Result<(), DispatchError<Error>>)
        ensures
            r == (if origin is Root {
                Ok::<(), DispatchError<Error>>(())
            } else {
                Err(DispatchError::BadOrigin)
            }),
            origin is Root ==> final(self).tx_fee_collector == Some(who),
            !(origin is Root) ==> final(self).tx_fee_collector == old(self).tx_fee_collector,
            final(self).rand_nonce == old(self).rand_nonce,
            final(self).fixed_tx_fee == old(self).fixed_tx_fee,
    {
        ensure_root(&origin)?;
        self.tx_fee_collector = Some(who);
        Ok(())
    }

    /// A signed account gives `amount` to the treasury. `can_slash` is what
    /// the currency answers on whether `amount` can be slashed from the
    /// signer. On success the answer is the event to emit; the caller slashes
    /// `amount` from the signer and hands the imbalance to the fee handler.
    pub fn deposit_into_treasury(origin: Origin<AccountId>, amount: u128, can_slash: bool) -> (r: Result<
        Event<AccountId>,
        DispatchError<Error>,
    >)
        ensures
            match origin {
                Origin::Signed(who) => if can_slash {
                    r matches Ok(Event::DonateToTreasury(w, a)) && w@ == who@ && a == amount
                } else {
                    r == Err::<Event<AccountId>, DispatchError<Error>>(DispatchError::Module(Error::FreeBalanceNotEnough))
                },
                _ => r == Err::<Event<AccountId>, DispatchError<Error>>(DispatchError::BadOrigin),
            },
    {
        let who = ensure_signed(&origin)?;
        if !can_slash {
            return Err(DispatchError::Module(Error::FreeBalanceNotEnough));
        }
        Ok(Event::DonateToTreasury(who, amount))
    }

    /// Advances the nonce, wrapping after `u64::MAX`, and returns the new
    /// nonce in its SCALE encoding, the subject of the next random draw.
    pub fn update_nonce(&mut self) -> (r: Vec<u8>)
        ensures
            final(self).rand_nonce == next_nonce(old(self).rand_nonce),
            r@ == u64_le_bytes(final(self).rand_nonce),
            final(self).fixed_tx_fee == old(self).fixed_tx_fee,
            final(self).tx_fee_collector == old(self).tx_fee_collector,
    {
        let nonce: u64 = if self.rand_nonce == u64::MAX {
            0
        } else {
            self.rand_nonce + 1
        };
        self.rand_nonce = nonce;
        scale_encode_u64(nonce)
    }

    /// Decides whether `who`, whose free balance is `free_balance`, pays the
    /// fixed fee: only when the balance exceeds the fee and a collector is
    /// set. On success the answer is the transfer to make, of the fee from
    /// `who` to the collector; its failure is a failure too.
    pub fn pay_fixed_tx_fee(&self, who: AccountId, free_balance: u128) -> (r: Result<FeeTransfer<AccountId>, ()>)
        ensures
            r is Ok <==> (free_balance > self.fixed_tx_fee && self.tx_fee_collector is Some),
            r matches Ok(t) ==> {
                &&& t.from@ == who@
                &&& t.to@ == self.tx_fee_collector->0@
                &&& t.amount == self.fixed_tx_fee
            },
    {
        let fixed_tx_fee = self.fixed_tx_fee;
        if free_balance > fixed_tx_fee {
            let tx_fee_collector = match &self.tx_fee_collector {
                Some(c) => c.clone_key(),
                None => {
                    return Err(());
                },
            };
            return Ok(FeeTransfer { from: who, to: tx_fee_collector, amount: fixed_tx_fee });
        }
        Err(())
    }
}

} // verus!
