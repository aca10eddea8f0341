//! The transient-rental pallet: an admin appoints committee members, members
//! vouch for miners, and miners register machines by locking DLC stake in the
//! pallet's account.
use vstd::prelude::*;
use crate::dispatch::{ensure_root, ensure_signed, DispatchError, Origin};
use crate::item_list::{key_set, sorted, ItemList};
use crate::sort_key::{KeyOrder, SortKey};
use crate::support::MachineId;

verus! {

broadcast use crate::item_list::lemma_sorted_weak;

/// Accounts of the runtime: 32 bytes.
pub type AccountId32 = [u8; 32];

/// The asset id of DLC.
pub const DLC_ASSET_ID: u32 = 88;

/// A machine as its miner registers it.
#[derive(Clone, Debug, PartialEq, Eq)]
pub struct MachineInfo<AccountId, BlockNumber> {
    pub machine_owner: AccountId,
    pub machine_id: MachineId,
    pub hardware_info: HardwareInfo,
    pub rent_info: RentInfo<BlockNumber>,
    pub stake_info: StakeInfo,
    pub internet_cafe_info: InternetCafeInfo,
}

#[derive(Clone, Debug, Default, PartialEq, Eq)]
pub struct HardwareInfo {
    /// GPU model.
    pub gpu_type: Vec<u8>,
    /// Number of GPUs.
    pub gpu_num: u32,
    /// Number of CUDA cores.
    pub cuda_core: u32,
    /// GPU memory.
    pub gpu_mem: u64,
    /// CPU model.
    pub cpu_type: Vec<u8>,
    /// Number of CPU cores.
    pub cpu_core_num: u32,
    /// CPU frequency.
    pub cpu_rate: u64,
    /// Memory size.
    pub mem_num: u64,
    /// System disk size.
    pub sys_disk: u64,
    /// Data disk size.
    pub data_disk: u64,
    /// Computing power.
    pub calc_point: u64,
}

#[derive(Clone, Copy, Debug, Default, PartialEq, Eq)]
pub struct RentInfo<BlockNumber> {
    /// Price per hour, in USD.
    pub rent_price: u64,
    /// How long one rental lasts.
    pub rent_duration: BlockNumber,
    /// From which block the machine can be rented.
    pub rent_start_block: BlockNumber,
}

#[derive(Clone, Copy, Debug, Default, PartialEq, Eq)]
pub struct StakeInfo {
    /// Stake multiple chosen, or none.
    pub stake_multiple: u64,
    /// DLC locked when the machine goes online.
    pub stake_dlc_amount: u128,
}

/// The internet cafe that hosts a machine.
#[derive(Clone, Debug, Default, PartialEq, Eq)]
pub struct InternetCafeInfo {
    pub internet_cafe_id: Vec<u8>,
}

/// A registered machine with the DLC locked for it.
#[derive(Clone, Debug, PartialEq, Eq)]
pub struct MachineRecord<BlockNumber> {
    pub machine_id: MachineId,
    pub machine_info: MachineInfo<AccountId32, BlockNumber>,
    pub online_locked: u128,
}

/// A DLC transfer that the caller is to make through the asset pallet.
#[derive(Clone, Copy, Debug, PartialEq, Eq)]
pub struct DlcTransfer {
    pub asset_id: u32,
    pub from: AccountId32,
    pub to: AccountId32,
    pub amount: u128,
}

/// Errors of the pallet.
#[derive(Clone, Copy, Debug, PartialEq, Eq, Structural)]
pub enum Error {
    AdminNotExist,
    RequireAdmin,
    RequireCommittee,
    MachineIdExist,
    InsufficientDLCBalance,
}

/// The account of a pallet: `modl`, the pallet id, then zero bytes, as a
/// pallet id is turned into an account id of 32 bytes.
pub open spec fn pallet_account(pallet_id: [u8; 8]) -> Seq<u8> {
    seq![109u8, 111u8, 100u8, 108u8] + pallet_id@ + Seq::new(20, |i: int| 0u8)
}

/// After the committee gained `member`, `member` passes the committee check;
/// after it lost `member`, `member` is refused.
pub proof fn law_committee_check_after_change<BlockNumber>(after: Pallet<BlockNumber>, before: Pallet<BlockNumber>, member: AccountId32, add: bool)
    requires
        key_set(after.committee@) == (if add {
            key_set(before.committee@).insert(member@)
        } else {
            key_set(before.committee@).remove(member@)
        }),
    ensures
        after.committee_check(member) == (if add {
            Ok::<(), Error>(())
        } else {
            Err(Error::RequireAdmin)
        }),
{
}

/// Only the admin passes the admin check: with no admin everyone is refused
/// with `AdminNotExist`; with an admin set, exactly the admin passes and any
/// other account is refused with `RequireAdmin`.
pub proof fn law_admin_check<BlockNumber>(pallet: Pallet<BlockNumber>, who: AccountId32)
    ensures
        pallet.admin is None ==> pallet.admin_check(who) == Err::<(), Error>(Error::AdminNotExist),
        pallet.admin matches Some(a) && a@ == who@ ==> pallet.admin_check(who) == Ok::<(), Error>(()),
        pallet.admin matches Some(a) && a@ != who@ ==> pallet.admin_check(who) == Err::<(), Error>(Error::RequireAdmin),
{
}

/// Exactly the committee members pass the committee check; anyone else is
/// refused with `RequireAdmin`.
pub proof fn law_committee_check<BlockNumber>(pallet: Pallet<BlockNumber>, who: AccountId32)
    ensures
        key_set(pallet.committee@).contains(who@) ==> pallet.committee_check(who) == Ok::<(), Error>(()),
        !key_set(pallet.committee@).contains(who@) ==> pallet.committee_check(who) == Err::<(), Error>(Error::RequireAdmin),
{
}

/// The pallet account starts with `modl`, goes on with the pallet id and is
/// padded with zero bytes to 32 bytes.
pub proof fn law_pallet_account(pallet_id: [u8; 8])
    ensures
        pallet_account(pallet_id).len() == 32,
        pallet_account(pallet_id).take(4) == seq![109u8, 111u8, 100u8, 108u8],
        forall|i: int| 0 <= i < 8 ==> pallet_account(pallet_id)[4 + i] == pallet_id@[i],
        forall|i: int| 12 <= i < 32 ==> pallet_account(pallet_id)[i] == 0u8,
{
    assert(pallet_account(pallet_id).take(4) =~= seq![109u8, 111u8, 100u8, 108u8]);
}

/// The pallet's storage and its constant pallet id.
#[derive(Clone, Debug, PartialEq, Eq)]
pub struct Pallet<BlockNumber> {
    pub pallet_id: [u8; 8],
    /// The account allowed to change the committee.
    pub admin: Option<AccountId32>,
    /// Accounts allowed to vouch for miners, sorted.
    pub committee: Vec<AccountId32>,
    /// Miners vouched for, sorted.
    pub verified_miner: Vec<AccountId32>,
    /// Registered machines, each id once.
    pub machines: Vec<MachineRecord<BlockNumber>>,
}

impl<BlockNumber> Pallet<BlockNumber> {
    /// Sorted sets, and each machine id registered once.
    pub open spec fn wf(&self) -> bool {
        &&& sorted(self.committee@)
        &&& sorted(self.verified_miner@)
        &&& forall|i: int, j: int|
            0 <= i < j < self.machines@.len() ==> #[trigger] self.machines@[i].machine_id@
                != #[trigger] self.machines@[j].machine_id@
    }

    /// A machine with this id is registered.
    pub open spec fn has_machine(&self, id: Seq<u8>) -> bool {
        exists|i: int| 0 <= i < self.machines@.len() && #[trigger] self.machines@[i].machine_id@ == id
    }

    /// What `ensure_admin` answers.
    pub open spec fn admin_check(&self, who: AccountId32) -> Result<(), Error> {
        match self.admin {
            None => Err(Error::AdminNotExist),
            Some(a) => if a@ == who@ {
                Ok(())
            } else {
                Err(Error::RequireAdmin)
            },
        }
    }

    /// What `ensure_committee` answers: a non-member is refused with
    /// `RequireAdmin`.
    pub open spec fn committee_check(&self, who: AccountId32) -> Result<(), Error> {
        if key_set(self.committee@).contains(who@) {
            Ok(())
        } else {
            Err(Error::RequireAdmin)
        }
    }

    /// Storage as at genesis, with the given pallet id.
    pub fn new(pallet_id: [u8; 8]) -> (r: Self)
        ensures
            r.wf(),
            r.pallet_id == pallet_id,
            r.admin is None,
            r.committee@.len() == 0,
            r.verified_miner@.len() == 0,
            r.machines@.len() == 0,
    {
        Pallet {
            pallet_id,
            admin: None,
            committee: Vec::new(),
            verified_miner: Vec::new(),
            machines: Vec::new(),
        }
    }

    /// The pallet's own account, derived from its pallet id.
    pub fn account_id(&self) -> (r: AccountId32)
        ensures
            r@ == pallet_account(self.pallet_id),
    {
        let p = self.pallet_id;
        let r: [u8; 32] = [
            109, 111, 100, 108, p[0], p[1], p[2], p[3], p[4], p[5], p[6], p[7],
            0, 0, 0, 0, 0, 0, 0, 0, 0, 0, 0, 0, 0, 0, 0, 0, 0, 0, 0, 0,
        ];
        assert(r@ =~= pallet_account(self.pallet_id));
        r
    }

    /// The index of the machine registered with this id, if any.
    pub fn find_machine(&self, machine_id: &MachineId) -> (r: Option<usize>)
        ensures
            r matches Some(i) ==> i < self.machines@.len() && self.machines@[i as int].machine_id@ == machine_id@,
            r is None <==> !self.has_machine(machine_id@),
    {
        let mut i: usize = 0;
        while i < self.machines.len()
            invariant
                i <= self.machines@.len(),
                forall|k: int| 0 <= k < i ==> #[trigger] self.machines@[k].machine_id@ != machine_id@,
            decreases self.machines@.len() - i,
        {
            if self.machines[i].machine_id.compare_key(machine_id) == KeyOrder::Equal {
                return Some(i);
            }
            i = i + 1;
        }
        None
    }

    /// The admin, if one is set.
    pub fn admin(&self) -> (r: Option<AccountId32>)
        ensures
            r == self.admin,
    {
        self.admin
    }

    /// The information of the machine registered with this id, if any.
    pub fn machine_info(&self, machine_id: &MachineId) -> (r: Option<&MachineInfo<AccountId32, BlockNumber>>)
        requires
            self.wf(),
        ensures
            r is None <==> !self.has_machine(machine_id@),
            forall|i: int|
                0 <= i < self.machines@.len() && #[trigger] self.machines@[i].machine_id@ == machine_id@
                    ==> r == Some(&self.machines@[i].machine_info),
    {
        match self.find_machine(machine_id) {
            Some(i) => Some(&self.machines[i].machine_info),
            None => None,
        }
    }

    /// The DLC locked for a machine; 0 for one not registered.
    pub fn machine_online_locked(&self, machine_id: &MachineId) -> (r: u128)
        requires
            self.wf(),
        ensures
            !self.has_machine(machine_id@) ==> r == 0,
            forall|i: int|
                0 <= i < self.machines@.len() && #[trigger] self.machines@[i].machine_id@ == machine_id@
                    ==> r == self.machines@[i].online_locked,
    {
        match self.find_machine(machine_id) {
            Some(i) => self.machines[i].online_locked,
            None => 0,
        }
    }

    /// Root sets the admin.
    pub fn set_admin(&mut self, origin: Origin<AccountId32>, admin: AccountId32) -> (r: Result<(), DispatchError<Error>>)
        ensures
            r == (if origin is Root {
                Ok::<(), DispatchError<Error>>(())
            } else {
                Err(DispatchError::BadOrigin)
            }),
            final(self).admin == (if origin is Root { Some(admin) } else { old(self).admin }),
            final(self).pallet_id == old(self).pallet_id,
            final(self).committee == old(self).committee,
            final(self).verified_miner == old(self).verified_miner,
            final(self).machines == old(self).machines,
    {
        ensure_root(&origin)?;
        self.admin = Some(admin);
        Ok(())
    }

    /// Accepts `who` only if it is the admin.
    pub fn ensure_admin(&self, who: AccountId32) -> (r: Result<(), Error>)
        ensures
            r == self.admin_check(who),
            self.admin is None ==> r == Err::<(), Error>(Error::AdminNotExist),
            self.admin matches Some(a) && a@ == who@ ==> r is Ok,
            self.admin matches Some(a) && a@ != who@ ==> r == Err::<(), Error>(Error::RequireAdmin),
    {
        match &self.admin {
            Some(admin) => {
                if admin.compare_key(&who) == KeyOrder::Equal {
                    Ok(())
                } else {
                    Err(Error::RequireAdmin)
                }
            },
            None => Err(Error::AdminNotExist),
        }
    }

    /// Accepts `who` only if it is a committee member.
    pub fn ensure_committee(&self, who: AccountId32) -> (r: Result<(), Error>)
        requires
            self.wf(),
        ensures
            r == self.committee_check(who),
            r is Ok <==> key_set(self.committee@).contains(who@),
            r is Err ==> r == Err::<(), Error>(Error::RequireAdmin),
    {
        if ItemList::contains_item(&self.committee, &who) {
            Ok(())
        } else {
            Err(Error::RequireAdmin)
        }
    }

    /// The admin adds `committee` to the committee, or removes it.
    pub fn change_committee(&mut self, origin: Origin<AccountId32>, committee: AccountId32, add: bool) -> (r: Result<
        (),
        DispatchError<Error>,
    >)
        requires
            old(self).wf(),
        ensures
            final(self).wf(),
            match origin {
                Origin::Signed(who) => match old(self).admin_check(who) {
                    Ok(_) => {
                        &&& r is Ok
                        &&& key_set(final(self).committee@) == (if add {
                            key_set(old(self).committee@).insert(committee@)
                        } else {
                            key_set(old(self).committee@).remove(committee@)
                        })
                        &&& final(self).pallet_id == old(self).pallet_id
                        &&& final(self).admin == old(self).admin
                        &&& final(self).verified_miner == old(self).verified_miner
                        &&& final(self).machines == old(self).machines
                    },
                    Err(e) => r == Err::<(), DispatchError<Error>>(DispatchError::Module(e)) && *final(self) == *old(self),
                },
                _ => r == Err::<(), DispatchError<Error>>(DispatchError::BadOrigin) && *final(self) == *old(self),
            },
    {
        let who = ensure_signed(&origin)?;
        if let Err(e) = self.ensure_admin(who) {
            return Err(DispatchError::Module(e));
        }
        if add {
            ItemList::add_item(&mut self.committee, committee);
        } else {
            ItemList::rm_item(&mut self.committee, &committee);
        }
        Ok(())
    }

    /// A committee member vouches for `miner`, or withdraws it.
    pub fn change_verified_miner(&mut self, origin: Origin<AccountId32>, miner: AccountId32, add: bool) -> (r: Result<
        (),
        DispatchError<Error>,
    >)
        requires
            old(self).wf(),
        ensures
            final(self).wf(),
            match origin {
                Origin::Signed(who) => match old(self).committee_check(who) {
                    Ok(_) => {
                        &&& r is Ok
                        &&& key_set(final(self).verified_miner@) == (if add {
                            key_set(old(self).verified_miner@).insert(miner@)
                        } else {
                            key_set(old(self).verified_miner@).remove(miner@)
                        })
                        &&& final(self).pallet_id == old(self).pallet_id
                        &&& final(self).admin == old(self).admin
                        &&& final(self).committee == old(self).committee
                        &&& final(self).machines == old(self).machines
                    },
                    Err(e) => r == Err::<(), DispatchError<Error>>(DispatchError::Module(e)) && *final(self) == *old(self),
                },
                _ => r == Err::<(), DispatchError<Error>>(DispatchError::BadOrigin) && *final(self) == *old(self),
            },
    {
        let who = ensure_signed(&origin)?;
        if let Err(e) = self.ensure_committee(who) {
            return Err(DispatchError::Module(e));
        }
        if add {
            ItemList::add_item(&mut self.verified_miner, miner);
        } else {
            ItemList::rm_item(&mut self.verified_miner, &miner);
        }
        Ok(())
    }

    /// A miner asks to register a machine. `miner_dlc_balance` is the miner's
    /// DLC balance as the asset pallet reports it. Refused for an id
    /// registered already, or when the balance is below the stake; otherwise
    /// the answer is the transfer of the stake from the miner to the pallet's
    /// account, which the caller makes before `complete_submit_machine`.
    /// Storage is not changed here.
    pub fn submit_machine(
        &self,
        origin: Origin<AccountId32>,
        machine_id: &MachineId,
        machine_info: &MachineInfo<AccountId32, BlockNumber>,
        miner_dlc_balance: u128,
    ) -> (r: Result<DlcTransfer, DispatchError<Error>>)
        requires
            self.wf(),
        ensures
            match origin {
                Origin::Signed(miner) => if self.has_machine(machine_id@) {
                    r == Err::<DlcTransfer, DispatchError<Error>>(DispatchError::Module(Error::MachineIdExist))
                } else if miner_dlc_balance < machine_info.stake_info.stake_dlc_amount {
                    r == Err::<DlcTransfer, DispatchError<Error>>(DispatchError::Module(Error::InsufficientDLCBalance))
                } else {
                    r matches Ok(t) && t.asset_id == DLC_ASSET_ID && t.from@ == miner@
                        && t.to@ == pallet_account(self.pallet_id)
                        && t.amount == machine_info.stake_info.stake_dlc_amount
                },
                _ => r == Err::<DlcTransfer, DispatchError<Error>>(DispatchError::BadOrigin),
            },
    {
        let miner = ensure_signed(&origin)?;
        if self.find_machine(machine_id).is_some() {
            return Err(DispatchError::Module(Error::MachineIdExist));
        }
        let stake = machine_info.stake_info.stake_dlc_amount;
        if miner_dlc_balance < stake {
            return Err(DispatchError::Module(Error::InsufficientDLCBalance));
        }
        let to = self.account_id();
        Ok(DlcTransfer { asset_id: DLC_ASSET_ID, from: miner, to, amount: stake })
    }

    /// Finishes a registration that `submit_machine` accepted, given how the
    /// stake transfer went: when it failed, its error is passed on and
    /// storage stays as it was; when it succeeded, the machine is registered
    /// with its stake locked.
    pub fn complete_submit_machine<E>(
        &mut self,
        machine_id: MachineId,
        machine_info: MachineInfo<AccountId32, BlockNumber>,
        transfer_outcome: Result<(), E>,
    ) -> (r: Result<(), E>)
        requires
            old(self).wf(),
            !old(self).has_machine(machine_id@),
        ensures
            final(self).wf(),
            match transfer_outcome {
                Err(e) => r == Err::<(), E>(e) && *final(self) == *old(self),
                Ok(_) => {
                    &&& r is Ok
                    &&& final(self).machines@ == old(self).machines@.push(
                        (MachineRecord {
                            machine_id: machine_id,
                            machine_info: machine_info,
                            online_locked: machine_info.stake_info.stake_dlc_amount,
                        }),
                    )
                    &&& final(self).pallet_id == old(self).pallet_id
                    &&& final(self).admin == old(self).admin
                    &&& final(self).committee == old(self).committee
                    &&& final(self).verified_miner == old(self).verified_miner
                },
            },
    {
        match transfer_outcome {
            Err(e) => Err(e),
            Ok(_) => {
                let stake = machine_info.stake_info.stake_dlc_amount;
                let ghost old_machines = self.machines@;
                self.machines.push(MachineRecord { machine_id, machine_info, online_locked: stake });
                assert forall|i: int, j: int| 0 <= i < j < self.machines@.len() implies #[trigger] self.machines@[i].machine_id@
                    != #[trigger] self.machines@[j].machine_id@ by {
                    assert(self.machines@[i] == old_machines[i]);
                    if j < old_machines.len() {
                        assert(self.machines@[j] == old_machines[j]);
                    }
                }
                Ok(())
            },
        }
    }

    /// A committee member rents a machine; nothing is charged yet.
    pub fn rent_machine(&self, origin: Origin<AccountId32>, machine_id: MachineId) -> (r: Result<(), DispatchError<Error>>)
        requires
            self.wf(),
        ensures
            match origin {
                Origin::Signed(renter) => match self.committee_check(renter) {
                    Ok(_) => r is Ok,
                    Err(e) => r == Err::<(), DispatchError<Error>>(DispatchError::Module(e)),
                },
                _ => r == Err::<(), DispatchError<Error>>(DispatchError::BadOrigin),
            },
    {
        let renter = ensure_signed(&origin)?;
        if let Err(e) = self.ensure_committee(renter) {
            return Err(DispatchError::Module(e));
        }
        Ok(())
    }
}

} // verus!
