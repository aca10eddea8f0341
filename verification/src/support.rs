//! Shared types of the DBC runtime that the pallets exchange: machine ids,
//! the machine information that committees upload, and the outcome of a
//! committee's verification round.
use vstd::prelude::*;

verus! {

/// A machine is named by the bytes of its public key.
pub type MachineId = Vec<u8>;

/// The machine information a committee member uploads in clear text after
/// having committed to its hash.
#[derive(Clone, Debug, Default, PartialEq, Eq)]
pub struct CommitteeUploadInfo {
    pub machine_id: MachineId,
    pub gpu_type: Vec<u8>,
    pub gpu_num: u32,
    pub cuda_core: u32,
    pub gpu_mem: u64,
    pub calc_point: u64,
    pub sys_disk: u64,
    pub data_disk: u64,
    pub cpu_type: Vec<u8>,
    pub cpu_core_num: u32,
    pub cpu_rate: u64,
    pub mem_num: u64,
    /// Random salt that went into the committed hash.
    pub rand_str: Vec<u8>,
    pub is_support: bool,
}

impl CommitteeUploadInfo {
    /// `self` and `other` agree on every field but the salt.
    pub open spec fn same_but_rand_str(self, other: CommitteeUploadInfo) -> bool {
        &&& self.machine_id@ == other.machine_id@
        &&& self.gpu_type@ == other.gpu_type@
        &&& self.gpu_num == other.gpu_num
        &&& self.cuda_core == other.cuda_core
        &&& self.gpu_mem == other.gpu_mem
        &&& self.calc_point == other.calc_point
        &&& self.sys_disk == other.sys_disk
        &&& self.data_disk == other.data_disk
        &&& self.cpu_type@ == other.cpu_type@
        &&& self.cpu_core_num == other.cpu_core_num
        &&& self.cpu_rate == other.cpu_rate
        &&& self.mem_num == other.mem_num
        &&& self.is_support == other.is_support
    }
}

/// How the committee members of one verification round are judged.
#[derive(Clone, Debug, Default, PartialEq, Eq)]
pub struct Summary<AccountId> {
    /// Machine will be online, and those committee members get rewards.
    pub valid_support: Vec<AccountId>,
    /// Machine will be online, but those members submitted information that
    /// differs from the majority and get no reward.
    pub invalid_support: Vec<AccountId>,
    /// Members that did not submit all messages in time.
    pub unruly: Vec<AccountId>,
    /// Members that refused the machine.
    pub against: Vec<AccountId>,
    /// The raw machine information the majority submitted.
    pub info: Option<CommitteeUploadInfo>,
}

/// What happens after all committee members submitted their raw information.
#[derive(Clone, Debug, PartialEq, Eq)]
pub enum MachineConfirmStatus<AccountId> {
    /// The machine is confirmed and can go online.
    Confirmed(Summary<AccountId>),
    /// The machine is refused and will not go online.
    Refuse(Summary<AccountId>),
    /// No consensus: the machine is distributed and verified again.
    NoConsensus(Summary<AccountId>),
}

/// Result of a verification order.
#[derive(Clone, Copy, Debug, PartialEq, Eq, Structural)]
pub enum OCBookResultType {
    OnlineSucceed,
    OnlineRefused,
    NoConsensus,
}

impl Default for OCBookResultType {
    fn default() -> (r: Self)
        ensures
            r == OCBookResultType::OnlineRefused,
    {
        OCBookResultType::OnlineRefused
    }
}

/// Errors of the report workflow that the rental pallets pass on.
#[derive(Clone, Copy, Debug, PartialEq, Eq, Structural)]
pub enum ReportErr {
    OrderNotAllowBook,
    AlreadyBooked,
    NotNeedEncryptedInfo,
    NotOrderReporter,
    OrderStatusNotFeat,
    NotOrderCommittee,
    NotInBookedList,
    NotProperCommittee,
}

} // verus!
