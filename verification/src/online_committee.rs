//! The online-committee workflow: committee members booked to verify a
//! machine first commit to a hash of the machine's information, then reveal
//! it, and the round is summarized once everyone revealed or the time is up.
use vstd::prelude::*;
use crate::item_list::{key_set, sorted, sorted_weak, lemma_key_set_take_next, lemma_sorted_subset_full, ItemList};
use crate::sort_key::{KeyOrder, SortKey};
use crate::support::{CommitteeUploadInfo, MachineConfirmStatus, MachineId, OCBookResultType};

verus! {

broadcast use crate::item_list::lemma_sorted_weak;

/// 36 hours divide into 9 intervals for verification.
pub const DISTRIBUTION: u32 = 9;
/// Each committee member has 480 blocks (4 hours) to verify a machine.
pub const DURATIONPERCOMMITTEE: u32 = 480;
/// 36 hours after the order is distributed, committee members may reveal.
pub const SUBMIT_RAW_START: u32 = 4320;
/// The committee's opinions are summarized 48 hours after distribution.
pub const SUBMIT_RAW_END: u32 = 5760;
pub const TWO_DAY: u32 = 5760;

/// The order in which one committee member verifies.
#[derive(Clone, Debug, PartialEq, Eq)]
pub struct VerifySequence<AccountId> {
    pub who: AccountId,
    pub index: Vec<usize>,
}

/// The machines distributed to one committee member, by stage.
#[derive(Clone, Debug, Default, PartialEq, Eq)]
pub struct OCCommitteeMachineList {
    /// Machines distributed to the member, to be verified.
    pub booked_machine: Vec<MachineId>,
    /// Machines whose information hash the member submitted.
    pub hashed_machine: Vec<MachineId>,
    /// Machines whose raw information the member submitted.
    pub confirmed_machine: Vec<MachineId>,
    /// Machines that went online.
    pub online_machine: Vec<MachineId>,
}

impl OCCommitteeMachineList {
    /// The lists that are searched and updated are sorted without duplicates.
    pub open spec fn wf(&self) -> bool {
        &&& sorted(self.booked_machine@)
        &&& sorted(self.hashed_machine@)
        &&& sorted(self.confirmed_machine@)
    }

    /// The member submitted the hash for `machine_id`: it moves from booked to
    /// hashed.
    pub fn submit_hash(&mut self, machine_id: MachineId)
        requires
            sorted(old(self).booked_machine@),
            sorted(old(self).hashed_machine@),
        ensures
            sorted(final(self).booked_machine@),
            sorted(final(self).hashed_machine@),
            old(self).wf() ==> final(self).wf(),
            key_set(final(self).booked_machine@) == key_set(old(self).booked_machine@).remove(machine_id@),
            key_set(final(self).hashed_machine@) == key_set(old(self).hashed_machine@).insert(machine_id@),
            final(self).confirmed_machine == old(self).confirmed_machine,
            final(self).online_machine == old(self).online_machine,
    {
        ItemList::rm_item(&mut self.booked_machine, &machine_id);
        ItemList::add_item(&mut self.hashed_machine, machine_id);
    }

    /// What `submit_raw` answers.
    pub open spec fn submit_raw_result(&self, machine_id: Seq<u8>) -> Result<(), CustomErr> {
        if !key_set(self.hashed_machine@).contains(machine_id) {
            Err(CustomErr::NotSubmitHash)
        } else if key_set(self.confirmed_machine@).contains(machine_id) {
            Err(CustomErr::AlreadySubmitRaw)
        } else {
            Ok(())
        }
    }

    /// The member submitted the raw information for `machine_id`: refused
    /// unless the hash was submitted and the raw information was not; then it
    /// moves from hashed to confirmed.
    pub fn submit_raw(&mut self, machine_id: MachineId) -> (r: Result<(), CustomErr>)
        requires
            sorted(old(self).hashed_machine@),
            sorted(old(self).confirmed_machine@),
        ensures
            sorted(final(self).hashed_machine@),
            sorted(final(self).confirmed_machine@),
            old(self).wf() ==> final(self).wf(),
            r == old(self).submit_raw_result(machine_id@),
            !key_set(old(self).hashed_machine@).contains(machine_id@) ==> r == Err::<(), CustomErr>(CustomErr::NotSubmitHash),
            key_set(old(self).hashed_machine@).contains(machine_id@) && key_set(old(self).confirmed_machine@).contains(
                machine_id@,
            ) ==> r == Err::<(), CustomErr>(CustomErr::AlreadySubmitRaw),
            key_set(old(self).hashed_machine@).contains(machine_id@) && !key_set(old(self).confirmed_machine@).contains(
                machine_id@,
            ) ==> r is Ok,
            r is Err ==> *final(self) == *old(self),
            r is Ok ==> {
                &&& key_set(final(self).hashed_machine@) == key_set(old(self).hashed_machine@).remove(machine_id@)
                &&& key_set(final(self).confirmed_machine@) == key_set(old(self).confirmed_machine@).insert(machine_id@)
                &&& final(self).booked_machine == old(self).booked_machine
                &&& final(self).online_machine == old(self).online_machine
            },
    {
        if !ItemList::contains_item(&self.hashed_machine, &machine_id) {
            return Err(CustomErr::NotSubmitHash);
        }
        if ItemList::contains_item(&self.confirmed_machine, &machine_id) {
            return Err(CustomErr::AlreadySubmitRaw);
        }
        ItemList::rm_item(&mut self.hashed_machine, &machine_id);
        ItemList::add_item(&mut self.confirmed_machine, machine_id);
        Ok(())
    }

    /// Clears a machine that is distributed again from the member's lists.
    pub fn revert_book(&mut self, machine_id: &MachineId)
        requires
            old(self).wf(),
        ensures
            final(self).wf(),
            key_set(final(self).booked_machine@) == key_set(old(self).booked_machine@).remove(machine_id@),
            key_set(final(self).hashed_machine@) == key_set(old(self).hashed_machine@).remove(machine_id@),
            key_set(final(self).confirmed_machine@) == key_set(old(self).confirmed_machine@).remove(machine_id@),
            final(self).online_machine == old(self).online_machine,
    {
        ItemList::rm_item(&mut self.booked_machine, machine_id);
        ItemList::rm_item(&mut self.hashed_machine, machine_id);
        ItemList::rm_item(&mut self.confirmed_machine, machine_id);
    }

    /// After the machine went online, clears it from every stage in which the
    /// member left it.
    pub fn online_cleanup(&mut self, machine_id: &MachineId)
        requires
            old(self).wf(),
        ensures
            final(self).wf(),
            key_set(final(self).booked_machine@) == key_set(old(self).booked_machine@).remove(machine_id@),
            key_set(final(self).hashed_machine@) == key_set(old(self).hashed_machine@).remove(machine_id@),
            key_set(final(self).confirmed_machine@) == key_set(old(self).confirmed_machine@).remove(machine_id@),
            final(self).online_machine == old(self).online_machine,
    {
        ItemList::rm_item(&mut self.booked_machine, machine_id);
        ItemList::rm_item(&mut self.hashed_machine, machine_id);
        ItemList::rm_item(&mut self.confirmed_machine, machine_id);
    }
}

/// Revealing a machine needs its hash first: for a machine not among the
/// hashed ones the answer is `NotSubmitHash`, whatever else holds.
pub proof fn law_machine_reveal_needs_hash(list: OCCommitteeMachineList, machine_id: Seq<u8>)
    requires
        !key_set(list.hashed_machine@).contains(machine_id),
    ensures
        list.submit_raw_result(machine_id) == Err::<(), CustomErr>(CustomErr::NotSubmitHash),
{
}

/// A machine is revealed once: a hashed machine revealed already is refused
/// with `AlreadySubmitRaw`.
pub proof fn law_machine_reveal_once(list: OCCommitteeMachineList, machine_id: Seq<u8>)
    requires
        key_set(list.hashed_machine@).contains(machine_id),
        key_set(list.confirmed_machine@).contains(machine_id),
    ensures
        list.submit_raw_result(machine_id) == Err::<(), CustomErr>(CustomErr::AlreadySubmitRaw),
{
}

/// A hashed machine not revealed yet is accepted.
pub proof fn law_machine_reveal_accepted(list: OCCommitteeMachineList, machine_id: Seq<u8>)
    requires
        key_set(list.hashed_machine@).contains(machine_id),
        !key_set(list.confirmed_machine@).contains(machine_id),
    ensures
        list.submit_raw_result(machine_id) == Ok::<(), CustomErr>(()),
{
}

/// Why a committee step is refused.
#[derive(Clone, Copy, Debug, PartialEq, Eq, Structural)]
pub enum CustomErr {
    NotInBookList,
    TimeNotAllow,
    AlreadySubmitHash,
    AlreadySubmitRaw,
    NotSubmitHash,
    Overflow,
}

/// The errors of the online-committee pallet that its custom errors become.
#[derive(Clone, Copy, Debug, PartialEq, Eq, Structural)]
pub enum Error {
    NotInBookList,
    TimeNotAllow,
    AlreadySubmitHash,
    AlreadySubmitRaw,
    NotSubmitHash,
    Overflow,
}

impl From<CustomErr> for Error {
    fn from(err: CustomErr) -> (r: Error) {
        match err {
            CustomErr::NotInBookList => Error::NotInBookList,
            CustomErr::TimeNotAllow => Error::TimeNotAllow,
            CustomErr::AlreadySubmitHash => Error::AlreadySubmitHash,
            CustomErr::AlreadySubmitRaw => Error::AlreadySubmitRaw,
            CustomErr::NotSubmitHash => Error::NotSubmitHash,
            CustomErr::Overflow => Error::Overflow,
        }
    }
}

impl vstd::std_specs::convert::FromSpecImpl<CustomErr> for Error {
    open spec fn obeys_from_spec() -> bool {
        true
    }

    open spec fn from_spec(err: CustomErr) -> Error {
        match err {
            CustomErr::NotInBookList => Error::NotInBookList,
            CustomErr::TimeNotAllow => Error::TimeNotAllow,
            CustomErr::AlreadySubmitHash => Error::AlreadySubmitHash,
            CustomErr::AlreadySubmitRaw => Error::AlreadySubmitRaw,
            CustomErr::NotSubmitHash => Error::NotSubmitHash,
            CustomErr::Overflow => Error::Overflow,
        }
    }
}

/// The stage of a machine's verification order.
#[derive(Clone, Copy, Debug, PartialEq, Eq, Structural)]
pub enum OCVerifyStatus {
    SubmittingHash,
    SubmittingRaw,
    Summarizing,
    Finished,
}

impl Default for OCVerifyStatus {
    fn default() -> (r: Self)
        ensures
            r == OCVerifyStatus::SubmittingHash,
    {
        OCVerifyStatus::SubmittingHash
    }
}

/// The committee that verifies one machine. Block numbers are `u32`.
#[derive(Clone, Debug, Default, PartialEq, Eq)]
pub struct OCMachineCommitteeList<AccountId> {
    /// When the order was distributed.
    pub book_time: u32,
    /// Members that got the job to verify the machine.
    pub booked_committee: Vec<AccountId>,
    /// Members that submitted the information hash.
    pub hashed_committee: Vec<AccountId>,
    /// From when members may submit the raw information; it may start at
    /// once when all booked members submitted their hash.
    pub confirm_start_time: u32,
    /// Members that submitted the raw information.
    pub confirmed_committee: Vec<AccountId>,
    /// Members in the consensus, rewarded once the machine is online.
    pub onlined_committee: Vec<AccountId>,
    /// Current stage of the order.
    pub status: OCVerifyStatus,
}

impl<AccountId: SortKey> OCMachineCommitteeList<AccountId> {
    /// The lists that are searched and updated are sorted without duplicates.
    pub open spec fn wf(&self) -> bool {
        &&& sorted(self.booked_committee@)
        &&& sorted(self.hashed_committee@)
        &&& sorted(self.confirmed_committee@)
    }

    /// The end of the window for raw information, `book_time + SUBMIT_RAW_END`.
    pub open spec fn raw_end(&self) -> int {
        self.book_time + SUBMIT_RAW_END
    }

    /// Every member that revealed had hashed, and every member that hashed
    /// was booked.
    pub open spec fn stages_nested(&self) -> bool {
        &&& key_set(self.confirmed_committee@).subset_of(key_set(self.hashed_committee@))
        &&& key_set(self.hashed_committee@).subset_of(key_set(self.booked_committee@))
    }

    /// What `submit_hash` answers.
    pub open spec fn submit_hash_result(&self, committee: AccountId::V) -> Result<(), CustomErr> {
        if !key_set(self.booked_committee@).contains(committee) {
            Err(CustomErr::NotInBookList)
        } else if key_set(self.hashed_committee@).contains(committee) {
            Err(CustomErr::AlreadySubmitHash)
        } else {
            Ok(())
        }
    }

    /// What `submit_raw` answers.
    pub open spec fn submit_raw_result(&self, time: u32, committee: AccountId::V) -> Result<(), CustomErr> {
        if self.status != OCVerifyStatus::SubmittingRaw && (time < self.confirm_start_time || time > self.raw_end()) {
            Err(CustomErr::TimeNotAllow)
        } else if !key_set(self.hashed_committee@).contains(committee) {
            Err(CustomErr::NotSubmitHash)
        } else {
            Ok(())
        }
    }

    /// A booked member submits the information hash; once every booked member
    /// did, the order moves on to the raw information.
    pub fn submit_hash(&mut self, committee: AccountId) -> (r: Result<(), CustomErr>)
        requires
            sorted_weak(old(self).booked_committee@),
            sorted(old(self).hashed_committee@),
        ensures
            sorted(final(self).hashed_committee@),
            old(self).wf() ==> final(self).wf(),
            r == old(self).submit_hash_result(committee@),
            !key_set(old(self).booked_committee@).contains(committee@) ==> r == Err::<(), CustomErr>(
                CustomErr::NotInBookList,
            ),
            key_set(old(self).booked_committee@).contains(committee@) ==> (r is Ok <==> !key_set(
                old(self).hashed_committee@,
            ).contains(committee@)),
            r is Err ==> *final(self) == *old(self),
            r is Ok ==> {
                &&& key_set(final(self).hashed_committee@) == key_set(old(self).hashed_committee@).insert(committee@)
                &&& final(self).hashed_committee@.len() == old(self).hashed_committee@.len() + 1
                &&& final(self).status == (if final(self).booked_committee@.len() == final(self).hashed_committee@.len() {
                    OCVerifyStatus::SubmittingRaw
                } else {
                    old(self).status
                })
                &&& final(self).book_time == old(self).book_time
                &&& final(self).booked_committee == old(self).booked_committee
                &&& final(self).confirm_start_time == old(self).confirm_start_time
                &&& final(self).confirmed_committee == old(self).confirmed_committee
                &&& final(self).onlined_committee == old(self).onlined_committee
            },
            old(self).stages_nested() ==> final(self).stages_nested(),
            old(self).wf() && old(self).stages_nested() && r is Ok ==> (final(self).status
                == OCVerifyStatus::SubmittingRaw <==> (
            old(self).status == OCVerifyStatus::SubmittingRaw || key_set(final(self).hashed_committee@) == key_set(
                final(self).booked_committee@,
            ))),
    {
        if !ItemList::contains_item(&self.booked_committee, &committee) {
            return Err(CustomErr::NotInBookList);
        }
        if ItemList::contains_item(&self.hashed_committee, &committee) {
            return Err(CustomErr::AlreadySubmitHash);
        }
        ItemList::add_item(&mut self.hashed_committee, committee);
        proof {
            if old(self).wf() && old(self).stages_nested() {
                lemma_sorted_subset_full(self.hashed_committee@, self.booked_committee@);
            }
        }
        if self.booked_committee.len() == self.hashed_committee.len() {
            self.status = OCVerifyStatus::SubmittingRaw;
        }
        Ok(())
    }

    /// A member that submitted the hash submits the raw information, within
    /// the window unless the order already moved on to raw information; once
    /// every hashing member did, the order moves on to the summary.
    pub fn submit_raw(&mut self, time: u32, committee: AccountId) -> (r: Result<(), CustomErr>)
        requires
            sorted_weak(old(self).hashed_committee@),
            sorted(old(self).confirmed_committee@),
            old(self).status != OCVerifyStatus::SubmittingRaw && time >= old(self).confirm_start_time
                ==> old(self).raw_end() <= u32::MAX,
        ensures
            sorted(final(self).confirmed_committee@),
            old(self).wf() ==> final(self).wf(),
            r == old(self).submit_raw_result(time, committee@),
            old(self).status != OCVerifyStatus::SubmittingRaw && (time < old(self).confirm_start_time || time
                > old(self).book_time + SUBMIT_RAW_END) ==> r == Err::<(), CustomErr>(CustomErr::TimeNotAllow),
            (old(self).status == OCVerifyStatus::SubmittingRaw || (old(self).confirm_start_time <= time && time
                <= old(self).book_time + SUBMIT_RAW_END)) ==> (r is Ok <==> key_set(
                old(self).hashed_committee@,
            ).contains(committee@)),
            r is Err ==> *final(self) == *old(self),
            r is Ok ==> {
                &&& key_set(final(self).confirmed_committee@) == key_set(old(self).confirmed_committee@).insert(committee@)
                &&& final(self).confirmed_committee@.len() == old(self).confirmed_committee@.len() + (if key_set(
                    old(self).confirmed_committee@,
                ).contains(committee@) {
                    0int
                } else {
                    1int
                })
                &&& final(self).status == (if final(self).confirmed_committee@.len() == final(self).hashed_committee@.len() {
                    OCVerifyStatus::Summarizing
                } else {
                    old(self).status
                })
                &&& final(self).book_time == old(self).book_time
                &&& final(self).booked_committee == old(self).booked_committee
                &&& final(self).hashed_committee == old(self).hashed_committee
                &&& final(self).confirm_start_time == old(self).confirm_start_time
                &&& final(self).onlined_committee == old(self).onlined_committee
            },
            old(self).stages_nested() ==> final(self).stages_nested(),
            old(self).wf() && old(self).stages_nested() && r is Ok ==> (final(self).status
                == OCVerifyStatus::Summarizing <==> (
            old(self).status == OCVerifyStatus::Summarizing || key_set(final(self).confirmed_committee@) == key_set(
                final(self).hashed_committee@,
            ))),
    {
        if self.status != OCVerifyStatus::SubmittingRaw {
            if time < self.confirm_start_time {
                return Err(CustomErr::TimeNotAllow);
            }
            if time > self.book_time + SUBMIT_RAW_END {
                return Err(CustomErr::TimeNotAllow);
            }
        }
        if !ItemList::contains_item(&self.hashed_committee, &committee) {
            return Err(CustomErr::NotSubmitHash);
        }
        ItemList::add_item(&mut self.confirmed_committee, committee);
        proof {
            if old(self).wf() && old(self).stages_nested() {
                lemma_sorted_subset_full(self.confirmed_committee@, self.hashed_committee@);
            }
        }
        if self.confirmed_committee.len() == self.hashed_committee.len() {
            self.status = OCVerifyStatus::Summarizing;
        }
        Ok(())
    }

    /// The order can be summarized when it is summarizing, or when it is
    /// taking raw information and the window is over.
    pub fn can_summary(&mut self, now: u32) -> (r: bool)
        requires
            old(self).status == OCVerifyStatus::SubmittingRaw ==> old(self).raw_end() <= u32::MAX,
        ensures
            *final(self) == *old(self),
            r == (old(self).status == OCVerifyStatus::Summarizing
                || (old(self).status == OCVerifyStatus::SubmittingRaw && now >= old(self).raw_end())),
    {
        matches!(self.status, OCVerifyStatus::Summarizing)
            || matches!(self.status, OCVerifyStatus::SubmittingRaw) && now >= self.book_time + SUBMIT_RAW_END
    }

    /// The booked members that did not submit the raw information, sorted;
    /// the booked list may be in any order.
    pub fn summary_unruly(&self) -> (r: Vec<AccountId>)
        requires
            sorted_weak(self.confirmed_committee@),
        ensures
            sorted(r@),
            key_set(r@) == key_set(self.booked_committee@).difference(key_set(self.confirmed_committee@)),
    {
        let mut unruly: Vec<AccountId> = Vec::new();
        let mut i: usize = 0;
        proof {
            assert(key_set(self.booked_committee@.take(0)) =~= Set::<AccountId::V>::empty());
            assert(key_set(unruly@) =~= Set::<AccountId::V>::empty());
        }
        while i < self.booked_committee.len()
            invariant
                i <= self.booked_committee@.len(),
                sorted_weak(self.confirmed_committee@),
                sorted(unruly@),
                key_set(unruly@) == key_set(self.booked_committee@.take(i as int)).difference(
                    key_set(self.confirmed_committee@),
                ),
            decreases self.booked_committee@.len() - i,
        {
            proof {
                lemma_key_set_take_next(self.booked_committee@, i as int);
            }
            if !ItemList::contains_item(&self.confirmed_committee, &self.booked_committee[i]) {
                ItemList::add_item(&mut unruly, self.booked_committee[i].clone_key());
            }
            assert(key_set(unruly@) =~= key_set(self.booked_committee@.take(i as int + 1)).difference(
                key_set(self.confirmed_committee@),
            ));
            i = i + 1;
        }
        assert(self.booked_committee@.take(i as int) =~= self.booked_committee@);
        unruly
    }

    /// Records the outcome of the round: a confirmed or refused machine
    /// finishes the order, and the members of a confirming consensus are kept.
    pub fn after_summary(&mut self, summary_result: MachineConfirmStatus<AccountId>)
        ensures
            match summary_result {
                MachineConfirmStatus::Confirmed(summary) => {
                    &&& final(self).status == OCVerifyStatus::Finished
                    &&& final(self).onlined_committee == summary.valid_support
                },
                MachineConfirmStatus::NoConsensus(_) => {
                    &&& final(self).status == old(self).status
                    &&& final(self).onlined_committee == old(self).onlined_committee
                },
                MachineConfirmStatus::Refuse(_) => {
                    &&& final(self).status == OCVerifyStatus::Finished
                    &&& final(self).onlined_committee == old(self).onlined_committee
                },
            },
            final(self).book_time == old(self).book_time,
            final(self).booked_committee == old(self).booked_committee,
            final(self).hashed_committee == old(self).hashed_committee,
            final(self).confirm_start_time == old(self).confirm_start_time,
            final(self).confirmed_committee == old(self).confirmed_committee,
    {
        match summary_result {
            MachineConfirmStatus::Confirmed(summary) => {
                self.status = OCVerifyStatus::Finished;
                self.onlined_committee = summary.valid_support;
            },
            MachineConfirmStatus::NoConsensus(_) => {},
            MachineConfirmStatus::Refuse(_) => {
                self.status = OCVerifyStatus::Finished;
            },
        }
    }
}

/// The reveal window ends `SUBMIT_RAW_END` blocks after the order was
/// distributed.
pub proof fn law_raw_end<AccountId: SortKey>(list: OCMachineCommitteeList<AccountId>)
    ensures
        list.raw_end() == list.book_time + 5760,
{
}

/// A member that hashed may reveal at any time once the order takes raw
/// information, and otherwise at any time from `confirm_start_time` to
/// `book_time + SUBMIT_RAW_END`, both ends included.
pub proof fn law_reveal_accepted_in_window<AccountId: SortKey>(
    list: OCMachineCommitteeList<AccountId>,
    time: u32,
    committee: AccountId::V,
)
    requires
        key_set(list.hashed_committee@).contains(committee),
        list.status == OCVerifyStatus::SubmittingRaw || (list.confirm_start_time <= time && time
            <= list.book_time + 5760),
    ensures
        list.submit_raw_result(time, committee) == Ok::<(), CustomErr>(()),
{
}

/// Unless the order takes raw information, a reveal before
/// `confirm_start_time` or after `book_time + SUBMIT_RAW_END` is refused with
/// `TimeNotAllow`, in every other stage (hashing, summarizing, finished).
pub proof fn law_reveal_refused_outside_window<AccountId: SortKey>(
    list: OCMachineCommitteeList<AccountId>,
    time: u32,
    committee: AccountId::V,
)
    requires
        list.status != OCVerifyStatus::SubmittingRaw,
        time < list.confirm_start_time || time > list.book_time + 5760,
    ensures
        list.submit_raw_result(time, committee) == Err::<(), CustomErr>(CustomErr::TimeNotAllow),
{
}

/// Inside the window, a member that did not hash is refused with
/// `NotSubmitHash`.
pub proof fn law_reveal_needs_hash<AccountId: SortKey>(
    list: OCMachineCommitteeList<AccountId>,
    time: u32,
    committee: AccountId::V,
)
    requires
        !key_set(list.hashed_committee@).contains(committee),
        list.status == OCVerifyStatus::SubmittingRaw || (list.confirm_start_time <= time && time
            <= list.book_time + 5760),
    ensures
        list.submit_raw_result(time, committee) == Err::<(), CustomErr>(CustomErr::NotSubmitHash),
{
}

/// Only booked members may hash: others are refused with `NotInBookList`.
pub proof fn law_hash_needs_booking<AccountId: SortKey>(list: OCMachineCommitteeList<AccountId>, committee: AccountId::V)
    requires
        !key_set(list.booked_committee@).contains(committee),
    ensures
        list.submit_hash_result(committee) == Err::<(), CustomErr>(CustomErr::NotInBookList),
{
}

/// A booked member hashes once: a second time is refused with
/// `AlreadySubmitHash`, a first time is accepted.
pub proof fn law_hash_once<AccountId: SortKey>(list: OCMachineCommitteeList<AccountId>, committee: AccountId::V)
    requires
        key_set(list.booked_committee@).contains(committee),
    ensures
        key_set(list.hashed_committee@).contains(committee) ==> list.submit_hash_result(committee) == Err::<
            (),
            CustomErr,
        >(CustomErr::AlreadySubmitHash),
        !key_set(list.hashed_committee@).contains(committee) ==> list.submit_hash_result(committee) == Ok::<
            (),
            CustomErr,
        >(()),
{
}

/// The stage one committee member reached on one machine.
#[derive(Clone, Copy, Debug, PartialEq, Eq, Structural)]
pub enum OCMachineStatus {
    Booked,
    Hashed,
    Confirmed,
}

impl Default for OCMachineStatus {
    fn default() -> (r: Self)
        ensures
            r == OCMachineStatus::Booked,
    {
        OCMachineStatus::Booked
    }
}

/// A record of one committee member's operations on one machine.
#[derive(Clone, Debug, Default, PartialEq, Eq)]
pub struct OCCommitteeOps<BlockNumber, Balance> {
    pub staked_dbc: Balance,
    /// When the member can start the virtual machine to verify it.
    pub verify_time: Vec<BlockNumber>,
    pub confirm_hash: [u8; 16],
    pub hash_time: BlockNumber,
    /// When the member submitted the raw information.
    pub confirm_time: BlockNumber,
    pub machine_status: OCMachineStatus,
    pub machine_info: CommitteeUploadInfo,
}

impl<BlockNumber, Balance> OCCommitteeOps<BlockNumber, Balance> {
    /// Records the hash the member committed to, and when.
    pub fn submit_hash(&mut self, time: BlockNumber, hash: [u8; 16])
        ensures
            final(self).machine_status == OCMachineStatus::Hashed,
            final(self).confirm_hash == hash,
            final(self).hash_time == time,
            final(self).staked_dbc == old(self).staked_dbc,
            final(self).verify_time == old(self).verify_time,
            final(self).confirm_time == old(self).confirm_time,
            final(self).machine_info == old(self).machine_info,
    {
        self.machine_status = OCMachineStatus::Hashed;
        self.confirm_hash = hash;
        self.hash_time = time;
    }

    /// Records the raw information the member revealed, and when; the salt
    /// is not kept.
    pub fn submit_raw(&mut self, time: BlockNumber, machine_info: CommitteeUploadInfo)
        ensures
            final(self).confirm_time == time,
            final(self).machine_status == OCMachineStatus::Confirmed,
            final(self).machine_info.same_but_rand_str(machine_info),
            final(self).machine_info.rand_str@ == Seq::<u8>::empty(),
            final(self).staked_dbc == old(self).staked_dbc,
            final(self).verify_time == old(self).verify_time,
            final(self).confirm_hash == old(self).confirm_hash,
            final(self).hash_time == old(self).hash_time,
    {
        self.confirm_time = time;
        self.machine_status = OCMachineStatus::Confirmed;
        self.machine_info = machine_info;
        self.machine_info.rand_str = Vec::new();
    }
}

/// A slash waiting to be executed after a verification round.
#[derive(Clone, Debug, Default, PartialEq, Eq)]
pub struct OCPendingSlashInfo<AccountId, BlockNumber, Balance> {
    pub machine_id: MachineId,
    pub machine_stash: AccountId,
    pub stash_slash_amount: Balance,
    pub inconsistent_committee: Vec<AccountId>,
    pub unruly_committee: Vec<AccountId>,
    pub reward_committee: Vec<AccountId>,
    pub committee_stake: Balance,
    pub slash_time: BlockNumber,
    pub slash_exec_time: BlockNumber,
    pub book_result: OCBookResultType,
    pub slash_result: OCSlashResult,
}

impl<AccountId: SortKey, BlockNumber, Balance> OCPendingSlashInfo<AccountId, BlockNumber, Balance> {
    /// The stash may appeal when its machine was refused.
    pub fn applicant_is_stash(&self, stash: AccountId) -> (r: bool)
        ensures
            r == (self.book_result == OCBookResultType::OnlineRefused && self.machine_stash@ == stash@),
    {
        self.book_result == OCBookResultType::OnlineRefused && self.machine_stash.compare_key(&stash)
            == KeyOrder::Equal
    }

    /// A member may appeal when it is among the inconsistent members.
    pub fn applicant_is_committee(&self, applicant: &AccountId) -> (r: bool)
        requires
            sorted_weak(self.inconsistent_committee@),
        ensures
            r == key_set(self.inconsistent_committee@).contains(applicant@),
    {
        ItemList::contains_item(&self.inconsistent_committee, applicant)
    }
}

/// The state of a pending slash.
#[derive(Clone, Copy, Debug, PartialEq, Eq, Structural)]
pub enum OCSlashResult {
    Pending,
    Canceled,
    Executed,
}

impl Default for OCSlashResult {
    fn default() -> (r: Self)
        ensures
            r == OCSlashResult::Pending,
    {
        OCSlashResult::Pending
    }
}

/// An appeal against a pending slash.
#[derive(Clone, Debug, Default, PartialEq, Eq)]
pub struct OCPendingSlashReviewInfo<AccountId, Balance, BlockNumber> {
    pub applicant: AccountId,
    pub staked_amount: Balance,
    pub apply_time: BlockNumber,
    pub expire_time: BlockNumber,
    pub reason: Vec<u8>,
}

} // verus!
