use dbc_pallets::online_committee::{
    CustomErr, Error, OCCommitteeMachineList, OCCommitteeOps, OCMachineCommitteeList, OCMachineStatus,
    OCPendingSlashInfo, OCSlashResult, OCVerifyStatus, SUBMIT_RAW_END,
};
use dbc_pallets::support::{CommitteeUploadInfo, MachineConfirmStatus, OCBookResultType, Summary};

fn committee_list(booked: Vec<u64>) -> OCMachineCommitteeList<u64> {
    OCMachineCommitteeList {
        book_time: 100,
        booked_committee: booked,
        hashed_committee: Vec::new(),
        confirm_start_time: 4420,
        confirmed_committee: Vec::new(),
        onlined_committee: Vec::new(),
        status: OCVerifyStatus::SubmittingHash,
    }
}

#[test]
fn machine_list_moves_machine_through_stages() {
    let mut list = OCCommitteeMachineList {
        booked_machine: vec![b"m1".to_vec(), b"m2".to_vec()],
        ..Default::default()
    };
    list.submit_hash(b"m2".to_vec());
    assert_eq!(list.booked_machine, vec![b"m1".to_vec()]);
    assert_eq!(list.hashed_machine, vec![b"m2".to_vec()]);
    assert_eq!(list.submit_raw(b"m1".to_vec()), Err(CustomErr::NotSubmitHash));
    assert_eq!(list.submit_raw(b"m2".to_vec()), Ok(()));
    assert!(list.hashed_machine.is_empty());
    assert_eq!(list.confirmed_machine, vec![b"m2".to_vec()]);
}

#[test]
fn machine_list_refuses_second_raw_submission() {
    let mut list = OCCommitteeMachineList {
        hashed_machine: vec![b"m".to_vec()],
        confirmed_machine: vec![b"m".to_vec()],
        ..Default::default()
    };
    assert_eq!(list.submit_raw(b"m".to_vec()), Err(CustomErr::AlreadySubmitRaw));
    assert_eq!(list.hashed_machine, vec![b"m".to_vec()]);
}

#[test]
fn revert_book_and_online_cleanup_clear_every_stage() {
    let full = OCCommitteeMachineList {
        booked_machine: vec![b"a".to_vec(), b"m".to_vec()],
        hashed_machine: vec![b"m".to_vec()],
        confirmed_machine: vec![b"m".to_vec(), b"z".to_vec()],
        online_machine: vec![b"m".to_vec()],
    };
    let mut reverted = full.clone();
    reverted.revert_book(&b"m".to_vec());
    assert_eq!(reverted.booked_machine, vec![b"a".to_vec()]);
    assert!(reverted.hashed_machine.is_empty());
    assert_eq!(reverted.confirmed_machine, vec![b"z".to_vec()]);
    assert_eq!(reverted.online_machine, vec![b"m".to_vec()]);
    let mut cleaned = full.clone();
    cleaned.online_cleanup(&b"m".to_vec());
    assert_eq!(cleaned, reverted);
}

#[test]
fn committee_submit_hash_checks_and_advances() {
    let mut list = committee_list(vec![1, 2, 3]);
    assert_eq!(list.submit_hash(9), Err(CustomErr::NotInBookList));
    assert_eq!(list.submit_hash(2), Ok(()));
    assert_eq!(list.submit_hash(2), Err(CustomErr::AlreadySubmitHash));
    assert_eq!(list.status, OCVerifyStatus::SubmittingHash);
    assert_eq!(list.submit_hash(3), Ok(()));
    assert_eq!(list.submit_hash(1), Ok(()));
    assert_eq!(list.hashed_committee, vec![1, 2, 3]);
    assert_eq!(list.status, OCVerifyStatus::SubmittingRaw);
}

#[test]
fn committee_submit_raw_respects_window() {
    let mut list = committee_list(vec![1, 2]);
    list.submit_hash(1).unwrap();
    // Still submitting hashes: only inside [confirm_start_time, book_time + SUBMIT_RAW_END].
    assert_eq!(list.submit_raw(4419, 1), Err(CustomErr::TimeNotAllow));
    assert_eq!(list.submit_raw(100 + SUBMIT_RAW_END + 1, 1), Err(CustomErr::TimeNotAllow));
    assert_eq!(list.submit_raw(4420, 2), Err(CustomErr::NotSubmitHash));
    assert_eq!(list.submit_raw(100 + SUBMIT_RAW_END, 1), Ok(()));
    assert_eq!(list.confirmed_committee, vec![1]);
    assert_eq!(list.status, OCVerifyStatus::Summarizing);
}

#[test]
fn committee_submit_raw_any_time_once_raw_stage() {
    let mut list = committee_list(vec![1, 2]);
    list.submit_hash(1).unwrap();
    list.submit_hash(2).unwrap();
    assert_eq!(list.status, OCVerifyStatus::SubmittingRaw);
    assert_eq!(list.submit_raw(0, 2), Ok(()));
    assert_eq!(list.status, OCVerifyStatus::SubmittingRaw);
    assert_eq!(list.submit_raw(1, 1), Ok(()));
    assert_eq!(list.status, OCVerifyStatus::Summarizing);
}

#[test]
fn can_summary_by_status_and_time() {
    let mut list = committee_list(vec![1]);
    assert!(!list.can_summary(u32::MAX));
    list.status = OCVerifyStatus::SubmittingRaw;
    assert!(!list.can_summary(100 + SUBMIT_RAW_END - 1));
    assert!(list.can_summary(100 + SUBMIT_RAW_END));
    list.status = OCVerifyStatus::Summarizing;
    assert!(list.can_summary(0));
    list.status = OCVerifyStatus::Finished;
    assert!(!list.can_summary(u32::MAX));
}

#[test]
fn summary_unruly_lists_booked_without_raw() {
    let mut list = committee_list(vec![1, 3, 5, 7]);
    list.hashed_committee = vec![1, 5, 7];
    list.confirmed_committee = vec![5];
    assert_eq!(list.summary_unruly(), vec![1, 3, 7]);
}

#[test]
fn summary_unruly_takes_booked_in_any_order() {
    let mut list = committee_list(vec![3, 1, 2]);
    list.hashed_committee = vec![1, 2, 3];
    list.confirmed_committee = vec![2];
    list.status = OCVerifyStatus::Summarizing;
    assert_eq!(list.summary_unruly(), vec![1, 3]);
}

#[test]
fn after_summary_by_outcome() {
    let summary = Summary { valid_support: vec![2, 4], ..Default::default() };
    let mut confirmed = committee_list(vec![2, 4]);
    confirmed.after_summary(MachineConfirmStatus::Confirmed(summary.clone()));
    assert_eq!(confirmed.status, OCVerifyStatus::Finished);
    assert_eq!(confirmed.onlined_committee, vec![2, 4]);

    let mut refused = committee_list(vec![2, 4]);
    refused.after_summary(MachineConfirmStatus::Refuse(summary.clone()));
    assert_eq!(refused.status, OCVerifyStatus::Finished);
    assert!(refused.onlined_committee.is_empty());

    let mut none = committee_list(vec![2, 4]);
    none.status = OCVerifyStatus::Summarizing;
    none.after_summary(MachineConfirmStatus::NoConsensus(summary));
    assert_eq!(none.status, OCVerifyStatus::Summarizing);
    assert!(none.onlined_committee.is_empty());
}

#[test]
fn committee_ops_record_hash_and_raw() {
    let mut ops: OCCommitteeOps<u32, u128> = OCCommitteeOps::default();
    assert_eq!(ops.machine_status, OCMachineStatus::Booked);
    ops.submit_hash(7, [3u8; 16]);
    assert_eq!(ops.machine_status, OCMachineStatus::Hashed);
    assert_eq!(ops.confirm_hash, [3u8; 16]);
    assert_eq!(ops.hash_time, 7);
    let info = CommitteeUploadInfo {
        machine_id: b"m".to_vec(),
        gpu_num: 4,
        rand_str: b"salt".to_vec(),
        is_support: true,
        ..Default::default()
    };
    ops.submit_raw(9, info);
    assert_eq!(ops.confirm_time, 9);
    assert_eq!(ops.machine_status, OCMachineStatus::Confirmed);
    assert_eq!(ops.machine_info.machine_id, b"m".to_vec());
    assert_eq!(ops.machine_info.gpu_num, 4);
    assert!(ops.machine_info.is_support);
    assert!(ops.machine_info.rand_str.is_empty());
    assert_eq!(ops.hash_time, 7);
}

#[test]
fn pending_slash_applicants() {
    let info: OCPendingSlashInfo<u64, u32, u128> = OCPendingSlashInfo {
        machine_stash: 8,
        inconsistent_committee: vec![2, 6],
        book_result: OCBookResultType::OnlineRefused,
        ..Default::default()
    };
    assert!(info.applicant_is_stash(8));
    assert!(!info.applicant_is_stash(9));
    assert!(info.applicant_is_committee(&6));
    assert!(!info.applicant_is_committee(&8));
    let repeated: OCPendingSlashInfo<u64, u32, u128> =
        OCPendingSlashInfo { inconsistent_committee: vec![2, 2, 6, 6, 6], ..Default::default() };
    assert!(repeated.applicant_is_committee(&2));
    assert!(repeated.applicant_is_committee(&6));
    assert!(!repeated.applicant_is_committee(&4));
    let succeeded = OCPendingSlashInfo { book_result: OCBookResultType::OnlineSucceed, ..info };
    assert!(!succeeded.applicant_is_stash(8));
}

#[test]
fn defaults_of_enums() {
    assert_eq!(OCVerifyStatus::default(), OCVerifyStatus::SubmittingHash);
    assert_eq!(OCMachineStatus::default(), OCMachineStatus::Booked);
    assert_eq!(OCSlashResult::default(), OCSlashResult::Pending);
    assert_eq!(OCBookResultType::default(), OCBookResultType::OnlineRefused);
}

#[test]
fn online_custom_errors_become_pallet_errors() {
    assert_eq!(Error::from(CustomErr::NotInBookList), Error::NotInBookList);
    assert_eq!(Error::from(CustomErr::TimeNotAllow), Error::TimeNotAllow);
    assert_eq!(Error::from(CustomErr::AlreadySubmitHash), Error::AlreadySubmitHash);
    assert_eq!(Error::from(CustomErr::AlreadySubmitRaw), Error::AlreadySubmitRaw);
    assert_eq!(Error::from(CustomErr::NotSubmitHash), Error::NotSubmitHash);
    assert_eq!(Error::from(CustomErr::Overflow), Error::Overflow);
}
