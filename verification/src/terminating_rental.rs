//! Errors of the terminating-rental pallet: its own refusals and those of
//! the report workflow, as the pallet reports them.
use vstd::prelude::*;
use crate::support::ReportErr;

verus! {

/// Why a committee step of the terminating-rental pallet is refused.
#[derive(Clone, Copy, Debug, PartialEq, Eq, Structural)]
pub enum CustomErr {
    NotInBookList,
    TimeNotAllow,
    AlreadySubmitHash,
    AlreadySubmitRaw,
    NotSubmitHash,
    NotAllowedChangeMachineInfo,
    TelecomIsNull,
}

/// The errors of the terminating-rental pallet that custom and report
/// errors become.
#[derive(Clone, Copy, Debug, PartialEq, Eq, Structural)]
pub enum Error {
    NotInBookList,
    TimeNotAllow,
    AlreadySubmitHash,
    AlreadySubmitRaw,
    NotSubmitHash,
    NotAllowedChangeMachineInfo,
    TelecomIsNull,
    ReportNotAllowBook,
    AlreadyBooked,
    NotNeedEncryptedInfo,
    NotOrderReporter,
    OrderStatusNotFeat,
    NotOrderCommittee,
    NotInBookedList,
    NotProperCommittee,
}

impl From<CustomErr> for Error {
    fn from(err: CustomErr) -> (r: Error) {
        match err {
            CustomErr::NotInBookList => Error::NotInBookList,
            CustomErr::TimeNotAllow => Error::TimeNotAllow,
            CustomErr::AlreadySubmitHash => Error::AlreadySubmitHash,
            CustomErr::AlreadySubmitRaw => Error::AlreadySubmitRaw,
            CustomErr::NotSubmitHash => Error::NotSubmitHash,
            CustomErr::NotAllowedChangeMachineInfo => Error::NotAllowedChangeMachineInfo,
            CustomErr::TelecomIsNull => Error::TelecomIsNull,
        }
    }
}

impl vstd::std_specs::convert::FromSpecImpl<CustomErr> for Error {
    open spec fn obeys_from_spec() -> bool {
        true
    }

    open spec fn from_spec(err: CustomErr) -> Error {
        match err {
            CustomErr::NotInBookList => Error::NotInBookList,
            CustomErr::TimeNotAllow => Error::TimeNotAllow,
            CustomErr::AlreadySubmitHash => Error::AlreadySubmitHash,
            CustomErr::AlreadySubmitRaw => Error::AlreadySubmitRaw,
            CustomErr::NotSubmitHash => Error::NotSubmitHash,
            CustomErr::NotAllowedChangeMachineInfo => Error::NotAllowedChangeMachineInfo,
            CustomErr::TelecomIsNull => Error::TelecomIsNull,
        }
    }
}

impl From<ReportErr> for Error {
    fn from(err: ReportErr) -> (r: Error) {
        match err {
            ReportErr::OrderNotAllowBook => Error::ReportNotAllowBook,
            ReportErr::AlreadyBooked => Error::AlreadyBooked,
            ReportErr::NotNeedEncryptedInfo => Error::NotNeedEncryptedInfo,
            ReportErr::NotOrderReporter => Error::NotOrderReporter,
            ReportErr::OrderStatusNotFeat => Error::OrderStatusNotFeat,
            ReportErr::NotOrderCommittee => Error::NotOrderCommittee,
            ReportErr::NotInBookedList => Error::NotInBookedList,
            ReportErr::NotProperCommittee => Error::NotProperCommittee,
        }
    }
}

impl vstd::std_specs::convert::FromSpecImpl<ReportErr> for Error {
    open spec fn obeys_from_spec() -> bool {
        true
    }

    open spec fn from_spec(err: ReportErr) -> Error {
        match err {
            ReportErr::OrderNotAllowBook => Error::ReportNotAllowBook,
            ReportErr::AlreadyBooked => Error::AlreadyBooked,
            ReportErr::NotNeedEncryptedInfo => Error::NotNeedEncryptedInfo,
            ReportErr::NotOrderReporter => Error::NotOrderReporter,
            ReportErr::OrderStatusNotFeat => Error::OrderStatusNotFeat,
            ReportErr::NotOrderCommittee => Error::NotOrderCommittee,
            ReportErr::NotInBookedList => Error::NotInBookedList,
            ReportErr::NotProperCommittee => Error::NotProperCommittee,
        }
    }
}

} // verus!
