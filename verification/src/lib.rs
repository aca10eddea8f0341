//! Verified core of the DBC pallets: sorted account and machine lists, the
//! online-committee verification workflow, and the decision logic of the
//! generic-func and transient-rental pallets.
pub mod dispatch;
pub mod generic_func;
pub mod item_list;
pub mod online_committee;
pub mod sort_key;
pub mod support;
pub mod terminating_rental;
pub mod transient_rental;
