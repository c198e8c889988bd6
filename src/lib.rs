//! State engine of a freelance marketplace: jobs, proposals on them and
//! agreements formed from accepted proposals, each with its own state machine,
//! in fixed-capacity tables, with the wire codec and call dispatch around them.

pub mod agreement_management;
pub mod job_management;
pub mod ledger;
pub mod proposal_management;
pub mod record_table;
pub mod types;
pub mod wire;
