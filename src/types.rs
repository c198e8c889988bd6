use vstd::prelude::*;

verus! {

/// Identifier of a job.
pub type JobId = u32;

/// Identifier of a proposal.
pub type ProposalId = u32;

/// Identifier of an agreement.
pub type AgreementId = u32;

/// Identifier of a user (client or freelancer).
pub type UserId = u32;

/// A monetary amount.
pub type Balance = u128;

/// Lifecycle of a job.
#[derive(Debug, Clone, Copy, PartialEq, Eq, Structural)]
pub enum JobStatus {
    Open,
    InProgress,
    Completed,
    Cancelled,
}

impl JobStatus {
    /// The status whose wire code is `value`, if any.
    pub open spec fn spec_from_u8(value: u8) -> Option<JobStatus> {
        if value == 0 {
            Some(JobStatus::Open)
        } else if value == 1 {
            Some(JobStatus::InProgress)
        } else if value == 2 {
            Some(JobStatus::Completed)
        } else if value == 3 {
            Some(JobStatus::Cancelled)
        } else {
            None
        }
    }

    /// The wire code of a status.
    pub open spec fn spec_code(self) -> u8 {
        match self {
            JobStatus::Open => 0,
            JobStatus::InProgress => 1,
            JobStatus::Completed => 2,
            JobStatus::Cancelled => 3,
        }
    }

    /// Decodes a status code; codes outside 0..=3 give `None`.
    pub fn from_u8(value: u8) -> (r: Option<JobStatus>)
        ensures
            r == Self::spec_from_u8(value),
            r is None <==> value > 3,
            r matches Some(s) ==> s.spec_code() == value,
    {
        match value {
            0 => Some(JobStatus::Open),
            1 => Some(JobStatus::InProgress),
            2 => Some(JobStatus::Completed),
            3 => Some(JobStatus::Cancelled),
            _ => None,
        }
    }

    /// The wire code of this status.
    pub fn code(&self) -> (r: u8)
        ensures
            r == self.spec_code(),
            Self::spec_from_u8(r) == Some(*self),
    {
        match self {
            JobStatus::Open => 0,
            JobStatus::InProgress => 1,
            JobStatus::Completed => 2,
            JobStatus::Cancelled => 3,
        }
    }
}


/// Lifecycle of a proposal.
#[derive(Debug, Clone, Copy, PartialEq, Eq, Structural)]
pub enum ProposalStatus {
    Submitted,
    Accepted,
    Rejected,
}

impl ProposalStatus {
    /// The status whose wire code is `value`, if any.
    pub open spec fn spec_from_u8(value: u8) -> Option<ProposalStatus> {
        if value == 0 {
            Some(ProposalStatus::Submitted)
        } else if value == 1 {
            Some(ProposalStatus::Accepted)
        } else if value == 2 {
            Some(ProposalStatus::Rejected)
        } else {
            None
        }
    }

    /// The wire code of a status.
    pub open spec fn spec_code(self) -> u8 {
        match self {
            ProposalStatus::Submitted => 0,
            ProposalStatus::Accepted => 1,
            ProposalStatus::Rejected => 2,
        }
    }

    /// Decodes a status code; codes outside 0..=2 give `None`.
    pub fn from_u8(value: u8) -> (r: Option<ProposalStatus>)
        ensures
            r == Self::spec_from_u8(value),
            r is None <==> value > 2,
            r matches Some(s) ==> s.spec_code() == value,
    {
        match value {
            0 => Some(ProposalStatus::Submitted),
            1 => Some(ProposalStatus::Accepted),
            2 => Some(ProposalStatus::Rejected),
            _ => None,
        }
    }

    /// The wire code of this status.
    pub fn code(&self) -> (r: u8)
        ensures
            r == self.spec_code(),
            Self::spec_from_u8(r) == Some(*self),
    {
        match self {
            ProposalStatus::Submitted => 0,
            ProposalStatus::Accepted => 1,
            ProposalStatus::Rejected => 2,
        }
    }
}

/// Lifecycle of an agreement.
#[derive(Debug, Clone, Copy, PartialEq, Eq, Structural)]
pub enum AgreementStatus {
    Active,
    Completed,
    Disputed,
}

impl AgreementStatus {
    /// The status whose wire code is `value`, if any.
    pub open spec fn spec_from_u8(value: u8) -> Option<AgreementStatus> {
        if value == 0 {
            Some(AgreementStatus::Active)
        } else if value == 1 {
            Some(AgreementStatus::Completed)
        } else if value == 2 {
            Some(AgreementStatus::Disputed)
        } else {
            None
        }
    }

    /// The wire code of a status.
    pub open spec fn spec_code(self) -> u8 {
        match self {
            AgreementStatus::Active => 0,
            AgreementStatus::Completed => 1,
            AgreementStatus::Disputed => 2,
        }
    }

    /// Decodes a status code; codes outside 0..=2 give `None`.
    pub fn from_u8(value: u8) -> (r: Option<AgreementStatus>)
        ensures
            r == Self::spec_from_u8(value),
            r is None <==> value > 2,
            r matches Some(s) ==> s.spec_code() == value,
    {
        match value {
            0 => Some(AgreementStatus::Active),
            1 => Some(AgreementStatus::Completed),
            2 => Some(AgreementStatus::Disputed),
            _ => None,
        }
    }

    /// The wire code of this status.
    pub fn code(&self) -> (r: u8)
        ensures
            r == self.spec_code(),
            Self::spec_from_u8(r) == Some(*self),
    {
        match self {
            AgreementStatus::Active => 0,
            AgreementStatus::Completed => 1,
            AgreementStatus::Disputed => 2,
        }
    }
}

/// A job posted by a client.
#[derive(Debug, Clone, Copy, PartialEq, Eq, Structural)]
pub struct Job {
    pub id: JobId,
    pub client_id: UserId,
    pub budget: Balance,
    pub status: JobStatus,
}

/// A freelancer's bid on a job.
#[derive(Debug, Clone, Copy, PartialEq, Eq, Structural)]
pub struct Proposal {
    pub id: ProposalId,
    pub job_id: JobId,
    pub freelancer_id: UserId,
    pub bid_amount: Balance,
    pub status: ProposalStatus,
}

/// The engagement formed from an accepted proposal; the parties and the
/// amount are copied from the job and the proposal when it is made.
#[derive(Debug, Clone, Copy, PartialEq, Eq, Structural)]
pub struct Agreement {
    pub id: AgreementId,
    pub job_id: JobId,
    pub client_id: UserId,
    pub freelancer_id: UserId,
    pub total_amount: Balance,
    pub status: AgreementStatus,
}

/// Why an operation was refused.
#[derive(Debug, Clone, Copy, PartialEq, Eq, Structural)]
pub enum ContractError {
    /// A transition, or a precondition on a related record, does not hold.
    InvalidOperation,
    /// No record has the given identifier.
    NotFound,
    /// Reserved: no operation raises it yet.
    AlreadyExists,
    /// The table's capacity is used up.
    StorageFull,
    /// A status code or argument could not be decoded.
    InvalidInput,
    /// Reserved: no operation raises it yet.
    Unauthorized,
}

impl ContractError {
    /// The error code reported to callers at the boundary.
    pub open spec fn spec_code(self) -> u8 {
        match self {
            ContractError::InvalidOperation => 1,
            ContractError::NotFound => 2,
            ContractError::AlreadyExists => 3,
            ContractError::StorageFull => 4,
            ContractError::InvalidInput => 5,
            ContractError::Unauthorized => 6,
        }
    }

    /// The error code reported to callers at the boundary (1 to 6).
    pub fn code(&self) -> (r: u8)
        ensures
            r == self.spec_code(),
            1 <= r <= 6,
    {
        match self {
            ContractError::InvalidOperation => 1,
            ContractError::NotFound => 2,
            ContractError::AlreadyExists => 3,
            ContractError::StorageFull => 4,
            ContractError::InvalidInput => 5,
            ContractError::Unauthorized => 6,
        }
    }
}

} // verus!
