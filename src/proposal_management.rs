use vstd::prelude::*;

use crate::job_management::get_job;
use crate::record_table::RecordTable;
use crate::types::{
    Balance,
    ContractError,
    Job,
    JobId,
    JobStatus,
    Proposal,
    ProposalId,
    ProposalStatus,
    UserId,
};
use crate::wire::{
    be_bytes,
    be_value,
    read_be,
    read_u32_be,
    right_aligned,
    with_error_code,
    write_be,
    write_error_code,
    write_u32_right_aligned,
};

verus! {

/// How many proposals a ledger tracks by default.
pub const MAX_PROPOSALS: u32 = 200;

/// Every proposal sits at the position of its own identifier.
pub open spec fn proposals_wf(proposals: &RecordTable<Proposal>) -> bool {
    &&& proposals.wf()
    &&& forall|i: int| 0 <= i < proposals@.len() ==> (#[trigger] proposals@[i]).id == i
}

/// The proposal state machine: `Submitted` may go to `Accepted` or
/// `Rejected`; nothing else is allowed.
pub open spec fn proposal_transition_allowed(
    current: ProposalStatus,
    requested: ProposalStatus,
) -> bool {
    match (current, requested) {
        (ProposalStatus::Submitted, ProposalStatus::Accepted) => true,
        (ProposalStatus::Submitted, ProposalStatus::Rejected) => true,
        _ => false,
    }
}

/// The proposal that `submit_proposal` stores under identifier `id`.
pub open spec fn new_proposal(
    id: ProposalId,
    job_id: JobId,
    freelancer_id: UserId,
    bid_amount: Balance,
) -> Proposal {
    Proposal { id, job_id, freelancer_id, bid_amount, status: ProposalStatus::Submitted }
}

/// What `get_proposal` reports for a stored proposal.
pub open spec fn proposal_fields(p: Proposal) -> (JobId, UserId, Balance, u8) {
    (p.job_id, p.freelancer_id, p.bid_amount, p.status.spec_code())
}

/// The outcome of `submit_proposal`: the result, and the proposals afterwards.
pub open spec fn proposal_submission(
    jobs: Seq<Job>,
    proposals: Seq<Proposal>,
    capacity: nat,
    job_id: JobId,
    freelancer_id: UserId,
    bid_amount: Balance,
) -> (Result<ProposalId, ContractError>, Seq<Proposal>) {
    if (job_id as nat) >= jobs.len() {
        (Err(ContractError::NotFound), proposals)
    } else if jobs[job_id as int].status != JobStatus::Open {
        (Err(ContractError::InvalidOperation), proposals)
    } else if proposals.len() >= capacity {
        (Err(ContractError::StorageFull), proposals)
    } else {
        let id = proposals.len() as ProposalId;
        (Ok(id), proposals.push(new_proposal(id, job_id, freelancer_id, bid_amount)))
    }
}

/// The outcome of `update_proposal_status`: the result, and the proposals
/// afterwards.
pub open spec fn proposal_status_update(proposals: Seq<Proposal>, id: ProposalId, code: u8) -> (
    Result<(), ContractError>,
    Seq<Proposal>,
) {
    match ProposalStatus::spec_from_u8(code) {
        None => (Err(ContractError::InvalidInput), proposals),
        Some(requested) => if (id as nat) >= proposals.len() {
            (Err(ContractError::NotFound), proposals)
        } else if !proposal_transition_allowed(proposals[id as int].status, requested) {
            (Err(ContractError::InvalidOperation), proposals)
        } else {
            (Ok(()), proposals.update(id as int, Proposal { status: requested, ..proposals[id as int] }))
        },
    }
}

/// A successful submission gets as identifier the number of proposals made
/// before it, so identifiers count up from 0 and are never reused; the
/// proposals already stored are kept as they were. A failed submission
/// changes nothing.
pub proof fn lemma_proposal_ids_sequential(
    jobs: Seq<Job>,
    proposals: Seq<Proposal>,
    capacity: nat,
    job_id: JobId,
    freelancer_id: UserId,
    bid_amount: Balance,
)
    requires
        capacity <= u32::MAX,
        proposals.len() <= capacity,
    ensures
        ({
            let (r, after) = proposal_submission(
                jobs,
                proposals,
                capacity,
                job_id,
                freelancer_id,
                bid_amount,
            );
            match r {
                Ok(id) => {
                    &&& id == proposals.len()
                    &&& after.len() == proposals.len() + 1
                    &&& after.subrange(0, proposals.len() as int) == proposals
                    &&& after[id as int].id == id
                },
                Err(_) => after == proposals,
            }
        }),
{
    let (r, after) = proposal_submission(jobs, proposals, capacity, job_id, freelancer_id, bid_amount);
    if r is Ok {
        assert(after.subrange(0, proposals.len() as int) =~= proposals);
    }
}

/// Once `capacity` proposals are stored, a submission on an open job fails
/// with `StorageFull` and every stored proposal stays as it was.
pub proof fn lemma_proposal_capacity_enforced(
    jobs: Seq<Job>,
    proposals: Seq<Proposal>,
    capacity: nat,
    job_id: JobId,
    freelancer_id: UserId,
    bid_amount: Balance,
)
    requires
        proposals.len() == capacity,
        job_id < jobs.len(),
        jobs[job_id as int].status == JobStatus::Open,
    ensures
        proposal_submission(jobs, proposals, capacity, job_id, freelancer_id, bid_amount) == (
            Err::<ProposalId, ContractError>(ContractError::StorageFull),
            proposals,
        ),
{
}

/// A submission on a job that does not exist fails with `NotFound`, and one
/// on a job that is not `Open` fails with `InvalidOperation`, whatever the
/// bid; neither changes anything.
pub proof fn lemma_proposal_gating(
    jobs: Seq<Job>,
    proposals: Seq<Proposal>,
    capacity: nat,
    job_id: JobId,
    freelancer_id: UserId,
    bid_amount: Balance,
)
    ensures
        job_id >= jobs.len() ==> proposal_submission(
            jobs,
            proposals,
            capacity,
            job_id,
            freelancer_id,
            bid_amount,
        ) == (Err::<ProposalId, ContractError>(ContractError::NotFound), proposals),
        job_id < jobs.len() && jobs[job_id as int].status != JobStatus::Open
            ==> proposal_submission(
            jobs,
            proposals,
            capacity,
            job_id,
            freelancer_id,
            bid_amount,
        ) == (Err::<ProposalId, ContractError>(ContractError::InvalidOperation), proposals),
{
}

/// Reading a proposal right after submitting it gives back exactly the job,
/// freelancer and bid it was submitted with, and the `Submitted` status.
pub proof fn lemma_proposal_round_trip(
    jobs: Seq<Job>,
    before: RecordTable<Proposal>,
    after: RecordTable<Proposal>,
    job_id: JobId,
    freelancer_id: UserId,
    bid_amount: Balance,
    id: ProposalId,
)
    requires
        before.wf(),
        (Ok::<ProposalId, ContractError>(id), after@) == proposal_submission(
            jobs,
            before@,
            before.spec_capacity(),
            job_id,
            freelancer_id,
            bid_amount,
        ),
    ensures
        after.spec_find(id) == Some(new_proposal(id, job_id, freelancer_id, bid_amount)),
        proposal_fields(after.spec_find(id)->Some_0) == (
            job_id,
            freelancer_id,
            bid_amount,
            ProposalStatus::Submitted.spec_code(),
        ),
{
}

/// A status update succeeds exactly for `Submitted` to `Accepted` or
/// `Rejected`; a status code outside 0..=2 is refused with `InvalidInput`
/// before any proposal is looked at, never read as some other status. A
/// failure changes nothing, and no update adds or removes a proposal.
pub proof fn lemma_proposal_transition_closure(
    proposals: Seq<Proposal>,
    id: ProposalId,
    code: u8,
)
    ensures
        ({
            let (r, after) = proposal_status_update(proposals, id, code);
            &&& code > 2 ==> r == Err::<(), ContractError>(ContractError::InvalidInput)
                && ProposalStatus::spec_from_u8(code) is None
            &&& code <= 2 && id < proposals.len() ==> {
                let current = proposals[id as int].status;
                let requested = ProposalStatus::spec_from_u8(code)->Some_0;
                &&& (r is Ok <==> current == ProposalStatus::Submitted && requested
                    != ProposalStatus::Submitted)
                &&& r is Err ==> r == Err::<(), ContractError>(ContractError::InvalidOperation)
            }
            &&& after.len() == proposals.len()
            &&& r is Err ==> after == proposals
        }),
{
}

/// Whether the transition from `current` to `requested` is allowed.
pub fn is_proposal_transition_allowed(current: ProposalStatus, requested: ProposalStatus) -> (r:
    bool)
    ensures
        r == proposal_transition_allowed(current, requested),
{
    match (current, requested) {
        (ProposalStatus::Submitted, ProposalStatus::Accepted) => true,
        (ProposalStatus::Submitted, ProposalStatus::Rejected) => true,
        _ => false,
    }
}

/// Submits a bid on job `job_id` and returns the new proposal's identifier.
///
/// Fails with `NotFound` when the job does not exist, `InvalidOperation` when
/// it is not `Open`, and `StorageFull` when the proposal table is full; a
/// failure changes nothing.
pub fn submit_proposal(
    jobs: &RecordTable<Job>,
    proposals: &mut RecordTable<Proposal>,
    job_id: JobId,
    freelancer_id: UserId,
    bid_amount: Balance,
) -> (r: Result<ProposalId, ContractError>)
    requires
        proposals_wf(old(proposals)),
    ensures
        proposals_wf(final(proposals)),
        final(proposals).spec_capacity() == old(proposals).spec_capacity(),
        (r, final(proposals)@) == proposal_submission(
            jobs@,
            old(proposals)@,
            old(proposals).spec_capacity(),
            job_id,
            freelancer_id,
            bid_amount,
        ),
{
    match get_job(jobs, job_id) {
        Ok((_, _, status_u8)) => {
            if status_u8 != JobStatus::Open.code() {
                return Err(ContractError::InvalidOperation);
            }
        },
        Err(_) => return Err(ContractError::NotFound),
    }
    match proposals.next_id() {
        None => Err(ContractError::StorageFull),
        Some(proposal_id) => {
            let proposal = Proposal {
                id: proposal_id,
                job_id,
                freelancer_id,
                bid_amount,
                status: ProposalStatus::Submitted,
            };
            let r = proposals.insert(proposal);
            assert forall|i: int| 0 <= i < proposals@.len() implies (#[trigger] proposals@[i]).id
                == i by {
                if i < old(proposals)@.len() {
                    assert(proposals@[i] == old(proposals)@[i]);
                }
            }
            r
        },
    }
}

/// The job, freelancer, bid and status code of proposal `proposal_id`;
/// `NotFound` when there is no such proposal.
pub fn get_proposal(proposals: &RecordTable<Proposal>, proposal_id: ProposalId) -> (r: Result<
    (JobId, UserId, Balance, u8),
    ContractError,
>)
    ensures
        match proposals.spec_find(proposal_id) {
            Some(p) => r == Ok::<(JobId, UserId, Balance, u8), ContractError>(proposal_fields(p)),
            None => r == Err::<(JobId, UserId, Balance, u8), ContractError>(
                ContractError::NotFound,
            ),
        },
{
    match proposals.find(proposal_id) {
        Some(p) => Ok((p.job_id, p.freelancer_id, p.bid_amount, p.status.code())),
        None => Err(ContractError::NotFound),
    }
}

/// Moves proposal `proposal_id` to the status with code `new_status_u8`.
///
/// Fails with `InvalidInput` for an unknown code (before looking at the
/// table), `NotFound` for an unknown proposal, and `InvalidOperation` for a
/// transition other than `Submitted` to `Accepted` or `Rejected`; a failure
/// changes nothing. Accepting a proposal does not create an agreement.
pub fn update_proposal_status(
    proposals: &mut RecordTable<Proposal>,
    proposal_id: ProposalId,
    new_status_u8: u8,
) -> (r: Result<(), ContractError>)
    requires
        proposals_wf(old(proposals)),
    ensures
        proposals_wf(final(proposals)),
        final(proposals).spec_capacity() == old(proposals).spec_capacity(),
        (r, final(proposals)@) == proposal_status_update(
            old(proposals)@,
            proposal_id,
            new_status_u8,
        ),
{
    let new_status = match ProposalStatus::from_u8(new_status_u8) {
        Some(s) => s,
        None => return Err(ContractError::InvalidInput),
    };
    match proposals.find(proposal_id) {
        None => Err(ContractError::NotFound),
        Some(p) => {
            if !is_proposal_transition_allowed(p.status, new_status) {
                return Err(ContractError::InvalidOperation);
            }
            let updated = Proposal { status: new_status, ..p };
            let r = proposals.update(proposal_id, updated);
            assert forall|i: int| 0 <= i < proposals@.len() implies (#[trigger] proposals@[i]).id
                == i by {
                if i != proposal_id {
                    assert(proposals@[i] == old(proposals)@[i]);
                }
            }
            r
        },
    }
}


/// Decodes the arguments of `submit_proposal`: big-endian `u32` job and
/// freelancer identifiers and a big-endian `u128` bid. `InvalidInput` when
/// fewer than 24 bytes are given.
pub fn decode_submit_proposal_args(data: &[u8]) -> (r: Result<
    (JobId, UserId, Balance),
    ContractError,
>)
    ensures
        data@.len() < 24 ==> r == Err::<(JobId, UserId, Balance), ContractError>(
            ContractError::InvalidInput,
        ),
        data@.len() >= 24 ==> r == Ok::<(JobId, UserId, Balance), ContractError>(
            (
                be_value(data@.subrange(0, 4)) as JobId,
                be_value(data@.subrange(4, 8)) as UserId,
                be_value(data@.subrange(8, 24)) as Balance,
            ),
        ),
{
    if data.len() < 24 {
        return Err(ContractError::InvalidInput);
    }
    let job_id = read_u32_be(data, 0);
    let freelancer_id = read_u32_be(data, 4);
    let bid_amount = read_be(data, 8, 16);
    Ok((job_id, freelancer_id, bid_amount))
}

/// Decodes the argument of `get_proposal`: a big-endian `u32` proposal
/// identifier. `InvalidInput` when fewer than 4 bytes are given.
pub fn decode_get_proposal_args(data: &[u8]) -> (r: Result<ProposalId, ContractError>)
    ensures
        data@.len() < 4 ==> r == Err::<ProposalId, ContractError>(ContractError::InvalidInput),
        data@.len() >= 4 ==> r == Ok::<ProposalId, ContractError>(
            be_value(data@.subrange(0, 4)) as ProposalId,
        ),
{
    if data.len() < 4 {
        return Err(ContractError::InvalidInput);
    }
    Ok(read_u32_be(data, 0))
}

/// Decodes the arguments of `update_proposal_status`: a big-endian `u32`
/// proposal identifier and a status byte. `InvalidInput` when fewer than 5
/// bytes are given.
pub fn decode_update_proposal_status_args(data: &[u8]) -> (r: Result<
    (ProposalId, u8),
    ContractError,
>)
    ensures
        data@.len() < 5 ==> r == Err::<(ProposalId, u8), ContractError>(
            ContractError::InvalidInput,
        ),
        data@.len() >= 5 ==> r == Ok::<(ProposalId, u8), ContractError>(
            (be_value(data@.subrange(0, 4)) as ProposalId, data@[4]),
        ),
{
    if data.len() < 5 {
        return Err(ContractError::InvalidInput);
    }
    let proposal_id = read_u32_be(data, 0);
    let status = data[4];
    Ok((proposal_id, status))
}

/// Encodes the result of `submit_proposal`: an identifier goes big-endian
/// into the last four bytes, an error's code into the last byte.
pub fn encode_proposal_id_result(
    result: Result<ProposalId, ContractError>,
    output_buffer: &mut [u8; 32],
)
    ensures
        final(output_buffer)@ == match result {
            Ok(id) => right_aligned(old(output_buffer)@, be_bytes(id as nat, 4)),
            Err(e) => with_error_code(old(output_buffer)@, e),
        },
{
    match result {
        Ok(id) => write_u32_right_aligned(output_buffer, id),
        Err(err) => write_error_code(output_buffer, err),
    }
}

/// The bytes that `encode_get_proposal_result` puts at the end of the buffer.
pub open spec fn proposal_record_bytes(
    job_id: JobId,
    freelancer_id: UserId,
    bid_amount: Balance,
    status_u8: u8,
) -> Seq<u8> {
    be_bytes(job_id as nat, 4) + be_bytes(freelancer_id as nat, 4) + be_bytes(
        bid_amount as nat,
        16,
    ) + seq![status_u8]
}

/// Encodes the result of `get_proposal`: job, freelancer, bid and status
/// code, big-endian and right-aligned in the buffer; an error's code into the
/// last byte.
pub fn encode_get_proposal_result(
    result: Result<(JobId, UserId, Balance, u8), ContractError>,
    output_buffer: &mut [u8; 32],
)
    ensures
        final(output_buffer)@ == match result {
            Ok((job_id, freelancer_id, bid_amount, status_u8)) => right_aligned(
                old(output_buffer)@,
                proposal_record_bytes(job_id, freelancer_id, bid_amount, status_u8),
            ),
            Err(e) => with_error_code(old(output_buffer)@, e),
        },
{
    match result {
        Ok((job_id, freelancer_id, bid_amount, status_u8)) => {
            write_be(output_buffer, 11, job_id as u128, 4);
            write_be(output_buffer, 15, freelancer_id as u128, 4);
            write_be(output_buffer, 31, bid_amount, 16);
            output_buffer[31] = status_u8;
            assert(output_buffer@ =~= right_aligned(
                old(output_buffer)@,
                proposal_record_bytes(job_id, freelancer_id, bid_amount, status_u8),
            ));
        },
        Err(err) => write_error_code(output_buffer, err),
    }
}

} // verus!
