use vstd::prelude::*;

use crate::job_management::{get_job, job_status_update, jobs_wf, update_job_status};
use crate::proposal_management::get_proposal;
use crate::record_table::RecordTable;
use crate::types::{
    AgreementId,
    Agreement,
    AgreementStatus,
    Balance,
    ContractError,
    Job,
    JobId,
    JobStatus,
    Proposal,
    ProposalId,
    ProposalStatus,
    UserId,
};
use crate::wire::{
    be_bytes,
    be_value,
    read_u32_be,
    right_aligned,
    with_error_code,
    write_be,
    write_error_code,
    write_u32_right_aligned,
};

verus! {

/// How many agreements a ledger tracks by default.
pub const MAX_AGREEMENTS: u32 = 100;

/// Every agreement sits at the position of its own identifier.
pub open spec fn agreements_wf(agreements: &RecordTable<Agreement>) -> bool {
    &&& agreements.wf()
    &&& forall|i: int| 0 <= i < agreements@.len() ==> (#[trigger] agreements@[i]).id == i
}

/// The agreement state machine: `Active` may go to `Completed` or
/// `Disputed`; nothing else is allowed.
pub open spec fn agreement_transition_allowed(
    current: AgreementStatus,
    requested: AgreementStatus,
) -> bool {
    match (current, requested) {
        (AgreementStatus::Active, AgreementStatus::Completed) => true,
        (AgreementStatus::Active, AgreementStatus::Disputed) => true,
        _ => false,
    }
}

/// What `get_agreement` reports for a stored agreement.
pub open spec fn agreement_fields(a: Agreement) -> (JobId, UserId, UserId, Balance, u8) {
    (a.job_id, a.client_id, a.freelancer_id, a.total_amount, a.status.spec_code())
}

/// The outcome of `create_agreement_from_proposal`: the result, the jobs
/// afterwards and the agreements afterwards.
pub open spec fn agreement_creation(
    jobs: Seq<Job>,
    proposals: Seq<Proposal>,
    agreements: Seq<Agreement>,
    capacity: nat,
    proposal_id: ProposalId,
) -> (Result<AgreementId, ContractError>, Seq<Job>, Seq<Agreement>) {
    if (proposal_id as nat) >= proposals.len() {
        (Err(ContractError::NotFound), jobs, agreements)
    } else {
        let p = proposals[proposal_id as int];
        if p.status != ProposalStatus::Accepted {
            (Err(ContractError::InvalidOperation), jobs, agreements)
        } else if (p.job_id as nat) >= jobs.len() {
            (Err(ContractError::NotFound), jobs, agreements)
        } else {
            let job = jobs[p.job_id as int];
            if job.status != JobStatus::Open {
                (Err(ContractError::InvalidOperation), jobs, agreements)
            } else if agreements.len() >= capacity {
                (Err(ContractError::StorageFull), jobs, agreements)
            } else {
                let id = agreements.len() as AgreementId;
                let a = Agreement {
                    id,
                    job_id: p.job_id,
                    client_id: job.client_id,
                    freelancer_id: p.freelancer_id,
                    total_amount: p.bid_amount,
                    status: AgreementStatus::Active,
                };
                (
                    Ok(id),
                    jobs.update(p.job_id as int, Job { status: JobStatus::InProgress, ..job }),
                    agreements.push(a),
                )
            }
        }
    }
}

/// The outcome of `update_agreement_status`: the result, the jobs afterwards
/// and the agreements afterwards.
pub open spec fn agreement_status_update(
    jobs: Seq<Job>,
    agreements: Seq<Agreement>,
    id: AgreementId,
    code: u8,
) -> (Result<(), ContractError>, Seq<Job>, Seq<Agreement>) {
    match AgreementStatus::spec_from_u8(code) {
        None => (Err(ContractError::InvalidInput), jobs, agreements),
        Some(requested) => if (id as nat) >= agreements.len() {
            (Err(ContractError::NotFound), jobs, agreements)
        } else {
            let a = agreements[id as int];
            let updated = agreements.update(id as int, Agreement { status: requested, ..a });
            if !agreement_transition_allowed(a.status, requested) {
                (Err(ContractError::InvalidOperation), jobs, agreements)
            } else if requested == AgreementStatus::Completed {
                let (jr, new_jobs) = job_status_update(
                    jobs,
                    a.job_id,
                    JobStatus::Completed.spec_code(),
                );
                match jr {
                    Ok(_) => (Ok(()), new_jobs, updated),
                    Err(e) => (Err(e), jobs, agreements),
                }
            } else {
                (Ok(()), jobs, updated)
            }
        },
    }
}

/// A successful creation gets as identifier the number of agreements made
/// before it, so identifiers count up from 0 and are never reused; the
/// agreements already stored are kept as they were. A failed creation changes
/// neither the jobs nor the agreements.
pub proof fn lemma_agreement_ids_sequential(
    jobs: Seq<Job>,
    proposals: Seq<Proposal>,
    agreements: Seq<Agreement>,
    capacity: nat,
    proposal_id: ProposalId,
)
    requires
        capacity <= u32::MAX,
        agreements.len() <= capacity,
    ensures
        ({
            let (r, jobs_after, after) = agreement_creation(
                jobs,
                proposals,
                agreements,
                capacity,
                proposal_id,
            );
            match r {
                Ok(id) => {
                    &&& id == agreements.len()
                    &&& after.len() == agreements.len() + 1
                    &&& after.subrange(0, agreements.len() as int) == agreements
                    &&& after[id as int].id == id
                },
                Err(_) => after == agreements && jobs_after == jobs,
            }
        }),
{
    let (r, _, after) = agreement_creation(jobs, proposals, agreements, capacity, proposal_id);
    if r is Ok {
        assert(after.subrange(0, agreements.len() as int) =~= agreements);
    }
}

/// Once `capacity` agreements are stored, creating one from an accepted
/// proposal of an open job fails with `StorageFull`, and nothing changes.
pub proof fn lemma_agreement_capacity_enforced(
    jobs: Seq<Job>,
    proposals: Seq<Proposal>,
    agreements: Seq<Agreement>,
    capacity: nat,
    proposal_id: ProposalId,
)
    requires
        agreements.len() == capacity,
        proposal_id < proposals.len(),
        proposals[proposal_id as int].status == ProposalStatus::Accepted,
        proposals[proposal_id as int].job_id < jobs.len(),
        jobs[proposals[proposal_id as int].job_id as int].status == JobStatus::Open,
    ensures
        agreement_creation(jobs, proposals, agreements, capacity, proposal_id) == (
            Err::<AgreementId, ContractError>(ContractError::StorageFull),
            jobs,
            agreements,
        ),
{
}

/// Reading an agreement right after creating it gives back the proposal's
/// job, the job's client, the proposal's freelancer and bid, and the `Active`
/// status; the job is then `InProgress`.
pub proof fn lemma_agreement_round_trip(
    jobs: Seq<Job>,
    proposals: Seq<Proposal>,
    before: RecordTable<Agreement>,
    after: RecordTable<Agreement>,
    jobs_after: Seq<Job>,
    proposal_id: ProposalId,
    id: AgreementId,
)
    requires
        before.wf(),
        (Ok::<AgreementId, ContractError>(id), jobs_after, after@) == agreement_creation(
            jobs,
            proposals,
            before@,
            before.spec_capacity(),
            proposal_id,
        ),
    ensures
        ({
            let p = proposals[proposal_id as int];
            let job = jobs[p.job_id as int];
            &&& after.spec_find(id) is Some
            &&& agreement_fields(after.spec_find(id)->Some_0) == (
                p.job_id,
                job.client_id,
                p.freelancer_id,
                p.bid_amount,
                AgreementStatus::Active.spec_code(),
            )
            &&& jobs_after[p.job_id as int].status == JobStatus::InProgress
        }),
{
}

/// Once an agreement has been created from a proposal, creating another from
/// the same proposal fails with `InvalidOperation` (its job is no longer
/// `Open`) and changes nothing.
pub proof fn lemma_no_second_agreement(
    jobs: Seq<Job>,
    proposals: Seq<Proposal>,
    agreements: Seq<Agreement>,
    capacity: nat,
    proposal_id: ProposalId,
)
    requires
        agreement_creation(jobs, proposals, agreements, capacity, proposal_id).0 is Ok,
    ensures
        ({
            let (_, jobs_after, after) = agreement_creation(
                jobs,
                proposals,
                agreements,
                capacity,
                proposal_id,
            );
            agreement_creation(jobs_after, proposals, after, capacity, proposal_id) == (
                Err::<AgreementId, ContractError>(ContractError::InvalidOperation),
                jobs_after,
                after,
            )
        }),
{
}

/// Completing an agreement succeeds only if its job can be completed, and
/// then the job is `Completed`; when the job cannot be, its error is returned
/// and neither the jobs nor the agreements change.
pub proof fn lemma_completion_completes_job(
    jobs: Seq<Job>,
    agreements: Seq<Agreement>,
    id: AgreementId,
)
    requires
        id < agreements.len(),
        agreements[id as int].status == AgreementStatus::Active,
    ensures
        ({
            let (r, jobs_after, after) = agreement_status_update(
                jobs,
                agreements,
                id,
                AgreementStatus::Completed.spec_code(),
            );
            let job_id = agreements[id as int].job_id;
            &&& r is Ok ==> {
                &&& jobs_after[job_id as int].status == JobStatus::Completed
                &&& after[id as int].status == AgreementStatus::Completed
            }
            &&& r is Ok <==> job_id < jobs.len() && jobs[job_id as int].status
                == JobStatus::InProgress
            &&& r is Err ==> jobs_after == jobs && after == agreements
        }),
{
}

/// A status code outside 0..=2 is refused with `InvalidInput` before any
/// agreement is looked at, never read as some other status, and nothing
/// changes.
pub proof fn lemma_agreement_status_code_rejected(
    jobs: Seq<Job>,
    agreements: Seq<Agreement>,
    id: AgreementId,
    code: u8,
)
    requires
        code > 2,
    ensures
        AgreementStatus::spec_from_u8(code) is None,
        agreement_status_update(jobs, agreements, id, code) == (
            Err::<(), ContractError>(ContractError::InvalidInput),
            jobs,
            agreements,
        ),
{
}

/// Whether the transition from `current` to `requested` is allowed.
pub fn is_agreement_transition_allowed(current: AgreementStatus, requested: AgreementStatus) -> (r:
    bool)
    ensures
        r == agreement_transition_allowed(current, requested),
{
    match (current, requested) {
        (AgreementStatus::Active, AgreementStatus::Completed) => true,
        (AgreementStatus::Active, AgreementStatus::Disputed) => true,
        _ => false,
    }
}

/// Forms an `Active` agreement from accepted proposal `proposal_id` and puts
/// its job `InProgress`, as one step: either both happen or nothing changes.
///
/// The client comes from the job; the freelancer and the amount (the bid)
/// from the proposal. Fails with `NotFound` when the proposal or its job does
/// not exist, `InvalidOperation` when the proposal is not `Accepted` or the
/// job is not `Open` (so a second agreement for the same job is refused), and
/// `StorageFull` when the agreement table is full.
pub fn create_agreement_from_proposal(
    jobs: &mut RecordTable<Job>,
    proposals: &RecordTable<Proposal>,
    agreements: &mut RecordTable<Agreement>,
    proposal_id: ProposalId,
) -> (r: Result<AgreementId, ContractError>)
    requires
        jobs_wf(old(jobs)),
        agreements_wf(old(agreements)),
    ensures
        jobs_wf(final(jobs)),
        agreements_wf(final(agreements)),
        final(jobs).spec_capacity() == old(jobs).spec_capacity(),
        final(agreements).spec_capacity() == old(agreements).spec_capacity(),
        (r, final(jobs)@, final(agreements)@) == agreement_creation(
            old(jobs)@,
            proposals@,
            old(agreements)@,
            old(agreements).spec_capacity(),
            proposal_id,
        ),
{
    let (job_id, freelancer_id, bid_amount, proposal_status_u8) = match get_proposal(
        proposals,
        proposal_id,
    ) {
        Ok(fields) => fields,
        Err(_) => return Err(ContractError::NotFound),
    };
    if proposal_status_u8 != ProposalStatus::Accepted.code() {
        return Err(ContractError::InvalidOperation);
    }
    let (client_id, _, job_status_u8) = match get_job(jobs, job_id) {
        Ok(fields) => fields,
        Err(_) => return Err(ContractError::NotFound),
    };
    if job_status_u8 != JobStatus::Open.code() {
        return Err(ContractError::InvalidOperation);
    }
    // Every precondition holds from here on: the insertion and the job's
    // transition below both succeed, so the two tables change together.
    let agreement_id = match agreements.next_id() {
        Some(id) => id,
        None => return Err(ContractError::StorageFull),
    };
    let agreement = Agreement {
        id: agreement_id,
        job_id,
        client_id,
        freelancer_id,
        total_amount: bid_amount,
        status: AgreementStatus::Active,
    };
    let inserted = agreements.insert(agreement);
    assert forall|i: int| 0 <= i < agreements@.len() implies (#[trigger] agreements@[i]).id
        == i by {
        if i < old(agreements)@.len() {
            assert(agreements@[i] == old(agreements)@[i]);
        }
    }
    let moved = update_job_status(jobs, job_id, JobStatus::InProgress.code());
    assert(moved is Ok);
    inserted
}

/// The job, client, freelancer, amount and status code of agreement
/// `agreement_id`; `NotFound` when there is no such agreement.
pub fn get_agreement(agreements: &RecordTable<Agreement>, agreement_id: AgreementId) -> (r:
    Result<(JobId, UserId, UserId, Balance, u8), ContractError>)
    ensures
        match agreements.spec_find(agreement_id) {
            Some(a) => r == Ok::<(JobId, UserId, UserId, Balance, u8), ContractError>(
                agreement_fields(a),
            ),
            None => r == Err::<(JobId, UserId, UserId, Balance, u8), ContractError>(
                ContractError::NotFound,
            ),
        },
{
    match agreements.find(agreement_id) {
        Some(a) => Ok((a.job_id, a.client_id, a.freelancer_id, a.total_amount, a.status.code())),
        None => Err(ContractError::NotFound),
    }
}

/// Moves agreement `agreement_id` to the status with code `new_status_u8`.
///
/// `Active` to `Completed` also completes the agreement's job, as one step:
/// when the job cannot be completed its error is returned unchanged and
/// neither table changes. `Active` to `Disputed` leaves the job alone.
/// Fails with `InvalidInput` for an unknown code, `NotFound` for an unknown
/// agreement, and `InvalidOperation` for any other transition.
pub fn update_agreement_status(
    jobs: &mut RecordTable<Job>,
    agreements: &mut RecordTable<Agreement>,
    agreement_id: AgreementId,
    new_status_u8: u8,
) -> (r: Result<(), ContractError>)
    requires
        jobs_wf(old(jobs)),
        agreements_wf(old(agreements)),
    ensures
        jobs_wf(final(jobs)),
        agreements_wf(final(agreements)),
        final(jobs).spec_capacity() == old(jobs).spec_capacity(),
        final(agreements).spec_capacity() == old(agreements).spec_capacity(),
        (r, final(jobs)@, final(agreements)@) == agreement_status_update(
            old(jobs)@,
            old(agreements)@,
            agreement_id,
            new_status_u8,
        ),
{
    let new_status = match AgreementStatus::from_u8(new_status_u8) {
        Some(s) => s,
        None => return Err(ContractError::InvalidInput),
    };
    let a = match agreements.find(agreement_id) {
        Some(a) => a,
        None => return Err(ContractError::NotFound),
    };
    if !is_agreement_transition_allowed(a.status, new_status) {
        return Err(ContractError::InvalidOperation);
    }
    if new_status == AgreementStatus::Completed {
        // The job moves first; if it cannot, the agreement is left as it was.
        match update_job_status(jobs, a.job_id, JobStatus::Completed.code()) {
            Ok(()) => {},
            Err(e) => return Err(e),
        }
    }
    let updated = Agreement { status: new_status, ..a };
    let r = agreements.update(agreement_id, updated);
    assert forall|i: int| 0 <= i < agreements@.len() implies (#[trigger] agreements@[i]).id
        == i by {
        if i != agreement_id {
            assert(agreements@[i] == old(agreements)@[i]);
        }
    }
    r
}


/// Decodes the argument of `create_agreement_from_proposal`: a big-endian
/// `u32` proposal identifier. `InvalidInput` when fewer than 4 bytes are given.
pub fn decode_create_agreement_args(data: &[u8]) -> (r: Result<ProposalId, ContractError>)
    ensures
        data@.len() < 4 ==> r == Err::<ProposalId, ContractError>(ContractError::InvalidInput),
        data@.len() >= 4 ==> r == Ok::<ProposalId, ContractError>(
            be_value(data@.subrange(0, 4)) as ProposalId,
        ),
{
    if data.len() < 4 {
        return Err(ContractError::InvalidInput);
    }
    Ok(read_u32_be(data, 0))
}

/// Decodes the argument of `get_agreement`: a big-endian `u32` agreement
/// identifier. `InvalidInput` when fewer than 4 bytes are given.
pub fn decode_get_agreement_args(data: &[u8]) -> (r: Result<AgreementId, ContractError>)
    ensures
        data@.len() < 4 ==> r == Err::<AgreementId, ContractError>(ContractError::InvalidInput),
        data@.len() >= 4 ==> r == Ok::<AgreementId, ContractError>(
            be_value(data@.subrange(0, 4)) as AgreementId,
        ),
{
    if data.len() < 4 {
        return Err(ContractError::InvalidInput);
    }
    Ok(read_u32_be(data, 0))
}

/// Decodes the arguments of `update_agreement_status`: a big-endian `u32`
/// agreement identifier and a status byte. `InvalidInput` when fewer than 5
/// bytes are given.
pub fn decode_update_agreement_status_args(data: &[u8]) -> (r: Result<
    (AgreementId, u8),
    ContractError,
>)
    ensures
        data@.len() < 5 ==> r == Err::<(AgreementId, u8), ContractError>(
            ContractError::InvalidInput,
        ),
        data@.len() >= 5 ==> r == Ok::<(AgreementId, u8), ContractError>(
            (be_value(data@.subrange(0, 4)) as AgreementId, data@[4]),
        ),
{
    if data.len() < 5 {
        return Err(ContractError::InvalidInput);
    }
    let agreement_id = read_u32_be(data, 0);
    let status = data[4];
    Ok((agreement_id, status))
}

/// Encodes the result of `create_agreement_from_proposal`: an identifier
/// goes big-endian into the last four bytes, an error's code into the last
/// byte.
pub fn encode_agreement_id_result(
    result: Result<AgreementId, ContractError>,
    output_buffer: &mut [u8; 32],
)
    ensures
        final(output_buffer)@ == match result {
            Ok(id) => right_aligned(old(output_buffer)@, be_bytes(id as nat, 4)),
            Err(e) => with_error_code(old(output_buffer)@, e),
        },
{
    match result {
        Ok(id) => write_u32_right_aligned(output_buffer, id),
        Err(err) => write_error_code(output_buffer, err),
    }
}

/// The bytes that `encode_get_agreement_result` puts at the end of the buffer.
pub open spec fn agreement_record_bytes(
    job_id: JobId,
    client_id: UserId,
    freelancer_id: UserId,
    total_amount: Balance,
    status_u8: u8,
) -> Seq<u8> {
    be_bytes(job_id as nat, 4) + be_bytes(client_id as nat, 4) + be_bytes(freelancer_id as nat, 4)
        + be_bytes(total_amount as nat, 16) + seq![status_u8]
}

/// Encodes the result of `get_agreement`: job, client, freelancer, amount
/// and status code, big-endian and right-aligned in the buffer; an error's
/// code into the last byte.
pub fn encode_get_agreement_result(
    result: Result<(JobId, UserId, UserId, Balance, u8), ContractError>,
    output_buffer: &mut [u8; 32],
)
    ensures
        final(output_buffer)@ == match result {
            Ok((job_id, client_id, freelancer_id, total_amount, status_u8)) => right_aligned(
                old(output_buffer)@,
                agreement_record_bytes(job_id, client_id, freelancer_id, total_amount, status_u8),
            ),
            Err(e) => with_error_code(old(output_buffer)@, e),
        },
{
    match result {
        Ok((job_id, client_id, freelancer_id, total_amount, status_u8)) => {
            write_be(output_buffer, 7, job_id as u128, 4);
            write_be(output_buffer, 11, client_id as u128, 4);
            write_be(output_buffer, 15, freelancer_id as u128, 4);
            write_be(output_buffer, 31, total_amount, 16);
            output_buffer[31] = status_u8;
            assert(output_buffer@ =~= right_aligned(
                old(output_buffer)@,
                agreement_record_bytes(job_id, client_id, freelancer_id, total_amount, status_u8),
            ));
        },
        Err(err) => write_error_code(output_buffer, err),
    }
}

} // verus!
