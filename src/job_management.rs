use vstd::prelude::*;

use crate::record_table::RecordTable;
use crate::types::{Balance, ContractError, Job, JobId, JobStatus, UserId};
use crate::wire::{
    be_bytes,
    be_value,
    read_be,
    read_u32_be,
    right_aligned,
    with_error_code,
    write_be,
    write_error_code,
    write_u32_right_aligned,
};

verus! {

/// How many jobs a ledger tracks by default.
pub const MAX_JOBS: u32 = 100;

/// Every job sits at the position of its own identifier.
pub open spec fn jobs_wf(jobs: &RecordTable<Job>) -> bool {
    &&& jobs.wf()
    &&& forall|i: int| 0 <= i < jobs@.len() ==> (#[trigger] jobs@[i]).id == i
}

/// The job state machine: `Open` may go to `InProgress` or `Cancelled`,
/// `InProgress` to `Completed` or `Cancelled`; nothing else is allowed.
pub open spec fn job_transition_allowed(current: JobStatus, requested: JobStatus) -> bool {
    match (current, requested) {
        (JobStatus::Open, JobStatus::InProgress) => true,
        (JobStatus::Open, JobStatus::Cancelled) => true,
        (JobStatus::InProgress, JobStatus::Completed) => true,
        (JobStatus::InProgress, JobStatus::Cancelled) => true,
        _ => false,
    }
}

/// The job that `create_job` stores under identifier `id`.
pub open spec fn new_job(id: JobId, client_id: UserId, budget: Balance) -> Job {
    Job { id, client_id, budget, status: JobStatus::Open }
}

/// The outcome of `create_job` on a table holding `jobs`: the result, and
/// the jobs afterwards.
pub open spec fn job_creation(jobs: Seq<Job>, capacity: nat, client_id: UserId, budget: Balance) -> (
    Result<JobId, ContractError>,
    Seq<Job>,
) {
    if jobs.len() < capacity {
        let id = jobs.len() as JobId;
        (Ok(id), jobs.push(new_job(id, client_id, budget)))
    } else {
        (Err(ContractError::StorageFull), jobs)
    }
}

/// What `get_job` reports for a stored job.
pub open spec fn job_fields(job: Job) -> (UserId, Balance, u8) {
    (job.client_id, job.budget, job.status.spec_code())
}

/// The outcome of `update_job_status` on a table holding `jobs`: the result,
/// and the jobs afterwards.
pub open spec fn job_status_update(jobs: Seq<Job>, job_id: JobId, code: u8) -> (
    Result<(), ContractError>,
    Seq<Job>,
) {
    match JobStatus::spec_from_u8(code) {
        None => (Err(ContractError::InvalidInput), jobs),
        Some(requested) => if (job_id as nat) >= jobs.len() {
            (Err(ContractError::NotFound), jobs)
        } else if !job_transition_allowed(jobs[job_id as int].status, requested) {
            (Err(ContractError::InvalidOperation), jobs)
        } else {
            (Ok(()), jobs.update(job_id as int, Job { status: requested, ..jobs[job_id as int] }))
        },
    }
}

/// A successful creation gets as identifier the number of jobs created before
/// it, so identifiers count up from 0 and are never reused; the jobs already
/// stored are kept as they were. A failed creation changes nothing.
pub proof fn lemma_job_ids_sequential(
    jobs: Seq<Job>,
    capacity: nat,
    client_id: UserId,
    budget: Balance,
)
    requires
        capacity <= u32::MAX,
        jobs.len() <= capacity,
    ensures
        ({
            let (r, after) = job_creation(jobs, capacity, client_id, budget);
            match r {
                Ok(id) => {
                    &&& id == jobs.len()
                    &&& after.len() == jobs.len() + 1
                    &&& after.subrange(0, jobs.len() as int) == jobs
                    &&& after[id as int].id == id
                },
                Err(_) => after == jobs,
            }
        }),
{
    let (r, after) = job_creation(jobs, capacity, client_id, budget);
    if r is Ok {
        assert(after.subrange(0, jobs.len() as int) =~= jobs);
    }
}

/// Once `capacity` jobs are stored, creating one more fails with
/// `StorageFull` and every stored job stays as it was.
pub proof fn lemma_job_capacity_enforced(
    jobs: Seq<Job>,
    capacity: nat,
    client_id: UserId,
    budget: Balance,
)
    requires
        jobs.len() == capacity,
    ensures
        job_creation(jobs, capacity, client_id, budget) == (
            Err::<JobId, ContractError>(ContractError::StorageFull),
            jobs,
        ),
{
}

/// Reading a job right after creating it gives back exactly the client and
/// budget it was created with, and the `Open` status.
pub proof fn lemma_job_round_trip(
    before: RecordTable<Job>,
    after: RecordTable<Job>,
    client_id: UserId,
    budget: Balance,
    id: JobId,
)
    requires
        before.wf(),
        (Ok::<JobId, ContractError>(id), after@) == job_creation(
            before@,
            before.spec_capacity(),
            client_id,
            budget,
        ),
    ensures
        after.spec_find(id) == Some(new_job(id, client_id, budget)),
        job_fields(after.spec_find(id)->Some_0) == (client_id, budget, JobStatus::Open.spec_code()),
{
}

/// A status update succeeds exactly for `Open` to `InProgress` or
/// `Cancelled` and for `InProgress` to `Completed` or `Cancelled`; any other
/// pair on an existing job fails with `InvalidOperation`, and an unknown
/// status code fails with `InvalidInput` whatever the table holds. Only a
/// success changes the table, and only the status of that one job: no
/// update adds or removes a job.
pub proof fn lemma_job_transition_closure(jobs: Seq<Job>, job_id: JobId, code: u8)
    ensures
        ({
            let (r, after) = job_status_update(jobs, job_id, code);
            &&& code > 3 ==> r == Err::<(), ContractError>(ContractError::InvalidInput)
            &&& code <= 3 && job_id < jobs.len() ==> {
                let current = jobs[job_id as int].status;
                let requested = JobStatus::spec_from_u8(code)->Some_0;
                &&& (r is Ok <==> {
                    ||| current == JobStatus::Open && requested == JobStatus::InProgress
                    ||| current == JobStatus::Open && requested == JobStatus::Cancelled
                    ||| current == JobStatus::InProgress && requested == JobStatus::Completed
                    ||| current == JobStatus::InProgress && requested == JobStatus::Cancelled
                })
                &&& r is Err ==> r == Err::<(), ContractError>(ContractError::InvalidOperation)
            }
            &&& after.len() == jobs.len()
            &&& r is Err ==> after == jobs
            &&& r is Ok ==> after == jobs.update(
                job_id as int,
                Job { status: JobStatus::spec_from_u8(code)->Some_0, ..jobs[job_id as int] },
            )
        }),
{
}

/// A status code outside 0..=3 is refused with `InvalidInput` before any job
/// is looked at: never read as some other status.
pub proof fn lemma_job_status_code_rejected(jobs: Seq<Job>, job_id: JobId, code: u8)
    requires
        code > 3,
    ensures
        JobStatus::spec_from_u8(code) is None,
        job_status_update(jobs, job_id, code) == (
            Err::<(), ContractError>(ContractError::InvalidInput),
            jobs,
        ),
{
}

/// Whether the transition from `current` to `requested` is allowed.
pub fn is_job_transition_allowed(current: JobStatus, requested: JobStatus) -> (r: bool)
    ensures
        r == job_transition_allowed(current, requested),
{
    match (current, requested) {
        (JobStatus::Open, JobStatus::InProgress) => true,
        (JobStatus::Open, JobStatus::Cancelled) => true,
        (JobStatus::InProgress, JobStatus::Completed) => true,
        (JobStatus::InProgress, JobStatus::Cancelled) => true,
        _ => false,
    }
}

/// Creates an `Open` job and returns its identifier, the number of jobs
/// created before it; fails with `StorageFull`, changing nothing, when the
/// table is full.
pub fn create_job(jobs: &mut RecordTable<Job>, client_id: UserId, budget: Balance) -> (r: Result<
    JobId,
    ContractError,
>)
    requires
        jobs_wf(old(jobs)),
    ensures
        jobs_wf(final(jobs)),
        final(jobs).spec_capacity() == old(jobs).spec_capacity(),
        (r, final(jobs)@) == job_creation(old(jobs)@, old(jobs).spec_capacity(), client_id, budget),
{
    match jobs.next_id() {
        None => Err(ContractError::StorageFull),
        Some(job_id) => {
            let job = Job { id: job_id, client_id, budget, status: JobStatus::Open };
            let r = jobs.insert(job);
            assert(jobs@ =~= old(jobs)@.push(job));
            assert forall|i: int| 0 <= i < jobs@.len() implies (#[trigger] jobs@[i]).id == i by {
                if i < old(jobs)@.len() {
                    assert(jobs@[i] == old(jobs)@[i]);
                }
            }
            r
        },
    }
}

/// The client, budget and status code of job `job_id`; `NotFound` when
/// there is no such job.
pub fn get_job(jobs: &RecordTable<Job>, job_id: JobId) -> (r: Result<
    (UserId, Balance, u8),
    ContractError,
>)
    ensures
        match jobs.spec_find(job_id) {
            Some(job) => r == Ok::<(UserId, Balance, u8), ContractError>(job_fields(job)),
            None => r == Err::<(UserId, Balance, u8), ContractError>(ContractError::NotFound),
        },
{
    match jobs.find(job_id) {
        Some(job) => Ok((job.client_id, job.budget, job.status.code())),
        None => Err(ContractError::NotFound),
    }
}

/// Moves job `job_id` to the status with code `new_status_u8`.
///
/// Fails with `InvalidInput` for an unknown code (before looking at the
/// table), `NotFound` for an unknown job, and `InvalidOperation` for a
/// transition the job state machine does not allow; a failure changes nothing.
pub fn update_job_status(jobs: &mut RecordTable<Job>, job_id: JobId, new_status_u8: u8) -> (r:
    Result<(), ContractError>)
    requires
        jobs_wf(old(jobs)),
    ensures
        jobs_wf(final(jobs)),
        final(jobs).spec_capacity() == old(jobs).spec_capacity(),
        (r, final(jobs)@) == job_status_update(old(jobs)@, job_id, new_status_u8),
{
    let new_status = match JobStatus::from_u8(new_status_u8) {
        Some(s) => s,
        None => return Err(ContractError::InvalidInput),
    };
    match jobs.find(job_id) {
        None => Err(ContractError::NotFound),
        Some(job) => {
            if !is_job_transition_allowed(job.status, new_status) {
                return Err(ContractError::InvalidOperation);
            }
            let updated = Job { status: new_status, ..job };
            let r = jobs.update(job_id, updated);
            assert forall|i: int| 0 <= i < jobs@.len() implies (#[trigger] jobs@[i]).id == i by {
                if i != job_id {
                    assert(jobs@[i] == old(jobs)@[i]);
                }
            }
            r
        },
    }
}


/// Decodes the arguments of `create_job`: a big-endian `u32` client and a
/// big-endian `u128` budget. `InvalidInput` when fewer than 20 bytes are given.
pub fn decode_create_job_args(data: &[u8]) -> (r: Result<(UserId, Balance), ContractError>)
    ensures
        data@.len() < 20 ==> r == Err::<(UserId, Balance), ContractError>(
            ContractError::InvalidInput,
        ),
        data@.len() >= 20 ==> r == Ok::<(UserId, Balance), ContractError>(
            (
                be_value(data@.subrange(0, 4)) as UserId,
                be_value(data@.subrange(4, 20)) as Balance,
            ),
        ),
{
    if data.len() < 20 {
        return Err(ContractError::InvalidInput);
    }
    let client_id = read_u32_be(data, 0);
    let budget = read_be(data, 4, 16);
    Ok((client_id, budget))
}

/// Decodes the argument of `get_job`: a big-endian `u32` job identifier.
/// `InvalidInput` when fewer than 4 bytes are given.
pub fn decode_get_job_args(data: &[u8]) -> (r: Result<JobId, ContractError>)
    ensures
        data@.len() < 4 ==> r == Err::<JobId, ContractError>(ContractError::InvalidInput),
        data@.len() >= 4 ==> r == Ok::<JobId, ContractError>(
            be_value(data@.subrange(0, 4)) as JobId,
        ),
{
    if data.len() < 4 {
        return Err(ContractError::InvalidInput);
    }
    Ok(read_u32_be(data, 0))
}

/// Decodes the arguments of `update_job_status`: a big-endian `u32` job
/// identifier and a status byte. `InvalidInput` when fewer than 5 bytes are
/// given.
pub fn decode_update_job_status_args(data: &[u8]) -> (r: Result<(JobId, u8), ContractError>)
    ensures
        data@.len() < 5 ==> r == Err::<(JobId, u8), ContractError>(ContractError::InvalidInput),
        data@.len() >= 5 ==> r == Ok::<(JobId, u8), ContractError>(
            (be_value(data@.subrange(0, 4)) as JobId, data@[4]),
        ),
{
    if data.len() < 5 {
        return Err(ContractError::InvalidInput);
    }
    let job_id = read_u32_be(data, 0);
    let status = data[4];
    Ok((job_id, status))
}

/// Encodes the result of `create_job`: an identifier goes big-endian into
/// the last four bytes, an error's code into the last byte.
pub fn encode_job_id_result(result: Result<JobId, ContractError>, output_buffer: &mut [u8; 32])
    ensures
        final(output_buffer)@ == match result {
            Ok(id) => right_aligned(old(output_buffer)@, be_bytes(id as nat, 4)),
            Err(e) => with_error_code(old(output_buffer)@, e),
        },
{
    match result {
        Ok(job_id) => write_u32_right_aligned(output_buffer, job_id),
        Err(err) => write_error_code(output_buffer, err),
    }
}

/// The bytes that `encode_get_job_result` puts at the end of the buffer.
pub open spec fn job_record_bytes(client_id: UserId, budget: Balance, status_u8: u8) -> Seq<u8> {
    be_bytes(client_id as nat, 4) + be_bytes(budget as nat, 16) + seq![status_u8]
}

/// Encodes the result of `get_job`: client, budget and status code,
/// big-endian and right-aligned in the buffer; an error's code into the last
/// byte.
pub fn encode_get_job_result(
    result: Result<(UserId, Balance, u8), ContractError>,
    output_buffer: &mut [u8; 32],
)
    ensures
        final(output_buffer)@ == match result {
            Ok((client_id, budget, status_u8)) => right_aligned(
                old(output_buffer)@,
                job_record_bytes(client_id, budget, status_u8),
            ),
            Err(e) => with_error_code(old(output_buffer)@, e),
        },
{
    match result {
        Ok((client_id, budget, status_u8)) => {
            write_be(output_buffer, 15, client_id as u128, 4);
            write_be(output_buffer, 31, budget, 16);
            output_buffer[31] = status_u8;
            assert(output_buffer@ =~= right_aligned(
                old(output_buffer)@,
                job_record_bytes(client_id, budget, status_u8),
            ));
        },
        Err(err) => write_error_code(output_buffer, err),
    }
}

/// Encodes the result of an update: success leaves the buffer as it is, an
/// error's code goes into the last byte.
pub fn encode_simple_result(result: Result<(), ContractError>, output_buffer: &mut [u8; 32])
    ensures
        final(output_buffer)@ == match result {
            Ok(_) => old(output_buffer)@,
            Err(e) => with_error_code(old(output_buffer)@, e),
        },
{
    match result {
        Ok(_) => {},
        Err(err) => write_error_code(output_buffer, err),
    }
}

} // verus!
