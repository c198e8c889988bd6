use vstd::prelude::*;

use crate::agreement_management::{
    agreement_creation,
    agreement_fields,
    agreement_record_bytes,
    agreement_status_update,
    agreements_wf,
    create_agreement_from_proposal,
    decode_create_agreement_args,
    decode_get_agreement_args,
    decode_update_agreement_status_args,
    encode_agreement_id_result,
    encode_get_agreement_result,
    get_agreement,
    update_agreement_status,
    MAX_AGREEMENTS,
};
use crate::job_management::{
    create_job,
    decode_create_job_args,
    decode_get_job_args,
    decode_update_job_status_args,
    encode_get_job_result,
    encode_job_id_result,
    encode_simple_result,
    get_job,
    job_creation,
    job_fields,
    job_record_bytes,
    job_status_update,
    jobs_wf,
    update_job_status,
    MAX_JOBS,
};
use crate::proposal_management::{
    decode_get_proposal_args,
    decode_submit_proposal_args,
    decode_update_proposal_status_args,
    encode_get_proposal_result,
    encode_proposal_id_result,
    get_proposal,
    proposal_fields,
    proposal_record_bytes,
    proposal_status_update,
    proposal_submission,
    proposals_wf,
    submit_proposal,
    update_proposal_status,
    MAX_PROPOSALS,
};
use crate::record_table::RecordTable;
use crate::types::{Agreement, ContractError, Job, Proposal};
use crate::wire::{be_bytes, be_value, read_u32_be, right_aligned};

verus! {

/// Selector of `create_job`.
pub const CREATE_JOB_SELECTOR: u32 = 0x01;

/// Selector of `get_job`.
pub const GET_JOB_SELECTOR: u32 = 0x02;

/// Selector of `update_job_status`.
pub const UPDATE_JOB_STATUS_SELECTOR: u32 = 0x03;

/// Selector of `submit_proposal`.
pub const SUBMIT_PROPOSAL_SELECTOR: u32 = 0x10;

/// Selector of `get_proposal`.
pub const GET_PROPOSAL_SELECTOR: u32 = 0x11;

/// Selector of `update_proposal_status`.
pub const UPDATE_PROPOSAL_STATUS_SELECTOR: u32 = 0x12;

/// Selector of `create_agreement_from_proposal`.
pub const CREATE_AGREEMENT_SELECTOR: u32 = 0x20;

/// Selector of `get_agreement`.
pub const GET_AGREEMENT_SELECTOR: u32 = 0x21;

/// Selector of `update_agreement_status`.
pub const UPDATE_AGREEMENT_STATUS_SELECTOR: u32 = 0x22;

/// The three record tables of a marketplace.
pub struct Ledger {
    pub jobs: RecordTable<Job>,
    pub proposals: RecordTable<Proposal>,
    pub agreements: RecordTable<Agreement>,
}

/// What a call hands back to the host: `revert` says whether its effects
/// are to be discarded, `data` is the returned bytes.
pub struct CallReply {
    pub revert: bool,
    pub data: Vec<u8>,
}

/// Thirty-two zero bytes: the output buffer before a call writes to it.
pub open spec fn zero_buffer() -> Seq<u8> {
    Seq::new(32, |i: int| 0u8)
}

/// The reply to a call whose outcome is `out`: `None` for a call that was not
/// understood (a reply with no data), an error (its code alone), or the bytes
/// of a result, right-aligned in a zeroed 32-byte buffer.
pub open spec fn reply_for(out: Option<Result<Seq<u8>, ContractError>>) -> (bool, Seq<u8>) {
    match out {
        None => (true, Seq::empty()),
        Some(Err(e)) => (true, seq![e.spec_code()]),
        Some(Ok(bytes)) => (false, right_aligned(zero_buffer(), bytes)),
    }
}

/// An identifier result as bytes.
pub open spec fn id_bytes(r: Result<u32, ContractError>) -> Result<Seq<u8>, ContractError> {
    match r {
        Ok(id) => Ok(be_bytes(id as nat, 4)),
        Err(e) => Err(e),
    }
}

/// An update result as bytes: nothing on success.
pub open spec fn unit_bytes(r: Result<(), ContractError>) -> Result<Seq<u8>, ContractError> {
    match r {
        Ok(_) => Ok(Seq::empty()),
        Err(e) => Err(e),
    }
}

/// The big-endian `u32` at `start` in `s`.
pub open spec fn be_u32_at(s: Seq<u8>, start: int) -> u32 {
    be_value(s.subrange(start, start + 4)) as u32
}

/// The big-endian `u128` at `start` in `s`.
pub open spec fn be_u128_at(s: Seq<u8>, start: int) -> u128 {
    be_value(s.subrange(start, start + 16)) as u128
}

impl Ledger {
    /// Every table keeps each record at the position of its identifier.
    pub open spec fn wf(&self) -> bool {
        &&& jobs_wf(&self.jobs)
        &&& proposals_wf(&self.proposals)
        &&& agreements_wf(&self.agreements)
    }

    /// The outcome of a call with bytes `data` (a big-endian `u32` selector,
    /// then the arguments), and the jobs, proposals and agreements afterwards.
    pub open spec fn call_effect(self, data: Seq<u8>) -> (
        Option<Result<Seq<u8>, ContractError>>,
        Seq<Job>,
        Seq<Proposal>,
        Seq<Agreement>,
    ) {
        let jobs = self.jobs@;
        let proposals = self.proposals@;
        let agreements = self.agreements@;
        let unchanged_with = |out: Option<Result<Seq<u8>, ContractError>>|
            (out, jobs, proposals, agreements);
        let invalid = unchanged_with(Some(Err(ContractError::InvalidInput)));
        if data.len() < 4 {
            unchanged_with(None)
        } else {
            let selector = be_u32_at(data, 0);
            let args = data.subrange(4, data.len() as int);
            if selector == CREATE_JOB_SELECTOR {
                if args.len() < 20 {
                    invalid
                } else {
                    let (r, js) = job_creation(
                        jobs,
                        self.jobs.spec_capacity(),
                        be_u32_at(args, 0),
                        be_u128_at(args, 4),
                    );
                    (Some(id_bytes(r)), js, proposals, agreements)
                }
            } else if selector == GET_JOB_SELECTOR {
                if args.len() < 4 {
                    invalid
                } else {
                    match self.jobs.spec_find(be_u32_at(args, 0)) {
                        Some(j) => {
                            let (c, b, s) = job_fields(j);
                            unchanged_with(Some(Ok(job_record_bytes(c, b, s))))
                        },
                        None => unchanged_with(Some(Err(ContractError::NotFound))),
                    }
                }
            } else if selector == UPDATE_JOB_STATUS_SELECTOR {
                if args.len() < 5 {
                    invalid
                } else {
                    let (r, js) = job_status_update(jobs, be_u32_at(args, 0), args[4]);
                    (Some(unit_bytes(r)), js, proposals, agreements)
                }
            } else if selector == SUBMIT_PROPOSAL_SELECTOR {
                if args.len() < 24 {
                    invalid
                } else {
                    let (r, ps) = proposal_submission(
                        jobs,
                        proposals,
                        self.proposals.spec_capacity(),
                        be_u32_at(args, 0),
                        be_u32_at(args, 4),
                        be_u128_at(args, 8),
                    );
                    (Some(id_bytes(r)), jobs, ps, agreements)
                }
            } else if selector == GET_PROPOSAL_SELECTOR {
                if args.len() < 4 {
                    invalid
                } else {
                    match self.proposals.spec_find(be_u32_at(args, 0)) {
                        Some(p) => {
                            let (j, f, b, s) = proposal_fields(p);
                            unchanged_with(Some(Ok(proposal_record_bytes(j, f, b, s))))
                        },
                        None => unchanged_with(Some(Err(ContractError::NotFound))),
                    }
                }
            } else if selector == UPDATE_PROPOSAL_STATUS_SELECTOR {
                if args.len() < 5 {
                    invalid
                } else {
                    let (r, ps) = proposal_status_update(proposals, be_u32_at(args, 0), args[4]);
                    (Some(unit_bytes(r)), jobs, ps, agreements)
                }
            } else if selector == CREATE_AGREEMENT_SELECTOR {
                if args.len() < 4 {
                    invalid
                } else {
                    let (r, js, ags) = agreement_creation(
                        jobs,
                        proposals,
                        agreements,
                        self.agreements.spec_capacity(),
                        be_u32_at(args, 0),
                    );
                    (Some(id_bytes(r)), js, proposals, ags)
                }
            } else if selector == GET_AGREEMENT_SELECTOR {
                if args.len() < 4 {
                    invalid
                } else {
                    match self.agreements.spec_find(be_u32_at(args, 0)) {
                        Some(a) => {
                            let (j, c, f, t, s) = agreement_fields(a);
                            unchanged_with(Some(Ok(agreement_record_bytes(j, c, f, t, s))))
                        },
                        None => unchanged_with(Some(Err(ContractError::NotFound))),
                    }
                }
            } else if selector == UPDATE_AGREEMENT_STATUS_SELECTOR {
                if args.len() < 5 {
                    invalid
                } else {
                    let (r, js, ags) = agreement_status_update(
                        jobs,
                        agreements,
                        be_u32_at(args, 0),
                        args[4],
                    );
                    (Some(unit_bytes(r)), js, proposals, ags)
                }
            } else {
                unchanged_with(None)
            }
        }
    }

    /// An empty ledger with room for 100 jobs, 200 proposals and 100 agreements.
    pub fn new() -> (r: Ledger)
        ensures
            r.wf(),
            r.jobs@.len() == 0,
            r.proposals@.len() == 0,
            r.agreements@.len() == 0,
            r.jobs.spec_capacity() == MAX_JOBS,
            r.proposals.spec_capacity() == MAX_PROPOSALS,
            r.agreements.spec_capacity() == MAX_AGREEMENTS,
    {
        Ledger::with_capacities(MAX_JOBS, MAX_PROPOSALS, MAX_AGREEMENTS)
    }

    /// An empty ledger with the given capacities.
    pub fn with_capacities(jobs: u32, proposals: u32, agreements: u32) -> (r: Ledger)
        ensures
            r.wf(),
            r.jobs@.len() == 0,
            r.proposals@.len() == 0,
            r.agreements@.len() == 0,
            r.jobs.spec_capacity() == jobs,
            r.proposals.spec_capacity() == proposals,
            r.agreements.spec_capacity() == agreements,
    {
        Ledger {
            jobs: RecordTable::new(jobs),
            proposals: RecordTable::new(proposals),
            agreements: RecordTable::new(agreements),
        }
    }
}

/// Handles one call: reads the selector, decodes the arguments, runs the
/// operation and encodes its outcome.
///
/// A call shorter than a selector, or with an unknown selector, is rejected
/// with no data; a failed operation (or arguments that do not decode) is
/// rejected with its error code alone; a successful one returns its result
/// right-aligned in 32 bytes. Each operation changes the tables as a whole or
/// not at all.
pub fn call(ledger: &mut Ledger, call_data: &[u8]) -> (r: CallReply)
    requires
        old(ledger).wf(),
    ensures
        final(ledger).wf(),
        final(ledger).jobs.spec_capacity() == old(ledger).jobs.spec_capacity(),
        final(ledger).proposals.spec_capacity() == old(ledger).proposals.spec_capacity(),
        final(ledger).agreements.spec_capacity() == old(ledger).agreements.spec_capacity(),
        (r.revert, r.data@) == reply_for(old(ledger).call_effect(call_data@).0),
        final(ledger).jobs@ == old(ledger).call_effect(call_data@).1,
        final(ledger).proposals@ == old(ledger).call_effect(call_data@).2,
        final(ledger).agreements@ == old(ledger).call_effect(call_data@).3,
{
    if call_data.len() < 4 {
        return CallReply { revert: true, data: Vec::new() };
    }
    let selector = read_u32_be(call_data, 0);
    let args = &call_data[4..call_data.len()];
    let ghost bytes: Seq<u8>;
    let mut out = [0u8; 32];
    assert(out@ =~= zero_buffer());
    let outcome: Result<(), ContractError> = if selector == CREATE_JOB_SELECTOR {
        match decode_create_job_args(args) {
            Ok((client_id, budget)) => {
                let result = create_job(&mut ledger.jobs, client_id, budget);
                encode_job_id_result(result, &mut out);
                proof {
                    bytes = be_bytes(result->Ok_0 as nat, 4);
                }
                match result {
                    Ok(_) => Ok(()),
                    Err(e) => Err(e),
                }
            },
            Err(e) => Err(e),
        }
    } else if selector == GET_JOB_SELECTOR {
        match decode_get_job_args(args) {
            Ok(job_id) => {
                let result = get_job(&ledger.jobs, job_id);
                encode_get_job_result(result, &mut out);
                proof {
                    let (c, b, s) = result->Ok_0;
                    bytes = job_record_bytes(c, b, s);
                }
                match result {
                    Ok(_) => Ok(()),
                    Err(e) => Err(e),
                }
            },
            Err(e) => Err(e),
        }
    } else if selector == UPDATE_JOB_STATUS_SELECTOR {
        match decode_update_job_status_args(args) {
            Ok((job_id, new_status)) => {
                let result = update_job_status(&mut ledger.jobs, job_id, new_status);
                encode_simple_result(result, &mut out);
                proof {
                    bytes = Seq::empty();
                }
                result
            },
            Err(e) => Err(e),
        }
    } else if selector == SUBMIT_PROPOSAL_SELECTOR {
        match decode_submit_proposal_args(args) {
            Ok((job_id, freelancer_id, bid_amount)) => {
                let result = submit_proposal(
                    &ledger.jobs,
                    &mut ledger.proposals,
                    job_id,
                    freelancer_id,
                    bid_amount,
                );
                encode_proposal_id_result(result, &mut out);
                proof {
                    bytes = be_bytes(result->Ok_0 as nat, 4);
                }
                match result {
                    Ok(_) => Ok(()),
                    Err(e) => Err(e),
                }
            },
            Err(e) => Err(e),
        }
    } else if selector == GET_PROPOSAL_SELECTOR {
        match decode_get_proposal_args(args) {
            Ok(proposal_id) => {
                let result = get_proposal(&ledger.proposals, proposal_id);
                encode_get_proposal_result(result, &mut out);
                proof {
                    let (j, f, b, s) = result->Ok_0;
                    bytes = proposal_record_bytes(j, f, b, s);
                }
                match result {
                    Ok(_) => Ok(()),
                    Err(e) => Err(e),
                }
            },
            Err(e) => Err(e),
        }
    } else if selector == UPDATE_PROPOSAL_STATUS_SELECTOR {
        match decode_update_proposal_status_args(args) {
            Ok((proposal_id, new_status)) => {
                let result = update_proposal_status(&mut ledger.proposals, proposal_id, new_status);
                encode_simple_result(result, &mut out);
                proof {
                    bytes = Seq::empty();
                }
                result
            },
            Err(e) => Err(e),
        }
    } else if selector == CREATE_AGREEMENT_SELECTOR {
        match decode_create_agreement_args(args) {
            Ok(proposal_id) => {
                let result = create_agreement_from_proposal(
                    &mut ledger.jobs,
                    &ledger.proposals,
                    &mut ledger.agreements,
                    proposal_id,
                );
                encode_agreement_id_result(result, &mut out);
                proof {
                    bytes = be_bytes(result->Ok_0 as nat, 4);
                }
                match result {
                    Ok(_) => Ok(()),
                    Err(e) => Err(e),
                }
            },
            Err(e) => Err(e),
        }
    } else if selector == GET_AGREEMENT_SELECTOR {
        match decode_get_agreement_args(args) {
            Ok(agreement_id) => {
                let result = get_agreement(&ledger.agreements, agreement_id);
                encode_get_agreement_result(result, &mut out);
                proof {
                    let (j, c, f, t, s) = result->Ok_0;
                    bytes = agreement_record_bytes(j, c, f, t, s);
                }
                match result {
                    Ok(_) => Ok(()),
                    Err(e) => Err(e),
                }
            },
            Err(e) => Err(e),
        }
    } else if selector == UPDATE_AGREEMENT_STATUS_SELECTOR {
        match decode_update_agreement_status_args(args) {
            Ok((agreement_id, new_status)) => {
                let result = update_agreement_status(
                    &mut ledger.jobs,
                    &mut ledger.agreements,
                    agreement_id,
                    new_status,
                );
                encode_simple_result(result, &mut out);
                proof {
                    bytes = Seq::empty();
                }
                result
            },
            Err(e) => Err(e),
        }
    } else {
        return CallReply { revert: true, data: Vec::new() };
    };
    match outcome {
        Ok(()) => {
            assert(out@ =~= right_aligned(zero_buffer(), bytes));
            CallReply { revert: false, data: buffer_to_vec(&out) }
        },
        Err(e) => CallReply { revert: true, data: vec![e.code()] },
    }
}

/// The bytes of `buf` as a vector.
fn buffer_to_vec(buf: &[u8; 32]) -> (r: Vec<u8>)
    ensures
        r@ == buf@,
{
    let mut v: Vec<u8> = Vec::new();
    let mut i: usize = 0;
    while i < 32
        invariant
            i <= 32,
            buf@.len() == 32,
            v@ == buf@.subrange(0, i as int),
        decreases 32 - i,
    {
        v.push(buf[i]);
        i = i + 1;
        assert(v@ =~= buf@.subrange(0, i as int));
    }
    assert(v@ =~= buf@);
    v
}

} // verus!
