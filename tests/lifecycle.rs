use web3lancer::agreement_management::{
    create_agreement_from_proposal,
    get_agreement,
    update_agreement_status,
};
use web3lancer::job_management::{create_job, get_job, update_job_status};
use web3lancer::ledger::Ledger;
use web3lancer::proposal_management::{get_proposal, submit_proposal, update_proposal_status};
use web3lancer::record_table::RecordTable;
use web3lancer::types::{AgreementStatus, ContractError, Job, JobStatus, ProposalStatus};

/// Job 0 for client 1 with budget 1000, proposal 0 by freelancer 2 bidding
/// 900, accepted, and agreement 0 made from it.
fn scenario_a() -> Ledger {
    let mut l = Ledger::new();
    assert_eq!(create_job(&mut l.jobs, 1, 1000), Ok(0));
    assert_eq!(get_job(&l.jobs, 0), Ok((1, 1000, JobStatus::Open.code())));
    assert_eq!(submit_proposal(&l.jobs, &mut l.proposals, 0, 2, 900), Ok(0));
    assert_eq!(get_proposal(&l.proposals, 0), Ok((0, 2, 900, ProposalStatus::Submitted.code())));
    assert_eq!(update_proposal_status(&mut l.proposals, 0, ProposalStatus::Accepted.code()), Ok(()));
    assert_eq!(create_agreement_from_proposal(&mut l.jobs, &l.proposals, &mut l.agreements, 0), Ok(0));
    l
}

#[test]
fn end_to_end_scenario_a() {
    let l = scenario_a();
    assert_eq!(get_agreement(&l.agreements, 0), Ok((0, 1, 2, 900, AgreementStatus::Active.code())));
    assert_eq!(get_job(&l.jobs, 0), Ok((1, 1000, JobStatus::InProgress.code())));
}

#[test]
fn end_to_end_scenario_b_no_duplicate_agreement() {
    let mut l = scenario_a();
    assert_eq!(
        create_agreement_from_proposal(&mut l.jobs, &l.proposals, &mut l.agreements, 0),
        Err(ContractError::InvalidOperation)
    );
    assert_eq!(l.agreements.len(), 1);
    assert_eq!(get_agreement(&l.agreements, 1), Err(ContractError::NotFound));
    assert_eq!(get_job(&l.jobs, 0), Ok((1, 1000, JobStatus::InProgress.code())));
}

#[test]
fn end_to_end_scenario_c_completion() {
    let mut l = scenario_a();
    assert_eq!(
        update_agreement_status(&mut l.jobs, &mut l.agreements, 0, AgreementStatus::Completed.code()),
        Ok(())
    );
    assert_eq!(get_agreement(&l.agreements, 0), Ok((0, 1, 2, 900, AgreementStatus::Completed.code())));
    assert_eq!(get_job(&l.jobs, 0), Ok((1, 1000, JobStatus::Completed.code())));
}

#[test]
fn completion_refused_when_job_cancelled_changes_nothing() {
    let mut l = scenario_a();
    assert_eq!(update_job_status(&mut l.jobs, 0, JobStatus::Cancelled.code()), Ok(()));
    assert_eq!(
        update_agreement_status(&mut l.jobs, &mut l.agreements, 0, AgreementStatus::Completed.code()),
        Err(ContractError::InvalidOperation)
    );
    assert_eq!(get_agreement(&l.agreements, 0), Ok((0, 1, 2, 900, AgreementStatus::Active.code())));
    assert_eq!(get_job(&l.jobs, 0), Ok((1, 1000, JobStatus::Cancelled.code())));
}

#[test]
fn dispute_leaves_job_alone() {
    let mut l = scenario_a();
    assert_eq!(
        update_agreement_status(&mut l.jobs, &mut l.agreements, 0, AgreementStatus::Disputed.code()),
        Ok(())
    );
    assert_eq!(get_agreement(&l.agreements, 0), Ok((0, 1, 2, 900, 2)));
    assert_eq!(get_job(&l.jobs, 0), Ok((1, 1000, JobStatus::InProgress.code())));
    assert_eq!(
        update_agreement_status(&mut l.jobs, &mut l.agreements, 0, AgreementStatus::Completed.code()),
        Err(ContractError::InvalidOperation)
    );
}

#[test]
fn agreement_update_errors() {
    let mut l = scenario_a();
    assert_eq!(update_agreement_status(&mut l.jobs, &mut l.agreements, 0, 3), Err(ContractError::InvalidInput));
    assert_eq!(update_agreement_status(&mut l.jobs, &mut l.agreements, 7, 1), Err(ContractError::NotFound));
    assert_eq!(update_agreement_status(&mut l.jobs, &mut l.agreements, 0, 0), Err(ContractError::InvalidOperation));
}

#[test]
fn agreement_needs_accepted_proposal_and_existing_job() {
    let mut l = Ledger::new();
    assert_eq!(
        create_agreement_from_proposal(&mut l.jobs, &l.proposals, &mut l.agreements, 0),
        Err(ContractError::NotFound)
    );
    create_job(&mut l.jobs, 1, 1000).unwrap();
    submit_proposal(&l.jobs, &mut l.proposals, 0, 2, 900).unwrap();
    assert_eq!(
        create_agreement_from_proposal(&mut l.jobs, &l.proposals, &mut l.agreements, 0),
        Err(ContractError::InvalidOperation)
    );
    // A proposal whose job is missing from the table handed in.
    let mut other_jobs: RecordTable<Job> = RecordTable::new(10);
    update_proposal_status(&mut l.proposals, 0, 1).unwrap();
    assert_eq!(
        create_agreement_from_proposal(&mut other_jobs, &l.proposals, &mut l.agreements, 0),
        Err(ContractError::NotFound)
    );
    assert_eq!(l.agreements.len(), 0);
}

#[test]
fn agreement_storage_full_changes_nothing() {
    let mut l = Ledger::with_capacities(10, 10, 0);
    create_job(&mut l.jobs, 1, 1000).unwrap();
    submit_proposal(&l.jobs, &mut l.proposals, 0, 2, 900).unwrap();
    update_proposal_status(&mut l.proposals, 0, 1).unwrap();
    assert_eq!(
        create_agreement_from_proposal(&mut l.jobs, &l.proposals, &mut l.agreements, 0),
        Err(ContractError::StorageFull)
    );
    assert_eq!(get_job(&l.jobs, 0), Ok((1, 1000, JobStatus::Open.code())));
}

#[test]
fn identifiers_count_up_from_zero() {
    let mut l = Ledger::new();
    for k in 0..5u32 {
        assert_eq!(create_job(&mut l.jobs, k, 10 * k as u128), Ok(k));
    }
    for k in 0..5u32 {
        assert_eq!(submit_proposal(&l.jobs, &mut l.proposals, k, 100 + k, 5), Ok(k));
    }
    // A failed submission does not use up an identifier.
    assert_eq!(submit_proposal(&l.jobs, &mut l.proposals, 99, 1, 1), Err(ContractError::NotFound));
    assert_eq!(submit_proposal(&l.jobs, &mut l.proposals, 4, 1, 1), Ok(5));
    for k in 0..3u32 {
        update_proposal_status(&mut l.proposals, k, 1).unwrap();
        assert_eq!(create_agreement_from_proposal(&mut l.jobs, &l.proposals, &mut l.agreements, k), Ok(k));
    }
}

#[test]
fn job_capacity_enforced() {
    let mut jobs: RecordTable<Job> = RecordTable::new(100);
    for k in 0..100u32 {
        assert_eq!(create_job(&mut jobs, k, k as u128), Ok(k));
    }
    assert_eq!(create_job(&mut jobs, 7, 7), Err(ContractError::StorageFull));
    assert_eq!(jobs.len(), 100);
    for k in 0..100u32 {
        assert_eq!(get_job(&jobs, k), Ok((k, k as u128, 0)));
    }
}

#[test]
fn proposal_capacity_enforced() {
    let mut l = Ledger::with_capacities(1, 2, 1);
    create_job(&mut l.jobs, 1, 1).unwrap();
    assert_eq!(submit_proposal(&l.jobs, &mut l.proposals, 0, 2, 3), Ok(0));
    assert_eq!(submit_proposal(&l.jobs, &mut l.proposals, 0, 3, 4), Ok(1));
    assert_eq!(submit_proposal(&l.jobs, &mut l.proposals, 0, 4, 5), Err(ContractError::StorageFull));
    assert_eq!(get_proposal(&l.proposals, 0), Ok((0, 2, 3, 0)));
    assert_eq!(get_proposal(&l.proposals, 1), Ok((0, 3, 4, 0)));
    assert_eq!(create_job(&mut l.jobs, 1, 1), Err(ContractError::StorageFull));
}

#[test]
fn zero_capacity_table_is_full() {
    let mut jobs: RecordTable<Job> = RecordTable::new(0);
    assert_eq!(jobs.next_id(), None);
    assert_eq!(create_job(&mut jobs, 1, 1), Err(ContractError::StorageFull));
}

#[test]
fn job_transition_closure() {
    let all = [JobStatus::Open, JobStatus::InProgress, JobStatus::Completed, JobStatus::Cancelled];
    let allowed = [
        (JobStatus::Open, JobStatus::InProgress),
        (JobStatus::Open, JobStatus::Cancelled),
        (JobStatus::InProgress, JobStatus::Completed),
        (JobStatus::InProgress, JobStatus::Cancelled),
    ];
    for current in all {
        for requested in all {
            let mut jobs: RecordTable<Job> = RecordTable::new(4);
            create_job(&mut jobs, 1, 50).unwrap();
            // Bring the job to `current` along allowed transitions.
            match current {
                JobStatus::Open => {},
                JobStatus::InProgress => update_job_status(&mut jobs, 0, 1).unwrap(),
                JobStatus::Completed => {
                    update_job_status(&mut jobs, 0, 1).unwrap();
                    update_job_status(&mut jobs, 0, 2).unwrap();
                },
                JobStatus::Cancelled => update_job_status(&mut jobs, 0, 3).unwrap(),
            }
            let r = update_job_status(&mut jobs, 0, requested.code());
            if allowed.contains(&(current, requested)) {
                assert_eq!(r, Ok(()));
                assert_eq!(get_job(&jobs, 0), Ok((1, 50, requested.code())));
            } else {
                assert_eq!(r, Err(ContractError::InvalidOperation));
                assert_eq!(get_job(&jobs, 0), Ok((1, 50, current.code())));
            }
        }
    }
}

#[test]
fn job_update_unknown_code_is_invalid_input_before_lookup() {
    let mut jobs: RecordTable<Job> = RecordTable::new(4);
    assert_eq!(update_job_status(&mut jobs, 0, 4), Err(ContractError::InvalidInput));
    assert_eq!(update_job_status(&mut jobs, 0, 255), Err(ContractError::InvalidInput));
    assert_eq!(update_job_status(&mut jobs, 0, 1), Err(ContractError::NotFound));
}

#[test]
fn proposal_gating() {
    let mut l = Ledger::new();
    assert_eq!(submit_proposal(&l.jobs, &mut l.proposals, 0, 2, 900), Err(ContractError::NotFound));
    create_job(&mut l.jobs, 1, 1000).unwrap();
    update_job_status(&mut l.jobs, 0, JobStatus::InProgress.code()).unwrap();
    for bid in [0u128, 1, 900, u128::MAX] {
        assert_eq!(submit_proposal(&l.jobs, &mut l.proposals, 0, 2, bid), Err(ContractError::InvalidOperation));
    }
    create_job(&mut l.jobs, 1, 1000).unwrap();
    update_job_status(&mut l.jobs, 1, JobStatus::Cancelled.code()).unwrap();
    assert_eq!(submit_proposal(&l.jobs, &mut l.proposals, 1, 2, 5), Err(ContractError::InvalidOperation));
    assert_eq!(l.proposals.len(), 0);
}

#[test]
fn proposal_transitions() {
    let mut l = Ledger::new();
    create_job(&mut l.jobs, 1, 1000).unwrap();
    submit_proposal(&l.jobs, &mut l.proposals, 0, 2, 900).unwrap();
    submit_proposal(&l.jobs, &mut l.proposals, 0, 3, 800).unwrap();
    assert_eq!(update_proposal_status(&mut l.proposals, 0, 3), Err(ContractError::InvalidInput));
    assert_eq!(update_proposal_status(&mut l.proposals, 9, 1), Err(ContractError::NotFound));
    assert_eq!(update_proposal_status(&mut l.proposals, 0, 0), Err(ContractError::InvalidOperation));
    assert_eq!(update_proposal_status(&mut l.proposals, 0, 1), Ok(()));
    assert_eq!(update_proposal_status(&mut l.proposals, 0, 1), Err(ContractError::InvalidOperation));
    assert_eq!(update_proposal_status(&mut l.proposals, 0, 2), Err(ContractError::InvalidOperation));
    assert_eq!(update_proposal_status(&mut l.proposals, 1, 2), Ok(()));
    assert_eq!(update_proposal_status(&mut l.proposals, 1, 1), Err(ContractError::InvalidOperation));
    assert_eq!(get_proposal(&l.proposals, 0), Ok((0, 2, 900, 1)));
    assert_eq!(get_proposal(&l.proposals, 1), Ok((0, 3, 800, 2)));
}

#[test]
fn status_code_decoding() {
    assert_eq!(JobStatus::from_u8(0), Some(JobStatus::Open));
    assert_eq!(JobStatus::from_u8(3), Some(JobStatus::Cancelled));
    assert_eq!(ProposalStatus::from_u8(2), Some(ProposalStatus::Rejected));
    assert_eq!(AgreementStatus::from_u8(1), Some(AgreementStatus::Completed));
    for code in 4..=255u8 {
        assert_eq!(JobStatus::from_u8(code), None);
    }
    for code in 3..=255u8 {
        assert_eq!(ProposalStatus::from_u8(code), None);
        assert_eq!(AgreementStatus::from_u8(code), None);
    }
    for code in 0..=3u8 {
        assert_eq!(JobStatus::from_u8(code).unwrap().code(), code);
    }
}

#[test]
fn error_codes() {
    assert_eq!(ContractError::InvalidOperation.code(), 1);
    assert_eq!(ContractError::NotFound.code(), 2);
    assert_eq!(ContractError::AlreadyExists.code(), 3);
    assert_eq!(ContractError::StorageFull.code(), 4);
    assert_eq!(ContractError::InvalidInput.code(), 5);
    assert_eq!(ContractError::Unauthorized.code(), 6);
}

#[test]
fn round_trip_after_creation() {
    let mut l = Ledger::new();
    let id = create_job(&mut l.jobs, u32::MAX, u128::MAX).unwrap();
    assert_eq!(get_job(&l.jobs, id), Ok((u32::MAX, u128::MAX, 0)));
    let p = submit_proposal(&l.jobs, &mut l.proposals, id, 77, 123_456_789_012_345_678_901).unwrap();
    assert_eq!(get_proposal(&l.proposals, p), Ok((id, 77, 123_456_789_012_345_678_901, 0)));
    assert_eq!(l.jobs.find(id), Some(Job { id, client_id: u32::MAX, budget: u128::MAX, status: JobStatus::Open }));
    assert_eq!(get_job(&l.jobs, id + 1), Err(ContractError::NotFound));
}
