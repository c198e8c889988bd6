use web3lancer::agreement_management::{
    decode_create_agreement_args,
    decode_get_agreement_args,
    decode_update_agreement_status_args,
    encode_agreement_id_result,
    encode_get_agreement_result,
};
use web3lancer::job_management::{
    decode_create_job_args,
    decode_get_job_args,
    decode_update_job_status_args,
    encode_get_job_result,
    encode_job_id_result,
    encode_simple_result,
};
use web3lancer::ledger::{call, Ledger};
use web3lancer::proposal_management::{
    decode_get_proposal_args,
    decode_submit_proposal_args,
    decode_update_proposal_status_args,
    encode_get_proposal_result,
    encode_proposal_id_result,
};
use web3lancer::types::ContractError;
use web3lancer::wire::{read_be, read_u32_be, write_be};

fn with_selector(selector: u32, args: &[u8]) -> Vec<u8> {
    let mut v = selector.to_be_bytes().to_vec();
    v.extend_from_slice(args);
    v
}

#[test]
fn reads_big_endian() {
    assert_eq!(read_u32_be(&[0x12, 0x34, 0x56, 0x78, 0x9a], 1), 0x3456789a);
    assert_eq!(read_be(&[0xff; 16], 0, 16), u128::MAX);
    assert_eq!(read_be(&[1, 2, 3], 0, 0), 0);
    assert_eq!(read_be(&[1, 2, 3], 1, 2), 0x0203);
}

#[test]
fn writes_big_endian() {
    let mut buf = [0xaau8; 32];
    write_be(&mut buf, 10, 0x0102_0304, 4);
    assert_eq!(&buf[6..10], &[1, 2, 3, 4]);
    assert_eq!(buf[5], 0xaa);
    assert_eq!(buf[10], 0xaa);
}

#[test]
fn decode_job_args() {
    let mut data = vec![0, 0, 0, 7];
    data.extend_from_slice(&1000u128.to_be_bytes());
    assert_eq!(decode_create_job_args(&data), Ok((7, 1000)));
    assert_eq!(decode_create_job_args(&data[..19]), Err(ContractError::InvalidInput));
    assert_eq!(decode_get_job_args(&[0, 0, 1, 2]), Ok(258));
    assert_eq!(decode_get_job_args(&[0, 0, 1]), Err(ContractError::InvalidInput));
    assert_eq!(decode_update_job_status_args(&[0, 0, 0, 3, 2, 9]), Ok((3, 2)));
    assert_eq!(decode_update_job_status_args(&[0, 0, 0, 3]), Err(ContractError::InvalidInput));
}

#[test]
fn decode_proposal_args() {
    let mut data = vec![0, 0, 0, 1, 0, 0, 0, 2];
    data.extend_from_slice(&900u128.to_be_bytes());
    assert_eq!(decode_submit_proposal_args(&data), Ok((1, 2, 900)));
    assert_eq!(decode_submit_proposal_args(&data[..23]), Err(ContractError::InvalidInput));
    assert_eq!(decode_get_proposal_args(&[1, 0, 0, 0]), Ok(1 << 24));
    assert_eq!(decode_get_proposal_args(&[]), Err(ContractError::InvalidInput));
    assert_eq!(decode_update_proposal_status_args(&[0, 0, 0, 5, 1]), Ok((5, 1)));
    assert_eq!(decode_update_proposal_status_args(&[0, 0, 0, 5]), Err(ContractError::InvalidInput));
}

#[test]
fn decode_agreement_args() {
    assert_eq!(decode_create_agreement_args(&[0, 0, 0, 9]), Ok(9));
    assert_eq!(decode_create_agreement_args(&[0, 0]), Err(ContractError::InvalidInput));
    assert_eq!(decode_get_agreement_args(&[0xff, 0xff, 0xff, 0xff]), Ok(u32::MAX));
    assert_eq!(decode_get_agreement_args(&[0]), Err(ContractError::InvalidInput));
    assert_eq!(decode_update_agreement_status_args(&[0, 0, 0, 4, 2]), Ok((4, 2)));
    assert_eq!(decode_update_agreement_status_args(&[0, 0, 0]), Err(ContractError::InvalidInput));
}

#[test]
fn encode_id_results() {
    let mut out = [0u8; 32];
    encode_job_id_result(Ok(0x0102_0304), &mut out);
    let mut expected = [0u8; 32];
    expected[28..].copy_from_slice(&[1, 2, 3, 4]);
    assert_eq!(out, expected);

    let mut out = [0u8; 32];
    encode_proposal_id_result(Err(ContractError::StorageFull), &mut out);
    let mut expected = [0u8; 32];
    expected[31] = 4;
    assert_eq!(out, expected);

    let mut out = [0u8; 32];
    encode_agreement_id_result(Ok(258), &mut out);
    assert_eq!(&out[28..], &[0, 0, 1, 2]);
    assert_eq!(&out[..28], &[0u8; 28]);
}

#[test]
fn encode_record_results() {
    let mut out = [0u8; 32];
    encode_get_job_result(Ok((1, 1000, 1)), &mut out);
    let mut expected = [0u8; 32];
    expected[11..15].copy_from_slice(&1u32.to_be_bytes());
    expected[15..31].copy_from_slice(&1000u128.to_be_bytes());
    expected[31] = 1;
    assert_eq!(out, expected);

    let mut out = [0u8; 32];
    encode_get_proposal_result(Ok((3, 2, 900, 0)), &mut out);
    let mut expected = [0u8; 32];
    expected[7..11].copy_from_slice(&3u32.to_be_bytes());
    expected[11..15].copy_from_slice(&2u32.to_be_bytes());
    expected[15..31].copy_from_slice(&900u128.to_be_bytes());
    assert_eq!(out, expected);

    let mut out = [0u8; 32];
    encode_get_agreement_result(Ok((0, 1, 2, 900, 2)), &mut out);
    let mut expected = [0u8; 32];
    expected[3..7].copy_from_slice(&0u32.to_be_bytes());
    expected[7..11].copy_from_slice(&1u32.to_be_bytes());
    expected[11..15].copy_from_slice(&2u32.to_be_bytes());
    expected[15..31].copy_from_slice(&900u128.to_be_bytes());
    expected[31] = 2;
    assert_eq!(out, expected);

    let mut out = [0u8; 32];
    encode_get_agreement_result(Err(ContractError::NotFound), &mut out);
    assert_eq!(out[31], 2);
    assert_eq!(&out[..31], &[0u8; 31]);
}

#[test]
fn encode_simple_results() {
    let mut out = [0u8; 32];
    encode_simple_result(Ok(()), &mut out);
    assert_eq!(out, [0u8; 32]);
    encode_simple_result(Err(ContractError::InvalidInput), &mut out);
    assert_eq!(out[31], 5);
}

#[test]
fn call_rejects_short_and_unknown() {
    let mut l = Ledger::new();
    let r = call(&mut l, &[0, 0, 1]);
    assert!(r.revert);
    assert!(r.data.is_empty());
    let r = call(&mut l, &with_selector(0x99, &[0; 20]));
    assert!(r.revert);
    assert!(r.data.is_empty());
}

#[test]
fn call_runs_scenario() {
    let mut l = Ledger::new();
    let mut args = vec![0, 0, 0, 1];
    args.extend_from_slice(&1000u128.to_be_bytes());
    let r = call(&mut l, &with_selector(0x01, &args));
    assert!(!r.revert);
    assert_eq!(r.data, vec![0u8; 32]);

    // A second job gets identifier 1, returned in the last four bytes.
    let r = call(&mut l, &with_selector(0x01, &args));
    assert!(!r.revert);
    assert_eq!(&r.data[28..], &[0, 0, 0, 1]);

    let r = call(&mut l, &with_selector(0x02, &[0, 0, 0, 0]));
    assert!(!r.revert);
    let mut expected = vec![0u8; 32];
    expected[11..15].copy_from_slice(&1u32.to_be_bytes());
    expected[15..31].copy_from_slice(&1000u128.to_be_bytes());
    assert_eq!(r.data, expected);

    let mut args = vec![0, 0, 0, 0, 0, 0, 0, 2];
    args.extend_from_slice(&900u128.to_be_bytes());
    let r = call(&mut l, &with_selector(0x10, &args));
    assert!(!r.revert);

    let r = call(&mut l, &with_selector(0x12, &[0, 0, 0, 0, 1]));
    assert!(!r.revert);

    let r = call(&mut l, &with_selector(0x20, &[0, 0, 0, 0]));
    assert!(!r.revert);
    assert_eq!(r.data, vec![0u8; 32]);

    // The job is now in progress: a second agreement is refused.
    let r = call(&mut l, &with_selector(0x20, &[0, 0, 0, 0]));
    assert!(r.revert);
    assert_eq!(r.data, vec![ContractError::InvalidOperation.code()]);

    let r = call(&mut l, &with_selector(0x21, &[0, 0, 0, 0]));
    assert!(!r.revert);
    let mut expected = vec![0u8; 32];
    expected[7..11].copy_from_slice(&1u32.to_be_bytes());
    expected[11..15].copy_from_slice(&2u32.to_be_bytes());
    expected[15..31].copy_from_slice(&900u128.to_be_bytes());
    assert_eq!(r.data, expected);

    let r = call(&mut l, &with_selector(0x22, &[0, 0, 0, 0, 1]));
    assert!(!r.revert);
    let r = call(&mut l, &with_selector(0x02, &[0, 0, 0, 0]));
    assert_eq!(r.data[31], 2);
}

#[test]
fn call_reports_errors() {
    let mut l = Ledger::new();
    let r = call(&mut l, &with_selector(0x01, &[0; 3]));
    assert!(r.revert);
    assert_eq!(r.data, vec![ContractError::InvalidInput.code()]);
    let r = call(&mut l, &with_selector(0x11, &[0, 0, 0, 0]));
    assert!(r.revert);
    assert_eq!(r.data, vec![ContractError::NotFound.code()]);
    let r = call(&mut l, &with_selector(0x03, &[0, 0, 0, 0, 9]));
    assert!(r.revert);
    assert_eq!(r.data, vec![ContractError::InvalidInput.code()]);
}
