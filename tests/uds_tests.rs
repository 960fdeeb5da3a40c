use automotive::uds::{
    build_request, check_identifier_echo, check_response, dtc_count_response, download_upload_request,
    ecu_reset_response, identifier_bytes, max_block_length, memory_request, routine_request, routine_response,
    session_parameters, transfer_data_request, transfer_data_response, transfer_exit_response,
    write_identifier_request, DTCFormatIdentifier, Error as UDSError, NegativeResponseCode, ResponseCheck,
    ServiceIdentifier,
};
use std::time::Duration;

/// Feeds responses one by one until one is not ResponsePending.
fn answer(sid: u8, sub: Option<u8>, responses: &[&[u8]]) -> (usize, Result<Vec<u8>, UDSError>) {
    for (i, r) in responses.iter().enumerate() {
        match check_response(sid, sub, r) {
            ResponseCheck::Pending => continue,
            ResponseCheck::Done(res) => return (i + 1, res),
        }
    }
    panic!("no final response")
}

#[test]
fn tester_present_exchange() {
    let sid = ServiceIdentifier::TesterPresent.value();
    assert_eq!(build_request(sid, Some(0), None), vec![0x3e, 0x00]);
    let (_, r) = answer(sid, Some(0), &[&[0x7e, 0x00]]);
    assert_eq!(r, Ok(vec![]));
}

#[test]
fn read_data_by_identifier_exchange() {
    let sid = ServiceIdentifier::ReadDataByIdentifier.value();
    let did = identifier_bytes(0x1234);
    assert_eq!(build_request(sid, None, Some(&did)), vec![0x22, 0x12, 0x34]);
    let (_, r) = answer(sid, None, &[&[0x62, 0x12, 0x34, 0x64, 0x65, 0x61, 0x64, 0x62, 0x65, 0x65, 0x66]]);
    let value = check_identifier_echo(0x1234, &r.unwrap()).unwrap();
    assert_eq!(value, b"deadbeef".to_vec());
}

#[test]
fn response_pending_is_skipped() {
    let pending: &[u8] = &[0x7f, 0x22, 0x78];
    let (n, r) = answer(0x22, None, &[pending, pending, pending, &[0x62, 0x12, 0x34, 0xff]]);
    assert_eq!(n, 4);
    assert_eq!(check_identifier_echo(0x1234, &r.unwrap()), Ok(vec![0xff]));
}

#[test]
fn negative_response_is_reported() {
    let sid = ServiceIdentifier::DiagnosticSessionControl.value();
    let (_, r) = answer(sid, Some(0x2), &[&[0x7f, 0x10, 0x33]]);
    assert_eq!(r, Err(UDSError::NegativeResponse(NegativeResponseCode::SecurityAccessDenied)));
    let (_, r) = answer(sid, Some(0x2), &[&[0x7f, 0x10, 0x99]]);
    assert_eq!(r, Err(UDSError::NegativeResponse(NegativeResponseCode::NonStandard(0x99))));
    assert_eq!(NegativeResponseCode::from(0x78), NegativeResponseCode::RequestCorrectlyReceivedResponsePending);
}

#[test]
fn invalid_service_and_sub_function() {
    assert_eq!(answer(0x10, Some(1), &[&[0x51, 0x01]]).1, Err(UDSError::InvalidServiceId(0x51)));
    assert_eq!(answer(0x10, Some(1), &[&[0x50, 0x02]]).1, Err(UDSError::InvalidSubFunction(0x02)));
    assert_eq!(answer(0x10, Some(1), &[&[0x50]]).1, Err(UDSError::InvalidResponseLength));
    assert_eq!(answer(0x10, Some(1), &[&[]]).1, Err(UDSError::InvalidResponseLength));
    assert_eq!(answer(0x10, Some(1), &[&[0x50, 0x01, 0x00, 0x32, 0x01, 0xf4]]).1, Ok(vec![0x00, 0x32, 0x01, 0xf4]));
}

#[test]
fn session_parameter_record() {
    let rec = session_parameters(&[0x00, 0x32, 0x01, 0xf4]).unwrap();
    assert_eq!(rec.p2_server_max, Duration::from_millis(50));
    assert_eq!(rec.p2_star_server_max, Duration::from_millis(5000));
    assert!(session_parameters(&[0x00, 0x32]).is_none());
}

#[test]
fn ecu_reset_power_down_time() {
    assert_eq!(ecu_reset_response(&[0x0f]), Some(0x0f));
    assert_eq!(ecu_reset_response(&[]), None);
}

#[test]
fn identifier_echo_errors() {
    assert_eq!(check_identifier_echo(0x1234, &[0x12]), Err(UDSError::InvalidResponseLength));
    assert_eq!(check_identifier_echo(0x1234, &[0x12, 0x35, 1]), Err(UDSError::InvalidDataIdentifier(0x1235)));
    assert_eq!(write_identifier_request(0xf190, &[1, 2]), vec![0xf1, 0x90, 1, 2]);
}

#[test]
fn memory_requests() {
    assert_eq!(memory_request(&[0x12, 0x34], &[0x10], None), vec![0x12, 0x12, 0x34, 0x10]);
    assert_eq!(memory_request(&[0x12], &[0x01], Some(&[0xaa])), vec![0x11, 0x12, 0x01, 0xaa]);
    assert_eq!(
        download_upload_request(1, 2, &[0, 0, 0x10, 0], &[0, 0x10]),
        vec![0x12, 0x24, 0, 0, 0x10, 0, 0, 0x10]
    );
}

#[test]
fn max_block_length_decoding() {
    assert_eq!(max_block_length(&[0x20, 0x0f, 0xff]), Ok(0x0fff));
    assert_eq!(max_block_length(&[0x80, 1, 2, 3, 4, 5, 6, 7, 8]), Ok(0x0102030405060708));
    assert_eq!(max_block_length(&[0x20, 0x0f]), Err(UDSError::InvalidResponseLength));
    assert_eq!(max_block_length(&[0x00]), Err(UDSError::InvalidResponseLength));
    assert_eq!(max_block_length(&[0x90, 1, 2, 3, 4, 5, 6, 7, 8, 9]), Err(UDSError::InvalidResponseLength));
    assert_eq!(max_block_length(&[]), Err(UDSError::InvalidResponseLength));
}

#[test]
fn routine_control_codec() {
    assert_eq!(routine_request(0xff00, Some(&[1])), vec![0xff, 0x00, 1]);
    assert_eq!(routine_response(0xff00, &[0xff, 0x00]), Ok(None));
    assert_eq!(routine_response(0xff00, &[0xff, 0x00, 7]), Ok(Some(vec![7])));
    assert_eq!(routine_response(0xff00, &[0xff, 0x01]), Err(UDSError::InvalidDataIdentifier(0xff01)));
}

#[test]
fn transfer_codec() {
    assert_eq!(transfer_data_request(1, Some(&[9, 9])), vec![1, 9, 9]);
    assert_eq!(transfer_data_response(1, &[1]), Ok(None));
    assert_eq!(transfer_data_response(1, &[1, 5]), Ok(Some(vec![5])));
    assert_eq!(transfer_data_response(1, &[2]), Err(UDSError::InvalidBlockSequenceCounter(2)));
    assert_eq!(transfer_data_response(1, &[]), Err(UDSError::InvalidResponseLength));
    assert_eq!(transfer_exit_response(&[]), None);
    assert_eq!(transfer_exit_response(&[0xab]), Some(vec![0xab]));
}

#[test]
fn dtc_count_decoding() {
    let r = dtc_count_response(&[0xff, 0x01, 0x00, 0x05]).unwrap();
    assert_eq!(r.dtc_status_availability_mask, 0xff);
    assert_eq!(r.dtc_format_identifier, DTCFormatIdentifier::ISO_14229_1_DTCFormat);
    assert_eq!(r.dtc_count, 5);
    assert_eq!(dtc_count_response(&[0xff, 0x01, 0x00]), Err(UDSError::InvalidResponseLength));
}
